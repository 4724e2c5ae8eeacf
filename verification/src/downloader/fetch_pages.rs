//! The walk over the pages of a listing, as a state machine.
//!
//! The machine says which page to ask for ([`CrawlState::action`]); the caller asks and
//! hands back what came ([`PageResponse`]); [`read_page`] tells what the answer holds and
//! [`Downloader::fetch_page`] gives the state that follows. An answer is empty where its
//! body holds fewer bytes than a listing with a post takes. A listing ends after three
//! empty answers in a row; a page that cannot be parsed is asked for again while the
//! budget lasts and then counts as a page without posts; an answer that never came ends
//! the walk with an error.
use crate::declare::RetryType;
use crate::declare::EMPTY_CONFIRMATIONS;
use crate::declare::EMPTY_PAGE_BYTES;
use crate::declare::TOO_MANY_REQUESTS_DELAY_SEC;
use crate::document::at;
use crate::document::json_at;
use crate::document::json_len;
use crate::document::json_member;
use crate::document::json_text;
use crate::document::len_of;
use crate::document::member;
use crate::document::document_of;
use crate::document::parse_document;
use crate::document::text_of;
use crate::downloader::index::Downloader;
use crate::link::trailing_id;
use crate::link::Link;
use crate::link::Page;
use crate::link::UrlType;
use crate::text::texts;
use vstd::prelude::*;

verus! {

/// The body of an answer.
pub struct PageBody {
    /// How many bytes the body holds.
    pub size: u64,
    /// The body as text.
    pub text: String,
}

/// What came back for a listing page.
pub enum PageResponse {
    /// No answer came.
    Unreachable,
    /// The server answered: the body length that it declared, if any, and the body, if it
    /// could be read.
    Received { declared_length: Option<u64>, body: Option<PageBody> },
}

/// What a listing page holds.
pub enum PageOutcome {
    /// No answer came.
    Unreachable,
    /// The answer is too short to hold a post.
    Empty,
    /// The identifiers of the posts on the page, in the order given.
    Listing(Vec<String>),
    /// The body is no document.
    Unparsed,
}

/// What a walk does next.
#[derive(Clone, Copy, PartialEq, Eq, Structural, Debug)]
pub enum CrawlPhase {
    /// The page in hand is asked for, after a wait of this many seconds.
    Fetch(u64),
    /// The listing is walked.
    Done,
    /// The walk is given up.
    Failed,
}

/// Why a walk gave no identifiers.
#[derive(Clone, Copy, PartialEq, Eq, Structural, Debug)]
pub enum CrawlError {
    /// A page could not be reached.
    Transport,
    /// The address of a single post ends in no identifier.
    NoIdentifier,
}

/// What a walk asks of its caller.
#[derive(Clone, Copy, PartialEq, Eq, Structural, Debug)]
pub enum CrawlAction {
    /// Wait `wait` seconds, ask for the page `page` and report what came.
    Fetch { page: u64, wait: u64 },
    /// Nothing: the walk is over.
    Stop,
}

/// A page outcome as mathematical values.
pub enum Fetched {
    Unreachable,
    Empty,
    Listing(Seq<Seq<char>>),
    Unparsed,
}

/// The state of a walk as mathematical values.
pub struct Crawl {
    pub phase: CrawlPhase,
    /// The page in hand, counted from zero.
    pub page: u64,
    /// Whether one page only is asked for.
    pub single: bool,
    /// The identifiers gathered, in the order met.
    pub ids: Seq<Seq<char>>,
    /// Empty answers in a row.
    pub confirm: u32,
    /// Tries left for a page that cannot be parsed.
    pub parse_retry: RetryType,
    /// Why the walk failed, where it did.
    pub error: Option<CrawlError>,
}

/// The state of a walk.
pub struct CrawlState {
    pub phase: CrawlPhase,
    pub page: u64,
    pub single: bool,
    pub ids: Vec<String>,
    pub confirm: u32,
    pub parse_retry: RetryType,
    pub error: Option<CrawlError>,
}

impl View for PageOutcome {
    type V = Fetched;

    open spec fn view(&self) -> Fetched {
        match self {
            PageOutcome::Unreachable => Fetched::Unreachable,
            PageOutcome::Empty => Fetched::Empty,
            PageOutcome::Listing(ids) => Fetched::Listing(texts(ids@)),
            PageOutcome::Unparsed => Fetched::Unparsed,
        }
    }
}

impl View for CrawlState {
    type V = Crawl;

    open spec fn view(&self) -> Crawl {
        Crawl {
            phase: self.phase,
            page: self.page,
            single: self.single,
            ids: texts(self.ids@),
            confirm: self.confirm,
            parse_retry: self.parse_retry,
            error: self.error,
        }
    }
}

/// The identifiers that a listing document holds: for each of its members in turn, the
/// text of what the member has under `id`.
pub open spec fn listing_ids(document: json::JsonValue) -> Seq<Seq<char>> {
    Seq::new(
        json_len(document),
        |i: int| json_text(json_member(json_at(document, i), "id"@)),
    )
}

/// What an answer holds. An answer is empty where its body holds fewer bytes than a
/// listing with a post takes; the size of the body decides, whatever length was declared.
/// A larger body gives the identifiers of its document. Where the body could not be read,
/// the answer is empty if a length below that size was declared, and else a page without
/// identifiers.
pub open spec fn page_outcome(declared_length: Option<u64>, body: Option<(u64, Seq<char>)>) -> Fetched {
    match body {
        Some((size, text)) => if size < EMPTY_PAGE_BYTES {
            Fetched::Empty
        } else {
            match document_of(text) {
                None => Fetched::Unparsed,
                Some(document) => Fetched::Listing(listing_ids(document)),
            }
        },
        None => if declared_length is Some && declared_length->0 < EMPTY_PAGE_BYTES {
            Fetched::Empty
        } else {
            Fetched::Listing(seq![])
        },
    }
}

impl Crawl {
    /// The walk of a listing before its first page: from page zero where all pages are
    /// asked for, else the one page named.
    pub open spec fn of_listing(page: Page, retry: RetryType) -> Crawl {
        Crawl {
            phase: CrawlPhase::Fetch(0),
            page: match page {
                Page::All => 0,
                Page::One(number) => number,
            },
            single: page is One,
            ids: seq![],
            confirm: 0,
            parse_retry: retry,
            error: None,
        }
    }

    /// The walk of a single post: over before it began, with the one identifier that the
    /// address ends in.
    pub open spec fn of_post(base: Seq<char>, retry: RetryType) -> Crawl {
        Crawl {
            phase: if trailing_id(base) is Some {
                CrawlPhase::Done
            } else {
                CrawlPhase::Failed
            },
            page: 0,
            single: true,
            ids: match trailing_id(base) {
                Some(id) => seq![id],
                None => seq![],
            },
            confirm: 0,
            parse_retry: retry,
            error: if trailing_id(base) is Some {
                None
            } else {
                Some(CrawlError::NoIdentifier)
            },
        }
    }

    /// The state after the page in hand is dealt with: the walk is over where one page was
    /// asked for or no further page can be counted, else the next page is asked for.
    pub open spec fn advanced(self) -> Crawl {
        if self.single || self.page == u64::MAX {
            Crawl { phase: CrawlPhase::Done, ..self }
        } else {
            Crawl { phase: CrawlPhase::Fetch(0), page: (self.page + 1) as u64, ..self }
        }
    }

    /// The state that follows when the page in hand gave `outcome`. A walk that is over
    /// stays as it is.
    pub open spec fn next(self, outcome: Fetched) -> Crawl {
        if !(self.phase is Fetch) {
            self
        } else {
            match outcome {
                Fetched::Unreachable => Crawl {
                    phase: CrawlPhase::Failed,
                    error: Some(CrawlError::Transport),
                    ..self
                },
                Fetched::Empty => if self.single || self.confirm + 1 >= EMPTY_CONFIRMATIONS {
                    Crawl { phase: CrawlPhase::Done, ..self }
                } else {
                    Crawl {
                        phase: CrawlPhase::Fetch(0),
                        confirm: (self.confirm + 1) as u32,
                        ..self
                    }
                },
                Fetched::Listing(ids) => (Crawl { ids: self.ids + ids, confirm: 0, ..self }).advanced(),
                Fetched::Unparsed => if self.parse_retry > 0 {
                    Crawl {
                        phase: CrawlPhase::Fetch(TOO_MANY_REQUESTS_DELAY_SEC),
                        confirm: 0,
                        parse_retry: (self.parse_retry - 1) as RetryType,
                        ..self
                    }
                } else {
                    (Crawl { confirm: 0, ..self }).advanced()
                },
            }
        }
    }

    /// What the state asks of the caller.
    pub open spec fn action(self) -> CrawlAction {
        match self.phase {
            CrawlPhase::Fetch(wait) => CrawlAction::Fetch { page: self.page, wait },
            _ => CrawlAction::Stop,
        }
    }

    /// The state after each page of `pages` was listed in turn.
    pub open spec fn after_pages(self, pages: Seq<Seq<Seq<char>>>) -> Crawl
        decreases pages.len(),
    {
        if pages.len() == 0 {
            self
        } else {
            self.next(Fetched::Listing(pages[0])).after_pages(pages.drop_first())
        }
    }
}

impl CrawlState {
    /// What the caller is to do next.
    pub fn action(&self) -> (action: CrawlAction)
        ensures
            action == self@.action(),
    {
        match self.phase {
            CrawlPhase::Fetch(wait) => CrawlAction::Fetch { page: self.page, wait },
            _ => CrawlAction::Stop,
        }
    }

    /// The identifiers gathered once the walk is over, or why there are none; `None` while
    /// the walk is under way.
    pub fn result(self) -> (result: Option<Result<Vec<String>, CrawlError>>)
        ensures
            self.phase is Fetch ==> result is None,
            self.phase is Done ==> result is Some && result->0 is Ok && texts(result->0->Ok_0@)
                == self@.ids,
            self.phase is Failed ==> result == Some(
                Err::<Vec<String>, CrawlError>(
                    match self.error {
                        Some(error) => error,
                        None => CrawlError::Transport,
                    },
                ),
            ),
    {
        match self.phase {
            CrawlPhase::Fetch(_) => None,
            CrawlPhase::Done => Some(Ok(self.ids)),
            CrawlPhase::Failed => Some(
                Err(
                    match self.error {
                        Some(error) => error,
                        None => CrawlError::Transport,
                    },
                ),
            ),
        }
    }

    fn advance(self) -> (after: Self)
        ensures
            after@ == self@.advanced(),
    {
        let mut after = self;
        if after.single || after.page == u64::MAX {
            after.phase = CrawlPhase::Done;
        } else {
            after.phase = CrawlPhase::Fetch(0);
            after.page = after.page + 1;
        }
        after
    }
}

/// The identifiers that a listing document holds.
pub fn page_ids(document: &json::JsonValue) -> (ids: Vec<String>)
    ensures
        texts(ids@) == listing_ids(*document),
{
    let len = len_of(document);
    let mut ids: Vec<String> = Vec::new();
    let mut i: usize = 0;
    while i < len
        invariant
            i <= len,
            len == json_len(*document),
            ids@.len() == i,
            forall|k: int| 0 <= k < i ==> ids@[k]@ == json_text(
                json_member(json_at(*document, k), "id"@),
            ),
        decreases len - i,
    {
        let entry = at(document, i);
        let id = member(entry, "id");
        ids.push(text_of(id));
        i = i + 1;
    }
    assert(texts(ids@) =~= listing_ids(*document));
    ids
}

/// Tells what an answer to the request for a listing page holds.
pub fn read_page(response: PageResponse) -> (outcome: PageOutcome)
    ensures
        outcome@ == match response {
            PageResponse::Unreachable => Fetched::Unreachable,
            PageResponse::Received { declared_length, body } => page_outcome(
                declared_length,
                match body {
                    Some(body) => Some((body.size, body.text@)),
                    None => None,
                },
            ),
        },
{
    match response {
        PageResponse::Unreachable => PageOutcome::Unreachable,
        PageResponse::Received { declared_length, body } => match body {
            Some(body) => {
                if body.size < EMPTY_PAGE_BYTES {
                    return PageOutcome::Empty;
                }
                match parse_document(body.text.as_str()) {
                    None => PageOutcome::Unparsed,
                    Some(document) => PageOutcome::Listing(page_ids(&document)),
                }
            },
            None => {
                let short = match declared_length {
                    Some(length) => length < EMPTY_PAGE_BYTES,
                    None => false,
                };
                if short {
                    PageOutcome::Empty
                } else {
                    let ids: Vec<String> = Vec::new();
                    assert(texts(ids@) =~= seq![]);
                    PageOutcome::Listing(ids)
                }
            },
        },
    }
}

impl Downloader {
    /// Begins the walk. The address of a single post gives its one identifier at once and
    /// asks for no page; a listing starts at its first page, or at the one page named,
    /// with the run's budget for pages that cannot be parsed.
    pub fn fetch_post_id(&self) -> (state: CrawlState)
        ensures
            state@ == (if self.link.typ is Post {
                Crawl::of_post(self.link.base(), self.retry)
            } else {
                Crawl::of_listing(self.link.page, self.retry)
            }),
    {
        let mut ids: Vec<String> = Vec::new();
        assert(texts(ids@) =~= seq![]);
        match self.link.typ {
            UrlType::Post => {
                match self.link.get_post_id() {
                    Some(id) => {
                        ids.push(crate::text::string_of(&crate::text::chars_of(id)));
                        assert(texts(ids@) =~= seq![id@]);
                        CrawlState {
                            phase: CrawlPhase::Done,
                            page: 0,
                            single: true,
                            ids,
                            confirm: 0,
                            parse_retry: self.retry,
                            error: None,
                        }
                    },
                    None => CrawlState {
                        phase: CrawlPhase::Failed,
                        page: 0,
                        single: true,
                        ids,
                        confirm: 0,
                        parse_retry: self.retry,
                        error: Some(CrawlError::NoIdentifier),
                    },
                }
            },
            _ => {
                let (page, single): (u64, bool) = match self.link.page {
                    Page::All => (0, false),
                    Page::One(number) => (number, true),
                };
                CrawlState {
                    phase: CrawlPhase::Fetch(0),
                    page,
                    single,
                    ids,
                    confirm: 0,
                    parse_retry: self.retry,
                    error: None,
                }
            },
        }
    }

    /// The address of the listing page `page`.
    pub fn page_address(&self, page: u64) -> (address: String)
        ensures
            address@ == (Link {
                domain: self.link.domain,
                url: self.link.url,
                page: Page::One(page),
                typ: self.link.typ,
            }).request(),
    {
        let link = Link::new(
            self.link.domain.clone(),
            self.link.url.clone(),
            Page::One(page),
            self.link.typ,
        );
        link.url()
    }

    /// One step of the walk: the state that follows `state` when the page in hand gave
    /// `outcome`.
    pub fn fetch_page(&self, state: CrawlState, outcome: PageOutcome) -> (after: CrawlState)
        ensures
            after@ == state@.next(outcome@),
    {
        let mut after = state;
        match after.phase {
            CrawlPhase::Fetch(_) => {},
            _ => {
                return after;
            },
        }
        match outcome {
            PageOutcome::Unreachable => {
                after.phase = CrawlPhase::Failed;
                after.error = Some(CrawlError::Transport);
                after
            },
            PageOutcome::Empty => {
                if after.single || after.confirm >= EMPTY_CONFIRMATIONS - 1 {
                    after.phase = CrawlPhase::Done;
                } else {
                    after.phase = CrawlPhase::Fetch(0);
                    after.confirm = after.confirm + 1;
                }
                after
            },
            PageOutcome::Listing(ids) => {
                let ghost before = after.ids@;
                let mut ids = ids;
                let ghost added = ids@;
                after.ids.append(&mut ids);
                assert(texts(after.ids@) =~= texts(before) + texts(added));
                after.confirm = 0;
                after.advance()
            },
            PageOutcome::Unparsed => {
                after.confirm = 0;
                if after.parse_retry > 0 {
                    after.phase = CrawlPhase::Fetch(TOO_MANY_REQUESTS_DELAY_SEC);
                    after.parse_retry = after.parse_retry - 1;
                    after
                } else {
                    after.advance()
                }
            },
        }
    }
}

/// The address of a single post is walked without a request: the walk is over when it
/// begins, holds the one identifier that the address ends in, asks for nothing, and stays
/// so whatever is reported.
pub proof fn law_single_post_needs_no_request(base: Seq<char>, retry: RetryType, reported: Fetched)
    requires
        trailing_id(base) is Some,
    ensures
        Crawl::of_post(base, retry).phase is Done,
        Crawl::of_post(base, retry).ids == seq![trailing_id(base)->0],
        Crawl::of_post(base, retry).ids.len() == 1,
        Crawl::of_post(base, retry).action() == CrawlAction::Stop,
        Crawl::of_post(base, retry).next(reported) == Crawl::of_post(base, retry),
{
}

/// A listing that gives `pages` and then nothing is walked page by page: each page is
/// asked for once, at the place after the one before, and the identifiers gathered are
/// those of the pages in order, each page's once. Two empty answers leave the walk asking
/// for the same page with nothing added; the third ends it.
pub proof fn law_listing_is_walked_once(start: Crawl, pages: Seq<Seq<Seq<char>>>)
    requires
        start.phase is Fetch,
        !start.single,
        start.page + pages.len() <= u64::MAX,
    ensures
        start.after_pages(pages).phase is Fetch,
        start.after_pages(pages).page == start.page + pages.len(),
        start.after_pages(pages).ids == start.ids + pages.flatten(),
        pages.len() > 0 ==> start.after_pages(pages).confirm == 0,
        start.after_pages(pages).confirm == 0 ==> ({
            let walked = start.after_pages(pages);
            let once = walked.next(Fetched::Empty);
            let twice = once.next(Fetched::Empty);
            let thrice = twice.next(Fetched::Empty);
            &&& once.action() == (CrawlAction::Fetch { page: walked.page, wait: 0 })
            &&& twice.action() == (CrawlAction::Fetch { page: walked.page, wait: 0 })
            &&& once.ids == walked.ids
            &&& twice.ids == walked.ids
            &&& thrice.phase is Done
            &&& thrice.action() == CrawlAction::Stop
            &&& thrice.ids == start.ids + pages.flatten()
            &&& thrice.error == start.error
        }),
    decreases pages.len(),
{
    if pages.len() == 0 {
        assert(pages.flatten() =~= Seq::<Seq<char>>::empty());
        assert(start.ids + pages.flatten() =~= start.ids);
    } else {
        let following = start.next(Fetched::Listing(pages[0]));
        law_listing_is_walked_once(following, pages.drop_first());
        assert(following.ids + pages.drop_first().flatten() =~= start.ids + pages.flatten()) by {
            assert(pages.flatten() == pages[0] + pages.drop_first().flatten());
        }
    }
}

/// The walk from the first page of a listing taken whole: after `pages` and three empty
/// answers it is over and holds the identifiers of the pages in order.
pub proof fn law_listing_ends_after_three_empty_answers(retry: RetryType, pages: Seq<Seq<Seq<char>>>)
    requires
        pages.len() <= u64::MAX,
    ensures
        Crawl::of_listing(Page::All, retry).after_pages(pages).next(Fetched::Empty).next(
            Fetched::Empty,
        ).next(Fetched::Empty).phase is Done,
        Crawl::of_listing(Page::All, retry).after_pages(pages).next(Fetched::Empty).next(
            Fetched::Empty,
        ).next(Fetched::Empty).ids == pages.flatten(),
        Crawl::of_listing(Page::All, retry).after_pages(pages).next(Fetched::Empty).next(
            Fetched::Empty,
        ).phase is Fetch,
{
    let start = Crawl::of_listing(Page::All, retry);
    law_listing_is_walked_once(start, pages);
    assert(start.ids + pages.flatten() =~= pages.flatten());
    if pages.len() == 0 {
        assert(start.after_pages(pages) == start);
    }
}

/// Where one page is asked for, one answer ends the walk, whatever it holds, but for a
/// page that cannot be parsed while tries are left: that page is asked for again after
/// the long wait.
pub proof fn law_one_page_takes_one_answer(page: u64, retry: RetryType, reported: Fetched)
    ensures
        !(reported is Unparsed && retry > 0) ==> !(Crawl::of_listing(Page::One(page), retry).next(
            reported,
        ).phase is Fetch),
        reported is Unparsed && retry > 0 ==> Crawl::of_listing(Page::One(page), retry).next(
            reported,
        ).action() == (CrawlAction::Fetch { page, wait: TOO_MANY_REQUESTS_DELAY_SEC }),
        reported is Unreachable ==> Crawl::of_listing(Page::One(page), retry).next(
            reported,
        ).error == Some(CrawlError::Transport),
        reported matches Fetched::Listing(ids) ==> Crawl::of_listing(Page::One(page), retry).next(
            reported,
        ).ids == ids,
{
    if let Fetched::Listing(ids) = reported {
        assert(Seq::<Seq<char>>::empty() + ids =~= ids);
    }
}

/// A page that is asked for again adds nothing: neither an empty answer that does not yet
/// end the listing nor a body that cannot be parsed while tries are left changes the page
/// in hand or the identifiers gathered.
pub proof fn law_a_page_asked_again_adds_nothing(state: Crawl)
    requires
        state.phase is Fetch,
        !state.single,
    ensures
        state.confirm + 1 < EMPTY_CONFIRMATIONS ==> state.next(Fetched::Empty).action() == (
        CrawlAction::Fetch { page: state.page, wait: 0 }),
        state.next(Fetched::Empty).ids == state.ids,
        state.parse_retry > 0 ==> state.next(Fetched::Unparsed).action() == (CrawlAction::Fetch {
            page: state.page,
            wait: TOO_MANY_REQUESTS_DELAY_SEC,
        }),
        state.next(Fetched::Unparsed).ids == state.ids,
{
}

/// The size of the body decides whether an answer is empty: an answer whose body was read
/// is empty exactly where that body holds fewer bytes than a listing with a post takes,
/// whatever length the answer declared or failed to declare; and a body of that size or
/// more gives the identifiers of its document.
pub proof fn law_the_payload_decides(
    declared_length: Option<u64>,
    other_length: Option<u64>,
    size: u64,
    text: Seq<char>,
)
    ensures
        page_outcome(declared_length, Some((size, text))) is Empty <==> size < EMPTY_PAGE_BYTES,
        page_outcome(declared_length, Some((size, text))) == page_outcome(
            other_length,
            Some((size, text)),
        ),
        size >= EMPTY_PAGE_BYTES && document_of(text) is Some ==> page_outcome(
            declared_length,
            Some((size, text)),
        ) == Fetched::Listing(listing_ids(document_of(text)->0)),
{
}

/// An answer whose body was read, as mathematical values.
pub struct Payload {
    /// The body length that the answer declared, if any.
    pub declared_length: Option<u64>,
    /// How many bytes the body holds.
    pub size: u64,
    /// The body as text.
    pub text: Seq<char>,
}

impl Payload {
    /// What the answer holds.
    pub open spec fn outcome(self) -> Fetched {
        page_outcome(self.declared_length, Some((self.size, self.text)))
    }

    /// Whether the answer is a page of a listing: large enough to hold a post, and a
    /// document.
    pub open spec fn is_page(self) -> bool {
        self.size >= EMPTY_PAGE_BYTES && document_of(self.text) is Some
    }
}

/// The identifiers that the documents of `answers` hold, page after page.
pub open spec fn ids_of_answers(answers: Seq<Payload>) -> Seq<Seq<char>>
    decreases answers.len(),
{
    if answers.len() == 0 {
        seq![]
    } else {
        listing_ids(document_of(answers[0].text)->0) + ids_of_answers(answers.drop_first())
    }
}

/// The state of the walk `start` after each of `answers` came in turn.
pub open spec fn after_answers(start: Crawl, answers: Seq<Payload>) -> Crawl
    decreases answers.len(),
{
    if answers.len() == 0 {
        start
    } else {
        after_answers(start.next(answers[0].outcome()), answers.drop_first())
    }
}

/// Answers that are pages of a listing are gathered one page after the other, whether or
/// not they declare their length: each moves the walk on by one page and adds the
/// identifiers of its document, in order.
pub proof fn lemma_pages_are_gathered(start: Crawl, pages: Seq<Payload>)
    requires
        start.phase is Fetch,
        !start.single,
        start.page + pages.len() <= u64::MAX,
        forall|i: int| 0 <= i < pages.len() ==> (#[trigger] pages[i]).is_page(),
    ensures
        after_answers(start, pages).phase == CrawlPhase::Fetch(
            if pages.len() > 0 {
                0
            } else {
                start.phase->Fetch_0
            },
        ),
        after_answers(start, pages).page == start.page + pages.len(),
        after_answers(start, pages).ids == start.ids + ids_of_answers(pages),
        !after_answers(start, pages).single,
        pages.len() > 0 ==> after_answers(start, pages).confirm == 0,
        pages.len() == 0 ==> after_answers(start, pages).confirm == start.confirm,
        after_answers(start, pages).error == start.error,
    decreases pages.len(),
{
    if pages.len() == 0 {
        assert(start.ids + ids_of_answers(pages) =~= start.ids);
    } else {
        assert(pages[0].is_page());
        let following = start.next(pages[0].outcome());
        assert forall|i: int| 0 <= i < pages.drop_first().len() implies (#[trigger] pages.drop_first()[i]).is_page() by {
            assert(pages[i + 1].is_page());
        }
        lemma_pages_are_gathered(following, pages.drop_first());
        assert(following.ids + ids_of_answers(pages.drop_first()) =~= start.ids + ids_of_answers(
            pages,
        ));
    }
}

/// A listing that answers with `pages` and then with bodies too small to hold a post is
/// walked to its end, whether or not the answers declare their length: each page is asked
/// for once, the page after the last is asked for three times, and the walk ends with the
/// identifiers of the pages, each page's once and in order, and nothing else.
pub proof fn law_listing_is_gathered_from_payloads(
    retry: RetryType,
    pages: Seq<Payload>,
    first: Payload,
    second: Payload,
    third: Payload,
)
    requires
        pages.len() <= u64::MAX,
        forall|i: int| 0 <= i < pages.len() ==> (#[trigger] pages[i]).is_page(),
        first.size < EMPTY_PAGE_BYTES,
        second.size < EMPTY_PAGE_BYTES,
        third.size < EMPTY_PAGE_BYTES,
    ensures
        ({
            let walked = after_answers(Crawl::of_listing(Page::All, retry), pages);
            let once = walked.next(first.outcome());
            let twice = once.next(second.outcome());
            let thrice = twice.next(third.outcome());
            &&& walked.action() == (CrawlAction::Fetch { page: pages.len() as u64, wait: 0 })
            &&& once.action() == (CrawlAction::Fetch { page: pages.len() as u64, wait: 0 })
            &&& twice.action() == (CrawlAction::Fetch { page: pages.len() as u64, wait: 0 })
            &&& thrice.action() == CrawlAction::Stop
            &&& thrice.phase is Done
            &&& thrice.error is None
            &&& thrice.ids == ids_of_answers(pages)
        }),
{
    let start = Crawl::of_listing(Page::All, retry);
    lemma_pages_are_gathered(start, pages);
    assert(start.ids + ids_of_answers(pages) =~= ids_of_answers(pages));
}

} // verus!
