//! The files of a post: what its document lists, and the request for that document as a
//! state machine.
//!
//! A post lists its files under `attachments` and under `previews`. An entry with a
//! server and a path is a file to transfer, at the server's address followed by `/data`
//! and the path; an entry that lacks either cannot be had, and the post is recorded as
//! passed over once for each such entry.
use crate::declare::RetryType;
use crate::declare::ERROR_REQUEST_DELAY_SEC;
use crate::declare::TOO_MANY_REQUESTS_DELAY_SEC;
use crate::document::at;
use crate::document::is_array;
use crate::document::is_null;
use crate::document::json_at;
use crate::document::json_is_array;
use crate::document::json_is_null;
use crate::document::json_len;
use crate::document::json_member;
use crate::document::json_text;
use crate::document::len_of;
use crate::document::member;
use crate::document::document_of;
use crate::document::parse_document;
use crate::document::text_of;
use crate::downloader::index::Downloader;
use crate::text::chars_of;
use crate::text::push_text;
use crate::text::string_of;
use crate::text::texts;
use vstd::prelude::*;

verus! {

/// What came back for the document of a post.
pub enum PostResponse {
    /// No answer came, or its body could not be read.
    Unreachable,
    /// The body of the answer.
    Body(String),
}

/// The files of a post.
pub struct PostFiles {
    /// The addresses of the files to transfer, attachments first, each list in its order.
    pub targets: Vec<String>,
    /// The address of the post, once for each entry that cannot be had.
    pub skipped: Vec<String>,
}

/// What the document of a post holds.
pub enum PostOutcome {
    /// No answer came.
    Unreachable,
    /// The body is no document.
    Unparsed,
    /// The files that the document lists.
    Files(PostFiles),
}

/// Why the files of a post are not known.
#[derive(Clone, Copy, PartialEq, Eq, Structural, Debug)]
pub enum FetchError {
    /// No answer came, as often as the budget allowed asking.
    Transport,
    /// The body was no document, as often as the budget allowed asking.
    Parse,
}

/// What the request for a post's document does next.
#[derive(Clone, Copy, PartialEq, Eq, Structural, Debug)]
pub enum FetchPhase {
    /// The document is asked for, after a wait of this many seconds.
    Request(u64),
    /// The files are known.
    Done,
    /// The request is given up.
    Failed(FetchError),
}

/// The files of a post as mathematical values.
pub struct Files {
    pub targets: Seq<Seq<char>>,
    pub skipped: Seq<Seq<char>>,
}

/// The outcome of a request as mathematical values.
pub enum Answer {
    Unreachable,
    Unparsed,
    Files(Files),
}

/// The state of a request as mathematical values.
pub struct Fetch {
    pub phase: FetchPhase,
    /// Tries left after a request without an answer.
    pub http_retry: RetryType,
    /// Tries left after a body that is no document.
    pub parse_retry: RetryType,
    /// The files, once they are known.
    pub files: Files,
}

/// The state of the request for a post's document.
pub struct FetchState {
    pub phase: FetchPhase,
    pub http_retry: RetryType,
    pub parse_retry: RetryType,
    pub files: PostFiles,
}

impl View for PostFiles {
    type V = Files;

    open spec fn view(&self) -> Files {
        Files { targets: texts(self.targets@), skipped: texts(self.skipped@) }
    }
}

impl View for PostOutcome {
    type V = Answer;

    open spec fn view(&self) -> Answer {
        match self {
            PostOutcome::Unreachable => Answer::Unreachable,
            PostOutcome::Unparsed => Answer::Unparsed,
            PostOutcome::Files(files) => Answer::Files(files@),
        }
    }
}

impl View for FetchState {
    type V = Fetch;

    open spec fn view(&self) -> Fetch {
        Fetch {
            phase: self.phase,
            http_retry: self.http_retry,
            parse_retry: self.parse_retry,
            files: self.files@,
        }
    }
}

/// Whether `entry` lacks its server or its path.
pub open spec fn entry_missing(entry: json::JsonValue) -> bool {
    json_is_null(json_member(entry, "server"@)) || json_is_null(json_member(entry, "path"@))
}

/// The address of the file that `entry` names.
pub open spec fn entry_target(entry: json::JsonValue) -> Seq<char> {
    json_text(json_member(entry, "server"@)) + "/data"@ + json_text(json_member(entry, "path"@))
}

/// The addresses that the first `count` members of `list` name, in order.
pub open spec fn targets_upto(list: json::JsonValue, count: nat) -> Seq<Seq<char>>
    decreases count,
{
    if count == 0 {
        seq![]
    } else if entry_missing(json_at(list, count - 1)) {
        targets_upto(list, (count - 1) as nat)
    } else {
        targets_upto(list, (count - 1) as nat).push(entry_target(json_at(list, count - 1)))
    }
}

/// How many of the first `count` members of `list` cannot be had.
pub open spec fn missing_upto(list: json::JsonValue, count: nat) -> nat
    decreases count,
{
    if count == 0 {
        0
    } else if entry_missing(json_at(list, count - 1)) {
        missing_upto(list, (count - 1) as nat) + 1
    } else {
        missing_upto(list, (count - 1) as nat)
    }
}

/// How many members `list` is read for: all of an array, none of anything else.
pub open spec fn members_read(list: json::JsonValue) -> nat {
    if json_is_array(list) {
        json_len(list)
    } else {
        0
    }
}

/// `text`, `count` times.
pub open spec fn repeated(text: Seq<char>, count: nat) -> Seq<Seq<char>> {
    Seq::new(count, |i: int| text)
}

/// The files that the document of the post at `post_url` lists.
pub open spec fn post_files(document: json::JsonValue, post_url: Seq<char>) -> Files {
    let attachments = json_member(document, "attachments"@);
    let previews = json_member(document, "previews"@);
    Files {
        targets: targets_upto(attachments, members_read(attachments)) + targets_upto(
            previews,
            members_read(previews),
        ),
        skipped: repeated(
            post_url,
            missing_upto(attachments, members_read(attachments)) + missing_upto(
                previews,
                members_read(previews),
            ),
        ),
    }
}

/// What an answer holds.
pub open spec fn post_outcome(body: Seq<char>, post_url: Seq<char>) -> Answer {
    match document_of(body) {
        None => Answer::Unparsed,
        Some(document) => Answer::Files(post_files(document, post_url)),
    }
}

impl Fetch {
    /// A request that has not been sent, with `retry` tries for each kind of failure.
    pub open spec fn initial(retry: RetryType) -> Fetch {
        Fetch {
            phase: FetchPhase::Request(0),
            http_retry: retry,
            parse_retry: retry,
            files: Files { targets: seq![], skipped: seq![] },
        }
    }

    /// The state that follows when the request gave `answer`. A request that is over
    /// stays as it is.
    pub open spec fn next(self, answer: Answer) -> Fetch {
        if !(self.phase is Request) {
            self
        } else {
            match answer {
                Answer::Unreachable => if self.http_retry > 0 {
                    Fetch {
                        phase: FetchPhase::Request(ERROR_REQUEST_DELAY_SEC),
                        http_retry: (self.http_retry - 1) as RetryType,
                        ..self
                    }
                } else {
                    Fetch { phase: FetchPhase::Failed(FetchError::Transport), ..self }
                },
                Answer::Unparsed => if self.parse_retry > 0 {
                    Fetch {
                        phase: FetchPhase::Request(TOO_MANY_REQUESTS_DELAY_SEC),
                        parse_retry: (self.parse_retry - 1) as RetryType,
                        ..self
                    }
                } else {
                    Fetch { phase: FetchPhase::Failed(FetchError::Parse), ..self }
                },
                Answer::Files(files) => Fetch { phase: FetchPhase::Done, files, ..self },
            }
        }
    }

    /// The state after `count` requests in a row gave `answer`.
    pub open spec fn after_repeated(self, answer: Answer, count: nat) -> Fetch
        decreases count,
    {
        if count == 0 {
            self
        } else {
            self.next(answer).after_repeated(answer, (count - 1) as nat)
        }
    }
}

impl FetchState {
    /// A request that has not been sent, with `retry` tries for each kind of failure.
    pub fn new(retry: RetryType) -> (state: Self)
        ensures
            state@ == Fetch::initial(retry),
    {
        let files = PostFiles { targets: Vec::new(), skipped: Vec::new() };
        assert(files@.targets =~= seq![] && files@.skipped =~= seq![]);
        FetchState { phase: FetchPhase::Request(0), http_retry: retry, parse_retry: retry, files }
    }

    /// The seconds to wait before the document is asked for; `None` once the request is
    /// over.
    pub fn wait(&self) -> (wait: Option<u64>)
        ensures
            wait == match self.phase {
                FetchPhase::Request(seconds) => Some(seconds),
                _ => None,
            },
    {
        match self.phase {
            FetchPhase::Request(seconds) => Some(seconds),
            _ => None,
        }
    }

    /// The files once they are known, or why they are not; `None` while the request is
    /// under way.
    pub fn result(self) -> (result: Option<Result<PostFiles, FetchError>>)
        ensures
            self.phase is Request ==> result is None,
            self.phase is Done ==> result is Some && result->0 is Ok && result->0->Ok_0@
                == self@.files,
            self.phase matches FetchPhase::Failed(error) ==> result == Some(
                Err::<PostFiles, FetchError>(error),
            ),
    {
        match self.phase {
            FetchPhase::Request(_) => None,
            FetchPhase::Done => Some(Ok(self.files)),
            FetchPhase::Failed(error) => Some(Err(error)),
        }
    }
}

/// Reads the members of `list` into `files`: the address of each that can be had, and
/// `post_url` for each that cannot.
fn read_list(list: &json::JsonValue, post_url: &str, files: &mut PostFiles)
    ensures
        final(files)@.targets == old(files)@.targets + targets_upto(*list, members_read(*list)),
        final(files)@.skipped == old(files)@.skipped + repeated(
            post_url@,
            missing_upto(*list, members_read(*list)),
        ),
{
    assert(old(files)@.targets + targets_upto(*list, 0) =~= old(files)@.targets);
    assert(old(files)@.skipped + repeated(post_url@, 0) =~= old(files)@.skipped);
    if !is_array(list) {
        return ;
    }
    let len = len_of(list);
    let mut i: usize = 0;
    while i < len
        invariant
            i <= len,
            len == json_len(*list),
            files@.targets == old(files)@.targets + targets_upto(*list, i as nat),
            files@.skipped == old(files)@.skipped + repeated(
                post_url@,
                missing_upto(*list, i as nat),
            ),
        decreases len - i,
    {
        let entry = at(list, i);
        let server = member(entry, "server");
        let path = member(entry, "path");
        let ghost targets = files@.targets;
        let ghost skipped = files@.skipped;
        let ghost missing = missing_upto(*list, i as nat);
        if is_null(server) || is_null(path) {
            files.skipped.push(string_of(&chars_of(post_url)));
            assert(files@.skipped =~= skipped.push(post_url@));
            assert(repeated(post_url@, missing + 1) =~= repeated(post_url@, missing).push(
                post_url@,
            ));
            assert(files@.targets =~= targets);
        } else {
            let mut target = chars_of(text_of(server).as_str());
            push_text(&mut target, "/data");
            push_text(&mut target, text_of(path).as_str());
            files.targets.push(string_of(&target));
            assert(files@.targets =~= targets.push(entry_target(*entry)));
            assert(files@.skipped =~= skipped);
        }
        i = i + 1;
    }
}

/// The files that the document of the post at `post_url` lists.
pub fn files_of(document: &json::JsonValue, post_url: &str) -> (files: PostFiles)
    ensures
        files@ == post_files(*document, post_url@),
{
    let mut files = PostFiles { targets: Vec::new(), skipped: Vec::new() };
    assert(files@.targets =~= seq![] && files@.skipped =~= seq![]);
    let attachments = member(document, "attachments");
    let previews = member(document, "previews");
    read_list(attachments, post_url, &mut files);
    read_list(previews, post_url, &mut files);
    proof {
        let a = missing_upto(*attachments, members_read(*attachments));
        let b = missing_upto(*previews, members_read(*previews));
        assert(repeated(post_url@, a) + repeated(post_url@, b) =~= repeated(post_url@, a + b));
        assert(files@.targets =~= post_files(*document, post_url@).targets);
        assert(files@.skipped =~= post_files(*document, post_url@).skipped);
    }
    files
}

/// Tells what an answer to the request for the document of the post at `post_url` holds.
pub fn read_post(response: PostResponse, post_url: &str) -> (outcome: PostOutcome)
    ensures
        outcome@ == match response {
            PostResponse::Unreachable => Answer::Unreachable,
            PostResponse::Body(body) => post_outcome(body@, post_url@),
        },
{
    match response {
        PostResponse::Unreachable => PostOutcome::Unreachable,
        PostResponse::Body(body) => match parse_document(body.as_str()) {
            None => PostOutcome::Unparsed,
            Some(document) => PostOutcome::Files(files_of(&document, post_url)),
        },
    }
}

impl Downloader {
    /// One step of the request for a post's document: the state that follows `state` when
    /// the request gave `outcome`. A request without an answer is sent again after the
    /// short wait, a body that is no document is asked for again after the long wait, each
    /// while its budget lasts; after that the request fails.
    pub fn get_posts_from_page(&self, state: FetchState, outcome: PostOutcome) -> (after:
        FetchState)
        ensures
            after@ == state@.next(outcome@),
    {
        let mut after = state;
        match after.phase {
            FetchPhase::Request(_) => {},
            _ => {
                return after;
            },
        }
        match outcome {
            PostOutcome::Unreachable => {
                if after.http_retry > 0 {
                    after.phase = FetchPhase::Request(ERROR_REQUEST_DELAY_SEC);
                    after.http_retry = after.http_retry - 1;
                } else {
                    after.phase = FetchPhase::Failed(FetchError::Transport);
                }
            },
            PostOutcome::Unparsed => {
                if after.parse_retry > 0 {
                    after.phase = FetchPhase::Request(TOO_MANY_REQUESTS_DELAY_SEC);
                    after.parse_retry = after.parse_retry - 1;
                } else {
                    after.phase = FetchPhase::Failed(FetchError::Parse);
                }
            },
            PostOutcome::Files(files) => {
                after.phase = FetchPhase::Done;
                after.files = files;
            },
        }
        after
    }
}

/// A request that never gets an answer is sent again as often as the budget counts, still
/// asking after the last of these, and fails with the transport's error when that one
/// gets no answer either. A request whose answer is never a document is sent again
/// likewise and fails with the parser's error.
pub proof fn law_fetch_fails_when_budget_is_spent(retry: RetryType)
    ensures
        Fetch::initial(retry).after_repeated(Answer::Unreachable, retry as nat).phase
            == FetchPhase::Request(if retry > 0 { ERROR_REQUEST_DELAY_SEC } else { 0 }),
        Fetch::initial(retry).after_repeated(Answer::Unreachable, retry as nat).next(
            Answer::Unreachable,
        ).phase == FetchPhase::Failed(FetchError::Transport),
        Fetch::initial(retry).after_repeated(Answer::Unparsed, retry as nat).phase
            == FetchPhase::Request(if retry > 0 { TOO_MANY_REQUESTS_DELAY_SEC } else { 0 }),
        Fetch::initial(retry).after_repeated(Answer::Unparsed, retry as nat).next(
            Answer::Unparsed,
        ).phase == FetchPhase::Failed(FetchError::Parse),
{
    lemma_unreachable_spends(Fetch::initial(retry), retry as nat);
    lemma_unparsed_spends(Fetch::initial(retry), retry as nat);
}

/// Each request without an answer costs one try of the transport budget.
pub proof fn lemma_unreachable_spends(state: Fetch, count: nat)
    requires
        state.phase is Request,
        count <= state.http_retry,
    ensures
        state.after_repeated(Answer::Unreachable, count).http_retry == state.http_retry - count,
        state.after_repeated(Answer::Unreachable, count).parse_retry == state.parse_retry,
        state.after_repeated(Answer::Unreachable, count).files == state.files,
        state.after_repeated(Answer::Unreachable, count).phase == (if count > 0 {
            FetchPhase::Request(ERROR_REQUEST_DELAY_SEC)
        } else {
            state.phase
        }),
    decreases count,
{
    if count > 0 {
        lemma_unreachable_spends(state.next(Answer::Unreachable), (count - 1) as nat);
    }
}

/// Each body that is no document costs one try of the parse budget.
pub proof fn lemma_unparsed_spends(state: Fetch, count: nat)
    requires
        state.phase is Request,
        count <= state.parse_retry,
    ensures
        state.after_repeated(Answer::Unparsed, count).parse_retry == state.parse_retry - count,
        state.after_repeated(Answer::Unparsed, count).http_retry == state.http_retry,
        state.after_repeated(Answer::Unparsed, count).files == state.files,
        state.after_repeated(Answer::Unparsed, count).phase == (if count > 0 {
            FetchPhase::Request(TOO_MANY_REQUESTS_DELAY_SEC)
        } else {
            state.phase
        }),
    decreases count,
{
    if count > 0 {
        lemma_unparsed_spends(state.next(Answer::Unparsed), (count - 1) as nat);
    }
}

} // verus!
