//! Addresses: what the user names, and the requests that follow from it.
//!
//! An address is either a listing of a creator's posts or a single post. [`Link::parse`]
//! turns what the user typed into the base of the matching requests; the other methods
//! build the address of a listing page or of a post from that base.
use crate::declare::POSTS_PER_PAGE;
use crate::text::chars_of;
use crate::text::decimal;
use crate::text::find_first;
use crate::text::find_last;
use crate::text::first_index_of;
use crate::text::last_index_of;
use crate::text::last_segment;
use crate::text::matches_at;
use crate::text::occurs_at;
use crate::text::push_decimal;
use crate::text::push_text;
use crate::text::slice_of;
use crate::text::string_of;
use crate::web::clear_query;
use crate::web::has_site;
use crate::web::is_nested;
use crate::web::nested_scheme;
use crate::web::origin_text;
use crate::web::parse_url;
use crate::web::parsed_url;
use crate::web::path_of;
use crate::web::serialization;
use crate::web::set_path;
use crate::web::url_has_site;
use crate::web::url_origin_text;
use crate::web::url_path;
use crate::web::url_text;
use crate::web::url_with_path;
use crate::web::url_without_query;
use crate::web::MAX_URL_CHARS;
use vstd::prelude::*;

verus! {

/// Which pages of a listing are asked for.
#[derive(Clone, Copy, PartialEq, Eq, Structural, Debug)]
pub enum Page {
    /// Every page, until the listing ends.
    All,
    /// One page, counted from zero.
    One(u64),
}

/// What an address names.
#[derive(Clone, Copy, PartialEq, Eq, Structural, Debug)]
pub enum UrlType {
    /// A listing of posts.
    Page,
    /// A single post.
    Post,
    /// Not told; handled as a listing.
    Unknown,
}

/// Why an address is refused.
#[derive(Clone, Copy, PartialEq, Eq, Structural, Debug)]
pub enum AddressParseError {
    /// The text cannot be taken apart into scheme, host and path.
    Malformed,
    /// The address is longer than this library rewrites.
    TooLong,
    /// The address names no site: it is of the scheme `blob`, or its origin is not made of
    /// scheme, host and port.
    NoSite,
}

#[derive(Clone, Debug)]
pub struct Link {
    pub domain: String,
    /// The base of the requests; [`Link::url`] gives the address to ask.
    pub url: String,
    pub page: Page,
    pub typ: UrlType,
}

/// The word that marks the address of a single post.
pub open spec fn post_word() -> Seq<char> {
    seq!['p', 'o', 's', 't']
}

/// Where the path of `s` ends: at the first `?` or `#`, or at the end of `s`.
pub open spec fn path_end(s: Seq<char>) -> int {
    if first_index_of(s, '?') <= first_index_of(s, '#') {
        first_index_of(s, '?')
    } else {
        first_index_of(s, '#')
    }
}

/// Whether a segment of `s` that is exactly the word for a post starts at `at`: the word
/// stands there, a `/` or the start of `s` before it, and a `/` or the end of the path
/// after it.
pub open spec fn post_segment_at(s: Seq<char>, at: int) -> bool {
    &&& occurs_at(s, at, post_word())
    &&& at + 4 <= path_end(s)
    &&& (at == 0 || s[at - 1] == '/')
    &&& (at + 4 == path_end(s) || s[at + 4] == '/')
}

/// Whether `s`, up to its first `?` or `#`, holds a segment that is exactly the word for a
/// post.
pub open spec fn names_post(s: Seq<char>) -> bool {
    exists|at: int| post_segment_at(s, at)
}

/// The namespace under which the site answers requests.
pub open spec fn api_prefix() -> Seq<char> {
    "/api/v1"@
}

/// The parsed address `url`, moved under the request namespace and without its query.
pub open spec fn api_form(url: url::Url) -> url::Url {
    url_without_query(url_with_path(url, api_prefix() + url_path(url)))
}

/// What [`Link::parse`] makes of `input`: the reason for which it is refused, or domain
/// and base of the address.
pub open spec fn parse_result(input: Seq<char>) -> Result<(Seq<char>, Seq<char>), AddressParseError> {
    match parsed_url(input) {
        None => Err(AddressParseError::Malformed),
        Some(url) => if url_text(url).len() > MAX_URL_CHARS {
            Err(AddressParseError::TooLong)
        } else if is_nested(url_text(api_form(url))) || !url_has_site(api_form(url)) {
            Err(AddressParseError::NoSite)
        } else {
            Ok((url_origin_text(api_form(url)), url_text(api_form(url))))
        },
    }
}

/// The identifier at the end of `url`: its last segment, or the one before where `url`
/// ends in `/`. There is none where `url` is empty.
pub open spec fn trailing_id(url: Seq<char>) -> Option<Seq<char>> {
    if last_segment(url, '/').len() > 0 {
        Some(last_segment(url, '/'))
    } else if last_index_of(url, '/') < 0 {
        None
    } else {
        Some(last_segment(url.take(last_index_of(url, '/')), '/'))
    }
}

impl UrlType {
    /// What `url` names.
    pub open spec fn classify(url: Seq<char>) -> UrlType {
        if names_post(url) {
            UrlType::Post
        } else {
            UrlType::Page
        }
    }

    /// Tells a single post from a listing: a path names a post where one of its segments is
    /// the word `post`. What follows the first `?` or `#` is not looked at.
    pub fn parse(url: &str) -> (typ: Self)
        ensures
            typ == Self::classify(url@),
    {
        let chars = chars_of(url);
        let word: Vec<char> = vec!['p', 'o', 's', 't'];
        assert(word@ =~= post_word());
        let question = find_first(&chars, '?');
        let hash = find_first(&chars, '#');
        let end: usize = if question <= hash {
            question
        } else {
            hash
        };
        assert(end == path_end(chars@));
        let mut at: usize = 0;
        while at < chars.len()
            invariant
                at <= chars.len(),
                chars@ == url@,
                word@ == post_word(),
                end == path_end(chars@),
                end <= chars.len(),
                forall|k: int| 0 <= k < at ==> !post_segment_at(chars@, k),
            decreases chars.len() - at,
        {
            if at <= end && end - at >= 4 && matches_at(&chars, at, &word) && (at == 0 || chars[at
                - 1] == '/') && (at + 4 == end || chars[at + 4] == '/') {
                assert(post_segment_at(url@, at as int));
                assert(names_post(url@));
                return UrlType::Post;
            }
            at = at + 1;
        }
        assert forall|k: int| !post_segment_at(chars@, k) by {
            if post_segment_at(chars@, k) {
                assert(k + 4 <= chars.len());
            }
        }
        UrlType::Page
    }
}

impl Link {
    /// The base of the requests: the address under the request namespace, without a query.
    pub open spec fn base(&self) -> Seq<char> {
        self.url@
    }

    /// The address that [`Link::url`] gives.
    pub open spec fn request(&self) -> Seq<char> {
        if self.typ is Post {
            self.base()
        } else {
            match self.page {
                Page::All => self.base(),
                Page::One(page_number) => self.base() + "/posts?o="@ + decimal(
                    (page_number * POSTS_PER_PAGE) as nat,
                ),
            }
        }
    }

    /// The address that [`Link::post_id`] gives for the post `post_id`.
    pub open spec fn post_request(&self, post_id: Seq<char>) -> Seq<char> {
        if self.typ is Post {
            self.base()
        } else {
            self.base() + "/post/"@ + post_id
        }
    }

    /// The address to ask: the base for a single post and for a listing taken whole, the
    /// page at the offset of `page_number` full pages for one page of a listing.
    pub fn url(&self) -> (address: String)
        ensures
            address@ == self.request(),
    {
        if let UrlType::Post = self.typ {
            return self.url.clone();
        }
        match self.page {
            Page::All => self.url.clone(),
            Page::One(page_number) => {
                let mut chars = chars_of(self.url.as_str());
                push_text(&mut chars, "/posts?o=");
                let per_page: u128 = POSTS_PER_PAGE as u128;
                assert(per_page == 50);
                let offset: u128 = page_number as u128 * per_page;
                push_decimal(&mut chars, offset);
                string_of(&chars)
            },
        }
    }

    /// An address made of its parts.
    pub fn new(domain: String, url: String, page: Page, typ: UrlType) -> (link: Self)
        ensures
            link.domain == domain,
            link.base() == url@,
            link.page == page,
            link.typ == typ,
    {
        Self { domain, url, page, typ }
    }

    /// Turns what the user typed into an address: the path is moved under the request
    /// namespace, the query is dropped, and the path as typed decides between post and
    /// listing. All pages are asked for.
    pub fn parse(url: String) -> (parsed: Result<Self, AddressParseError>)
        ensures
            match parse_result(url@) {
                Err(reason) => parsed == Err::<Self, AddressParseError>(reason),
                Ok((domain, base)) => parsed is Ok && parsed->Ok_0.domain@ == domain
                    && parsed->Ok_0.base() == base && parsed->Ok_0.page == Page::All
                    && parsed->Ok_0.typ == UrlType::classify(url_path(parsed_url(url@)->0)),
            },
    {
        let mut parsed_url = match parse_url(url.as_str()) {
            Ok(parsed_url) => parsed_url,
            Err(_) => {
                return Err(AddressParseError::Malformed);
            },
        };
        let text = serialization(&parsed_url);
        if text.as_str().unicode_len() > MAX_URL_CHARS {
            return Err(AddressParseError::TooLong);
        }
        let path = path_of(&parsed_url);
        let typ = UrlType::parse(path.as_str());
        let mut api_path = chars_of("/api/v1");
        push_text(&mut api_path, path.as_str());
        let api_path = string_of(&api_path);
        proof {
            reveal_strlit("/api/v1");
        }
        set_path(&mut parsed_url, api_path.as_str());
        clear_query(&mut parsed_url);
        let base = serialization(&parsed_url);
        let scheme: Vec<char> = vec!['b', 'l', 'o', 'b', ':'];
        assert(scheme@ =~= nested_scheme());
        if matches_at(&chars_of(base.as_str()), 0, &scheme) {
            return Err(AddressParseError::NoSite);
        }
        if !has_site(&parsed_url) {
            return Err(AddressParseError::NoSite);
        }
        Ok(Self::new(origin_text(&parsed_url), base, Page::All, typ))
    }

    /// The base up to, not including, its first `?`.
    pub fn clear_option(&self) -> (cleared: String)
        ensures
            cleared@ == self.base().take(first_index_of(self.base(), '?')),
    {
        let chars = chars_of(self.url.as_str());
        let end = find_first(&chars, '?');
        let head = slice_of(&chars, 0, end);
        string_of(&head)
    }

    /// Moves on to the next page where one page is asked for; the last page that 64 bits
    /// can count stays.
    pub fn page_increst(&mut self)
        ensures
            final(self).domain == old(self).domain,
            final(self).base() == old(self).base(),
            final(self).typ == old(self).typ,
            final(self).page == match old(self).page {
                Page::All => Page::All,
                Page::One(page_number) => if page_number < u64::MAX {
                    Page::One((page_number + 1) as u64)
                } else {
                    Page::One(page_number)
                },
            },
    {
        if let Page::One(page_number) = self.page {
            if page_number < u64::MAX {
                self.page = Page::One(page_number + 1);
            }
        }
    }

    /// Asks for the one page `page_number`.
    pub fn set_page(&mut self, page_number: u64)
        ensures
            final(self).domain == old(self).domain,
            final(self).base() == old(self).base(),
            final(self).typ == old(self).typ,
            final(self).page == Page::One(page_number),
    {
        self.page = Page::One(page_number);
    }

    /// Replaces the base.
    pub fn set_url(&mut self, url: String)
        ensures
            final(self).domain == old(self).domain,
            final(self).base() == url@,
            final(self).typ == old(self).typ,
            final(self).page == old(self).page,
    {
        self.url = url;
    }

    /// The address of the post `post_id`: the base itself where the address names a single
    /// post, the base followed by `/post/` and the identifier otherwise.
    pub fn post_id(&self, post_id: &String) -> (address: String)
        ensures
            address@ == self.post_request(post_id@),
    {
        if let UrlType::Post = self.typ {
            return self.url.clone();
        }
        let mut chars = chars_of(self.url.as_str());
        push_text(&mut chars, "/post/");
        push_text(&mut chars, post_id.as_str());
        string_of(&chars)
    }

    /// The identifier of the post that the address names; `None` where it names a listing.
    pub fn get_post_id(&self) -> (id: Option<&str>)
        ensures
            !(self.typ is Post) ==> id is None,
            self.typ is Post ==> match trailing_id(self.base()) {
                Some(text) => id is Some && id->0@ == text,
                None => id is None,
            },
    {
        if let UrlType::Post = self.typ {
            let chars = chars_of(self.url.as_str());
            let len = chars.len();
            match find_last(&chars, '/') {
                None => {
                    assert(chars@.skip(0) == chars@);
                    if len > 0 {
                        let whole = self.url.as_str().substring_char(0, len);
                        assert(chars@.subrange(0, len as int) == chars@);
                        return Some(whole);
                    }
                    return None;
                },
                Some(slash) => {
                    assert(chars@.skip(slash + 1) == chars@.subrange(slash + 1, len as int));
                    if slash + 1 < len {
                        return Some(self.url.as_str().substring_char(slash + 1, len));
                    }
                    let head = slice_of(&chars, 0, slash);
                    assert(head@ == chars@.take(slash as int));
                    let from: usize = match find_last(&head, '/') {
                        None => 0,
                        Some(before) => before + 1,
                    };
                    assert(head@.skip(from as int) == chars@.subrange(from as int, slash as int));
                    return Some(self.url.as_str().substring_char(from, slash));
                },
            }
        }
        None
    }
}

} // verus!
