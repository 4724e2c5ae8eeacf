//! What this library takes on trust from the `url` crate.
//!
//! A parsed address is carried around as an opaque `url::Url`. What the crate computes from
//! one is named by the functions without a body below; the wrappers say that a call gives
//! the named result and nothing else. Nothing here is proved.
use crate::text::occurs_at;
use vstd::prelude::*;

verus! {

#[verifier::external_type_specification]
#[verifier::external_body]
pub struct ExUrl(url::Url);

#[verifier::external_type_specification]
#[verifier::external_body]
pub struct ExUrlParseError(url::ParseError);

/// What `Url::parse` makes of `input`; `None` where it reports an error.
pub uninterp spec fn parsed_url(input: Seq<char>) -> Option<url::Url>;

/// The serialization of `url`, as `Url::as_str` gives it.
pub uninterp spec fn url_text(url: url::Url) -> Seq<char>;

/// The path of `url`, as `Url::path` gives it.
pub uninterp spec fn url_path(url: url::Url) -> Seq<char>;

/// `url` after `Url::set_path` with `path`.
pub uninterp spec fn url_with_path(url: url::Url, path: Seq<char>) -> url::Url;

/// `url` after `Url::set_query` with `None`.
pub uninterp spec fn url_without_query(url: url::Url) -> url::Url;

/// Whether `Url::origin` gives `url` an origin made of scheme, host and port.
pub uninterp spec fn url_has_site(url: url::Url) -> bool;

/// The Unicode serialization of the origin of `url`.
pub uninterp spec fn url_origin_text(url: url::Url) -> Seq<char>;

/// The longest serialization, in characters, whose path this library rewrites. Up to it
/// `Url::set_path` stays within the four gigabytes that the `url` crate can index: a
/// character of the serialization takes four bytes at most, a character of the new path
/// twelve.
pub const MAX_URL_CHARS: usize = 0x0100_0000;

/// The start of the serialization of an address that holds another address in its path.
pub open spec fn nested_scheme() -> Seq<char> {
    seq!['b', 'l', 'o', 'b', ':']
}

/// Whether `text` is the serialization of an address of the scheme `blob`. A serialization
/// starts with the scheme and a colon.
pub open spec fn is_nested(text: Seq<char>) -> bool {
    occurs_at(text, 0, nested_scheme())
}

/// `url::Url::parse`: the parsed address, or the crate's error. A given text is always
/// parsed alike.
#[verifier::external_body]
pub(crate) fn parse_url(input: &str) -> (parsed: Result<url::Url, url::ParseError>)
    ensures
        parsed is Ok <==> parsed_url(input@) is Some,
        parsed is Ok ==> Some(parsed->Ok_0) == parsed_url(input@),
{
    url::Url::parse(input)
}

/// `url::Url::as_str`: the serialization that the address holds.
#[verifier::external_body]
pub(crate) fn serialization(url: &url::Url) -> (text: String)
    ensures
        text@ == url_text(*url),
{
    url.as_str().to_string()
}

/// `url::Url::path`: the path, which is a slice of the serialization and so no longer
/// than it.
#[verifier::external_body]
pub(crate) fn path_of(url: &url::Url) -> (path: String)
    ensures
        path@ == url_path(*url),
        path@.len() <= url_text(*url).len(),
{
    url.path().to_string()
}

/// `url::Url::set_path`: replaces the path. The crate panics where the new serialization
/// passes four gigabytes; each character of `path` adds twelve bytes at most, which the
/// bounds keep far below that.
#[verifier::external_body]
pub(crate) fn set_path(url: &mut url::Url, path: &str)
    requires
        url_text(*old(url)).len() <= MAX_URL_CHARS,
        path@.len() <= MAX_URL_CHARS + 16,
    ensures
        *final(url) == url_with_path(*old(url), path@),
{
    url.set_path(path)
}

/// `url::Url::set_query` with `None`: drops the query.
#[verifier::external_body]
pub(crate) fn clear_query(url: &mut url::Url)
    ensures
        *final(url) == url_without_query(*old(url)),
{
    url.set_query(None)
}

/// `url::Url::origin` and `url::Origin::is_tuple`: whether the address names a site. For an
/// address of the scheme `blob`, and for no other, the crate parses the path as an
/// address and calls itself on it, as deep as addresses are nested; those are left out.
#[verifier::external_body]
pub(crate) fn has_site(url: &url::Url) -> (site: bool)
    requires
        !is_nested(url_text(*url)),
    ensures
        site == url_has_site(*url),
{
    url.origin().is_tuple()
}

/// `url::Url::origin` and `url::Origin::unicode_serialization`: scheme, host and, where it
/// is not the scheme's own, port. Addresses of the scheme `blob` are left out as for
/// `has_site`.
#[verifier::external_body]
pub(crate) fn origin_text(url: &url::Url) -> (origin: String)
    requires
        !is_nested(url_text(*url)),
    ensures
        origin@ == url_origin_text(*url),
{
    url.origin().unicode_serialization()
}

} // verus!
