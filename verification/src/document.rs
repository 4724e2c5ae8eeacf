//! What this library takes on trust from the `json` crate.
//!
//! A parsed document is carried around as an opaque `json::JsonValue`. What the crate
//! reads from one is named by the functions without a body below; the wrappers say that a
//! call gives the named result and nothing else. Of the wrappers nothing is proved.
//!
//! The crate's parser counts the digits of a fraction in sixteen bits and fails on a number
//! with more of them than these hold. [`parse_document`] therefore takes a text with so long
//! a run of digits for no document, and hands every other text to the parser.
use crate::text::chars_of;
use vstd::prelude::*;

verus! {

#[verifier::external_type_specification]
#[verifier::external_body]
pub struct ExJsonValue(json::JsonValue);

#[verifier::external_type_specification]
#[verifier::external_body]
pub struct ExJsonError(json::Error);

/// What `json::parse` makes of `text`; `None` where it reports an error.
pub uninterp spec fn parsed_json(text: Seq<char>) -> Option<json::JsonValue>;

/// The number of members of an array or of entries of an object, as `JsonValue::len`
/// gives it.
pub uninterp spec fn json_len(value: json::JsonValue) -> nat;

/// What indexing `value` with the number `index` gives.
pub uninterp spec fn json_at(value: json::JsonValue, index: int) -> json::JsonValue;

/// What indexing `value` with the key `key` gives.
pub uninterp spec fn json_member(value: json::JsonValue, key: Seq<char>) -> json::JsonValue;

/// Whether `value` is null, as `JsonValue::is_null` tells.
pub uninterp spec fn json_is_null(value: json::JsonValue) -> bool;

/// Whether `value` is an array, as `JsonValue::is_array` tells.
pub uninterp spec fn json_is_array(value: json::JsonValue) -> bool;

/// The text that `value` is displayed as.
pub uninterp spec fn json_text(value: json::JsonValue) -> Seq<char>;

/// The longest run of decimal digits in a text that is handed to the parser.
pub const MAX_DIGIT_RUN: usize = 32767;

/// Whether `c` is a decimal digit.
pub open spec fn is_digit(c: char) -> bool {
    48 <= c as u32 <= 57
}

/// Whether `len` decimal digits stand in `text` from position `at` on.
pub open spec fn digits_at(text: Seq<char>, at: int, len: int) -> bool {
    0 <= at && at + len <= text.len() && forall|i: int|
        at <= i < at + len ==> is_digit(#[trigger] text[i])
}

/// Whether a run of decimal digits that is too long for the parser starts in `text` at
/// position `at`.
pub open spec fn long_run_at(text: Seq<char>, at: int) -> bool {
    digits_at(text, at, MAX_DIGIT_RUN + 1)
}

/// Whether no run of decimal digits in `text` is longer than `MAX_DIGIT_RUN`.
pub open spec fn digit_runs_fit(text: Seq<char>) -> bool {
    forall|at: int| !#[trigger] long_run_at(text, at)
}

/// The document that `text` holds: what the parser makes of it, and none where a run of
/// digits in it is too long for the parser.
pub open spec fn document_of(text: Seq<char>) -> Option<json::JsonValue> {
    if digit_runs_fit(text) {
        parsed_json(text)
    } else {
        None
    }
}

/// `json::parse`: the parsed document, or the crate's error. A given text is always
/// parsed alike. The crate lowers a sixteen-bit exponent by one for each digit of a
/// fraction and fails, where overflow is checked, on the digit that passes its range; a
/// text without a longer run of digits than `MAX_DIGIT_RUN` never gets there.
#[verifier::external_body]
pub(crate) fn parse_json(text: &str) -> (parsed: Result<json::JsonValue, json::Error>)
    requires
        digit_runs_fit(text@),
    ensures
        parsed is Ok <==> parsed_json(text@) is Some,
        parsed is Ok ==> Some(parsed->Ok_0) == parsed_json(text@),
{
    json::parse(text)
}

/// `json::JsonValue::len`: the number of members or entries; zero for any other value.
#[verifier::external_body]
pub(crate) fn len_of(value: &json::JsonValue) -> (len: usize)
    ensures
        len == json_len(*value),
{
    value.len()
}

/// Indexing a `json::JsonValue` with a number: the member at that place of an array; null
/// for a place that the array lacks and for any other value.
#[verifier::external_body]
pub(crate) fn at(value: &json::JsonValue, index: usize) -> (member: &json::JsonValue)
    ensures
        *member == json_at(*value, index as int),
{
    &value[index]
}

/// Indexing a `json::JsonValue` with a key: the entry of an object under that key; null
/// for a key that the object lacks and for any other value.
#[verifier::external_body]
pub(crate) fn member<'a>(value: &'a json::JsonValue, key: &str) -> (entry: &'a json::JsonValue)
    ensures
        *entry == json_member(*value, key@),
{
    &value[key]
}

/// `json::JsonValue::is_null`.
#[verifier::external_body]
pub(crate) fn is_null(value: &json::JsonValue) -> (null: bool)
    ensures
        null == json_is_null(*value),
{
    value.is_null()
}

/// `json::JsonValue::is_array`.
#[verifier::external_body]
pub(crate) fn is_array(value: &json::JsonValue) -> (array: bool)
    ensures
        array == json_is_array(*value),
{
    value.is_array()
}

/// The `Display` of a `json::JsonValue`: a string as it is, without quotes; any other value
/// as the crate writes it out.
#[verifier::external_body]
pub(crate) fn text_of(value: &json::JsonValue) -> (text: String)
    ensures
        text@ == json_text(*value),
{
    value.to_string()
}

/// Whether `c` is a decimal digit.
fn digit(c: char) -> (found: bool)
    ensures
        found == is_digit(c),
{
    let code: u32 = c as u32;
    48 <= code && code <= 57
}

/// Whether no run of decimal digits in `text` is longer than `MAX_DIGIT_RUN`.
pub fn digit_runs_within_bound(text: &str) -> (fits: bool)
    ensures
        fits == digit_runs_fit(text@),
{
    let chars = chars_of(text);
    let mut run: usize = 0;
    let mut i: usize = 0;
    while i < chars.len()
        invariant
            i <= chars.len(),
            chars@ == text@,
            run <= MAX_DIGIT_RUN,
            run <= i,
            digits_at(chars@, i - run, run as int),
            i - run > 0 ==> !is_digit(chars@[i - run - 1]),
            forall|at: int| at + MAX_DIGIT_RUN + 1 <= i ==> !#[trigger] long_run_at(chars@, at),
        decreases chars.len() - i,
    {
        let ghost before = run;
        let found = digit(chars[i]);
        if found {
            if run == MAX_DIGIT_RUN {
                assert(long_run_at(chars@, i - run));
                return false;
            }
            run = run + 1;
        } else {
            run = 0;
        }
        assert forall|at: int| at + MAX_DIGIT_RUN + 1 <= i + 1 implies !#[trigger] long_run_at(
            chars@,
            at,
        ) by {
            if at + MAX_DIGIT_RUN + 1 == i + 1 && long_run_at(chars@, at) {
                assert(is_digit(chars@[i as int]));
                assert(is_digit(chars@[i - before - 1]));
            }
        }
        i = i + 1;
    }
    true
}

/// The document that `text` holds, if it holds one.
pub fn parse_document(text: &str) -> (document: Option<json::JsonValue>)
    ensures
        document == document_of(text@),
{
    if !digit_runs_within_bound(text) {
        return None;
    }
    match parse_json(text) {
        Ok(document) => Some(document),
        Err(_) => None,
    }
}

} // verus!
