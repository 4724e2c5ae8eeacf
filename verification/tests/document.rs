use cktool::document::digit_runs_within_bound;
use cktool::document::parse_document;
use cktool::document::MAX_DIGIT_RUN;
use cktool::downloader::fetch_pages::read_page;
use cktool::downloader::fetch_pages::PageBody;
use cktool::downloader::fetch_pages::PageOutcome;
use cktool::downloader::fetch_pages::PageResponse;
use cktool::downloader::get_posts_from_page::read_post;
use cktool::downloader::get_posts_from_page::PostOutcome;
use cktool::downloader::get_posts_from_page::PostResponse;

fn fraction(zeros: usize) -> String {
    format!("0.{}", "0".repeat(zeros))
}

#[test]
fn the_longest_run_of_digits_is_counted() {
    assert_eq!(MAX_DIGIT_RUN, 32767);
    assert!(digit_runs_within_bound(""));
    assert!(digit_runs_within_bound("no digits at all"));
    assert!(digit_runs_within_bound(&"7".repeat(32767)));
    assert!(!digit_runs_within_bound(&"7".repeat(32768)));
    assert!(digit_runs_within_bound(&fraction(32767)));
    assert!(!digit_runs_within_bound(&fraction(32768)));
    let broken = format!("{}x{}", "1".repeat(32767), "2".repeat(32767));
    assert!(digit_runs_within_bound(&broken));
    let late = format!("{}x{}", "1".repeat(10), "2".repeat(32768));
    assert!(!digit_runs_within_bound(&late));
    let text = format!("\"{}\"", "9".repeat(40000));
    assert!(!digit_runs_within_bound(&text));
    assert!(digit_runs_within_bound(&"\u{0661}".repeat(40000)));
}

#[test]
fn parse_document_parses_what_the_parser_takes() {
    let document = parse_document(r#"{"id":"7","list":[1,2,3]}"#).unwrap();
    assert_eq!(document["id"].to_string(), "7");
    assert_eq!(document["list"].len(), 3);
    assert!(parse_document("not a document").is_none());
    assert!(parse_document("").is_none());
}

#[test]
fn parse_document_takes_a_fraction_of_the_longest_length() {
    let document = parse_document(&format!("[{}]", fraction(32767))).unwrap();
    assert_eq!(document.len(), 1);
    assert!(document[0].is_number());
}

#[test]
fn parse_document_refuses_a_fraction_that_the_parser_cannot_count() {
    assert!(parse_document(&fraction(32769)).is_none());
    assert!(parse_document(&format!("[{}]", fraction(32769))).is_none());
    assert!(parse_document(&format!(r#"{{"id":{}}}"#, fraction(40000))).is_none());
}

#[test]
fn a_page_with_too_long_a_number_is_no_document() {
    let body = format!(r#"[{{"id":{}}}]"#, fraction(32769));
    let response = PageResponse::Received {
        declared_length: None,
        body: Some(PageBody { size: body.len() as u64, text: body }),
    };
    assert!(matches!(read_page(response), PageOutcome::Unparsed));
}

#[test]
fn a_page_with_a_long_number_is_read() {
    let body = format!(r#"[{{"id":{}}},{{"id":"b"}}]"#, fraction(32767));
    let response = PageResponse::Received {
        declared_length: None,
        body: Some(PageBody { size: body.len() as u64, text: body }),
    };
    match read_page(response) {
        PageOutcome::Listing(ids) => {
            assert_eq!(ids.len(), 2);
            assert_eq!(ids[1], "b");
        }
        _ => panic!("no listing"),
    }
}

#[test]
fn a_post_with_too_long_a_number_is_no_document() {
    let body = format!(r#"{{"attachments":[],"size":{}}}"#, fraction(32769));
    assert!(matches!(read_post(PostResponse::Body(body), "post"), PostOutcome::Unparsed));
}
