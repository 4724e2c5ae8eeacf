use cktool::downloader::download_post::file_name;
use cktool::downloader::download_post::PostAction;
use cktool::downloader::download_post::PostJob;
use cktool::downloader::get_posts_from_page::files_of;
use cktool::downloader::get_posts_from_page::read_post;
use cktool::downloader::get_posts_from_page::FetchError;
use cktool::downloader::get_posts_from_page::FetchPhase;
use cktool::downloader::get_posts_from_page::FetchState;
use cktool::downloader::get_posts_from_page::PostFiles;
use cktool::downloader::get_posts_from_page::PostOutcome;
use cktool::downloader::get_posts_from_page::PostResponse;
use cktool::downloader::media::MediaFilter;
use cktool::downloader::transfer::TransferOutcome;
use cktool::downloader::Downloader;
use cktool::link::Link;
use cktool::link::Page;
use cktool::link::UrlType;

const POST: &str = "https://kemono.su/api/v1/patreon/user/1/post/2";

const DOCUMENT: &str = r#"{
    "post": {"id": "2", "title": "t"},
    "attachments": [
        {"server": "https://n1.kemono.su", "name": "clip.mp4", "path": "/aa/bb/clip.mp4"},
        {"server": null, "name": "lost.png", "path": "/cc/lost.png"},
        {"server": "https://n2.kemono.su", "name": "notes", "path": "/dd/notes"}
    ],
    "previews": [
        {"server": "https://n3.kemono.su", "path": "/ee/Cover.PNG"},
        {"type": "thumbnail"}
    ]
}"#;

fn run(filter: MediaFilter, retry: u32) -> Downloader {
    let link = Link::new(
        "https://kemono.su".to_string(),
        "https://kemono.su/api/v1/patreon/user/1".to_string(),
        Page::All,
        UrlType::Page,
    );
    let mut run = Downloader::new(link, 2, "out/dir".to_string(), retry);
    run.filter = filter;
    run
}

fn files() -> PostFiles {
    match read_post(PostResponse::Body(DOCUMENT.to_string()), POST) {
        PostOutcome::Files(files) => files,
        _ => panic!("no files"),
    }
}

fn transfer(action: PostAction) -> (String, String, String) {
    match action {
        PostAction::Transfer { url, file_name, destination } => (url, file_name, destination),
        PostAction::Done => panic!("done"),
    }
}

#[test]
fn read_post_lists_the_files_that_can_be_had() {
    let files = files();
    assert_eq!(
        files.targets,
        vec![
            "https://n1.kemono.su/data/aa/bb/clip.mp4",
            "https://n2.kemono.su/data/dd/notes",
            "https://n3.kemono.su/data/ee/Cover.PNG",
        ]
    );
    assert_eq!(files.skipped, vec![POST, POST]);
}

#[test]
fn read_post_accepts_a_document_without_lists() {
    match read_post(PostResponse::Body(r#"{"post":{"id":"2"}}"#.to_string()), POST) {
        PostOutcome::Files(files) => {
            assert!(files.targets.is_empty());
            assert!(files.skipped.is_empty());
        }
        _ => panic!("no files"),
    }
    match read_post(PostResponse::Body(r#"{"attachments":{"server":"s","path":"p"}}"#.to_string()), POST) {
        PostOutcome::Files(files) => {
            assert!(files.targets.is_empty());
            assert!(files.skipped.is_empty());
        }
        _ => panic!("no files"),
    }
}

#[test]
fn read_post_tells_what_is_no_document() {
    assert!(matches!(
        read_post(PostResponse::Body("<html></html>".to_string()), POST),
        PostOutcome::Unparsed
    ));
    assert!(matches!(read_post(PostResponse::Unreachable, POST), PostOutcome::Unreachable));
}

#[test]
fn files_of_reads_a_parsed_document() {
    let document =
        json::parse(r#"{"previews":[{"server":"https://s","path":"/p/q.gif"},{"server":"x"}]}"#)
            .unwrap();
    let files = files_of(&document, "post");
    assert_eq!(files.targets, vec!["https://s/data/p/q.gif"]);
    assert_eq!(files.skipped, vec!["post"]);
}

#[test]
fn a_request_without_an_answer_is_sent_again_while_the_budget_lasts() {
    let run = run(MediaFilter::Everything, 2);
    let mut state = FetchState::new(2);
    assert_eq!(state.wait(), Some(0));
    for left in [1u32, 0] {
        state = run.get_posts_from_page(state, PostOutcome::Unreachable);
        assert_eq!(state.wait(), Some(2));
        assert_eq!(state.http_retry, left);
        assert_eq!(state.parse_retry, 2);
    }
    state = run.get_posts_from_page(state, PostOutcome::Unreachable);
    assert_eq!(state.phase, FetchPhase::Failed(FetchError::Transport));
    assert_eq!(state.wait(), None);
    assert!(matches!(state.result(), Some(Err(FetchError::Transport))));
}

#[test]
fn a_body_that_is_no_document_is_asked_for_again_while_the_budget_lasts() {
    let run = run(MediaFilter::Everything, 1);
    let mut state = FetchState::new(1);
    state = run.get_posts_from_page(state, read_post(PostResponse::Body("oops".to_string()), POST));
    assert_eq!(state.wait(), Some(10));
    assert_eq!(state.parse_retry, 0);
    assert_eq!(state.http_retry, 1);
    state = run.get_posts_from_page(state, read_post(PostResponse::Body("oops".to_string()), POST));
    assert!(matches!(state.result(), Some(Err(FetchError::Parse))));
}

#[test]
fn a_document_ends_the_request() {
    let run = run(MediaFilter::Everything, 0);
    let state = run.get_posts_from_page(FetchState::new(0), read_post(PostResponse::Body(DOCUMENT.to_string()), POST));
    assert_eq!(state.phase, FetchPhase::Done);
    let later = run.get_posts_from_page(state, PostOutcome::Unreachable);
    assert_eq!(later.phase, FetchPhase::Done);
    match later.result() {
        Some(Ok(files)) => assert_eq!(files.targets.len(), 3),
        _ => panic!("no files"),
    }
}

#[test]
fn a_request_under_way_has_no_result() {
    assert!(FetchState::new(3).result().is_none());
}

#[test]
fn file_names_and_destinations() {
    assert_eq!(file_name("https://n1.kemono.su/data/aa/bb/clip.mp4"), "clip.mp4");
    assert_eq!(file_name("clip.mp4"), "clip.mp4");
    assert_eq!(file_name("https://n1.kemono.su/data/"), "");
    let run = run(MediaFilter::Everything, 0);
    assert_eq!(run.destination("https://n1.kemono.su/data/aa/bb/clip.mp4"), "out/dir/clip.mp4");
}

#[test]
fn every_file_is_taken_without_a_filter() {
    let run = run(MediaFilter::Everything, 0);
    let mut job = PostJob::new(files());
    let (url, name, destination) = transfer(run.download_post(&mut job, None));
    assert_eq!(url, "https://n1.kemono.su/data/aa/bb/clip.mp4");
    assert_eq!(name, "clip.mp4");
    assert_eq!(destination, "out/dir/clip.mp4");
    let (again, _, _) = transfer(run.download_post(&mut job, None));
    assert_eq!(again, url);
    let (url, _, _) = transfer(run.download_post(&mut job, Some(TransferOutcome::Success(500))));
    assert_eq!(url, "https://n2.kemono.su/data/dd/notes");
    let (url, _, _) = transfer(run.download_post(&mut job, Some(TransferOutcome::Failed)));
    assert_eq!(url, "https://n3.kemono.su/data/ee/Cover.PNG");
    assert!(matches!(
        run.download_post(&mut job, Some(TransferOutcome::Success(0))),
        PostAction::Done
    ));
    assert!(matches!(
        run.download_post(&mut job, Some(TransferOutcome::Success(9))),
        PostAction::Done
    ));
    let info = job.into_info();
    assert_eq!(info.get_file_size(), 500);
    assert_eq!(info.get_success_file(), 2);
    assert_eq!(info.get_failed_file(), vec!["https://n2.kemono.su/data/dd/notes"]);
    assert_eq!(info.get_skip_file(), vec![POST, POST]);
}

#[test]
fn an_image_filter_passes_over_videos_and_names_without_extension() {
    let run = run(MediaFilter::ImageOnly, 0);
    let mut job = PostJob::new(files());
    let (url, name, destination) = transfer(run.download_post(&mut job, None));
    assert_eq!(url, "https://n3.kemono.su/data/ee/Cover.PNG");
    assert_eq!(name, "Cover.PNG");
    assert_eq!(destination, "out/dir/Cover.PNG");
    assert!(matches!(
        run.download_post(&mut job, Some(TransferOutcome::Success(77))),
        PostAction::Done
    ));
    let info = job.into_info();
    assert_eq!(info.get_success_file(), 1);
    assert_eq!(info.get_file_size(), 77);
    assert_eq!(
        info.get_skip_file(),
        vec![
            POST,
            POST,
            "https://n1.kemono.su/data/aa/bb/clip.mp4",
            "https://n2.kemono.su/data/dd/notes",
        ]
    );
    assert!(info.get_failed_file().is_empty());
}

#[test]
fn a_video_filter_passes_over_everything_else() {
    let run = run(MediaFilter::VideoOnly, 0);
    let mut job = PostJob::new(files());
    let (url, _, _) = transfer(run.download_post(&mut job, None));
    assert_eq!(url, "https://n1.kemono.su/data/aa/bb/clip.mp4");
    assert!(matches!(
        run.download_post(&mut job, Some(TransferOutcome::Skipped)),
        PostAction::Done
    ));
    let info = job.into_info();
    assert_eq!(info.get_success_file(), 0);
    assert_eq!(
        info.get_skip_file(),
        vec![
            POST,
            POST,
            "https://n1.kemono.su/data/aa/bb/clip.mp4",
            "https://n2.kemono.su/data/dd/notes",
            "https://n3.kemono.su/data/ee/Cover.PNG",
        ]
    );
}

#[test]
fn a_post_without_a_document_is_recorded_as_failed() {
    let run = run(MediaFilter::Everything, 0);
    let mut job = PostJob::failed(POST);
    assert!(matches!(run.download_post(&mut job, None), PostAction::Done));
    let info = job.into_info();
    assert_eq!(info.get_failed_file(), vec!["https://kemono.su/patreon/user/1/post/2"]);
    assert_eq!(info.get_success_file(), 0);
    assert!(info.get_skip_file().is_empty());
}

#[test]
fn a_post_without_files_is_done_at_once() {
    let run = run(MediaFilter::ImageOnly, 0);
    let mut job = PostJob::new(PostFiles { targets: Vec::new(), skipped: Vec::new() });
    assert!(matches!(run.download_post(&mut job, None), PostAction::Done));
    assert_eq!(job.into_info().get_skip_file(), Vec::<String>::new());
}

#[test]
fn a_job_past_its_last_file_is_done() {
    let run = run(MediaFilter::Everything, 0);
    let mut job = PostJob::new(files());
    job.next = 7;
    assert!(matches!(
        run.download_post(&mut job, Some(TransferOutcome::Failed)),
        PostAction::Done
    ));
    assert_eq!(job.next, 7);
    assert!(job.into_info().get_failed_file().is_empty());
}
