use cktool::downloader::print::status_line;
use cktool::downloader::print::status_message;
use cktool::downloader::print::StatusLine;
use cktool::downloader::transfer::download;
use cktool::downloader::transfer::TransferEvent;
use cktool::downloader::transfer::TransferState;
use cktool::downloader::Downloader;
use cktool::downloader::DownloaderInfo;
use cktool::link::Link;
use cktool::link::Page;
use cktool::link::UrlType;

fn run() -> Downloader {
    let link = Link::new(String::new(), String::new(), Page::All, UrlType::Page);
    Downloader::new(link, 8, "gallery".to_string(), 8)
}

#[test]
fn status_messages_have_their_texts() {
    assert_eq!(
        status_message(StatusLine::Download, 40, 7, "a.png", 1),
        "[40/7] a.png downloading..."
    );
    assert_eq!(
        status_message(StatusLine::Download, 40, 7, "a.png", 3),
        "[40/7] [3]a.png downloading..."
    );
    assert_eq!(
        status_message(StatusLine::RetryWithWait, 40, 7, "a.png", 2),
        "[40/7] a.png retry[2] wait 2 secs."
    );
    assert_eq!(status_message(StatusLine::Wait, 40, 7, "a.png", 2), "[40/7] a.png wait 10 secs.");
    assert_eq!(
        status_message(StatusLine::FinishWithClear, 40, 7, "a.png", 2),
        "[40/7] a.png success"
    );
    assert_eq!(
        status_message(StatusLine::Reconnect, 0, 0, "a.png", 0),
        "[0/0] a.png Reconnect..."
    );
    assert_eq!(
        status_message(StatusLine::Reconnect, u32::MAX, 1, "", 12),
        "[4294967295/1] [12] Reconnect..."
    );
    assert_eq!(status_message(StatusLine::Failed, 40, 7, "a.png", 2), "[40/7] a.png Failed");
    assert_eq!(status_message(StatusLine::WasDone, 40, 7, "a.png", 2), "[40/7] a.png was done...");
}

#[test]
fn every_state_has_its_line() {
    let answered = |status: u16, declared_length: Option<u64>| TransferEvent::Responded {
        status,
        declared_length,
    };
    let fresh = TransferState::new(1);
    assert_eq!(status_line(&fresh), StatusLine::Download);
    let sent = download(fresh, TransferEvent::Probed(Some(10)));
    assert_eq!(status_line(&sent), StatusLine::Download);
    assert_eq!(status_line(&download(sent, answered(429, None))), StatusLine::Wait);
    assert_eq!(status_line(&download(sent, answered(500, None))), StatusLine::RetryWithWait);
    assert_eq!(status_line(&download(sent, TransferEvent::SendFailed)), StatusLine::Reconnect);
    assert_eq!(status_line(&download(sent, answered(416, None))), StatusLine::WasDone);
    let streaming = download(sent, answered(206, Some(5)));
    assert_eq!(status_line(&streaming), StatusLine::Download);
    assert_eq!(status_line(&download(streaming, TransferEvent::StreamFailed)), StatusLine::Reconnect);
    assert_eq!(
        status_line(&download(streaming, TransferEvent::StreamEnded)),
        StatusLine::FinishWithClear
    );
    let spent = download(TransferState::new(0), TransferEvent::Probed(None));
    assert_eq!(status_line(&download(spent, answered(500, None))), StatusLine::Failed);
}

#[test]
fn the_report_lists_entries_then_totals() {
    let mut info = DownloaderInfo::new();
    info.add_file_size(1536);
    info.add_success_file(12);
    info.add_failed_file("https://kemono.su/api/v1/patreon/user/1/post/2".to_string());
    info.add_failed_file("https://n1.kemono.su/data/aa/clip.mp4".to_string());
    info.add_skip_file("https://kemono.su/api/v1/patreon/user/1/post/3".to_string());
    assert_eq!(
        run().print_reports(&info),
        vec![
            " Failed\thttps://kemono.su/patreon/user/1/post/2",
            " Failed\thttps://n1.kemono.su/data/aa/clip.mp4",
            " Skip\thttps://kemono.su/patreon/user/1/post/3",
            "Download success  to gallery folder.",
            "Total size: 1.50 KiB",
            "success files: 12",
            "Skipped files: 1",
            "Failed files: 2",
        ]
    );
}

#[test]
fn the_report_of_an_empty_run() {
    assert_eq!(
        run().print_reports(&DownloaderInfo::new()),
        vec![
            "Download success  to gallery folder.",
            "Total size: 0 bytes",
            "success files: 0",
            "Skipped files: 0",
            "Failed files: 0",
        ]
    );
}

#[test]
fn the_report_writes_sizes_in_binary_units() {
    let size_line = |bytes: u64| {
        let mut info = DownloaderInfo::new();
        info.add_file_size(bytes);
        run().print_reports(&info)[1].clone()
    };
    assert_eq!(size_line(1), "Total size: 1 byte");
    assert_eq!(size_line(1023), "Total size: 1023 bytes");
    assert_eq!(size_line(1024), "Total size: 1.00 KiB");
    assert_eq!(size_line(5 * 1024 * 1024), "Total size: 5.00 MiB");
}

#[test]
fn failed_file_gives_the_failed_addresses() {
    let mut info = DownloaderInfo::new();
    info.add_failed_file("a".to_string());
    info.add_failed_file("b".to_string());
    assert_eq!(run().failed_file(&info), vec!["a", "b"]);
}
