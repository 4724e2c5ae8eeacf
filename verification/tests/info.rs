use cktool::downloader::DownloaderInfo;

fn tally(bytes: u64, files: u64, skipped: &[&str], failed: &[&str]) -> DownloaderInfo {
    let mut info = DownloaderInfo::new();
    info.add_file_size(bytes);
    info.add_success_file(files);
    for url in skipped {
        info.add_skip_file(url.to_string());
    }
    for url in failed {
        info.add_failed_file(url.to_string());
    }
    info
}

#[test]
fn new_info_is_empty() {
    let info = DownloaderInfo::new();
    assert_eq!(info.get_file_size(), 0);
    assert_eq!(info.get_success_file(), 0);
    assert!(info.get_skip_file().is_empty());
    assert!(info.get_failed_file().is_empty());
}

#[test]
fn default_info_is_empty() {
    let info = DownloaderInfo::default();
    assert_eq!(info.get_file_size(), 0);
    assert_eq!(info.get_success_file(), 0);
    assert!(info.get_skip_file().is_empty());
    assert!(info.get_failed_file().is_empty());
}

#[test]
fn additions_are_kept() {
    let mut info = DownloaderInfo::new();
    info.add_file_size(100);
    info.add_file_size(23);
    info.add_success_file(1);
    info.add_success_file(2);
    info.add_skip_file("s1".to_string());
    info.add_skip_file("s2".to_string());
    info.add_failed_file("f1".to_string());
    assert_eq!(info.get_file_size(), 123);
    assert_eq!(info.get_success_file(), 3);
    assert_eq!(info.get_skip_file(), vec!["s1", "s2"]);
    assert_eq!(info.get_failed_file(), vec!["f1"]);
}

#[test]
fn counters_reach_the_largest_number() {
    let mut info = DownloaderInfo::new();
    info.add_file_size(u64::MAX - 1);
    info.add_file_size(1);
    info.add_success_file(u64::MAX);
    assert_eq!(info.get_file_size(), u64::MAX);
    assert_eq!(info.get_success_file(), u64::MAX);
}

#[test]
fn integrate_adds_counts_and_appends_lists() {
    let mut run = tally(10, 1, &["s0"], &["f0"]);
    let worker = tally(32, 2, &["s1", "s2"], &["f1"]);
    run.integrate(&worker);
    assert_eq!(run.get_file_size(), 42);
    assert_eq!(run.get_success_file(), 3);
    assert_eq!(run.get_skip_file(), vec!["s0", "s1", "s2"]);
    assert_eq!(run.get_failed_file(), vec!["f0", "f1"]);
    assert_eq!(worker.get_file_size(), 32);
    assert_eq!(worker.get_skip_file(), vec!["s1", "s2"]);
}

#[test]
fn integrate_in_either_order_gives_the_same_totals() {
    let a = tally(5, 1, &["sa"], &["fa1", "fa2"]);
    let b = tally(7, 2, &["sb1", "sb2"], &[]);
    let mut first = DownloaderInfo::new();
    first.integrate(&a);
    first.integrate(&b);
    let mut second = DownloaderInfo::new();
    second.integrate(&b);
    second.integrate(&a);
    assert_eq!(first.get_file_size(), 12);
    assert_eq!(second.get_file_size(), 12);
    assert_eq!(first.get_success_file(), 3);
    assert_eq!(second.get_success_file(), 3);
    let mut one = first.get_skip_file();
    let mut other = second.get_skip_file();
    one.sort();
    other.sort();
    assert_eq!(one, other);
    assert_eq!(first.get_failed_file().len(), 2);
    assert_eq!(second.get_failed_file().len(), 2);
}
