use cktool::downloader::index::WorkerAction;
use cktool::downloader::queue::WorkQueue;
use cktool::downloader::Downloader;
use cktool::link::Link;
use cktool::link::Page;
use cktool::link::UrlType;
use cktool::downloader::DownloaderInfo;
use cktool::downloader::StatusBar;

fn ids(count: usize) -> Vec<String> {
    (0..count).map(|i| format!("post-{}", i)).collect()
}

#[test]
fn pop_takes_from_the_end() {
    let mut queue = WorkQueue::new(ids(3));
    assert_eq!(queue.len(), 3);
    assert_eq!(queue.total(), 3);
    assert_eq!(queue.pop(), (Some("post-2".to_string()), StatusBar { queues: 2, total: 3 }));
    assert_eq!(queue.pop(), (Some("post-1".to_string()), StatusBar { queues: 1, total: 3 }));
    assert_eq!(queue.pop(), (Some("post-0".to_string()), StatusBar { queues: 0, total: 3 }));
    assert_eq!(queue.pop(), (None, StatusBar { queues: 0, total: 3 }));
    assert_eq!(queue.pop(), (None, StatusBar { queues: 0, total: 3 }));
    assert_eq!(queue.len(), 0);
    assert_eq!(queue.total(), 3);
}

#[test]
fn an_empty_queue_hands_out_nothing() {
    let mut queue = WorkQueue::new(Vec::new());
    assert_eq!(queue.pop(), (None, StatusBar { queues: 0, total: 0 }));
}

#[test]
fn two_workers_never_take_the_same_identifier() {
    let schedules: [&[bool]; 4] = [
        &[true, false, true, false, true, false, true],
        &[true, true, true, true, true, true, true],
        &[false, false, true, true, true, false, false, true, false],
        &[false],
    ];
    for schedule in schedules {
        let mut queue = WorkQueue::new(ids(6));
        let mut one = Vec::new();
        let mut other = Vec::new();
        for worker in schedule {
            if let (Some(id), _) = queue.pop() {
                if *worker {
                    one.push(id);
                } else {
                    other.push(id);
                }
            }
        }
        for id in &one {
            assert!(!other.contains(id));
        }
        let mut all: Vec<String> = one.iter().chain(other.iter()).cloned().collect();
        let taken = all.len();
        assert_eq!(taken, schedule.len().min(6));
        all.sort();
        all.dedup();
        assert_eq!(all.len(), taken);
    }
}

#[test]
fn the_tallies_of_two_workers_add_up_in_the_tally_of_the_run() {
    let mut queue = WorkQueue::new(ids(5));
    let mut run = DownloaderInfo::new();
    let mut sums = [(0u64, 0u64, 0usize, 0usize), (0, 0, 0, 0)];
    let mut turn = 0;
    while let (Some(id), _) = queue.pop() {
        let mut tally = DownloaderInfo::new();
        tally.add_file_size(100 + turn as u64);
        tally.add_success_file(1);
        if turn % 2 == 0 {
            tally.add_failed_file(format!("{}/a", id));
        } else {
            tally.add_skip_file(format!("{}/b", id));
            tally.add_skip_file(format!("{}/c", id));
        }
        let worker = &mut sums[turn % 2];
        worker.0 += tally.get_file_size();
        worker.1 += tally.get_success_file();
        worker.2 += tally.get_skip_file().len();
        worker.3 += tally.get_failed_file().len();
        run.integrate(&tally);
        turn += 1;
    }
    assert_eq!(run.get_file_size(), sums[0].0 + sums[1].0);
    assert_eq!(run.get_success_file(), sums[0].1 + sums[1].1);
    assert_eq!(run.get_skip_file().len(), sums[0].2 + sums[1].2);
    assert_eq!(run.get_failed_file().len(), sums[0].3 + sums[1].3);
    assert_eq!(run.get_file_size(), 510);
    assert_eq!(run.get_success_file(), 5);
    assert_eq!(run.get_skip_file().len(), 4);
    assert_eq!(run.get_failed_file().len(), 3);
}

#[test]
fn a_worker_merges_its_tally_and_takes_the_next_post() {
    let link = Link::new(String::new(), String::new(), Page::All, UrlType::Page);
    let run = Downloader::new(link, 2, "out".to_string(), 0);
    let mut queue = WorkQueue::new(ids(2));
    let mut info = DownloaderInfo::new();
    match run.all(&mut queue, &mut info, None) {
        WorkerAction::Download { pid, status } => {
            assert_eq!(pid, "post-1");
            assert_eq!(status, StatusBar { queues: 1, total: 2 });
        }
        WorkerAction::Stop => panic!("stopped"),
    }
    assert_eq!(info.get_success_file(), 0);
    let mut tally = DownloaderInfo::new();
    tally.add_file_size(9);
    tally.add_success_file(1);
    tally.add_failed_file("f".to_string());
    match run.all(&mut queue, &mut info, Some(&tally)) {
        WorkerAction::Download { pid, status } => {
            assert_eq!(pid, "post-0");
            assert_eq!(status, StatusBar { queues: 0, total: 2 });
        }
        WorkerAction::Stop => panic!("stopped"),
    }
    assert!(matches!(run.all(&mut queue, &mut info, Some(&tally)), WorkerAction::Stop));
    assert!(matches!(run.all(&mut queue, &mut info, None), WorkerAction::Stop));
    assert_eq!(info.get_file_size(), 18);
    assert_eq!(info.get_success_file(), 2);
    assert_eq!(info.get_failed_file(), vec!["f", "f"]);
}
