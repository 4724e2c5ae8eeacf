use cktool::declare::ERROR_REQUEST_DELAY_SEC;
use cktool::declare::RECONNECT_DELAY_SEC;
use cktool::declare::TOO_MANY_REQUESTS_DELAY_SEC;
use cktool::declare::WRITE_RETRY;
use cktool::downloader::transfer::classify;
use cktool::downloader::transfer::download;
use cktool::downloader::transfer::pause_length;
use cktool::downloader::transfer::range_header;
use cktool::downloader::transfer::Pause;
use cktool::downloader::transfer::Phase;
use cktool::downloader::transfer::Progress;
use cktool::downloader::transfer::ResponseClass;
use cktool::downloader::transfer::StatusTag;
use cktool::downloader::transfer::TransferAction;
use cktool::downloader::transfer::TransferError;
use cktool::downloader::transfer::TransferEvent;
use cktool::downloader::transfer::TransferOutcome;
use cktool::downloader::transfer::TransferState;

fn run(state: TransferState, events: &[TransferEvent]) -> TransferState {
    let mut state = state;
    for event in events {
        state = download(state, *event);
    }
    state
}

fn answered(status: u16, declared_length: Option<u64>) -> TransferEvent {
    TransferEvent::Responded { status, declared_length }
}

#[test]
fn a_new_transfer_looks_at_the_destination() {
    let state = TransferState::new(3);
    assert_eq!(state.phase, Phase::Probe);
    assert_eq!(state.content_retry_budget, 3);
    assert_eq!(state.transport_retry_budget, 3);
    assert_eq!(state.write_retry_budget, WRITE_RETRY);
    assert_eq!(state.attempts, 0);
    assert_eq!(state.action(), TransferAction::Probe);
    assert_eq!(state.outcome(), None);
}

#[test]
fn status_codes_are_classified() {
    assert_eq!(classify(416), ResponseClass::AlreadyComplete);
    assert_eq!(classify(190), ResponseClass::AlreadyComplete);
    assert_eq!(classify(429), ResponseClass::RateLimited);
    assert_eq!(classify(200), ResponseClass::Proceed);
    assert_eq!(classify(206), ResponseClass::Proceed);
    assert_eq!(classify(204), ResponseClass::Refused);
    assert_eq!(classify(404), ResponseClass::Refused);
    assert_eq!(classify(502), ResponseClass::Refused);
    assert_eq!(classify(503), ResponseClass::Refused);
    assert_eq!(classify(0), ResponseClass::Refused);
}

#[test]
fn pauses_last_their_delays() {
    assert_eq!(pause_length(Pause::RateLimited), 10);
    assert_eq!(pause_length(Pause::Refused), 2);
    assert_eq!(pause_length(Pause::Unsent), 2);
    assert_eq!(pause_length(Pause::Broken), 1);
    assert_eq!(TOO_MANY_REQUESTS_DELAY_SEC, 10);
    assert_eq!(ERROR_REQUEST_DELAY_SEC, 2);
    assert_eq!(RECONNECT_DELAY_SEC, 1);
}

#[test]
fn range_header_names_the_first_missing_byte() {
    assert_eq!(range_header(0), "bytes=0-");
    assert_eq!(range_header(1024), "bytes=1024-");
    assert_eq!(range_header(u64::MAX), "bytes=18446744073709551615-");
}

#[test]
fn a_fresh_file_is_asked_for_whole() {
    let state = download(TransferState::new(2), TransferEvent::Probed(None));
    assert_eq!(state.action(), TransferAction::Send { range_start: None });
    assert_eq!(state.attempts, 1);
    assert_eq!(state.downloaded, 0);
    let state = download(state, answered(200, Some(300)));
    assert_eq!(state.action(), TransferAction::Receive);
    assert_eq!(state.total_bytes, Some(300));
    let state = download(state, TransferEvent::Chunk(100));
    assert_eq!(state.action(), TransferAction::Write);
    let state = download(state, TransferEvent::Written);
    assert_eq!(state.downloaded, 100);
    assert_eq!(
        state.progress(),
        Progress { position: 100, total: 300, tag: StatusTag::Downloading }
    );
    let state = run(
        state,
        &[
            TransferEvent::Chunk(200),
            TransferEvent::Written,
            TransferEvent::StreamEnded,
        ],
    );
    assert_eq!(state.outcome(), Some(TransferOutcome::Success(300)));
    assert_eq!(state.action(), TransferAction::Finish(TransferOutcome::Success(300)));
    assert_eq!(state.progress(), Progress { position: 300, total: 300, tag: StatusTag::Success });
}

#[test]
fn a_partial_file_is_resumed_from_its_length() {
    let state = download(TransferState::new(2), TransferEvent::Probed(Some(4096)));
    assert_eq!(state.action(), TransferAction::Send { range_start: Some(4096) });
    assert_eq!(state.downloaded, 4096);
    let state = download(state, answered(206, Some(1000)));
    assert_eq!(state.total_bytes, Some(5096));
    let state = run(state, &[TransferEvent::Chunk(1000), TransferEvent::Written]);
    assert_eq!(state.downloaded, 5096);
    let state = download(state, TransferEvent::StreamEnded);
    assert_eq!(state.outcome(), Some(TransferOutcome::Success(1000)));
}

#[test]
fn a_complete_file_is_done_without_a_write() {
    for status in [416u16, 190] {
        let mut state = TransferState::new(5);
        let mut actions = Vec::new();
        for event in [TransferEvent::Probed(Some(777)), answered(status, Some(0))] {
            state = download(state, event);
            actions.push(state.action());
        }
        assert_eq!(
            actions,
            vec![
                TransferAction::Send { range_start: Some(777) },
                TransferAction::Finish(TransferOutcome::Success(0)),
            ]
        );
        assert_eq!(state.downloaded, 777);
        assert_eq!(state.content_retry_budget, 5);
        assert_eq!(state.transport_retry_budget, 5);
        assert_eq!(
            state.progress(),
            Progress { position: 777, total: 777, tag: StatusTag::Success }
        );
    }
}

#[test]
fn running_a_finished_transfer_again_changes_nothing() {
    let events = [TransferEvent::Probed(Some(777)), answered(416, None)];
    let first = run(TransferState::new(5), &events);
    let second = run(TransferState::new(5), &events);
    assert_eq!(first, second);
    assert_eq!(first.outcome(), Some(TransferOutcome::Success(0)));
    assert_eq!(download(first, TransferEvent::Chunk(9)), first);
    assert_eq!(download(first, TransferEvent::Probed(None)), first);
}

#[test]
fn too_many_requests_then_success_keeps_the_budgets() {
    let state = run(TransferState::new(1), &[TransferEvent::Probed(None), answered(429, None)]);
    assert_eq!(state.phase, Phase::Paused(Pause::RateLimited));
    assert_eq!(state.action(), TransferAction::Sleep { seconds: 10 });
    assert_eq!(state.progress().tag, StatusTag::Waiting);
    assert_eq!(state.content_retry_budget, 1);
    assert_eq!(state.transport_retry_budget, 1);
    let state = download(state, TransferEvent::Elapsed);
    assert_eq!(state.action(), TransferAction::Probe);
    let state = run(
        state,
        &[
            TransferEvent::Probed(None),
            answered(200, Some(64)),
            TransferEvent::Chunk(64),
            TransferEvent::Written,
            TransferEvent::StreamEnded,
        ],
    );
    assert_eq!(state.outcome(), Some(TransferOutcome::Success(64)));
    assert_eq!(state.content_retry_budget, 1);
    assert_eq!(state.transport_retry_budget, 1);
    assert_eq!(state.attempts, 2);
}

#[test]
fn too_many_requests_never_fail_a_transfer() {
    let mut state = download(TransferState::new(0), TransferEvent::Probed(None));
    for _ in 0..100 {
        state = run(
            state,
            &[answered(429, Some(0)), TransferEvent::Elapsed, TransferEvent::Probed(None)],
        );
        assert_eq!(state.phase, Phase::RequestSent);
    }
    assert_eq!(state.content_retry_budget, 0);
    assert_eq!(state.attempts, 101);
}

#[test]
fn repeated_refusals_use_up_the_content_budget() {
    let mut state = download(TransferState::new(2), TransferEvent::Probed(Some(50)));
    let mut actions = Vec::new();
    for _ in 0..2 {
        state = download(state, answered(503, Some(12)));
        actions.push(state.action());
        assert_eq!(state.progress().tag, StatusTag::Waiting);
        state = run(state, &[TransferEvent::Elapsed, TransferEvent::Probed(Some(50))]);
        actions.push(state.action());
    }
    assert_eq!(state.content_retry_budget, 0);
    assert_eq!(state.transport_retry_budget, 2);
    state = download(state, answered(503, Some(12)));
    actions.push(state.action());
    assert_eq!(
        actions,
        vec![
            TransferAction::Sleep { seconds: 2 },
            TransferAction::Send { range_start: Some(50) },
            TransferAction::Sleep { seconds: 2 },
            TransferAction::Send { range_start: Some(50) },
            TransferAction::Finish(TransferOutcome::Failed),
        ]
    );
    assert_eq!(state.outcome(), Some(TransferOutcome::Failed));
    assert_eq!(state.progress().tag, StatusTag::Failed);
    assert_eq!(state.downloaded, 50);
}

#[test]
fn a_refusal_with_no_budget_fails_at_once() {
    let state = run(TransferState::new(0), &[TransferEvent::Probed(None), answered(503, None)]);
    assert_eq!(state.outcome(), Some(TransferOutcome::Failed));
}

#[test]
fn failed_sends_use_up_the_transport_budget() {
    let state = run(TransferState::new(1), &[TransferEvent::Probed(None), TransferEvent::SendFailed]);
    assert_eq!(state.phase, Phase::Paused(Pause::Unsent));
    assert_eq!(state.action(), TransferAction::Sleep { seconds: 2 });
    assert_eq!(state.progress().tag, StatusTag::Reconnecting);
    assert_eq!(state.transport_retry_budget, 0);
    assert_eq!(state.content_retry_budget, 1);
    let state = run(
        state,
        &[TransferEvent::Elapsed, TransferEvent::Probed(None), TransferEvent::SendFailed],
    );
    assert_eq!(state.outcome(), Some(TransferOutcome::Failed));
}

#[test]
fn an_answer_without_a_length_is_streamed_and_measured() {
    let state = run(TransferState::new(1), &[TransferEvent::Probed(None), answered(200, None)]);
    assert_eq!(state.phase, Phase::Streaming);
    assert_eq!(state.action(), TransferAction::Receive);
    assert_eq!(state.total_bytes, None);
    assert_eq!(state.transport_retry_budget, 1);
    let state = run(
        state,
        &[
            TransferEvent::Chunk(300),
            TransferEvent::Written,
            TransferEvent::Chunk(45),
            TransferEvent::WriteFailed,
            TransferEvent::Written,
        ],
    );
    assert_eq!(state.downloaded, 345);
    assert_eq!(state.progress(), Progress { position: 345, total: 345, tag: StatusTag::Downloading });
    let state = download(state, TransferEvent::StreamEnded);
    assert_eq!(state.outcome(), Some(TransferOutcome::Success(345)));
    assert_eq!(state.content_retry_budget, 1);
    assert_eq!(state.transport_retry_budget, 1);
}

#[test]
fn a_resumed_answer_without_a_length_counts_what_it_adds() {
    let state = run(
        TransferState::new(0),
        &[
            TransferEvent::Probed(Some(1000)),
            answered(206, None),
            TransferEvent::Chunk(24),
            TransferEvent::Written,
            TransferEvent::StreamEnded,
        ],
    );
    assert_eq!(state.downloaded, 1024);
    assert_eq!(state.outcome(), Some(TransferOutcome::Success(24)));
}

#[test]
fn an_empty_body_without_a_length_is_a_success_of_nothing() {
    let state = run(
        TransferState::new(0),
        &[TransferEvent::Probed(None), answered(200, None), TransferEvent::StreamEnded],
    );
    assert_eq!(state.outcome(), Some(TransferOutcome::Success(0)));
}

#[test]
fn too_many_requests_then_an_answer_without_a_length_is_one_success() {
    let state = run(
        TransferState::new(0),
        &[
            TransferEvent::Probed(None),
            answered(429, None),
            TransferEvent::Elapsed,
            TransferEvent::Probed(Some(0)),
            answered(200, None),
            TransferEvent::Chunk(7),
            TransferEvent::Written,
            TransferEvent::StreamEnded,
        ],
    );
    assert_eq!(state.outcome(), Some(TransferOutcome::Success(7)));
    assert_eq!(state.content_retry_budget, 0);
    assert_eq!(state.transport_retry_budget, 0);
}

#[test]
fn the_count_of_a_measured_body_stops_at_the_largest_number() {
    let state = run(
        TransferState::new(0),
        &[
            TransferEvent::Probed(None),
            answered(200, None),
            TransferEvent::Chunk(u64::MAX),
            TransferEvent::Written,
            TransferEvent::Chunk(5),
            TransferEvent::Written,
            TransferEvent::StreamEnded,
        ],
    );
    assert_eq!(state.downloaded, u64::MAX);
    assert_eq!(state.outcome(), Some(TransferOutcome::Success(u64::MAX)));
}

#[test]
fn a_broken_body_is_resumed_from_what_was_written() {
    let state = run(
        TransferState::new(1),
        &[
            TransferEvent::Probed(None),
            answered(200, Some(1000)),
            TransferEvent::Chunk(400),
            TransferEvent::Written,
            TransferEvent::StreamFailed,
        ],
    );
    assert_eq!(state.phase, Phase::Paused(Pause::Broken));
    assert_eq!(state.action(), TransferAction::Sleep { seconds: 1 });
    assert_eq!(state.progress().tag, StatusTag::Reconnecting);
    assert_eq!(state.transport_retry_budget, 0);
    let state = run(state, &[TransferEvent::Elapsed, TransferEvent::Probed(Some(400))]);
    assert_eq!(state.action(), TransferAction::Send { range_start: Some(400) });
    let state = run(
        state,
        &[answered(206, Some(600)), TransferEvent::Chunk(10), TransferEvent::Written],
    );
    assert_eq!(state.total_bytes, Some(1000));
    assert_eq!(state.downloaded, 410);
    let state = download(state, TransferEvent::StreamFailed);
    assert_eq!(state.outcome(), Some(TransferOutcome::Failed));
    assert_eq!(state.downloaded, 410);
}

#[test]
fn a_failed_write_is_tried_again_a_few_times() {
    let mut state = run(
        TransferState::new(0),
        &[TransferEvent::Probed(None), answered(200, Some(10)), TransferEvent::Chunk(10)],
    );
    for left in (0..WRITE_RETRY).rev() {
        state = download(state, TransferEvent::WriteFailed);
        assert_eq!(state.phase, Phase::Writing(10));
        assert_eq!(state.action(), TransferAction::Write);
        assert_eq!(state.write_retry_budget, left);
    }
    let given_up = download(state, TransferEvent::WriteFailed);
    assert_eq!(given_up.outcome(), Some(TransferOutcome::Failed));
    let written = download(state, TransferEvent::Written);
    assert_eq!(written.downloaded, 10);
    let next = download(written, TransferEvent::Chunk(1));
    assert_eq!(next.write_retry_budget, WRITE_RETRY);
}

#[test]
fn the_position_never_passes_the_total() {
    let state = run(
        TransferState::new(0),
        &[
            TransferEvent::Probed(Some(5)),
            answered(206, Some(10)),
            TransferEvent::Chunk(11),
            TransferEvent::Written,
        ],
    );
    assert_eq!(state.downloaded, 15);
    let state = run(state, &[TransferEvent::Chunk(u64::MAX), TransferEvent::Written]);
    assert_eq!(state.downloaded, 15);
}

#[test]
fn a_total_beyond_what_fits_is_not_known() {
    let state = run(
        TransferState::new(0),
        &[TransferEvent::Probed(Some(u64::MAX)), answered(206, Some(1))],
    );
    assert_eq!(state.total_bytes, None);
    let state = run(state, &[TransferEvent::Chunk(1), TransferEvent::Written]);
    assert_eq!(state.downloaded, u64::MAX);
    assert_eq!(state.progress().total, u64::MAX);
}

#[test]
fn events_out_of_turn_change_nothing() {
    let fresh = TransferState::new(1);
    for event in [
        TransferEvent::SendFailed,
        answered(200, Some(1)),
        TransferEvent::Elapsed,
        TransferEvent::Chunk(1),
        TransferEvent::StreamFailed,
        TransferEvent::StreamEnded,
        TransferEvent::Written,
        TransferEvent::WriteFailed,
    ] {
        assert_eq!(download(fresh, event), fresh);
    }
    let sent = download(fresh, TransferEvent::Probed(None));
    assert_eq!(download(sent, TransferEvent::Probed(Some(3))), sent);
    assert_eq!(download(sent, TransferEvent::Written), sent);
}

#[test]
fn the_count_of_attempts_stops_at_the_largest_number() {
    let mut state = TransferState::new(0);
    state.attempts = u64::MAX;
    let state = download(state, TransferEvent::Probed(None));
    assert_eq!(state.attempts, u64::MAX);
}

#[test]
fn a_failed_transfer_tells_why() {
    let sent = download(TransferState::new(0), TransferEvent::Probed(None));
    assert_eq!(sent.error(), None);
    assert_eq!(download(sent, answered(503, None)).error(), Some(TransferError::Status));
    assert_eq!(download(sent, TransferEvent::SendFailed).error(), Some(TransferError::Transport));
    assert_eq!(download(sent, answered(200, None)).error(), None);
    let streaming = download(sent, answered(200, Some(4)));
    assert_eq!(
        download(streaming, TransferEvent::StreamFailed).error(),
        Some(TransferError::Transport)
    );
    let mut writing = download(streaming, TransferEvent::Chunk(4));
    writing.write_retry_budget = 0;
    assert_eq!(download(writing, TransferEvent::WriteFailed).error(), Some(TransferError::Write));
    assert_eq!(download(streaming, TransferEvent::StreamEnded).error(), None);
}
