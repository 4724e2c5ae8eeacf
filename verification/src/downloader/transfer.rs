//! The transfer of one file, as a state machine.
//!
//! The machine never touches the network or the disk. It says what to do next
//! ([`TransferState::action`]); the caller does it and reports what happened as a
//! [`TransferEvent`]; [`download`] gives the state that follows. A transfer starts by
//! looking at the destination, asks the server for what is missing, classifies the answer,
//! streams the body chunk by chunk, and ends as done or failed. Nothing it asks for ever
//! removes or shortens a destination that already holds bytes.
use crate::declare::RetryType;
use crate::declare::ERROR_REQUEST_DELAY_SEC;
use crate::declare::RECONNECT_DELAY_SEC;
use crate::declare::TOO_MANY_REQUESTS_DELAY_SEC;
use crate::declare::WRITE_RETRY;
use crate::text::decimal;
use crate::text::push_decimal;
use crate::text::push_text;
use crate::text::string_of;
use vstd::prelude::*;

verus! {

/// How the transfer of one file ended.
#[derive(Clone, Copy, PartialEq, Eq, Structural, Debug)]
pub enum TransferOutcome {
    /// The file is complete; the number is the bytes of the answer that completed it: the
    /// length that it declared or, where it declared none, what was written of it; zero
    /// where the server had nothing left to send.
    Success(u64),
    /// The file was passed over and never asked for.
    Skipped,
    /// The retries are used up; what was written stays on disk.
    Failed,
}

/// Why a transfer was given up.
#[derive(Clone, Copy, PartialEq, Eq, Structural, Debug)]
pub enum TransferError {
    /// No answer came, or the body broke off, once more often than the transport budget
    /// allows.
    Transport,
    /// The server answered with a status worth another try once more often than the
    /// content budget allows.
    Status,
    /// A chunk could not be written, however often the write was tried.
    Write,
}

/// What a status code means for a transfer.
#[derive(Clone, Copy, PartialEq, Eq, Structural, Debug)]
pub enum ResponseClass {
    /// The server has nothing left to send: the destination is complete.
    AlreadyComplete,
    /// Too many requests: wait and ask again, at no cost.
    RateLimited,
    /// The body follows.
    Proceed,
    /// Any other status: ask again while the budget lasts.
    Refused,
}

/// Why a transfer waits before it looks at the destination again.
#[derive(Clone, Copy, PartialEq, Eq, Structural, Debug)]
pub enum Pause {
    /// The server asked for fewer requests.
    RateLimited,
    /// The server answered with a status that is worth another try.
    Refused,
    /// No answer came.
    Unsent,
    /// The body broke off.
    Broken,
}

/// Where a transfer stands.
#[derive(Clone, Copy, PartialEq, Eq, Structural, Debug)]
pub enum Phase {
    /// The destination is to be looked at.
    Probe,
    /// The request is out.
    RequestSent,
    /// A wait is under way; the destination is looked at again after it.
    Paused(Pause),
    /// The body is being read.
    Streaming,
    /// A chunk of this many bytes is being written.
    Writing(u64),
    /// The file is complete.
    Done,
    /// The transfer is given up, for this reason.
    Failed(TransferError),
}

/// The short word shown beside a file in progress.
#[derive(Clone, Copy, PartialEq, Eq, Structural, Debug)]
pub enum StatusTag {
    Downloading,
    Waiting,
    Reconnecting,
    Success,
    Failed,
}

/// What is shown for a file in progress.
#[derive(Clone, Copy, PartialEq, Eq, Structural, Debug)]
pub struct Progress {
    pub position: u64,
    pub total: u64,
    pub tag: StatusTag,
}

/// What happened to the last thing a transfer asked for.
#[derive(Clone, Copy, PartialEq, Eq, Structural, Debug)]
pub enum TransferEvent {
    /// The destination was looked at: the bytes it holds, or `None` where it does not exist.
    Probed(Option<u64>),
    /// The request could not be sent, or no answer came.
    SendFailed,
    /// The server answered with this status and, where it declared one, this body length.
    Responded { status: u16, declared_length: Option<u64> },
    /// The wait is over.
    Elapsed,
    /// The body gave a chunk of this many bytes.
    Chunk(u64),
    /// The body broke off.
    StreamFailed,
    /// The body is complete.
    StreamEnded,
    /// The chunk in hand is written.
    Written,
    /// The chunk in hand could not be written.
    WriteFailed,
}

/// What a transfer asks of its caller.
#[derive(Clone, Copy, PartialEq, Eq, Structural, Debug)]
pub enum TransferAction {
    /// Look at the destination and report `Probed`.
    Probe,
    /// Open the destination, to append where `range_start` is given and anew where it is not,
    /// send the request, with a range header where `range_start` is given, and report
    /// `Responded` or `SendFailed`.
    Send { range_start: Option<u64> },
    /// Wait this long and report `Elapsed`.
    Sleep { seconds: u64 },
    /// Read the next chunk and report `Chunk`, `StreamEnded` or `StreamFailed`.
    Receive,
    /// Append the chunk in hand to the destination and report `Written` or `WriteFailed`.
    Write,
    /// Flush the destination where the outcome is a success; the transfer is over.
    Finish(TransferOutcome),
}

/// The state of one transfer.
#[derive(Clone, Copy, PartialEq, Eq, Structural, Debug)]
pub struct TransferState {
    pub phase: Phase,
    /// Bytes that the destination held when it was last looked at.
    pub existing_bytes: Option<u64>,
    /// Size that the file is expected to reach, once an answer has declared what follows;
    /// not known where the answer declares no length.
    pub total_bytes: Option<u64>,
    /// Bytes of the file that are known to be on disk.
    pub downloaded: u64,
    /// Bytes of the answer in hand: the length that it declared or, where it declared none,
    /// what is written of it so far.
    pub declared: u64,
    /// Whether the answer in hand declared no length, so that its bytes are counted as
    /// they are written.
    pub measured: bool,
    /// Tries left after an answer with a status worth another try.
    pub content_retry_budget: RetryType,
    /// Tries left after a request that got no answer or a body that broke off.
    pub transport_retry_budget: RetryType,
    /// Tries left for the chunk in hand.
    pub write_retry_budget: RetryType,
    /// How often the destination has been looked at.
    pub attempts: u64,
}

/// What `status` means for a transfer.
pub open spec fn status_class(status: u16) -> ResponseClass {
    if status == 416 || status == 190 {
        ResponseClass::AlreadyComplete
    } else if status == 429 {
        ResponseClass::RateLimited
    } else if status == 200 || status == 206 {
        ResponseClass::Proceed
    } else {
        ResponseClass::Refused
    }
}

/// Seconds that a wait lasts.
pub open spec fn pause_seconds(pause: Pause) -> u64 {
    match pause {
        Pause::RateLimited => TOO_MANY_REQUESTS_DELAY_SEC,
        Pause::Refused => ERROR_REQUEST_DELAY_SEC,
        Pause::Unsent => ERROR_REQUEST_DELAY_SEC,
        Pause::Broken => RECONNECT_DELAY_SEC,
    }
}

/// The value of the range header that asks for everything from byte `start` on.
pub open spec fn range_header_text(start: u64) -> Seq<char> {
    "bytes="@ + decimal(start as nat) + "-"@
}

impl TransferState {
    /// A transfer that has not begun, with `retry` tries for each kind of failure.
    pub open spec fn initial(retry: RetryType) -> TransferState {
        TransferState {
            phase: Phase::Probe,
            existing_bytes: None,
            total_bytes: None,
            downloaded: 0,
            declared: 0,
            measured: false,
            content_retry_budget: retry,
            transport_retry_budget: retry,
            write_retry_budget: WRITE_RETRY,
            attempts: 0,
        }
    }

    /// Whether the transfer is over.
    pub open spec fn finished(self) -> bool {
        self.phase is Done || self.phase is Failed
    }

    /// Why the transfer was given up, where it was.
    pub open spec fn spec_error(self) -> Option<TransferError> {
        match self.phase {
            Phase::Failed(error) => Some(error),
            _ => None,
        }
    }

    /// The state after a failure of the transport: one try less and a wait, or the end.
    pub open spec fn after_transport_failure(self, pause: Pause) -> TransferState {
        if self.transport_retry_budget > 0 {
            TransferState {
                phase: Phase::Paused(pause),
                transport_retry_budget: (self.transport_retry_budget - 1) as RetryType,
                ..self
            }
        } else {
            TransferState { phase: Phase::Failed(TransferError::Transport), ..self }
        }
    }

    /// The state after the server answered a request.
    pub open spec fn after_response(self, status: u16, declared_length: Option<u64>) -> TransferState {
        match status_class(status) {
            ResponseClass::AlreadyComplete => TransferState {
                phase: Phase::Done,
                declared: 0,
                measured: false,
                total_bytes: Some(self.downloaded),
                ..self
            },
            ResponseClass::RateLimited => TransferState {
                phase: Phase::Paused(Pause::RateLimited),
                ..self
            },
            ResponseClass::Refused => if self.content_retry_budget > 0 {
                TransferState {
                    phase: Phase::Paused(Pause::Refused),
                    content_retry_budget: (self.content_retry_budget - 1) as RetryType,
                    ..self
                }
            } else {
                TransferState { phase: Phase::Failed(TransferError::Status), ..self }
            },
            ResponseClass::Proceed => match declared_length {
                Some(length) => TransferState {
                    phase: Phase::Streaming,
                    declared: length,
                    measured: false,
                    total_bytes: if self.downloaded + length <= u64::MAX {
                        Some((self.downloaded + length) as u64)
                    } else {
                        None
                    },
                    ..self
                },
                None => TransferState {
                    phase: Phase::Streaming,
                    declared: 0,
                    measured: true,
                    total_bytes: None,
                    ..self
                },
            },
        }
    }

    /// The position after `length` more bytes are on disk: it never passes the expected
    /// total, nor what 64 bits hold.
    pub open spec fn advanced(self, length: u64) -> u64 {
        let limit: u64 = match self.total_bytes {
            Some(total) => total,
            None => u64::MAX,
        };
        if self.downloaded + length <= limit {
            (self.downloaded + length) as u64
        } else {
            limit
        }
    }

    /// The bytes of the answer in hand after `length` more of them are written: what the
    /// answer declared, or the bytes counted so far and these, as far as 64 bits hold them.
    pub open spec fn counted(self, length: u64) -> u64 {
        if !self.measured {
            self.declared
        } else if self.declared + length <= u64::MAX {
            (self.declared + length) as u64
        } else {
            u64::MAX
        }
    }

    /// The state that follows when `event` is reported. An event that the state did not ask
    /// for changes nothing.
    pub open spec fn next(self, event: TransferEvent) -> TransferState {
        match (self.phase, event) {
            (Phase::Probe, TransferEvent::Probed(existing)) => TransferState {
                phase: Phase::RequestSent,
                existing_bytes: existing,
                total_bytes: None,
                downloaded: match existing {
                    Some(bytes) => bytes,
                    None => 0,
                },
                declared: 0,
                measured: false,
                attempts: if self.attempts < u64::MAX {
                    (self.attempts + 1) as u64
                } else {
                    self.attempts
                },
                ..self
            },
            (Phase::RequestSent, TransferEvent::SendFailed) => self.after_transport_failure(
                Pause::Unsent,
            ),
            (Phase::RequestSent, TransferEvent::Responded { status, declared_length }) => {
                self.after_response(status, declared_length)
            },
            (Phase::Paused(_), TransferEvent::Elapsed) => TransferState {
                phase: Phase::Probe,
                ..self
            },
            (Phase::Streaming, TransferEvent::Chunk(length)) => TransferState {
                phase: Phase::Writing(length),
                write_retry_budget: WRITE_RETRY,
                ..self
            },
            (Phase::Streaming, TransferEvent::StreamFailed) => self.after_transport_failure(
                Pause::Broken,
            ),
            (Phase::Streaming, TransferEvent::StreamEnded) => TransferState {
                phase: Phase::Done,
                ..self
            },
            (Phase::Writing(length), TransferEvent::Written) => TransferState {
                phase: Phase::Streaming,
                downloaded: self.advanced(length),
                declared: self.counted(length),
                ..self
            },
            (Phase::Writing(_), TransferEvent::WriteFailed) => if self.write_retry_budget > 0 {
                TransferState {
                    write_retry_budget: (self.write_retry_budget - 1) as RetryType,
                    ..self
                }
            } else {
                TransferState { phase: Phase::Failed(TransferError::Write), ..self }
            },
            _ => self,
        }
    }

    /// What the state asks of the caller.
    pub open spec fn spec_action(self) -> TransferAction {
        match self.phase {
            Phase::Probe => TransferAction::Probe,
            Phase::RequestSent => TransferAction::Send { range_start: self.existing_bytes },
            Phase::Paused(pause) => TransferAction::Sleep { seconds: pause_seconds(pause) },
            Phase::Streaming => TransferAction::Receive,
            Phase::Writing(_) => TransferAction::Write,
            Phase::Done => TransferAction::Finish(TransferOutcome::Success(self.declared)),
            Phase::Failed(_) => TransferAction::Finish(TransferOutcome::Failed),
        }
    }

    /// How the transfer ended, once it has.
    pub open spec fn spec_outcome(self) -> Option<TransferOutcome> {
        match self.phase {
            Phase::Done => Some(TransferOutcome::Success(self.declared)),
            Phase::Failed(_) => Some(TransferOutcome::Failed),
            _ => None,
        }
    }

    /// What is shown for the file.
    pub open spec fn spec_progress(self) -> Progress {
        Progress {
            position: self.downloaded,
            total: match self.total_bytes {
                Some(total) => total,
                None => self.downloaded,
            },
            tag: match self.phase {
                Phase::Paused(Pause::RateLimited) => StatusTag::Waiting,
                Phase::Paused(Pause::Refused) => StatusTag::Waiting,
                Phase::Paused(_) => StatusTag::Reconnecting,
                Phase::Done => StatusTag::Success,
                Phase::Failed(_) => StatusTag::Failed,
                _ => StatusTag::Downloading,
            },
        }
    }

    /// The state after the events of `events`, reported in order.
    pub open spec fn run(self, events: Seq<TransferEvent>) -> TransferState
        decreases events.len(),
    {
        if events.len() == 0 {
            self
        } else {
            self.next(events[0]).run(events.drop_first())
        }
    }

    /// Begins a transfer with `retry` tries for each kind of failure.
    pub fn new(retry: RetryType) -> (state: Self)
        ensures
            state == Self::initial(retry),
    {
        TransferState {
            phase: Phase::Probe,
            existing_bytes: None,
            total_bytes: None,
            downloaded: 0,
            declared: 0,
            measured: false,
            content_retry_budget: retry,
            transport_retry_budget: retry,
            write_retry_budget: WRITE_RETRY,
            attempts: 0,
        }
    }

    /// What the caller is to do next.
    pub fn action(&self) -> (action: TransferAction)
        ensures
            action == self.spec_action(),
    {
        match self.phase {
            Phase::Probe => TransferAction::Probe,
            Phase::RequestSent => TransferAction::Send { range_start: self.existing_bytes },
            Phase::Paused(pause) => TransferAction::Sleep { seconds: pause_length(pause) },
            Phase::Streaming => TransferAction::Receive,
            Phase::Writing(_) => TransferAction::Write,
            Phase::Done => TransferAction::Finish(TransferOutcome::Success(self.declared)),
            Phase::Failed(_) => TransferAction::Finish(TransferOutcome::Failed),
        }
    }

    /// How the transfer ended; `None` while it is under way.
    pub fn outcome(&self) -> (outcome: Option<TransferOutcome>)
        ensures
            outcome == self.spec_outcome(),
    {
        match self.phase {
            Phase::Done => Some(TransferOutcome::Success(self.declared)),
            Phase::Failed(_) => Some(TransferOutcome::Failed),
            _ => None,
        }
    }

    /// Why the transfer was given up; `None` unless it was.
    pub fn error(&self) -> (error: Option<TransferError>)
        ensures
            error == self.spec_error(),
    {
        match self.phase {
            Phase::Failed(error) => Some(error),
            _ => None,
        }
    }

    /// Position, total and tag to show for the file.
    pub fn progress(&self) -> (progress: Progress)
        ensures
            progress == self.spec_progress(),
    {
        let total = match self.total_bytes {
            Some(total) => total,
            None => self.downloaded,
        };
        let tag = match self.phase {
            Phase::Paused(Pause::RateLimited) => StatusTag::Waiting,
            Phase::Paused(Pause::Refused) => StatusTag::Waiting,
            Phase::Paused(_) => StatusTag::Reconnecting,
            Phase::Done => StatusTag::Success,
            Phase::Failed(_) => StatusTag::Failed,
            _ => StatusTag::Downloading,
        };
        Progress { position: self.downloaded, total, tag }
    }

    fn fail_transport(self, pause: Pause) -> (state: Self)
        ensures
            state == self.after_transport_failure(pause),
    {
        let mut state = self;
        if self.transport_retry_budget > 0 {
            state.phase = Phase::Paused(pause);
            state.transport_retry_budget = self.transport_retry_budget - 1;
        } else {
            state.phase = Phase::Failed(TransferError::Transport);
        }
        state
    }

    fn respond(self, status: u16, declared_length: Option<u64>) -> (state: Self)
        ensures
            state == self.after_response(status, declared_length),
    {
        let mut state = self;
        match classify(status) {
            ResponseClass::AlreadyComplete => {
                state.phase = Phase::Done;
                state.declared = 0;
                state.measured = false;
                state.total_bytes = Some(self.downloaded);
            },
            ResponseClass::RateLimited => {
                state.phase = Phase::Paused(Pause::RateLimited);
            },
            ResponseClass::Refused => {
                if self.content_retry_budget > 0 {
                    state.phase = Phase::Paused(Pause::Refused);
                    state.content_retry_budget = self.content_retry_budget - 1;
                } else {
                    state.phase = Phase::Failed(TransferError::Status);
                }
            },
            ResponseClass::Proceed => {
                match declared_length {
                    Some(length) => {
                        state.phase = Phase::Streaming;
                        state.declared = length;
                        state.measured = false;
                        state.total_bytes = self.downloaded.checked_add(length);
                    },
                    None => {
                        state.phase = Phase::Streaming;
                        state.declared = 0;
                        state.measured = true;
                        state.total_bytes = None;
                    },
                }
            },
        }
        state
    }
}

/// What `status` means for a transfer.
pub fn classify(status: u16) -> (class: ResponseClass)
    ensures
        class == status_class(status),
{
    if status == 416 || status == 190 {
        ResponseClass::AlreadyComplete
    } else if status == 429 {
        ResponseClass::RateLimited
    } else if status == 200 || status == 206 {
        ResponseClass::Proceed
    } else {
        ResponseClass::Refused
    }
}

/// Seconds that a wait lasts.
pub fn pause_length(pause: Pause) -> (seconds: u64)
    ensures
        seconds == pause_seconds(pause),
{
    match pause {
        Pause::RateLimited => TOO_MANY_REQUESTS_DELAY_SEC,
        Pause::Refused => ERROR_REQUEST_DELAY_SEC,
        Pause::Unsent => ERROR_REQUEST_DELAY_SEC,
        Pause::Broken => RECONNECT_DELAY_SEC,
    }
}

/// The value of the range header that asks for everything from byte `start` on.
pub fn range_header(start: u64) -> (header: String)
    ensures
        header@ == range_header_text(start),
{
    let mut chars: Vec<char> = Vec::new();
    push_text(&mut chars, "bytes=");
    push_decimal(&mut chars, start as u128);
    push_text(&mut chars, "-");
    string_of(&chars)
}

/// One step of a transfer: the state that follows `state` when `event` is reported.
pub fn download(state: TransferState, event: TransferEvent) -> (after: TransferState)
    ensures
        after == state.next(event),
{
    let mut after = state;
    match (state.phase, event) {
        (Phase::Probe, TransferEvent::Probed(existing)) => {
            after.phase = Phase::RequestSent;
            after.existing_bytes = existing;
            after.total_bytes = None;
            after.downloaded = match existing {
                Some(bytes) => bytes,
                None => 0,
            };
            after.declared = 0;
            after.measured = false;
            if state.attempts < u64::MAX {
                after.attempts = state.attempts + 1;
            }
        },
        (Phase::RequestSent, TransferEvent::SendFailed) => {
            after = state.fail_transport(Pause::Unsent);
        },
        (Phase::RequestSent, TransferEvent::Responded { status, declared_length }) => {
            after = state.respond(status, declared_length);
        },
        (Phase::Paused(_), TransferEvent::Elapsed) => {
            after.phase = Phase::Probe;
        },
        (Phase::Streaming, TransferEvent::Chunk(length)) => {
            after.phase = Phase::Writing(length);
            after.write_retry_budget = WRITE_RETRY;
        },
        (Phase::Streaming, TransferEvent::StreamFailed) => {
            after = state.fail_transport(Pause::Broken);
        },
        (Phase::Streaming, TransferEvent::StreamEnded) => {
            after.phase = Phase::Done;
        },
        (Phase::Writing(length), TransferEvent::Written) => {
            let limit: u64 = match state.total_bytes {
                Some(total) => total,
                None => u64::MAX,
            };
            after.phase = Phase::Streaming;
            after.downloaded = match state.downloaded.checked_add(length) {
                Some(sum) => if sum <= limit {
                    sum
                } else {
                    limit
                },
                None => limit,
            };
            if state.measured {
                after.declared = match state.declared.checked_add(length) {
                    Some(sum) => sum,
                    None => u64::MAX,
                };
            }
        },
        (Phase::Writing(_), TransferEvent::WriteFailed) => {
            if state.write_retry_budget > 0 {
                after.write_retry_budget = state.write_retry_budget - 1;
            } else {
                after.phase = Phase::Failed(TransferError::Write);
            }
        },
        _ => {},
    }
    after
}

/// The state after each of `probes` was met by a refusal: the server answers a request with
/// `status`, the wait passes, and the destination is found to hold what the probe says.
pub open spec fn after_refusals(
    state: TransferState,
    status: u16,
    probes: Seq<Option<u64>>,
) -> TransferState
    decreases probes.len(),
{
    if probes.len() == 0 {
        state
    } else {
        after_refusals(
            state.next(TransferEvent::Responded { status, declared_length: None }).next(
                TransferEvent::Elapsed,
            ).next(TransferEvent::Probed(probes[0])),
            status,
            probes.drop_first(),
        )
    }
}

/// A transfer that finds `held` bytes at its destination asks for the rest only: the
/// request goes out with the range that starts at `held`, and the destination is opened to
/// append. Where the server then says that nothing is left, the transfer is done with zero
/// bytes transferred, and it has asked for no write.
pub proof fn law_resume_asks_for_the_rest(
    state: TransferState,
    held: u64,
    status: u16,
    declared_length: Option<u64>,
)
    requires
        state.phase is Probe,
        status_class(status) is AlreadyComplete,
    ensures
        state.next(TransferEvent::Probed(Some(held))).spec_action() == (TransferAction::Send {
            range_start: Some(held),
        }),
        state.next(TransferEvent::Probed(Some(held))).next(
            TransferEvent::Responded { status, declared_length },
        ).spec_action() == TransferAction::Finish(TransferOutcome::Success(0)),
        state.next(TransferEvent::Probed(Some(held))).next(
            TransferEvent::Responded { status, declared_length },
        ).downloaded == held,
        state.next(TransferEvent::Probed(Some(held))).next(
            TransferEvent::Responded { status, declared_length },
        ).spec_progress() == (Progress { position: held, total: held, tag: StatusTag::Success }),
{
}

/// A complete destination can be transferred again and again: each run, whatever its
/// budgets, ends as the one before it, with the same bytes held and none transferred.
pub proof fn law_rerun_is_idempotent(first: RetryType, second: RetryType, held: u64, status: u16)
    requires
        status_class(status) is AlreadyComplete,
    ensures
        TransferState::initial(first).run(
            seq![
                TransferEvent::Probed(Some(held)),
                TransferEvent::Responded { status, declared_length: None },
            ],
        ).spec_outcome() == Some(TransferOutcome::Success(0)),
        TransferState::initial(first).run(
            seq![
                TransferEvent::Probed(Some(held)),
                TransferEvent::Responded { status, declared_length: None },
            ],
        ).downloaded == TransferState::initial(second).run(
            seq![
                TransferEvent::Probed(Some(held)),
                TransferEvent::Responded { status, declared_length: None },
            ],
        ).downloaded,
{
    let events = seq![
        TransferEvent::Probed(Some(held)),
        TransferEvent::Responded { status, declared_length: None },
    ];
    lemma_run_two(TransferState::initial(first), events[0], events[1]);
    lemma_run_two(TransferState::initial(second), events[0], events[1]);
}

/// Running two events is taking two steps.
pub proof fn lemma_run_two(state: TransferState, a: TransferEvent, b: TransferEvent)
    ensures
        state.run(seq![a, b]) == state.next(a).next(b),
{
    let events = seq![a, b];
    assert(events.drop_first() == seq![b]);
    assert(events.drop_first().drop_first() == Seq::<TransferEvent>::empty());
    reveal_with_fuel(TransferState::run, 3);
}

/// Too many requests cost nothing: the transfer waits the longer delay and looks at the
/// destination again with both budgets as they were. Where the next answer brings the
/// body, whether or not it declares a length, and the body ends, the transfer is done with
/// one success and both budgets still untouched.
pub proof fn law_rate_limit_is_free(
    state: TransferState,
    held: Option<u64>,
    status: u16,
    declared_length: Option<u64>,
)
    requires
        state.phase is RequestSent,
        status_class(status) is Proceed,
    ensures
        ({
            let limited = state.next(
                TransferEvent::Responded { status: 429, declared_length: None },
            );
            let again = limited.next(TransferEvent::Elapsed).next(TransferEvent::Probed(held));
            let streaming = again.next(TransferEvent::Responded { status, declared_length });
            let done = streaming.next(TransferEvent::StreamEnded);
            &&& limited.spec_action() == (TransferAction::Sleep {
                seconds: TOO_MANY_REQUESTS_DELAY_SEC,
            })
            &&& limited.content_retry_budget == state.content_retry_budget
            &&& limited.transport_retry_budget == state.transport_retry_budget
            &&& limited.next(TransferEvent::Elapsed).spec_action() == TransferAction::Probe
            &&& again.spec_action() == (TransferAction::Send { range_start: held })
            &&& streaming.spec_action() == TransferAction::Receive
            &&& done.spec_outcome() == Some(
                TransferOutcome::Success(
                    match declared_length {
                        Some(length) => length,
                        None => 0,
                    },
                ),
            )
            &&& done.content_retry_budget == state.content_retry_budget
            &&& done.transport_retry_budget == state.transport_retry_budget
        }),
{
}

/// The bytes of `chunks`, added up.
pub open spec fn sum_of(chunks: Seq<u64>) -> nat
    decreases chunks.len(),
{
    if chunks.len() == 0 {
        0
    } else {
        chunks[0] as nat + sum_of(chunks.drop_first())
    }
}

/// The state after each of `chunks` was read from the body and written.
pub open spec fn after_chunks(state: TransferState, chunks: Seq<u64>) -> TransferState
    decreases chunks.len(),
{
    if chunks.len() == 0 {
        state
    } else {
        after_chunks(
            state.next(TransferEvent::Chunk(chunks[0])).next(TransferEvent::Written),
            chunks.drop_first(),
        )
    }
}

/// A body that is read and written chunk by chunk moves the position on by its bytes and
/// costs no try. A body whose answer declared no length counts its bytes as they are
/// written; the end of the body ends the transfer with a success that carries the bytes
/// of the answer.
pub proof fn law_body_is_streamed_to_its_end(state: TransferState, chunks: Seq<u64>)
    requires
        state.phase is Streaming,
        state.downloaded + sum_of(chunks) <= u64::MAX,
        state.total_bytes is Some ==> state.downloaded + sum_of(chunks) <= state.total_bytes->0,
        state.measured ==> state.declared + sum_of(chunks) <= u64::MAX,
    ensures
        after_chunks(state, chunks).phase is Streaming,
        after_chunks(state, chunks).downloaded == state.downloaded + sum_of(chunks),
        after_chunks(state, chunks).total_bytes == state.total_bytes,
        after_chunks(state, chunks).measured == state.measured,
        state.measured ==> after_chunks(state, chunks).declared == state.declared + sum_of(chunks),
        !state.measured ==> after_chunks(state, chunks).declared == state.declared,
        after_chunks(state, chunks).content_retry_budget == state.content_retry_budget,
        after_chunks(state, chunks).transport_retry_budget == state.transport_retry_budget,
        after_chunks(state, chunks).next(TransferEvent::StreamEnded).spec_outcome() == Some(
            TransferOutcome::Success(after_chunks(state, chunks).declared),
        ),
    decreases chunks.len(),
{
    if chunks.len() > 0 {
        let written = state.next(TransferEvent::Chunk(chunks[0])).next(TransferEvent::Written);
        law_body_is_streamed_to_its_end(written, chunks.drop_first());
    }
}

/// An answer that brings the body without declaring its length is streamed like any
/// other: the transfer ends with a success that carries the bytes written, and the file
/// has grown by them.
pub proof fn law_undeclared_length_is_measured(
    state: TransferState,
    status: u16,
    chunks: Seq<u64>,
)
    requires
        state.phase is RequestSent,
        status_class(status) is Proceed,
        state.downloaded + sum_of(chunks) <= u64::MAX,
    ensures
        ({
            let streaming = state.next(TransferEvent::Responded { status, declared_length: None });
            let done = after_chunks(streaming, chunks).next(TransferEvent::StreamEnded);
            &&& streaming.spec_action() == TransferAction::Receive
            &&& streaming.transport_retry_budget == state.transport_retry_budget
            &&& done.spec_outcome() == Some(TransferOutcome::Success(sum_of(chunks) as u64))
            &&& done.downloaded == state.downloaded + sum_of(chunks)
            &&& done.content_retry_budget == state.content_retry_budget
            &&& done.transport_retry_budget == state.transport_retry_budget
        }),
{
    let streaming = state.next(TransferEvent::Responded { status, declared_length: None });
    law_body_is_streamed_to_its_end(streaming, chunks);
}

/// However often in a row the server asks for fewer requests, the budgets stay as they
/// were and the transfer is never given up for it.
pub proof fn law_rate_limit_never_fails(state: TransferState, probes: Seq<Option<u64>>)
    requires
        state.phase is RequestSent,
    ensures
        after_refusals(state, 429, probes).phase is RequestSent,
        after_refusals(state, 429, probes).content_retry_budget == state.content_retry_budget,
        after_refusals(state, 429, probes).transport_retry_budget == state.transport_retry_budget,
    decreases probes.len(),
{
    if probes.len() > 0 {
        let following = state.next(
            TransferEvent::Responded { status: 429, declared_length: None },
        ).next(TransferEvent::Elapsed).next(TransferEvent::Probed(probes[0]));
        law_rate_limit_never_fails(following, probes.drop_first());
    }
}

/// A refusal while tries are left costs one of them and the short wait, and nothing else:
/// after the wait the transfer looks at the destination again and asks for what follows
/// the bytes it finds there, so that nothing already written is asked for or lost.
pub proof fn law_refusal_costs_one_try(
    state: TransferState,
    status: u16,
    declared_length: Option<u64>,
    held: Option<u64>,
)
    requires
        state.phase is RequestSent,
        status_class(status) is Refused,
        state.content_retry_budget > 0,
    ensures
        ({
            let refused = state.next(TransferEvent::Responded { status, declared_length });
            let again = refused.next(TransferEvent::Elapsed).next(TransferEvent::Probed(held));
            &&& refused.spec_action() == (TransferAction::Sleep { seconds: ERROR_REQUEST_DELAY_SEC })
            &&& refused.content_retry_budget == state.content_retry_budget - 1
            &&& refused.transport_retry_budget == state.transport_retry_budget
            &&& refused.downloaded == state.downloaded
            &&& refused.next(TransferEvent::Elapsed).spec_action() == TransferAction::Probe
            &&& again.spec_action() == (TransferAction::Send { range_start: held })
            &&& again.content_retry_budget == state.content_retry_budget - 1
        }),
{
}

/// A content budget is used up by as many refusals as it counts, and the refusal after the
/// last gives the transfer up. All the while the transport budget stays as it was, and the
/// last request asked for what follows the bytes that the destination held.
pub proof fn law_refusals_exhaust_the_budget(
    state: TransferState,
    status: u16,
    probes: Seq<Option<u64>>,
)
    requires
        state.phase is RequestSent,
        status_class(status) is Refused,
        probes.len() == state.content_retry_budget,
    ensures
        after_refusals(state, status, probes).phase is RequestSent,
        after_refusals(state, status, probes).content_retry_budget == 0,
        after_refusals(state, status, probes).transport_retry_budget
            == state.transport_retry_budget,
        probes.len() > 0 ==> after_refusals(state, status, probes).spec_action() == (
        TransferAction::Send { range_start: probes.last() }),
        after_refusals(state, status, probes).next(
            TransferEvent::Responded { status, declared_length: None },
        ).spec_outcome() == Some(TransferOutcome::Failed),
        after_refusals(state, status, probes).next(
            TransferEvent::Responded { status, declared_length: None },
        ).spec_action() == TransferAction::Finish(TransferOutcome::Failed),
        after_refusals(state, status, probes).next(
            TransferEvent::Responded { status, declared_length: None },
        ).spec_error() == Some(TransferError::Status),
    decreases probes.len(),
{
    if probes.len() > 0 {
        let refused = state.next(TransferEvent::Responded { status, declared_length: None });
        let following = refused.next(TransferEvent::Elapsed).next(
            TransferEvent::Probed(probes[0]),
        );
        law_refusals_exhaust_the_budget(following, status, probes.drop_first());
        if probes.len() == 1 {
            assert(probes.drop_first().len() == 0);
        } else {
            assert(probes.drop_first().last() == probes.last());
        }
    }
}

/// A transfer that is over stays over, with the outcome it had, whatever is reported.
pub proof fn law_finished_stays_finished(state: TransferState, event: TransferEvent)
    requires
        state.finished(),
    ensures
        state.next(event) == state,
        state.next(event).spec_outcome() == state.spec_outcome(),
{
}

/// The position shown never passes the expected total once an answer has declared it.
pub proof fn law_position_within_total(state: TransferState, event: TransferEvent)
    requires
        state.total_bytes is Some ==> state.downloaded <= state.total_bytes->0,
    ensures
        state.next(event).total_bytes is Some ==> state.next(event).downloaded <= state.next(
            event,
        ).total_bytes->0,
        state.next(event).spec_progress().position <= state.next(event).spec_progress().total,
{
}

} // verus!
