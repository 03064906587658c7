//! The segment fetch loop of one playback session, as a state machine.
//!
//! The loop itself never waits and never calls out. Its owner feeds it one
//! event at a time (`PlaybackSession::step`) and carries out the action that
//! comes back: it sends the request to the segment store, waits for the
//! buffer sink's readiness, or hands the pending bytes to the sink. Each
//! request bears a ticket; an answer is taken only while it bears the ticket
//! of the request that is in flight, so that the answer to a request from
//! before a seek is dropped when it arrives.

use crate::segment::FetchError;
use crate::segment::Segment;
use crate::segment::SegmentModel;
use crate::segment::SegmentRequest;
use crate::sink::AppendOutcome;
use crate::sink::BufferRange;
use crate::tracker::buffered_percent;
use crate::tracker::percent_of;
use crate::tracker::playback_percent;
use crate::tracker::spec_buffered_percent;
use vstd::prelude::*;

verus! {

/// The size of the chunks that a session asks for unless told otherwise.
pub const DEFAULT_CHUNK_SIZE: u32 = 1_048_576;

/// How many times a read is tried at one offset before the failure is final.
pub const MAX_ATTEMPTS: u8 = 3;

/// The pause before the first retry, in milliseconds; it doubles with each
/// further one.
pub const BASE_BACKOFF_MS: u64 = 250;

/// Where the fetch loop stands.
#[derive(Clone, Copy, Debug, PartialEq, Eq, Structural)]
pub enum FetchState {
    /// Before playback starts, and after the session has ended.
    Idle,
    /// A request is in flight.
    Requesting,
    /// A segment is held until the sink signals that it is ready.
    AwaitingSinkReady,
    /// The held segment has been handed to the sink.
    Appending,
    /// The last segment of the file has been appended.
    Completed,
    /// An error ended the current attempt.
    Aborted,
}

/// The error that aborted a session.
#[derive(Clone, Copy, Debug, PartialEq, Eq, Structural)]
pub enum SessionError {
    /// The identifier is not known to the segment store.
    NotFound,
    /// Reading failed at one offset as often as it is tried.
    IoError,
    /// The sink rejected a chunk.
    AppendError,
}

/// What the owner of a session reports to its fetch loop.
#[derive(Debug, PartialEq, Eq)]
pub enum Event {
    /// Playback is initiated.
    Start,
    /// The segment store has answered the request that bore `ticket`.
    Fetched { ticket: u64, result: Result<Segment, FetchError> },
    /// The sink signals that it is ready for an append.
    SinkReady,
    /// The sink has answered the append.
    Appended(AppendOutcome),
    /// The control layer seeks to a byte offset.
    Seek(u64),
    /// The session ends.
    Stop,
}

/// What the fetch loop asks of its owner in answer to an event.
#[derive(Clone, Copy, Debug, PartialEq, Eq, Structural)]
pub enum Action {
    /// Nothing: the event changed nothing that calls for work.
    Wait,
    /// After `delay_ms` milliseconds, ask the segment store for at most
    /// `max_length` bytes from `offset` on, and report the answer with
    /// `ticket`.
    Fetch { ticket: u64, offset: u64, max_length: u32, delay_ms: u64 },
    /// Report `SinkReady` once the sink is ready for an append.
    AwaitSink,
    /// Hand the pending segment, which starts at `start_offset` and holds
    /// `length` bytes, to the sink, and report its answer.
    Append { start_offset: u64, length: u32 },
    /// Tell the session's owner that the session was aborted.
    Report(SessionError),
    /// The whole file has been appended.
    Finished,
}

/// The ticket that follows `ticket`.
pub open spec fn next_ticket(ticket: nat) -> nat {
    if ticket >= u64::MAX {
        0
    } else {
        ticket + 1
    }
}

/// The pause before the request that follows `failures` failed reads at one
/// offset: none at first, then `BASE_BACKOFF_MS`, doubled with each further
/// failure as far as the range of milliseconds goes.
pub open spec fn backoff_of(failures: nat) -> nat
    decreases failures,
{
    if failures == 0 {
        0
    } else if failures == 1 {
        BASE_BACKOFF_MS as nat
    } else if 2 * backoff_of((failures - 1) as nat) > u64::MAX {
        u64::MAX as nat
    } else {
        2 * backoff_of((failures - 1) as nat)
    }
}

/// A playback session as a mathematical value.
pub struct SessionModel {
    pub identifier: Seq<char>,
    pub chunk_size: nat,
    pub state: FetchState,
    /// The next byte offset to request.
    pub fetch_offset: nat,
    /// The ticket of the request that was issued last.
    pub ticket: nat,
    /// The requests made at `fetch_offset` since it was last set.
    pub attempts: nat,
    /// The segment that was received and not yet taken by the sink.
    pub pending: Option<SegmentModel>,
    pub error: Option<SessionError>,
    pub duration: int,
    pub current_time: nat,
}

impl SessionModel {
    /// The loop takes a segment only if it is sound, starts where the loop
    /// stands, is no longer than was asked for, and either brings bytes or
    /// ends the file.
    pub open spec fn acceptable(self, seg: SegmentModel) -> bool {
        &&& seg.wf()
        &&& seg.start_offset == self.fetch_offset
        &&& seg.length <= self.chunk_size
        &&& (seg.length > 0 || seg.is_final)
    }

    /// What holds of a session at all times.
    pub open spec fn wf(self) -> bool {
        &&& 0 < self.chunk_size <= u32::MAX
        &&& self.fetch_offset <= u64::MAX
        &&& self.ticket <= u64::MAX
        &&& self.attempts <= MAX_ATTEMPTS
        &&& (self.state == FetchState::Requesting ==> self.attempts >= 1)
        &&& (self.pending.is_some() <==> (self.state == FetchState::AwaitingSinkReady
            || self.state == FetchState::Appending))
        &&& (self.pending matches Some(seg) ==> self.acceptable(seg))
        &&& (self.error.is_some() <==> self.state == FetchState::Aborted)
    }

    /// A session before playback starts.
    pub open spec fn initial(identifier: Seq<char>, chunk_size: nat) -> SessionModel {
        SessionModel {
            identifier,
            chunk_size,
            state: FetchState::Idle,
            fetch_offset: 0,
            ticket: 0,
            attempts: 0,
            pending: None,
            error: None,
            duration: 0,
            current_time: 0,
        }
    }

    /// The session turned to `offset`, with a first request in flight there,
    /// and the action that issues this request.
    pub open spec fn request_at(self, offset: nat) -> (SessionModel, Action) {
        let ticket = next_ticket(self.ticket);
        (
            SessionModel {
                state: FetchState::Requesting,
                fetch_offset: offset,
                ticket,
                attempts: 1,
                pending: None,
                error: None,
                ..self
            },
            Action::Fetch {
                ticket: ticket as u64,
                offset: offset as u64,
                max_length: self.chunk_size as u32,
                delay_ms: 0,
            },
        )
    }

    /// The session aborted by `error`, and the action that reports it.
    pub open spec fn abort(self, error: SessionError) -> (SessionModel, Action) {
        (
            SessionModel {
                state: FetchState::Aborted,
                pending: None,
                error: Some(error),
                ..self
            },
            Action::Report(error),
        )
    }

    /// A read has failed while the session was requesting: the request is
    /// made again after a pause, unless it has been made `MAX_ATTEMPTS`
    /// times.
    pub open spec fn read_failed(self) -> (SessionModel, Action) {
        if self.attempts < MAX_ATTEMPTS {
            let ticket = next_ticket(self.ticket);
            (
                SessionModel { ticket, attempts: self.attempts + 1, ..self },
                Action::Fetch {
                    ticket: ticket as u64,
                    offset: self.fetch_offset as u64,
                    max_length: self.chunk_size as u32,
                    delay_ms: backoff_of(self.attempts) as u64,
                },
            )
        } else {
            self.abort(SessionError::IoError)
        }
    }

    /// Playback starts: an idle session issues its first request.
    pub open spec fn on_start(self) -> (SessionModel, Action) {
        if self.state == FetchState::Idle {
            self.request_at(self.fetch_offset)
        } else {
            (self, Action::Wait)
        }
    }

    /// The segment store has answered. The answer counts only while a
    /// request is in flight and bears this ticket.
    pub open spec fn on_fetched(self, ticket: nat, result: Result<SegmentModel, FetchError>) -> (
        SessionModel,
        Action,
    ) {
        if self.state != FetchState::Requesting || ticket != self.ticket {
            (self, Action::Wait)
        } else {
            match result {
                Ok(seg) => {
                    if self.acceptable(seg) {
                        (
                            SessionModel {
                                state: FetchState::AwaitingSinkReady,
                                pending: Some(seg),
                                ..self
                            },
                            Action::AwaitSink,
                        )
                    } else {
                        self.read_failed()
                    }
                },
                Err(FetchError::NotFound) => self.abort(SessionError::NotFound),
                Err(FetchError::IoError) => self.read_failed(),
            }
        }
    }

    /// The sink is ready: a held segment is handed to it.
    pub open spec fn on_sink_ready(self) -> (SessionModel, Action) {
        if self.state == FetchState::AwaitingSinkReady && self.pending.is_some() {
            (
                SessionModel { state: FetchState::Appending, ..self },
                Action::Append {
                    start_offset: self.pending.unwrap().start_offset as u64,
                    length: self.pending.unwrap().length as u32,
                },
            )
        } else {
            (self, Action::Wait)
        }
    }

    /// The sink has answered the append.
    pub open spec fn on_appended(self, outcome: AppendOutcome) -> (SessionModel, Action) {
        if self.state == FetchState::Appending && self.pending.is_some() {
            let seg = self.pending.unwrap();
            match outcome {
                AppendOutcome::Ready => {
                    if seg.is_final {
                        (
                            SessionModel {
                                state: FetchState::Completed,
                                fetch_offset: seg.end_offset(),
                                pending: None,
                                ..self
                            },
                            Action::Finished,
                        )
                    } else {
                        self.request_at(seg.end_offset())
                    }
                },
                AppendOutcome::Busy => (
                    SessionModel { state: FetchState::AwaitingSinkReady, ..self },
                    Action::AwaitSink,
                ),
                AppendOutcome::AppendError => self.abort(SessionError::AppendError),
            }
        } else {
            (self, Action::Wait)
        }
    }

    /// A seek: a session that is under way or was aborted drops what it
    /// holds and requests from the target on. An idle or completed session
    /// stays as it is.
    pub open spec fn on_seek(self, offset: nat) -> (SessionModel, Action) {
        if self.state == FetchState::Idle || self.state == FetchState::Completed {
            (self, Action::Wait)
        } else {
            self.request_at(offset)
        }
    }

    /// The session ends: it is idle again, at the start of the file.
    pub open spec fn on_stop(self) -> (SessionModel, Action) {
        (
            SessionModel {
                state: FetchState::Idle,
                fetch_offset: 0,
                attempts: 0,
                pending: None,
                error: None,
                ..self
            },
            Action::Wait,
        )
    }

    /// The session after an event, and the action that the event calls for.
    pub open spec fn step(self, event: Event) -> (SessionModel, Action) {
        match event {
            Event::Start => self.on_start(),
            Event::Fetched { ticket, result } => self.on_fetched(
                ticket as nat,
                match result {
                    Ok(seg) => Ok(seg@),
                    Err(e) => Err(e),
                },
            ),
            Event::SinkReady => self.on_sink_ready(),
            Event::Appended(outcome) => self.on_appended(outcome),
            Event::Seek(offset) => self.on_seek(offset as nat),
            Event::Stop => self.on_stop(),
        }
    }
}

/// The pause before the request that follows `failures` failed reads.
pub fn backoff_delay_ms(failures: u8) -> (delay: u64)
    ensures
        delay == backoff_of(failures as nat),
{
    if failures == 0 {
        return 0;
    }
    let mut delay: u64 = BASE_BACKOFF_MS;
    let mut done: u8 = 1;
    while done < failures
        invariant
            1 <= done <= failures,
            delay == backoff_of(done as nat),
        decreases failures - done,
    {
        delay = if delay > u64::MAX / 2 {
            u64::MAX
        } else {
            2 * delay
        };
        done += 1;
    }
    delay
}

/// One playback session: the cursor and the state of its fetch loop, and the
/// fields that the control layer keeps up to date.
#[derive(Debug)]
pub struct PlaybackSession {
    identifier: String,
    chunk_size: u32,
    state: FetchState,
    fetch_offset: u64,
    ticket: u64,
    attempts: u8,
    pending: Option<Segment>,
    error: Option<SessionError>,
    duration: i64,
    current_time: u64,
}

impl View for PlaybackSession {
    type V = SessionModel;

    /// The session's fields as mathematical values.
    closed spec fn view(&self) -> SessionModel {
        SessionModel {
            identifier: self.identifier@,
            chunk_size: self.chunk_size as nat,
            state: self.state,
            fetch_offset: self.fetch_offset as nat,
            ticket: self.ticket as nat,
            attempts: self.attempts as nat,
            pending: match self.pending {
                Some(seg) => Some(seg@),
                None => None,
            },
            error: self.error,
            duration: self.duration as int,
            current_time: self.current_time as nat,
        }
    }
}

impl PlaybackSession {
    /// A session for `identifier` that asks for chunks of
    /// `DEFAULT_CHUNK_SIZE` bytes.
    pub fn new(identifier: String) -> (session: Self)
        ensures
            session@ == SessionModel::initial(identifier@, DEFAULT_CHUNK_SIZE as nat),
            session@.wf(),
    {
        PlaybackSession {
            identifier,
            chunk_size: DEFAULT_CHUNK_SIZE,
            state: FetchState::Idle,
            fetch_offset: 0,
            ticket: 0,
            attempts: 0,
            pending: None,
            error: None,
            duration: 0,
            current_time: 0,
        }
    }

    /// A session for `identifier` that asks for chunks of `chunk_size`
    /// bytes; none where `chunk_size` is 0.
    pub fn with_chunk_size(identifier: String, chunk_size: u32) -> (session: Option<Self>)
        ensures
            chunk_size == 0 <==> session.is_none(),
            session matches Some(s) ==> s@ == SessionModel::initial(identifier@, chunk_size as nat)
                && s@.wf(),
    {
        if chunk_size == 0 {
            None
        } else {
            Some(
                PlaybackSession {
                    identifier,
                    chunk_size,
                    state: FetchState::Idle,
                    fetch_offset: 0,
                    ticket: 0,
                    attempts: 0,
                    pending: None,
                    error: None,
                    duration: 0,
                    current_time: 0,
                },
            )
        }
    }

    /// Takes the next ticket.
    fn bump_ticket(&mut self)
        ensures
            final(self)@ == (SessionModel { ticket: next_ticket(old(self)@.ticket), ..old(self)@ }),
    {
        self.ticket = if self.ticket == u64::MAX {
            0
        } else {
            self.ticket + 1
        };
    }

    /// Drops what is held and issues a first request at `offset`.
    fn turn_to(&mut self, offset: u64) -> (action: Action)
        ensures
            (final(self)@, action) == old(self)@.request_at(offset as nat),
    {
        self.bump_ticket();
        self.state = FetchState::Requesting;
        self.fetch_offset = offset;
        self.attempts = 1;
        self.pending = None;
        self.error = None;
        Action::Fetch { ticket: self.ticket, offset, max_length: self.chunk_size, delay_ms: 0 }
    }

    /// Aborts the session with `error`.
    fn give_up(&mut self, error: SessionError) -> (action: Action)
        ensures
            (final(self)@, action) == old(self)@.abort(error),
    {
        self.state = FetchState::Aborted;
        self.pending = None;
        self.error = Some(error);
        Action::Report(error)
    }

    /// Answers a failed read: another request after a pause, or the abort.
    fn retry_or_give_up(&mut self) -> (action: Action)
        requires
            old(self)@.wf(),
        ensures
            (final(self)@, action) == old(self)@.read_failed(),
    {
        if self.attempts < MAX_ATTEMPTS {
            let delay_ms = backoff_delay_ms(self.attempts);
            self.bump_ticket();
            self.attempts = self.attempts + 1;
            Action::Fetch {
                ticket: self.ticket,
                offset: self.fetch_offset,
                max_length: self.chunk_size,
                delay_ms,
            }
        } else {
            self.give_up(SessionError::IoError)
        }
    }

    /// Whether the loop takes this segment as the answer to its request.
    fn takes(&self, seg: &Segment) -> (ok: bool)
        ensures
            ok == self@.acceptable(seg@),
    {
        seg.bytes.len() == seg.length as usize && seg.start_offset == self.fetch_offset
            && seg.length as u64 <= u64::MAX - seg.start_offset && seg.length <= self.chunk_size
            && (seg.length > 0 || seg.is_final)
    }

    /// Where the loop stands.
    pub fn state(&self) -> (state: FetchState)
        ensures
            state == self@.state,
    {
        self.state
    }

    /// The next byte offset to request.
    pub fn fetch_offset(&self) -> (offset: u64)
        ensures
            offset == self@.fetch_offset,
    {
        self.fetch_offset
    }

    /// The identifier of the media that the session plays.
    pub fn identifier(&self) -> (identifier: &str)
        ensures
            identifier@ == self@.identifier,
    {
        self.identifier.as_str()
    }

    /// The most bytes that a request asks for.
    pub fn chunk_size(&self) -> (size: u32)
        ensures
            size == self@.chunk_size,
    {
        self.chunk_size
    }

    /// The ticket of the request that was issued last.
    pub fn ticket(&self) -> (ticket: u64)
        ensures
            ticket == self@.ticket,
    {
        self.ticket
    }

    /// The requests made at the current offset since it was last set.
    pub fn attempts(&self) -> (attempts: u8)
        ensures
            attempts == self@.attempts,
    {
        self.attempts
    }

    /// The error that aborted the session, while it is aborted.
    pub fn error(&self) -> (error: Option<SessionError>)
        ensures
            error == self@.error,
    {
        self.error
    }

    /// The segment that was received and that the sink has not yet taken.
    pub fn pending(&self) -> (pending: Option<&Segment>)
        ensures
            match pending {
                Some(seg) => self@.pending == Some(seg@),
                None => self@.pending.is_none(),
            },
    {
        match &self.pending {
            Some(seg) => Some(seg),
            None => None,
        }
    }

    /// The request that is in flight, while the loop is requesting.
    pub fn request(&self) -> (request: Option<SegmentRequest>)
        ensures
            request.is_some() <==> self@.state == FetchState::Requesting,
            request matches Some(r) ==> r.identifier@ == self@.identifier && r.offset
                == self@.fetch_offset && r.max_length == self@.chunk_size,
    {
        if self.state == FetchState::Requesting {
            Some(
                SegmentRequest {
                    identifier: self.identifier.clone(),
                    offset: self.fetch_offset,
                    max_length: self.chunk_size,
                },
            )
        } else {
            None
        }
    }

    /// The playback duration that the control layer reported last; not
    /// positive while it is not known.
    pub fn duration(&self) -> (duration: i64)
        ensures
            duration == self@.duration,
    {
        self.duration
    }

    /// The playback time that the control layer reported last.
    pub fn current_time(&self) -> (time: u64)
        ensures
            time == self@.current_time,
    {
        self.current_time
    }

    /// Records the playback duration. The fetch loop is not touched.
    pub fn set_duration(&mut self, duration: i64)
        ensures
            final(self)@ == (SessionModel { duration: duration as int, ..old(self)@ }),
    {
        self.duration = duration;
    }

    /// Records the playback time. The fetch loop is not touched.
    pub fn set_current_time(&mut self, time: u64)
        ensures
            final(self)@ == (SessionModel { current_time: time as nat, ..old(self)@ }),
    {
        self.current_time = time;
    }

    /// The buffered percentage of this session: the furthest end among the
    /// ranges that the sink reports, as a share of the session's duration.
    pub fn buffered_percent(&self, ranges: &[BufferRange]) -> (p: u32)
        ensures
            p == spec_buffered_percent(ranges@, self@.duration),
            p <= 100,
            self@.duration <= 0 ==> p == 0,
    {
        buffered_percent(ranges, self.duration)
    }

    /// The played percentage of this session: its current time as a share of
    /// its duration.
    pub fn played_percent(&self) -> (p: u32)
        ensures
            p == percent_of(self@.current_time, self@.duration),
            p <= 100,
            self@.duration <= 0 ==> p == 0,
    {
        playback_percent(self.current_time, self.duration)
    }

    /// Takes one event in, and says what to do next.
    pub fn step(&mut self, event: Event) -> (action: Action)
        requires
            old(self)@.wf(),
        ensures
            (final(self)@, action) == old(self)@.step(event),
            final(self)@.wf(),
    {
        match event {
            Event::Start => {
                if self.state == FetchState::Idle {
                    self.turn_to(self.fetch_offset)
                } else {
                    Action::Wait
                }
            },
            Event::Fetched { ticket, result } => {
                if self.state != FetchState::Requesting || ticket != self.ticket {
                    Action::Wait
                } else {
                    match result {
                        Ok(seg) => {
                            if self.takes(&seg) {
                                self.state = FetchState::AwaitingSinkReady;
                                self.pending = Some(seg);
                                Action::AwaitSink
                            } else {
                                self.retry_or_give_up()
                            }
                        },
                        Err(FetchError::NotFound) => self.give_up(SessionError::NotFound),
                        Err(FetchError::IoError) => self.retry_or_give_up(),
                    }
                }
            },
            Event::SinkReady => {
                if self.state == FetchState::AwaitingSinkReady {
                    match &self.pending {
                        Some(seg) => {
                            let action = Action::Append {
                                start_offset: seg.start_offset,
                                length: seg.length,
                            };
                            self.state = FetchState::Appending;
                            action
                        },
                        None => Action::Wait,
                    }
                } else {
                    Action::Wait
                }
            },
            Event::Appended(outcome) => {
                if self.state == FetchState::Appending {
                    let held = match &self.pending {
                        Some(seg) => Some((seg.start_offset + seg.length as u64, seg.is_final)),
                        None => None,
                    };
                    match held {
                        Some((end, is_final)) => match outcome {
                            AppendOutcome::Ready => {
                                if is_final {
                                    self.state = FetchState::Completed;
                                    self.fetch_offset = end;
                                    self.pending = None;
                                    Action::Finished
                                } else {
                                    self.turn_to(end)
                                }
                            },
                            AppendOutcome::Busy => {
                                self.state = FetchState::AwaitingSinkReady;
                                Action::AwaitSink
                            },
                            AppendOutcome::AppendError => self.give_up(SessionError::AppendError),
                        },
                        None => Action::Wait,
                    }
                } else {
                    Action::Wait
                }
            },
            Event::Seek(offset) => {
                if self.state == FetchState::Idle || self.state == FetchState::Completed {
                    Action::Wait
                } else {
                    self.turn_to(offset)
                }
            },
            Event::Stop => {
                self.state = FetchState::Idle;
                self.fetch_offset = 0;
                self.attempts = 0;
                self.pending = None;
                self.error = None;
                Action::Wait
            },
        }
    }
}

} // verus!
