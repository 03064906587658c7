//! Runs of the fetch loop over sequences of events, and what holds of every
//! run.

use crate::fetch_loop::next_ticket;
use crate::fetch_loop::Action;
use crate::fetch_loop::Event;
use crate::fetch_loop::FetchState;
use crate::fetch_loop::SessionModel;
use crate::segment::FetchError;
use crate::segment::Segment;
use crate::sink::AppendOutcome;
use vstd::prelude::*;

verus! {

/// A byte range that the sink has taken.
pub struct Chunk {
    pub start: nat,
    pub length: nat,
}

/// The session after a sequence of events, taken in order.
pub open spec fn run(s: SessionModel, events: Seq<Event>) -> SessionModel
    decreases events.len(),
{
    if events.len() == 0 {
        s
    } else {
        run(s.step(events.first()).0, events.drop_first())
    }
}

/// The event is the sink's word that it took the segment which the session
/// had handed to it.
pub open spec fn is_accepted_append(s: SessionModel, event: Event) -> bool {
    s.state == FetchState::Appending && s.pending.is_some() && event == Event::Appended(
        AppendOutcome::Ready,
    )
}

/// The byte ranges that the sink takes in the course of a run, in order.
pub open spec fn accepted(s: SessionModel, events: Seq<Event>) -> Seq<Chunk>
    decreases events.len(),
{
    if events.len() == 0 {
        Seq::empty()
    } else {
        let rest = accepted(s.step(events.first()).0, events.drop_first());
        if is_accepted_append(s, events.first()) {
            seq![
                Chunk {
                    start: s.pending.unwrap().start_offset,
                    length: s.pending.unwrap().length,
                },
            ] + rest
        } else {
            rest
        }
    }
}

/// The first chunk starts at `from`, and each further one where the one
/// before it ends.
pub open spec fn contiguous_from(chunks: Seq<Chunk>, from: nat) -> bool {
    &&& chunks.len() > 0 ==> chunks[0].start == from
    &&& forall|i: int|
        0 < i < chunks.len() ==> (#[trigger] chunks[i]).start == chunks[i - 1].start + chunks[i
            - 1].length
}

/// The event neither seeks nor ends the session.
pub open spec fn keeps_course(event: Event) -> bool {
    !(event is Seek) && !(event is Stop)
}

/// None of the events seeks or ends the session.
pub open spec fn unseeked(events: Seq<Event>) -> bool {
    forall|i: int| 0 <= i < events.len() ==> keeps_course(#[trigger] events[i])
}

/// Whether the loop keeps its turn with the sink all through a run. `busy`
/// says whether the sink is busy at the start. The sink is busy from each
/// append on, until it signals that it is ready.
pub open spec fn appends_in_turn(s: SessionModel, busy: bool, events: Seq<Event>) -> bool
    decreases events.len(),
{
    if events.len() == 0 {
        true
    } else {
        let event = events.first();
        let (next, action) = s.step(event);
        let busy_now = busy && !(event is SinkReady);
        &&& action is Append ==> !busy_now
        &&& appends_in_turn(next, busy_now || action is Append, events.drop_first())
    }
}

/// Every event leaves a sound session sound.
pub proof fn step_preserves_wf(s: SessionModel, event: Event)
    requires
        s.wf(),
    ensures
        s.step(event).0.wf(),
{
}

/// Every run leaves a sound session sound.
pub proof fn run_preserves_wf(s: SessionModel, events: Seq<Event>)
    requires
        s.wf(),
    ensures
        run(s, events).wf(),
    decreases events.len(),
{
    if events.len() > 0 {
        run_preserves_wf(s.step(events.first()).0, events.drop_first());
    }
}

/// The cursor moves only when the sink has taken a segment, and then to the
/// end of that segment; a seek and the end of the session set it anew.
pub proof fn cursor_moves_only_on_append(s: SessionModel, event: Event)
    requires
        s.wf(),
        keeps_course(event),
    ensures
        is_accepted_append(s, event) ==> s.pending.unwrap().start_offset == s.fetch_offset
            && s.step(event).0.fetch_offset == s.fetch_offset + s.pending.unwrap().length,
        !is_accepted_append(s, event) ==> s.step(event).0.fetch_offset == s.fetch_offset,
{
}

/// Between two seeks the chunks that the sink takes are contiguous: the
/// first starts at the cursor, each further one starts where the one before
/// it ends, and the cursor stands at the end of the last.
pub proof fn appends_are_contiguous(s: SessionModel, events: Seq<Event>)
    requires
        s.wf(),
        unseeked(events),
    ensures
        contiguous_from(accepted(s, events), s.fetch_offset),
        accepted(s, events).len() == 0 ==> run(s, events).fetch_offset == s.fetch_offset,
        accepted(s, events).len() > 0 ==> run(s, events).fetch_offset == accepted(
            s,
            events,
        ).last().start + accepted(s, events).last().length,
    decreases events.len(),
{
    if events.len() > 0 {
        let event = events.first();
        let next = s.step(event).0;
        let tail = events.drop_first();
        assert(keeps_course(events[0]));
        assert forall|i: int| 0 <= i < tail.len() implies keeps_course(#[trigger] tail[i]) by {
            assert(tail[i] == events[i + 1]);
        }
        cursor_moves_only_on_append(s, event);
        appends_are_contiguous(next, tail);
        let rest = accepted(next, tail);
        if is_accepted_append(s, event) {
            let head = Chunk {
                start: s.pending.unwrap().start_offset,
                length: s.pending.unwrap().length,
            };
            let all = seq![head] + rest;
            assert(all == accepted(s, events));
            assert(all[0] == head);
            assert forall|i: int| 0 < i < all.len() implies (#[trigger] all[i]).start == all[i
                - 1].start + all[i - 1].length by {
                assert(all[i] == rest[i - 1]);
                if i > 1 {
                    assert(all[i - 1] == rest[i - 2]);
                }
            }
            if rest.len() > 0 {
                assert(all.last() == rest.last());
            }
        }
    }
}

/// The loop hands a segment to the sink only in answer to the sink's signal
/// that it is ready, and only a segment that it holds and that starts at the
/// cursor.
pub proof fn append_only_when_ready(s: SessionModel, event: Event)
    requires
        s.wf(),
    ensures
        s.step(event).1 is Append ==> {
            &&& event is SinkReady
            &&& s.state == FetchState::AwaitingSinkReady
            &&& s.pending matches Some(seg)
            &&& s.step(event).1 == (Action::Append {
                start_offset: s.fetch_offset as u64,
                length: seg.length as u32,
            })
            &&& s.step(event).0.state == FetchState::Appending
        },
{
}

/// In no run does the loop append while the sink is busy.
pub proof fn never_appends_while_busy(s: SessionModel, busy: bool, events: Seq<Event>)
    requires
        s.wf(),
    ensures
        appends_in_turn(s, busy, events),
    decreases events.len(),
{
    if events.len() > 0 {
        let event = events.first();
        let (next, action) = s.step(event);
        append_only_when_ready(s, event);
        never_appends_while_busy(
            next,
            (busy && !(event is SinkReady)) || action is Append,
            events.drop_first(),
        );
    }
}

/// A seek while a request is in flight turns the loop to the target under a
/// new ticket, and the answer to the earlier request, when it arrives, is
/// dropped: it changes nothing and calls for no action.
pub proof fn stale_response_is_discarded(
    s: SessionModel,
    target: u64,
    result: Result<Segment, FetchError>,
)
    requires
        s.wf(),
        s.state == FetchState::Requesting,
    ensures
        ({
            let sought = s.step(Event::Seek(target)).0;
            let stale = Event::Fetched { ticket: s.ticket as u64, result };
            &&& sought.state == FetchState::Requesting
            &&& sought.fetch_offset == target
            &&& sought.ticket == next_ticket(s.ticket)
            &&& sought.ticket != s.ticket
            &&& sought.pending.is_none()
            &&& s.step(Event::Seek(target)).1 == (Action::Fetch {
                ticket: sought.ticket as u64,
                offset: target,
                max_length: s.chunk_size as u32,
                delay_ms: 0,
            })
            &&& sought.step(stale) == (sought, Action::Wait)
        }),
{
}

/// After a seek, in whatever state of a session that is under way or was
/// aborted, whatever the sink takes next starts at the seek's target, and
/// the chunks go on from there without a gap until the next seek.
pub proof fn seek_restarts_at_target(s: SessionModel, target: u64, events: Seq<Event>)
    requires
        s.wf(),
        s.state != FetchState::Idle,
        s.state != FetchState::Completed,
        unseeked(events),
    ensures
        ({
            let sought = s.step(Event::Seek(target)).0;
            &&& sought.fetch_offset == target
            &&& sought.pending.is_none()
            &&& contiguous_from(accepted(sought, events), target as nat)
        }),
{
    let sought = s.step(Event::Seek(target)).0;
    step_preserves_wf(s, Event::Seek(target));
    appends_are_contiguous(sought, events);
}

/// An answer that does not bear the ticket of the request in flight, or
/// that arrives while none is in flight, changes nothing.
pub proof fn unawaited_response_is_discarded(
    s: SessionModel,
    ticket: u64,
    result: Result<Segment, FetchError>,
)
    requires
        s.state != FetchState::Requesting || ticket != s.ticket,
    ensures
        s.step(Event::Fetched { ticket, result }) == (s, Action::Wait),
{
}

/// An error is reported exactly when it aborts the session: with the step
/// that enters `Aborted`, and with the error that the session then shows.
pub proof fn error_reported_on_abort(s: SessionModel, event: Event)
    requires
        s.wf(),
    ensures
        s.step(event).1 is Report <==> s.state != FetchState::Aborted && s.step(event).0.state
            == FetchState::Aborted,
        s.step(event).1 matches Action::Report(e) ==> s.step(event).0.error == Some(e),
{
}

/// A session that is completed or aborted issues no request and no append,
/// whatever arrives, but for the seek that revives an aborted one.
pub proof fn terminal_states_are_quiet(s: SessionModel, event: Event)
    requires
        s.wf(),
        s.state == FetchState::Completed || s.state == FetchState::Aborted,
        !(event is Stop),
        !(event is Seek && s.state == FetchState::Aborted),
    ensures
        s.step(event) == (s, Action::Wait),
{
}

/// A request is issued only for the cursor, under the ticket that the
/// session then awaits: one request is in flight at any time.
pub proof fn request_is_for_cursor(s: SessionModel, event: Event)
    requires
        s.wf(),
    ensures
        s.step(event).1 matches Action::Fetch { ticket, offset, max_length, delay_ms } ==> {
            let next = s.step(event).0;
            &&& next.state == FetchState::Requesting
            &&& ticket == next.ticket
            &&& ticket != s.ticket
            &&& offset == next.fetch_offset
            &&& max_length == next.chunk_size
            &&& 1 <= next.attempts <= crate::fetch_loop::MAX_ATTEMPTS
        },
{
}

} // verus!
