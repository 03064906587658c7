//! The fetch loop run to its end in one call, against a store held in memory
//! and a sink that takes every chunk at once.

use crate::fetch_loop::Action;
use crate::fetch_loop::Event;
use crate::fetch_loop::FetchState;
use crate::fetch_loop::PlaybackSession;
use crate::fetch_loop::SessionError;
use crate::fetch_loop::MAX_ATTEMPTS;
use crate::sink::AppendOutcome;
use crate::store::SegmentStore;
use vstd::prelude::*;

verus! {

/// The bytes of `identifier`'s file that are still to come from `offset` on;
/// none where the store cannot read the file.
pub open spec fn bytes_left(store: SegmentStore, identifier: Seq<char>, offset: nat) -> nat {
    if store@.contains_key(identifier) && store@[identifier].is_some() && offset
        < store@[identifier].unwrap().len() {
        (store@[identifier].unwrap().len() - offset) as nat
    } else {
        0
    }
}

/// Plays a session through from the start of the file: every request goes to
/// `store`, every segment to a sink that is ready at once. Returns what the
/// sink was handed, which is the whole file, or the error that aborted the
/// session: `NotFound` for an identifier that the store does not know,
/// `IoError` for a file that it cannot read.
pub fn stream_to_end(store: &SegmentStore, identifier: String, chunk_size: u32) -> (r: Result<
    Vec<u8>,
    SessionError,
>)
    requires
        chunk_size > 0,
    ensures
        match r {
            Ok(bytes) => store@.contains_key(identifier@) && store@[identifier@] == Some(bytes@),
            Err(SessionError::NotFound) => !store@.contains_key(identifier@),
            Err(SessionError::IoError) => store@.contains_key(identifier@)
                && store@[identifier@].is_none(),
            Err(SessionError::AppendError) => false,
        },
{
    let ghost id = identifier@;
    let mut session = PlaybackSession::with_chunk_size(identifier, chunk_size).unwrap();
    let mut sink: Vec<u8> = Vec::new();
    let _ = session.step(Event::Start);
    loop
        invariant
            id == identifier@,
            session@.wf(),
            session@.identifier == id,
            session@.chunk_size == chunk_size,
            session@.state == FetchState::Requesting,
            store@.contains_key(id) && store@[id].is_some() ==> session@.attempts == 1
                && session@.fetch_offset <= store@[id].unwrap().len() && sink@
                == store@[id].unwrap().subrange(0, session@.fetch_offset as int),
        decreases bytes_left(*store, id, session@.fetch_offset) + MAX_ATTEMPTS - session@.attempts,
    {
        let request = session.request().unwrap();
        let ticket = session.ticket();
        let result = store.fetch(&request);
        let answer = session.step(Event::Fetched { ticket, result });
        match answer {
            Action::AwaitSink => {
                let ghost seg = session@.pending.unwrap();
                let ghost file = store@[id].unwrap();
                let ghost before = sink@;
                let append = session.step(Event::SinkReady);
                match session.pending() {
                    Some(held) => {
                        let mut i: usize = 0;
                        while i < held.bytes.len()
                            invariant
                                i <= held.bytes.len(),
                                sink@ == before + held.bytes@.take(i as int),
                            decreases held.bytes.len() - i,
                        {
                            sink.push(held.bytes[i]);
                            proof {
                                assert(held.bytes@.take(i + 1) =~= held.bytes@.take(i as int).push(
                                    held.bytes@[i as int],
                                ));
                                assert(sink@ =~= before + held.bytes@.take(i + 1));
                            }
                            i += 1;
                        }
                        proof {
                            assert(held.bytes@.take(i as int) =~= held.bytes@);
                        }
                    },
                    None => {},
                }
                proof {
                    assert(sink@ =~= file.subrange(0, (seg.start_offset + seg.length) as int));
                }
                let done = session.step(Event::Appended(AppendOutcome::Ready));
                match done {
                    Action::Finished => {
                        proof {
                            assert(sink@ =~= file);
                        }
                        return Ok(sink);
                    },
                    _ => {},
                }
            },
            Action::Report(error) => {
                return Err(error);
            },
            _ => {},
        }
    }
}

} // verus!
