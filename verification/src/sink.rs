//! What the fetch loop and the tracker know of the playback engine's ingestion
//! buffer: the answers it gives to an append, and the time ranges it reports.

use vstd::prelude::*;

verus! {

/// Answer of the buffer sink to one append.
#[derive(Clone, Copy, Debug, PartialEq, Eq, Structural)]
pub enum AppendOutcome {
    /// The chunk was taken.
    Ready,
    /// An earlier append has not finished; the chunk was not taken.
    Busy,
    /// The sink rejected the data.
    AppendError,
}

/// A contiguous span of playback time that the sink has ingested.
#[derive(Clone, Copy, Debug, PartialEq, Eq, Structural)]
pub struct BufferRange {
    pub start: u64,
    pub end: u64,
}

/// The ranges are sorted by start and pairwise disjoint, and none is reversed.
pub open spec fn ranges_ordered(ranges: Seq<BufferRange>) -> bool {
    &&& forall|i: int| 0 <= i < ranges.len() ==> (#[trigger] ranges[i]).start <= ranges[i].end
    &&& forall|i: int, j: int|
        0 <= i < j < ranges.len() ==> (#[trigger] ranges[i]).end <= (#[trigger] ranges[j]).start
}

/// Tells whether a reported list of ranges is sorted by start and disjoint.
pub fn check_ranges(ranges: &[BufferRange]) -> (ok: bool)
    ensures
        ok == ranges_ordered(ranges@),
{
    let mut i: usize = 0;
    while i < ranges.len()
        invariant
            i <= ranges.len(),
            ranges_ordered(ranges@.take(i as int)),
        decreases ranges.len() - i,
    {
        let r = ranges[i];
        if r.start > r.end {
            return false;
        }
        if i > 0 && ranges[i - 1].end > r.start {
            return false;
        }
        proof {
            let before = ranges@.take(i as int);
            let now = ranges@.take(i + 1);
            assert forall|a: int, b: int| 0 <= a < b < now.len() implies (#[trigger] now[a]).end <= (
            #[trigger] now[b]).start by {
                if b < i {
                    assert(before[a] == now[a] && before[b] == now[b]);
                } else if a < i - 1 {
                    assert(before[a] == now[a] && before[i - 1] == now[i - 1]);
                    assert(before[a].end <= before[i - 1].start);
                }
            }
            assert forall|a: int| 0 <= a < now.len() implies (#[trigger] now[a]).start
                <= now[a].end by {
                if a < i {
                    assert(before[a] == now[a]);
                }
            }
        }
        i += 1;
    }
    proof {
        assert(ranges@.take(i as int) =~= ranges@);
    }
    true
}

} // verus!
