//! The buffered-extent tracker: a percentage derived from the ranges that the
//! buffer sink reports and from the playback duration.

use crate::sink::ranges_ordered;
use crate::sink::BufferRange;
use vstd::prelude::*;

verus! {

/// The largest end among the ranges, zero where there is none.
pub open spec fn max_end(ranges: Seq<BufferRange>) -> nat
    decreases ranges.len(),
{
    if ranges.len() == 0 {
        0
    } else {
        let rest = max_end(ranges.drop_last());
        let end = ranges.last().end as nat;
        if end > rest {
            end
        } else {
            rest
        }
    }
}

/// `part` as a whole-number percentage of `whole`, rounded down and held
/// within 0 and 100; zero while `whole` is not positive.
pub open spec fn percent_of(part: nat, whole: int) -> nat {
    if whole <= 0 {
        0
    } else {
        let p = (part as int) * 100 / whole;
        if p > 100 {
            100
        } else {
            p as nat
        }
    }
}

/// The buffered percentage for a list of ranges and a duration.
pub open spec fn spec_buffered_percent(ranges: Seq<BufferRange>, duration: int) -> nat {
    percent_of(max_end(ranges), duration)
}

/// `max_end` bounds every range's end, and is the end of one of them unless
/// it is zero.
pub proof fn lemma_max_end_is_maximum(ranges: Seq<BufferRange>)
    ensures
        forall|i: int| 0 <= i < ranges.len() ==> (#[trigger] ranges[i]).end <= max_end(ranges),
        max_end(ranges) == 0 || exists|i: int|
            0 <= i < ranges.len() && (#[trigger] ranges[i]).end == max_end(ranges),
    decreases ranges.len(),
{
    if ranges.len() > 0 {
        let front = ranges.drop_last();
        lemma_max_end_is_maximum(front);
        assert forall|i: int| 0 <= i < ranges.len() implies (#[trigger] ranges[i]).end <= max_end(
            ranges,
        ) by {
            if i < front.len() {
                assert(front[i] == ranges[i]);
            }
        }
        if max_end(ranges) != 0 {
            if ranges.last().end as nat > max_end(front) {
                assert(ranges[ranges.len() - 1].end == max_end(ranges));
            } else {
                let i = choose|i: int|
                    0 <= i < front.len() && (#[trigger] front[i]).end == max_end(front);
                assert(ranges[i] == front[i]);
            }
        }
    }
}

/// Of ranges that are sorted and disjoint the last one ends furthest.
pub proof fn lemma_max_end_of_ordered(ranges: Seq<BufferRange>)
    requires
        ranges_ordered(ranges),
        ranges.len() > 0,
    ensures
        max_end(ranges) == ranges.last().end,
{
    lemma_max_end_is_maximum(ranges);
    let last = ranges.len() - 1;
    assert(ranges[last].end <= max_end(ranges));
    if max_end(ranges) != 0 {
        let i = choose|i: int|
            0 <= i < ranges.len() && (#[trigger] ranges[i]).end == max_end(ranges);
        if i < last {
            assert(ranges[i].end <= ranges[last].start);
            assert(ranges[last].start <= ranges[last].end);
        }
    }
}

/// The percentage lies between 0 and 100, and is 0 while the duration is
/// not positive, whatever the ranges.
pub proof fn lemma_percent_bounds(part: nat, whole: int)
    ensures
        percent_of(part, whole) <= 100,
        whole <= 0 ==> percent_of(part, whole) == 0,
        whole > 0 && part >= whole ==> percent_of(part, whole) == 100,
        whole > 0 && part < whole ==> percent_of(part, whole) == (part as int) * 100 / whole,
{
    if whole > 0 {
        if part >= whole {
            assert((part as int) * 100 / whole >= 100) by (nonlinear_arith)
                requires
                    whole > 0,
                    part >= whole,
            ;
        } else {
            assert((part as int) * 100 / whole < 100) by (nonlinear_arith)
                requires
                    whole > 0,
                    0 <= part < whole,
            ;
            assert((part as int) * 100 / whole >= 0) by (nonlinear_arith)
                requires
                    whole > 0,
                    0 <= part,
            ;
        }
    }
}

/// The largest end among the reported ranges, zero where there is none.
pub fn furthest_end(ranges: &[BufferRange]) -> (end: u64)
    ensures
        end == max_end(ranges@),
{
    let mut best: u64 = 0;
    let mut i: usize = 0;
    while i < ranges.len()
        invariant
            i <= ranges.len(),
            best == max_end(ranges@.take(i as int)),
        decreases ranges.len() - i,
    {
        proof {
            assert(ranges@.take(i + 1).drop_last() =~= ranges@.take(i as int));
        }
        if ranges[i].end > best {
            best = ranges[i].end;
        }
        i += 1;
    }
    proof {
        assert(ranges@.take(i as int) =~= ranges@);
    }
    best
}

/// `part` as a percentage of `whole`: rounded down, at most 100, and 0 while
/// `whole` is not positive.
pub fn percent(part: u64, whole: i64) -> (p: u32)
    ensures
        p == percent_of(part as nat, whole as int),
        p <= 100,
{
    proof {
        lemma_percent_bounds(part as nat, whole as int);
    }
    if whole <= 0 {
        0
    } else if part >= whole as u64 {
        100
    } else {
        let scaled: u128 = part as u128 * 100;
        let p: u128 = scaled / (whole as u128);
        p as u32
    }
}

/// The buffered percentage: the furthest buffered end as a share of the
/// duration.
pub fn buffered_percent(ranges: &[BufferRange], duration: i64) -> (p: u32)
    ensures
        p == spec_buffered_percent(ranges@, duration as int),
        p <= 100,
        duration <= 0 ==> p == 0,
{
    let end = furthest_end(ranges);
    percent(end, duration)
}

/// The played percentage: the current time as a share of the duration.
pub fn playback_percent(current_time: u64, duration: i64) -> (p: u32)
    ensures
        p == percent_of(current_time as nat, duration as int),
        p <= 100,
        duration <= 0 ==> p == 0,
{
    percent(current_time, duration)
}

/// Holds the percentage that was computed last.
#[derive(Clone, Copy, Debug, PartialEq, Eq, Structural)]
pub struct BufferedExtentTracker {
    percent: u32,
}

impl BufferedExtentTracker {
    /// The percentage that was computed last.
    pub closed spec fn value(&self) -> nat {
        self.percent as nat
    }

    /// A tracker that reports 0.
    pub fn new() -> (t: Self)
        ensures
            t.value() == 0,
    {
        BufferedExtentTracker { percent: 0 }
    }

    /// Recomputes the percentage from what the sink reports now.
    pub fn update(&mut self, ranges: &[BufferRange], duration: i64) -> (p: u32)
        ensures
            final(self).value() == spec_buffered_percent(ranges@, duration as int),
            p == final(self).value(),
            p <= 100,
    {
        self.percent = buffered_percent(ranges, duration);
        self.percent
    }

    /// The percentage that was computed last.
    pub fn percent(&self) -> (p: u32)
        ensures
            p == self.value(),
    {
        self.percent
    }
}

} // verus!
