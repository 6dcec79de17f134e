//! The address range producer: a lazy, ordered, length-known sequence of
//! IPv4 addresses between two inclusive 32-bit bounds.
use vstd::prelude::*;

verus! {

/// The full sequence of addresses in the closed interval `[start, end]`,
/// ascending; empty when `start > end`.
pub open spec fn range_seq(start: u32, end: u32) -> Seq<u32> {
    if start > end {
        Seq::empty()
    } else {
        Seq::new((end - start + 1) as nat, |i: int| (start + i) as u32)
    }
}

/// Produces the addresses of a closed IPv4 interval in ascending order, one
/// at a time, with the total count known up front. A fresh producer is made
/// for each pass over the range; a producer cannot be rewound.
pub struct AddrRange {
    /// The next address to produce, one past the end when exhausted. Held
    /// one bit wider than an address so the largest address can be included.
    pub next: u64,
    /// The last address of the interval.
    pub end: u32,
}

impl AddrRange {
    /// The addresses this producer has yet to yield.
    pub open spec fn remaining(&self) -> Seq<u32> {
        Seq::new(
            if self.next > self.end {
                0
            } else {
                (self.end - self.next + 1) as nat
            },
            |i: int| (self.next + i) as u32,
        )
    }

    /// Makes a producer for the closed interval `[start, end]`; the interval
    /// is empty when `start > end`.
    pub fn new(start: u32, end: u32) -> (r: AddrRange)
        ensures
            r.remaining() == range_seq(start, end),
    {
        let r = AddrRange { next: start as u64, end };
        proof {
            assert(r.remaining() =~= range_seq(start, end));
        }
        r
    }

    /// How many addresses are left to produce.
    pub fn len(&self) -> (n: u64)
        ensures
            n == self.remaining().len(),
    {
        if self.next > self.end as u64 {
            0
        } else {
            self.end as u64 - self.next + 1
        }
    }

    /// Produces the next address in ascending order, or nothing once the
    /// interval is exhausted.
    pub fn next(&mut self) -> (r: Option<u32>)
        ensures
            old(self).remaining().len() == 0 ==> r is None,
            old(self).remaining().len() == 0 ==> final(self).remaining() == old(self).remaining(),
            old(self).remaining().len() > 0 ==> r == Some(old(self).remaining()[0]),
            old(self).remaining().len() > 0 ==> final(self).remaining() == old(self).remaining().drop_first(),
    {
        if self.next > self.end as u64 {
            None
        } else {
            let addr = self.next as u32;
            self.next = self.next + 1;
            proof {
                assert(self.remaining() =~= old(self).remaining().drop_first());
            }
            Some(addr)
        }
    }
}

/// For every interval with `start <= end`, the producer's sequence holds
/// exactly `end - start + 1` addresses, strictly ascending, the first equal
/// to `start` and the last equal to `end`.
pub proof fn lemma_range_complete(start: u32, end: u32)
    requires
        start <= end,
    ensures
        range_seq(start, end).len() == end - start + 1,
        range_seq(start, end)[0] == start,
        range_seq(start, end)[range_seq(start, end).len() - 1] == end,
        forall|i: int, j: int|
            0 <= i < j < range_seq(start, end).len() ==> range_seq(start, end)[i] < range_seq(
                start,
                end,
            )[j],
{
}

} // verus!
