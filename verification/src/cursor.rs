//! Cursor over a packed list of fixed-size records inside a byte buffer.
//!
//! The cursor is an explicit offset-plus-count abstraction: it never owns the
//! buffer and advances by each record's encoded size. Typed iterators in the
//! protocol modules wrap it and parse one record per step.

use vstd::prelude::*;

verus! {

/// Forward-only cursor over `rem` records of `elem` bytes each, packed
/// contiguously from `off` up to `limit`.
#[derive(Clone, Copy, PartialEq, Eq, Structural, Debug)]
pub struct FixedCursor {
    pub off: usize,
    pub rem: usize,
    pub elem: usize,
    pub limit: usize,
}

impl FixedCursor {
    /// The remaining records exactly fill the region up to `limit`.
    pub open spec fn wf(self) -> bool {
        &&& self.elem >= 1
        &&& self.off + self.rem * self.elem == self.limit
    }

    /// The cursor after yielding one record (meaningful when `rem > 0`).
    pub open spec fn advance(self) -> FixedCursor {
        FixedCursor {
            off: (self.off + self.elem) as usize,
            rem: (self.rem - 1) as usize,
            elem: self.elem,
            limit: self.limit,
        }
    }

    pub fn new(off: usize, count: usize, elem: usize, limit: usize) -> (r: FixedCursor)
        requires
            elem >= 1,
            off + count * elem == limit,
        ensures
            r == (FixedCursor { off, rem: count, elem, limit }),
            r.wf(),
    {
        FixedCursor { off, rem: count, elem, limit }
    }

    /// True iff a further record remains.
    pub fn has_next(&self) -> (r: bool)
        ensures
            r == (self.rem > 0),
    {
        self.rem > 0
    }

    /// Yields the offset of the next record and advances past it, or reports
    /// exhaustion without moving.
    pub fn next(&mut self) -> (r: Option<usize>)
        requires
            old(self).wf(),
        ensures
            final(self).wf(),
            match r {
                Some(start) => {
                    &&& old(self).rem > 0
                    &&& start == old(self).off
                    &&& start + old(self).elem <= old(self).limit
                    &&& *final(self) == old(self).advance()
                },
                None => old(self).rem == 0 && *final(self) == *old(self),
            },
    {
        if self.rem == 0 {
            None
        } else {
            let start = self.off;
            proof {
                lemma_advance_wf(*self);
            }
            self.off = self.off + self.elem;
            self.rem = self.rem - 1;
            Some(start)
        }
    }
}

/// Advancing a non-exhausted well-formed cursor keeps it well formed, moves
/// the offset by one record and stays within the region.
pub proof fn lemma_advance_wf(c: FixedCursor)
    requires
        c.wf(),
        c.rem > 0,
    ensures
        c.advance().wf(),
        c.off + c.elem <= c.limit,
        c.advance().off == c.off + c.elem,
        c.advance().rem == c.rem - 1,
{
    assert(c.rem * c.elem == (c.rem - 1) * c.elem + c.elem) by (nonlinear_arith);
    assert((c.rem - 1) * c.elem >= 0) by (nonlinear_arith)
        requires
            c.rem >= 1,
            c.elem >= 1,
    ;
}

/// The cursor reached after `k` successful steps.
pub open spec fn steps(c: FixedCursor, k: nat) -> FixedCursor
    decreases k,
{
    if k == 0 {
        c
    } else {
        steps(c, (k - 1) as nat).advance()
    }
}

/// After `i` steps of a cursor over at least `i` records, exactly `i` records
/// have been yielded: the offset has advanced by `i` records and `i` fewer
/// remain.
pub proof fn lemma_steps(c: FixedCursor, i: nat)
    requires
        c.wf(),
        i <= c.rem,
    ensures
        steps(c, i).wf(),
        steps(c, i).rem == c.rem - i,
        steps(c, i).off == c.off + i * c.elem,
        steps(c, i).elem == c.elem,
        steps(c, i).limit == c.limit,
    decreases i,
{
    if i == 0 {
        assert(steps(c, i).off == c.off + i * c.elem) by (nonlinear_arith)
            requires
                i == 0,
                steps(c, i).off == c.off,
        ;
    } else {
        lemma_steps(c, (i - 1) as nat);
        let p = steps(c, (i - 1) as nat);
        lemma_advance_wf(p);
        assert(p.off + p.elem == c.off + (i - 1) * c.elem + c.elem == c.off + i * c.elem)
            by (nonlinear_arith)
            requires
                p.off == c.off + (i - 1) * c.elem,
                p.elem == c.elem,
                i >= 1,
        ;
    }
}

/// Over a region of `k` fixed-size records, the first `k` calls to `next`
/// each yield a record, the call after that yields none, and the cumulative
/// bytes advanced equal the region's declared length.
pub proof fn lemma_cursor_exhaustion(c: FixedCursor, k: nat)
    requires
        c.wf(),
        c.rem == k,
    ensures
        forall|i: nat| i < k ==> (#[trigger] steps(c, i)).rem > 0,
        steps(c, k).rem == 0,
        steps(c, k).off == c.limit,
{
    assert forall|i: nat| i < k implies (#[trigger] steps(c, i)).rem > 0 by {
        lemma_steps(c, i);
    }
    lemma_steps(c, k);
    assert(c.off + k * c.elem == c.limit);
}

} // verus!
