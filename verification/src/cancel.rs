//! The cancellation signal: one flag for the whole run, raised once and never
//! lowered again.

use vstd::prelude::*;

verus! {

/// The shared cancellation flag.
///
/// The field is private and no function lowers it, so a raised signal stays
/// raised for as long as the value lives.
#[derive(Debug)]
pub struct CancelSignal {
    raised: bool,
}

/// One access to the signal, as the call sites of a run make them.
pub enum CancelOp {
    /// A call of [`CancelSignal::signal_cancel`].
    Signal,
    /// A call of [`CancelSignal::is_cancelled`].
    Read,
}

/// The flag after `ops` have been applied, in order, to a flag that holds `start`.
pub open spec fn flag_after(start: bool, ops: Seq<CancelOp>) -> bool
    decreases ops.len(),
{
    if ops.len() == 0 {
        start
    } else {
        match ops.last() {
            CancelOp::Signal => true,
            CancelOp::Read => flag_after(start, ops.drop_last()),
        }
    }
}

impl CancelSignal {
    /// Whether the signal has been raised.
    pub closed spec fn cancelled(&self) -> bool {
        self.raised
    }

    /// A signal that has not been raised.
    pub fn new() -> (s: Self)
        ensures
            !s.cancelled(),
    {
        CancelSignal { raised: false }
    }

    /// Raises the signal. Returns `true` for the call that raised it and
    /// `false` for every later one, which changes nothing.
    pub fn signal_cancel(&mut self) -> (first: bool)
        ensures
            final(self).cancelled(),
            first == !old(self).cancelled(),
    {
        let first = !self.raised;
        self.raised = true;
        first
    }

    /// Reads the signal.
    pub fn is_cancelled(&self) -> (c: bool)
        ensures
            c == self.cancelled(),
    {
        self.raised
    }

    /// Applies one access and returns what it observed: for a read the
    /// flag, for a signal whether it was the one that raised it.
    pub fn apply(&mut self, op: &CancelOp) -> (seen: bool)
        ensures
            final(self).cancelled() == flag_after(old(self).cancelled(), seq![*op]),
            old(self).cancelled() ==> final(self).cancelled(),
            seen == match *op {
                CancelOp::Signal => !old(self).cancelled(),
                CancelOp::Read => old(self).cancelled(),
            },
    {
        proof {
            let one = seq![*op];
            assert(one.last() == *op);
            assert(one.drop_last().len() == 0);
            reveal_with_fuel(flag_after, 2);
        }
        match op {
            CancelOp::Signal => self.signal_cancel(),
            CancelOp::Read => self.is_cancelled(),
        }
    }
}

/// Applying `ops` and then `more` is applying their concatenation.
pub proof fn lemma_flag_after_concat(start: bool, ops: Seq<CancelOp>, more: Seq<CancelOp>)
    ensures
        flag_after(start, ops + more) == flag_after(flag_after(start, ops), more),
    decreases more.len(),
{
    if more.len() == 0 {
        assert(ops + more =~= ops);
    } else {
        assert((ops + more).last() == more.last());
        assert((ops + more).drop_last() =~= ops + more.drop_last());
        lemma_flag_after_concat(start, ops, more.drop_last());
    }
}

/// A raised signal never reverts: whatever accesses follow, in whatever
/// order the call sites interleave, the flag is raised after them.
pub proof fn lemma_raised_stays_raised(ops: Seq<CancelOp>)
    ensures
        flag_after(true, ops),
    decreases ops.len(),
{
    if ops.len() > 0 {
        lemma_raised_stays_raised(ops.drop_last());
    }
}

/// Once any call site has signalled, every later read observes the raised
/// flag: in a history `ops` with a signal at position `i`, the flag is
/// raised before each access at a position after `i`.
pub proof fn lemma_signal_is_observed(start: bool, ops: Seq<CancelOp>, i: int, j: int)
    requires
        0 <= i < j <= ops.len(),
        ops[i] is Signal,
    ensures
        flag_after(start, ops.take(j)),
{
    let upto = ops.take(i + 1);
    let rest = ops.subrange(i + 1, j);
    assert(upto.last() == ops[i]);
    assert(flag_after(start, upto));
    assert(ops.take(j) =~= upto + rest);
    lemma_flag_after_concat(start, upto, rest);
    lemma_raised_stays_raised(rest);
}

} // verus!
