//! A saturating fault counter with asymmetric steps.

use vstd::prelude::*;

verus! {

/// Counts faults up by `ERRSTEP` and healthy cycles down by one. The
/// condition is faulty once the count has reached `LIMIT`. With `STICKY`
/// set, a count that has reached the limit no longer goes down.
pub struct Debounce<const ERRSTEP: u8, const LIMIT: u8, const STICKY: bool> {
    count: u8,
}

impl<const ERRSTEP: u8, const LIMIT: u8, const STICKY: bool> View for Debounce<
    ERRSTEP,
    LIMIT,
    STICKY,
> {
    type V = int;

    /// The current count.
    closed spec fn view(&self) -> int {
        self.count as int
    }
}

/// The count after a fault.
pub open spec fn debounce_error(count: int, errstep: int) -> int {
    if count + errstep > 0xFF {
        0xFF
    } else {
        count + errstep
    }
}

/// The count after a healthy cycle.
pub open spec fn debounce_ok(count: int, limit: int, sticky: bool) -> int {
    if sticky && count >= limit {
        count
    } else if count > 0 {
        count - 1
    } else {
        0
    }
}

impl<const ERRSTEP: u8, const LIMIT: u8, const STICKY: bool> Debounce<ERRSTEP, LIMIT, STICKY> {
    pub fn new() -> (r: Self)
        ensures
            r@ == 0,
    {
        Debounce { count: 0 }
    }

    /// Whether the count is below the limit.
    pub fn is_ok(&self) -> (r: bool)
        ensures
            r == (self@ < LIMIT),
    {
        self.count < LIMIT
    }

    /// Records a fault.
    pub fn error(&mut self)
        ensures
            final(self)@ == debounce_error(old(self)@, ERRSTEP as int),
            0 <= final(self)@ <= 0xFF,
    {
        self.count = if self.count > 0xFF - ERRSTEP {
            0xFF
        } else {
            self.count + ERRSTEP
        };
    }

    /// Records a fault that needs no confirmation: the count jumps to the
    /// limit.
    pub fn error_no_debounce(&mut self)
        ensures
            final(self)@ == LIMIT,
    {
        self.count = LIMIT;
    }

    /// Records a healthy cycle.
    pub fn ok(&mut self)
        ensures
            final(self)@ == debounce_ok(old(self)@, LIMIT as int, STICKY),
    {
        if !STICKY || self.is_ok() {
            self.count = if self.count > 0 {
                self.count - 1
            } else {
                0
            };
        }
    }

    pub fn count(&self) -> (r: u8)
        ensures
            r == self@,
    {
        self.count
    }
}

/// A sticky counter that has reached its limit stays there: neither a
/// healthy cycle nor a fault brings it below the limit again.
pub proof fn lemma_debounce_sticky(count: int, errstep: int, limit: int)
    requires
        0 <= count <= 0xFF,
        0 <= errstep <= 0xFF,
        0 <= limit <= 0xFF,
        count >= limit,
    ensures
        debounce_ok(count, limit, true) == count,
        debounce_error(count, errstep) >= count,
        debounce_error(count, errstep) >= limit,
{
}

/// A healthy cycle never raises the count, and a fault never lowers it.
pub proof fn lemma_debounce_monotone(count: int, errstep: int, limit: int, sticky: bool)
    requires
        0 <= count <= 0xFF,
        0 <= errstep <= 0xFF,
    ensures
        0 <= debounce_ok(count, limit, sticky) <= count,
        count <= debounce_error(count, errstep) <= 0xFF,
{
}

} // verus!
