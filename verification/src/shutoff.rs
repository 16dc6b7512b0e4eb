//! The shutoff verdict that every safety component reports.

use vstd::prelude::*;

verus! {

/// Whether the machine may run.
#[derive(Copy, Clone, Debug, PartialEq, Eq, Structural)]
pub enum Shutoff {
    MachineShutoff,
    MachineRunning,
}

impl Shutoff {
    /// Combines two verdicts: the machine runs only if both let it run.
    pub fn or(self, other: Shutoff) -> (r: Shutoff)
        ensures
            r == shutoff_or(self, other),
    {
        if self == Shutoff::MachineShutoff || other == Shutoff::MachineShutoff {
            Shutoff::MachineShutoff
        } else {
            Shutoff::MachineRunning
        }
    }
}

/// The combination of two verdicts: shutoff wins.
pub open spec fn shutoff_or(a: Shutoff, b: Shutoff) -> Shutoff {
    if a == Shutoff::MachineShutoff || b == Shutoff::MachineShutoff {
        Shutoff::MachineShutoff
    } else {
        Shutoff::MachineRunning
    }
}

impl std::ops::BitOr for Shutoff {
    type Output = Shutoff;

    fn bitor(self, rhs: Shutoff) -> (r: Shutoff) {
        self.or(rhs)
    }
}

impl vstd::std_specs::ops::BitOrSpecImpl for Shutoff {
    open spec fn obeys_bitor_spec() -> bool {
        true
    }

    open spec fn bitor_req(self, rhs: Shutoff) -> bool {
        true
    }

    open spec fn bitor_spec(self, rhs: Shutoff) -> Shutoff {
        shutoff_or(self, rhs)
    }
}

/// The level of the secondary shutoff output for a verdict. The output is
/// active low: it is high exactly while the machine may run.
pub fn set_secondary_shutoff(state: Shutoff) -> (level: bool)
    ensures
        level == (state == Shutoff::MachineRunning),
{
    match state {
        Shutoff::MachineShutoff => false,
        Shutoff::MachineRunning => true,
    }
}

/// Combining verdicts is commutative, associative and idempotent, and a
/// shutoff on either side cannot be undone by the other.
pub proof fn lemma_shutoff_or(a: Shutoff, b: Shutoff, c: Shutoff)
    ensures
        shutoff_or(a, b) == shutoff_or(b, a),
        shutoff_or(shutoff_or(a, b), c) == shutoff_or(a, shutoff_or(b, c)),
        shutoff_or(a, a) == a,
        a == Shutoff::MachineShutoff ==> shutoff_or(a, b) == Shutoff::MachineShutoff,
{
}

} // verus!
