//! A PI controller with a symmetric integral limit.

use vstd::prelude::*;
use crate::fixpt::Fixpt;
use crate::fixpt::q_add;
use crate::fixpt::q_mul;
use crate::fixpt::q_neg;
use crate::fixpt::q_sub;

verus! {

/// The controller gains.
#[derive(Copy, Clone, Debug)]
pub struct PiParams {
    pub kp: Fixpt,
    pub ki: Fixpt,
}

/// The controller state: the integral term and its limit.
pub struct Pi {
    i: Fixpt,
    ilim: Fixpt,
}

/// The integral term after a step with the deviation `e`: zero on reset,
/// else the old term plus `ki * e`, limited from above by `ilim` and then
/// from below by `-ilim`.
pub open spec fn pi_integral(i: int, ki: int, e: int, ilim: int, reset: bool) -> int {
    if reset {
        0
    } else {
        let sum = q_add(i, q_mul(ki, e));
        let upper = if sum <= ilim {
            sum
        } else {
            ilim
        };
        if upper >= q_neg(ilim) {
            upper
        } else {
            q_neg(ilim)
        }
    }
}

impl Pi {
    /// The raw value of the integral term.
    pub closed spec fn integral(&self) -> int {
        self.i@
    }

    /// The raw value of the integral limit.
    pub closed spec fn ilim(&self) -> int {
        self.ilim@
    }

    pub fn new() -> (r: Self)
        ensures
            r.integral() == 0,
            r.ilim() == 0,
    {
        Pi { i: Fixpt::from_int(0), ilim: Fixpt::from_int(0) }
    }

    /// Sets the limit of the integral term.
    pub fn set_ilim(&mut self, ilim: Fixpt)
        ensures
            final(self).ilim() == ilim@,
            final(self).integral() == old(self).integral(),
    {
        self.ilim = ilim;
    }

    /// One control step with the setpoint `sp` and the measured value `r`.
    pub fn run(&mut self, params: &PiParams, sp: Fixpt, r: Fixpt, reset: bool) -> (y: Fixpt)
        ensures
            final(self).ilim() == old(self).ilim(),
            final(self).integral() == pi_integral(
                old(self).integral(),
                params.ki@,
                q_sub(sp@, r@),
                old(self).ilim(),
                reset,
            ),
            y@ == q_add(q_mul(params.kp@, q_sub(sp@, r@)), final(self).integral()),
    {
        let e = sp.sub(r);
        let p = params.kp.mul(e);
        let mut i = self.i.add(params.ki.mul(e));
        let ilim = self.ilim;
        i = i.min(ilim);
        i = i.max(ilim.neg());
        if reset {
            i = Fixpt::from_int(0);
        }
        self.i = i;
        p.add(i)
    }
}

/// With a limit that is not negative, the integral term stays within the
/// limit on both sides.
pub proof fn lemma_pi_integral_bounded(i: int, ki: int, e: int, ilim: int, reset: bool)
    requires
        0 <= ilim <= 0x7FFF,
    ensures
        -ilim <= pi_integral(i, ki, e, ilim, reset) <= ilim,
{
}

} // verus!
