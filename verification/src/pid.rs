//! The PID speed controller with a clamped integral term.

use vstd::prelude::*;
use crate::fixpt::Fixpt;
use crate::fixpt::q_add;
use crate::fixpt::q_mul;
use crate::fixpt::q_sub;
use crate::q7p8::q7p8_add;
use crate::q7p8::q7p8_mul;
use crate::q7p8::q7p8_sub;

verus! {

/// The controller gains.
#[derive(Copy, Clone, Debug)]
pub struct PidParams {
    pub kp: Fixpt,
    pub ki: Fixpt,
    pub kd: Fixpt,
}

/// The limits of the integral term.
#[derive(Copy, Clone, Debug)]
pub struct PidIlim {
    pub neg: Fixpt,
    pub pos: Fixpt,
}

/// The controller state: the integral term and the last deviation.
pub struct Pid {
    i: Fixpt,
    prev_e: Fixpt,
}

/// `v` limited from above by `pos` and then from below by `neg`.
pub open spec fn clamp_ilim(v: int, neg: int, pos: int) -> int {
    let upper = if v <= pos {
        v
    } else {
        pos
    };
    if upper >= neg {
        upper
    } else {
        neg
    }
}

/// The integral term after a step with the deviation `e`: the old term
/// plus `ki * e`, or zero on reset, clamped to the limits.
pub open spec fn pid_integral(i: int, ki: int, e: int, reset: bool, neg: int, pos: int) -> int {
    clamp_ilim(
        if reset {
            0
        } else {
            q_add(i, q_mul(ki, e))
        },
        neg,
        pos,
    )
}

/// The controller output of a step: the sum of the proportional, integral
/// and derivative terms.
pub open spec fn pid_output(
    i: int,
    prev_e: int,
    kp: int,
    ki: int,
    kd: int,
    neg: int,
    pos: int,
    sp: int,
    r: int,
    reset: bool,
) -> int {
    let e = q_sub(sp, r);
    let p = q_mul(kp, e);
    let i_new = pid_integral(i, ki, e, reset, neg, pos);
    let d = q_mul(q_sub(e, prev_e), kd);
    q_add(q_add(p, i_new), d)
}

impl Pid {
    /// The raw value of the integral term.
    pub closed spec fn integral(&self) -> int {
        self.i@
    }

    /// The raw value of the last deviation.
    pub closed spec fn prev_e(&self) -> int {
        self.prev_e@
    }

    pub fn new() -> (r: Self)
        ensures
            r.integral() == 0,
            r.prev_e() == 0,
    {
        Pid { i: Fixpt::from_q(0), prev_e: Fixpt::from_q(0) }
    }

    /// One control step with the setpoint `sp` and the measured value `r`.
    /// The tick spacing is taken as constant.
    pub fn run(&mut self, params: &PidParams, ilim: &PidIlim, sp: Fixpt, r: Fixpt, reset: bool) -> (y:
        Fixpt)
        ensures
            final(self).integral() == pid_integral(
                old(self).integral(),
                params.ki@,
                q_sub(sp@, r@),
                reset,
                ilim.neg@,
                ilim.pos@,
            ),
            final(self).prev_e() == q_sub(sp@, r@),
            y@ == pid_output(
                old(self).integral(),
                old(self).prev_e(),
                params.kp@,
                params.ki@,
                params.kd@,
                ilim.neg@,
                ilim.pos@,
                sp@,
                r@,
                reset,
            ),
            ilim.neg@ <= ilim.pos@ ==> ilim.neg@ <= final(self).integral() <= ilim.pos@,
    {
        let e = q7p8_sub(sp, r);
        let p = q7p8_mul(params.kp, e);
        let mut i = q7p8_add(self.i, q7p8_mul(params.ki, e));
        if reset {
            i = Fixpt::from_q(0);
        }
        i = i.min(ilim.pos);
        i = i.max(ilim.neg);
        self.i = i;
        let de = q7p8_sub(e, self.prev_e);
        self.prev_e = e;
        let d = q7p8_mul(de, params.kd);
        q7p8_add(q7p8_add(p, i), d)
    }
}

/// The integral term never leaves its limits: whatever the old term, the
/// gain and the deviation, the new term lies between the negative and the
/// positive limit.
pub proof fn lemma_pid_integral_bounded(i: int, ki: int, e: int, reset: bool, neg: int, pos: int)
    requires
        neg <= pos,
    ensures
        neg <= pid_integral(i, ki, e, reset, neg, pos) <= pos,
{
}

} // verus!
