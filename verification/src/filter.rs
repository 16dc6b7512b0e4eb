//! A single-pole low-pass filter in fixed point.

use vstd::prelude::*;
use crate::fixpt::BigFixpt;
use crate::fixpt::Fixpt;
use crate::fixpt::big_div;
use crate::raw::saturate16;
use crate::raw::saturate24;

verus! {

/// The filter's accumulator and its last output.
pub struct Filter {
    buf: BigFixpt,
    out: Fixpt,
}

/// The accumulator after one step: the last output leaves, the input enters.
pub open spec fn filter_buf(buf: int, out: int, input: int) -> int {
    saturate24(saturate24(buf - out) + input)
}

/// The output of one step: the new accumulator divided by the divisor.
pub open spec fn filter_out(buf: int, out: int, input: int, div: int) -> int {
    saturate16(big_div(filter_buf(buf, out, input), div))
}

impl Filter {
    /// The raw value of the accumulator.
    pub closed spec fn buf(&self) -> int {
        self.buf@
    }

    /// The raw value of the last output.
    pub closed spec fn out(&self) -> int {
        self.out@
    }

    pub fn new() -> (r: Self)
        ensures
            r.buf() == 0,
            r.out() == 0,
    {
        Filter { buf: BigFixpt::from_int(0), out: Fixpt::from_q(0) }
    }

    /// Clears the accumulator and the output.
    pub fn reset(&mut self)
        ensures
            final(self).buf() == 0,
            final(self).out() == 0,
    {
        self.buf = BigFixpt::from_int(0);
        self.out = Fixpt::from_q(0);
    }

    /// Feeds one input sample and returns the new output.
    pub fn run(&mut self, input: Fixpt, div: Fixpt) -> (r: Fixpt)
        ensures
            final(self).buf() == filter_buf(old(self).buf(), old(self).out(), input@),
            final(self).out() == filter_out(old(self).buf(), old(self).out(), input@, div@),
            r@ == final(self).out(),
    {
        let mut buf = self.buf;
        buf = buf.sub(self.out.upgrade());
        buf = buf.add(input.upgrade());
        self.buf = buf;
        let out = buf.div(div.upgrade()).downgrade();
        self.out = out;
        out
    }

    /// The last output.
    pub fn get(&self) -> (r: Fixpt)
        ensures
            r@ == self.out(),
    {
        self.out
    }
}

/// The output of a filter is a Q8.8 number and its accumulator a Q16.8
/// number.
pub proof fn lemma_filter_range(f: Filter)
    ensures
        -0x8000 <= f.out() <= 0x7FFF,
        -0x80_0000 <= f.buf() <= 0x7F_FFFF,
{
    crate::raw::lemma_raw_value_range(f.buf.0.0);
}

/// A filter that is fed the value it already puts out, with a divisor of
/// `n` whole units, keeps its output once the accumulator holds `n` times
/// that output.
pub proof fn lemma_filter_steady(out: int, n: int)
    requires
        1 <= n <= 0x7F,
        -0x8000 <= out <= 0x7FFF,
        -0x80_0000 <= n * out <= 0x7F_FFFF,
    ensures
        filter_buf(n * out, out, out) == n * out,
        filter_out(n * out, out, out, n * 0x100) == out,
{
    let b = n * out;
    assert(b * 0x100 == out * (n * 0x100)) by (nonlinear_arith)
        requires
            b == n * out,
    ;
    crate::kernel24::lemma_trunc_div_exact(out, n * 0x100);
}

} // verus!
