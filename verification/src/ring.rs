//! A bounded first-in first-out buffer with wrapping byte counters, for
//! items that pass between an interrupt handler and the main loop.

use vstd::prelude::*;
use crate::context::CriticalSection;
use vstd::arithmetic::div_mod::lemma_fundamental_div_mod;
use vstd::arithmetic::div_mod::lemma_fundamental_div_mod_converse;

verus! {

/// A ring of `SIZE` slots. The write and the read counter run through all
/// byte values and wrap; the slot of a counter is its remainder by `SIZE`,
/// so `SIZE` must divide 256.
pub struct Ring<T, const SIZE: usize> {
    buf: [T; SIZE],
    wr: u8,
    rd: u8,
}

/// The slot of the counter value `c`.
pub open spec fn ring_slot(c: int, size: int) -> int {
    c % size
}

/// Counter values that differ by less than the size have different slots.
pub proof fn lemma_ring_slots_differ(a: int, b: int, size: int)
    requires
        size > 0,
        a < b < a + size,
    ensures
        ring_slot(a, size) != ring_slot(b, size),
{
    lemma_fundamental_div_mod(a, size);
    lemma_fundamental_div_mod(b, size);
    if a % size == b % size {
        let k = b / size - a / size;
        assert(b - a == size * k) by (nonlinear_arith)
            requires
                a == size * (a / size) + a % size,
                b == size * (b / size) + b % size,
                a % size == b % size,
                k == b / size - a / size,
        ;
        assert(false) by (nonlinear_arith)
            requires
                0 < size * k < size,
                size > 0,
        ;
    }
}

/// Wrapping a counter at 256 keeps its slot.
pub proof fn lemma_ring_slot_wraps(c: int, size: int)
    requires
        size > 0,
        256int % size == 0,
    ensures
        ring_slot(c % 256, size) == ring_slot(c, size),
{
    lemma_fundamental_div_mod(256int, size);
    lemma_fundamental_div_mod(c % 256, size);
    let q = (256int / size) * (c / 256) + (c % 256) / size;
    assert(c == q * size + (c % 256) % size) by (nonlinear_arith)
        requires
            c == 256 * (c / 256) + c % 256,
            256 == size * (256int / size),
            c % 256 == size * ((c % 256) / size) + (c % 256) % size,
            q == (256int / size) * (c / 256) + (c % 256) / size,
    ;
    lemma_fundamental_div_mod_converse(c, size, q, (c % 256) % size);
}

impl<T, const SIZE: usize> Ring<T, SIZE> {
    /// The number of queued items.
    pub closed spec fn spec_count(&self) -> int {
        (self.wr - self.rd) % 256
    }

    /// Whether the ring is well formed: the size divides 256 and is at
    /// most 128, and no more items are queued than there are slots.
    pub closed spec fn wf(&self) -> bool {
        &&& 0 < SIZE <= 128
        &&& 256int % (SIZE as int) == 0
        &&& self.buf@.len() == SIZE
        &&& self.spec_count() <= SIZE
    }

    pub fn new(buf: [T; SIZE]) -> (r: Self)
        requires
            0 < SIZE <= 128,
            256int % (SIZE as int) == 0,
        ensures
            r.wf(),
            r@.len() == 0,
    {
        let r = Ring { buf, wr: 0, rd: 0 };
        proof {
            vstd::array::array_len_matches_n(&r.buf);
        }
        r
    }
}

impl<T, const SIZE: usize> View for Ring<T, SIZE> {
    type V = Seq<T>;

    /// The queued items, oldest first.
    closed spec fn view(&self) -> Seq<T> {
        Seq::new(
            self.spec_count() as nat,
            |i: int| self.buf@[ring_slot(self.rd + i, SIZE as int)],
        )
    }
}

impl<T: Copy, const SIZE: usize> Ring<T, SIZE> {
    fn count(&self) -> (r: u8)
        ensures
            r == self.spec_count(),
            r == self@.len(),
    {
        if self.wr >= self.rd {
            self.wr - self.rd
        } else {
            (0x100 - (self.rd as u16 - self.wr as u16)) as u8
        }
    }

    fn is_full(&self) -> (r: bool)
        requires
            self.wf(),
        ensures
            r == (self@.len() >= SIZE),
    {
        self.count() as usize >= SIZE
    }

    fn is_empty(&self) -> (r: bool)
        ensures
            r == (self@.len() == 0),
    {
        self.count() == 0
    }

    /// Queues `value` unless the ring is full. Returns whether it was
    /// queued.
    pub fn insert(&mut self, cs: &CriticalSection, value: T) -> (r: bool)
        requires
            old(self).wf(),
        ensures
            final(self).wf(),
            r == (old(self)@.len() < SIZE),
            final(self)@ == if r {
                old(self)@.push(value)
            } else {
                old(self)@
            },
    {
        if self.is_full() {
            false
        } else {
            let wr = self.wr;
            let ghost n = self.spec_count();
            proof {
                // The write slot is the slot after the last queued item.
                lemma_ring_slot_wraps(self.rd + n, SIZE as int);
            }
            self.buf[wr as usize % SIZE] = value;
            self.wr = if wr == 0xFF {
                0
            } else {
                wr + 1
            };
            proof {
                assert forall|i: int| 0 <= i < n + 1 implies self@[i] == old(self)@.push(value)[i] by {
                    if i < n {
                        lemma_ring_slots_differ(self.rd + i, self.rd + n, SIZE as int);
                    }
                }
            }
            true
        }
    }

    /// Takes the oldest item out; nothing if the ring is empty.
    pub fn get(&mut self, cs: &CriticalSection) -> (r: Option<T>)
        requires
            old(self).wf(),
        ensures
            final(self).wf(),
            r == if old(self)@.len() == 0 {
                None
            } else {
                Some(old(self)@[0])
            },
            final(self)@ == if old(self)@.len() == 0 {
                old(self)@
            } else {
                old(self)@.drop_first()
            },
    {
        if self.is_empty() {
            None
        } else {
            let rd = self.rd;
            let ghost n = self.spec_count();
            let value = self.buf[rd as usize % SIZE];
            self.rd = if rd == 0xFF {
                0
            } else {
                rd + 1
            };
            proof {
                assert forall|i: int| 0 <= i < n - 1 implies self@[i] == old(self)@.drop_first()[i] by {
                    if rd == 0xFF {
                        lemma_ring_slot_wraps(rd + 1 + i, SIZE as int);
                    }
                }
            }
            Some(value)
        }
    }

    /// The number of queued items.
    pub fn len(&self) -> (r: u8)
        ensures
            r == self@.len(),
    {
        self.count()
    }
}

} // verus!
