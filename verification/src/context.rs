//! Execution contexts and the cells for state that they share.
//!
//! The controller runs in two contexts: the main loop, with interrupts
//! enabled, and the interrupt handlers, with interrupts disabled. A token
//! stands for each, and a third one for a critical section.
//!
//! State of the main loop alone is owned by the main loop and reached
//! through an exclusive borrow; the entry points of the main loop ask for
//! its token. State that an interrupt handler and the
//! main loop share is a record of its own. The functions that touch such
//! a record ask for the exclusive borrow of the record and for a token:
//! the handler's entry points for the token of the interrupt context, and
//! the operations of the main loop for the token of a critical section. A
//! single byte that both contexts touch is an [`AvrAtomic`].
//!
//! Nothing at run time checks where a token is made: a token is made once
//! at the entry of its context and handed down from there.

use vstd::prelude::*;

verus! {

/// The token of a critical section: interrupts are disabled while it lives.
#[derive(Copy, Clone, Debug)]
pub struct CriticalSection {
    _private: (),
}

/// The token of the main loop.
#[derive(Debug)]
pub struct MainCtx {
    _private: (),
}

/// The token of an interrupt handler.
#[derive(Debug)]
pub struct IrqCtx {
    _private: (),
}

/// The token of the initialisation that runs before the main loop, with
/// interrupts still disabled.
#[derive(Debug)]
pub struct MainInitCtx {
    _private: (),
}

impl CriticalSection {
    /// Makes the token. To be called only where interrupts are disabled.
    pub fn new() -> (r: Self) {
        CriticalSection { _private: () }
    }
}

impl MainCtx {
    /// Makes the token. To be called only at the entry of the main loop.
    pub fn new() -> (r: Self) {
        MainCtx { _private: () }
    }
}

impl IrqCtx {
    /// Makes the token. To be called only at the entry of an interrupt
    /// handler.
    pub fn new() -> (r: Self) {
        IrqCtx { _private: () }
    }

    /// An interrupt handler runs with interrupts disabled: its token gives
    /// a critical section.
    pub fn cs(&self) -> (r: CriticalSection) {
        CriticalSection::new()
    }
}

impl MainInitCtx {
    /// Makes the token. To be called only before interrupts are enabled.
    pub fn new() -> (r: Self) {
        MainInitCtx { _private: () }
    }

    /// Initialisation runs with interrupts disabled: its token gives a
    /// critical section.
    pub fn cs(&self) -> (r: CriticalSection) {
        CriticalSection::new()
    }
}

/// A value that only the main loop reads and writes.
pub struct MutexCell<T> {
    inner: T,
}

impl<T> View for MutexCell<T> {
    type V = T;

    /// The value held.
    closed spec fn view(&self) -> T {
        self.inner
    }
}

impl<T> MutexCell<T> {
    pub fn new(inner: T) -> (r: Self)
        ensures
            r@ == inner,
    {
        MutexCell { inner }
    }

    /// Puts `inner` into the cell and hands out what it held.
    pub fn replace(&mut self, m: &MainCtx, inner: T) -> (r: T)
        ensures
            r == old(self)@,
            final(self)@ == inner,
    {
        let mut held = inner;
        std::mem::swap(&mut self.inner, &mut held);
        held
    }

    pub fn as_ref(&self, m: &MainCtx) -> (r: &T)
        ensures
            *r == self@,
    {
        &self.inner
    }
}

impl<T: Copy> MutexCell<T> {
    pub fn get(&self, m: &MainCtx) -> (r: T)
        ensures
            r == self@,
    {
        self.inner
    }

    pub fn set(&mut self, m: &MainCtx, inner: T)
        ensures
            final(self)@ == inner,
    {
        self.inner = inner;
    }
}

/// A byte that both contexts may read and write: a byte is loaded and
/// stored in one piece.
pub struct AvrAtomic {
    value: u8,
}

impl View for AvrAtomic {
    type V = u8;

    /// The byte held.
    closed spec fn view(&self) -> u8 {
        self.value
    }
}

impl AvrAtomic {
    pub fn new() -> (r: Self)
        ensures
            r@ == 0,
    {
        AvrAtomic { value: 0 }
    }

    pub fn get(&self) -> (r: u8)
        ensures
            r == self@,
    {
        self.value
    }

    pub fn set(&mut self, value: u8)
        ensures
            final(self)@ == value,
    {
        self.value = value;
    }

    /// Whether the byte is not zero.
    pub fn get_bool(&self) -> (r: bool)
        ensures
            r == (self@ != 0),
    {
        self.get() != 0
    }

    /// Stores one for `true` and zero for `false`.
    pub fn set_bool(&mut self, value: bool)
        ensures
            final(self)@ == if value {
                1u8
            } else {
                0u8
            },
    {
        self.set(if value {
            1
        } else {
            0
        });
    }
}

} // verus!
