//! A fixed-length history of samples, oldest first.

use vstd::prelude::*;

verus! {

/// The last `SIZE` samples, the oldest at index 0.
pub struct History<T, const SIZE: usize> {
    hist: [T; SIZE],
}

impl<T, const SIZE: usize> View for History<T, SIZE> {
    type V = Seq<T>;

    /// The samples, oldest first.
    closed spec fn view(&self) -> Seq<T> {
        self.hist@
    }
}

impl<T, const SIZE: usize> History<T, SIZE> {
    pub fn new(hist: [T; SIZE]) -> (r: Self)
        ensures
            r@ == hist@,
            r@.len() == SIZE,
    {
        History { hist }
    }
}

impl<T: Copy, const SIZE: usize> History<T, SIZE> {
    /// Drops the oldest sample and appends `new` as the newest.
    pub fn push_back(&mut self, new: T)
        requires
            SIZE > 0,
        ensures
            final(self)@ == old(self)@.drop_first().push(new),
            final(self)@.len() == SIZE,
    {
        let mut i: usize = 1;
        while i < SIZE
            invariant
                1 <= i <= SIZE,
                self.hist@.len() == SIZE,
                forall|k: int| 0 <= k < i - 1 ==> self.hist@[k] == old(self).hist@[k + 1],
                forall|k: int| i - 1 <= k < SIZE ==> self.hist@[k] == old(self).hist@[k],
            decreases SIZE - i,
        {
            let v = self.hist[i];
            self.hist[i - 1] = v;
            i = i + 1;
        }
        self.hist[SIZE - 1] = new;
        assert(self.hist@ =~= old(self).hist@.drop_first().push(new));
    }

    /// The sample at `index`, counted from the oldest.
    pub fn get(&self, index: usize) -> (r: T)
        requires
            index < SIZE,
        ensures
            r == self@[index as int],
    {
        self.hist[index]
    }

    /// The oldest sample.
    pub fn oldest(&self) -> (r: T)
        requires
            SIZE > 0,
        ensures
            r == self@[0],
    {
        self.get(0)
    }
}

} // verus!
