//! Raw samples: the unsigned integers that index a lookup table.

use vstd::prelude::*;

verus! {

/// One raw intensity value of one channel of one pixel.
pub trait Sample {
    /// The sample as a natural number.
    spec fn value(&self) -> nat;

    /// The sample as an index into a lookup table.
    fn index(&self) -> (i: usize)
        ensures
            i == self.value(),
    ;
}

impl Sample for u8 {
    open spec fn value(&self) -> nat {
        *self as nat
    }

    fn index(&self) -> (i: usize) {
        *self as usize
    }
}

impl Sample for u16 {
    open spec fn value(&self) -> nat {
        *self as nat
    }

    fn index(&self) -> (i: usize) {
        *self as usize
    }
}

impl Sample for u32 {
    open spec fn value(&self) -> nat {
        *self as nat
    }

    fn index(&self) -> (i: usize) {
        *self as usize
    }
}

} // verus!
