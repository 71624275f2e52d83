use vstd::prelude::*;

verus! {

/// An 8-bit register of the video hardware, read and written as a whole.
pub trait Register: Sized {
    /// The value the register holds.
    spec fn spec_get(&self) -> u8;

    fn get(&self) -> (r: u8)
        ensures
            r == self.spec_get(),
    ;

    fn set(&mut self, value: u8)
        ensures
            final(self).spec_get() == value,
    ;
}

} // verus!
