use vstd::prelude::*;

verus! {

/// A value holding an 8-bit register of flags, each flag of type `T` being one bit
/// (its mask).
pub trait Bitflags<T>: View + Sized {
    /// The mask of a flag.
    spec fn spec_mask(flag: T) -> u8;

    /// The flag byte of a view.
    spec fn spec_register_of(v: Self::V) -> u8;

    /// A view with its flag byte replaced by `value`, and everything else kept.
    spec fn spec_with_register(v: Self::V, value: u8) -> Self::V;

    fn mask(flag: T) -> (m: u8)
        ensures
            m == Self::spec_mask(flag),
    ;

    fn register(&self) -> (r: u8)
        ensures
            r == Self::spec_register_of(self@),
    ;

    fn set_register(&mut self, value: u8)
        ensures
            final(self)@ == Self::spec_with_register(old(self)@, value),
    ;

    /// Whether any bit of the flag's mask is set.
    fn flag(&self, flag: T) -> (r: bool)
        ensures
            r == (Self::spec_register_of(self@) & Self::spec_mask(flag) != 0),
    {
        self.register() & Self::mask(flag) != 0
    }

    /// Sets (`value` true) or clears the bits of the flag's mask, keeping the others.
    fn set_flag(&mut self, flag: T, value: bool)
        ensures
            final(self)@ == Self::spec_with_register(
                old(self)@,
                if value {
                    Self::spec_register_of(old(self)@) | Self::spec_mask(flag)
                } else {
                    Self::spec_register_of(old(self)@) & !Self::spec_mask(flag)
                },
            ),
    {
        let value = if value {
            self.register() | Self::mask(flag)
        } else {
            self.register() & !Self::mask(flag)
        };
        self.set_register(value);
    }
}

} // verus!
