use vstd::prelude::*;

verus! {

/// The high byte of a 16-bit value.
pub open spec fn high_byte(value: u16) -> u8 {
    (value / 256) as u8
}

/// The low byte of a 16-bit value.
pub open spec fn low_byte(value: u16) -> u8 {
    (value % 256) as u8
}

/// The 16-bit value made of a high and a low byte.
pub open spec fn join_bytes(high: u8, low: u8) -> u16 {
    (high * 256 + low) as u16
}

/// Splitting a 16-bit value into bytes with shifts and casts, and joining two bytes
/// with a shift and an `or`, agree with the arithmetic description.
pub proof fn lemma_byte_ops()
    ensures
        forall|v: u16| #[trigger] ((v >> 8u16) as u8) == high_byte(v),
        forall|v: u16| #[trigger] (v as u8) == low_byte(v),
        forall|h: u8, l: u8| #[trigger] (((h as u16) << 8u16) | (l as u16)) == join_bytes(h, l),
{
    assert(forall|v: u16| #[trigger] ((v >> 8u16) as u8) == (v / 256) as u8) by (bit_vector);
    assert(forall|v: u16| #[trigger] (v as u8) == (v % 256) as u8) by (bit_vector);
    assert(forall|h: u8, l: u8| #[trigger] (((h as u16) << 8u16) | (l as u16)) == (h * 256 + l) as u16)
        by (bit_vector);
}

/// Joining the bytes of a value gives the value back, and the bytes of a join are its parts.
pub proof fn lemma_join_split()
    ensures
        forall|v: u16| #[trigger] join_bytes(high_byte(v), low_byte(v)) == v,
        forall|h: u8, l: u8| #[trigger] high_byte(join_bytes(h, l)) == h,
        forall|h: u8, l: u8| #[trigger] low_byte(join_bytes(h, l)) == l,
{
}

/// An 8-bit register.
pub struct SingleRegister {
    value: u8,
}

impl View for SingleRegister {
    type V = u8;

    closed spec fn view(&self) -> u8 {
        self.value
    }
}

impl SingleRegister {
    /// A register holding zero.
    pub fn new() -> (r: SingleRegister)
        ensures
            r@ == 0,
    {
        SingleRegister { value: 0 }
    }

    pub fn get(&self) -> (r: u8)
        ensures
            r == self@,
    {
        self.value
    }

    pub fn set(&mut self, value: u8)
        ensures
            final(self)@ == value,
    {
        self.value = value;
    }

    /// Whether the value shifted right by `7 - idx` equals one.
    pub fn get_bit(&self, idx: u8) -> (r: bool)
        requires
            idx <= 7,
        ensures
            r == (self@ >> ((7 - idx) as u8) == 1),
    {
        self.value >> (7 - idx) == 1
    }

    /// Sets (`value` true) or clears bit `idx`.
    pub fn set_bit(&mut self, idx: u8, value: bool)
        requires
            idx < 8,
        ensures
            final(self)@ == crate::util::bits::with_bit(old(self)@, idx, value),
    {
        let mask: u8 = 1u8 << idx;
        if value {
            self.value = self.value | mask;
        } else {
            self.value = self.value & !mask;
        }
    }

    /// Adds one; the value must not be at its maximum.
    pub fn increment(&mut self)
        requires
            old(self)@ < 255,
        ensures
            final(self)@ == old(self)@ + 1,
    {
        self.value = self.value + 1;
    }

    /// Adds one to the value, exactly as `increment` does; the value must not be at its
    /// maximum.
    pub fn decrement(&mut self)
        requires
            old(self)@ < 255,
        ensures
            final(self)@ == old(self)@ + 1,
    {
        self.value = self.value + 1;
    }
}

/// A 16-bit register made of a high and a low 8-bit register.
pub struct DualRegister {
    pub high: SingleRegister,
    pub low: SingleRegister,
}

impl View for DualRegister {
    type V = u16;

    open spec fn view(&self) -> u16 {
        join_bytes(self.high@, self.low@)
    }
}

impl DualRegister {
    /// A register pair holding zero.
    pub fn new() -> (r: DualRegister)
        ensures
            r@ == 0,
            r.high@ == 0,
            r.low@ == 0,
    {
        DualRegister { high: SingleRegister::new(), low: SingleRegister::new() }
    }

    /// A register pair holding `value`.
    pub fn from(value: u16) -> (r: DualRegister)
        ensures
            r@ == value,
            r.high@ == high_byte(value),
            r.low@ == low_byte(value),
    {
        let mut r = DualRegister::new();
        r.set(value);
        r
    }

    /// The high byte followed by the low byte.
    pub fn get(&self) -> (r: u16)
        ensures
            r == self@,
    {
        proof {
            lemma_byte_ops();
        }
        ((self.high.get() as u16) << 8u16) | (self.low.get() as u16)
    }

    pub fn set(&mut self, value: u16)
        ensures
            final(self)@ == value,
            final(self).high@ == high_byte(value),
            final(self).low@ == low_byte(value),
    {
        proof {
            lemma_byte_ops();
            lemma_join_split();
        }
        self.low.set(value as u8);
        self.high.set((value >> 8u16) as u8);
    }

    /// Adds one; the value must not be at its maximum.
    pub fn increment(&mut self)
        requires
            old(self)@ < 0xFFFF,
        ensures
            final(self)@ == old(self)@ + 1,
    {
        let current_value = self.get();
        self.set(current_value + 1);
    }

    /// Subtracts one; the value must not be zero.
    pub fn decrement(&mut self)
        requires
            old(self)@ > 0,
        ensures
            final(self)@ == old(self)@ - 1,
    {
        let current_value = self.get();
        self.set(current_value - 1);
    }
}

} // verus!

verus! {

/// `v` brought into the range of a `u16` by wrapping around.
pub open spec fn wrap16(v: int) -> u16 {
    (v % 65536) as u16
}

/// `v` brought into the range of a `u8` by wrapping around.
pub open spec fn wrap8(v: int) -> u8 {
    (v % 256) as u8
}

/// A 16-bit register that wraps around when stepped past either end.
pub trait Register: View<V = u16> {
    fn get(&self) -> (r: u16)
        ensures
            r == self@,
    ;

    fn set(&mut self, value: u16)
        ensures
            final(self)@ == value,
    ;

    fn increment(&mut self)
        ensures
            final(self)@ == wrap16(old(self)@ + 1),
    ;

    fn decrement(&mut self)
        ensures
            final(self)@ == wrap16(old(self)@ - 1),
    ;
}

} // verus!
