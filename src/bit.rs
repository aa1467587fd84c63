use vstd::prelude::*;

verus! {

/// A single binary digit.
#[derive(Clone, Copy, Debug, PartialEq, Eq, Structural)]
pub enum Bit {
    Zero,
    One,
}

impl Bit {
    /// The numeric value of the bit: 0 or 1.
    pub open spec fn value(self) -> nat {
        match self {
            Bit::Zero => 0,
            Bit::One => 1,
        }
    }

    pub fn zero() -> (r: Bit)
        ensures
            r == Bit::Zero,
    {
        Bit::Zero
    }

    pub fn one() -> (r: Bit)
        ensures
            r == Bit::One,
    {
        Bit::One
    }

    /// `true` becomes `One`, `false` becomes `Zero`.
    pub fn from_bool(b: bool) -> (r: Bit)
        ensures
            r.value() == (if b { 1nat } else { 0nat }),
    {
        if b {
            Bit::One
        } else {
            Bit::Zero
        }
    }

    /// Whether the bit is `One`.
    pub fn is_set(&self) -> (r: bool)
        ensures
            r == (self.value() == 1),
    {
        match self {
            Bit::Zero => false,
            Bit::One => true,
        }
    }

    pub fn to_u8(&self) -> (r: u8)
        ensures
            r as nat == self.value(),
    {
        match self {
            Bit::Zero => 0,
            Bit::One => 1,
        }
    }
}

} // verus!
