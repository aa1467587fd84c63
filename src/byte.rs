use vstd::prelude::*;
use crate::nybble::Nybble;

verus! {

/// An 8-bit memory cell made of a high and a low [`Nybble`]. Its value is
/// `high * 16 + low`; arithmetic on it wraps modulo 256.
#[derive(Clone, Copy, Debug, PartialEq, Eq, Structural)]
pub struct Byte {
    high: Nybble,
    low: Nybble,
}

impl Byte {
    /// The unsigned integer that the cell holds, in `0..256`.
    pub closed spec fn value(self) -> nat {
        self.high.value() * 16 + self.low.value()
    }

    pub closed spec fn high_spec(self) -> Nybble {
        self.high
    }

    pub closed spec fn low_spec(self) -> Nybble {
        self.low
    }

    pub proof fn lemma_value_bound(self)
        ensures
            self.value() < 256,
    {
        self.high.lemma_value_bound();
        self.low.lemma_value_bound();
    }

    /// Two cells with the same value are the same cell.
    pub proof fn lemma_value_determines(self, other: Byte)
        requires
            self.value() == other.value(),
        ensures
            self == other,
    {
        self.high.lemma_value_bound();
        self.low.lemma_value_bound();
        other.high.lemma_value_bound();
        other.low.lemma_value_bound();
        self.high.lemma_value_determines(other.high);
        self.low.lemma_value_determines(other.low);
    }

    /// Puts two nybbles together, `high` above `low`.
    pub fn from_nybbles(high: Nybble, low: Nybble) -> (r: Byte)
        ensures
            r.high_spec() == high,
            r.low_spec() == low,
            r.value() == high.value() * 16 + low.value(),
    {
        Byte { high, low }
    }

    pub fn from_u8(n: u8) -> (r: Byte)
        ensures
            r.value() == n as nat,
    {
        let high = Nybble::from_u8(n / 16);
        let low = Nybble::from_u8(n % 16);
        Byte { high, low }
    }

    pub fn to_u8(&self) -> (r: u8)
        ensures
            r as nat == self.value(),
    {
        proof {
            self.high.lemma_value_bound();
            self.low.lemma_value_bound();
        }
        self.high.to_u8() * 16 + self.low.to_u8()
    }

    pub fn high(&self) -> (r: Nybble)
        ensures
            r == self.high_spec(),
    {
        self.high
    }

    pub fn low(&self) -> (r: Nybble)
        ensures
            r == self.low_spec(),
    {
        self.low
    }

    /// Whether the cell holds zero.
    pub fn is_zero(&self) -> (r: bool)
        ensures
            r == (self.value() == 0),
    {
        self.to_u8() == 0
    }

    /// Adds one, wrapping from 255 to 0: the low nybble counts up and carries
    /// into the high one when it wraps.
    pub fn increment(&mut self)
        ensures
            final(self).value() == (old(self).value() + 1) % 256,
    {
        proof {
            self.high.lemma_value_bound();
            self.low.lemma_value_bound();
        }
        self.low.increment();
        if self.low.to_u8() == 0 {
            self.high.increment();
        }
    }

    /// Subtracts one, wrapping from 0 to 255: the low nybble counts down and
    /// borrows from the high one when it wraps.
    pub fn decrement(&mut self)
        ensures
            final(self).value() == (old(self).value() + 255) % 256,
    {
        proof {
            self.high.lemma_value_bound();
            self.low.lemma_value_bound();
        }
        self.low.decrement();
        if self.low.to_u8() == 15 {
            self.high.decrement();
        }
    }
}

impl Default for Byte {
    /// The zero cell.
    fn default() -> (r: Byte)
        ensures
            r.value() == 0,
    {
        Byte::from_u8(0)
    }
}

/// Reading back a cell built from an integer gives that integer.
pub proof fn lemma_byte_round_trip(n: u8, b: Byte, m: u8)
    requires
        b.value() == n as nat,
        m as nat == b.value(),
    ensures
        m == n,
{
}

/// Incrementing undoes decrementing and decrementing undoes incrementing, on
/// every cell, across the 0/255 boundary too.
pub proof fn lemma_increment_decrement_inverse(b: Byte, up: Byte, down: Byte, up_down: Byte, down_up: Byte)
    requires
        up.value() == (b.value() + 1) % 256,
        down.value() == (b.value() + 255) % 256,
        up_down.value() == (up.value() + 255) % 256,
        down_up.value() == (down.value() + 1) % 256,
    ensures
        up_down == b,
        down_up == b,
{
    b.lemma_value_bound();
    b.lemma_value_determines(up_down);
    b.lemma_value_determines(down_up);
}

} // verus!
