use vstd::prelude::*;
use crate::bit::Bit;
use crate::iterable_nybble::IterableNybble;

verus! {

/// Four bits. `bit_0` is the least significant and `bit_3` the most; bit `i`
/// weighs `2^i`, and `get_bit` indexes by that weight. Iteration goes most
/// significant first, from `bit_3` down to `bit_0`.
#[derive(Clone, Copy, Debug, PartialEq, Eq, Structural)]
pub struct Nybble {
    bit_0: Bit,
    bit_1: Bit,
    bit_2: Bit,
    bit_3: Bit,
}

impl Nybble {
    /// The unsigned integer that the four bits stand for, in `0..16`.
    pub closed spec fn value(self) -> nat {
        self.bit_0.value() + 2 * self.bit_1.value() + 4 * self.bit_2.value() + 8
            * self.bit_3.value()
    }

    /// The bits in iteration order, most significant first.
    pub closed spec fn bits(self) -> Seq<Bit> {
        seq![self.bit_3, self.bit_2, self.bit_1, self.bit_0]
    }

    pub proof fn lemma_value_bound(self)
        ensures
            self.value() < 16,
            self.bits().len() == 4,
    {
    }

    /// Two nybbles with the same value are the same nybble.
    pub proof fn lemma_value_determines(self, other: Nybble)
        requires
            self.value() == other.value(),
        ensures
            self == other,
    {
    }

    /// Keeps the low four bits of `n`.
    pub fn from_u8(n: u8) -> (r: Nybble)
        ensures
            r.value() == n as nat % 16,
            r.bits()[0].value() == (n as nat % 16) / 8,
            r.bits()[1].value() == (n as nat % 16) / 4 % 2,
            r.bits()[2].value() == (n as nat % 16) / 2 % 2,
            r.bits()[3].value() == n as nat % 2,
    {
        let mut rest: u8 = n % 16;
        let bit_3 = Bit::from_bool(rest >= 8);
        if rest >= 8 {
            rest = rest - 8;
        }
        let bit_2 = Bit::from_bool(rest >= 4);
        if rest >= 4 {
            rest = rest - 4;
        }
        let bit_1 = Bit::from_bool(rest >= 2);
        if rest >= 2 {
            rest = rest - 2;
        }
        let bit_0 = Bit::from_bool(rest >= 1);
        Nybble { bit_0, bit_1, bit_2, bit_3 }
    }

    pub fn to_u8(&self) -> (r: u8)
        ensures
            r as nat == self.value(),
    {
        self.bit_0.to_u8() + 2 * self.bit_1.to_u8() + 4 * self.bit_2.to_u8() + 8
            * self.bit_3.to_u8()
    }

    /// The bit of weight `2^index`.
    pub fn get_bit(&self, index: u8) -> (r: Bit)
        requires
            index < 4,
        ensures
            r == self.bits()[3 - index],
    {
        match index {
            0 => self.bit_0,
            1 => self.bit_1,
            2 => self.bit_2,
            _ => self.bit_3,
        }
    }

    /// Adds one, wrapping from 15 to 0.
    pub fn increment(&mut self)
        ensures
            final(self).value() == (old(self).value() + 1) % 16,
    {
        let v = self.to_u8();
        *self = Nybble::from_u8(v + 1);
    }

    /// Subtracts one, wrapping from 0 to 15.
    pub fn decrement(&mut self)
        ensures
            final(self).value() == (old(self).value() + 15) % 16,
    {
        let v = self.to_u8();
        *self = Nybble::from_u8(v + 15);
    }

    /// A restartable walk over the four bits, most significant first.
    pub fn iter(&self) -> (r: IterableNybble<'_>)
        ensures
            r.nybble() == *self,
            r.position() == 0,
            r.wf(),
    {
        IterableNybble::new(self)
    }
}

/// Reads a sequence of bits as a binary number whose first bit is the most
/// significant.
pub open spec fn binary_value(bits: Seq<Bit>) -> nat
    decreases bits.len(),
{
    if bits.len() == 0 {
        0
    } else {
        2 * binary_value(bits.drop_last()) + bits.last().value()
    }
}

/// The four bits of a nybble, read as binary in iteration order, give its
/// value; the bit at position `p` is the one of weight `2^(3 - p)`.
pub proof fn lemma_bits_read_as_binary(n: Nybble)
    ensures
        n.bits().len() == 4,
        binary_value(n.bits()) == n.value(),
        n.bits()[0].value() == n.value() / 8,
        n.bits()[1].value() == n.value() / 4 % 2,
        n.bits()[2].value() == n.value() / 2 % 2,
        n.bits()[3].value() == n.value() % 2,
{
    let s = n.bits();
    reveal_with_fuel(binary_value, 5);
    assert(s.drop_last() =~= seq![n.bit_3, n.bit_2, n.bit_1]);
    assert(s.drop_last().drop_last() =~= seq![n.bit_3, n.bit_2]);
    assert(s.drop_last().drop_last().drop_last() =~= seq![n.bit_3]);
    assert(s.drop_last().drop_last().drop_last().drop_last() =~= Seq::<Bit>::empty());
}

} // verus!
