use vstd::prelude::*;
use crate::bit::Bit;
use crate::nybble::Nybble;

verus! {

/// A walk over the bits of a [`Nybble`], most significant first. After the
/// fourth bit it yields `None` once and starts over.
pub struct IterableNybble<'a> {
    nybble: &'a Nybble,
    current_index: u8,
}

impl<'a> IterableNybble<'a> {
    /// The nybble being walked.
    pub closed spec fn nybble(&self) -> Nybble {
        *self.nybble
    }

    /// How many bits have been handed out since the walk last started.
    pub closed spec fn position(&self) -> nat {
        self.current_index as nat
    }

    pub closed spec fn wf(&self) -> bool {
        self.current_index <= 4
    }

    pub fn new(nybble: &'a Nybble) -> (r: Self)
        ensures
            r.nybble() == *nybble,
            r.position() == 0,
            r.wf(),
    {
        IterableNybble { nybble, current_index: 0 }
    }

    /// The next bit, or `None` after the fourth, in which case the walk is
    /// back at its start.
    pub fn next(&mut self) -> (r: Option<Bit>)
        requires
            old(self).wf(),
        ensures
            final(self).wf(),
            final(self).nybble() == old(self).nybble(),
            old(self).position() < 4 ==> r == Some(old(self).nybble().bits()[old(self).position() as int])
                && final(self).position() == old(self).position() + 1,
            old(self).position() >= 4 ==> r.is_none() && final(self).position() == 0,
    {
        let current_index = self.current_index;
        if current_index >= 4 {
            self.current_index = 0;
            None
        } else {
            self.current_index = current_index + 1;
            Some(self.nybble.get_bit(3 - current_index))
        }
    }
}

} // verus!
