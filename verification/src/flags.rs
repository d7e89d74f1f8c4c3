//! Condition codes of the register machine.

use vstd::prelude::*;

verus! {

/// The three mutually exclusive condition codes. The condition register
/// stores them as a one-hot bit mask so that a branch can test several at
/// once.
#[derive(Clone, Copy, Debug, PartialEq, Eq, Structural)]
pub enum Flags {
    /// The last written value was positive (bit 0 of the mask).
    POS,
    /// The last written value was zero (bit 1 of the mask).
    ZRO,
    /// The last written value had its sign bit set (bit 2 of the mask).
    NEG,
}

impl Flags {
    /// The one-hot mask that the condition register holds for this code.
    pub open spec fn mask(self) -> u16 {
        match self {
            Flags::POS => 1,
            Flags::ZRO => 2,
            Flags::NEG => 4,
        }
    }

    /// The condition code of a 16-bit value read as a two's-complement
    /// number: negative when bit 15 is set, zero when the value is zero,
    /// positive otherwise.
    pub open spec fn of(value: u16) -> Flags {
        if value >> 15 == 1 {
            Flags::NEG
        } else if value == 0 {
            Flags::ZRO
        } else {
            Flags::POS
        }
    }

    /// The condition code that a mask stands for, if it is one of the
    /// three masks.
    pub open spec fn of_mask(mask: u16) -> Option<Flags> {
        if mask == 1 {
            Some(Flags::POS)
        } else if mask == 2 {
            Some(Flags::ZRO)
        } else if mask == 4 {
            Some(Flags::NEG)
        } else {
            None
        }
    }

    /// The mask stored in the condition register.
    pub fn bits(self) -> (mask: u16)
        ensures
            mask == self.mask(),
    {
        match self {
            Flags::POS => 1,
            Flags::ZRO => 2,
            Flags::NEG => 4,
        }
    }

    /// Classifies a value, testing the sign bit first.
    pub fn classify(value: u16) -> (flag: Flags)
        ensures
            flag == Flags::of(value),
    {
        if value >> 15 == 1 {
            Flags::NEG
        } else if value == 0 {
            Flags::ZRO
        } else {
            Flags::POS
        }
    }

    /// The code that a mask stands for, if it is one of the three masks.
    pub fn from_bits(mask: u16) -> (flag: Option<Flags>)
        ensures
            flag == Flags::of_mask(mask),
            flag matches Some(f) ==> f.mask() == mask,
    {
        if mask == 1 {
            Some(Flags::POS)
        } else if mask == 2 {
            Some(Flags::ZRO)
        } else if mask == 4 {
            Some(Flags::NEG)
        } else {
            None
        }
    }
}

/// The sign test on bit 15 agrees with the arithmetic reading: a value is
/// negative exactly when it is at least `0x8000`, so the three codes split
/// the 16-bit values into negative, zero and positive ones.
pub proof fn lemma_flags_partition(value: u16)
    ensures
        Flags::of(value) == Flags::NEG <==> value >= 0x8000,
        Flags::of(value) == Flags::ZRO <==> value == 0,
        Flags::of(value) == Flags::POS <==> 0 < value < 0x8000,
{
    assert((value >> 15 == 1) <==> value >= 0x8000) by (bit_vector);
}

} // verus!
