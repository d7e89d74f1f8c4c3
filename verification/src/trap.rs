//! The service routines behind the TRAP instruction.

use crate::bits::{high_byte_of, low_byte_of, wrapping_sum};
use vstd::prelude::*;

verus! {

/// The service routines, in the order of their vectors `0x20` to `0x25`.
#[derive(Clone, Copy, Debug, PartialEq, Eq, Structural)]
pub enum Trap {
    /// Read one key into R0, without echo.
    GETC,
    /// Write the character in the low byte of R0.
    OUT,
    /// Write the string at the address in R0, one character per word.
    PUTS,
    /// Prompt, read one key into R0 and echo it.
    IN,
    /// Write the string at the address in R0, two characters per word.
    PUTSP,
    /// Write the halt notice and stop.
    HALT,
}

impl Trap {
    /// The routine that a trap vector selects, if any.
    pub open spec fn of_vector(vector: u8) -> Option<Trap> {
        if vector == 0x20 {
            Some(Trap::GETC)
        } else if vector == 0x21 {
            Some(Trap::OUT)
        } else if vector == 0x22 {
            Some(Trap::PUTS)
        } else if vector == 0x23 {
            Some(Trap::IN)
        } else if vector == 0x24 {
            Some(Trap::PUTSP)
        } else if vector == 0x25 {
            Some(Trap::HALT)
        } else {
            None
        }
    }

    /// The vector that selects the routine.
    pub open spec fn vector_of(self) -> u8 {
        match self {
            Trap::GETC => 0x20,
            Trap::OUT => 0x21,
            Trap::PUTS => 0x22,
            Trap::IN => 0x23,
            Trap::PUTSP => 0x24,
            Trap::HALT => 0x25,
        }
    }

    /// Whether the routine needs a key from the keyboard.
    pub open spec fn reads_key(self) -> bool {
        self == Trap::GETC || self == Trap::IN
    }

    /// Finds the routine that a trap vector selects.
    pub fn from_vector(vector: u8) -> (trap: Option<Trap>)
        ensures
            trap == Trap::of_vector(vector),
            trap matches Some(t) ==> t.vector_of() == vector,
    {
        match vector {
            0x20 => Some(Trap::GETC),
            0x21 => Some(Trap::OUT),
            0x22 => Some(Trap::PUTS),
            0x23 => Some(Trap::IN),
            0x24 => Some(Trap::PUTSP),
            0x25 => Some(Trap::HALT),
            _ => None,
        }
    }

    /// The vector that selects this routine.
    pub fn vector(self) -> (vector: u8)
        ensures
            vector == self.vector_of(),
            Trap::of_vector(vector) == Some(self),
    {
        match self {
            Trap::GETC => 0x20,
            Trap::OUT => 0x21,
            Trap::PUTS => 0x22,
            Trap::IN => 0x23,
            Trap::PUTSP => 0x24,
            Trap::HALT => 0x25,
        }
    }
}

/// The text `Enter a character: ` that IN writes before it reads.
pub open spec fn prompt_text() -> Seq<u8> {
    seq![
        0x45u8, 0x6E, 0x74, 0x65, 0x72, 0x20, 0x61, 0x20, 0x63, 0x68, 0x61, 0x72, 0x61, 0x63,
        0x74, 0x65, 0x72, 0x3A, 0x20,
    ]
}

/// The text `HALT` and a line feed that HALT writes before it stops.
pub open spec fn halt_text() -> Seq<u8> {
    seq![0x48u8, 0x41, 0x4C, 0x54, 0x0A]
}

/// The characters of the string that starts at `start`, one per word in
/// the low byte, up to the first zero word. The address wraps around at
/// the end of memory, and at most `limit` words are looked at.
pub open spec fn word_string(memory: Seq<u16>, start: u16, limit: nat) -> Seq<u8>
    decreases limit,
{
    if limit == 0 || memory[start as int] == 0 {
        Seq::empty()
    } else {
        seq![low_byte_of(memory[start as int])] + word_string(
            memory,
            wrapping_sum(start, 1),
            (limit - 1) as nat,
        )
    }
}

/// The characters packed into one word: the low byte, then the high byte
/// unless it is zero.
pub open spec fn packed_chars(word: u16) -> Seq<u8> {
    if high_byte_of(word) == 0 {
        seq![low_byte_of(word)]
    } else {
        seq![low_byte_of(word), high_byte_of(word)]
    }
}

/// The characters of the string that starts at `start`, two per word,
/// up to the first zero word. The address wraps around at the end of
/// memory, and at most `limit` words are looked at.
pub open spec fn packed_string(memory: Seq<u16>, start: u16, limit: nat) -> Seq<u8>
    decreases limit,
{
    if limit == 0 || memory[start as int] == 0 {
        Seq::empty()
    } else {
        packed_chars(memory[start as int]) + packed_string(
            memory,
            wrapping_sum(start, 1),
            (limit - 1) as nat,
        )
    }
}

} // verus!
