//! The sixteen instruction classes.

use vstd::prelude::*;

verus! {

/// The instruction class selected by the top four bits of an instruction
/// word. The variants are listed in the order of their codes, 0 to 15.
#[derive(Clone, Copy, Debug, PartialEq, Eq, Structural)]
pub enum Opcode {
    /// Conditional branch.
    BR,
    /// Addition.
    ADD,
    /// Load, relative to the program counter.
    LD,
    /// Store, relative to the program counter.
    ST,
    /// Jump to subroutine.
    JSR,
    /// Bitwise and.
    AND,
    /// Load, relative to a base register.
    LDR,
    /// Store, relative to a base register.
    STR,
    /// Unused; executing it is a fault.
    RTI,
    /// Bitwise complement.
    NOT,
    /// Load through a pointer in memory.
    LDI,
    /// Store through a pointer in memory.
    STI,
    /// Jump to the address in a register.
    JMP,
    /// Reserved; executing it is a fault.
    RES,
    /// Load an effective address.
    LEA,
    /// Service call.
    TRAP,
}

impl Opcode {
    /// The instruction class with the given code. Codes above 15 do not
    /// occur in a four-bit field; the function maps them to `TRAP` so that
    /// it is total.
    pub open spec fn from_code(index: u16) -> Opcode {
        if index == 0 {
            Opcode::BR
        } else if index == 1 {
            Opcode::ADD
        } else if index == 2 {
            Opcode::LD
        } else if index == 3 {
            Opcode::ST
        } else if index == 4 {
            Opcode::JSR
        } else if index == 5 {
            Opcode::AND
        } else if index == 6 {
            Opcode::LDR
        } else if index == 7 {
            Opcode::STR
        } else if index == 8 {
            Opcode::RTI
        } else if index == 9 {
            Opcode::NOT
        } else if index == 10 {
            Opcode::LDI
        } else if index == 11 {
            Opcode::STI
        } else if index == 12 {
            Opcode::JMP
        } else if index == 13 {
            Opcode::RES
        } else if index == 14 {
            Opcode::LEA
        } else {
            Opcode::TRAP
        }
    }

    /// The four-bit code of an instruction class.
    pub open spec fn code_of(self) -> u16 {
        match self {
            Opcode::BR => 0,
            Opcode::ADD => 1,
            Opcode::LD => 2,
            Opcode::ST => 3,
            Opcode::JSR => 4,
            Opcode::AND => 5,
            Opcode::LDR => 6,
            Opcode::STR => 7,
            Opcode::RTI => 8,
            Opcode::NOT => 9,
            Opcode::LDI => 10,
            Opcode::STI => 11,
            Opcode::JMP => 12,
            Opcode::RES => 13,
            Opcode::LEA => 14,
            Opcode::TRAP => 15,
        }
    }

    /// Whether executing the class is a fault.
    pub open spec fn is_reserved(self) -> bool {
        self == Opcode::RTI || self == Opcode::RES
    }

    /// The instruction class of an instruction word: the class whose code
    /// is in bits 15 to 12.
    pub open spec fn of_word(instr: u16) -> Opcode {
        Opcode::from_code(instr >> 12)
    }

    /// Looks up the instruction class with the given four-bit code.
    pub fn get(index: u16) -> (op: Opcode)
        requires
            index < 16,
        ensures
            op == Opcode::from_code(index),
            op.code_of() == index,
    {
        match index {
            0 => Opcode::BR,
            1 => Opcode::ADD,
            2 => Opcode::LD,
            3 => Opcode::ST,
            4 => Opcode::JSR,
            5 => Opcode::AND,
            6 => Opcode::LDR,
            7 => Opcode::STR,
            8 => Opcode::RTI,
            9 => Opcode::NOT,
            10 => Opcode::LDI,
            11 => Opcode::STI,
            12 => Opcode::JMP,
            13 => Opcode::RES,
            14 => Opcode::LEA,
            _ => Opcode::TRAP,
        }
    }

    /// The four-bit code of this class.
    pub fn code(self) -> (index: u16)
        ensures
            index == self.code_of(),
            index < 16,
            Opcode::from_code(index) == self,
    {
        match self {
            Opcode::BR => 0,
            Opcode::ADD => 1,
            Opcode::LD => 2,
            Opcode::ST => 3,
            Opcode::JSR => 4,
            Opcode::AND => 5,
            Opcode::LDR => 6,
            Opcode::STR => 7,
            Opcode::RTI => 8,
            Opcode::NOT => 9,
            Opcode::LDI => 10,
            Opcode::STI => 11,
            Opcode::JMP => 12,
            Opcode::RES => 13,
            Opcode::LEA => 14,
            Opcode::TRAP => 15,
        }
    }

    /// Decodes the instruction class of an instruction word.
    pub fn decode(instr: u16) -> (op: Opcode)
        ensures
            op == Opcode::of_word(instr),
    {
        let index: u16 = instr >> 12;
        assert(instr >> 12 < 16) by (bit_vector);
        Opcode::get(index)
    }
}

/// The code table is a bijection between the sixteen classes and the codes
/// 0 to 15.
pub proof fn lemma_opcode_codes_round_trip(op: Opcode, index: u16)
    ensures
        Opcode::from_code(op.code_of()) == op,
        op.code_of() < 16,
        index < 16 ==> Opcode::from_code(index).code_of() == index,
{
}

} // verus!
