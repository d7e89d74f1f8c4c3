//! Names of the registers and of the memory-mapped device registers.

use vstd::prelude::*;

verus! {

/// The slots of the register file, in the order in which they are stored:
/// eight general registers, the program counter and the condition
/// register. `COUNT` names no register; it is the number of slots.
#[derive(Clone, Copy, Debug, PartialEq, Eq, Structural)]
pub enum Register {
    R0,
    R1,
    R2,
    R3,
    R4,
    R5,
    R6,
    R7,
    PC,
    COND,
    COUNT,
}

impl Register {
    /// The position of the slot in the register file (10 for `COUNT`).
    pub open spec fn slot(self) -> int {
        match self {
            Register::R0 => 0,
            Register::R1 => 1,
            Register::R2 => 2,
            Register::R3 => 3,
            Register::R4 => 4,
            Register::R5 => 5,
            Register::R6 => 6,
            Register::R7 => 7,
            Register::PC => 8,
            Register::COND => 9,
            Register::COUNT => 10,
        }
    }

    /// The position of the slot in the register file.
    pub fn index(self) -> (i: usize)
        ensures
            i == self.slot(),
            i <= 10,
            self != Register::COUNT ==> i < 10,
    {
        match self {
            Register::R0 => 0,
            Register::R1 => 1,
            Register::R2 => 2,
            Register::R3 => 3,
            Register::R4 => 4,
            Register::R5 => 5,
            Register::R6 => 6,
            Register::R7 => 7,
            Register::PC => 8,
            Register::COND => 9,
            Register::COUNT => 10,
        }
    }
}

/// Address of the keyboard status register.
pub const KEYBOARD_STATUS: u16 = 0xFE00;

/// Address of the keyboard data register.
pub const KEYBOARD_DATA: u16 = 0xFE02;

/// The device registers that overlay the address space.
#[allow(non_camel_case_types)]
#[derive(Clone, Copy, Debug, PartialEq, Eq, Structural)]
pub enum MemMapReg {
    /// Keyboard status: bit 15 is set while a key is available.
    MR_KBSR,
    /// Keyboard data: the key that the last successful poll took.
    MR_KBDR,
}

impl MemMapReg {
    /// The address that the device register occupies.
    pub open spec fn addr(self) -> u16 {
        match self {
            MemMapReg::MR_KBSR => KEYBOARD_STATUS,
            MemMapReg::MR_KBDR => KEYBOARD_DATA,
        }
    }

    /// The device register at an address, if there is one.
    pub open spec fn at(addr: u16) -> Option<MemMapReg> {
        if addr == KEYBOARD_STATUS {
            Some(MemMapReg::MR_KBSR)
        } else if addr == KEYBOARD_DATA {
            Some(MemMapReg::MR_KBDR)
        } else {
            None
        }
    }

    /// The address that the device register occupies.
    pub fn address(self) -> (a: u16)
        ensures
            a == self.addr(),
            MemMapReg::at(a) == Some(self),
    {
        match self {
            MemMapReg::MR_KBSR => KEYBOARD_STATUS,
            MemMapReg::MR_KBDR => KEYBOARD_DATA,
        }
    }

    /// Finds the device register that an address is aliased to. Every
    /// other address is plain storage.
    pub fn lookup(addr: u16) -> (reg: Option<MemMapReg>)
        ensures
            reg == MemMapReg::at(addr),
    {
        if addr == KEYBOARD_STATUS {
            Some(MemMapReg::MR_KBSR)
        } else if addr == KEYBOARD_DATA {
            Some(MemMapReg::MR_KBDR)
        } else {
            None
        }
    }
}

} // verus!
