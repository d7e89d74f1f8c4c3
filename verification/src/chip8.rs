//! A small CHIP-8 machine: state, instruction fetch and the handful of
//! instructions it knows.

use crate::bits::{join_bytes, word_of_bytes};
use vstd::prelude::*;

verus! {

/// Width of the display in pixels.
pub const CHIP8_WIDTH: u32 = 64;

/// Height of the display in pixels.
pub const CHIP8_HEIGHT: u32 = 32;

/// Address at which a program starts.
pub const CHIP8_START: u16 = 0x200;

/// The mathematical content of a CHIP-8 machine.
#[verifier::ext_equal]
pub struct Chip8View {
    pub memory: Seq<u8>,
    pub display: Seq<u8>,
    pub pc: u16,
    pub i: u16,
    pub stack: Seq<u16>,
    pub delay_timer: u8,
    pub sound_timer: u8,
    pub reg: Seq<u8>,
}

/// What the driver has to do after an instruction.
#[derive(Clone, Copy, Debug, PartialEq, Eq, Structural)]
pub enum Chip8Action {
    /// Nothing: the instruction changed the machine only.
    Proceed,
    /// The instruction asks for the screen to be cleared.
    ClearScreen,
    /// The instruction is not one that the machine knows.
    Unrecognized,
}

/// The first nibble of an instruction: its kind.
pub open spec fn kind_of(opcode: u16) -> u16 {
    (opcode & 0xF000) >> 12
}

/// The second nibble of an instruction: a register.
pub open spec fn x_of(opcode: u16) -> u16 {
    (opcode & 0x0F00) >> 8
}

/// The third nibble of an instruction: a register.
pub open spec fn y_of(opcode: u16) -> u16 {
    (opcode & 0x00F0) >> 4
}

/// The fourth nibble of an instruction: a row count.
pub open spec fn n_of(opcode: u16) -> u8 {
    (opcode & 0x000F) as u8
}

/// The low byte of an instruction: a constant.
pub open spec fn nn_of(opcode: u16) -> u8 {
    (opcode & 0x00FF) as u8
}

/// The low twelve bits of an instruction: an address.
pub open spec fn nnn_of(opcode: u16) -> u16 {
    opcode & 0x0FFF
}

/// Addition modulo 256.
pub open spec fn wrapping_sum_u8(a: u8, b: u8) -> u8 {
    ((a + b) % 256) as u8
}

impl Chip8View {
    /// The machine as it is built: everything zero, the stack empty,
    /// the program counter at the start address.
    pub open spec fn initial() -> Chip8View {
        Chip8View {
            memory: Seq::new(4096, |k: int| 0u8),
            display: Seq::new(2048, |k: int| 0u8),
            pc: CHIP8_START,
            i: 0,
            stack: Seq::empty(),
            delay_timer: 0,
            sound_timer: 0,
            reg: Seq::new(16, |k: int| 0u8),
        }
    }

    /// Whether an instruction can be fetched: both of its bytes are in
    /// memory.
    pub open spec fn can_fetch(self) -> bool {
        self.pc + 1 < 4096
    }

    /// The instruction at the program counter, high byte first.
    pub open spec fn instruction(self) -> u16 {
        word_of_bytes(self.memory[self.pc as int], self.memory[self.pc + 1])
    }

    /// Whether an instruction can be executed: the sprite rows of a
    /// draw instruction are in memory.
    pub open spec fn can_execute(self, opcode: u16) -> bool {
        kind_of(opcode) == 0xD && n_of(opcode) > 0 ==> self.i + n_of(opcode) <= 4096
    }

    /// Column of the pixel that a draw instruction looks at.
    pub open spec fn x_pos(self, opcode: u16) -> int {
        (self.reg[x_of(opcode) as int] % 64) as int
    }

    /// Row of the pixel that a draw instruction looks at.
    pub open spec fn y_pos(self, opcode: u16) -> int {
        (self.reg[y_of(opcode) as int] % 32) as int
    }

    /// Position in the display of the pixel that a draw instruction
    /// looks at.
    pub open spec fn pixel(self, opcode: u16) -> int {
        self.x_pos(opcode) + self.y_pos(opcode) * 64
    }

    /// The machine after a draw instruction: register VF is zero, and
    /// the pixel is cleared if the instruction has rows, the pixel is
    /// left of column 31 and its value is odd.
    pub open spec fn drawn(self, opcode: u16) -> Chip8View {
        let at = self.pixel(opcode);
        Chip8View {
            reg: self.reg.update(0xF, 0),
            display: if n_of(opcode) > 0 && self.x_pos(opcode) < 31 && self.display[at] & 1
                == 1 {
                self.display.update(at, 0)
            } else {
                self.display
            },
            ..self
        }
    }

    /// The machine after an instruction.
    pub open spec fn executed(self, opcode: u16) -> Chip8View {
        let kind = kind_of(opcode);
        if opcode == 0x00E0 {
            self
        } else if kind == 0x1 {
            Chip8View { pc: nnn_of(opcode), ..self }
        } else if kind == 0x6 {
            Chip8View { reg: self.reg.update(x_of(opcode) as int, nn_of(opcode)), ..self }
        } else if kind == 0x7 {
            Chip8View {
                reg: self.reg.update(
                    x_of(opcode) as int,
                    wrapping_sum_u8(self.reg[x_of(opcode) as int], nn_of(opcode)),
                ),
                ..self
            }
        } else if kind == 0xA {
            Chip8View { i: nnn_of(opcode), ..self }
        } else if kind == 0xD {
            self.drawn(opcode)
        } else {
            self
        }
    }
}

/// What the driver has to do after an instruction.
pub open spec fn action_of(opcode: u16) -> Chip8Action {
    let kind = kind_of(opcode);
    if opcode == 0x00E0 {
        Chip8Action::ClearScreen
    } else if kind == 0x1 || kind == 0x6 || kind == 0x7 || kind == 0xA || kind == 0xD {
        Chip8Action::Proceed
    } else {
        Chip8Action::Unrecognized
    }
}

/// A CHIP-8 machine.
pub struct Chip8 {
    pub memory: [u8; 4096],
    pub display: [u8; 2048],
    pub pc: u16,
    pub i: u16,
    pub stack: Vec<u16>,
    pub delay_timer: u8,
    pub sound_timer: u8,
    pub reg: [u8; 16],
}

impl View for Chip8 {
    type V = Chip8View;

    open spec fn view(&self) -> Chip8View {
        Chip8View {
            memory: self.memory@,
            display: self.display@,
            pc: self.pc,
            i: self.i,
            stack: self.stack@,
            delay_timer: self.delay_timer,
            sound_timer: self.sound_timer,
            reg: self.reg@,
        }
    }
}

impl Chip8 {
    /// A machine with everything zero and the program counter at
    /// `0x200`.
    pub fn new() -> (chip8: Chip8)
        ensures
            chip8@ == Chip8View::initial(),
    {
        Chip8 {
            memory: [0; 4096],
            display: [0; 2048],
            pc: 0x200,
            i: 0,
            stack: Vec::new(),
            delay_timer: 0,
            sound_timer: 0,
            reg: [0; 16],
        }
    }

    /// Reads the two-byte instruction at the program counter, high byte
    /// first, and moves the program counter behind it.
    pub fn fetch(&mut self) -> (opcode: u16)
        requires
            old(self)@.can_fetch(),
        ensures
            opcode == old(self)@.instruction(),
            final(self)@ == (Chip8View { pc: (old(self).pc + 2) as u16, ..old(self)@ }),
    {
        let upper = self.memory[self.pc as usize];
        let lower = self.memory[(self.pc as usize) + 1];
        self.pc += 2;
        join_bytes(upper, lower)
    }

    /// The draw instruction.
    fn draw(&mut self, opcode: u16)
        requires
            n_of(opcode) > 0 ==> old(self).i + n_of(opcode) <= 4096,
        ensures
            final(self)@ == old(self)@.drawn(opcode),
    {
        assert((opcode & 0x0F00) >> 8 < 16) by (bit_vector);
        assert((opcode & 0x00F0) >> 4 < 16) by (bit_vector);
        assert(opcode & 0x000F < 16) by (bit_vector);
        let x: usize = ((opcode & 0x0F00) >> 8) as usize;
        let y: usize = ((opcode & 0x00F0) >> 4) as usize;
        let n: u8 = (opcode & 0x000F) as u8;
        let x_pos: u16 = self.reg[x] as u16 % 64;
        let y_pos: u16 = self.reg[y] as u16 % 32;
        let at: usize = x_pos as usize + y_pos as usize * CHIP8_WIDTH as usize;
        self.reg[0xF] = 0;
        let ghost lit: u8 = old(self).display[at as int];
        let ghost clears: bool = x_pos < 31 && lit & 1 == 1;
        let mut row: u8 = 0;
        while row < n
            invariant
                row <= n,
                n < 16,
                at < 2048,
                at == x_pos + y_pos * 64,
                x_pos < 64,
                y_pos < 32,
                n > 0 ==> self.i + n <= 4096,
                clears == (x_pos < 31 && lit & 1 == 1),
                lit == old(self).display[at as int],
                self@ == (Chip8View {
                    reg: old(self)@.reg.update(0xF, 0),
                    display: if row > 0 && clears {
                        old(self)@.display.update(at as int, 0)
                    } else {
                        old(self)@.display
                    },
                    ..old(self)@
                }),
            decreases n - row,
        {
            let _sprite = self.memory[self.i as usize + row as usize];
            let mut bit: u8 = 0;
            while bit < 8
                invariant
                    bit <= 8,
                    row < n,
                    at < 2048,
                    at == x_pos + y_pos * 64,
                    x_pos < 64,
                    y_pos < 32,
                    clears == (x_pos < 31 && lit & 1 == 1),
                    lit == old(self).display[at as int],
                    self@ == (Chip8View {
                        reg: old(self)@.reg.update(0xF, 0),
                        display: if (row > 0 || bit > 1) && clears {
                            old(self)@.display.update(at as int, 0)
                        } else {
                            old(self)@.display
                        },
                        ..old(self)@
                    }),
                decreases 8 - bit,
            {
                if (x_pos as u32 + bit as u32) < CHIP8_HEIGHT && (y_pos as u32 + row as u32)
                    < CHIP8_WIDTH {
                    let seen: u8 = self.display[at];
                    assert(bit & seen == 1 ==> seen & 1 == 1 && bit & 1 == 1) by (bit_vector);
                    assert(bit == 1 && seen & 1 == 1 ==> bit & seen == 1) by (bit_vector);
                    assert(bit & 1 == 1 ==> bit >= 1) by (bit_vector);
                    assert(0u8 & 1 == 0) by (bit_vector);
                    if bit & seen == 1 {
                        self.display[at] = 0;
                    }
                }
                bit += 1;
            }
            row += 1;
        }
    }

    /// Executes one instruction and says what is left for the driver
    /// to do. Register addition wraps around at 256.
    pub fn execute(&mut self, opcode: u16) -> (action: Chip8Action)
        requires
            old(self)@.can_execute(opcode),
        ensures
            final(self)@ == old(self)@.executed(opcode),
            action == action_of(opcode),
    {
        assert((opcode & 0x0F00) >> 8 < 16) by (bit_vector);
        assert(opcode & 0x00FF < 256) by (bit_vector);
        assert(opcode == 0x00E0 ==> (opcode & 0xF000) >> 12 == 0) by (bit_vector);
        let kind: u16 = (opcode & 0xF000) >> 12;
        let x: usize = ((opcode & 0x0F00) >> 8) as usize;
        let nn: u8 = (opcode & 0x00FF) as u8;
        let nnn: u16 = opcode & 0x0FFF;
        if opcode == 0x00E0 {
            Chip8Action::ClearScreen
        } else if kind == 0x1 {
            self.pc = nnn;
            Chip8Action::Proceed
        } else if kind == 0x6 {
            self.reg[x] = nn;
            Chip8Action::Proceed
        } else if kind == 0x7 {
            self.reg[x] = self.reg[x].wrapping_add(nn);
            Chip8Action::Proceed
        } else if kind == 0xA {
            self.i = nnn;
            Chip8Action::Proceed
        } else if kind == 0xD {
            self.draw(opcode);
            Chip8Action::Proceed
        } else {
            Chip8Action::Unrecognized
        }
    }
}

} // verus!
