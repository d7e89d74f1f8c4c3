//! The mathematical model of the machine: its state and what one
//! instruction does to it.

use crate::bits::{low_byte_of, wrapping_sum};
use crate::console::ConsoleView;
use crate::flags::Flags;
use crate::instruction::{
    dr, has_immediate, has_offset_target, imm5, offset6, pc_offset11, pc_offset9, sr1, sr2,
    trap_vector,
};
use crate::opcode::Opcode;
use crate::register::{MemMapReg, KEYBOARD_DATA, KEYBOARD_STATUS};
use crate::trap::{halt_text, packed_string, prompt_text, word_string, Trap};
use vstd::prelude::*;

verus! {

/// How a step ended when it did not fail.
#[derive(Clone, Copy, Debug, PartialEq, Eq, Structural)]
pub enum Status {
    /// The instruction was executed; the next one can follow.
    Running,
    /// The instruction is a trap that reads a key and none is available.
    /// The instruction was not executed and will be fetched again.
    AwaitingInput,
    /// The instruction was the HALT trap.
    Halted,
}

/// Why a step failed.
#[derive(Clone, Copy, Debug, PartialEq, Eq, Structural)]
pub enum VmError {
    /// The instruction word, given here, selects a reserved class.
    InvalidOpcode(u16),
    /// The trap vector, given here, selects no service routine.
    InvalidTrap(u8),
}

/// Slot of the program counter in the register file.
pub const PC_SLOT: usize = 8;

/// Slot of the condition register in the register file.
pub const COND_SLOT: usize = 9;

/// Number of slots in the register file.
pub const REGISTER_COUNT: usize = 10;

/// Number of words in memory.
pub const MEMORY_WORDS: usize = 65536;

/// Address at which execution starts.
pub const PC_START: u16 = 0x3000;

/// The state of the machine.
#[verifier::ext_equal]
pub struct Machine {
    /// The register file: R0 to R7, the program counter, the condition
    /// register.
    pub registers: Seq<u16>,
    /// The storage behind the address space.
    pub memory: Seq<u16>,
    /// Whether an IN trap has written its prompt and waits for its key.
    pub prompted: bool,
}

impl Machine {
    /// The register file has ten slots and memory has 2^16 words.
    pub open spec fn wf(self) -> bool {
        &&& self.registers.len() == REGISTER_COUNT
        &&& self.memory.len() == MEMORY_WORDS
    }

    /// The machine as it is built: registers and memory zero, the
    /// program counter at the start address, the condition code ZRO.
    pub open spec fn initial() -> Machine {
        Machine {
            registers: Seq::new(
                REGISTER_COUNT as nat,
                |i: int|
                    if i == PC_SLOT {
                        PC_START
                    } else if i == COND_SLOT {
                        Flags::ZRO.mask()
                    } else {
                        0u16
                    },
            ),
            memory: Seq::new(MEMORY_WORDS as nat, |i: int| 0u16),
            prompted: false,
        }
    }

    /// The content of a slot of the register file.
    pub open spec fn reg(self, r: u16) -> u16 {
        self.registers[r as int]
    }

    /// The program counter.
    pub open spec fn pc(self) -> u16 {
        self.registers[PC_SLOT as int]
    }

    /// The condition register.
    pub open spec fn cond(self) -> u16 {
        self.registers[COND_SLOT as int]
    }

    /// The machine with one slot of the register file replaced.
    pub open spec fn with_reg(self, r: u16, value: u16) -> Machine {
        Machine { registers: self.registers.update(r as int, value), ..self }
    }

    /// The machine with the program counter replaced.
    pub open spec fn with_pc(self, value: u16) -> Machine {
        self.with_reg(PC_SLOT as u16, value)
    }

    /// The machine with the condition register set to the code of the
    /// value in slot `r`.
    pub open spec fn with_flags_of(self, r: u16) -> Machine {
        self.with_reg(COND_SLOT as u16, Flags::of(self.reg(r)).mask())
    }

    /// The machine with the prompt mark replaced.
    pub open spec fn with_prompted(self, prompted: bool) -> Machine {
        Machine { prompted, ..self }
    }

    /// The word stored at an address.
    pub open spec fn word_at(self, addr: u16) -> u16 {
        self.memory[addr as int]
    }

    /// The machine after a write to an address: the word is stored,
    /// unless the address is that of a device register, where a write
    /// has no effect.
    pub open spec fn store(self, addr: u16, value: u16) -> Machine {
        if MemMapReg::at(addr) is Some {
            self
        } else {
            Machine { memory: self.memory.update(addr as int, value), ..self }
        }
    }

    /// The machine after the keyboard data register has taken a key.
    pub open spec fn latch_key(self, key: u8) -> Machine {
        Machine { memory: self.memory.update(KEYBOARD_DATA as int, key as u16), ..self }
    }
}

/// What a read of memory gives: the value, and the machine and console
/// afterwards.
#[verifier::ext_equal]
pub struct Access {
    pub value: u16,
    pub machine: Machine,
    pub console: ConsoleView,
}

/// A read of memory. At the keyboard status address it polls the
/// keyboard: with a key available the key moves from the console into
/// the keyboard data register and the value has bit 15 set and no other
/// bit; with none the value is zero. At every other address, the
/// keyboard data register among them, the value is the stored word.
pub open spec fn read_memory(m: Machine, c: ConsoleView, addr: u16) -> Access {
    if addr == KEYBOARD_STATUS {
        if c.has_key() {
            Access { value: 0x8000, machine: m.latch_key(c.key()), console: c.take_key() }
        } else {
            Access { value: 0, machine: m, console: c }
        }
    } else {
        Access { value: m.word_at(addr), machine: m, console: c }
    }
}

/// What a step gives: the machine and console afterwards, and how the
/// step ended.
#[verifier::ext_equal]
pub struct Transition {
    pub machine: Machine,
    pub console: ConsoleView,
    pub outcome: Result<Status, VmError>,
}

/// The address that a nine-bit offset names, relative to the program
/// counter.
pub open spec fn pc_relative(m: Machine, instr: u16) -> u16 {
    wrapping_sum(m.pc(), pc_offset9(instr))
}

/// The address that a six-bit offset names, relative to the base
/// register.
pub open spec fn base_relative(m: Machine, instr: u16) -> u16 {
    wrapping_sum(m.reg(sr1(instr)), offset6(instr))
}

/// BR: the program counter moves by the offset if the condition
/// register and the mask in bits 11 to 9 have a bit in common.
pub open spec fn after_br(m: Machine, instr: u16) -> Machine {
    if m.cond() & dr(instr) != 0 {
        m.with_pc(pc_relative(m, instr))
    } else {
        m
    }
}

/// The second operand of ADD and AND.
pub open spec fn second_operand(m: Machine, instr: u16) -> u16 {
    if has_immediate(instr) {
        imm5(instr)
    } else {
        m.reg(sr2(instr))
    }
}

/// ADD: the destination takes the sum of the operands modulo 2^16.
pub open spec fn after_add(m: Machine, instr: u16) -> Machine {
    m.with_reg(dr(instr), wrapping_sum(m.reg(sr1(instr)), second_operand(m, instr))).with_flags_of(
        dr(instr),
    )
}

/// AND: the destination takes the bitwise and of the operands.
pub open spec fn after_and(m: Machine, instr: u16) -> Machine {
    m.with_reg(dr(instr), m.reg(sr1(instr)) & second_operand(m, instr)).with_flags_of(dr(instr))
}

/// NOT: the destination takes the bitwise complement of the source.
pub open spec fn after_not(m: Machine, instr: u16) -> Machine {
    m.with_reg(dr(instr), !m.reg(sr1(instr))).with_flags_of(dr(instr))
}

/// LEA: the destination takes the address itself.
pub open spec fn after_lea(m: Machine, instr: u16) -> Machine {
    m.with_reg(dr(instr), pc_relative(m, instr)).with_flags_of(dr(instr))
}

/// The end of every load: the destination takes the value read.
pub open spec fn loaded(a: Access, instr: u16) -> Transition {
    Transition {
        machine: a.machine.with_reg(dr(instr), a.value).with_flags_of(dr(instr)),
        console: a.console,
        outcome: Ok(Status::Running),
    }
}

/// LD: the destination takes the word read at the address.
pub open spec fn after_ld(m: Machine, c: ConsoleView, instr: u16) -> Transition {
    loaded(read_memory(m, c, pc_relative(m, instr)), instr)
}

/// LDI: the word read at the address is itself an address; the
/// destination takes the word read there.
pub open spec fn after_ldi(m: Machine, c: ConsoleView, instr: u16) -> Transition {
    let pointer = read_memory(m, c, pc_relative(m, instr));
    loaded(read_memory(pointer.machine, pointer.console, pointer.value), instr)
}

/// LDR: the destination takes the word read at base plus offset.
pub open spec fn after_ldr(m: Machine, c: ConsoleView, instr: u16) -> Transition {
    loaded(read_memory(m, c, base_relative(m, instr)), instr)
}

/// ST: the source register is written to the address.
pub open spec fn after_st(m: Machine, instr: u16) -> Machine {
    m.store(pc_relative(m, instr), m.reg(dr(instr)))
}

/// STI: the word read at the address is itself an address; the source
/// register is written there.
pub open spec fn after_sti(m: Machine, c: ConsoleView, instr: u16) -> Transition {
    let pointer = read_memory(m, c, pc_relative(m, instr));
    Transition {
        machine: pointer.machine.store(pointer.value, pointer.machine.reg(dr(instr))),
        console: pointer.console,
        outcome: Ok(Status::Running),
    }
}

/// STR: the source register is written to base plus offset.
pub open spec fn after_str(m: Machine, instr: u16) -> Machine {
    m.store(base_relative(m, instr), m.reg(dr(instr)))
}

/// JMP: the program counter takes the content of the base register.
pub open spec fn after_jmp(m: Machine, instr: u16) -> Machine {
    m.with_pc(m.reg(sr1(instr)))
}

/// JSR and JSRR: R7 takes the program counter, which already points
/// behind the instruction; then the program counter moves by the offset
/// or takes the content of the base register.
pub open spec fn after_jsr(m: Machine, instr: u16) -> Machine {
    let linked = m.with_reg(7, m.pc());
    if has_offset_target(instr) {
        linked.with_pc(wrapping_sum(linked.pc(), pc_offset11(instr)))
    } else {
        linked.with_pc(linked.reg(sr1(instr)))
    }
}

/// The console after IN has written its prompt, which it does once.
pub open spec fn prompted_console(m: Machine, c: ConsoleView) -> ConsoleView {
    if m.prompted {
        c
    } else {
        c.emit_all(prompt_text())
    }
}

/// TRAP, for a machine that is not waiting for a key: R7 takes the
/// program counter, then the routine that the vector selects runs.
pub open spec fn after_trap(m: Machine, c: ConsoleView, instr: u16) -> Transition {
    let linked = m.with_reg(7, m.pc());
    match Trap::of_vector(trap_vector(instr)) {
        Some(Trap::GETC) => Transition {
            machine: linked.with_reg(0, c.key() as u16),
            console: c.take_key(),
            outcome: Ok(Status::Running),
        },
        Some(Trap::OUT) => Transition {
            machine: linked,
            console: c.emit(low_byte_of(linked.reg(0))),
            outcome: Ok(Status::Running),
        },
        Some(Trap::PUTS) => Transition {
            machine: linked,
            console: c.emit_all(word_string(linked.memory, linked.reg(0), MEMORY_WORDS as nat)),
            outcome: Ok(Status::Running),
        },
        Some(Trap::IN) => Transition {
            machine: linked.with_reg(0, c.key() as u16),
            console: prompted_console(m, c).take_key().emit(c.key()),
            outcome: Ok(Status::Running),
        },
        Some(Trap::PUTSP) => Transition {
            machine: linked,
            console: c.emit_all(
                packed_string(linked.memory, linked.reg(0), MEMORY_WORDS as nat),
            ),
            outcome: Ok(Status::Running),
        },
        Some(Trap::HALT) => Transition {
            machine: linked,
            console: c.emit_all(halt_text()),
            outcome: Ok(Status::Halted),
        },
        None => Transition {
            machine: linked,
            console: c,
            outcome: Err(VmError::InvalidTrap(trap_vector(instr))),
        },
    }
}

/// A step that only changes the machine.
pub open spec fn proceed(m: Machine, c: ConsoleView) -> Transition {
    Transition { machine: m, console: c, outcome: Ok(Status::Running) }
}

/// What the instruction `instr` does to a machine whose program counter
/// already points behind it.
pub open spec fn execute(m: Machine, c: ConsoleView, instr: u16) -> Transition {
    match Opcode::of_word(instr) {
        Opcode::BR => proceed(after_br(m, instr), c),
        Opcode::ADD => proceed(after_add(m, instr), c),
        Opcode::LD => after_ld(m, c, instr),
        Opcode::ST => proceed(after_st(m, instr), c),
        Opcode::JSR => proceed(after_jsr(m, instr), c),
        Opcode::AND => proceed(after_and(m, instr), c),
        Opcode::LDR => after_ldr(m, c, instr),
        Opcode::STR => proceed(after_str(m, instr), c),
        Opcode::RTI => Transition {
            machine: m,
            console: c,
            outcome: Err(VmError::InvalidOpcode(instr)),
        },
        Opcode::NOT => proceed(after_not(m, instr), c),
        Opcode::LDI => after_ldi(m, c, instr),
        Opcode::STI => after_sti(m, c, instr),
        Opcode::JMP => proceed(after_jmp(m, instr), c),
        Opcode::RES => Transition {
            machine: m,
            console: c,
            outcome: Err(VmError::InvalidOpcode(instr)),
        },
        Opcode::LEA => proceed(after_lea(m, instr), c),
        Opcode::TRAP => after_trap(m, c, instr),
    }
}

/// The routine that an instruction word calls, if it is a TRAP with a
/// known vector.
pub open spec fn trap_of(instr: u16) -> Option<Trap> {
    if Opcode::of_word(instr) == Opcode::TRAP {
        Trap::of_vector(trap_vector(instr))
    } else {
        None
    }
}

/// Whether the instruction has to wait: it is a trap that reads a key,
/// and the console has none.
pub open spec fn awaits_key(instr: u16, c: ConsoleView) -> bool {
    &&& !c.has_key()
    &&& trap_of(instr) matches Some(t)
    &&& t.reads_key()
}

/// One fetch-decode-execute cycle.
///
/// The instruction is read at the program counter. If it has to wait
/// for a key, nothing else happens, except that IN writes its prompt
/// unless it has done so already. Otherwise the program counter
/// advances by one, the instruction is executed, and the prompt mark is
/// cleared.
pub open spec fn step(m: Machine, c: ConsoleView) -> Transition {
    let fetch = read_memory(m, c, m.pc());
    let instr = fetch.value;
    if awaits_key(instr, fetch.console) {
        if trap_of(instr) == Some(Trap::IN) {
            Transition {
                machine: fetch.machine.with_prompted(true),
                console: prompted_console(fetch.machine, fetch.console),
                outcome: Ok(Status::AwaitingInput),
            }
        } else {
            Transition {
                machine: fetch.machine,
                console: fetch.console,
                outcome: Ok(Status::AwaitingInput),
            }
        }
    } else {
        let done = execute(
            fetch.machine.with_pc(wrapping_sum(m.pc(), 1)),
            fetch.console,
            instr,
        );
        Transition { machine: done.machine.with_prompted(false), ..done }
    }
}

/// Up to `fuel` cycles: the machine steps until a step does not end
/// with `Running` or the fuel is used up. In the latter case the outcome
/// is `Running`.
pub open spec fn run(m: Machine, c: ConsoleView, fuel: nat) -> Transition
    decreases fuel,
{
    if fuel == 0 {
        proceed(m, c)
    } else {
        let t = step(m, c);
        if t.outcome == Ok::<Status, VmError>(Status::Running) {
            run(t.machine, t.console, (fuel - 1) as nat)
        } else {
            t
        }
    }
}

} // verus!
