//! The execution engine: register file, memory and the
//! fetch-decode-execute cycle.

use crate::bits::{
    add_wrapping, extend_sign, high_byte, low_byte, sign_extension, wrapping_sum,
};
use crate::console::Console;
use crate::flags::Flags;
use crate::image::{
    image_address, image_error, image_origin, image_words, load_words, parse_image, Image,
    LoadError,
};
use crate::instruction::{
    dr, field_dr, field_has_immediate, field_has_offset_target, field_imm5, field_offset6,
    field_pc_offset11, field_pc_offset9, field_sr1, field_sr2, field_trap_vector,
};
use crate::machine;
use crate::machine::{read_memory, Machine, Status, VmError, COND_SLOT, PC_SLOT, PC_START};
use crate::opcode::Opcode;
use crate::register::{MemMapReg, Register, KEYBOARD_DATA, KEYBOARD_STATUS};
use crate::trap::{halt_text, packed_chars, packed_string, prompt_text, word_string, Trap};
use vstd::prelude::*;

verus! {

/// The machine: ten register slots and 2^16 words of memory.
pub struct VM {
    /// R0 to R7, the program counter, the condition register.
    pub registers: [u16; 10],
    /// The storage behind the address space.
    pub memory: [u16; 65536],
    /// Whether an IN trap has written its prompt and waits for its key.
    pub prompted: bool,
}

impl View for VM {
    type V = Machine;

    open spec fn view(&self) -> Machine {
        Machine { registers: self.registers@, memory: self.memory@, prompted: self.prompted }
    }
}

impl VM {
    /// A machine with registers and memory zero, the program counter at
    /// `0x3000` and the condition code ZRO.
    pub fn new() -> (vm: VM)
        ensures
            vm@ == Machine::initial(),
    {
        let mut registers: [u16; 10] = [0; 10];
        registers[PC_SLOT] = PC_START;
        registers[COND_SLOT] = Flags::ZRO.bits();
        VM { registers, memory: [0; 65536], prompted: false }
    }

    /// The content of a register.
    pub fn read(&self, register: Register) -> (value: u16)
        requires
            register != Register::COUNT,
        ensures
            value == self@.registers[register.slot()],
    {
        self.registers[register.index()]
    }

    /// Replaces the content of a register. The condition register is
    /// left alone unless it is the register written.
    pub fn write(&mut self, register: Register, value: u16)
        requires
            register != Register::COUNT,
        ensures
            final(self)@ == (Machine {
                registers: old(self)@.registers.update(register.slot(), value),
                ..old(self)@
            }),
    {
        self.registers[register.index()] = value;
    }

    /// The program counter.
    pub fn program_counter(&self) -> (pc: u16)
        ensures
            pc == self@.pc(),
    {
        self.registers[PC_SLOT]
    }

    /// Replaces the program counter.
    pub fn set_program_counter(&mut self, pc: u16)
        ensures
            final(self)@ == old(self)@.with_pc(pc),
    {
        self.registers[PC_SLOT] = pc;
    }

    /// The condition code that the condition register holds, if it
    /// holds one of the three masks.
    pub fn condition_flags(&self) -> (flag: Option<Flags>)
        ensures
            flag == Flags::of_mask(self@.cond()),
            flag matches Some(f) ==> f.mask() == self@.cond(),
    {
        Flags::from_bits(self.registers[COND_SLOT])
    }

    /// Sets the condition register to the code of the value that the
    /// given slot of the register file holds.
    pub fn update_flags(&mut self, register: u16)
        requires
            register < 10,
        ensures
            final(self)@ == old(self)@.with_flags_of(register),
            final(self)@.cond() == Flags::of(old(self)@.reg(register)).mask(),
    {
        let flag = Flags::classify(self.registers[register as usize]);
        self.registers[COND_SLOT] = flag.bits();
    }

    /// Reads memory. A read of the keyboard status register polls the
    /// console; every other read gives the stored word.
    pub fn read_mem(&mut self, addr: u16, console: &mut Console) -> (value: u16)
        ensures
            value == read_memory(old(self)@, old(console)@, addr).value,
            final(self)@ == read_memory(old(self)@, old(console)@, addr).machine,
            final(console)@ == read_memory(old(self)@, old(console)@, addr).console,
    {
        if addr == KEYBOARD_STATUS {
            match console.read() {
                Some(key) => {
                    self.memory[KEYBOARD_DATA as usize] = key as u16;
                    0x8000
                },
                None => 0,
            }
        } else {
            self.memory[addr as usize]
        }
    }

    /// Writes memory. A write to a device register is ignored.
    pub fn write_mem(&mut self, addr: u16, value: u16)
        ensures
            final(self)@ == old(self)@.store(addr, value),
    {
        if MemMapReg::lookup(addr).is_none() {
            self.memory[addr as usize] = value;
        }
    }

    /// Writes the words of an image to memory, the first at the origin
    /// of the image and each of the others behind the one before.
    /// Addresses wrap around at the end of memory, and a word that
    /// falls on a device register is dropped. The registers stay as
    /// they are.
    pub fn load_image(&mut self, image: &Image)
        ensures
            final(self)@ == load_words(old(self)@, image.origin, image.words@),
    {
        let mut addr: u16 = image.origin;
        let mut i: usize = 0;
        assert(image.words@.subrange(0, 0).len() == 0);
        while i < image.words.len()
            invariant
                i <= image.words.len(),
                addr == image_address(image.origin, i as int),
                self@ == load_words(old(self)@, image.origin, image.words@.subrange(0, i as int)),
            decreases image.words.len() - i,
        {
            proof {
                let next = image.words@.subrange(0, i + 1);
                assert(next.drop_last() == image.words@.subrange(0, i as int));
            }
            self.write_mem(addr, image.words[i]);
            addr = add_wrapping(addr, 1);
            i += 1;
        }
        assert(image.words@.subrange(0, i as int) == image.words@);
    }

    /// Loads an image given as its bytes: big-endian 16-bit words, of
    /// which the first is the origin. A stream that is empty or ends
    /// in the middle of a word is refused and leaves the machine as it
    /// was.
    pub fn load_to_memory(&mut self, image: &[u8]) -> (loaded: Result<(), LoadError>)
        ensures
            match loaded {
                Ok(_) => {
                    &&& image_error(image@) is None
                    &&& final(self)@ == load_words(
                        old(self)@,
                        image_origin(image@),
                        image_words(image@),
                    )
                },
                Err(e) => image_error(image@) == Some(e) && final(self)@ == old(self)@,
            },
    {
        match parse_image(image) {
            Ok(parsed) => {
                self.load_image(&parsed);
                Ok(())
            },
            Err(e) => Err(e),
        }
    }

    /// Extends the sign of the `bit_count`-bit field in the low bits of
    /// `x` to sixteen bits.
    pub fn sign_extend(&self, x: u16, bit_count: u16) -> (extended: u16)
        requires
            1 <= bit_count <= 15,
        ensures
            extended == sign_extension(x, bit_count),
    {
        extend_sign(x, bit_count)
    }

    /// The address that the nine-bit offset of `instr` names.
    fn pc_relative(&self, instr: u16) -> (addr: u16)
        ensures
            addr == machine::pc_relative(self@, instr),
    {
        add_wrapping(self.registers[PC_SLOT], field_pc_offset9(instr))
    }

    /// The address that base register and six-bit offset of `instr` name.
    fn base_relative(&self, instr: u16) -> (addr: u16)
        ensures
            addr == machine::base_relative(self@, instr),
    {
        add_wrapping(self.registers[field_sr1(instr) as usize], field_offset6(instr))
    }

    /// The second operand of ADD and AND.
    fn second_operand(&self, instr: u16) -> (value: u16)
        ensures
            value == machine::second_operand(self@, instr),
    {
        if field_has_immediate(instr) {
            field_imm5(instr)
        } else {
            self.registers[field_sr2(instr) as usize]
        }
    }

    /// Writes the destination register of `instr` and sets the flags
    /// from it.
    fn set_destination(&mut self, instr: u16, value: u16)
        ensures
            final(self)@ == old(self)@.with_reg(dr(instr), value).with_flags_of(dr(instr)),
    {
        let destination = field_dr(instr);
        self.registers[destination as usize] = value;
        self.update_flags(destination);
    }

    /// BR: moves the program counter if the condition selects it.
    fn op_br(&mut self, instr: u16)
        ensures
            final(self)@ == machine::after_br(old(self)@, instr),
    {
        let mask = field_dr(instr);
        if self.registers[COND_SLOT] & mask != 0 {
            self.registers[PC_SLOT] = self.pc_relative(instr);
        }
    }

    /// ADD: wraparound sum of a register and a register or immediate.
    fn op_add(&mut self, instr: u16)
        ensures
            final(self)@ == machine::after_add(old(self)@, instr),
    {
        let value = add_wrapping(
            self.registers[field_sr1(instr) as usize],
            self.second_operand(instr),
        );
        self.set_destination(instr, value);
    }

    /// AND: bitwise and of a register and a register or immediate.
    fn op_and(&mut self, instr: u16)
        ensures
            final(self)@ == machine::after_and(old(self)@, instr),
    {
        let value = self.registers[field_sr1(instr) as usize] & self.second_operand(instr);
        self.set_destination(instr, value);
    }

    /// NOT: bitwise complement of a register.
    fn op_not(&mut self, instr: u16)
        ensures
            final(self)@ == machine::after_not(old(self)@, instr),
    {
        let value = !self.registers[field_sr1(instr) as usize];
        self.set_destination(instr, value);
    }

    /// LEA: the address itself goes to the destination.
    fn op_lea(&mut self, instr: u16)
        ensures
            final(self)@ == machine::after_lea(old(self)@, instr),
    {
        let value = self.pc_relative(instr);
        self.set_destination(instr, value);
    }

    /// LD: loads from the program counter plus offset.
    fn op_ld(&mut self, console: &mut Console, instr: u16)
        ensures
            final(self)@ == machine::after_ld(old(self)@, old(console)@, instr).machine,
            final(console)@ == machine::after_ld(old(self)@, old(console)@, instr).console,
    {
        let addr = self.pc_relative(instr);
        let value = self.read_mem(addr, console);
        self.set_destination(instr, value);
    }

    /// LDI: loads through the pointer at the program counter plus offset.
    fn op_ldi(&mut self, console: &mut Console, instr: u16)
        ensures
            final(self)@ == machine::after_ldi(old(self)@, old(console)@, instr).machine,
            final(console)@ == machine::after_ldi(old(self)@, old(console)@, instr).console,
    {
        let addr = self.pc_relative(instr);
        let pointer = self.read_mem(addr, console);
        let value = self.read_mem(pointer, console);
        self.set_destination(instr, value);
    }

    /// LDR: loads from base register plus offset.
    fn op_ldr(&mut self, console: &mut Console, instr: u16)
        ensures
            final(self)@ == machine::after_ldr(old(self)@, old(console)@, instr).machine,
            final(console)@ == machine::after_ldr(old(self)@, old(console)@, instr).console,
    {
        let addr = self.base_relative(instr);
        let value = self.read_mem(addr, console);
        self.set_destination(instr, value);
    }

    /// ST: stores at the program counter plus offset.
    fn op_st(&mut self, instr: u16)
        ensures
            final(self)@ == machine::after_st(old(self)@, instr),
    {
        let addr = self.pc_relative(instr);
        self.write_mem(addr, self.registers[field_dr(instr) as usize]);
    }

    /// STI: stores through the pointer at the program counter plus offset.
    fn op_sti(&mut self, console: &mut Console, instr: u16)
        ensures
            final(self)@ == machine::after_sti(old(self)@, old(console)@, instr).machine,
            final(console)@ == machine::after_sti(old(self)@, old(console)@, instr).console,
    {
        let addr = self.pc_relative(instr);
        let pointer = self.read_mem(addr, console);
        self.write_mem(pointer, self.registers[field_dr(instr) as usize]);
    }

    /// STR: stores at base register plus offset.
    fn op_str(&mut self, instr: u16)
        ensures
            final(self)@ == machine::after_str(old(self)@, instr),
    {
        let addr = self.base_relative(instr);
        self.write_mem(addr, self.registers[field_dr(instr) as usize]);
    }

    /// JMP: the program counter takes the content of the base register.
    fn op_jmp(&mut self, instr: u16)
        ensures
            final(self)@ == machine::after_jmp(old(self)@, instr),
    {
        self.registers[PC_SLOT] = self.registers[field_sr1(instr) as usize];
    }

    /// JSR and JSRR: links R7, then jumps by offset or to the base register.
    fn op_jsr(&mut self, instr: u16)
        ensures
            final(self)@ == machine::after_jsr(old(self)@, instr),
    {
        self.registers[7] = self.registers[PC_SLOT];
        if field_has_offset_target(instr) {
            self.registers[PC_SLOT] = add_wrapping(self.registers[PC_SLOT], field_pc_offset11(instr));
        } else {
            self.registers[PC_SLOT] = self.registers[field_sr1(instr) as usize];
        }
    }

    /// Writes the string at `start`, one character per word.
    fn write_word_string(&self, console: &mut Console, start: u16)
        ensures
            final(console)@ == old(console)@.emit_all(
                word_string(self@.memory, start, 65536),
            ),
    {
        let mut addr: u16 = start;
        let mut left: u32 = 65536;
        let ghost mut written: Seq<u8> = Seq::empty();
        assert(old(console)@.emit_all(written) == old(console)@);
        while left > 0 && self.memory[addr as usize] != 0
            invariant
                left <= 65536,
                console@ == old(console)@.emit_all(written),
                word_string(self@.memory, start, 65536) == written + word_string(
                    self@.memory,
                    addr,
                    left as nat,
                ),
            decreases left,
        {
            let byte = low_byte(self.memory[addr as usize]);
            console.write(byte);
            proof {
                let rest = word_string(
                    self@.memory,
                    wrapping_sum(addr, 1),
                    (left - 1) as nat,
                );
                assert(written.push(byte) + rest == written + (seq![byte] + rest));
                written = written.push(byte);
            }
            addr = add_wrapping(addr, 1);
            left = left - 1;
        }
        assert(word_string(self@.memory, addr, left as nat) == Seq::<u8>::empty());
        assert(written + Seq::<u8>::empty() == written);
    }

    /// Writes the string at `start`, two characters per word.
    fn write_packed_string(&self, console: &mut Console, start: u16)
        ensures
            final(console)@ == old(console)@.emit_all(
                packed_string(self@.memory, start, 65536),
            ),
    {
        let mut addr: u16 = start;
        let mut left: u32 = 65536;
        let ghost mut written: Seq<u8> = Seq::empty();
        assert(old(console)@.emit_all(written) == old(console)@);
        while left > 0 && self.memory[addr as usize] != 0
            invariant
                left <= 65536,
                console@ == old(console)@.emit_all(written),
                packed_string(self@.memory, start, 65536) == written + packed_string(
                    self@.memory,
                    addr,
                    left as nat,
                ),
            decreases left,
        {
            let word = self.memory[addr as usize];
            let ghost before = console@;
            console.write(low_byte(word));
            let high = high_byte(word);
            if high != 0 {
                console.write(high);
            }
            proof {
                let chars = packed_chars(word);
                let rest = packed_string(
                    self@.memory,
                    wrapping_sum(addr, 1),
                    (left - 1) as nat,
                );
                assert(console@ == before.emit_all(chars));
                assert((written + chars) + rest == written + (chars + rest));
                written = written + chars;
            }
            addr = add_wrapping(addr, 1);
            left = left - 1;
        }
        assert(packed_string(self@.memory, addr, left as nat) == Seq::<u8>::empty());
        assert(written + Seq::<u8>::empty() == written);
    }

    /// Runs the service routine that `instr` selects, on a machine that
    /// does not have to wait for a key.
    fn op_trap(&mut self, console: &mut Console, instr: u16) -> (outcome: Result<Status, VmError>)
        requires
            !machine::awaits_key(instr, old(console)@),
            Opcode::of_word(instr) == Opcode::TRAP,
        ensures
            final(self)@ == machine::after_trap(old(self)@, old(console)@, instr).machine,
            final(console)@ == machine::after_trap(old(self)@, old(console)@, instr).console,
            outcome == machine::after_trap(old(self)@, old(console)@, instr).outcome,
    {
        self.registers[7] = self.registers[PC_SLOT];
        let vector = field_trap_vector(instr);
        match Trap::from_vector(vector) {
            Some(Trap::GETC) => {
                match console.read() {
                    Some(key) => {
                        self.registers[0] = key as u16;
                    },
                    None => {},
                }
                Ok(Status::Running)
            },
            Some(Trap::OUT) => {
                console.write(low_byte(self.registers[0]));
                Ok(Status::Running)
            },
            Some(Trap::PUTS) => {
                self.write_word_string(console, self.registers[0]);
                Ok(Status::Running)
            },
            Some(Trap::IN) => {
                if !self.prompted {
                    write_prompt(console);
                }
                match console.read() {
                    Some(key) => {
                        console.write(key);
                        self.registers[0] = key as u16;
                    },
                    None => {},
                }
                Ok(Status::Running)
            },
            Some(Trap::PUTSP) => {
                self.write_packed_string(console, self.registers[0]);
                Ok(Status::Running)
            },
            Some(Trap::HALT) => {
                write_halt_notice(console);
                Ok(Status::Halted)
            },
            None => Err(VmError::InvalidTrap(vector)),
        }
    }

    /// Executes `instr` on a machine whose program counter already
    /// points behind it.
    fn execute(&mut self, console: &mut Console, instr: u16) -> (outcome: Result<Status, VmError>)
        requires
            !machine::awaits_key(instr, old(console)@),
        ensures
            final(self)@ == machine::execute(old(self)@, old(console)@, instr).machine,
            final(console)@ == machine::execute(old(self)@, old(console)@, instr).console,
            outcome == machine::execute(old(self)@, old(console)@, instr).outcome,
    {
        match Opcode::decode(instr) {
            Opcode::BR => {
                self.op_br(instr);
                Ok(Status::Running)
            },
            Opcode::ADD => {
                self.op_add(instr);
                Ok(Status::Running)
            },
            Opcode::LD => {
                self.op_ld(console, instr);
                Ok(Status::Running)
            },
            Opcode::ST => {
                self.op_st(instr);
                Ok(Status::Running)
            },
            Opcode::JSR => {
                self.op_jsr(instr);
                Ok(Status::Running)
            },
            Opcode::AND => {
                self.op_and(instr);
                Ok(Status::Running)
            },
            Opcode::LDR => {
                self.op_ldr(console, instr);
                Ok(Status::Running)
            },
            Opcode::STR => {
                self.op_str(instr);
                Ok(Status::Running)
            },
            Opcode::RTI => Err(VmError::InvalidOpcode(instr)),
            Opcode::NOT => {
                self.op_not(instr);
                Ok(Status::Running)
            },
            Opcode::LDI => {
                self.op_ldi(console, instr);
                Ok(Status::Running)
            },
            Opcode::STI => {
                self.op_sti(console, instr);
                Ok(Status::Running)
            },
            Opcode::JMP => {
                self.op_jmp(instr);
                Ok(Status::Running)
            },
            Opcode::RES => Err(VmError::InvalidOpcode(instr)),
            Opcode::LEA => {
                self.op_lea(instr);
                Ok(Status::Running)
            },
            Opcode::TRAP => self.op_trap(console, instr),
        }
    }

    /// One fetch-decode-execute cycle.
    ///
    /// Fetches the instruction at the program counter, advances the
    /// program counter by one and executes the instruction. A trap that
    /// reads a key while the console has none is not executed: the
    /// result is `AwaitingInput`, and the same instruction is fetched
    /// again by the next step. A reserved instruction class and an
    /// unknown trap vector end the step with an error.
    pub fn step(&mut self, console: &mut Console) -> (outcome: Result<Status, VmError>)
        ensures
            final(self)@ == machine::step(old(self)@, old(console)@).machine,
            final(console)@ == machine::step(old(self)@, old(console)@).console,
            outcome == machine::step(old(self)@, old(console)@).outcome,
    {
        let pc = self.registers[PC_SLOT];
        let instr = self.read_mem(pc, console);
        if !console.has_input() {
            match Opcode::decode(instr) {
                Opcode::TRAP => {
                    match Trap::from_vector(field_trap_vector(instr)) {
                        Some(Trap::GETC) => {
                            return Ok(Status::AwaitingInput);
                        },
                        Some(Trap::IN) => {
                            if !self.prompted {
                                write_prompt(console);
                            }
                            self.prompted = true;
                            return Ok(Status::AwaitingInput);
                        },
                        _ => {},
                    }
                },
                _ => {},
            }
        }
        self.registers[PC_SLOT] = add_wrapping(pc, 1);
        let outcome = self.execute(console, instr);
        self.prompted = false;
        outcome
    }

    /// Runs the fetch-decode-execute cycle until a step ends otherwise
    /// than with `Running`, for at most `max_steps` steps. The result is
    /// that of the last step; it is `Running` when the steps are used
    /// up.
    pub fn run(&mut self, console: &mut Console, max_steps: u64) -> (outcome: Result<
        Status,
        VmError,
    >)
        ensures
            final(self)@ == machine::run(old(self)@, old(console)@, max_steps as nat).machine,
            final(console)@ == machine::run(old(self)@, old(console)@, max_steps as nat).console,
            outcome == machine::run(old(self)@, old(console)@, max_steps as nat).outcome,
    {
        let mut left: u64 = max_steps;
        while left > 0
            invariant
                machine::run(old(self)@, old(console)@, max_steps as nat) == machine::run(
                    self@,
                    console@,
                    left as nat,
                ),
            decreases left,
        {
            match self.step(console) {
                Ok(Status::Running) => {},
                other => {
                    return other;
                },
            }
            left = left - 1;
        }
        Ok(Status::Running)
    }
}

/// Writes the prompt of the IN trap.
fn write_prompt(console: &mut Console)
    ensures
        final(console)@ == old(console)@.emit_all(prompt_text()),
{
    let text: [u8; 19] = [
        0x45, 0x6E, 0x74, 0x65, 0x72, 0x20, 0x61, 0x20, 0x63, 0x68, 0x61, 0x72, 0x61, 0x63, 0x74,
        0x65, 0x72, 0x3A, 0x20,
    ];
    assert(text@ == prompt_text());
    console.write_all(&text);
}

/// Writes the notice of the HALT trap.
fn write_halt_notice(console: &mut Console)
    ensures
        final(console)@ == old(console)@.emit_all(halt_text()),
{
    let text: [u8; 5] = [0x48, 0x41, 0x4C, 0x54, 0x0A];
    assert(text@ == halt_text());
    console.write_all(&text);
}

} // verus!
