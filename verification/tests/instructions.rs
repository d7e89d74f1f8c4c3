use lc3_vm::console::Console;
use lc3_vm::machine::{Status, VmError};
use lc3_vm::opcode::Opcode;
use lc3_vm::vm::VM;

const PC: usize = 8;
const COND: usize = 9;
const POS: u16 = 1;
const ZRO: u16 = 2;
const NEG: u16 = 4;

fn machine_with(program: &[u16]) -> (Box<VM>, Console) {
    let mut vm = Box::new(VM::new());
    for (k, word) in program.iter().enumerate() {
        vm.memory[0x3000 + k] = *word;
    }
    (vm, Console::new())
}

fn add_reg(dr: u16, sr1: u16, sr2: u16) -> u16 {
    0x1000 | dr << 9 | sr1 << 6 | sr2
}

fn add_imm(dr: u16, sr1: u16, imm5: u16) -> u16 {
    0x1000 | dr << 9 | sr1 << 6 | 0x20 | (imm5 & 0x1F)
}

fn and_reg(dr: u16, sr1: u16, sr2: u16) -> u16 {
    0x5000 | dr << 9 | sr1 << 6 | sr2
}

fn and_imm(dr: u16, sr1: u16, imm5: u16) -> u16 {
    0x5000 | dr << 9 | sr1 << 6 | 0x20 | (imm5 & 0x1F)
}

fn not(dr: u16, sr: u16) -> u16 {
    0x9000 | dr << 9 | sr << 6 | 0x3F
}

fn br(mask: u16, offset9: u16) -> u16 {
    mask << 9 | (offset9 & 0x1FF)
}

fn with_offset9(class: u16, r: u16, offset9: u16) -> u16 {
    class << 12 | r << 9 | (offset9 & 0x1FF)
}

fn with_base(class: u16, r: u16, base: u16, offset6: u16) -> u16 {
    class << 12 | r << 9 | base << 6 | (offset6 & 0x3F)
}

#[test]
fn add_registers() {
    let (mut vm, mut console) = machine_with(&[add_reg(2, 0, 1)]);
    vm.registers[0] = 5;
    vm.registers[1] = 7;
    assert_eq!(vm.step(&mut console), Ok(Status::Running));
    assert_eq!(vm.registers[2], 12);
    assert_eq!(vm.registers[0], 5);
    assert_eq!(vm.registers[1], 7);
    assert_eq!(vm.registers[COND], POS);
    assert_eq!(vm.registers[PC], 0x3001);
}

#[test]
fn add_immediate_positive_and_negative() {
    let (mut vm, mut console) = machine_with(&[add_imm(1, 1, 15), add_imm(1, 1, 0x10)]);
    assert_eq!(vm.step(&mut console), Ok(Status::Running));
    assert_eq!(vm.registers[1], 15);
    assert_eq!(vm.registers[COND], POS);
    assert_eq!(vm.step(&mut console), Ok(Status::Running));
    assert_eq!(vm.registers[1], 0xFFFF);
    assert_eq!(vm.registers[COND], NEG);
}

#[test]
fn add_wraps_around() {
    let (mut vm, mut console) = machine_with(&[add_reg(0, 1, 2), add_imm(3, 3, 1)]);
    vm.registers[1] = 0xFFFF;
    vm.registers[2] = 0x0003;
    vm.registers[3] = 0xFFFF;
    assert_eq!(vm.step(&mut console), Ok(Status::Running));
    assert_eq!(vm.registers[0], 2);
    assert_eq!(vm.registers[COND], POS);
    assert_eq!(vm.step(&mut console), Ok(Status::Running));
    assert_eq!(vm.registers[3], 0);
    assert_eq!(vm.registers[COND], ZRO);
}

#[test]
fn add_register_to_itself_holding_zero_sets_zro() {
    let (mut vm, mut console) = machine_with(&[add_reg(3, 4, 4)]);
    vm.registers[COND] = POS;
    assert_eq!(vm.step(&mut console), Ok(Status::Running));
    assert_eq!(vm.registers[3], 0);
    assert_eq!(vm.registers[COND], ZRO);
}

#[test]
fn flags_follow_every_destination_write() {
    let (mut vm, mut console) = machine_with(&[
        add_imm(0, 0, 0x1F),
        and_imm(1, 0, 0),
        not(2, 1),
        add_imm(3, 1, 1),
        with_offset9(0xE, 4, 0),
    ]);
    let expected = [NEG, ZRO, NEG, POS, POS];
    for flag in expected {
        assert_eq!(vm.step(&mut console), Ok(Status::Running));
        assert_eq!(vm.registers[COND], flag);
    }
    assert_eq!(vm.registers[0], 0xFFFF);
    assert_eq!(vm.registers[1], 0);
    assert_eq!(vm.registers[2], 0xFFFF);
    assert_eq!(vm.registers[3], 1);
    assert_eq!(vm.registers[4], 0x3005);
}

#[test]
fn and_registers_and_immediate() {
    let (mut vm, mut console) =
        machine_with(&[and_reg(2, 0, 1), and_imm(3, 0, 0x1F), and_imm(4, 0, 0x0C)]);
    vm.registers[0] = 0xF0FC;
    vm.registers[1] = 0x0FF0;
    assert_eq!(vm.step(&mut console), Ok(Status::Running));
    assert_eq!(vm.registers[2], 0x00F0);
    assert_eq!(vm.registers[COND], POS);
    assert_eq!(vm.step(&mut console), Ok(Status::Running));
    assert_eq!(vm.registers[3], 0xF0FC);
    assert_eq!(vm.registers[COND], NEG);
    assert_eq!(vm.step(&mut console), Ok(Status::Running));
    assert_eq!(vm.registers[4], 0x000C);
    assert_eq!(vm.registers[COND], POS);
}

#[test]
fn not_complements() {
    let (mut vm, mut console) = machine_with(&[not(1, 0), not(2, 3)]);
    vm.registers[0] = 0x00FF;
    vm.registers[3] = 0xFFFF;
    assert_eq!(vm.step(&mut console), Ok(Status::Running));
    assert_eq!(vm.registers[1], 0xFF00);
    assert_eq!(vm.registers[COND], NEG);
    assert_eq!(vm.step(&mut console), Ok(Status::Running));
    assert_eq!(vm.registers[2], 0);
    assert_eq!(vm.registers[COND], ZRO);
}

#[test]
fn branch_taken_and_not_taken() {
    let (mut vm, mut console) = machine_with(&[br(ZRO, 5)]);
    assert_eq!(vm.step(&mut console), Ok(Status::Running));
    assert_eq!(vm.registers[PC], 0x3006);

    let (mut vm, mut console) = machine_with(&[br(POS | NEG, 5)]);
    assert_eq!(vm.step(&mut console), Ok(Status::Running));
    assert_eq!(vm.registers[PC], 0x3001);
}

#[test]
fn branch_triggers_on_any_common_bit() {
    for flag in [POS, ZRO, NEG] {
        let (mut vm, mut console) = machine_with(&[br(flag, 0x10)]);
        vm.registers[COND] = flag;
        assert_eq!(vm.step(&mut console), Ok(Status::Running));
        assert_eq!(vm.registers[PC], 0x3011);

        let (mut vm, mut console) = machine_with(&[br(7, 0x10)]);
        vm.registers[COND] = flag;
        assert_eq!(vm.step(&mut console), Ok(Status::Running));
        assert_eq!(vm.registers[PC], 0x3011);

        let (mut vm, mut console) = machine_with(&[br(7 & !flag, 0x10)]);
        vm.registers[COND] = flag;
        assert_eq!(vm.step(&mut console), Ok(Status::Running));
        assert_eq!(vm.registers[PC], 0x3001);
    }
}

#[test]
fn branch_backwards_and_never() {
    let (mut vm, mut console) = machine_with(&[br(7, 0x1FF)]);
    assert_eq!(vm.step(&mut console), Ok(Status::Running));
    assert_eq!(vm.registers[PC], 0x3000);

    let (mut vm, mut console) = machine_with(&[br(0, 0x1FF)]);
    assert_eq!(vm.step(&mut console), Ok(Status::Running));
    assert_eq!(vm.registers[PC], 0x3001);
    assert_eq!(vm.registers[COND], ZRO);
}

#[test]
fn ld_reads_relative_to_next_instruction() {
    let (mut vm, mut console) = machine_with(&[with_offset9(2, 3, 2), 0, 0, 0x8001]);
    assert_eq!(vm.step(&mut console), Ok(Status::Running));
    assert_eq!(vm.registers[3], 0x8001);
    assert_eq!(vm.registers[COND], NEG);
}

#[test]
fn ld_with_negative_offset() {
    let (mut vm, mut console) = machine_with(&[with_offset9(2, 5, 0x1FE)]);
    vm.memory[0x2FFF] = 0x0042;
    assert_eq!(vm.step(&mut console), Ok(Status::Running));
    assert_eq!(vm.registers[5], 0x0042);
    assert_eq!(vm.registers[COND], POS);
}

#[test]
fn ldi_dereferences_twice() {
    let (mut vm, mut console) = machine_with(&[with_offset9(0xA, 2, 4)]);
    vm.memory[0x3005] = 0x4000;
    vm.memory[0x4000] = 0x0042;
    assert_eq!(vm.step(&mut console), Ok(Status::Running));
    assert_eq!(vm.registers[2], 0x0042);
    assert_eq!(vm.registers[COND], POS);
    assert_eq!(vm.registers[PC], 0x3001);
}

#[test]
fn ldi_polls_keyboard_through_pointer() {
    let (mut vm, mut console) = machine_with(&[with_offset9(0xA, 0, 0), 0xFE00]);
    assert_eq!(vm.step(&mut console), Ok(Status::Running));
    assert_eq!(vm.registers[0], 0);
    assert_eq!(vm.registers[COND], ZRO);

    let (mut vm, mut console) =
        machine_with(&[with_offset9(0xA, 0, 1), with_offset9(0xA, 1, 1), 0xFE00, 0xFE02]);
    console.feed(b'q');
    assert_eq!(vm.step(&mut console), Ok(Status::Running));
    assert_eq!(vm.registers[0], 0x8000);
    assert_eq!(vm.registers[COND], NEG);
    assert!(!console.has_input());
    assert_eq!(vm.step(&mut console), Ok(Status::Running));
    assert_eq!(vm.registers[1], b'q' as u16);
    assert_eq!(vm.registers[COND], POS);
}

#[test]
fn ldr_reads_relative_to_base() {
    let (mut vm, mut console) =
        machine_with(&[with_base(6, 1, 2, 3), with_base(6, 4, 2, 0x3F)]);
    vm.registers[2] = 0x5000;
    vm.memory[0x5003] = 0x1111;
    vm.memory[0x4FFF] = 0;
    assert_eq!(vm.step(&mut console), Ok(Status::Running));
    assert_eq!(vm.registers[1], 0x1111);
    assert_eq!(vm.registers[COND], POS);
    assert_eq!(vm.step(&mut console), Ok(Status::Running));
    assert_eq!(vm.registers[4], 0);
    assert_eq!(vm.registers[COND], ZRO);
}

#[test]
fn lea_loads_address() {
    let (mut vm, mut console) =
        machine_with(&[with_offset9(0xE, 6, 0x0FF), with_offset9(0xE, 7, 0x100)]);
    assert_eq!(vm.step(&mut console), Ok(Status::Running));
    assert_eq!(vm.registers[6], 0x3100);
    assert_eq!(vm.registers[COND], POS);
    assert_eq!(vm.step(&mut console), Ok(Status::Running));
    assert_eq!(vm.registers[7], 0x2F02);
}

#[test]
fn st_stores_relative_to_next_instruction() {
    let (mut vm, mut console) = machine_with(&[with_offset9(3, 4, 0x10)]);
    vm.registers[4] = 0xCAFE;
    vm.registers[COND] = NEG;
    assert_eq!(vm.step(&mut console), Ok(Status::Running));
    assert_eq!(vm.memory[0x3011], 0xCAFE);
    assert_eq!(vm.registers[COND], NEG);
}

#[test]
fn sti_stores_through_pointer() {
    let (mut vm, mut console) = machine_with(&[with_offset9(0xB, 1, 1), 0, 0x6000]);
    vm.registers[1] = 0x0099;
    assert_eq!(vm.step(&mut console), Ok(Status::Running));
    assert_eq!(vm.memory[0x6000], 0x0099);
    assert_eq!(vm.memory[0x3002], 0x6000);
    assert_eq!(vm.registers[COND], ZRO);
}

#[test]
fn str_stores_relative_to_base() {
    let (mut vm, mut console) = machine_with(&[with_base(7, 0, 1, 0x3E)]);
    vm.registers[0] = 0x7777;
    vm.registers[1] = 0x4002;
    assert_eq!(vm.step(&mut console), Ok(Status::Running));
    assert_eq!(vm.memory[0x4000], 0x7777);
}

#[test]
fn stores_to_device_registers_are_dropped() {
    let (mut vm, mut console) =
        machine_with(&[with_base(7, 0, 1, 0), with_base(7, 0, 1, 2), with_base(7, 0, 1, 1)]);
    vm.registers[0] = 0x1234;
    vm.registers[1] = 0xFE00;
    assert_eq!(vm.step(&mut console), Ok(Status::Running));
    assert_eq!(vm.step(&mut console), Ok(Status::Running));
    assert_eq!(vm.step(&mut console), Ok(Status::Running));
    assert_eq!(vm.memory[0xFE00], 0);
    assert_eq!(vm.memory[0xFE02], 0);
    assert_eq!(vm.memory[0xFE01], 0x1234);
}

#[test]
fn jmp_sets_program_counter() {
    let (mut vm, mut console) = machine_with(&[0xC000 | 3 << 6]);
    vm.registers[3] = 0x1234;
    assert_eq!(vm.step(&mut console), Ok(Status::Running));
    assert_eq!(vm.registers[PC], 0x1234);
    assert_eq!(vm.registers[COND], ZRO);
}

#[test]
fn jsr_links_and_jumps_by_offset() {
    let (mut vm, mut console) = machine_with(&[0x4800 | 0x010]);
    assert_eq!(vm.step(&mut console), Ok(Status::Running));
    assert_eq!(vm.registers[7], 0x3001);
    assert_eq!(vm.registers[PC], 0x3011);

    let (mut vm, mut console) = machine_with(&[0x4800 | 0x7FF]);
    assert_eq!(vm.step(&mut console), Ok(Status::Running));
    assert_eq!(vm.registers[7], 0x3001);
    assert_eq!(vm.registers[PC], 0x3000);
}

#[test]
fn jsrr_links_and_jumps_to_base() {
    let (mut vm, mut console) = machine_with(&[0x4000 | 2 << 6]);
    vm.registers[2] = 0x5000;
    assert_eq!(vm.step(&mut console), Ok(Status::Running));
    assert_eq!(vm.registers[7], 0x3001);
    assert_eq!(vm.registers[PC], 0x5000);
}

#[test]
fn jsrr_through_r7_reads_the_new_link() {
    let (mut vm, mut console) = machine_with(&[0x4000 | 7 << 6]);
    vm.registers[7] = 0x5000;
    assert_eq!(vm.step(&mut console), Ok(Status::Running));
    assert_eq!(vm.registers[7], 0x3001);
    assert_eq!(vm.registers[PC], 0x3001);
}

#[test]
fn jsr_then_return_lands_behind_call() {
    let (mut vm, mut console) = machine_with(&[add_imm(0, 0, 1), 0x4800 | 0x00E, add_imm(0, 0, 2)]);
    vm.memory[0x3010] = add_imm(1, 1, 7);
    vm.memory[0x3011] = 0xC000 | 7 << 6;
    for _ in 0..4 {
        assert_eq!(vm.step(&mut console), Ok(Status::Running));
    }
    assert_eq!(vm.registers[PC], 0x3002);
    assert_eq!(vm.registers[7], 0x3002);
    assert_eq!(vm.registers[1], 7);
    assert_eq!(vm.step(&mut console), Ok(Status::Running));
    assert_eq!(vm.registers[0], 3);
}

#[test]
fn reserved_classes_fail() {
    for word in [0x8000u16, 0x8ABC, 0xD000, 0xDFFF] {
        let (mut vm, mut console) = machine_with(&[add_imm(0, 0, 5), with_offset9(3, 0, 0x20), word]);
        assert_eq!(vm.step(&mut console), Ok(Status::Running));
        assert_eq!(vm.step(&mut console), Ok(Status::Running));
        let registers = vm.registers;
        let memory = vm.memory.to_vec();
        assert_eq!(vm.step(&mut console), Err(VmError::InvalidOpcode(word)));
        assert_eq!(vm.registers[0], 5);
        assert_eq!(vm.memory[0x3022], 5);
        assert_eq!(vm.registers[..8], registers[..8]);
        assert_eq!(vm.registers[COND], registers[COND]);
        assert_eq!(vm.registers[PC], 0x3003);
        assert_eq!(vm.memory.to_vec(), memory);
        assert!(console.output().is_empty());
    }
}

#[test]
fn reserved_class_ends_run() {
    let (mut vm, mut console) = machine_with(&[add_imm(0, 0, 5), 0xD000, add_imm(0, 0, 5)]);
    assert_eq!(vm.run(&mut console, 100), Err(VmError::InvalidOpcode(0xD000)));
    assert_eq!(vm.registers[0], 5);
    assert_eq!(vm.registers[PC], 0x3002);
}

#[test]
fn program_counter_wraps() {
    let (mut vm, mut console) = machine_with(&[]);
    vm.registers[PC] = 0xFFFF;
    vm.memory[0xFFFF] = add_imm(0, 0, 1);
    assert_eq!(vm.step(&mut console), Ok(Status::Running));
    assert_eq!(vm.registers[PC], 0);
    assert_eq!(vm.registers[0], 1);
}

#[test]
fn fetch_from_keyboard_status_polls() {
    let (mut vm, mut console) = machine_with(&[]);
    vm.registers[PC] = 0xFE00;
    assert_eq!(vm.step(&mut console), Ok(Status::Running));
    assert_eq!(vm.registers[PC], 0xFE01);

    vm.registers[PC] = 0xFE00;
    console.feed(b'z');
    assert_eq!(vm.step(&mut console), Err(VmError::InvalidOpcode(0x8000)));
    assert_eq!(vm.memory[0xFE02], b'z' as u16);
    assert!(!console.has_input());
}

#[test]
fn opcode_table() {
    let table = [
        Opcode::BR,
        Opcode::ADD,
        Opcode::LD,
        Opcode::ST,
        Opcode::JSR,
        Opcode::AND,
        Opcode::LDR,
        Opcode::STR,
        Opcode::RTI,
        Opcode::NOT,
        Opcode::LDI,
        Opcode::STI,
        Opcode::JMP,
        Opcode::RES,
        Opcode::LEA,
        Opcode::TRAP,
    ];
    for (index, op) in table.iter().enumerate() {
        assert_eq!(Opcode::get(index as u16), *op);
        assert_eq!(op.code(), index as u16);
        assert_eq!(Opcode::decode((index as u16) << 12 | 0x0ABC), *op);
    }
}
