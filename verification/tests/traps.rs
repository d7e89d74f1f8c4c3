use lc3_vm::console::Console;
use lc3_vm::machine::{Status, VmError};
use lc3_vm::trap::Trap;
use lc3_vm::vm::VM;

const PC: usize = 8;
const COND: usize = 9;

const GETC: u16 = 0xF020;
const OUT: u16 = 0xF021;
const PUTS: u16 = 0xF022;
const IN: u16 = 0xF023;
const PUTSP: u16 = 0xF024;
const HALT: u16 = 0xF025;

const PROMPT: &[u8] = b"Enter a character: ";

fn machine_with(program: &[u16]) -> (Box<VM>, Console) {
    let mut vm = Box::new(VM::new());
    for (k, word) in program.iter().enumerate() {
        vm.memory[0x3000 + k] = *word;
    }
    (vm, Console::new())
}

#[test]
fn trap_vectors() {
    let table = [Trap::GETC, Trap::OUT, Trap::PUTS, Trap::IN, Trap::PUTSP, Trap::HALT];
    for (k, trap) in table.iter().enumerate() {
        assert_eq!(Trap::from_vector(0x20 + k as u8), Some(*trap));
        assert_eq!(trap.vector(), 0x20 + k as u8);
    }
    assert_eq!(Trap::from_vector(0x1F), None);
    assert_eq!(Trap::from_vector(0x26), None);
    assert_eq!(Trap::from_vector(0), None);
    assert_eq!(Trap::from_vector(0xFF), None);
}

#[test]
fn getc_reads_without_echo() {
    let (mut vm, mut console) = machine_with(&[GETC]);
    console.feed_all(b"ab");
    vm.registers[0] = 0xFFFF;
    vm.registers[COND] = 4;
    assert_eq!(vm.step(&mut console), Ok(Status::Running));
    assert_eq!(vm.registers[0], b'a' as u16);
    assert_eq!(vm.registers[7], 0x3001);
    assert_eq!(vm.registers[PC], 0x3001);
    assert_eq!(vm.registers[COND], 4);
    assert!(console.output().is_empty());
    assert_eq!(console.read(), Some(b'b'));
}

#[test]
fn getc_waits_for_a_key() {
    let (mut vm, mut console) = machine_with(&[GETC]);
    vm.registers[7] = 0x1111;
    assert_eq!(vm.step(&mut console), Ok(Status::AwaitingInput));
    assert_eq!(vm.step(&mut console), Ok(Status::AwaitingInput));
    assert_eq!(vm.registers[PC], 0x3000);
    assert_eq!(vm.registers[7], 0x1111);
    assert_eq!(vm.registers[0], 0);
    assert!(console.output().is_empty());
    console.feed(b'!');
    assert_eq!(vm.step(&mut console), Ok(Status::Running));
    assert_eq!(vm.registers[0], b'!' as u16);
    assert_eq!(vm.registers[7], 0x3001);
    assert_eq!(vm.registers[PC], 0x3001);
}

#[test]
fn out_writes_low_byte() {
    let (mut vm, mut console) = machine_with(&[OUT, OUT]);
    vm.registers[0] = 0x1241;
    assert_eq!(vm.step(&mut console), Ok(Status::Running));
    vm.registers[0] = 0x00FF;
    assert_eq!(vm.step(&mut console), Ok(Status::Running));
    assert_eq!(console.output(), &vec![0x41, 0xFF]);
    assert_eq!(vm.registers[7], 0x3002);
}

#[test]
fn puts_writes_until_zero_word() {
    let (mut vm, mut console) = machine_with(&[PUTS]);
    vm.registers[0] = 0x4000;
    for (k, ch) in b"Hello".iter().enumerate() {
        vm.memory[0x4000 + k] = 0x0100 | *ch as u16;
    }
    vm.memory[0x4006] = b'!' as u16;
    assert_eq!(vm.step(&mut console), Ok(Status::Running));
    assert_eq!(console.output(), &b"Hello".to_vec());
    assert_eq!(vm.registers[0], 0x4000);
    assert_eq!(vm.registers[7], 0x3001);
}

#[test]
fn puts_of_empty_string_writes_nothing() {
    let (mut vm, mut console) = machine_with(&[PUTS]);
    vm.registers[0] = 0x4000;
    assert_eq!(vm.step(&mut console), Ok(Status::Running));
    assert!(console.output().is_empty());
}

#[test]
fn puts_wraps_at_end_of_memory() {
    let (mut vm, mut console) = machine_with(&[PUTS]);
    vm.registers[0] = 0xFFFE;
    vm.memory[0xFFFE] = b'a' as u16;
    vm.memory[0xFFFF] = b'b' as u16;
    vm.memory[0x0000] = b'c' as u16;
    assert_eq!(vm.step(&mut console), Ok(Status::Running));
    assert_eq!(console.output(), &b"abc".to_vec());
}

#[test]
fn puts_without_zero_word_goes_round_once() {
    let mut vm = Box::new(VM::new());
    for word in vm.memory.iter_mut() {
        *word = b'x' as u16;
    }
    vm.memory[0x3000] = PUTS;
    vm.registers[0] = 0x3001;
    let mut console = Console::new();
    assert_eq!(vm.step(&mut console), Ok(Status::Running));
    assert_eq!(console.output().len(), 65536);
    assert_eq!(console.output()[0], b'x');
    assert_eq!(console.output()[65535], 0x22);
}

#[test]
fn in_prompts_reads_and_echoes() {
    let (mut vm, mut console) = machine_with(&[IN]);
    console.feed(b'k');
    vm.registers[COND] = 1;
    assert_eq!(vm.step(&mut console), Ok(Status::Running));
    let mut expected = PROMPT.to_vec();
    expected.push(b'k');
    assert_eq!(console.output(), &expected);
    assert_eq!(vm.registers[0], b'k' as u16);
    assert_eq!(vm.registers[7], 0x3001);
    assert_eq!(vm.registers[COND], 1);
    assert!(!vm.prompted);
}

#[test]
fn in_prompts_once_while_waiting() {
    let (mut vm, mut console) = machine_with(&[IN, IN]);
    assert_eq!(vm.step(&mut console), Ok(Status::AwaitingInput));
    assert!(vm.prompted);
    assert_eq!(console.output(), &PROMPT.to_vec());
    assert_eq!(vm.step(&mut console), Ok(Status::AwaitingInput));
    assert_eq!(console.output(), &PROMPT.to_vec());
    assert_eq!(vm.registers[PC], 0x3000);
    assert_eq!(vm.registers[7], 0);
    console.feed(b'7');
    assert_eq!(vm.step(&mut console), Ok(Status::Running));
    assert!(!vm.prompted);
    let mut expected = PROMPT.to_vec();
    expected.push(b'7');
    assert_eq!(console.output(), &expected);
    assert_eq!(vm.registers[0], b'7' as u16);
    assert_eq!(vm.registers[PC], 0x3001);

    assert_eq!(vm.step(&mut console), Ok(Status::AwaitingInput));
    expected.extend_from_slice(PROMPT);
    assert_eq!(console.output(), &expected);
}

#[test]
fn putsp_writes_two_characters_per_word() {
    let (mut vm, mut console) = machine_with(&[PUTSP]);
    vm.registers[0] = 0x5000;
    vm.memory[0x5000] = (b'e' as u16) << 8 | b'H' as u16;
    vm.memory[0x5001] = (b'l' as u16) << 8 | b'l' as u16;
    vm.memory[0x5002] = b'o' as u16;
    vm.memory[0x5004] = (b'?' as u16) << 8 | b'?' as u16;
    assert_eq!(vm.step(&mut console), Ok(Status::Running));
    assert_eq!(console.output(), &b"Hello".to_vec());
}

#[test]
fn putsp_keeps_zero_low_byte() {
    let (mut vm, mut console) = machine_with(&[PUTSP]);
    vm.registers[0] = 0x5000;
    vm.memory[0x5000] = (b'b' as u16) << 8 | b'a' as u16;
    vm.memory[0x5001] = (b'c' as u16) << 8;
    assert_eq!(vm.step(&mut console), Ok(Status::Running));
    assert_eq!(console.output(), &vec![b'a', b'b', 0, b'c']);
}

#[test]
fn halt_writes_notice_and_stops() {
    let (mut vm, mut console) = machine_with(&[HALT]);
    assert_eq!(vm.step(&mut console), Ok(Status::Halted));
    assert_eq!(console.output(), &b"HALT\n".to_vec());
    assert_eq!(vm.registers[PC], 0x3001);
    assert_eq!(vm.registers[7], 0x3001);
}

#[test]
fn halt_ends_run_without_further_fetches() {
    let (mut vm, mut console) = machine_with(&[0x1021, HALT, 0x1021, 0xD000]);
    assert_eq!(vm.run(&mut console, 1_000_000), Ok(Status::Halted));
    assert_eq!(vm.registers[0], 1);
    assert_eq!(vm.registers[PC], 0x3002);
    assert_eq!(console.output(), &b"HALT\n".to_vec());
}

#[test]
fn unknown_trap_vector_fails() {
    for vector in [0x00u16, 0x1F, 0x26, 0xFF] {
        let (mut vm, mut console) = machine_with(&[0xF000 | vector]);
        assert_eq!(vm.step(&mut console), Err(VmError::InvalidTrap(vector as u8)));
        assert_eq!(vm.registers[7], 0x3001);
        assert_eq!(vm.registers[PC], 0x3001);
        assert!(console.output().is_empty());
    }
}

#[test]
fn unknown_trap_vector_ends_run() {
    let (mut vm, mut console) = machine_with(&[0x1021, 0xF0AA, 0x1021]);
    assert_eq!(vm.run(&mut console, 10), Err(VmError::InvalidTrap(0xAA)));
    assert_eq!(vm.registers[0], 1);
}

#[test]
fn trap_ignores_bits_above_vector() {
    let (mut vm, mut console) = machine_with(&[0xFF25]);
    assert_eq!(vm.step(&mut console), Ok(Status::Halted));
}

#[test]
fn run_stops_when_steps_are_used_up() {
    let (mut vm, mut console) = machine_with(&[0x1021, 0x0FFE]);
    assert_eq!(vm.run(&mut console, 0), Ok(Status::Running));
    assert_eq!(vm.registers[0], 0);
    assert_eq!(vm.registers[PC], 0x3000);
    assert_eq!(vm.run(&mut console, 7), Ok(Status::Running));
    assert_eq!(vm.registers[0], 4);
    assert_eq!(vm.registers[PC], 0x3001);
    assert_eq!(vm.run(&mut console, 1), Ok(Status::Running));
    assert_eq!(vm.registers[PC], 0x3000);
}

#[test]
fn run_pauses_for_input_and_resumes() {
    let (mut vm, mut console) = machine_with(&[GETC, OUT, GETC, OUT, HALT]);
    console.feed(b'1');
    assert_eq!(vm.run(&mut console, 100), Ok(Status::AwaitingInput));
    assert_eq!(console.output(), &b"1".to_vec());
    assert_eq!(vm.registers[PC], 0x3002);
    assert_eq!(vm.run(&mut console, 100), Ok(Status::AwaitingInput));
    console.feed(b'2');
    assert_eq!(vm.run(&mut console, 100), Ok(Status::Halted));
    assert_eq!(console.output(), &b"12HALT\n".to_vec());
}

#[test]
fn run_counts_down_and_prints() {
    // R1 = 3; loop: R0 = '0' + R1; OUT; R1 -= 1; BRp loop; HALT
    let program = [
        0x5260, // AND R1, R1, #0
        0x1263, // ADD R1, R1, #3
        0x2006, // LD R0, +6 -> 0x3009
        0x1001, // ADD R0, R0, R1
        OUT,
        0x127F, // ADD R1, R1, #-1
        0x03FB, // BRp -5 -> 0x3002
        HALT,
        0,
        0x0030,
    ];
    let (mut vm, mut console) = machine_with(&program);
    assert_eq!(vm.run(&mut console, 1000), Ok(Status::Halted));
    assert_eq!(console.output(), &b"321HALT\n".to_vec());
    assert_eq!(vm.registers[1], 0);
    assert_eq!(vm.registers[COND], 2);
}

#[test]
fn keyboard_polling_program() {
    // wait: LDI R0, KBSR; BRzp wait; LDI R0, KBDR; OUT; HALT
    let program = [0xA004, 0x07FE, 0xA003, OUT, HALT, 0xFE00, 0xFE02];
    let (mut vm, mut console) = machine_with(&program);
    assert_eq!(vm.run(&mut console, 50), Ok(Status::Running));
    assert!(console.output().is_empty());
    console.feed(b'w');
    assert_eq!(vm.run(&mut console, 50), Ok(Status::Halted));
    assert_eq!(console.output(), &b"wHALT\n".to_vec());
}

#[test]
fn loaded_image_runs() {
    let mut vm = Box::new(VM::new());
    let mut console = Console::new();
    let image = [
        0x30, 0x00, // origin
        0xE0, 0x02, // LEA R0, +2
        0xF0, 0x22, // PUTS
        0xF0, 0x25, // HALT
        0x00, 0x4F, 0x00, 0x4B, 0x00, 0x00, // "OK"
    ];
    assert_eq!(vm.load_to_memory(&image), Ok(()));
    assert_eq!(vm.run(&mut console, 10), Ok(Status::Halted));
    assert_eq!(console.output(), &b"OKHALT\n".to_vec());
}
