//! Properties of the fetch-decode-execute cycle that follow from its
//! definition.

use crate::bits::wrapping_sum;
use crate::console::ConsoleView;
use crate::flags::Flags;
use crate::instruction::{dr, has_offset_target, pc_offset11, pc_offset9, sr1, sr2};
use crate::machine::{read_memory, run, step, trap_of, Machine, Status, VmError, PC_START};
use crate::opcode::Opcode;
use crate::register::{MemMapReg, KEYBOARD_STATUS};
use crate::trap::{halt_text, Trap};
use vstd::prelude::*;

verus! {

/// The instruction that a step fetches.
pub open spec fn fetched(m: Machine, c: ConsoleView) -> u16 {
    read_memory(m, c, m.pc()).value
}

/// Whether an instruction class writes a destination register.
pub open spec fn writes_destination(op: Opcode) -> bool {
    ||| op == Opcode::ADD
    ||| op == Opcode::AND
    ||| op == Opcode::NOT
    ||| op == Opcode::LD
    ||| op == Opcode::LDI
    ||| op == Opcode::LDR
    ||| op == Opcode::LEA
}

/// Whether the condition register holds one of the three masks.
pub open spec fn has_condition_code(m: Machine) -> bool {
    m.cond() == Flags::POS.mask() || m.cond() == Flags::ZRO.mask() || m.cond()
        == Flags::NEG.mask()
}

/// A register selector names one of the eight general registers.
pub proof fn lemma_register_fields_in_range(instr: u16)
    ensures
        dr(instr) < 8,
        sr1(instr) < 8,
        sr2(instr) < 8,
{
    assert((instr >> 9) & 0x7 < 8) by (bit_vector);
    assert((instr >> 6) & 0x7 < 8) by (bit_vector);
    assert(instr & 0x7 < 8) by (bit_vector);
}

/// A write followed by a read of the same address gives the value
/// written where the address is plain storage. At the keyboard data
/// register the write is ignored and the read gives what the register
/// held; at the keyboard status register the write is ignored and the
/// read polls the keyboard.
pub proof fn lemma_write_then_read(m: Machine, c: ConsoleView, addr: u16, value: u16)
    requires
        m.wf(),
    ensures
        MemMapReg::at(addr) is None ==> read_memory(m.store(addr, value), c, addr).value == value,
        MemMapReg::at(addr) is Some ==> read_memory(m.store(addr, value), c, addr)
            == read_memory(m, c, addr),
        forall|other: u16|
            other != addr ==> read_memory(m.store(addr, value), c, other).value == read_memory(
                m,
                c,
                other,
            ).value,
{
}

/// What a poll of the keyboard status register gives is no TRAP
/// instruction: with a key it is of class RTI, without one of class BR.
pub proof fn lemma_status_word_is_no_trap()
    ensures
        Opcode::of_word(0x8000) == Opcode::RTI,
        Opcode::of_word(0) == Opcode::BR,
{
    assert(0x8000u16 >> 12 == 8) by (bit_vector);
    assert(0u16 >> 12 == 0) by (bit_vector);
}

/// A step keeps the shape of the machine.
pub proof fn lemma_step_preserves_wf(m: Machine, c: ConsoleView)
    requires
        m.wf(),
    ensures
        step(m, c).machine.wf(),
{
    lemma_register_fields_in_range(fetched(m, c));
}

/// A run keeps the shape of the machine.
pub proof fn lemma_run_preserves_wf(m: Machine, c: ConsoleView, fuel: nat)
    requires
        m.wf(),
    ensures
        run(m, c, fuel).machine.wf(),
    decreases fuel,
{
    if fuel > 0 {
        lemma_step_preserves_wf(m, c);
        let t = step(m, c);
        if t.outcome == Ok::<Status, VmError>(Status::Running) {
            lemma_run_preserves_wf(t.machine, t.console, (fuel - 1) as nat);
        }
    }
}

/// A machine starts with well-formed state: the general registers are
/// zero, the program counter is at the start address and the condition
/// register holds a condition code.
pub proof fn lemma_initial_state()
    ensures
        Machine::initial().wf(),
        Machine::initial().pc() == PC_START,
        has_condition_code(Machine::initial()),
        forall|r: u16| r < 8 ==> Machine::initial().reg(r) == 0,
        forall|addr: u16| Machine::initial().word_at(addr) == 0,
{
}

/// A step never leaves the condition register without a condition
/// code: whatever the instruction, the register holds one of the three
/// masks afterwards if it did before.
pub proof fn lemma_step_keeps_condition_code(m: Machine, c: ConsoleView)
    requires
        m.wf(),
        has_condition_code(m),
    ensures
        has_condition_code(step(m, c).machine),
{
    if writes_destination(Opcode::of_word(fetched(m, c))) {
        lemma_destination_sets_flags(m, c);
    } else {
        lemma_other_instructions_keep_flags(m, c);
    }
}

/// A run never leaves the condition register without a condition code.
pub proof fn lemma_run_keeps_condition_code(m: Machine, c: ConsoleView, fuel: nat)
    requires
        m.wf(),
        has_condition_code(m),
    ensures
        has_condition_code(run(m, c, fuel).machine),
    decreases fuel,
{
    if fuel > 0 {
        lemma_step_preserves_wf(m, c);
        lemma_step_keeps_condition_code(m, c);
        let t = step(m, c);
        if t.outcome == Ok::<Status, VmError>(Status::Running) {
            lemma_run_keeps_condition_code(t.machine, t.console, (fuel - 1) as nat);
        }
    }
}

/// After an instruction that writes a destination register, the
/// condition register holds the code of the value now in that
/// register: exactly one of the three masks.
pub proof fn lemma_destination_sets_flags(m: Machine, c: ConsoleView)
    requires
        m.wf(),
        writes_destination(Opcode::of_word(fetched(m, c))),
    ensures
        step(m, c).outcome == Ok::<Status, VmError>(Status::Running),
        step(m, c).machine.cond() == Flags::of(
            step(m, c).machine.reg(dr(fetched(m, c))),
        ).mask(),
        step(m, c).machine.cond() == 1 || step(m, c).machine.cond() == 2 || step(
            m,
            c,
        ).machine.cond() == 4,
{
    lemma_register_fields_in_range(fetched(m, c));
}

/// An instruction that writes no destination register leaves the
/// condition register as it is.
pub proof fn lemma_other_instructions_keep_flags(m: Machine, c: ConsoleView)
    requires
        m.wf(),
        !writes_destination(Opcode::of_word(fetched(m, c))),
    ensures
        step(m, c).machine.cond() == m.cond(),
{
    lemma_register_fields_in_range(fetched(m, c));
}

/// LDI dereferences twice: where neither address is the keyboard
/// status register, the destination takes the word stored at the
/// address that is stored at the program counter plus offset.
pub proof fn lemma_ldi_dereferences_twice(m: Machine, c: ConsoleView)
    requires
        m.wf(),
        m.pc() != KEYBOARD_STATUS,
        Opcode::of_word(fetched(m, c)) == Opcode::LDI,
        wrapping_sum(wrapping_sum(m.pc(), 1), pc_offset9(fetched(m, c))) != KEYBOARD_STATUS,
        m.word_at(wrapping_sum(wrapping_sum(m.pc(), 1), pc_offset9(fetched(m, c))))
            != KEYBOARD_STATUS,
    ensures
        step(m, c).machine.reg(dr(fetched(m, c))) == m.word_at(
            m.word_at(wrapping_sum(wrapping_sum(m.pc(), 1), pc_offset9(fetched(m, c)))),
        ),
        step(m, c).machine.memory == m.memory,
        step(m, c).console == c,
{
    lemma_register_fields_in_range(fetched(m, c));
}

/// STI dereferences once and writes: where the pointer is not read
/// from the keyboard status register and points to plain storage, the
/// source register is stored at the address that is stored at the
/// program counter plus offset.
pub proof fn lemma_sti_writes_through_pointer(m: Machine, c: ConsoleView)
    requires
        m.wf(),
        m.pc() != KEYBOARD_STATUS,
        Opcode::of_word(fetched(m, c)) == Opcode::STI,
        wrapping_sum(wrapping_sum(m.pc(), 1), pc_offset9(fetched(m, c))) != KEYBOARD_STATUS,
        MemMapReg::at(
            m.word_at(wrapping_sum(wrapping_sum(m.pc(), 1), pc_offset9(fetched(m, c)))),
        ) is None,
    ensures
        step(m, c).machine.memory == m.memory.update(
            m.word_at(wrapping_sum(wrapping_sum(m.pc(), 1), pc_offset9(fetched(m, c)))) as int,
            m.reg(dr(fetched(m, c))),
        ),
        step(m, c).console == c,
{
    lemma_register_fields_in_range(fetched(m, c));
}

/// JSR and JSRR leave in R7 the address of the instruction behind
/// them, and with an offset target the program counter moves from that
/// address.
pub proof fn lemma_call_links_return_address(m: Machine, c: ConsoleView)
    requires
        m.wf(),
        Opcode::of_word(fetched(m, c)) == Opcode::JSR,
    ensures
        step(m, c).outcome == Ok::<Status, VmError>(Status::Running),
        step(m, c).machine.reg(7) == wrapping_sum(m.pc(), 1),
        has_offset_target(fetched(m, c)) ==> step(m, c).machine.pc() == wrapping_sum(
            wrapping_sum(m.pc(), 1),
            pc_offset11(fetched(m, c)),
        ),
{
    lemma_register_fields_in_range(fetched(m, c));
}

/// A subroutine returns to its caller: if the step behind a JSR or
/// JSRR is a jump through R7, the program counter is then the address
/// behind the call.
pub proof fn lemma_return_lands_behind_call(m: Machine, c: ConsoleView)
    requires
        m.wf(),
        Opcode::of_word(fetched(m, c)) == Opcode::JSR,
        Opcode::of_word(fetched(step(m, c).machine, step(m, c).console)) == Opcode::JMP,
        sr1(fetched(step(m, c).machine, step(m, c).console)) == 7,
    ensures
        step(step(m, c).machine, step(m, c).console).machine.pc() == wrapping_sum(m.pc(), 1),
{
    lemma_call_links_return_address(m, c);
    lemma_step_preserves_wf(m, c);
    let called = step(m, c);
    lemma_register_fields_in_range(fetched(called.machine, called.console));
}

/// A reserved instruction class ends step and run with the
/// invalid-opcode error that names the instruction word. The fetch has
/// taken place and the program counter has advanced; the general
/// registers, the condition register and, unless the instruction was
/// polled from the keyboard status register, memory and console are
/// as before.
pub proof fn lemma_reserved_class_faults(m: Machine, c: ConsoleView, fuel: nat)
    requires
        m.wf(),
        fuel > 0,
        Opcode::of_word(fetched(m, c)).is_reserved(),
    ensures
        step(m, c).outcome == Err::<Status, VmError>(VmError::InvalidOpcode(fetched(m, c))),
        run(m, c, fuel) == step(m, c),
        step(m, c).machine.pc() == wrapping_sum(m.pc(), 1),
        forall|r: u16| r < 8 ==> step(m, c).machine.reg(r) == m.reg(r),
        step(m, c).machine.cond() == m.cond(),
        m.pc() != KEYBOARD_STATUS ==> step(m, c).machine.memory == m.memory && step(m, c).console
            == c,
{
}

/// The HALT trap ends step and run, however much fuel is left: R7 and
/// the program counter hold the address behind the trap, the notice
/// has been written, and memory is as before.
pub proof fn lemma_halt_ends_run(m: Machine, c: ConsoleView, fuel: nat)
    requires
        m.wf(),
        fuel > 0,
        trap_of(fetched(m, c)) == Some(Trap::HALT),
    ensures
        step(m, c).outcome == Ok::<Status, VmError>(Status::Halted),
        run(m, c, fuel) == step(m, c),
        step(m, c).machine.pc() == wrapping_sum(m.pc(), 1),
        step(m, c).machine.reg(7) == wrapping_sum(m.pc(), 1),
        step(m, c).machine.memory == m.memory,
        step(m, c).console == c.emit_all(halt_text()),
{
    lemma_status_word_is_no_trap();
}

/// Once a run has ended, more fuel changes nothing: no instruction is
/// fetched behind the step that ended it.
pub proof fn lemma_run_ends_once(m: Machine, c: ConsoleView, fuel: nat, more: nat)
    requires
        run(m, c, fuel).outcome != Ok::<Status, VmError>(Status::Running),
        fuel <= more,
    ensures
        run(m, c, more) == run(m, c, fuel),
    decreases fuel,
{
    if fuel > 0 {
        let t = step(m, c);
        if t.outcome == Ok::<Status, VmError>(Status::Running) {
            lemma_run_ends_once(t.machine, t.console, (fuel - 1) as nat, (more - 1) as nat);
        }
    }
}

/// A step that waits for a key changes neither registers nor memory,
/// and there was no key to take.
pub proof fn lemma_waiting_keeps_state(m: Machine, c: ConsoleView)
    requires
        m.wf(),
        step(m, c).outcome == Ok::<Status, VmError>(Status::AwaitingInput),
    ensures
        step(m, c).machine.registers == m.registers,
        step(m, c).machine.memory == m.memory,
        step(m, c).console.pending == c.pending,
        !c.has_key(),
{
    lemma_status_word_is_no_trap();
    lemma_register_fields_in_range(fetched(m, c));
}

} // verus!
