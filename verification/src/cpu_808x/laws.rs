//! Laws of the instruction set, proved of `Arch::executed`: what holds of
//! every state and every instruction of a kind, beyond what a single
//! contract says.
use vstd::prelude::*;
use crate::cpu_808x::biu::{add16, lemma_add16_add};

use crate::cpu_808x::execute::{is_compare_string, is_plain_string};
use crate::cpu_808x::instruction::{Instruction, OperandType};
use crate::cpu_808x::registers::{
    lemma_flag_word_round_trip,
    reg16_of_index,
    Register16,
    Register8,
    Registers,
};
use crate::cpu_808x::stack::{lemma_push_pop_round_trip, lemma_pushf_popf_round_trip};
use crate::cpu_808x::state::{Arch, ExecutionResult};

verus! {

/// The opcodes of the string instructions.
pub open spec fn is_string_opcode(op: u8) -> bool {
    0xA4 <= op <= 0xAF && op != 0xA8 && op != 0xA9
}

/// The prologue changes neither registers nor memory nor ports, and it
/// changes the flags only where off-rails detection halts on a zero opcode.
pub proof fn lemma_prologue_frame(a: Arch, i: Instruction)
    ensures
        a.prologue(i).regs == a.regs,
        a.prologue(i).mem == a.mem,
        a.prologue(i).io_in == a.io_in,
        a.prologue(i).io_out == a.io_out,
        i.opcode != 0 ==> a.prologue(i).flags == a.flags,
        i.opcode != 0 ==> a.prologue(i).ctl.halted == a.ctl.halted,
        a.prologue(i).ctl.pending_interrupt == a.ctl.pending_interrupt,
        !i.prefixes.any_rep() ==> a.prologue(i).ctl.in_rep == a.ctl.in_rep,
        i.prefixes.any_rep() && (is_plain_string(i.mnemonic) || is_compare_string(i.mnemonic))
            ==> a.prologue(i).ctl.in_rep,
{
}

/// A string instruction under a repeat prefix that is entered with CX zero
/// runs no iteration: no register but IP changes, no flag and no byte of
/// memory changes, the repeat is over, and IP is past the instruction.
pub proof fn lemma_rep_with_cx_zero(a: Arch, i: Instruction, code: Seq<u8>)
    requires
        is_string_opcode(i.opcode),
        i.prefixes.any_rep(),
        is_plain_string(i.mnemonic) || is_compare_string(i.mnemonic),
        a.regs.cx == 0,
    ensures
        a.executed(i, code).0.regs == (Registers {
            ip: add16(a.regs.ip, i.size as int),
            ..a.regs
        }),
        a.executed(i, code).0.flags == a.flags,
        a.executed(i, code).0.mem == a.mem,
        a.executed(i, code).0.io_out == a.io_out,
        !a.executed(i, code).0.ctl.in_rep,
        !(a.ctl.halted && !a.flags.interrupt) ==> a.executed(i, code).1 == ExecutionResult::Okay,
{
    reveal(Arch::executed);
    reveal(Arch::dispatch);
    lemma_prologue_frame(a, i);
}

/// One element of a string instruction changes neither IP, CS, CX, SS nor
/// SP, nor the control state.
#[verifier::rlimit(50)]
pub proof fn lemma_string_step_frame(
    a: Arch,
    m: crate::cpu_808x::instruction::Mnemonic,
    ovr: crate::cpu_808x::registers::SegmentOverride,
)
    ensures
        a.string_step(m, ovr).regs.ip == a.regs.ip,
        a.string_step(m, ovr).regs.cs == a.regs.cs,
        a.string_step(m, ovr).regs.cx == a.regs.cx,
        a.string_step(m, ovr).regs.ss == a.regs.ss,
        a.string_step(m, ovr).regs.sp == a.regs.sp,
        a.string_step(m, ovr).ctl == a.ctl,
{
    crate::cpu_808x::registers::lemma_byte_registers(
        a.regs,
        Register8::AL,
        crate::cpu_808x::bus::mem_read8(a.mem, a.string_src(ovr)),
    );
}

/// One element of a string instruction keeps the size of memory.
#[verifier::rlimit(50)]
pub proof fn lemma_string_step_memory(
    a: Arch,
    m: crate::cpu_808x::instruction::Mnemonic,
    ovr: crate::cpu_808x::registers::SegmentOverride,
)
    requires
        a.mem.len() == 0x100000,
    ensures
        a.string_step(m, ovr).mem.len() == 0x100000,
{
}

/// What a repeated MOVS, STOS or LODS does when an interrupt is pending.
proof fn lemma_string_pass_interrupted(a: Arch, i: Instruction)
    requires
        a.ctl.in_rep,
        a.regs.cx != 0,
        a.ctl.pending_interrupt,
        a.mem.len() == 0x100000,
    ensures
        a.string_pass(i, false).1.stay,
        !a.string_pass(i, false).1.jump,
        a.string_pass(i, false).0.regs.ip == a.regs.ip,
        a.string_pass(i, false).0.regs.cs == a.regs.cs,
        a.string_pass(i, false).0.regs.cx == add16(a.regs.cx, -1),
        !a.string_pass(i, false).0.ctl.in_rep,
        a.string_pass(i, false).0.mem.len() == a.mem.len(),
{
    lemma_string_step_frame(a, i.mnemonic, i.segment_override);
    lemma_string_step_memory(a, i.mnemonic, i.segment_override);
}

/// A repeated MOVS, STOS or LODS that finds an interrupt pending runs its
/// iteration, counts CX down once and leaves the repeat with IP still on the
/// prefixed instruction; delivery of the interrupt followed by IRET then
/// brings back every register, CX among them, so that the repeat resumes
/// where it was.
#[verifier::rlimit(50)]
pub proof fn lemma_interrupted_rep_resumes(a: Arch, i: Instruction, code: Seq<u8>, n: u8)
    requires
        a.mem.len() == 0x100000,
        is_string_opcode(i.opcode),
        i.opcode != 0xA6 && i.opcode != 0xA7 && i.opcode != 0xAE && i.opcode != 0xAF,
        i.prefixes.any_rep(),
        is_plain_string(i.mnemonic),
        a.regs.cx != 0,
        a.ctl.pending_interrupt,
    ensures
        a.executed(i, code).0.regs.ip == a.regs.ip,
        a.executed(i, code).0.regs.cs == a.regs.cs,
        a.executed(i, code).0.regs.cx == add16(a.regs.cx, -1),
        !a.executed(i, code).0.ctl.in_rep,
        a.executed(i, code).0.interrupted(n).iret().regs == a.executed(i, code).0.regs,
        a.executed(i, code).0.interrupted(n).iret().flags == a.executed(i, code).0.flags,
{
    reveal(Arch::executed);
    reveal(Arch::dispatch);
    lemma_prologue_frame(a, i);
    let p = a.prologue(i);
    lemma_string_pass_interrupted(p, i);
    assert(p.dispatch(i, code) == p.string_pass(i, false));
    let d = p.string_pass(i, false);
    let b = a.executed(i, code).0;
    assert(b == d.0.epilogue(i, d.1).0);
    assert(b.mem == d.0.mem);
    assert(b.regs == d.0.regs);
    crate::cpu_808x::interrupt::lemma_interrupt_iret_round_trip(b, n);
}

/// What PUSH of a word register does, prologue and epilogue included.
#[verifier::rlimit(50)]
proof fn lemma_executed_push(a: Arch, i: Instruction, code: Seq<u8>)
    requires
        0x50 <= i.opcode < 0x58,
        !i.prefixes.any_rep(),
        !a.ctl.in_rep,
    ensures
        a.executed(i, code).0.regs == (Registers {
            ip: add16(a.regs.ip, i.size as int),
            ..a.push_reg(reg16_of_index(i.opcode as int % 8)).regs
        }),
        a.executed(i, code).0.mem == a.push_reg(reg16_of_index(i.opcode as int % 8)).mem,
        a.executed(i, code).0.flags == a.flags,
        !a.executed(i, code).0.ctl.in_rep,
        !(a.ctl.halted && !a.flags.interrupt) ==> a.executed(i, code).1 == ExecutionResult::Okay,
        a.ctl.halted && !a.flags.interrupt ==> a.executed(i, code).1 == ExecutionResult::Halt,
        a.executed(i, code).0.ctl.halted == a.ctl.halted,
{
    reveal(Arch::executed);
    reveal(Arch::dispatch);
    lemma_prologue_frame(a, i);
    let p = a.prologue(i);
    let r = reg16_of_index(i.opcode as int % 8);
    assert(p.dispatch(i, code) == (p.push_reg(r), crate::cpu_808x::exec_common::Flow::next()));
    assert(p.push_reg(r).regs == a.push_reg(r).regs);
    assert(p.push_reg(r).mem == a.push_reg(r).mem);
}

/// What POP into a word register does, prologue and epilogue included.
#[verifier::rlimit(50)]
proof fn lemma_executed_pop(a: Arch, i: Instruction, code: Seq<u8>)
    requires
        0x58 <= i.opcode < 0x60,
        !i.prefixes.any_rep(),
        !a.ctl.in_rep,
    ensures
        a.executed(i, code).0.regs == (Registers {
            ip: add16(a.regs.ip, i.size as int),
            ..a.pop_reg(reg16_of_index(i.opcode as int % 8)).regs
        }),
        a.executed(i, code).0.mem == a.mem,
        a.executed(i, code).0.flags == a.flags,
        !(a.ctl.halted && !a.flags.interrupt) ==> a.executed(i, code).1 == ExecutionResult::Okay,
        a.ctl.halted && !a.flags.interrupt ==> a.executed(i, code).1 == ExecutionResult::Halt,
{
    reveal(Arch::executed);
    reveal(Arch::dispatch);
    lemma_prologue_frame(a, i);
    let p = a.prologue(i);
    let r = reg16_of_index(i.opcode as int % 8);
    assert(p.dispatch(i, code) == (p.pop_reg(r), crate::cpu_808x::exec_common::Flow::next()));
    assert(p.pop_reg(r).regs == a.pop_reg(r).regs);
}

/// POP into a general register takes no notice of IP.
proof fn lemma_pop_reg_apart_from_ip(s: Arch, t: Arch, r: Register16)
    requires
        r != Register16::IP,
        t.mem == s.mem,
        t.regs == (Registers { ip: t.regs.ip, ..s.regs }),
    ensures
        t.top16() == s.top16(),
        t.pop_reg(r).regs == (Registers { ip: t.regs.ip, ..s.pop_reg(r).regs }),
{
}

/// PUSH of a word register followed by POP into the same register is the
/// identity on the registers, but for IP, which is past both instructions.
/// That holds for SP too, where the word that lies on the stack in between
/// is SP as it is after the decrement.
#[verifier::rlimit(50)]
pub proof fn lemma_push_pop_is_identity(
    a: Arch,
    push: Instruction,
    pop: Instruction,
    c1: Seq<u8>,
    c2: Seq<u8>,
)
    requires
        a.mem.len() == 0x100000,
        0x50 <= push.opcode < 0x58,
        pop.opcode == push.opcode + 8,
        !push.prefixes.any_rep(),
        !pop.prefixes.any_rep(),
        !a.ctl.in_rep,
    ensures
        a.executed(push, c1).0.executed(pop, c2).0.regs == (Registers {
            ip: add16(add16(a.regs.ip, push.size as int), pop.size as int),
            ..a.regs
        }),
        a.executed(push, c1).0.executed(pop, c2).0.flags == a.flags,
        a.executed(push, c1).0.top16() == a.pushed_value(
            reg16_of_index(push.opcode as int % 8),
        ),
{
    let r = reg16_of_index(push.opcode as int % 8);
    assert(reg16_of_index(pop.opcode as int % 8) == r);
    lemma_executed_push(a, push, c1);
    let s1 = a.executed(push, c1).0;
    lemma_executed_pop(s1, pop, c2);
    lemma_push_pop_round_trip(a, r);
    lemma_pop_reg_apart_from_ip(a.push_reg(r), s1, r);
}

/// PUSHF followed by POPF keeps every architecturally defined flag, whatever
/// happened to the flags in between is undone, and every register but IP is
/// as before.
pub proof fn lemma_pushf_popf_is_identity(
    a: Arch,
    pushf: Instruction,
    popf: Instruction,
    c1: Seq<u8>,
    c2: Seq<u8>,
)
    requires
        a.mem.len() == 0x100000,
        pushf.opcode == 0x9C,
        popf.opcode == 0x9D,
        !pushf.prefixes.any_rep(),
        !popf.prefixes.any_rep(),
        !a.ctl.in_rep,
    ensures
        a.executed(pushf, c1).0.executed(popf, c2).0.flags == a.flags,
        a.executed(pushf, c1).0.executed(popf, c2).0.regs == (Registers {
            ip: add16(add16(a.regs.ip, pushf.size as int), popf.size as int),
            ..a.regs
        }),
{
    reveal(Arch::executed);
    reveal(Arch::dispatch);
    lemma_prologue_frame(a, pushf);
    let p = a.prologue(pushf);
    lemma_pushf_popf_round_trip(p);
    let s1 = a.executed(pushf, c1).0;
    assert(s1.mem == p.push_flags().mem);
    lemma_prologue_frame(s1, popf);
    let q = s1.prologue(popf);
    assert(q.top16() == p.push_flags().top16());
    lemma_flag_word_round_trip(a.flags);
    lemma_add16_add(a.regs.sp, -2, 2);
}

/// A shift or rotate of a byte register by a count of zero writes back what
/// it read.
proof fn lemma_shift_byte_by_zero(a: Arch, i: Instruction, code: Seq<u8>, both: bool)
    requires
        i.operand1_type is Register8,
        !(i.operand2_type is AddressingMode),
    ensures
        a.shift_byte(i, code, 0, both) == a,
{
    reveal(Registers::get8);
    reveal(Registers::set8);
}

/// A shift or rotate of a word register by a count of zero writes back what
/// it read.
proof fn lemma_shift_word_by_zero(a: Arch, i: Instruction, code: Seq<u8>, both: bool)
    requires
        i.operand1_type is Register16,
        !(i.operand2_type is AddressingMode),
    ensures
        a.shift_word(i, code, 0, both) == a,
{
}

/// A shift or rotate by a count of zero changes no flag.
proof fn lemma_shift_by_zero_flags(a: Arch, i: Instruction, code: Seq<u8>, both: bool)
    ensures
        a.shift_byte(i, code, 0, both).flags == a.flags,
        a.shift_word(i, code, 0, both).flags == a.flags,
        a.shift_byte(i, code, 0, both).ctl.in_rep == a.ctl.in_rep,
        a.shift_word(i, code, 0, both).ctl.in_rep == a.ctl.in_rep,
        a.shift_byte(i, code, 0, both).ctl.halted == a.ctl.halted,
        a.shift_word(i, code, 0, both).ctl.halted == a.ctl.halted,
{
}

/// A shift or rotate by CL with CL zero changes no flag, and where its
/// operand is a register it changes no register but IP, and no memory.
#[verifier::rlimit(50)]
pub proof fn lemma_shift_by_zero(a: Arch, i: Instruction, code: Seq<u8>)
    requires
        i.opcode == 0xD2 || i.opcode == 0xD3,
        i.operand2_type == OperandType::Register8(Register8::CL),
        a.regs.get8(Register8::CL) == 0,
        !i.prefixes.any_rep(),
        !a.ctl.in_rep,
    ensures
        a.executed(i, code).0.flags == a.flags,
        (i.opcode == 0xD2 && i.operand1_type is Register8) || (i.opcode == 0xD3
            && i.operand1_type is Register16) ==> a.executed(i, code).0.regs == (Registers {
            ip: add16(a.regs.ip, i.size as int),
            ..a.regs
        }) && a.executed(i, code).0.mem == a.mem,
{
    reveal(Arch::executed);
    reveal(Arch::dispatch);
    lemma_prologue_frame(a, i);
    let p = a.prologue(i);
    assert(p.op2_8(i, code) == 0);
    lemma_shift_by_zero_flags(p, i, code, true);
    if i.opcode == 0xD2 {
        assert(p.dispatch(i, code) == (
            p.shift_byte(i, code, 0, true),
            crate::cpu_808x::exec_common::Flow::next(),
        ));
        if i.operand1_type is Register8 {
            lemma_shift_byte_by_zero(p, i, code, true);
        }
    } else {
        assert(p.dispatch(i, code) == (
            p.shift_word(i, code, 0, true),
            crate::cpu_808x::exec_common::Flow::next(),
        ));
        if i.operand1_type is Register16 {
            lemma_shift_word_by_zero(p, i, code, true);
        }
    }
}

} // verus!
