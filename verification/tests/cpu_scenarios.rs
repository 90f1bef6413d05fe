use marty::cpu_808x::biu::QueueType;
use marty::cpu_808x::bus::MEM_RET_BIT;
use marty::cpu_808x::callstack::CallStackEntry;
use marty::cpu_808x::instruction::{
    AddressingMode, Instruction, Mnemonic, OperandType, Prefixes,
};
use marty::cpu_808x::muldiv::CpuException;
use marty::cpu_808x::registers::{Register16, Register8, SegmentOverride};
use marty::cpu_808x::state::{Cpu, CpuWarning, ExecutionResult, RepType};

const CODE_SEG: u16 = 0x1000;
const CODE_OFF: u16 = 0x0100;

fn linear(seg: u16, off: u16) -> usize {
    ((seg as usize) * 16 + off as usize) & 0xFFFFF
}

fn instr(opcode: u8, mnemonic: Mnemonic, op1: OperandType, op2: OperandType, size: u16) -> Instruction {
    Instruction {
        opcode,
        mnemonic,
        prefixes: Prefixes { lock: false, rep1: false, rep2: false, segment_override: false },
        segment_override: SegmentOverride::NoOverride,
        operand1_type: op1,
        operand2_type: op2,
        size,
        group_delay: false,
    }
}

/// A CPU with `code` at CS:IP and a full queue.
fn machine(code: &[u8]) -> Cpu {
    let mut cpu = Cpu::new();
    cpu.regs.cs = CODE_SEG;
    cpu.regs.ip = CODE_OFF;
    cpu.regs.ss = 0x3000;
    cpu.regs.sp = 0x0200;
    cpu.regs.ds = 0x2000;
    cpu.regs.es = 0x2800;
    cpu.bus.copy_from(&code.to_vec(), linear(CODE_SEG, CODE_OFF));
    cpu.biu_queue_flush();
    cpu.cycles(20);
    assert_eq!(cpu.biu.queue_len(), 4);
    cpu
}

/// What the decode stage does: takes `n` bytes from the queue.
fn decode(cpu: &mut Cpu, n: usize) {
    for k in 0..n {
        let t = if k == 0 { QueueType::First } else { QueueType::Subsequent };
        cpu.q_read_u8(t);
    }
}

fn step(cpu: &mut Cpu, decoded: usize, i: Instruction) -> ExecutionResult {
    cpu.biu.clear_instr_cycle();
    decode(cpu, decoded);
    cpu.i = i;
    assert!(cpu.i.is_valid());
    cpu.execute_instruction()
}

fn reg16(r: Register16) -> OperandType {
    OperandType::Register16(r)
}

fn reg8(r: Register8) -> OperandType {
    OperandType::Register8(r)
}

#[test]
fn add_ax_bx_sets_flags_and_takes_three_cycles() {
    let mut cpu = machine(&[0x01, 0xD8, 0x90, 0x90, 0x90, 0x90]);
    cpu.regs.ax = 0x7FFF;
    cpu.regs.bx = 0x0001;
    let r = step(
        &mut cpu,
        2,
        instr(0x01, Mnemonic::ADD, reg16(Register16::AX), reg16(Register16::BX), 2),
    );
    assert_eq!(r, ExecutionResult::Okay);
    assert_eq!(cpu.regs.ax, 0x8000);
    assert!(cpu.flags.overflow);
    assert!(cpu.flags.sign);
    assert!(!cpu.flags.zero);
    assert!(!cpu.flags.carry);
    assert!(cpu.flags.aux_carry);
    assert!(cpu.flags.parity);
    assert_eq!(cpu.biu.instr_cycle(), 3);
    assert_eq!(cpu.regs.ip, CODE_OFF + 2);
}

#[test]
fn mul_bl_under_rep_prefix_negates_the_product() {
    let mut cpu = machine(&[0xF3, 0xF6, 0xE3, 0x90, 0x90]);
    cpu.regs.ax = 0x0003;
    cpu.regs.bx = 0x0004;
    let mut i = instr(0xF6, Mnemonic::MUL, reg8(Register8::BL), OperandType::NoOperand, 3);
    i.prefixes.rep2 = true;
    let r = step(&mut cpu, 3, i);
    assert_eq!(r, ExecutionResult::Okay);
    assert_eq!(cpu.regs.ax, 0xFFF4);
    assert!(cpu.flags.sign);
    assert!(!cpu.flags.zero);
    assert!(cpu.flags.carry);
    assert!(cpu.flags.overflow);
    assert!(!cpu.ctl.in_rep);
    assert_eq!(cpu.ctl.warning, CpuWarning::NoWarning);
    assert_eq!(cpu.regs.ip, CODE_OFF + 3);
}

#[test]
fn mul_bl_without_prefix() {
    let mut cpu = machine(&[0xF6, 0xE3, 0x90, 0x90, 0x90]);
    cpu.regs.ax = 0x0003;
    cpu.regs.bx = 0x0004;
    let i = instr(0xF6, Mnemonic::MUL, reg8(Register8::BL), OperandType::NoOperand, 2);
    step(&mut cpu, 2, i);
    assert_eq!(cpu.regs.ax, 12);
    assert!(!cpu.flags.carry);
    assert!(!cpu.flags.overflow);
    assert!(cpu.flags.zero);
}

fn movsb_rep() -> Instruction {
    let mut i = instr(0xA4, Mnemonic::MOVSB, OperandType::NoOperand, OperandType::NoOperand, 2);
    i.prefixes.rep2 = true;
    i
}

#[test]
fn rep_movsb_interrupted() {
    let mut cpu = machine(&[0xF3, 0xA4, 0x90, 0x90, 0x90]);
    cpu.regs.ds = 0x0000;
    cpu.regs.si = 0x0000;
    cpu.regs.es = 0x0000;
    cpu.regs.di = 0x1000;
    cpu.regs.cx = 5;
    cpu.flags.interrupt = true;
    cpu.bus.copy_from(&vec![11, 22, 33, 44, 55], 0);
    // Vector 8 points at 0x4000:0x0020, where an IRET stands.
    cpu.bus.write_u16(8 * 4, 0x0020);
    cpu.bus.write_u16(8 * 4 + 2, 0x4000);
    cpu.bus.write_u8(linear(0x4000, 0x0020), 0xCF);

    let r = step(&mut cpu, 2, movsb_rep());
    assert_eq!(r, ExecutionResult::OkayRep);
    assert_eq!(cpu.regs.cx, 4);
    assert!(cpu.ctl.in_rep);
    assert_eq!(cpu.ctl.rep_type, RepType::Rep);

    cpu.assert_intr(8);
    assert!(cpu.ctl.pending_interrupt);
    let r = cpu.execute_instruction();
    assert_eq!(r, ExecutionResult::Okay);
    assert!(!cpu.ctl.in_rep);
    assert_eq!(cpu.regs.cx, 3);
    assert_eq!(cpu.regs.si, 2);
    assert_eq!(cpu.regs.di, 0x1002);
    assert_eq!(cpu.regs.ip, CODE_OFF);
    assert_eq!(cpu.biu.queue_len(), 0);
    assert_eq!(cpu.bus.read_u8(0x1000), 11);
    assert_eq!(cpu.bus.read_u8(0x1001), 22);
    assert_eq!(cpu.bus.read_u8(0x1002), 0);

    let flags_before = cpu.flags.to_word();
    let n = cpu.service_pending_interrupt();
    assert_eq!(n, Some(8));
    assert_eq!(cpu.regs.cs, 0x4000);
    assert_eq!(cpu.regs.ip, 0x0020);
    assert!(!cpu.flags.interrupt);
    assert!(!cpu.flags.trap);
    assert_eq!(cpu.regs.sp, 0x0200 - 6);
    assert_eq!(cpu.bus.read_u16(linear(0x3000, 0x01FE)), flags_before);
    assert_eq!(cpu.bus.read_u16(linear(0x3000, 0x01FC)), CODE_SEG);
    assert_eq!(cpu.bus.read_u16(linear(0x3000, 0x01FA)), CODE_OFF);
    assert_eq!(cpu.regs.cx, 3);

    cpu.deassert_intr();
    let r = step(
        &mut cpu,
        1,
        instr(0xCF, Mnemonic::IRET, OperandType::NoOperand, OperandType::NoOperand, 1),
    );
    assert_eq!(r, ExecutionResult::OkayJump);
    assert_eq!(cpu.regs.cs, CODE_SEG);
    assert_eq!(cpu.regs.ip, CODE_OFF);
    assert_eq!(cpu.regs.sp, 0x0200);
    assert!(cpu.flags.interrupt);
    assert_eq!(cpu.regs.cx, 3);

    // The repeat resumes with the same CX and runs to its end.
    let mut r = step(&mut cpu, 2, movsb_rep());
    let mut guard = 0;
    while r == ExecutionResult::OkayRep {
        r = cpu.execute_instruction();
        guard += 1;
        assert!(guard < 10);
    }
    assert_eq!(r, ExecutionResult::Okay);
    assert_eq!(cpu.regs.cx, 0);
    assert_eq!(cpu.regs.si, 5);
    assert_eq!(cpu.regs.di, 0x1005);
    assert_eq!(cpu.regs.ip, CODE_OFF + 2);
    for (k, v) in [11u8, 22, 33, 44, 55].iter().enumerate() {
        assert_eq!(cpu.bus.read_u8(0x1000 + k), *v);
    }
}

fn shl_ax_cl() -> Instruction {
    instr(0xD3, Mnemonic::SHL, reg16(Register16::AX), reg8(Register8::CL), 2)
}

#[test]
fn shift_by_cl_255() {
    let code = [0xD3, 0xE0, 0x90, 0x90, 0x90];
    let mut base = machine(&code);
    base.regs.ax = 0x0001;
    base.regs.cx = 0x0000;
    step(&mut base, 2, shl_ax_cl());
    let base_cycles = base.biu.instr_cycle();

    let mut cpu = machine(&code);
    cpu.regs.ax = 0x0001;
    cpu.regs.cx = 0x00FF;
    let r = step(&mut cpu, 2, shl_ax_cl());
    assert_eq!(r, ExecutionResult::Okay);
    assert_eq!(cpu.regs.ax, 0x0000);
    assert!(!cpu.flags.carry);
    assert!(cpu.flags.zero);
    assert_eq!(cpu.biu.instr_cycle(), base_cycles + 4 * 255);
    assert_eq!(base_cycles, 2 + 6);
}

#[test]
fn shift_by_cl_16_moves_last_bit_into_carry() {
    let mut cpu = machine(&[0xD3, 0xE0, 0x90, 0x90, 0x90]);
    cpu.regs.ax = 0x0001;
    cpu.regs.cx = 0x0010;
    step(&mut cpu, 2, shl_ax_cl());
    assert_eq!(cpu.regs.ax, 0);
    assert!(cpu.flags.carry);
    assert!(cpu.flags.overflow);
}

#[test]
fn shift_by_zero_sets_no_flags_and_takes_its_cycles() {
    let mut cpu = machine(&[0xD3, 0xE0, 0x90, 0x90, 0x90]);
    cpu.regs.ax = 0x8001;
    cpu.regs.cx = 0x0000;
    cpu.flags.carry = true;
    cpu.flags.zero = true;
    cpu.flags.sign = false;
    cpu.flags.overflow = true;
    cpu.flags.aux_carry = true;
    cpu.flags.parity = false;
    let before = cpu.flags;
    let r = step(&mut cpu, 2, shl_ax_cl());
    assert_eq!(r, ExecutionResult::Okay);
    assert_eq!(cpu.regs.ax, 0x8001);
    assert_eq!(cpu.flags, before);
    assert_eq!(cpu.biu.instr_cycle(), 8);
}

#[test]
fn hlt_with_interrupts_off_is_permanent() {
    let mut cpu = machine(&[0xFA, 0xF4, 0x90, 0x90, 0x90]);
    cpu.flags.interrupt = true;
    let r = step(
        &mut cpu,
        1,
        instr(0xFA, Mnemonic::CLI, OperandType::NoOperand, OperandType::NoOperand, 1),
    );
    assert_eq!(r, ExecutionResult::Okay);
    assert!(!cpu.flags.interrupt);
    let r = step(
        &mut cpu,
        1,
        instr(0xF4, Mnemonic::HLT, OperandType::NoOperand, OperandType::NoOperand, 1),
    );
    assert_eq!(r, ExecutionResult::Halt);
    assert!(cpu.ctl.halted);
    assert!(!cpu.flags.interrupt);
    let q = cpu.biu.queue_len();
    cpu.cycles(20);
    assert_eq!(cpu.biu.queue_len(), q);
}

#[test]
fn hlt_with_interrupts_on_waits() {
    let mut cpu = machine(&[0xF4, 0x90, 0x90, 0x90, 0x90]);
    cpu.flags.interrupt = true;
    let r = step(
        &mut cpu,
        1,
        instr(0xF4, Mnemonic::HLT, OperandType::NoOperand, OperandType::NoOperand, 1),
    );
    assert_eq!(r, ExecutionResult::Okay);
    assert!(cpu.ctl.halted);
    cpu.bus.write_u16(2 * 4, 0x0000);
    cpu.bus.write_u16(2 * 4 + 2, 0x5000);
    cpu.assert_nmi();
    assert_eq!(cpu.service_pending_interrupt(), Some(2));
    assert!(!cpu.ctl.halted);
    assert_eq!(cpu.regs.cs, 0x5000);
}

#[test]
fn call_stack_unwinds_at_return_marker() {
    // CALL +3 ; NOP ; NOP ; NOP ; RET
    let mut cpu = machine(&[0xE8, 0x03, 0x00, 0x90, 0x90, 0x90, 0xC3]);
    let before = cpu.call_stack.len();
    let r = step(
        &mut cpu,
        1,
        instr(0xE8, Mnemonic::CALL, OperandType::Relative16, OperandType::NoOperand, 3),
    );
    assert_eq!(r, ExecutionResult::OkayJump);
    assert_eq!(cpu.regs.ip, CODE_OFF + 6);
    assert_eq!(cpu.call_stack.len(), before + 1);
    assert_eq!(
        cpu.call_stack.get(before),
        Some(CallStackEntry::Call { ret_cs: CODE_SEG, ret_ip: CODE_OFF + 3, call_ip: CODE_OFF + 6 })
    );
    let ret = linear(CODE_SEG, CODE_OFF + 3);
    assert_eq!(cpu.bus.get_flags(ret) & MEM_RET_BIT, MEM_RET_BIT);
    assert_eq!(cpu.bus.read_u16(linear(0x3000, 0x01FE)), CODE_OFF + 3);

    let r = step(
        &mut cpu,
        1,
        instr(0xC3, Mnemonic::RETN, OperandType::NoOperand, OperandType::NoOperand, 1),
    );
    assert_eq!(r, ExecutionResult::OkayJump);
    assert_eq!(cpu.regs.ip, CODE_OFF + 3);
    assert_eq!(cpu.biu.queue_len(), 0);
    assert_eq!(cpu.call_stack.len(), before + 1);

    let r = step(
        &mut cpu,
        1,
        instr(0x90, Mnemonic::NOP, OperandType::NoOperand, OperandType::NoOperand, 1),
    );
    assert_eq!(r, ExecutionResult::Okay);
    assert_eq!(cpu.call_stack.len(), before);
    assert_eq!(cpu.bus.get_flags(ret) & MEM_RET_BIT, 0);
}

#[test]
fn push_pop_round_trip_for_every_register() {
    let regs = [
        Register16::AX,
        Register16::CX,
        Register16::DX,
        Register16::BX,
        Register16::SP,
        Register16::BP,
        Register16::SI,
        Register16::DI,
    ];
    for (k, r) in regs.iter().enumerate() {
        let push = 0x50 + k as u8;
        let pop = 0x58 + k as u8;
        let mut cpu = machine(&[push, pop, 0x90, 0x90, 0x90]);
        cpu.regs.ax = 0x1111;
        cpu.regs.cx = 0x2222;
        cpu.regs.dx = 0x3333;
        cpu.regs.bx = 0x4444;
        cpu.regs.bp = 0x5555;
        cpu.regs.si = 0x6666;
        cpu.regs.di = 0x7777;
        let before = cpu.regs;
        step(&mut cpu, 1, instr(push, Mnemonic::PUSH, reg16(*r), OperandType::NoOperand, 1));
        assert_eq!(cpu.regs.sp, 0x01FE);
        let on_stack = cpu.bus.read_u16(linear(0x3000, 0x01FE));
        if *r == Register16::SP {
            assert_eq!(on_stack, 0x01FE);
        } else {
            assert_eq!(on_stack, before.read16(*r));
        }
        step(&mut cpu, 1, instr(pop, Mnemonic::POP, reg16(*r), OperandType::NoOperand, 1));
        let mut expect = before;
        expect.ip = CODE_OFF + 2;
        assert_eq!(cpu.regs, expect);
    }
}

#[test]
fn pushf_popf_round_trip() {
    for word in [0u16, 0x0FD5, 0x0AAA, 0x0555, 0xFFFF] {
        let mut cpu = machine(&[0x9C, 0x9D, 0x90, 0x90, 0x90]);
        cpu.flags = marty::cpu_808x::registers::Flags::from_word(word);
        let before = cpu.flags;
        step(
            &mut cpu,
            1,
            instr(0x9C, Mnemonic::PUSHF, OperandType::NoOperand, OperandType::NoOperand, 1),
        );
        let pushed = cpu.bus.read_u16(linear(0x3000, 0x01FE));
        assert_eq!(pushed & 0xF002, 0xF002);
        assert_eq!(pushed & 0x0028, 0);
        assert_eq!(pushed & 0x0FD5, word & 0x0FD5);
        cpu.flags = marty::cpu_808x::registers::Flags::from_word(!word);
        step(
            &mut cpu,
            1,
            instr(0x9D, Mnemonic::POPF, OperandType::NoOperand, OperandType::NoOperand, 1),
        );
        assert_eq!(cpu.flags, before);
        assert_eq!(cpu.regs.sp, 0x0200);
    }
}

#[test]
fn rep_with_cx_zero_runs_no_iteration() {
    let mut cpu = machine(&[0xF3, 0xA4, 0x90, 0x90, 0x90]);
    cpu.regs.cx = 0;
    cpu.regs.si = 0x10;
    cpu.regs.di = 0x20;
    cpu.bus.write_u8(linear(0x2000, 0x10), 0xAB);
    let r = step(&mut cpu, 2, movsb_rep());
    assert_eq!(r, ExecutionResult::Okay);
    assert_eq!(cpu.regs.cx, 0);
    assert_eq!(cpu.regs.si, 0x10);
    assert_eq!(cpu.regs.di, 0x20);
    assert_eq!(cpu.bus.read_u8(linear(0x2800, 0x20)), 0);
    assert_eq!(cpu.regs.ip, CODE_OFF + 2);
    assert!(!cpu.ctl.in_rep);
}

#[test]
fn queue_is_empty_after_a_taken_jump() {
    // JZ +2
    let mut cpu = machine(&[0x74, 0x02, 0x90, 0x90, 0x5A]);
    cpu.flags.zero = true;
    let r = step(
        &mut cpu,
        1,
        instr(0x74, Mnemonic::JZ, OperandType::Relative8, OperandType::NoOperand, 2),
    );
    assert_eq!(r, ExecutionResult::OkayJump);
    assert_eq!(cpu.regs.ip, CODE_OFF + 4);
    assert_eq!(cpu.biu.queue_len(), 0);
    // The next bytes come from the new location.
    assert_eq!(cpu.q_read_u8(QueueType::First), 0x5A);
}

#[test]
fn jump_not_taken_moves_past_the_instruction() {
    let mut cpu = machine(&[0x74, 0x02, 0x90, 0x90, 0x90]);
    cpu.flags.zero = false;
    let r = step(
        &mut cpu,
        1,
        instr(0x74, Mnemonic::JZ, OperandType::Relative8, OperandType::NoOperand, 2),
    );
    assert_eq!(r, ExecutionResult::Okay);
    assert_eq!(cpu.regs.ip, CODE_OFF + 2);
    assert!(cpu.biu.queue_len() <= 4);
}

#[test]
fn jump_backwards_sign_extends() {
    // JMP rel8 -4
    let mut cpu = machine(&[0xEB, 0xFC, 0x90, 0x90, 0x90]);
    let r = step(
        &mut cpu,
        1,
        instr(0xEB, Mnemonic::JMP, OperandType::Relative8, OperandType::NoOperand, 2),
    );
    assert_eq!(r, ExecutionResult::OkayJump);
    assert_eq!(cpu.regs.ip, CODE_OFF + 2 - 4);
    assert_eq!(cpu.biu.queue_len(), 0);
}

#[test]
fn queue_never_exceeds_four_bytes() {
    let mut cpu = machine(&[0x90; 16]);
    for _ in 0..8 {
        step(
            &mut cpu,
            1,
            instr(0x90, Mnemonic::NOP, OperandType::NoOperand, OperandType::NoOperand, 1),
        );
        assert!(cpu.biu.queue_len() <= 4);
        cpu.cycles(7);
        assert!(cpu.biu.queue_len() <= 4);
    }
    assert_eq!(cpu.regs.ip, CODE_OFF + 8);
}

#[test]
fn group1_sign_extends_byte_immediate() {
    // ADD BX, -1 (83 C3 FF)
    let mut cpu = machine(&[0x83, 0xC3, 0xFF, 0x90, 0x90]);
    cpu.regs.bx = 0x0010;
    step(
        &mut cpu,
        2,
        instr(0x83, Mnemonic::ADD, reg16(Register16::BX), OperandType::Immediate8, 3),
    );
    assert_eq!(cpu.regs.bx, 0x000F);
    assert!(cpu.flags.carry);
    assert_eq!(cpu.regs.ip, CODE_OFF + 3);
}

#[test]
fn cmp_stores_nothing() {
    // CMP AL, 5 (3C 05)
    let mut cpu = machine(&[0x3C, 0x05, 0x90, 0x90, 0x90]);
    cpu.regs.ax = 0x0005;
    step(
        &mut cpu,
        1,
        instr(0x3C, Mnemonic::CMP, reg8(Register8::AL), OperandType::Immediate8, 2),
    );
    assert_eq!(cpu.regs.ax, 0x0005);
    assert!(cpu.flags.zero);
    assert!(!cpu.flags.carry);
}

#[test]
fn mov_register_immediate() {
    // MOV CX, 0x1234 (B9 34 12)
    let mut cpu = machine(&[0xB9, 0x34, 0x12, 0x90, 0x90]);
    step(
        &mut cpu,
        1,
        instr(0xB9, Mnemonic::MOV, reg16(Register16::CX), OperandType::Immediate16, 3),
    );
    assert_eq!(cpu.regs.cx, 0x1234);
    // MOV AH, 0x7F (B4 7F)
    let mut cpu = machine(&[0xB4, 0x7F, 0x90, 0x90, 0x90]);
    cpu.regs.ax = 0x00AA;
    step(
        &mut cpu,
        1,
        instr(0xB4, Mnemonic::MOV, reg8(Register8::AH), OperandType::Immediate8, 2),
    );
    assert_eq!(cpu.regs.ax, 0x7FAA);
}

#[test]
fn memory_operand_uses_ss_for_bp_and_honors_override() {
    // MOV AX, [BP+SI]
    let mut cpu = machine(&[0x8B, 0x02, 0x90, 0x90, 0x90]);
    cpu.regs.bp = 0x0010;
    cpu.regs.si = 0x0002;
    cpu.bus.write_u16(linear(0x3000, 0x0012), 0xBEEF);
    cpu.bus.write_u16(linear(0x2800, 0x0012), 0xCAFE);
    let mut i = instr(
        0x8B,
        Mnemonic::MOV,
        reg16(Register16::AX),
        OperandType::AddressingMode(AddressingMode::BpSi),
        2,
    );
    step(&mut cpu, 2, i);
    assert_eq!(cpu.regs.ax, 0xBEEF);
    assert_eq!(cpu.ctl.last_ea, 0x0012);

    let mut cpu = machine(&[0x26, 0x8B, 0x02, 0x90, 0x90]);
    cpu.regs.bp = 0x0010;
    cpu.regs.si = 0x0002;
    cpu.bus.write_u16(linear(0x3000, 0x0012), 0xBEEF);
    cpu.bus.write_u16(linear(0x2800, 0x0012), 0xCAFE);
    i.segment_override = SegmentOverride::ES;
    i.prefixes.segment_override = true;
    i.size = 3;
    step(&mut cpu, 3, i);
    assert_eq!(cpu.regs.ax, 0xCAFE);
}

#[test]
fn add_to_memory_with_displacement() {
    // ADD [BX+0x10], AL
    let mut cpu = machine(&[0x00, 0x47, 0x10, 0x90, 0x90]);
    cpu.regs.bx = 0x0100;
    cpu.regs.ax = 0x0022;
    cpu.bus.write_u8(linear(0x2000, 0x0110), 0xF0);
    step(
        &mut cpu,
        3,
        instr(
            0x00,
            Mnemonic::ADD,
            OperandType::AddressingMode(AddressingMode::BxDisp8(0x10)),
            reg8(Register8::AL),
            3,
        ),
    );
    assert_eq!(cpu.bus.read_u8(linear(0x2000, 0x0110)), 0x12);
    assert!(cpu.flags.carry);
}

#[test]
fn lea_with_register_operand_gives_last_ea() {
    let mut cpu = machine(&[0x8B, 0x07, 0x8D, 0xC0, 0x90, 0x90]);
    cpu.regs.bx = 0x0456;
    step(
        &mut cpu,
        2,
        instr(
            0x8B,
            Mnemonic::MOV,
            reg16(Register16::AX),
            OperandType::AddressingMode(AddressingMode::Bx),
            2,
        ),
    );
    assert_eq!(cpu.ctl.last_ea, 0x0456);
    step(
        &mut cpu,
        2,
        instr(0x8D, Mnemonic::LEA, reg16(Register16::DX), reg16(Register16::AX), 2),
    );
    assert_eq!(cpu.regs.dx, 0x0456);
}

#[test]
fn lea_with_memory_operand() {
    let mut cpu = machine(&[0x8D, 0x50, 0x05, 0x90, 0x90]);
    cpu.regs.bx = 0xFFFE;
    cpu.regs.si = 0x0001;
    step(
        &mut cpu,
        3,
        instr(
            0x8D,
            Mnemonic::LEA,
            reg16(Register16::DX),
            OperandType::AddressingMode(AddressingMode::BxSiDisp8(0x05)),
            3,
        ),
    );
    assert_eq!(cpu.regs.dx, 0x0004);
}

#[test]
fn xchg_register_with_memory() {
    let mut cpu = machine(&[0x87, 0x1F, 0x90, 0x90, 0x90]);
    cpu.regs.bx = 0x0040;
    cpu.bus.write_u16(linear(0x2000, 0x0040), 0x1234);
    step(
        &mut cpu,
        2,
        instr(
            0x87,
            Mnemonic::XCHG,
            reg16(Register16::BX),
            OperandType::AddressingMode(AddressingMode::Bx),
            2,
        ),
    );
    assert_eq!(cpu.regs.bx, 0x1234);
    assert_eq!(cpu.bus.read_u16(linear(0x2000, 0x0040)), 0x0040);
}

#[test]
fn aam_with_zero_base_is_divide_error() {
    let mut cpu = machine(&[0xD4, 0x00, 0x90, 0x90, 0x90]);
    cpu.regs.ax = 0x0063;
    let r = step(
        &mut cpu,
        1,
        instr(0xD4, Mnemonic::AAM, OperandType::Immediate8, OperandType::NoOperand, 2),
    );
    assert_eq!(r, ExecutionResult::ExceptionError(CpuException::DivideError));
    assert_eq!(cpu.regs.ax, 0x0063);
    assert_eq!(cpu.regs.ip, CODE_OFF + 2);
}

#[test]
fn aam_and_aad_take_their_base_from_the_instruction() {
    let mut cpu = machine(&[0xD4, 0x0A, 0xD5, 0x10, 0x90, 0x90]);
    cpu.regs.ax = 0x0063;
    step(
        &mut cpu,
        1,
        instr(0xD4, Mnemonic::AAM, OperandType::Immediate8, OperandType::NoOperand, 2),
    );
    assert_eq!(cpu.regs.ax, 0x0909);
    step(
        &mut cpu,
        1,
        instr(0xD5, Mnemonic::AAD, OperandType::Immediate8, OperandType::NoOperand, 2),
    );
    assert_eq!(cpu.regs.ax, 0x0099);
}

#[test]
fn div_by_zero_is_divide_error_and_host_delivers_int0() {
    let mut cpu = machine(&[0xF6, 0xF3, 0x90, 0x90, 0x90]);
    cpu.regs.ax = 0x0064;
    cpu.regs.bx = 0x0000;
    cpu.bus.write_u16(0, 0x0010);
    cpu.bus.write_u16(2, 0x6000);
    let r = step(
        &mut cpu,
        2,
        instr(0xF6, Mnemonic::DIV, reg8(Register8::BL), OperandType::NoOperand, 2),
    );
    assert_eq!(r, ExecutionResult::ExceptionError(CpuException::DivideError));
    assert_eq!(cpu.regs.ax, 0x0064);
    cpu.sw_interrupt(0);
    assert_eq!(cpu.regs.cs, 0x6000);
    assert_eq!(cpu.regs.ip, 0x0010);
    assert_eq!(cpu.bus.read_u16(linear(0x3000, 0x01FA)), CODE_OFF + 2);
}

#[test]
fn div_word_divides_dx_ax() {
    let mut cpu = machine(&[0xF7, 0xF3, 0x90, 0x90, 0x90]);
    cpu.regs.dx = 0x0001;
    cpu.regs.ax = 0x0005;
    cpu.regs.bx = 0x0002;
    let r = step(
        &mut cpu,
        2,
        instr(0xF7, Mnemonic::DIV, reg16(Register16::BX), OperandType::NoOperand, 2),
    );
    assert_eq!(r, ExecutionResult::Okay);
    assert_eq!(cpu.regs.ax, 0x8002);
    assert_eq!(cpu.regs.dx, 0x0001);
}

#[test]
fn int_pushes_flags_and_clears_if_and_tf() {
    let mut cpu = machine(&[0xCD, 0x21, 0x90, 0x90, 0x90]);
    cpu.flags.interrupt = true;
    cpu.flags.trap = true;
    cpu.flags.carry = true;
    cpu.bus.write_u16(0x21 * 4, 0x0123);
    cpu.bus.write_u16(0x21 * 4 + 2, 0x7000);
    let flags = cpu.flags.to_word();
    let r = step(
        &mut cpu,
        1,
        instr(0xCD, Mnemonic::INT, OperandType::Immediate8, OperandType::NoOperand, 2),
    );
    assert_eq!(r, ExecutionResult::OkayJump);
    assert_eq!(cpu.regs.cs, 0x7000);
    assert_eq!(cpu.regs.ip, 0x0123);
    assert!(!cpu.flags.interrupt);
    assert!(!cpu.flags.trap);
    assert!(cpu.flags.carry);
    assert_eq!(cpu.bus.read_u16(linear(0x3000, 0x01FE)), flags);
    assert_eq!(cpu.bus.read_u16(linear(0x3000, 0x01FC)), CODE_SEG);
    assert_eq!(cpu.bus.read_u16(linear(0x3000, 0x01FA)), CODE_OFF + 2);
    assert_eq!(cpu.call_stack.len(), 1);
    assert!(cpu.biu.queue_len() <= 4);
}

#[test]
fn into_only_interrupts_on_overflow() {
    let mut cpu = machine(&[0xCE, 0x90, 0x90, 0x90, 0x90]);
    let r = step(
        &mut cpu,
        1,
        instr(0xCE, Mnemonic::INTO, OperandType::NoOperand, OperandType::NoOperand, 1),
    );
    assert_eq!(r, ExecutionResult::Okay);
    assert_eq!(cpu.regs.ip, CODE_OFF + 1);
    let mut cpu = machine(&[0xCE, 0x90, 0x90, 0x90, 0x90]);
    cpu.flags.overflow = true;
    cpu.bus.write_u16(4 * 4, 0x0044);
    cpu.bus.write_u16(4 * 4 + 2, 0x0800);
    let r = step(
        &mut cpu,
        1,
        instr(0xCE, Mnemonic::INTO, OperandType::NoOperand, OperandType::NoOperand, 1),
    );
    assert_eq!(r, ExecutionResult::OkayJump);
    assert_eq!(cpu.regs.cs, 0x0800);
    assert_eq!(cpu.regs.ip, 0x0044);
}

#[test]
fn sti_delays_interrupt_recognition_by_one_instruction() {
    let mut cpu = machine(&[0xFB, 0x90, 0x90, 0x90, 0x90]);
    cpu.bus.write_u16(9 * 4, 0x0000);
    cpu.bus.write_u16(9 * 4 + 2, 0x0900);
    let r = step(
        &mut cpu,
        1,
        instr(0xFB, Mnemonic::STI, OperandType::NoOperand, OperandType::NoOperand, 1),
    );
    assert_eq!(r, ExecutionResult::Okay);
    assert!(cpu.flags.interrupt);
    cpu.assert_intr(9);
    assert_eq!(cpu.take_pending_irq(), None);
    assert_eq!(cpu.service_pending_interrupt(), None);
    step(
        &mut cpu,
        1,
        instr(0x90, Mnemonic::NOP, OperandType::NoOperand, OperandType::NoOperand, 1),
    );
    assert_eq!(cpu.take_pending_irq(), Some(9));
    assert_eq!(cpu.service_pending_interrupt(), Some(9));
    assert_eq!(cpu.regs.cs, 0x0900);
}

#[test]
fn out_and_in_words_use_two_ports() {
    // OUT DX, AX ; IN AX, DX
    let mut cpu = machine(&[0xEF, 0xED, 0x90, 0x90, 0x90]);
    cpu.regs.dx = 0x03F8;
    cpu.regs.ax = 0xA55A;
    step(
        &mut cpu,
        1,
        instr(0xEF, Mnemonic::OUT, reg16(Register16::DX), reg16(Register16::AX), 1),
    );
    assert_eq!(cpu.bus.io_output(0x03F8), 0x5A);
    assert_eq!(cpu.bus.io_output(0x03F9), 0xA5);
    cpu.bus.set_io_input(0x03F8, 0x34);
    cpu.bus.set_io_input(0x03F9, 0x12);
    step(
        &mut cpu,
        1,
        instr(0xED, Mnemonic::IN, reg16(Register16::AX), reg16(Register16::DX), 1),
    );
    assert_eq!(cpu.regs.ax, 0x1234);
}

#[test]
fn in_al_from_immediate_port() {
    let mut cpu = machine(&[0xE4, 0x60, 0x90, 0x90, 0x90]);
    cpu.bus.set_io_input(0x60, 0x1C);
    cpu.regs.ax = 0xFF00;
    step(
        &mut cpu,
        1,
        instr(0xE4, Mnemonic::IN, reg8(Register8::AL), OperandType::Immediate8, 2),
    );
    assert_eq!(cpu.regs.ax, 0xFF1C);
}

#[test]
fn salc_fills_al_with_carry() {
    let mut cpu = machine(&[0xD6, 0xD6, 0x90, 0x90, 0x90]);
    cpu.flags.carry = true;
    cpu.regs.ax = 0x1200;
    let i = instr(0xD6, Mnemonic::SALC, OperandType::NoOperand, OperandType::NoOperand, 1);
    step(&mut cpu, 1, i);
    assert_eq!(cpu.regs.ax, 0x12FF);
    cpu.flags.carry = false;
    step(&mut cpu, 1, i);
    assert_eq!(cpu.regs.ax, 0x1200);
}

#[test]
fn xlat_reads_table_in_overridden_segment() {
    let mut cpu = machine(&[0xD7, 0x90, 0x90, 0x90, 0x90]);
    cpu.regs.bx = 0x0100;
    cpu.regs.ax = 0x0005;
    cpu.bus.write_u8(linear(0x2000, 0x0105), 0x77);
    cpu.bus.write_u8(linear(0x2800, 0x0105), 0x88);
    let mut i = instr(0xD7, Mnemonic::XLAT, OperandType::NoOperand, OperandType::NoOperand, 1);
    step(&mut cpu, 1, i);
    assert_eq!(cpu.regs.ax & 0xFF, 0x77);
    let mut cpu = machine(&[0x26, 0xD7, 0x90, 0x90, 0x90]);
    cpu.regs.bx = 0x0100;
    cpu.regs.ax = 0x0005;
    cpu.bus.write_u8(linear(0x2800, 0x0105), 0x88);
    i.segment_override = SegmentOverride::ES;
    i.size = 2;
    step(&mut cpu, 2, i);
    assert_eq!(cpu.regs.ax & 0xFF, 0x88);
}

#[test]
fn loop_counts_cx_down_and_jumps_until_zero() {
    // LOOP -2
    let mut cpu = machine(&[0xE2, 0xFE, 0x90, 0x90, 0x90]);
    cpu.regs.cx = 2;
    let i = instr(0xE2, Mnemonic::LOOP, OperandType::Relative8, OperandType::NoOperand, 2);
    let r = step(&mut cpu, 1, i);
    assert_eq!(r, ExecutionResult::OkayJump);
    assert_eq!(cpu.regs.cx, 1);
    assert_eq!(cpu.regs.ip, CODE_OFF);
    assert_eq!(cpu.biu.queue_len(), 0);
    let r = step(&mut cpu, 1, i);
    assert_eq!(r, ExecutionResult::Okay);
    assert_eq!(cpu.regs.cx, 0);
    assert_eq!(cpu.regs.ip, CODE_OFF + 2);
}

#[test]
fn jcxz_jumps_when_cx_is_zero() {
    let mut cpu = machine(&[0xE3, 0x10, 0x90, 0x90, 0x90]);
    cpu.regs.cx = 0;
    let i = instr(0xE3, Mnemonic::JCXZ, OperandType::Relative8, OperandType::NoOperand, 2);
    let r = step(&mut cpu, 1, i);
    assert_eq!(r, ExecutionResult::OkayJump);
    assert_eq!(cpu.regs.ip, CODE_OFF + 0x12);
}

#[test]
fn far_call_and_far_return() {
    // CALLF 0x5000:0x0010
    let mut cpu = machine(&[0x9A, 0x10, 0x00, 0x00, 0x50, 0x90]);
    cpu.bus.write_u8(linear(0x5000, 0x0010), 0xCB);
    let r = step(
        &mut cpu,
        1,
        instr(0x9A, Mnemonic::CALLF, OperandType::FarAddress, OperandType::NoOperand, 5),
    );
    assert_eq!(r, ExecutionResult::OkayJump);
    assert_eq!(cpu.regs.cs, 0x5000);
    assert_eq!(cpu.regs.ip, 0x0010);
    assert_eq!(cpu.regs.sp, 0x01FC);
    assert_eq!(cpu.bus.read_u16(linear(0x3000, 0x01FE)), CODE_SEG);
    assert_eq!(cpu.bus.read_u16(linear(0x3000, 0x01FC)), CODE_OFF + 5);
    let r = step(
        &mut cpu,
        1,
        instr(0xCB, Mnemonic::RETF, OperandType::NoOperand, OperandType::NoOperand, 1),
    );
    assert_eq!(r, ExecutionResult::OkayJump);
    assert_eq!(cpu.regs.cs, CODE_SEG);
    assert_eq!(cpu.regs.ip, CODE_OFF + 5);
    assert_eq!(cpu.regs.sp, 0x0200);
    assert_eq!(cpu.biu.queue_len(), 0);
}

#[test]
fn ret_with_immediate_releases_stack() {
    let mut cpu = machine(&[0xC2, 0x04, 0x00, 0x90, 0x90]);
    cpu.regs.sp = 0x01F0;
    cpu.bus.write_u16(linear(0x3000, 0x01F0), 0x0333);
    let r = step(
        &mut cpu,
        1,
        instr(0xC2, Mnemonic::RETN, OperandType::Immediate16, OperandType::NoOperand, 3),
    );
    assert_eq!(r, ExecutionResult::OkayJump);
    assert_eq!(cpu.regs.ip, 0x0333);
    assert_eq!(cpu.regs.sp, 0x01F0 + 2 + 4);
    assert_eq!(cpu.biu.queue_len(), 0);
}

#[test]
fn group5_push_sp_pushes_new_value() {
    let mut cpu = machine(&[0xFF, 0xF4, 0x90, 0x90, 0x90]);
    step(
        &mut cpu,
        2,
        instr(0xFF, Mnemonic::PUSH, reg16(Register16::SP), OperandType::NoOperand, 2),
    );
    assert_eq!(cpu.regs.sp, 0x01FE);
    assert_eq!(cpu.bus.read_u16(linear(0x3000, 0x01FE)), 0x01FE);
}

#[test]
fn group4_byte_call_pushes_one_byte_and_loads_ff_page() {
    // CALL byte ptr [BX] in its 8-bit form
    let mut cpu = machine(&[0xFE, 0x17, 0x90, 0x90, 0x90]);
    cpu.regs.bx = 0x0050;
    cpu.bus.write_u8(linear(0x2000, 0x0050), 0x42);
    cpu.bus.write_u16(linear(0x3000, 0x01FE), 0xEEEE);
    let r = step(
        &mut cpu,
        2,
        instr(
            0xFE,
            Mnemonic::CALL,
            OperandType::AddressingMode(AddressingMode::Bx),
            OperandType::NoOperand,
            2,
        ),
    );
    assert_eq!(r, ExecutionResult::OkayJump);
    assert_eq!(cpu.regs.ip, 0xFF42);
    assert_eq!(cpu.regs.sp, 0x01FE);
    assert_eq!(cpu.bus.read_u8(linear(0x3000, 0x01FE)), 0x02);
    assert_eq!(cpu.bus.read_u8(linear(0x3000, 0x01FF)), 0xEE);
}

#[test]
fn group4_register_jump_copies_whole_register() {
    let mut cpu = machine(&[0xFE, 0xE3, 0x90, 0x90, 0x90]);
    cpu.regs.bx = 0x1234;
    let r = step(
        &mut cpu,
        2,
        instr(0xFE, Mnemonic::JMPF, reg8(Register8::BL), OperandType::NoOperand, 2),
    );
    assert_eq!(r, ExecutionResult::OkayJump);
    assert_eq!(cpu.regs.ip, 0x1234);
    assert_eq!(cpu.biu.queue_len(), 0);
}

#[test]
fn invalid_rep_prefix_is_noted_and_ignored() {
    let mut cpu = machine(&[0xF3, 0x90, 0x90, 0x90, 0x90]);
    let mut i = instr(0x90, Mnemonic::NOP, OperandType::NoOperand, OperandType::NoOperand, 2);
    i.prefixes.rep2 = true;
    let r = step(&mut cpu, 2, i);
    assert_eq!(r, ExecutionResult::Okay);
    assert_eq!(cpu.ctl.warning, CpuWarning::InvalidRepPrefix);
    assert!(!cpu.ctl.in_rep);
    assert_eq!(cpu.regs.ip, CODE_OFF + 2);
}

#[test]
fn off_rails_detection_halts_after_zero_opcodes() {
    let mut cpu = machine(&[0x00; 32]);
    cpu.ctl.off_rails_detection = true;
    cpu.flags.interrupt = true;
    cpu.regs.bx = 0;
    cpu.regs.si = 0;
    let i = instr(
        0x00,
        Mnemonic::ADD,
        OperandType::AddressingMode(AddressingMode::BxSi),
        reg8(Register8::AL),
        2,
    );
    let mut last = ExecutionResult::Okay;
    for _ in 0..6 {
        last = step(&mut cpu, 2, i);
    }
    assert_eq!(last, ExecutionResult::Halt);
    assert!(cpu.ctl.halted);
    assert!(!cpu.flags.interrupt);
    assert_eq!(cpu.ctl.opcode0_counter, 6);
}

#[test]
fn repe_cmpsb_stops_at_first_difference() {
    let mut cpu = machine(&[0xF3, 0xA6, 0x90, 0x90, 0x90]);
    cpu.regs.si = 0;
    cpu.regs.di = 0;
    cpu.regs.cx = 5;
    cpu.bus.copy_from(&vec![1, 2, 3, 4, 5], linear(0x2000, 0));
    cpu.bus.copy_from(&vec![1, 2, 9, 4, 5], linear(0x2800, 0));
    let mut i = instr(0xA6, Mnemonic::CMPSB, OperandType::NoOperand, OperandType::NoOperand, 2);
    i.prefixes.rep2 = true;
    let mut r = step(&mut cpu, 2, i);
    assert_eq!(cpu.ctl.rep_type, RepType::Repe);
    let mut guard = 0;
    while r == ExecutionResult::OkayRep {
        r = cpu.execute_instruction();
        guard += 1;
        assert!(guard < 10);
    }
    assert_eq!(r, ExecutionResult::Okay);
    assert_eq!(cpu.regs.cx, 2);
    assert_eq!(cpu.regs.si, 3);
    assert_eq!(cpu.regs.di, 3);
    assert!(!cpu.flags.zero);
    assert!(cpu.flags.carry);
}

#[test]
fn stosw_backwards_with_direction_flag() {
    let mut cpu = machine(&[0xAB, 0x90, 0x90, 0x90, 0x90]);
    cpu.flags.direction = true;
    cpu.regs.di = 0x0010;
    cpu.regs.ax = 0x55AA;
    step(
        &mut cpu,
        1,
        instr(0xAB, Mnemonic::STOSW, OperandType::NoOperand, OperandType::NoOperand, 1),
    );
    assert_eq!(cpu.bus.read_u16(linear(0x2800, 0x0010)), 0x55AA);
    assert_eq!(cpu.regs.di, 0x000E);
}

#[test]
fn les_loads_pointer_and_segment() {
    let mut cpu = machine(&[0xC4, 0x1F, 0x90, 0x90, 0x90]);
    cpu.regs.bx = 0x0020;
    cpu.bus.write_u16(linear(0x2000, 0x0020), 0x0ABC);
    cpu.bus.write_u16(linear(0x2000, 0x0022), 0x9000);
    step(
        &mut cpu,
        2,
        instr(
            0xC4,
            Mnemonic::LES,
            reg16(Register16::BX),
            OperandType::AddressingMode(AddressingMode::Bx),
            2,
        ),
    );
    assert_eq!(cpu.regs.bx, 0x0ABC);
    assert_eq!(cpu.regs.es, 0x9000);
}

#[test]
fn mov_to_ss_holds_off_interrupts_for_one_instruction() {
    let mut cpu = machine(&[0x8E, 0xD0, 0x90, 0x90, 0x90]);
    cpu.flags.interrupt = true;
    cpu.regs.ax = 0x3100;
    cpu.assert_intr(5);
    step(
        &mut cpu,
        2,
        instr(0x8E, Mnemonic::MOV, reg16(Register16::SS), reg16(Register16::AX), 2),
    );
    assert_eq!(cpu.regs.ss, 0x3100);
    assert!(cpu.ctl.trap_suppressed);
    assert_eq!(cpu.take_pending_irq(), None);
    step(
        &mut cpu,
        1,
        instr(0x90, Mnemonic::NOP, OperandType::NoOperand, OperandType::NoOperand, 1),
    );
    assert!(!cpu.ctl.trap_suppressed);
    assert_eq!(cpu.take_pending_irq(), Some(5));
}

#[test]
fn cbw_and_cwd_sign_extend() {
    let mut cpu = machine(&[0x98, 0x99, 0x90, 0x90, 0x90]);
    cpu.regs.ax = 0x0080;
    step(
        &mut cpu,
        1,
        instr(0x98, Mnemonic::CBW, OperandType::NoOperand, OperandType::NoOperand, 1),
    );
    assert_eq!(cpu.regs.ax, 0xFF80);
    step(
        &mut cpu,
        1,
        instr(0x99, Mnemonic::CWD, OperandType::NoOperand, OperandType::NoOperand, 1),
    );
    assert_eq!(cpu.regs.dx, 0xFFFF);
}

#[test]
fn sahf_and_lahf_move_the_low_flag_byte() {
    let mut cpu = machine(&[0x9E, 0x9F, 0x90, 0x90, 0x90]);
    cpu.regs.ax = 0xD500;
    cpu.flags.overflow = true;
    step(
        &mut cpu,
        1,
        instr(0x9E, Mnemonic::SAHF, OperandType::NoOperand, OperandType::NoOperand, 1),
    );
    assert!(cpu.flags.carry && cpu.flags.parity && cpu.flags.aux_carry);
    assert!(cpu.flags.zero && cpu.flags.sign && cpu.flags.overflow);
    cpu.regs.ax = 0x0000;
    step(
        &mut cpu,
        1,
        instr(0x9F, Mnemonic::LAHF, OperandType::NoOperand, OperandType::NoOperand, 1),
    );
    assert_eq!(cpu.regs.ax, 0xD700);
}

#[test]
fn reset_state() {
    let mut cpu = machine(&[0x90; 8]);
    cpu.regs.ax = 5;
    cpu.flags.carry = true;
    cpu.reset();
    assert_eq!(cpu.regs.cs, 0xFFFF);
    assert_eq!(cpu.regs.ip, 0);
    assert_eq!(cpu.regs.ax, 0);
    assert_eq!(cpu.flags.to_word(), 0xF002);
    assert_eq!(cpu.biu.queue_len(), 0);
    assert_eq!(cpu.biu.cycle_num(), 0);
    assert_eq!(cpu.get_linear_ip(), 0xFFFF0);
    assert_eq!(cpu.bus.read_u8(linear(CODE_SEG, CODE_OFF)), 0x90);
}

#[test]
fn invalid_records_are_told_apart() {
    let ok = instr(0x01, Mnemonic::ADD, reg16(Register16::AX), reg16(Register16::BX), 2);
    assert!(ok.is_valid());
    let bad = instr(0x01, Mnemonic::ADD, reg8(Register8::AL), reg16(Register16::BX), 2);
    assert!(!bad.is_valid());
    let prefix = instr(0xF3, Mnemonic::NOP, OperandType::NoOperand, OperandType::NoOperand, 1);
    assert!(!prefix.is_valid());
    let group = instr(0xF6, Mnemonic::MOV, reg8(Register8::AL), OperandType::NoOperand, 2);
    assert!(!group.is_valid());
    let two_immediates =
        instr(0xE6, Mnemonic::OUT, OperandType::Immediate8, OperandType::Immediate8, 2);
    assert!(!two_immediates.is_valid());
}

#[test]
fn register_routines_take_their_fixed_cycles() {
    // (bytes, decoded bytes, record, cycles of the routine)
    let cases: Vec<(Vec<u8>, usize, Instruction, u32)> = vec![
        (
            vec![0x00, 0xD8],
            2,
            instr(0x00, Mnemonic::ADD, reg8(Register8::AL), reg8(Register8::BL), 2),
            1,
        ),
        (
            vec![0x3B, 0xC3],
            2,
            instr(0x3B, Mnemonic::CMP, reg16(Register16::AX), reg16(Register16::BX), 2),
            1,
        ),
        (
            vec![0x85, 0xC3],
            2,
            instr(0x85, Mnemonic::TEST, reg16(Register16::AX), reg16(Register16::BX), 2),
            1,
        ),
        (
            vec![0x87, 0xCB],
            2,
            instr(0x87, Mnemonic::XCHG, reg16(Register16::CX), reg16(Register16::BX), 2),
            2,
        ),
        (
            vec![0x8B, 0xC3],
            2,
            instr(0x8B, Mnemonic::MOV, reg16(Register16::AX), reg16(Register16::BX), 2),
            0,
        ),
        (
            vec![0xD1, 0xE0],
            2,
            instr(0xD1, Mnemonic::SHL, reg16(Register16::AX), OperandType::NoOperand, 2),
            0,
        ),
    ];
    for (bytes, decoded, i, routine) in cases {
        let mut code = bytes.clone();
        code.extend_from_slice(&[0x90; 6]);
        let mut cpu = machine(&code);
        step(&mut cpu, decoded, i);
        // Two bytes were decoded, so the prologue spends nothing.
        assert_eq!(cpu.biu.instr_cycle(), decoded as u32 + routine, "opcode {:02X}", i.opcode);
    }
    // One-byte instructions: the prologue spends one cycle.
    let singles: Vec<(u8, Mnemonic, u32)> = vec![
        (0x91, Mnemonic::XCHG, 1),
        (0x98, Mnemonic::CBW, 0),
        (0x9B, Mnemonic::WAIT, 3),
        (0x9F, Mnemonic::LAHF, 0),
        (0xD6, Mnemonic::SALC, 0),
        (0xF1, Mnemonic::NOP, 1),
        (0xF8, Mnemonic::CLC, 0),
        (0x43, Mnemonic::INC, 0),
    ];
    for (op, m, routine) in singles {
        let mut cpu = machine(&[op, 0x90, 0x90, 0x90, 0x90, 0x90]);
        let op1 = if op == 0x43 { reg16(Register16::BX) } else { OperandType::NoOperand };
        step(&mut cpu, 1, instr(op, m, op1, OperandType::NoOperand, 1));
        assert_eq!(cpu.biu.instr_cycle(), 1 + 1 + routine, "opcode {:02X}", op);
    }
}

#[test]
fn a_cycle_left_over_is_paid_by_the_next_instruction() {
    // Two ADD AX,BX in a row: the second pays the cycle that the first left.
    let mut cpu = machine(&[0x01, 0xD8, 0x01, 0xD8, 0x90, 0x90]);
    let add = instr(0x01, Mnemonic::ADD, reg16(Register16::AX), reg16(Register16::BX), 2);
    step(&mut cpu, 2, add);
    assert_eq!(cpu.biu.instr_cycle(), 3);
    assert!(cpu.biu.nx());
    step(&mut cpu, 2, add);
    assert_eq!(cpu.biu.instr_cycle(), 4);
}

#[test]
fn single_step_trap_comes_one_instruction_after_popf_sets_tf() {
    let mut cpu = machine(&[0x9D, 0x90, 0x90, 0x90, 0x90, 0x90]);
    cpu.regs.sp = 0x01FE;
    cpu.bus.write_u16(linear(0x3000, 0x01FE), 0x0300);
    cpu.bus.write_u16(1 * 4, 0x0040);
    cpu.bus.write_u16(1 * 4 + 2, 0x0A00);
    step(
        &mut cpu,
        1,
        instr(0x9D, Mnemonic::POPF, OperandType::NoOperand, OperandType::NoOperand, 1),
    );
    assert!(cpu.flags.trap);
    assert_eq!(cpu.ctl.trap_enable_delay, 1);
    assert_eq!(cpu.service_pending_interrupt(), None);
    step(
        &mut cpu,
        1,
        instr(0x90, Mnemonic::NOP, OperandType::NoOperand, OperandType::NoOperand, 1),
    );
    assert_eq!(cpu.service_pending_interrupt(), Some(1));
    assert_eq!((cpu.regs.cs, cpu.regs.ip), (0x0A00, 0x0040));
    assert!(!cpu.flags.trap);
    assert!(!cpu.flags.interrupt);
    // The flags on the stack still carry the trap flag.
    assert_eq!(cpu.bus.read_u16(linear(0x3000, 0x01FE)) & 0x0100, 0x0100);
    assert_eq!(cpu.bus.read_u16(linear(0x3000, 0x01FA)), CODE_OFF + 2);
    assert_eq!(cpu.service_pending_interrupt(), None);
}

#[test]
fn load_of_ss_holds_off_the_single_step_trap() {
    let mut cpu = machine(&[0x8E, 0xD0, 0x90, 0x90, 0x90, 0x90]);
    cpu.flags.trap = true;
    cpu.regs.ax = 0x3000;
    cpu.bus.write_u16(1 * 4, 0x0040);
    cpu.bus.write_u16(1 * 4 + 2, 0x0A00);
    step(
        &mut cpu,
        2,
        instr(0x8E, Mnemonic::MOV, reg16(Register16::SS), reg16(Register16::AX), 2),
    );
    assert_eq!(cpu.service_pending_interrupt(), None);
    step(
        &mut cpu,
        1,
        instr(0x90, Mnemonic::NOP, OperandType::NoOperand, OperandType::NoOperand, 1),
    );
    assert_eq!(cpu.service_pending_interrupt(), Some(1));
}

#[test]
fn trap_comes_before_nmi_and_nmi_before_intr() {
    let mut cpu = machine(&[0x90; 8]);
    cpu.flags.trap = true;
    cpu.flags.interrupt = true;
    for n in [1usize, 2, 9] {
        cpu.bus.write_u16(n * 4, 0x0010 * n as u16);
        cpu.bus.write_u16(n * 4 + 2, 0x0100);
    }
    cpu.assert_nmi();
    cpu.assert_intr(9);
    assert_eq!(cpu.service_pending_interrupt(), Some(1));
    assert!(cpu.ctl.nmi);
    assert_eq!(cpu.regs.ip, 0x0010);
    assert_eq!(cpu.service_pending_interrupt(), Some(2));
    assert!(!cpu.ctl.nmi);
    assert_eq!(cpu.regs.ip, 0x0020);
    // Delivery cleared the interrupt flag: INTR waits.
    assert_eq!(cpu.service_pending_interrupt(), None);
    cpu.flags.interrupt = true;
    assert_eq!(cpu.service_pending_interrupt(), Some(9));
    assert_eq!(cpu.regs.ip, 0x0090);
}
