use marty::cpu_808x::addressing::{segment_override, sign_extend};
use marty::cpu_808x::biu::{
    offset_add, offset_sub, BusStatus, FetchState, QueueOp, QueueType, ReadWriteFlag, TCycle,
};
use marty::cpu_808x::bus::{Bus, MEM_RET_BIT};
use marty::cpu_808x::callstack::{CallStack, CallStackEntry, CPU_CALL_STACK_LEN};
use marty::cpu_808x::instruction::{AddressingMode, Instruction, OperandType, Prefixes};
use marty::cpu_808x::microcode::{microcode_address_8088, MC_NONE};
use marty::cpu_808x::queue::PrefetchQueue;
use marty::cpu_808x::registers::{Register16, Register8, Segment, SegmentOverride};
use marty::cpu_808x::state::Cpu;

fn cpu_at(seg: u16, off: u16, code: &[u8]) -> Cpu {
    let mut cpu = Cpu::new();
    cpu.regs.cs = seg;
    cpu.regs.ip = off;
    cpu.regs.ds = 0x2000;
    cpu.regs.es = 0x2800;
    cpu.regs.ss = 0x3000;
    cpu.regs.sp = 0x0100;
    let base = ((seg as usize) << 4) + off as usize;
    cpu.bus.copy_from(&code.to_vec(), base);
    cpu.biu_queue_flush();
    cpu
}

#[test]
fn bus_is_little_endian_and_wraps() {
    let mut bus = Bus::new();
    bus.write_u16(0x1000, 0x1234);
    assert_eq!(bus.read_u8(0x1000), 0x34);
    assert_eq!(bus.read_u8(0x1001), 0x12);
    assert_eq!(bus.read_u16(0x1000), 0x1234);
    bus.write_u16(0xFFFFF, 0xABCD);
    assert_eq!(bus.read_u8(0xFFFFF), 0xCD);
    assert_eq!(bus.read_u8(0x00000), 0xAB);
    assert_eq!(bus.read_u16(0xFFFFF), 0xABCD);
    bus.write_u8(0x100005, 0x77);
    assert_eq!(bus.read_u8(5), 0x77);
}

#[test]
fn bus_attribute_bits() {
    let mut bus = Bus::new();
    assert_eq!(bus.get_flags(0x500), 0);
    bus.set_flags(0x500, MEM_RET_BIT);
    bus.set_flags(0x500, 0x01);
    assert_eq!(bus.get_flags(0x500), MEM_RET_BIT | 0x01);
    bus.clear_flags(0x500, MEM_RET_BIT);
    assert_eq!(bus.get_flags(0x500), 0x01);
    assert_eq!(bus.get_flags(0x501), 0);
}

#[test]
fn bus_ports_latch_both_ways() {
    let mut bus = Bus::new();
    bus.set_io_input(0x60, 0x1E);
    assert_eq!(bus.io_read_u8(0x60), 0x1E);
    assert_eq!(bus.io_output(0x60), 0x00);
    bus.io_write_u8(0x60, 0x55);
    assert_eq!(bus.io_output(0x60), 0x55);
    assert_eq!(bus.io_read_u8(0x60), 0x1E);
}

#[test]
fn copy_from_wraps_at_one_megabyte() {
    let mut bus = Bus::new();
    bus.copy_from(&vec![1, 2, 3, 4], 0xFFFFE);
    assert_eq!(bus.read_u8(0xFFFFE), 1);
    assert_eq!(bus.read_u8(0xFFFFF), 2);
    assert_eq!(bus.read_u8(0x00000), 3);
    assert_eq!(bus.read_u8(0x00001), 4);
    assert_eq!(bus.read_u8(0x00002), 0);
}

#[test]
fn prefetch_queue_is_first_in_first_out() {
    let mut q = PrefetchQueue::new();
    assert!(q.is_empty());
    q.push8(1);
    q.push8(2);
    q.push8(3);
    assert_eq!(q.pop(), 1);
    q.push8(4);
    q.push8(5);
    assert!(q.is_full());
    assert_eq!(q.len(), 4);
    assert_eq!(q.pop(), 2);
    assert_eq!(q.pop(), 3);
    assert_eq!(q.pop(), 4);
    assert_eq!(q.pop(), 5);
    assert!(q.is_empty());
    q.push8(9);
    q.flush();
    assert_eq!(q.len(), 0);
}

#[test]
fn a_code_fetch_takes_four_cycles() {
    let mut cpu = cpu_at(0x1000, 0, &[0xA1, 0xB2, 0xC3, 0xD4, 0xE5]);
    assert_eq!(cpu.biu.queue_len(), 0);
    assert_eq!(cpu.biu.bus_status(), BusStatus::Passive);
    cpu.cycle();
    assert_eq!(cpu.biu.bus_status(), BusStatus::CodeFetch);
    assert_eq!(cpu.biu.fetch_state(), FetchState::Fetching);
    assert_eq!(cpu.biu.t_cycle(), TCycle::T2);
    cpu.cycles(2);
    assert_eq!(cpu.biu.queue_len(), 0);
    assert_eq!(cpu.biu.t_cycle(), TCycle::T4);
    cpu.cycle();
    assert_eq!(cpu.biu.queue_len(), 1);
    assert_eq!(cpu.biu.bus_status(), BusStatus::Passive);
    assert_eq!(cpu.biu.fetch_state(), FetchState::Idle);
    cpu.cycles(12);
    assert_eq!(cpu.biu.queue_len(), 4);
    cpu.cycles(12);
    assert_eq!(cpu.biu.queue_len(), 4);
    assert_eq!(cpu.biu.cycle_num(), 28);
}

#[test]
fn queue_reads_give_the_instruction_stream_in_order() {
    let mut cpu = cpu_at(0x1000, 0x0010, &[0xA1, 0xB2, 0xC3, 0xD4, 0xE5, 0xF6]);
    assert_eq!(cpu.q_read_u8(QueueType::First), 0xA1);
    // An empty queue costs the four cycles of the fetch and one for the read.
    assert_eq!(cpu.biu.cycle_num(), 5);
    assert_eq!(cpu.biu.last_queue_op(), QueueOp::First);
    assert_eq!(cpu.q_read_u8(QueueType::Subsequent), 0xB2);
    assert_eq!(cpu.biu.last_queue_op(), QueueOp::Subsequent);
    assert_eq!(cpu.q_read_u16(QueueType::Subsequent), 0xD4C3);
    cpu.cycles(16);
    let before = cpu.biu.cycle_num();
    assert_eq!(cpu.q_read_u8(QueueType::Subsequent), 0xE5);
    assert_eq!(cpu.biu.cycle_num(), before + 1);
}

#[test]
fn first_read_after_flush_counts_as_first() {
    let mut cpu = cpu_at(0x1000, 0, &[1, 2, 3, 4]);
    assert_eq!(cpu.biu.last_queue_op(), QueueOp::Flush);
    cpu.q_read_u8(QueueType::Subsequent);
    assert_eq!(cpu.biu.last_queue_op(), QueueOp::First);
}

#[test]
fn flush_points_the_prefetcher_at_cs_ip() {
    let mut cpu = cpu_at(0x1000, 0, &[1, 2, 3, 4, 5, 6, 7, 8]);
    cpu.cycles(16);
    assert_eq!(cpu.biu.queue_len(), 4);
    cpu.bus.copy_from(&vec![0x11, 0x22], 0x20050);
    cpu.regs.cs = 0x2000;
    cpu.regs.ip = 0x0050;
    cpu.biu_queue_flush();
    assert_eq!(cpu.biu.queue_len(), 0);
    assert_eq!(cpu.biu.last_queue_op(), QueueOp::Flush);
    assert_eq!(cpu.q_read_u8(QueueType::First), 0x11);
    assert_eq!(cpu.q_read_u8(QueueType::Subsequent), 0x22);
}

#[test]
fn suspended_prefetcher_fetches_nothing() {
    let mut cpu = cpu_at(0x1000, 0, &[1, 2, 3, 4, 5, 6]);
    cpu.cycles(2);
    cpu.biu_suspend_fetch();
    // The fetch that was on the bus was completed.
    assert_eq!(cpu.biu.queue_len(), 1);
    assert_eq!(cpu.biu.cycle_num(), 4);
    assert_eq!(cpu.biu.fetch_state(), FetchState::Suspended);
    cpu.cycles(20);
    assert_eq!(cpu.biu.queue_len(), 1);
    // A read of the empty queue sets it going again.
    assert_eq!(cpu.q_read_u8(QueueType::First), 1);
    assert_eq!(cpu.q_read_u8(QueueType::Subsequent), 2);
}

#[test]
fn queue_fetch_wraps_inside_the_code_segment() {
    let mut cpu = Cpu::new();
    cpu.regs.cs = 0x1000;
    cpu.regs.ip = 0xFFFF;
    cpu.bus.write_u8(0x1FFFF, 0xAA);
    cpu.bus.write_u8(0x10000, 0xBB);
    cpu.bus.write_u8(0x20000, 0xCC);
    cpu.biu_queue_flush();
    assert_eq!(cpu.q_read_u8(QueueType::First), 0xAA);
    assert_eq!(cpu.q_read_u8(QueueType::Subsequent), 0xBB);
}

#[test]
fn bus_cycles_of_the_execution_unit() {
    let mut cpu = cpu_at(0x1000, 0, &[1, 2, 3, 4, 5, 6]);
    cpu.biu_suspend_fetch();
    let c0 = cpu.biu.cycle_num();
    cpu.biu_write_u8(Segment::DS, 0x20010, 0x5A, ReadWriteFlag::Normal);
    assert_eq!(cpu.biu.cycle_num(), c0 + 4);
    assert_eq!(cpu.bus.read_u8(0x20010), 0x5A);
    assert_eq!(cpu.biu_read_u8(Segment::DS, 0x20010), 0x5A);
    assert_eq!(cpu.biu.cycle_num(), c0 + 8);
    cpu.biu_write_u16(Segment::DS, 0x20020, 0xBEEF, ReadWriteFlag::RNI);
    assert_eq!(cpu.biu.cycle_num(), c0 + 15);
    assert_eq!(cpu.biu.bus_status(), BusStatus::MemWrite);
    assert_eq!(cpu.biu.t_cycle(), TCycle::T4);
    assert_eq!(cpu.biu_read_u16(Segment::DS, 0x20020, ReadWriteFlag::Normal), 0xBEEF);
    // The closing cycle of the write was run first.
    assert_eq!(cpu.biu.cycle_num(), c0 + 24);
    assert_eq!(cpu.biu.bus_status(), BusStatus::Passive);
    assert_eq!(cpu.biu_read_u16(Segment::DS, 0xFFFFF, ReadWriteFlag::Normal) & 0xFF00, 0);
}

#[test]
fn an_execution_unit_cycle_waits_for_the_fetch_on_the_bus() {
    let mut cpu = cpu_at(0x1000, 0, &[1, 2, 3, 4, 5, 6]);
    cpu.cycle();
    assert_eq!(cpu.biu.bus_status(), BusStatus::CodeFetch);
    let v = cpu.biu_read_u8(Segment::CS, 0x10002);
    assert_eq!(v, 3);
    assert_eq!(cpu.biu.cycle_num(), 1 + 3 + 4);
    assert_eq!(cpu.biu.queue_len(), 1);
}

#[test]
fn port_cycles() {
    let mut cpu = cpu_at(0x1000, 0, &[0x90; 4]);
    cpu.bus.set_io_input(0xFFFF, 0x12);
    cpu.bus.set_io_input(0x0000, 0x34);
    assert_eq!(cpu.biu_io_read_u8(0xFFFF), 0x12);
    assert_eq!(cpu.biu_io_read_u16(0xFFFF), 0x3412);
    cpu.biu_io_write_u16(0x0200, 0xA55A, ReadWriteFlag::Normal);
    assert_eq!(cpu.bus.io_output(0x0200), 0x5A);
    assert_eq!(cpu.bus.io_output(0x0201), 0xA5);
    cpu.biu_io_write_u8(0x0300, 0x99, ReadWriteFlag::RNI);
    assert_eq!(cpu.bus.io_output(0x0300), 0x99);
}

#[test]
fn deferred_cycle_is_spent_by_the_next_instruction() {
    let mut cpu = cpu_at(0x1000, 0, &[0x90; 8]);
    cpu.cycles(16);
    let c0 = cpu.biu.cycle_num();
    cpu.cycles_nx_i(3, &[0x144, 0x145, 0x146]);
    assert_eq!(cpu.biu.cycle_num(), c0 + 2);
    assert!(cpu.biu.nx());
    assert_eq!(cpu.biu.mc_pc(), 0x145);
    cpu.q_read_u8(QueueType::First);
    cpu.i = Instruction::nop();
    cpu.exec_prologue();
    assert!(!cpu.biu.nx());
    assert_eq!(cpu.biu.cycle_num(), c0 + 2 + 1 + 1);
    assert_eq!(cpu.biu.mc_pc(), microcode_address_8088(0x90));
}

#[test]
fn prologue_waits_a_cycle_when_only_the_first_byte_was_read() {
    let mut cpu = cpu_at(0x1000, 0, &[0x90; 8]);
    cpu.cycles(16);
    cpu.q_read_u8(QueueType::First);
    let c0 = cpu.biu.cycle_num();
    cpu.i = Instruction::nop();
    cpu.exec_prologue();
    assert_eq!(cpu.biu.cycle_num(), c0 + 1);
    cpu.q_read_u8(QueueType::First);
    cpu.q_read_u8(QueueType::Subsequent);
    let c1 = cpu.biu.cycle_num();
    cpu.i.group_delay = true;
    cpu.exec_prologue();
    assert_eq!(cpu.biu.cycle_num(), c1 + 1);
    cpu.i.group_delay = false;
    cpu.q_read_u8(QueueType::First);
    cpu.q_read_u8(QueueType::Subsequent);
    let c2 = cpu.biu.cycle_num();
    cpu.exec_prologue();
    assert_eq!(cpu.biu.cycle_num(), c2);
}

#[test]
fn microcode_table() {
    assert_eq!(microcode_address_8088(0x00), 0x008);
    assert_eq!(microcode_address_8088(0x3B), 0x008);
    assert_eq!(microcode_address_8088(0x06), 0x02c);
    assert_eq!(microcode_address_8088(0x27), 0x144);
    assert_eq!(microcode_address_8088(0x50), 0x028);
    assert_eq!(microcode_address_8088(0x97), 0x084);
    assert_eq!(microcode_address_8088(0xD3), 0x08c);
    assert_eq!(microcode_address_8088(0xE2), 0x140);
    assert_eq!(microcode_address_8088(0x04), MC_NONE);
    assert_eq!(microcode_address_8088(0xF4), MC_NONE);
}

#[test]
fn effective_addresses() {
    let mut cpu = Cpu::new();
    cpu.regs.bx = 0x1000;
    cpu.regs.bp = 0x2000;
    cpu.regs.si = 0x0030;
    cpu.regs.di = 0x0004;
    cpu.regs.ds = 0x0100;
    cpu.regs.ss = 0x0200;
    cpu.regs.es = 0x0300;
    let ea = |cpu: &Cpu, m: AddressingMode| cpu.calc_effective_address(m, SegmentOverride::NoOverride);
    assert_eq!(ea(&cpu, AddressingMode::BxSi), (0x0100, Segment::DS, 0x1030));
    assert_eq!(ea(&cpu, AddressingMode::BxDi), (0x0100, Segment::DS, 0x1004));
    assert_eq!(ea(&cpu, AddressingMode::BpSi), (0x0200, Segment::SS, 0x2030));
    assert_eq!(ea(&cpu, AddressingMode::BpDi), (0x0200, Segment::SS, 0x2004));
    assert_eq!(ea(&cpu, AddressingMode::Si), (0x0100, Segment::DS, 0x0030));
    assert_eq!(ea(&cpu, AddressingMode::Di), (0x0100, Segment::DS, 0x0004));
    assert_eq!(ea(&cpu, AddressingMode::Disp16(0xABCD)), (0x0100, Segment::DS, 0xABCD));
    assert_eq!(ea(&cpu, AddressingMode::Bx), (0x0100, Segment::DS, 0x1000));
    assert_eq!(ea(&cpu, AddressingMode::BxSiDisp8(0xFF)), (0x0100, Segment::DS, 0x102F));
    assert_eq!(ea(&cpu, AddressingMode::BpDisp8(0x10)), (0x0200, Segment::SS, 0x2010));
    assert_eq!(ea(&cpu, AddressingMode::BpDisp8(0x80)), (0x0200, Segment::SS, 0x1F80));
    assert_eq!(ea(&cpu, AddressingMode::BpDiDisp16(0xF000)), (0x0200, Segment::SS, 0x1004));
    assert_eq!(ea(&cpu, AddressingMode::DiDisp16(0xFFFF)), (0x0100, Segment::DS, 0x0003));
    assert_eq!(
        cpu.calc_effective_address(AddressingMode::BpSi, SegmentOverride::ES),
        (0x0300, Segment::ES, 0x2030)
    );
    assert_eq!(segment_override(SegmentOverride::CS, Segment::DS), Segment::CS);
    assert_eq!(segment_override(SegmentOverride::NoOverride, Segment::SS), Segment::SS);
    assert_eq!(sign_extend(0x7F), 0x007F);
    assert_eq!(sign_extend(0x80), 0xFF80);
    assert_eq!(offset_add(0xFFFF, 2), 1);
    assert_eq!(offset_sub(0, 2), 0xFFFE);
    assert_eq!(cpu.calc_linear_address_seg(Segment::SS, 0x0010), 0x02010);
}

#[test]
fn forming_an_address_costs_the_cycles_of_its_mode() {
    let cost = |m: AddressingMode| {
        let mut cpu = cpu_at(0x1000, 0, &[0x90; 4]);
        cpu.biu_suspend_fetch();
        let c0 = cpu.biu.cycle_num();
        let r = cpu.load_effective_address(OperandType::AddressingMode(m));
        assert!(r.is_some());
        assert!(cpu.ctl.ea_loaded);
        // A second load in the same instruction is free.
        let c1 = cpu.biu.cycle_num();
        cpu.load_effective_address(OperandType::AddressingMode(m));
        assert_eq!(cpu.biu.cycle_num(), c1);
        c1 - c0
    };
    assert_eq!(cost(AddressingMode::Bx), 5);
    assert_eq!(cost(AddressingMode::Si), 5);
    assert_eq!(cost(AddressingMode::Disp16(4)), 6);
    assert_eq!(cost(AddressingMode::BxSi), 7);
    assert_eq!(cost(AddressingMode::BpDi), 7);
    assert_eq!(cost(AddressingMode::BxDi), 8);
    assert_eq!(cost(AddressingMode::BpSi), 8);
    assert_eq!(cost(AddressingMode::BpDisp8(1)), 9);
    assert_eq!(cost(AddressingMode::SiDisp16(1)), 9);
    assert_eq!(cost(AddressingMode::BxSiDisp8(1)), 11);
    assert_eq!(cost(AddressingMode::BpDiDisp16(1)), 11);
    assert_eq!(cost(AddressingMode::BxDiDisp16(1)), 12);
    assert_eq!(cost(AddressingMode::BpSiDisp8(1)), 12);
    let mut cpu = Cpu::new();
    assert_eq!(cpu.load_effective_address(OperandType::Register16(Register16::AX)), None);
}

#[test]
fn operands_read_and_written_by_form() {
    let mut cpu = cpu_at(0x1000, 0, &[0x34, 0x12, 0x10, 0x00, 0x77]);
    cpu.regs.ax = 0xAABB;
    cpu.regs.bx = 0x0040;
    cpu.bus.write_u16(0x20040, 0xCAFE);
    cpu.bus.write_u8(0x20010, 0x5C);
    let none = SegmentOverride::NoOverride;
    assert_eq!(cpu.read_operand8(OperandType::Register8(Register8::AH), none), Some(0xAA));
    assert_eq!(cpu.read_operand16(OperandType::Register16(Register16::AX), none), Some(0xAABB));
    assert_eq!(cpu.read_operand8(OperandType::Register16(Register16::AX), none), None);
    assert_eq!(cpu.read_operand16(OperandType::NoOperand, none), None);
    assert_eq!(cpu.read_operand16(OperandType::Immediate16, none), Some(0x1234));
    assert_eq!(cpu.read_operand8(OperandType::Offset8, none), Some(0x5C));
    assert_eq!(cpu.read_operand8(OperandType::Immediate8, none), Some(0x77));
    let m = OperandType::AddressingMode(AddressingMode::Bx);
    assert_eq!(cpu.read_operand16(m, none), Some(0xCAFE));
    assert_eq!(cpu.read_operand8(m, none), Some(0xFE));
    assert_eq!(cpu.read_operand_farptr(OperandType::Register16(Register16::AX), none, ReadWriteFlag::Normal), None);
    cpu.bus.write_u16(0x20042, 0x8000);
    assert_eq!(cpu.read_operand_farptr(m, none, ReadWriteFlag::Normal), Some((0x8000, 0xCAFE)));
    cpu.write_operand8(m, none, 0x11, ReadWriteFlag::Normal);
    assert_eq!(cpu.bus.read_u16(0x20040), 0xCA11);
    cpu.write_operand16(m, SegmentOverride::ES, 0x2233, ReadWriteFlag::Normal);
    assert_eq!(cpu.bus.read_u16(0x28040), 0x2233);
    cpu.write_operand8(OperandType::Register8(Register8::BH), none, 0x99, ReadWriteFlag::Normal);
    assert_eq!(cpu.regs.bx, 0x9940);
    cpu.write_operand16(OperandType::Register16(Register16::SI), none, 0x4321, ReadWriteFlag::Normal);
    assert_eq!(cpu.regs.si, 0x4321);
    let before = cpu.regs;
    cpu.write_operand16(OperandType::Immediate16, none, 0x4321, ReadWriteFlag::Normal);
    assert_eq!(cpu.regs, before);
}

#[test]
fn stack_primitives() {
    let mut cpu = cpu_at(0x1000, 0, &[0x90; 4]);
    cpu.push_u16(0x1234, ReadWriteFlag::Normal);
    assert_eq!(cpu.regs.sp, 0x00FE);
    assert_eq!(cpu.bus.read_u16(0x300FE), 0x1234);
    cpu.push_u8(0xAB, ReadWriteFlag::Normal);
    assert_eq!(cpu.regs.sp, 0x00FC);
    assert_eq!(cpu.bus.read_u16(0x300FC), 0x00AB);
    assert_eq!(cpu.pop_u16(), 0x00AB);
    assert_eq!(cpu.pop_u16(), 0x1234);
    assert_eq!(cpu.regs.sp, 0x0100);
    cpu.regs.sp = 0x0000;
    cpu.push_register16(Register16::SP, ReadWriteFlag::Normal);
    assert_eq!(cpu.regs.sp, 0xFFFE);
    assert_eq!(cpu.bus.read_u16(0x3FFFE), 0xFFFE);
    cpu.pop_register16(Register16::SP, ReadWriteFlag::Normal);
    assert_eq!(cpu.regs.sp, 0x0000);
    cpu.release(6);
    assert_eq!(cpu.regs.sp, 0x0006);
}

#[test]
fn shadow_call_stack_is_bounded_and_rewinds() {
    let mut s = CallStack::new();
    for k in 0..(CPU_CALL_STACK_LEN as u16 + 2) {
        let dropped = s.push(CallStackEntry::Call { ret_cs: 0, ret_ip: k, call_ip: 0 });
        assert_eq!(dropped.is_some(), k as usize >= CPU_CALL_STACK_LEN);
    }
    assert_eq!(s.len(), CPU_CALL_STACK_LEN);
    assert_eq!(s.get(0), Some(CallStackEntry::Call { ret_cs: 0, ret_ip: 2, call_ip: 0 }));
    assert_eq!(s.get(CPU_CALL_STACK_LEN), None);
    let gone = s.rewind(100);
    assert_eq!(s.len(), 98);
    assert_eq!(gone.len(), CPU_CALL_STACK_LEN - 98);
    assert_eq!(gone[0], CallStackEntry::Call { ret_cs: 0, ret_ip: 100, call_ip: 0 });
    let gone = s.rewind(0x55555);
    assert_eq!(gone.len(), 0);
    assert_eq!(s.len(), 98);
    s.clear();
    assert_eq!(s.len(), 0);
}

#[test]
fn rewind_clears_the_marks_of_what_left() {
    let mut cpu = Cpu::new();
    let e1 = CallStackEntry::Call { ret_cs: 0x1000, ret_ip: 0x10, call_ip: 0x50 };
    let e2 = CallStackEntry::CallF { ret_cs: 0x2000, ret_ip: 0x20, call_cs: 0x3000, call_ip: 0 };
    let e3 = CallStackEntry::Interrupt {
        ret_cs: 0x4000,
        ret_ip: 0x30,
        call_cs: 0,
        call_ip: 0,
        number: 8,
    };
    cpu.push_call_stack(e1, 0x1000, 0x10);
    cpu.push_call_stack(e2, 0x2000, 0x20);
    cpu.push_call_stack(e3, 0x4000, 0x30);
    assert_eq!(e2.return_addr(), 0x20020);
    assert_eq!(cpu.bus.get_flags(0x10010), MEM_RET_BIT);
    assert_eq!(cpu.bus.get_flags(0x40030), MEM_RET_BIT);
    cpu.rewind_call_stack(0x20020);
    assert_eq!(cpu.call_stack.len(), 1);
    assert_eq!(cpu.bus.get_flags(0x10010), MEM_RET_BIT);
    assert_eq!(cpu.bus.get_flags(0x20020), 0);
    assert_eq!(cpu.bus.get_flags(0x40030), 0);
}

#[test]
fn interrupt_lines() {
    let mut cpu = Cpu::new();
    cpu.assert_intr(7);
    assert!(!cpu.ctl.pending_interrupt);
    assert_eq!(cpu.take_pending_irq(), None);
    cpu.flags.interrupt = true;
    cpu.assert_intr(7);
    assert!(cpu.ctl.pending_interrupt);
    assert_eq!(cpu.take_pending_irq(), Some(7));
    cpu.deassert_intr();
    assert!(!cpu.ctl.pending_interrupt);
    assert_eq!(cpu.service_pending_interrupt(), None);
    cpu.flags.interrupt = false;
    cpu.assert_nmi();
    assert!(cpu.ctl.pending_interrupt);
    cpu.bus.write_u16(8, 0x0400);
    cpu.bus.write_u16(10, 0x0070);
    assert_eq!(cpu.service_pending_interrupt(), Some(2));
    assert_eq!((cpu.regs.cs, cpu.regs.ip), (0x0070, 0x0400));
    assert!(!cpu.ctl.nmi);
    assert_eq!(cpu.service_pending_interrupt(), None);
}

#[test]
fn prefixes_as_bits() {
    let p = Prefixes { lock: true, rep1: false, rep2: true, segment_override: true };
    assert_eq!(p.to_bits(), 0x0D);
    assert!(p.has_rep());
    assert_eq!(Prefixes::none().to_bits(), 0);
    assert!(!Prefixes::none().has_rep());
}
