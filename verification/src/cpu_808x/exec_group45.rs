//! The routines of the opcodes 0xF0 to 0xFF.
use vstd::prelude::*;
use crate::cpu_808x::addressing::segment_override;
use crate::cpu_808x::alu::{set_szp16, set_szp8};
use crate::cpu_808x::biu::{add64, offset_add, offset_sub, ReadWriteFlag};
use crate::cpu_808x::callstack::CallStackEntry;
use crate::cpu_808x::exec_common::Flow;
use crate::cpu_808x::instruction::{Mnemonic, OperandType};
use crate::cpu_808x::microcode::{MC_CORR, MC_JUMP, MC_NONE, MC_RTN};
use crate::cpu_808x::muldiv::{div16, div8, mul16, mul8};
use crate::cpu_808x::registers::{
    calc_linear_address,
    low_byte_of,
    reg8to16,
    Register16,
    Register8,
    Segment,
    SegmentOverride,
};
use crate::cpu_808x::state::{Cpu, CpuAddress};
use crate::cpu_808x::validity::{fits, is_byte, is_word, Need};

verus! {

impl Cpu {
    fn exec_hlt(&mut self)
        ensures
            final(self)@ == (crate::cpu_808x::state::Arch {
                ctl: crate::cpu_808x::state::Control { halted: true, ..old(self).ctl },
                ..old(self)@
            }),
            final(self).i == old(self).i,
    {
        self.ctl.halted = true;
        self.biu_suspend_fetch();
        self.cycles(2);
        self.biu_halt();
    }

    fn exec_cli(&mut self)
        requires
            old(self).i.opcode == 0xFA,
        ensures
            final(self)@ == old(self)@.flag_op(old(self).i),
            final(self).i == old(self).i,
            final(self).biu == old(self).biu,
    {
        self.flags.interrupt = false;
        self.ctl.trap_disable_delay = 1;
    }

    fn exec_sti(&mut self)
        requires
            old(self).i.opcode == 0xFB,
        ensures
            final(self)@ == old(self)@.flag_op(old(self).i),
            final(self).i == old(self).i,
            final(self).biu == old(self).biu,
    {
        self.flags.interrupt = true;
        let mut c = self.ctl;
        c.interrupt_inhibit = true;
        c.trap_enable_delay = 1;
        self.ctl = c;
    }

    fn exec_carry_direction(&mut self)
        requires
            old(self).i.opcode != 0xF4,
            old(self).i.opcode != 0xFA,
            old(self).i.opcode != 0xFB,
        ensures
            final(self)@ == old(self)@.flag_op(old(self).i),
            final(self).i == old(self).i,
            final(self).biu == old(self).biu,
    {
        let op = self.i.opcode;
        if op == 0xF5 {
            self.flags.carry = !self.flags.carry;
        } else if op == 0xF8 {
            self.flags.carry = false;
        } else if op == 0xF9 {
            self.flags.carry = true;
        } else if op == 0xFC {
            self.flags.direction = false;
        } else if op == 0xFD {
            self.flags.direction = true;
        }
    }

    fn exec_flag_op(&mut self)
        ensures
            final(self)@ == old(self)@.flag_op(old(self).i),
            final(self).i == old(self).i,
            old(self).i.opcode == 0xF1 ==> final(self).biu@.cycle_num == add64(
                old(self).biu@.cycle_num,
                1,
            ),
            old(self).i.opcode != 0xF1 && old(self).i.opcode != 0xF4 ==> final(self).biu == old(
                self,
            ).biu,
    {
        let op = self.i.opcode;
        if op == 0xF1 {
            self.cycle();
        } else if op == 0xF4 {
            self.exec_hlt();
        } else if op == 0xFA {
            self.exec_cli();
        } else if op == 0xFB {
            self.exec_sti();
        } else {
            self.exec_carry_direction();
        }
    }

    #[verifier::rlimit(50)]
    fn exec_unary8(&mut self, pre: u32, mc: &[u16])
        requires
            fits(old(self).i.operand1_type, Need::RegMem8),
            pre <= mc@.len(),
        ensures
            final(self)@ == old(self)@.alu_byte(
                old(self).i.mnemonic,
                old(self).i,
                old(self).code(),
                0,
                true,
                false,
            ),
            final(self).i == old(self).i,
    {
        let m = self.i.mnemonic;
        let v = self.read_op1_8();
        if self.i.operand1_type.is_addressing_mode() {
            self.cycles_i(pre, mc);
        }
        self.alu8_finish(m, v, 0, true);
    }

    #[verifier::rlimit(50)]
    fn exec_unary16(&mut self, pre: u32, mc: &[u16])
        requires
            fits(old(self).i.operand1_type, Need::RegMem16),
            pre <= mc@.len(),
        ensures
            final(self)@ == old(self)@.alu_word(
                old(self).i.mnemonic,
                old(self).i,
                old(self).code(),
                0,
                true,
                false,
            ),
            final(self).i == old(self).i,
    {
        let m = self.i.mnemonic;
        let v = self.read_op1_16();
        if self.i.operand1_type.is_addressing_mode() {
            self.cycles_i(pre, mc);
        }
        self.alu16_finish(m, v, 0, true);
    }

    #[verifier::rlimit(50)]
    fn exec_test_imm(&mut self)
        requires
            old(self).i.opcode == 0xF6 || old(self).i.opcode == 0xF7,
            old(self).i.mnemonic == Mnemonic::TEST,
            old(self).i.opcode == 0xF6 ==> fits(old(self).i.operand1_type, Need::RegMem8)
                && is_byte(old(self).i.operand2_type),
            old(self).i.opcode == 0xF7 ==> fits(old(self).i.operand1_type, Need::RegMem16)
                && is_word(old(self).i.operand2_type),
        ensures
            final(self)@ == old(self)@.group3(old(self).i, old(self).code()).0,
            final(self).i == old(self).i,
    {
        if self.i.opcode == 0xF6 {
            let (a, b) = self.read_pair8();
            self.cycles_i(2, &[MC_JUMP, 0x09a]);
            self.alu8_finish(Mnemonic::TEST, a, b, false);
        } else {
            let (a, b) = self.read_pair16();
            self.cycle_i(0x09a);
            self.alu16_finish(Mnemonic::TEST, a, b, false);
        }
    }

    #[verifier::rlimit(50)]
    fn exec_mul8(&mut self, is_signed: bool)
        requires
            fits(old(self).i.operand1_type, Need::RegMem8),
        ensures
            final(self)@ == old(self)@.mul_byte(old(self).i, old(self).code(), is_signed),
            final(self).i == old(self).i,
    {
        let negate = self.i.prefixes.has_rep();
        let al = self.regs.read8(Register8::AL);
        let flags = self.flags;
        let v = self.read_op1_8();
        let (p, f) = mul8(al, v, is_signed, negate, flags);
        self.regs.ax = p;
        self.flags = set_szp8((p / 256) as u8, f);
    }

    #[verifier::rlimit(50)]
    fn exec_mul16(&mut self, is_signed: bool)
        requires
            fits(old(self).i.operand1_type, Need::RegMem16),
        ensures
            final(self)@ == old(self)@.mul_word(old(self).i, old(self).code(), is_signed),
            final(self).i == old(self).i,
    {
        let negate = self.i.prefixes.has_rep();
        let ax = self.regs.ax;
        let flags = self.flags;
        let v = self.read_op1_16();
        let (h, l, f) = mul16(ax, v, is_signed, negate, flags);
        proof {
            vstd::arithmetic::div_mod::lemma_fundamental_div_mod_converse(
                h * 0x10000 + l,
                0x10000,
                h as int,
                l as int,
            );
        }
        self.regs.dx = h;
        self.regs.ax = l;
        self.flags = set_szp16(h, f);
    }

    #[verifier::rlimit(50)]
    fn exec_div8(&mut self, is_signed: bool) -> (f: Flow)
        requires
            fits(old(self).i.operand1_type, Need::RegMem8),
        ensures
            (final(self)@, f) == old(self)@.div_byte(old(self).i, old(self).code(), is_signed),
            final(self).i == old(self).i,
    {
        let negate = self.i.prefixes.has_rep();
        let ax = self.regs.ax;
        let v = self.read_op1_8();
        match div8(ax, v, is_signed, negate) {
            Ok((q, r)) => {
                self.regs.write8(Register8::AL, q);
                self.regs.write8(Register8::AH, r);
                Flow::go_on()
            },
            Err(_) => Flow::raise_divide_error(),
        }
    }

    #[verifier::rlimit(50)]
    fn exec_div16(&mut self, is_signed: bool) -> (f: Flow)
        requires
            fits(old(self).i.operand1_type, Need::RegMem16),
        ensures
            (final(self)@, f) == old(self)@.div_word(old(self).i, old(self).code(), is_signed),
            final(self).i == old(self).i,
    {
        let negate = self.i.prefixes.has_rep();
        let dividend: u32 = (self.regs.dx as u32) * 0x10000 + (self.regs.ax as u32);
        let v = self.read_op1_16();
        match div16(dividend, v, is_signed, negate) {
            Ok((q, r)) => {
                self.regs.ax = q;
                self.regs.dx = r;
                Flow::go_on()
            },
            Err(_) => Flow::raise_divide_error(),
        }
    }

    /// Runs an instruction of group 3.
    pub fn exec_group3(&mut self) -> (f: Flow)
        requires
            old(self).i.valid(),
            old(self).i.opcode == 0xF6 || old(self).i.opcode == 0xF7,
        ensures
            (final(self)@, f) == old(self)@.group3(old(self).i, old(self).code()),
            final(self).i == old(self).i,
            !f.jump && !f.stay,
    {
        let word = self.i.opcode == 0xF7;
        proof {
            crate::cpu_808x::validity::lemma_needs_f0_ff(self.i.opcode, self.i.mnemonic);
        }
        match self.i.mnemonic {
            Mnemonic::TEST => {
                self.exec_test_imm();
                Flow::go_on()
            },
            Mnemonic::MUL => {
                if word {
                    self.exec_mul16(false);
                } else {
                    self.exec_mul8(false);
                }
                Flow::go_on()
            },
            Mnemonic::IMUL => {
                if word {
                    self.exec_mul16(true);
                } else {
                    self.exec_mul8(true);
                }
                Flow::go_on()
            },
            Mnemonic::DIV => {
                if word {
                    self.exec_div16(false)
                } else {
                    self.exec_div8(false)
                }
            },
            Mnemonic::IDIV => {
                if word {
                    self.exec_div16(true)
                } else {
                    self.exec_div8(true)
                }
            },
            Mnemonic::NOT => {
                if word {
                    self.exec_unary16(2, &[0x04c, 0x04d]);
                } else {
                    self.exec_unary8(2, &[0x04c, 0x04d]);
                }
                Flow::go_on()
            },
            _ => {
                if word {
                    self.exec_unary16(2, &[0x050, 0x051]);
                } else {
                    self.exec_unary8(2, &[0x050, 0x051]);
                }
                Flow::go_on()
            },
        }
    }

    #[verifier::rlimit(50)]
    fn exec_fe_call(&mut self)
        requires
            old(self).i.mnemonic == Mnemonic::CALL,
            fits(old(self).i.operand1_type, Need::RegMem8),
        ensures
            final(self)@ == old(self)@.group4(old(self).i, old(self).code()).0,
            final(self).i == old(self).i,
            final(self).flushed(),
    {
        let next_i = offset_add(self.regs.ip, self.i.size);
        match self.i.operand1_type {
            OperandType::Register8(r) => {
                self.push_u8(low_byte_of(next_i), ReadWriteFlag::Normal);
                self.biu_suspend_fetch();
                self.cycles(4);
                self.regs.ip = self.regs.read16(reg8to16(r));
                self.flush_and_cycles(0, &[]);
            },
            _ => {
                let ptr8 = self.read_op1_8();
                self.push_u8(low_byte_of(next_i), ReadWriteFlag::Normal);
                self.biu_suspend_fetch();
                self.cycles(4);
                self.regs.ip = 0xFF00 + ptr8 as u16;
                self.flush_and_cycles(0, &[]);
            },
        }
    }

    #[verifier::rlimit(50)]
    fn exec_fe_callf_reg(&mut self, r: Register8)
        requires
            old(self).i.mnemonic == Mnemonic::CALLF,
            old(self).i.operand1_type == OperandType::Register8(r),
        ensures
            final(self)@ == old(self)@.group4(old(self).i, old(self).code()).0,
            final(self).i == old(self).i,
            final(self).flushed(),
    {
        let next_i = offset_add(self.regs.ip, self.i.size);
        let _ = self.biu_read_u8(Segment::DS, 0x0004);
        let cs = self.regs.cs;
        self.push_u8(low_byte_of(cs), ReadWriteFlag::Normal);
        self.push_u8(low_byte_of(next_i), ReadWriteFlag::Normal);
        self.biu_suspend_fetch();
        self.cycles(4);
        self.regs.ip = self.regs.read16(reg8to16(r));
        self.flush_and_cycles(0, &[]);
    }

    /// Reads the far pointer of the 8-bit indirect forms. Returns
    /// (segment, offset).
    #[verifier::rlimit(50)]
    fn read_byte_farptr(&mut self, pre: u32, mc: &[u16]) -> (p: (u16, u16))
        requires
            old(self).i.operand1_type is AddressingMode,
            pre <= mc@.len(),
        ensures
            p == old(self)@.byte_farptr(old(self).i.operand1_type),
            final(self).timing_only(old(self)),
    {
        match self.i.operand1_type {
            OperandType::AddressingMode(m) => {
                let (seg_val, seg, off) = self.calc_effective_address(
                    m,
                    SegmentOverride::NoOverride,
                );
                let offset_addr = calc_linear_address(seg_val, off);
                let segment_addr = calc_linear_address(seg_val, offset_add(off, 2));
                let offset = self.biu_read_u8(seg, offset_addr);
                self.cycles_i(pre, mc);
                let segment = self.biu_read_u8(seg, segment_addr);
                (0xFF00 + segment as u16, 0xFF00 + offset as u16)
            },
            _ => (0, 0),
        }
    }

    #[verifier::rlimit(50)]
    fn exec_fe_callf_mem(&mut self)
        requires
            old(self).i.mnemonic == Mnemonic::CALLF,
            old(self).i.operand1_type is AddressingMode,
        ensures
            final(self)@ == old(self)@.group4(old(self).i, old(self).code()).0,
            final(self).i == old(self).i,
            final(self).queue_base() == final(self).regs.ip,
    {
        let next_i = offset_add(self.regs.ip, self.i.size);
        let (segment, offset) = self.read_byte_farptr(3, &[0x1e2, MC_RTN, 0x068]);
        self.cycle_i(0x06a);
        self.biu_suspend_fetch();
        self.cycles_i(3, &[0x06b, 0x06c, MC_NONE]);
        let cs = self.regs.cs;
        self.push_u8(low_byte_of(cs), ReadWriteFlag::Normal);
        self.regs.cs = segment;
        self.regs.ip = offset;
        self.cycles_i(3, &[0x06e, 0x06f, MC_JUMP]);
        self.biu_queue_flush();
        self.cycles_i(3, &[0x077, 0x078, 0x079]);
        self.push_u8(low_byte_of(next_i), ReadWriteFlag::RNI);
    }

    #[verifier::rlimit(50)]
    fn exec_fe_jmp(&mut self)
        requires
            old(self).i.mnemonic == Mnemonic::JMP || old(self).i.mnemonic == Mnemonic::JMPF,
            fits(old(self).i.operand1_type, Need::RegMem8),
        ensures
            final(self)@ == old(self)@.group4(old(self).i, old(self).code()).0,
            final(self).i == old(self).i,
            final(self).flushed(),
    {
        if self.i.mnemonic == Mnemonic::JMP {
            let ptr8 = self.read_op1_8();
            self.regs.ip = 0xFF00 + ptr8 as u16;
            self.biu_suspend_fetch();
            self.cycles(4);
            self.flush_and_cycles(0, &[]);
        } else {
            match self.i.operand1_type {
                OperandType::Register8(r) => {
                    let _ = self.biu_read_u8(Segment::DS, 0x0004);
                    self.biu_suspend_fetch();
                    self.cycles(4);
                    self.regs.ip = self.regs.read16(reg8to16(r));
                    self.flush_and_cycles(0, &[]);
                },
                _ => {
                    let (segment, offset) = self.read_byte_farptr(0, &[]);
                    self.biu_suspend_fetch();
                    self.cycles(4);
                    self.regs.cs = segment;
                    self.regs.ip = offset;
                    self.flush_and_cycles(0, &[]);
                },
            }
        }
    }

    #[verifier::rlimit(50)]
    fn exec_fe_push(&mut self)
        requires
            old(self).i.mnemonic == Mnemonic::PUSH,
            fits(old(self).i.operand1_type, Need::RegMem8),
        ensures
            final(self)@ == old(self)@.group4(old(self).i, old(self).code()).0,
            final(self).i == old(self).i,
    {
        let v = self.read_op1_8();
        self.cycles_i(3, &[0x024, 0x025, 0x026]);
        self.push_u8(v, ReadWriteFlag::RNI);
    }

    /// Runs an instruction of group 4.
    pub fn exec_group4(&mut self) -> (f: Flow)
        requires
            old(self).i.valid(),
            old(self).i.opcode == 0xFE,
        ensures
            (final(self)@, f) == old(self)@.group4(old(self).i, old(self).code()),
            final(self).i == old(self).i,
            f.jump ==> final(self).queue_base() == final(self).regs.ip,
            f.jump && !(old(self).i.mnemonic == Mnemonic::CALLF
                && old(self).i.operand1_type is AddressingMode) ==> final(self).flushed(),
            !f.stay,
    {
        proof {
            crate::cpu_808x::validity::lemma_needs_f0_ff(self.i.opcode, self.i.mnemonic);
        }
        match self.i.mnemonic {
            Mnemonic::CALL => {
                self.exec_fe_call();
                Flow::taken(true)
            },
            Mnemonic::CALLF => {
                match self.i.operand1_type {
                    OperandType::Register8(r) => {
                        self.exec_fe_callf_reg(r);
                    },
                    _ => {
                        self.exec_fe_callf_mem();
                    },
                }
                Flow::taken(true)
            },
            Mnemonic::JMP | Mnemonic::JMPF => {
                self.exec_fe_jmp();
                Flow::taken(true)
            },
            Mnemonic::PUSH => {
                self.exec_fe_push();
                Flow::go_on()
            },
            _ => {
                self.exec_unary8(2, &[0x020, 0x021]);
                Flow::go_on()
            },
        }
    }

    #[verifier::rlimit(50)]
    fn exec_ff_call(&mut self)
        requires
            old(self).i.mnemonic == Mnemonic::CALL,
            fits(old(self).i.operand1_type, Need::RegMem16),
        ensures
            final(self)@ == old(self)@.group5(old(self).i, old(self).code()).0,
            final(self).i == old(self).i,
            final(self).queue_base() == final(self).regs.ip,
    {
        let ip = self.regs.ip;
        let cs = self.regs.cs;
        let next_i = offset_add(ip, self.i.size);
        match self.i.operand1_type {
            OperandType::Register16(r) => {
                self.biu_suspend_fetch();
                self.cycles_i(4, &[0x074, 0x075, MC_CORR, 0x076]);
                self.regs.ip = self.regs.read16(r);
                self.biu_queue_flush();
                self.cycles_i(3, &[0x077, 0x078, 0x079]);
                self.push_u16(next_i, ReadWriteFlag::RNI);
            },
            _ => {
                let ptr16 = self.read_op1_16();
                self.biu_suspend_fetch();
                self.cycles_i(4, &[0x074, 0x075, MC_CORR, 0x076]);
                self.ctl.step_over_target = Some(CpuAddress::Segmented(cs, next_i));
                self.push_call_stack(
                    CallStackEntry::Call { ret_cs: cs, ret_ip: next_i, call_ip: ptr16 },
                    cs,
                    next_i,
                );
                self.regs.ip = ptr16;
                self.biu_queue_flush();
                self.cycles_i(3, &[0x077, 0x078, 0x079]);
                self.push_u16(next_i, ReadWriteFlag::RNI);
            },
        }
    }

    #[verifier::rlimit(50)]
    fn exec_ff_callf_mem(&mut self)
        requires
            old(self).i.mnemonic == Mnemonic::CALLF,
            old(self).i.operand1_type is AddressingMode,
        ensures
            final(self)@ == old(self)@.group5(old(self).i, old(self).code()).0,
            final(self).i == old(self).i,
            final(self).queue_base() == final(self).regs.ip,
    {
        let ip = self.regs.ip;
        let cs = self.regs.cs;
        let next_i = offset_add(ip, self.i.size);
        self.cycle_i(0x068);
        let (segment, offset) = self.read_operand_farptr(
            self.i.operand1_type,
            self.i.segment_override,
            ReadWriteFlag::Normal,
        ).unwrap();
        self.cycle_i(0x06a);
        self.biu_suspend_fetch();
        self.cycles_i(3, &[0x06b, 0x06c, MC_NONE]);
        self.push_register16(Register16::CS, ReadWriteFlag::Normal);
        self.ctl.step_over_target = Some(CpuAddress::Segmented(cs, next_i));
        self.push_call_stack(
            CallStackEntry::CallF { ret_cs: cs, ret_ip: next_i, call_cs: segment, call_ip: offset },
            cs,
            next_i,
        );
        self.regs.cs = segment;
        self.regs.ip = offset;
        self.cycles_i(3, &[0x06e, 0x06f, MC_JUMP]);
        self.biu_queue_flush();
        self.cycles_i(3, &[0x077, 0x078, 0x079]);
        self.push_u16(next_i, ReadWriteFlag::RNI);
    }

    #[verifier::rlimit(50)]
    fn exec_ff_callf_reg(&mut self)
        requires
            old(self).i.mnemonic == Mnemonic::CALLF,
            old(self).i.operand1_type is Register16,
        ensures
            final(self)@ == old(self)@.group5(old(self).i, old(self).code()).0,
            final(self).i == old(self).i,
            final(self).queue_base() == final(self).regs.ip,
    {
        let next_i = offset_add(self.regs.ip, self.i.size);
        let seg = segment_override(self.i.segment_override, Segment::DS);
        let flat = self.calc_linear_address_seg(seg, 0x0004);
        let segment = self.biu_read_u16(seg, flat, ReadWriteFlag::Normal);
        self.cycle_i(0x06a);
        self.biu_suspend_fetch();
        self.cycles_i(3, &[0x06b, 0x06c, MC_CORR]);
        self.push_register16(Register16::CS, ReadWriteFlag::Normal);
        self.regs.cs = segment;
        self.cycles_i(3, &[0x06e, 0x06f, MC_JUMP]);
        self.biu_queue_flush();
        self.cycles_i(3, &[0x077, 0x078, 0x079]);
        self.push_u16(next_i, ReadWriteFlag::RNI);
    }

    #[verifier::rlimit(50)]
    fn exec_ff_jmp(&mut self)
        requires
            old(self).i.mnemonic == Mnemonic::JMP,
            fits(old(self).i.operand1_type, Need::RegMem16),
        ensures
            final(self)@ == old(self)@.group5(old(self).i, old(self).code()).0,
            final(self).i == old(self).i,
            final(self).flushed(),
    {
        let ptr16 = self.read_op1_16();
        self.biu_suspend_fetch();
        self.cycle_i(0x0d8);
        self.regs.ip = ptr16;
        self.flush_and_cycles(0, &[]);
    }

    #[verifier::rlimit(50)]
    fn exec_ff_jmpf(&mut self)
        requires
            old(self).i.mnemonic == Mnemonic::JMPF,
            fits(old(self).i.operand1_type, Need::RegMem16),
        ensures
            final(self)@ == old(self)@.group5(old(self).i, old(self).code()).0,
            final(self).i == old(self).i,
            final(self).flushed(),
    {
        match self.i.operand1_type {
            OperandType::Register16(_) => {
                let seg = segment_override(self.i.segment_override, Segment::DS);
                self.cycle();
                self.biu_suspend_fetch();
                self.cycle();
                let flat = self.calc_linear_address_seg(seg, 0x0004);
                let segment = self.biu_read_u16(seg, flat, ReadWriteFlag::Normal);
                self.regs.cs = segment;
                self.flush_and_cycles(0, &[]);
            },
            _ => {
                self.cycle_i(0x0dc);
                self.biu_suspend_fetch();
                self.cycle_i(0x0dd);
                let (segment, offset) = self.read_operand_farptr(
                    self.i.operand1_type,
                    self.i.segment_override,
                    ReadWriteFlag::Normal,
                ).unwrap();
                self.regs.cs = segment;
                self.regs.ip = offset;
                self.flush_and_cycles(0, &[]);
            },
        }
    }

    #[verifier::rlimit(50)]
    fn exec_ff_push(&mut self)
        requires
            old(self).i.mnemonic == Mnemonic::PUSH,
            fits(old(self).i.operand1_type, Need::RegMem16),
        ensures
            final(self)@ == old(self)@.group5(old(self).i, old(self).code()).0,
            final(self).i == old(self).i,
    {
        let v = self.read_op1_16();
        self.cycles_i(3, &[0x024, 0x025, 0x026]);
        let pushed = match self.i.operand1_type {
            OperandType::Register16(Register16::SP) => offset_sub(v, 2),
            _ => v,
        };
        self.push_u16(pushed, ReadWriteFlag::RNI);
    }

    /// Runs an instruction of group 5.
    pub fn exec_group5(&mut self) -> (f: Flow)
        requires
            old(self).i.valid(),
            old(self).i.opcode == 0xFF,
        ensures
            (final(self)@, f) == old(self)@.group5(old(self).i, old(self).code()),
            final(self).i == old(self).i,
            f.jump ==> final(self).queue_base() == final(self).regs.ip,
            f.jump && (old(self).i.mnemonic == Mnemonic::JMP || old(self).i.mnemonic
                == Mnemonic::JMPF) ==> final(self).flushed(),
            !f.stay,
    {
        proof {
            crate::cpu_808x::validity::lemma_needs_f0_ff(self.i.opcode, self.i.mnemonic);
        }
        match self.i.mnemonic {
            Mnemonic::CALL => {
                self.exec_ff_call();
                Flow::taken(true)
            },
            Mnemonic::CALLF => {
                match self.i.operand1_type {
                    OperandType::Register16(_) => {
                        self.exec_ff_callf_reg();
                    },
                    _ => {
                        self.exec_ff_callf_mem();
                    },
                }
                Flow::taken(true)
            },
            Mnemonic::JMP => {
                self.exec_ff_jmp();
                Flow::taken(true)
            },
            Mnemonic::JMPF => {
                self.exec_ff_jmpf();
                Flow::taken(true)
            },
            Mnemonic::PUSH => {
                self.exec_ff_push();
                Flow::go_on()
            },
            _ => {
                self.exec_unary16(2, &[0x020, 0x021]);
                Flow::go_on()
            },
        }
    }

    /// Runs an instruction with an opcode from 0xF0 to 0xFF.
    pub fn exec_f0_ff(&mut self) -> (f: Flow)
        requires
            old(self).i.valid(),
            0xF0 <= old(self).i.opcode,
        ensures
            (final(self)@, f) == old(self)@.g10(old(self).i, old(self).code()),
            final(self).i == old(self).i,
            f.jump ==> final(self).queue_base() == final(self).regs.ip,
            f.jump && old(self).i.opcode == 0xFE && !(old(self).i.mnemonic == Mnemonic::CALLF
                && old(self).i.operand1_type is AddressingMode) ==> final(self).flushed(),
            f.jump && old(self).i.opcode == 0xFF && (old(self).i.mnemonic == Mnemonic::JMP
                || old(self).i.mnemonic == Mnemonic::JMPF) ==> final(self).flushed(),
            !f.stay,
            old(self)@.routine_cycles(old(self).i) matches Some(n) ==> final(self).biu@.cycle_num
                == add64(old(self).biu@.cycle_num, n),
    {
        let op = self.i.opcode;
        proof {
            crate::cpu_808x::cycles::lemma_routine_cycles_a0_ff(self@, self.i);
            crate::cpu_808x::biu::lemma_add64_add(self.biu@.cycle_num, 0, 0);
        }
        if op == 0xF6 || op == 0xF7 {
            self.exec_group3()
        } else if op == 0xFE {
            self.exec_group4()
        } else if op == 0xFF {
            self.exec_group5()
        } else {
            self.exec_flag_op();
            Flow::go_on()
        }
    }
}

} // verus!
