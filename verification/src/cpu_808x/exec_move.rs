//! Opcodes 0x60 to 0xBF: the conditional jumps, the immediate group, TEST,
//! XCHG, MOV, LEA, the far call, the flag transfers and the string
//! instructions.
use vstd::prelude::*;
use crate::cpu_808x::addressing::{ea_offset, sext16, sign_extend};
use crate::cpu_808x::alu::{alu16, alu8, math_op16, math_op8};
use crate::cpu_808x::biu::{add16, add64, offset_add, ReadWriteFlag};
use crate::cpu_808x::callstack::CallStackEntry;
use crate::cpu_808x::exec_common::Flow;
use crate::cpu_808x::instruction::{Instruction, Mnemonic, OperandType};
use crate::cpu_808x::jump::rel_target;
use crate::cpu_808x::microcode::{MC_CORR, MC_JUMP};
use crate::cpu_808x::registers::{linear, reg16_of_index, register16_lut, Flags, Register16, Register8, Registers, SegmentOverride};
use crate::cpu_808x::state::{Arch, Control, Cpu, CpuAddress, RepType};
use crate::cpu_808x::validity::{fits, is_byte, is_word, takes_code, Need};

verus! {

/// Whether the condition with code `cc` (the low four bits of a conditional
/// jump) holds.
pub open spec fn condition_met(cc: int, f: Flags) -> bool {
    if cc == 0 {
        f.overflow
    } else if cc == 1 {
        !f.overflow
    } else if cc == 2 {
        f.carry
    } else if cc == 3 {
        !f.carry
    } else if cc == 4 {
        f.zero
    } else if cc == 5 {
        !f.zero
    } else if cc == 6 {
        f.carry || f.zero
    } else if cc == 7 {
        !f.carry && !f.zero
    } else if cc == 8 {
        f.sign
    } else if cc == 9 {
        !f.sign
    } else if cc == 10 {
        f.parity
    } else if cc == 11 {
        !f.parity
    } else if cc == 12 {
        f.sign != f.overflow
    } else if cc == 13 {
        f.sign == f.overflow
    } else if cc == 14 {
        f.zero || (f.sign != f.overflow)
    } else {
        !f.zero && (f.sign == f.overflow)
    }
}

fn condition(cc: u8, f: &Flags) -> (b: bool)
    ensures
        b == condition_met(cc as int, *f),
{
    if cc == 0 {
        f.overflow
    } else if cc == 1 {
        !f.overflow
    } else if cc == 2 {
        f.carry
    } else if cc == 3 {
        !f.carry
    } else if cc == 4 {
        f.zero
    } else if cc == 5 {
        !f.zero
    } else if cc == 6 {
        f.carry || f.zero
    } else if cc == 7 {
        !f.carry && !f.zero
    } else if cc == 8 {
        f.sign
    } else if cc == 9 {
        !f.sign
    } else if cc == 10 {
        f.parity
    } else if cc == 11 {
        !f.parity
    } else if cc == 12 {
        f.sign != f.overflow
    } else if cc == 13 {
        f.sign == f.overflow
    } else if cc == 14 {
        f.zero || (f.sign != f.overflow)
    } else {
        !f.zero && (f.sign == f.overflow)
    }
}

impl Arch {
    /// The state after a relative jump was taken or not: operand 1 is the
    /// displacement, counted from the end of the instruction.
    pub open spec fn rel_jump8(self, i: Instruction, code: Seq<u8>, taken: bool) -> Arch {
        let t = self.touched(i.operand1_type);
        if taken {
            t.jumped(rel_target(self.regs.ip, i.size, sext16(self.op1_8(i, code))))
        } else {
            t
        }
    }

    /// What the opcodes 0x60 to 0x7F do: the sixteen conditional jumps; 0x60
    /// to 0x6F are the same as 0x70 to 0x7F.
    pub open spec fn g2(self, i: Instruction, code: Seq<u8>) -> (Arch, Flow) {
        let taken = condition_met(i.opcode as int % 16, self.flags);
        (self.rel_jump8(i, code, taken), Flow::jump_if(taken))
    }

    /// A load of SS holds off interrupts and the single-step trap until the
    /// next instruction has run.
    pub open spec fn ss_guard(self, op: OperandType) -> Arch {
        if op == OperandType::Register16(Register16::SS) {
            Arch {
                ctl: Control { trap_suppressed: true, interrupt_inhibit: true, ..self.ctl },
                ..self
            }
        } else {
            self
        }
    }

    /// MOV of a byte: operand 2 is read, operand 1 written.
    pub open spec fn mov8(self, i: Instruction, code: Seq<u8>) -> Arch {
        self.touched(i.operand2_type).written8(
            i.operand1_type,
            i.segment_override,
            self.op2_8(i, code),
            code,
        )
    }

    /// MOV of a word.
    pub open spec fn mov16(self, i: Instruction, code: Seq<u8>) -> Arch {
        self.touched(i.operand2_type).written16(
            i.operand1_type,
            i.segment_override,
            self.op2_16(i, code),
            code,
        )
    }

    /// XCHG of bytes: operand 2 is written first.
    pub open spec fn xchg8(self, i: Instruction, code: Seq<u8>) -> Arch {
        self.read_both(i).written8(
            i.operand2_type,
            i.segment_override,
            self.op1_8(i, code),
            code,
        ).written8(i.operand1_type, i.segment_override, self.op2_8(i, code), code)
    }

    /// XCHG of words.
    pub open spec fn xchg16(self, i: Instruction, code: Seq<u8>) -> Arch {
        self.read_both(i).written16(
            i.operand2_type,
            i.segment_override,
            self.op1_16(i, code),
            code,
        ).written16(i.operand1_type, i.segment_override, self.op2_16(i, code), code)
    }

    /// LEA: operand 1 takes the offset of operand 2. With a register as
    /// operand 2 it takes the last effective address that was computed.
    pub open spec fn lea(self, i: Instruction, code: Seq<u8>) -> Arch {
        match i.operand2_type {
            OperandType::AddressingMode(m) => self.touched(i.operand2_type).written16(
                i.operand1_type,
                SegmentOverride::NoOverride,
                ea_offset(m, self.regs),
                code,
            ),
            _ => self.written16(
                i.operand1_type,
                SegmentOverride::NoOverride,
                self.ctl.last_ea,
                code,
            ),
        }
    }

    /// What the opcodes 0x80 to 0x8F do.
    ///
    /// - 0x80 to 0x83: the ALU operation that the decode stage chose, between
    ///   operand 1 and an immediate; 0x83 sign-extends a byte immediate. CMP
    ///   stores nothing.
    /// - 0x84, 0x85: TEST. 0x86, 0x87: XCHG. 0x88 to 0x8B: MOV.
    /// - 0x8C, 0x8E: MOV from and to a segment register.
    /// - 0x8D: LEA. 0x8F: POP into operand 1.
    pub open spec fn g3(self, i: Instruction, code: Seq<u8>) -> Arch {
        let op = i.opcode;
        if op == 0x80 || op == 0x82 {
            self.alu_byte(
                i.mnemonic,
                i,
                code,
                self.op2_8(i, code),
                i.mnemonic != Mnemonic::CMP,
                true,
            )
        } else if op == 0x81 {
            self.alu_word(
                i.mnemonic,
                i,
                code,
                self.op2_16(i, code),
                i.mnemonic != Mnemonic::CMP,
                true,
            )
        } else if op == 0x83 {
            self.alu_word(
                i.mnemonic,
                i,
                code,
                sext16(self.op2_8(i, code)),
                i.mnemonic != Mnemonic::CMP,
                true,
            )
        } else if op == 0x84 {
            self.alu_byte(Mnemonic::TEST, i, code, self.op2_8(i, code), false, true)
        } else if op == 0x85 {
            self.alu_word(Mnemonic::TEST, i, code, self.op2_16(i, code), false, true)
        } else if op == 0x86 {
            self.xchg8(i, code)
        } else if op == 0x87 {
            self.xchg16(i, code)
        } else if op == 0x88 || op == 0x8A {
            self.mov8(i, code)
        } else if op == 0x89 || op == 0x8B {
            self.mov16(i, code)
        } else if op == 0x8C || op == 0x8E {
            self.mov16(i, code).ss_guard(i.operand1_type)
        } else if op == 0x8D {
            self.lea(i, code)
        } else {
            self.pop16().written16(i.operand1_type, i.segment_override, self.top16(), code)
        }
    }

    /// The state after a far call to `seg:off` from an instruction of `size`
    /// bytes: CS and the address of the next instruction are pushed, the call
    /// is on the shadow stack, and the step-over target is the return
    /// address.
    pub open spec fn far_call(self, seg: u16, off: u16, size: u16) -> Arch {
        let next = add16(self.regs.ip, size as int);
        let cs = self.regs.cs;
        let a = self.push_reg(Register16::CS);
        let b = Arch {
            ctl: Control { step_over_target: Some(CpuAddress::Segmented(cs, next)), ..a.ctl },
            ..a
        }.call_noted(
            CallStackEntry::CallF { ret_cs: cs, ret_ip: next, call_cs: seg, call_ip: off },
            linear(cs, next),
        );
        Arch { regs: Registers { cs: seg, ip: off, ..b.regs }, ..b }.push16(next)
    }

    /// What the opcodes 0x90 to 0x9F do.
    ///
    /// - 0x90 to 0x97: XCHG of AX with a word register; 0x90 is NOP.
    /// - 0x98: CBW. 0x99: CWD.
    /// - 0x9A: far call to the address in the instruction stream.
    /// - 0x9B: WAIT, which changes nothing.
    /// - 0x9C: PUSHF. 0x9D: POPF, after which a trap flag that was turned on
    ///   takes effect one instruction late. 0x9E: SAHF. 0x9F: LAHF.
    pub open spec fn g4(self, i: Instruction, code: Seq<u8>) -> (Arch, Flow) {
        let op = i.opcode;
        if op < 0x98 {
            let r = reg16_of_index(op as int % 8);
            (
                Arch {
                    regs: self.regs.set16(Register16::AX, self.regs.get16(r)).set16(
                        r,
                        self.regs.ax,
                    ),
                    ..self
                },
                Flow::next(),
            )
        } else if op == 0x98 {
            (self.cbw(), Flow::next())
        } else if op == 0x99 {
            (self.cwd(), Flow::next())
        } else if op == 0x9A {
            (
                self.far_call(
                    crate::cpu_808x::addressing::code_word_at(code, 2),
                    crate::cpu_808x::addressing::code_word_at(code, 0),
                    i.size,
                ),
                Flow::jumped(),
            )
        } else if op == 0x9B {
            (self, Flow::next())
        } else if op == 0x9C {
            (self.push_flags(), Flow::next())
        } else if op == 0x9D {
            (self.pop_flags().trap_armed(self.flags), Flow::next())
        } else if op == 0x9E {
            (
                Arch {
                    flags: self.flags.with_low_byte(self.regs.get8(Register8::AH)),
                    ..self
                },
                Flow::next(),
            )
        } else {
            (
                Arch { regs: self.regs.set8(Register8::AH, self.flags.low() as u8), ..self },
                Flow::next(),
            )
        }
    }

    /// One pass of a string instruction under the repeat machinery.
    ///
    /// - Under a repeat prefix with CX zero nothing runs and the repeat ends.
    /// - Otherwise one element is processed. Without a repeat that is all.
    /// - Under a repeat CX is decremented. `zero_test` says that the
    ///   instruction compares: then REPNE ends the repeat when the zero flag
    ///   is set and REPE when it is clear.
    /// - Else a pending interrupt ends the repeat and keeps IP on the
    ///   instruction; else CX at zero ends the repeat; else the repeat goes
    ///   on.
    pub open spec fn string_pass(self, i: Instruction, zero_test: bool) -> (Arch, Flow) {
        if self.ctl.in_rep && self.regs.cx == 0 {
            (self.rep_ended(), Flow::next())
        } else {
            let s = self.string_step(i.mnemonic, i.segment_override);
            if !self.ctl.in_rep {
                (s, Flow::next())
            } else {
                let d = s.decremented(Register16::CX);
                if zero_test && ((self.ctl.rep_type == RepType::Repne && s.flags.zero) || (
                self.ctl.rep_type == RepType::Repe && !s.flags.zero)) {
                    (d.rep_ended(), Flow::next())
                } else if self.ctl.pending_interrupt {
                    (
                        d.rep_ended(),
                        Flow {
                            jump: false,
                            exception: crate::cpu_808x::muldiv::CpuException::NoException,
                            stay: true,
                        },
                    )
                } else if d.regs.cx == 0 {
                    (d.rep_ended(), Flow::next())
                } else {
                    (d, Flow::next())
                }
            }
        }
    }

    /// What the opcodes 0xA0 to 0xAF do.
    ///
    /// - 0xA0 to 0xA3: MOV between AL or AX and a direct offset.
    /// - 0xA4, 0xA5: MOVS. 0xA6, 0xA7: CMPS. 0xAA, 0xAB: STOS. 0xAC, 0xAD:
    ///   LODS. 0xAE, 0xAF: SCAS.
    /// - 0xA8, 0xA9: TEST of AL or AX with an immediate.
    pub open spec fn g5(self, i: Instruction, code: Seq<u8>) -> (Arch, Flow) {
        let op = i.opcode;
        if op == 0xA0 {
            (
                Arch {
                    regs: self.regs.set8(Register8::AL, self.op2_8(i, code)),
                    ..self.touched(i.operand2_type)
                },
                Flow::next(),
            )
        } else if op == 0xA1 {
            (
                Arch {
                    regs: Registers { ax: self.op2_16(i, code), ..self.regs },
                    ..self.touched(i.operand2_type)
                },
                Flow::next(),
            )
        } else if op == 0xA2 {
            (
                self.written8(
                    i.operand1_type,
                    i.segment_override,
                    self.regs.get8(Register8::AL),
                    code,
                ),
                Flow::next(),
            )
        } else if op == 0xA3 {
            (
                self.written16(i.operand1_type, i.segment_override, self.regs.ax, code),
                Flow::next(),
            )
        } else if op == 0xA8 {
            (
                Arch {
                    flags: alu8(
                        Mnemonic::TEST,
                        self.regs.get8(Register8::AL),
                        self.op2_8(i, code),
                        self.flags,
                    ).1,
                    ..self.touched(i.operand2_type)
                },
                Flow::next(),
            )
        } else if op == 0xA9 {
            (
                Arch {
                    flags: alu16(
                        Mnemonic::TEST,
                        self.regs.ax,
                        self.op2_16(i, code),
                        self.flags,
                    ).1,
                    ..self.touched(i.operand2_type)
                },
                Flow::next(),
            )
        } else {
            self.string_pass(i, op == 0xA6 || op == 0xA7 || op == 0xAE || op == 0xAF)
        }
    }

    /// What the opcodes 0xB0 to 0xBF do: MOV of an immediate into a register.
    /// An operand 1 that is no register of the right size takes nothing.
    pub open spec fn g6(self, i: Instruction, code: Seq<u8>) -> Arch {
        let t = self.touched(i.operand2_type);
        if i.opcode < 0xB8 {
            match i.operand1_type {
                OperandType::Register8(r) => Arch {
                    regs: self.regs.set8(r, self.op2_8(i, code)),
                    ..t
                },
                _ => t,
            }
        } else {
            match i.operand1_type {
                OperandType::Register16(r) => Arch {
                    regs: self.regs.set16(r, self.op2_16(i, code)),
                    ..t
                },
                _ => t,
            }
        }
    }
}

impl Cpu {
    /// Runs a conditional jump.
    pub fn exec_60_7f(&mut self) -> (f: Flow)
        requires
            is_byte(old(self).i.operand1_type),
        ensures
            (final(self)@, f) == old(self)@.g2(old(self).i, old(self).code()),
            final(self).i == old(self).i,
            f.jump ==> final(self).flushed(),
    {
        let taken = condition(self.i.opcode % 16, &self.flags);
        let rel8 = self.read_op1_8();
        self.cycle_i(0x0e9);
        if taken {
            let target = offset_add(offset_add(self.regs.ip, self.i.size), sign_extend(rel8));
            self.reljmp(target, true);
        }
        Flow::taken(taken)
    }

    fn exec_group1(&mut self)
        requires
            0x80 <= old(self).i.opcode <= 0x83,
            old(self).i.opcode != 0x81 && old(self).i.opcode != 0x83 ==> fits(
                old(self).i.operand1_type,
                Need::RegMem8,
            ),
            old(self).i.opcode == 0x81 || old(self).i.opcode == 0x83 ==> fits(
                old(self).i.operand1_type,
                Need::RegMem16,
            ),
            old(self).i.opcode == 0x81 ==> is_word(old(self).i.operand2_type),
            old(self).i.opcode != 0x81 ==> is_byte(old(self).i.operand2_type),
        ensures
            final(self)@ == old(self)@.g3(old(self).i, old(self).code()),
            final(self).i == old(self).i,
    {
        let op = self.i.opcode;
        let m = self.i.mnemonic;
        let store = m != Mnemonic::CMP;
        let mem = self.i.operand1_type.is_addressing_mode();
        if op == 0x81 {
            let (a, b) = self.read_pair16();
            self.cycle_nx();
            if mem {
                if store {
                    self.cycles_i(2, &[0x00e, 0x00f]);
                } else {
                    self.cycles_nx_i(2, &[0x00e, 0x00f]);
                }
            }
            self.alu16_finish(m, a, b, store);
        } else if op == 0x83 {
            let (a, b) = self.read_pair16_8();
            if mem {
                self.cycles_i(2, &[0x00e, 0x00f]);
            }
            self.alu16_finish(m, a, sign_extend(b), store);
        } else {
            let (a, b) = self.read_pair8();
            self.cycle_nx();
            if mem {
                self.cycles_i(2, &[0x00e, 0x00f]);
            }
            self.alu8_finish(m, a, b, store);
        }
    }

    fn exec_test(&mut self)
        requires
            old(self).i.opcode == 0x84 || old(self).i.opcode == 0x85,
            old(self).i.opcode == 0x84 ==> fits(old(self).i.operand1_type, Need::RegMem8)
                && is_byte(old(self).i.operand2_type),
            old(self).i.opcode == 0x85 ==> fits(old(self).i.operand1_type, Need::RegMem16)
                && is_word(old(self).i.operand2_type),
        ensures
            final(self)@ == old(self)@.g3(old(self).i, old(self).code()),
            final(self).i == old(self).i,
            old(self).i.of_registers() ==> final(self).biu@.cycle_num == add64(
                old(self).biu@.cycle_num,
                1,
            ),
    {
        if self.i.opcode == 0x84 {
            let (a, b) = self.read_pair8();
            self.alu8_finish(Mnemonic::TEST, a, b, false);
            self.cycles_nx_i(2, &[0x94]);
        } else {
            let (a, b) = self.read_pair16();
            self.alu16_finish(Mnemonic::TEST, a, b, false);
            self.cycles_nx_i(2, &[0x94]);
        }
    }

    #[verifier::rlimit(50)]
    fn exec_xchg8(&mut self)
        requires
            fits(old(self).i.operand1_type, Need::RegMem8),
            fits(old(self).i.operand2_type, Need::RegMem8),
        ensures
            final(self)@ == old(self)@.xchg8(old(self).i, old(self).code()),
            final(self).i == old(self).i,
            old(self).i.of_byte_registers() ==> final(self).biu@.cycle_num == add64(
                old(self).biu@.cycle_num,
                2,
            ),
    {
        let ovr = self.i.segment_override;
        let (a, b) = self.read_pair8();
        self.cycles_nx(3);
        if self.i.operand2_type.is_addressing_mode() {
            self.cycles(2);
        }
        let ghost s2 = *self;
        self.write_operand8(self.i.operand2_type, ovr, a, ReadWriteFlag::RNI);
        let ghost s3 = *self;
        self.write_operand8(self.i.operand1_type, ovr, b, ReadWriteFlag::Normal);
        proof {
            let c = old(self).code();
            crate::cpu_808x::exec_common::lemma_written_code(
                s2@,
                self.i.operand2_type,
                ovr,
                a,
                0,
                s2.code(),
                c,
            );
            crate::cpu_808x::exec_common::lemma_written_code(
                s3@,
                self.i.operand1_type,
                ovr,
                b,
                0,
                s3.code(),
                c,
            );
            assert(s2@ == old(self)@.read_both(old(self).i));
            assert(s3@ == s2@.written8(self.i.operand2_type, ovr, a, c));
            assert(self@ == s3@.written8(self.i.operand1_type, ovr, b, c));
        }
    }

    #[verifier::rlimit(50)]
    fn exec_xchg16(&mut self)
        requires
            fits(old(self).i.operand1_type, Need::RegMem16),
            fits(old(self).i.operand2_type, Need::RegMem16),
        ensures
            final(self)@ == old(self)@.xchg16(old(self).i, old(self).code()),
            final(self).i == old(self).i,
            old(self).i.of_word_registers() ==> final(self).biu@.cycle_num == add64(
                old(self).biu@.cycle_num,
                2,
            ),
    {
        let ovr = self.i.segment_override;
        let (a, b) = self.read_pair16();
        self.cycles_nx(3);
        if self.i.operand2_type.is_addressing_mode() {
            self.cycles(2);
        }
        let ghost s2 = *self;
        self.write_operand16(self.i.operand2_type, ovr, a, ReadWriteFlag::RNI);
        let ghost s3 = *self;
        self.write_operand16(self.i.operand1_type, ovr, b, ReadWriteFlag::Normal);
        proof {
            let c = old(self).code();
            crate::cpu_808x::exec_common::lemma_written_code(
                s2@,
                self.i.operand2_type,
                ovr,
                0,
                a,
                s2.code(),
                c,
            );
            crate::cpu_808x::exec_common::lemma_written_code(
                s3@,
                self.i.operand1_type,
                ovr,
                0,
                b,
                s3.code(),
                c,
            );
            assert(s2@ == old(self)@.read_both(old(self).i));
            assert(s3@ == s2@.written16(self.i.operand2_type, ovr, a, c));
            assert(self@ == s3@.written16(self.i.operand1_type, ovr, b, c));
        }
    }

    /// MOV of a byte from operand 2 to operand 1.
    fn mov_byte(&mut self, pre: u32, mc: &[u16])
        requires
            is_byte(old(self).i.operand2_type),
            !(takes_code(old(self).i.operand1_type) && takes_code(old(self).i.operand2_type)),
            pre <= mc@.len(),
        ensures
            final(self)@ == old(self)@.mov8(old(self).i, old(self).code()),
            final(self).i == old(self).i,
            old(self).i.of_byte_registers() ==> final(self).biu == old(self).biu,
    {
        let v = self.read_op2_8();
        let ghost mid = *self;
        if self.i.operand1_type.is_addressing_mode() {
            self.cycles_i(pre, mc);
        }
        proof {
            if !takes_code(old(self).i.operand2_type) {
                self.lemma_same_code_trans(&mid, old(self));
                self.lemma_same_code_seq(old(self));
            }
        }
        self.write_operand8(self.i.operand1_type, self.i.segment_override, v, ReadWriteFlag::RNI);
    }

    /// MOV of a word from operand 2 to operand 1.
    fn mov_word(&mut self, pre: u32, mc: &[u16])
        requires
            is_word(old(self).i.operand2_type),
            !(takes_code(old(self).i.operand1_type) && takes_code(old(self).i.operand2_type)),
            pre <= mc@.len(),
        ensures
            final(self)@ == old(self)@.mov16(old(self).i, old(self).code()),
            final(self).i == old(self).i,
            old(self).i.of_word_registers() ==> final(self).biu == old(self).biu,
    {
        let v = self.read_op2_16();
        let ghost mid = *self;
        if self.i.operand1_type.is_addressing_mode() {
            self.cycles_i(pre, mc);
        }
        proof {
            if !takes_code(old(self).i.operand2_type) {
                self.lemma_same_code_trans(&mid, old(self));
                self.lemma_same_code_seq(old(self));
            }
        }
        self.write_operand16(
            self.i.operand1_type,
            self.i.segment_override,
            v,
            ReadWriteFlag::RNI,
        );
    }

    fn exec_mov_rm(&mut self)
        requires
            0x88 <= old(self).i.opcode <= 0x8E,
            old(self).i.opcode != 0x8D,
            old(self).i.opcode == 0x88 || old(self).i.opcode == 0x8A ==> is_byte(
                old(self).i.operand2_type,
            ),
            old(self).i.opcode != 0x88 && old(self).i.opcode != 0x8A ==> is_word(
                old(self).i.operand2_type,
            ),
            !(takes_code(old(self).i.operand1_type) && takes_code(old(self).i.operand2_type)),
        ensures
            final(self)@ == old(self)@.g3(old(self).i, old(self).code()),
            final(self).i == old(self).i,
            (old(self).i.opcode <= 0x8B && old(self).i.of_registers()) || (old(self).i.opcode
                > 0x8B && old(self).i.of_word_registers()) ==> final(self).biu@.cycle_num
                == old(self).biu@.cycle_num,
    {
        let op = self.i.opcode;
        if op == 0x88 || op == 0x8A {
            self.cycle_nx();
            self.mov_byte(2, &[0x000, 0x001]);
        } else if op == 0x89 || op == 0x8B {
            self.cycle_nx();
            self.mov_word(2, &[0x000, 0x001]);
        } else {
            self.mov_word(1, &[0x0ec]);
            match self.i.operand1_type {
                OperandType::Register16(Register16::SS) => {
                    self.ctl.trap_suppressed = true;
                    self.ctl.interrupt_inhibit = true;
                },
                _ => {},
            }
        }
    }

    fn exec_lea_pop(&mut self)
        requires
            old(self).i.opcode == 0x8D || old(self).i.opcode == 0x8F,
        ensures
            final(self)@ == old(self)@.g3(old(self).i, old(self).code()),
            final(self).i == old(self).i,
    {
        if self.i.opcode == 0x8D {
            let ea = self.load_effective_address(self.i.operand2_type);
            proof {
                self.lemma_same_code_seq(old(self));
            }
            match ea {
                Some(v) => {
                    self.write_operand16(
                        self.i.operand1_type,
                        SegmentOverride::NoOverride,
                        v,
                        ReadWriteFlag::RNI,
                    );
                },
                None => {
                    let v = self.ctl.last_ea;
                    self.write_operand16(
                        self.i.operand1_type,
                        SegmentOverride::NoOverride,
                        v,
                        ReadWriteFlag::RNI,
                    );
                },
            }
        } else {
            self.cycle_i(0x040);
            let ghost m0 = *self;
            let v = self.pop_u16();
            let ghost m1 = *self;
            self.cycle_i(0x042);
            let ghost m2 = *self;
            if self.i.operand1_type.is_addressing_mode() {
                self.cycles_i(2, &[0x043, 0x044]);
            }
            proof {
                m1.lemma_same_code_trans(&m0, old(self));
                m2.lemma_same_code_trans(&m1, old(self));
                self.lemma_same_code_trans(&m2, old(self));
                self.lemma_same_code_seq(old(self));
            }
            self.write_operand16(
                self.i.operand1_type,
                self.i.segment_override,
                v,
                ReadWriteFlag::RNI,
            );
        }
    }

    /// Runs an instruction with an opcode from 0x80 to 0x8F.
    pub fn exec_80_8f(&mut self) -> (f: Flow)
        requires
            old(self).i.valid(),
            0x80 <= old(self).i.opcode < 0x90,
        ensures
            final(self)@ == old(self)@.g3(old(self).i, old(self).code()),
            f == Flow::next(),
            final(self).i == old(self).i,
            old(self)@.routine_cycles(old(self).i) matches Some(n) ==> final(self).biu@.cycle_num
                == add64(old(self).biu@.cycle_num, n),
    {
        let op = self.i.opcode;
        proof {
            crate::cpu_808x::validity::lemma_needs_80_8f(op, self.i.mnemonic);
            crate::cpu_808x::cycles::lemma_routine_cycles_60_9f(self@, self.i);
            crate::cpu_808x::biu::lemma_add64_add(self.biu@.cycle_num, 0, 0);
        }
        if op < 0x84 {
            self.exec_group1();
        } else if op < 0x86 {
            self.exec_test();
        } else if op == 0x86 {
            self.exec_xchg8();
        } else if op == 0x87 {
            self.exec_xchg16();
        } else if op == 0x8D || op == 0x8F {
            self.exec_lea_pop();
        } else {
            self.exec_mov_rm();
        }
        Flow::go_on()
    }

    fn exec_callf(&mut self)
        ensures
            final(self)@ == old(self)@.far_call(
                crate::cpu_808x::addressing::code_word_at(old(self).code(), 2),
                crate::cpu_808x::addressing::code_word_at(old(self).code(), 0),
                old(self).i.size,
            ),
            final(self).i == old(self).i,
            final(self).queue_base() == final(self).regs.ip,
    {
        proof {
            self.lemma_code();
        }
        let (segment, offset) = self.read_operand_faraddr();
        self.cycle_i(MC_JUMP);
        self.biu_suspend_fetch();
        self.cycles_i(3, &[0x06b, 0x06c, MC_CORR]);
        self.push_register16(Register16::CS, ReadWriteFlag::Normal);
        self.cycles_i(3, &[0x06e, 0x06f, MC_JUMP]);
        let cs = self.regs.cs;
        let next_i = offset_add(self.regs.ip, self.i.size);
        self.ctl.step_over_target = Some(CpuAddress::Segmented(cs, next_i));
        self.push_call_stack(
            CallStackEntry::CallF { ret_cs: cs, ret_ip: next_i, call_cs: segment, call_ip: offset },
            cs,
            next_i,
        );
        self.regs.cs = segment;
        self.regs.ip = offset;
        self.biu_queue_flush();
        self.cycles_i(3, &[0x077, 0x078, 0x079]);
        self.push_u16(next_i, ReadWriteFlag::RNI);
    }

    #[verifier::rlimit(50)]
    fn exec_flag_moves(&mut self)
        requires
            0x9B <= old(self).i.opcode <= 0x9F,
        ensures
            final(self)@ == old(self)@.g4(old(self).i, old(self).code()).0,
            final(self).i == old(self).i,
            old(self).i.opcode == 0x9B ==> final(self).biu@.cycle_num == add64(
                old(self).biu@.cycle_num,
                3,
            ),
            old(self).i.opcode == 0x9E || old(self).i.opcode == 0x9F ==> final(self).biu == old(
                self,
            ).biu,
    {
        let op = self.i.opcode;
        if op == 0x9B {
            self.cycles(3);
        } else if op == 0x9C {
            self.cycles(3);
            self.push_flags(ReadWriteFlag::RNI);
        } else if op == 0x9D {
            let trap_before = self.flags.trap;
            self.pop_flags();
            if !trap_before && self.flags.trap {
                self.ctl = Control { trap_enable_delay: 1, ..self.ctl };
            }
        } else if op == 0x9E {
            let ah = self.regs.read8(Register8::AH);
            self.flags.store_low_byte(ah);
        } else {
            let b = self.flags.low_byte();
            self.regs.write8(Register8::AH, b);
        }
    }

    /// Runs an instruction with an opcode from 0x90 to 0x9F.
    pub fn exec_90_9f(&mut self) -> (f: Flow)
        requires
            0x90 <= old(self).i.opcode < 0xA0,
        ensures
            (final(self)@, f) == old(self)@.g4(old(self).i, old(self).code()),
            final(self).i == old(self).i,
            f.jump ==> final(self).queue_base() == final(self).regs.ip,
            old(self)@.routine_cycles(old(self).i) matches Some(n) ==> final(self).biu@.cycle_num
                == add64(old(self).biu@.cycle_num, n),
    {
        let op = self.i.opcode;
        proof {
            crate::cpu_808x::cycles::lemma_routine_cycles_60_9f(self@, self.i);
            crate::cpu_808x::biu::lemma_add64_add(self.biu@.cycle_num, 0, 0);
        }
        if op < 0x98 {
            let r = register16_lut(op);
            let ax = self.regs.ax;
            let v = self.regs.read16(r);
            self.cycles_nx_i(2, &[0x084, 0x085]);
            self.regs.write16(Register16::AX, v);
            self.regs.write16(r, ax);
            Flow::go_on()
        } else if op == 0x98 {
            self.sign_extend_al();
            Flow::go_on()
        } else if op == 0x99 {
            self.sign_extend_ax();
            Flow::go_on()
        } else if op == 0x9A {
            self.exec_callf();
            Flow::taken(true)
        } else {
            self.exec_flag_moves();
            Flow::go_on()
        }
    }

    fn exec_mov_acc(&mut self)
        requires
            0xA0 <= old(self).i.opcode <= 0xA3,
            old(self).i.opcode == 0xA0 ==> is_byte(old(self).i.operand2_type),
            old(self).i.opcode == 0xA1 ==> is_word(old(self).i.operand2_type),
        ensures
            final(self)@ == old(self)@.g5(old(self).i, old(self).code()).0,
            final(self).i == old(self).i,
    {
        let op = self.i.opcode;
        let ovr = self.i.segment_override;
        if op == 0xA0 {
            let v = self.read_op2_8();
            self.regs.write8(Register8::AL, v);
        } else if op == 0xA1 {
            let v = self.read_op2_16();
            self.regs.ax = v;
        } else if op == 0xA2 {
            let v = self.regs.read8(Register8::AL);
            self.write_operand8(self.i.operand1_type, ovr, v, ReadWriteFlag::RNI);
        } else {
            let v = self.regs.ax;
            self.write_operand16(self.i.operand1_type, ovr, v, ReadWriteFlag::RNI);
        }
    }

    fn exec_test_acc(&mut self)
        requires
            old(self).i.opcode == 0xA8 || old(self).i.opcode == 0xA9,
            old(self).i.opcode == 0xA8 ==> is_byte(old(self).i.operand2_type),
            old(self).i.opcode == 0xA9 ==> is_word(old(self).i.operand2_type),
        ensures
            final(self)@ == old(self)@.g5(old(self).i, old(self).code()).0,
            final(self).i == old(self).i,
    {
        if self.i.opcode == 0xA8 {
            let a = self.regs.read8(Register8::AL);
            let b = self.read_op2_8();
            let (_, f) = math_op8(Mnemonic::TEST, a, b, self.flags);
            self.flags = f;
        } else {
            let a = self.regs.ax;
            let b = self.read_op2_16();
            let (_, f) = math_op16(Mnemonic::TEST, a, b, self.flags);
            self.flags = f;
        }
    }

    /// The tail of a repeated pass: CX is counted down and the repeat ends
    /// or goes on.
    fn rep_tail(&mut self, zero_test: bool) -> (f: Flow)
        requires
            old(self).ctl.in_rep,
        ensures
            (final(self)@, f) == ({
                let s = old(self)@;
                let d = s.decremented(Register16::CX);
                if zero_test && ((s.ctl.rep_type == RepType::Repne && s.flags.zero) || (
                s.ctl.rep_type == RepType::Repe && !s.flags.zero)) {
                    (d.rep_ended(), Flow::next())
                } else if s.ctl.pending_interrupt {
                    (
                        d.rep_ended(),
                        Flow {
                            jump: false,
                            exception: crate::cpu_808x::muldiv::CpuException::NoException,
                            stay: true,
                        },
                    )
                } else if d.regs.cx == 0 {
                    (d.rep_ended(), Flow::next())
                } else {
                    (d, Flow::next())
                }
            }),
            final(self).i == old(self).i,
            f.stay ==> final(self).flushed(),
            !f.jump,
    {
        self.cycle_i(0x129);
        self.decrement_register16(Register16::CX);
        let ended = zero_test && match self.ctl.rep_type {
            RepType::Repne => self.flags.zero,
            RepType::Repe => !self.flags.zero,
            _ => false,
        };
        if ended {
            self.rep_end();
            self.cycle_i(MC_JUMP);
            Flow::go_on()
        } else if self.ctl.pending_interrupt {
            self.cycles_i(2, &[0x131, MC_JUMP]);
            self.rep_interrupt();
            Flow { jump: false, exception: crate::cpu_808x::muldiv::CpuException::NoException, stay: true }
        } else {
            self.cycles_i(2, &[0x131, 0x132]);
            if self.regs.cx == 0 {
                self.rep_end();
            } else {
                self.cycle_i(MC_JUMP);
            }
            Flow::go_on()
        }
    }

    fn exec_string(&mut self) -> (f: Flow)
        ensures
            (final(self)@, f) == old(self)@.string_pass(
                old(self).i,
                old(self).i.opcode == 0xA6 || old(self).i.opcode == 0xA7 || old(self).i.opcode
                    == 0xAE || old(self).i.opcode == 0xAF,
            ),
            final(self).i == old(self).i,
            f.stay ==> final(self).flushed(),
            !f.jump,
    {
        let op = self.i.opcode;
        let zero_test = op == 0xA6 || op == 0xA7 || op == 0xAE || op == 0xAF;
        if self.rep_start() {
            self.string_op(self.i.mnemonic, self.i.segment_override);
            if self.ctl.in_rep {
                self.rep_tail(zero_test)
            } else {
                self.cycle_i(MC_JUMP);
                Flow::go_on()
            }
        } else {
            Flow::go_on()
        }
    }

    /// Runs an instruction with an opcode from 0xA0 to 0xAF.
    pub fn exec_a0_af(&mut self) -> (f: Flow)
        requires
            old(self).i.valid(),
            0xA0 <= old(self).i.opcode < 0xB0,
        ensures
            (final(self)@, f) == old(self)@.g5(old(self).i, old(self).code()),
            final(self).i == old(self).i,
            f.stay ==> final(self).flushed(),
            !f.jump,
    {
        let op = self.i.opcode;
        proof {
            crate::cpu_808x::validity::lemma_needs_a0_bf(op, self.i.mnemonic);
        }
        if op < 0xA4 {
            self.exec_mov_acc();
            Flow::go_on()
        } else if op == 0xA8 || op == 0xA9 {
            self.exec_test_acc();
            Flow::go_on()
        } else {
            self.exec_string()
        }
    }

    fn exec_mov_r8_imm(&mut self)
        requires
            is_byte(old(self).i.operand2_type),
            old(self).i.opcode < 0xB8,
        ensures
            final(self)@ == old(self)@.g6(old(self).i, old(self).code()),
            final(self).i == old(self).i,
    {
        let v = self.read_op2_8();
        match self.i.operand1_type {
            OperandType::Register8(r) => {
                self.regs.write8(r, v);
            },
            _ => {},
        }
        self.cycle_i(MC_JUMP);
        self.set_mc_pc(0x016);
    }

    fn exec_mov_r16_imm(&mut self)
        requires
            is_word(old(self).i.operand2_type),
            old(self).i.opcode >= 0xB8,
        ensures
            final(self)@ == old(self)@.g6(old(self).i, old(self).code()),
            final(self).i == old(self).i,
    {
        let v = self.read_op2_16();
        match self.i.operand1_type {
            OperandType::Register16(r) => {
                self.regs.write16(r, v);
            },
            _ => {},
        }
    }

    /// Runs an instruction with an opcode from 0xB0 to 0xBF.
    pub fn exec_b0_bf(&mut self) -> (f: Flow)
        requires
            old(self).i.valid(),
            0xB0 <= old(self).i.opcode < 0xC0,
        ensures
            final(self)@ == old(self)@.g6(old(self).i, old(self).code()),
            f == Flow::next(),
            final(self).i == old(self).i,
    {
        let op = self.i.opcode;
        proof {
            crate::cpu_808x::validity::lemma_needs_a0_bf(op, self.i.mnemonic);
        }
        if op < 0xB8 {
            self.exec_mov_r8_imm();
        } else {
            self.exec_mov_r16_imm();
        }
        Flow::go_on()
    }
}

} // verus!
