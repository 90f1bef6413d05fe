//! Opcodes 0xD0 to 0xDF and 0xF0 to 0xFF: shifts and rotates, AAM, AAD, SALC,
//! XLAT, ESC, HLT, the flag instructions, and the groups 3, 4 and 5.
use vstd::prelude::*;
use crate::cpu_808x::addressing::{ea_offset, ea_segment, overridden, segment_override};
use crate::cpu_808x::alu::szp;
use crate::cpu_808x::bcd::{aad, aad_spec, aam, aam_spec};
use crate::cpu_808x::bitshift::{bitshift_op16, bitshift_op8, shift_n};
use crate::cpu_808x::biu::{add16, add64, offset_add, ReadWriteFlag};
use crate::cpu_808x::bus::{mem_read16, mem_read8};
use crate::cpu_808x::exec_common::Flow;
use crate::cpu_808x::instruction::{Instruction, Mnemonic, OperandType};
use crate::cpu_808x::microcode::MC_JUMP;
use crate::cpu_808x::muldiv::{div16_spec, div8_spec, mul16_spec, mul8_spec, mul_flags, CpuException};
use crate::cpu_808x::registers::{linear, lo, reg8_to_16, Flags, Register16, Register8, Registers, Segment, SegmentOverride};
use crate::cpu_808x::state::{Arch, Control, Cpu};
use crate::cpu_808x::validity::{fits, is_byte, Need};

verus! {

impl Flow {
    /// The divide error was raised.
    pub open spec fn divide_error() -> Flow {
        Flow { jump: false, exception: CpuException::DivideError, stay: false }
    }

    pub fn raise_divide_error() -> (f: Flow)
        ensures
            f == Flow::divide_error(),
    {
        Flow { jump: false, exception: CpuException::DivideError, stay: false }
    }
}

impl Arch {
    /// A shift or rotate of operand 1 as a byte by `count` single-bit steps.
    pub open spec fn shift_byte(self, i: Instruction, code: Seq<u8>, count: u8, both: bool) -> Arch {
        let r = shift_n(i.mnemonic, self.op1_8(i, code) as int, false, self.flags, count as nat);
        Arch { flags: r.1, ..self.read_ops(i, both) }.written8(
            i.operand1_type,
            i.segment_override,
            r.0 as u8,
            code,
        )
    }

    /// A shift or rotate of operand 1 as a word by `count` single-bit steps.
    pub open spec fn shift_word(self, i: Instruction, code: Seq<u8>, count: u8, both: bool) -> Arch {
        let r = shift_n(i.mnemonic, self.op1_16(i, code) as int, true, self.flags, count as nat);
        Arch { flags: r.1, ..self.read_ops(i, both) }.written16(
            i.operand1_type,
            i.segment_override,
            r.0 as u16,
            code,
        )
    }

    /// AAM with the base in the instruction. A zero base raises the divide
    /// error and changes no register.
    pub open spec fn aam_op(self, i: Instruction, code: Seq<u8>) -> (Arch, Flow) {
        let t = self.touched(i.operand1_type);
        match aam_spec(self.regs.get8(Register8::AL), self.op1_8(i, code), self.flags) {
            None => (t, Flow::divide_error()),
            Some(r) => (
                Arch {
                    regs: self.regs.set8(Register8::AL, r.0).set8(Register8::AH, r.1),
                    flags: r.2,
                    ..t
                },
                Flow::next(),
            ),
        }
    }

    /// AAD with the base in the instruction.
    pub open spec fn aad_op(self, i: Instruction, code: Seq<u8>) -> Arch {
        let r = aad_spec(
            self.regs.get8(Register8::AL),
            self.regs.get8(Register8::AH),
            self.op1_8(i, code),
            self.flags,
        );
        Arch {
            regs: self.regs.set8(Register8::AL, r.0).set8(Register8::AH, r.1),
            flags: r.2,
            ..self.touched(i.operand1_type)
        }
    }

    /// XLAT: AL takes the byte at BX plus AL, in DS or in the overriding
    /// segment.
    pub open spec fn xlat(self, i: Instruction) -> Arch {
        let off = add16(self.regs.bx, self.regs.get8(Register8::AL) as int);
        Arch {
            regs: self.regs.set8(
                Register8::AL,
                mem_read8(
                    self.mem,
                    linear(self.regs.seg(overridden(i.segment_override, Segment::DS)), off),
                ),
            ),
            ..self
        }
    }

    /// What the opcodes 0xD0 to 0xDF do.
    ///
    /// - 0xD0, 0xD1: shift or rotate by one. 0xD2, 0xD3: by the count in
    ///   operand 2, which is CL; the count is not masked.
    /// - 0xD4: AAM. 0xD5: AAD. 0xD6: SALC, which fills AL with the carry flag.
    /// - 0xD7: XLAT. 0xD8 to 0xDF: ESC, which reads its operand and does
    ///   nothing with it.
    pub open spec fn g8(self, i: Instruction, code: Seq<u8>) -> (Arch, Flow) {
        let op = i.opcode;
        if op == 0xD0 {
            (self.shift_byte(i, code, 1, false), Flow::next())
        } else if op == 0xD1 {
            (self.shift_word(i, code, 1, false), Flow::next())
        } else if op == 0xD2 {
            (self.shift_byte(i, code, self.op2_8(i, code), true), Flow::next())
        } else if op == 0xD3 {
            (self.shift_word(i, code, self.op2_8(i, code), true), Flow::next())
        } else if op == 0xD4 {
            self.aam_op(i, code)
        } else if op == 0xD5 {
            (self.aad_op(i, code), Flow::next())
        } else if op == 0xD6 {
            (
                Arch {
                    regs: self.regs.set8(
                        Register8::AL,
                        if self.flags.carry {
                            0xFFu8
                        } else {
                            0u8
                        },
                    ),
                    ..self
                },
                Flow::next(),
            )
        } else if op == 0xD7 {
            (self.xlat(i), Flow::next())
        } else {
            (self.touched(i.operand1_type), Flow::next())
        }
    }

    /// The T-states that a shift by CL of a register takes after the
    /// prologue: six, and four more for each step. A count of zero takes the
    /// six.
    pub open spec fn shift_cl_cycles(self) -> int {
        6 + 4 * self.regs.get8(Register8::CL)
    }

    /// MUL and IMUL of AL by operand 1: AX takes the product; carry and
    /// overflow say whether the high half matters; sign, zero and parity are
    /// those of the high half. Under a repeat prefix the product is negated.
    pub open spec fn mul_byte(self, i: Instruction, code: Seq<u8>, is_signed: bool) -> Arch {
        let p = mul8_spec(
            self.regs.get8(Register8::AL),
            self.op1_8(i, code),
            is_signed,
            i.prefixes.any_rep(),
        );
        let f = mul_flags((p % 256) as int, (p / 256) as int, false, is_signed, self.flags);
        Arch {
            regs: Registers { ax: p, ..self.regs },
            flags: szp((p / 256) as int, false, f),
            ..self.touched(i.operand1_type)
        }
    }

    /// MUL and IMUL of AX by operand 1: DX:AX takes the product.
    pub open spec fn mul_word(self, i: Instruction, code: Seq<u8>, is_signed: bool) -> Arch {
        let p = mul16_spec(self.regs.ax, self.op1_16(i, code), is_signed, i.prefixes.any_rep());
        let f = mul_flags(p % 0x10000, p / 0x10000, true, is_signed, self.flags);
        Arch {
            regs: Registers { ax: (p % 0x10000) as u16, dx: (p / 0x10000) as u16, ..self.regs },
            flags: szp(p / 0x10000, true, f),
            ..self.touched(i.operand1_type)
        }
    }

    /// DIV and IDIV of AX by operand 1: AL takes the quotient, AH the
    /// remainder. The divide error changes no register.
    pub open spec fn div_byte(self, i: Instruction, code: Seq<u8>, is_signed: bool) -> (
        Arch,
        Flow,
    ) {
        let t = self.touched(i.operand1_type);
        match div8_spec(self.regs.ax, self.op1_8(i, code), is_signed, i.prefixes.any_rep()) {
            None => (t, Flow::divide_error()),
            Some(r) => (
                Arch {
                    regs: self.regs.set8(Register8::AL, r.0).set8(Register8::AH, r.1),
                    ..t
                },
                Flow::next(),
            ),
        }
    }

    /// The dividend of a word division: DX is its high half, AX its low half.
    pub open spec fn dx_ax(self) -> u32 {
        (self.regs.dx * 0x10000 + self.regs.ax) as u32
    }

    /// DIV and IDIV of DX:AX by operand 1: AX takes the quotient, DX the
    /// remainder.
    pub open spec fn div_word(self, i: Instruction, code: Seq<u8>, is_signed: bool) -> (
        Arch,
        Flow,
    ) {
        let t = self.touched(i.operand1_type);
        match div16_spec(self.dx_ax(), self.op1_16(i, code), is_signed, i.prefixes.any_rep()) {
            None => (t, Flow::divide_error()),
            Some(r) => (Arch { regs: Registers { ax: r.0, dx: r.1, ..self.regs }, ..t }, Flow::next()),
        }
    }

    /// Group 3, opcodes 0xF6 and 0xF7: TEST with an immediate, NOT, NEG, MUL,
    /// IMUL, DIV, IDIV.
    pub open spec fn group3(self, i: Instruction, code: Seq<u8>) -> (Arch, Flow) {
        let word = i.opcode == 0xF7;
        match i.mnemonic {
            Mnemonic::TEST => (
                if word {
                    self.alu_word(Mnemonic::TEST, i, code, self.op2_16(i, code), false, true)
                } else {
                    self.alu_byte(Mnemonic::TEST, i, code, self.op2_8(i, code), false, true)
                },
                Flow::next(),
            ),
            Mnemonic::MUL => (
                if word {
                    self.mul_word(i, code, false)
                } else {
                    self.mul_byte(i, code, false)
                },
                Flow::next(),
            ),
            Mnemonic::IMUL => (
                if word {
                    self.mul_word(i, code, true)
                } else {
                    self.mul_byte(i, code, true)
                },
                Flow::next(),
            ),
            Mnemonic::DIV => if word {
                self.div_word(i, code, false)
            } else {
                self.div_byte(i, code, false)
            },
            Mnemonic::IDIV => if word {
                self.div_word(i, code, true)
            } else {
                self.div_byte(i, code, true)
            },
            _ => (
                if word {
                    self.alu_word(i.mnemonic, i, code, 0, true, false)
                } else {
                    self.alu_byte(i.mnemonic, i, code, 0, true, false)
                },
                Flow::next(),
            ),
        }
    }

    /// The single-byte instructions from 0xF1 to 0xFD: HLT sets the halted
    /// flag; CMC, CLC, STC, CLD and STD change one flag; CLI and STI change
    /// the interrupt flag and start the one-instruction delay of interrupt
    /// recognition. 0xF1 does nothing.
    pub open spec fn flag_op(self, i: Instruction) -> Arch {
        let op = i.opcode;
        if op == 0xF4 {
            Arch { ctl: Control { halted: true, ..self.ctl }, ..self }
        } else if op == 0xF5 {
            Arch { flags: Flags { carry: !self.flags.carry, ..self.flags }, ..self }
        } else if op == 0xF8 {
            Arch { flags: Flags { carry: false, ..self.flags }, ..self }
        } else if op == 0xF9 {
            Arch { flags: Flags { carry: true, ..self.flags }, ..self }
        } else if op == 0xFA {
            Arch {
                flags: Flags { interrupt: false, ..self.flags },
                ctl: Control { trap_disable_delay: 1, ..self.ctl },
                ..self
            }
        } else if op == 0xFB {
            Arch {
                flags: Flags { interrupt: true, ..self.flags },
                ctl: Control { interrupt_inhibit: true, trap_enable_delay: 1, ..self.ctl },
                ..self
            }
        } else if op == 0xFC {
            Arch { flags: Flags { direction: false, ..self.flags }, ..self }
        } else if op == 0xFD {
            Arch { flags: Flags { direction: true, ..self.flags }, ..self }
        } else {
            self
        }
    }

    /// The far pointer of the 8-bit indirect forms: one byte of offset at the
    /// effective address, one byte of segment two bytes after it, each
    /// extended with 0xFF. The segment override is not applied. Returns
    /// (segment, offset).
    pub open spec fn byte_farptr(self, op: OperandType) -> (u16, u16) {
        match op {
            OperandType::AddressingMode(m) => {
                let seg = self.regs.seg(ea_segment(m, SegmentOverride::NoOverride));
                let off = ea_offset(m, self.regs);
                (
                    (0xFF00 + mem_read8(self.mem, linear(seg, add16(off, 2)))) as u16,
                    (0xFF00 + mem_read8(self.mem, linear(seg, off))) as u16,
                )
            },
            _ => (0u16, 0u16),
        }
    }

    /// Group 4, opcode 0xFE. INC and DEC of a byte are the documented forms.
    /// The others are what the part does with the byte forms of group 5:
    ///
    /// - CALL pushes the low byte of the return offset; IP becomes 0xFF00
    ///   plus the byte operand, or the whole word register with the encoding
    ///   of a register operand, as it is after the push.
    /// - CALLF pushes the low bytes of CS and of the return offset; CS:IP
    ///   comes from `byte_farptr`, or IP alone from the word register.
    /// - JMP and JMPF do the same without the pushes.
    /// - PUSH pushes the byte operand.
    pub open spec fn group4(self, i: Instruction, code: Seq<u8>) -> (Arch, Flow) {
        let next = add16(self.regs.ip, i.size as int);
        let t = self.touched(i.operand1_type);
        match i.mnemonic {
            Mnemonic::CALL => (
                match i.operand1_type {
                    OperandType::Register8(r) => {
                        let a = self.push8(lo(next));
                        a.jumped(a.regs.get16(reg8_to_16(r)))
                    },
                    _ => t.push8(lo(next)).jumped((0xFF00 + self.op1_8(i, code)) as u16),
                },
                Flow::jumped(),
            ),
            Mnemonic::CALLF => (
                match i.operand1_type {
                    OperandType::Register8(r) => {
                        let a = self.push8(lo(self.regs.cs)).push8(lo(next));
                        a.jumped(a.regs.get16(reg8_to_16(r)))
                    },
                    _ => {
                        let p = self.byte_farptr(i.operand1_type);
                        self.push8(lo(self.regs.cs)).jumped_far(p.0, p.1).push8(lo(next))
                    },
                },
                Flow::jumped(),
            ),
            Mnemonic::JMP => (t.jumped((0xFF00 + self.op1_8(i, code)) as u16), Flow::jumped()),
            Mnemonic::JMPF => (
                match i.operand1_type {
                    OperandType::Register8(r) => self.jumped(self.regs.get16(reg8_to_16(r))),
                    _ => {
                        let p = self.byte_farptr(i.operand1_type);
                        self.jumped_far(p.0, p.1)
                    },
                },
                Flow::jumped(),
            ),
            Mnemonic::PUSH => (t.push8(self.op1_8(i, code)), Flow::next()),
            _ => (self.alu_byte(i.mnemonic, i, code, 0, true, false), Flow::next()),
        }
    }

    /// The word at offset 4 of DS, or of the overriding segment: what the
    /// far forms of group 5 load into CS when their operand is a register.
    pub open spec fn word_at_4(self, i: Instruction) -> u16 {
        mem_read16(self.mem, linear(self.regs.seg(overridden(i.segment_override, Segment::DS)), 4))
    }

    /// Group 5, opcode 0xFF: INC, DEC, CALL, CALLF, JMP, JMPF and PUSH of a
    /// word operand.
    ///
    /// - CALL through a register pushes the return offset and loads IP, and
    ///   leaves no trace on the shadow stack.
    /// - CALLF and JMPF through a register load CS from `word_at_4` and leave
    ///   IP as it is.
    /// - PUSH SP pushes SP as it is after the decrement.
    pub open spec fn group5(self, i: Instruction, code: Seq<u8>) -> (Arch, Flow) {
        let next = add16(self.regs.ip, i.size as int);
        let t = self.touched(i.operand1_type);
        match i.mnemonic {
            Mnemonic::CALL => (
                match i.operand1_type {
                    OperandType::Register16(r) => self.jumped(self.regs.get16(r)).push16(next),
                    _ => t.near_call(self.op1_16(i, code), i.size),
                },
                Flow::jumped(),
            ),
            Mnemonic::CALLF => (
                match i.operand1_type {
                    OperandType::Register16(_) => Arch {
                        regs: Registers { cs: self.word_at_4(i), ..self.push_reg(Register16::CS).regs },
                        ..self.push_reg(Register16::CS)
                    }.push16(next),
                    _ => {
                        let p = self.operand_farptr(i.operand1_type, i.segment_override).unwrap();
                        t.far_call(p.0, p.1, i.size)
                    },
                },
                Flow::jumped(),
            ),
            Mnemonic::JMP => (t.jumped(self.op1_16(i, code)), Flow::jumped()),
            Mnemonic::JMPF => (
                match i.operand1_type {
                    OperandType::Register16(_) => Arch {
                        regs: Registers { cs: self.word_at_4(i), ..self.regs },
                        ..self
                    },
                    _ => {
                        let p = self.operand_farptr(i.operand1_type, i.segment_override).unwrap();
                        t.jumped_far(p.0, p.1)
                    },
                },
                Flow::jumped(),
            ),
            Mnemonic::PUSH => (
                t.push16(
                    if i.operand1_type == OperandType::Register16(Register16::SP) {
                        add16(self.regs.sp, -2)
                    } else {
                        self.op1_16(i, code)
                    },
                ),
                Flow::next(),
            ),
            _ => (self.alu_word(i.mnemonic, i, code, 0, true, false), Flow::next()),
        }
    }

    /// What the opcodes 0xF0 to 0xFF do.
    pub open spec fn g10(self, i: Instruction, code: Seq<u8>) -> (Arch, Flow) {
        let op = i.opcode;
        if op == 0xF6 || op == 0xF7 {
            self.group3(i, code)
        } else if op == 0xFE {
            self.group4(i, code)
        } else if op == 0xFF {
            self.group5(i, code)
        } else {
            (self.flag_op(i), Flow::next())
        }
    }
}

impl Cpu {
    #[verifier::rlimit(50)]
    fn exec_shift1(&mut self)
        requires
            old(self).i.opcode == 0xD0 || old(self).i.opcode == 0xD1,
            old(self).i.opcode == 0xD0 ==> fits(old(self).i.operand1_type, Need::RegMem8),
            old(self).i.opcode == 0xD1 ==> fits(old(self).i.operand1_type, Need::RegMem16),
        ensures
            final(self)@ == old(self)@.g8(old(self).i, old(self).code()).0,
            final(self).i == old(self).i,
            old(self).i.on_register() ==> final(self).biu == old(self).biu,
    {
        let m = self.i.mnemonic;
        let ovr = self.i.segment_override;
        if self.i.opcode == 0xD0 {
            let v = self.read_op1_8();
            let (res, f) = bitshift_op8(m, v, 1, self.flags);
            if self.i.operand1_type.is_addressing_mode() {
                self.cycle_i(0x088);
            }
            self.flags = f;
            self.write_operand8(self.i.operand1_type, ovr, res, ReadWriteFlag::RNI);
        } else {
            let v = self.read_op1_16();
            let (res, f) = bitshift_op16(m, v, 1, self.flags);
            if self.i.operand1_type.is_addressing_mode() {
                self.cycle_i(0x088);
            }
            self.flags = f;
            self.write_operand16(self.i.operand1_type, ovr, res, ReadWriteFlag::RNI);
        }
    }

    /// The cycles of a shift by CL: six, and four for each step of CL.
    fn shift_cl_timing(&mut self)
        ensures
            final(self).timing_only(old(self)),
            final(self).same_code(old(self)),
            final(self).biu@.cycle_num == add64(
                old(self).biu@.cycle_num,
                old(self)@.shift_cl_cycles(),
            ),
    {
        self.cycles_i(6, &[0x08c, 0x08d, 0x08e, MC_JUMP, 0x090, 0x091]);
        let cl = self.regs.read8(Register8::CL);
        let mut k: u8 = 0;
        while k < cl
            invariant
                k <= cl,
                cl == old(self).regs.get8(Register8::CL),
                self.timing_only(old(self)),
                self.same_code(old(self)),
                self.biu@.cycle_num == add64(old(self).biu@.cycle_num, 6 + 4 * k),
            decreases cl - k,
        {
            let ghost before = *self;
            self.cycles_i(4, &[MC_JUMP, 0x08f, 0x090, 0x091]);
            proof {
                self.lemma_same_code_trans(&before, old(self));
                crate::cpu_808x::biu::lemma_add64_add(old(self).biu@.cycle_num, 6 + 4 * k, 4);
            }
            k = k + 1;
        }
    }

    #[verifier::rlimit(50)]
    fn exec_shift_cl8(&mut self)
        requires
            fits(old(self).i.operand1_type, Need::RegMem8),
            is_byte(old(self).i.operand2_type),
        ensures
            final(self)@ == old(self)@.shift_byte(
                old(self).i,
                old(self).code(),
                old(self)@.op2_8(old(self).i, old(self).code()),
                true,
            ),
            final(self).i == old(self).i,
            old(self).i.operand1_type is Register8 && old(self).i.operand2_type is Register8
                ==> final(self).biu@.cycle_num == add64(
                old(self).biu@.cycle_num,
                old(self)@.shift_cl_cycles(),
            ),
    {
        let m = self.i.mnemonic;
        let ovr = self.i.segment_override;
        let (v, count) = self.read_pair8();
        self.shift_cl_timing();
        if self.i.operand1_type.is_addressing_mode() {
            self.cycle_i(0x092);
        }
        let (res, f) = bitshift_op8(m, v, count, self.flags);
        self.flags = f;
        self.write_operand8(self.i.operand1_type, ovr, res, ReadWriteFlag::RNI);
    }

    #[verifier::rlimit(50)]
    fn exec_shift_cl16(&mut self)
        requires
            fits(old(self).i.operand1_type, Need::RegMem16),
            is_byte(old(self).i.operand2_type),
        ensures
            final(self)@ == old(self)@.shift_word(
                old(self).i,
                old(self).code(),
                old(self)@.op2_8(old(self).i, old(self).code()),
                true,
            ),
            final(self).i == old(self).i,
            old(self).i.operand1_type is Register16 && old(self).i.operand2_type is Register8
                ==> final(self).biu@.cycle_num == add64(
                old(self).biu@.cycle_num,
                old(self)@.shift_cl_cycles(),
            ),
    {
        let m = self.i.mnemonic;
        let ovr = self.i.segment_override;
        let (v, count) = self.read_pair16_8();
        self.shift_cl_timing();
        if self.i.operand1_type.is_addressing_mode() {
            self.cycle_i(0x092);
        }
        let (res, f) = bitshift_op16(m, v, count, self.flags);
        self.flags = f;
        self.write_operand16(self.i.operand1_type, ovr, res, ReadWriteFlag::RNI);
    }

    #[verifier::rlimit(50)]
    fn exec_ascii(&mut self) -> (f: Flow)
        requires
            old(self).i.opcode == 0xD4 || old(self).i.opcode == 0xD5,
            is_byte(old(self).i.operand1_type),
        ensures
            (final(self)@, f) == old(self)@.g8(old(self).i, old(self).code()),
            final(self).i == old(self).i,
    {
        let al = self.regs.read8(Register8::AL);
        let ah = self.regs.read8(Register8::AH);
        let flags = self.flags;
        let base = self.read_op1_8();
        if self.i.opcode == 0xD4 {
            match aam(al, base, flags) {
                None => Flow::raise_divide_error(),
                Some((l, h, f)) => {
                    self.regs.write8(Register8::AL, l);
                    self.regs.write8(Register8::AH, h);
                    self.flags = f;
                    Flow::go_on()
                },
            }
        } else {
            let (l, h, f) = aad(al, ah, base, flags);
            self.regs.write8(Register8::AL, l);
            self.regs.write8(Register8::AH, h);
            self.flags = f;
            Flow::go_on()
        }
    }

    #[verifier::rlimit(50)]
    fn exec_salc_xlat_esc(&mut self)
        requires
            0xD6 <= old(self).i.opcode <= 0xDF,
        ensures
            final(self)@ == old(self)@.g8(old(self).i, old(self).code()).0,
            final(self).i == old(self).i,
            old(self).i.opcode == 0xD6 ==> final(self).biu == old(self).biu,
    {
        let op = self.i.opcode;
        if op == 0xD6 {
            let v: u8 = if self.flags.carry {
                0xFF
            } else {
                0
            };
            self.regs.write8(Register8::AL, v);
        } else if op == 0xD7 {
            let seg = segment_override(self.i.segment_override, Segment::DS);
            let al = self.regs.read8(Register8::AL);
            let off = offset_add(self.regs.bx, al as u16);
            let a = self.calc_linear_address_seg(seg, off);
            self.cycles_i(3, &[0x10c, 0x10d, 0x10e]);
            let v = self.biu_read_u8(seg, a);
            self.regs.write8(Register8::AL, v);
        } else {
            let _ = self.read_operand16(self.i.operand1_type, self.i.segment_override);
        }
    }

    /// Runs an instruction with an opcode from 0xD0 to 0xDF.
    pub fn exec_d0_df(&mut self) -> (f: Flow)
        requires
            old(self).i.valid(),
            0xD0 <= old(self).i.opcode < 0xE0,
        ensures
            (final(self)@, f) == old(self)@.g8(old(self).i, old(self).code()),
            final(self).i == old(self).i,
            !f.jump && !f.stay,
            old(self)@.routine_cycles(old(self).i) matches Some(n) ==> final(self).biu@.cycle_num
                == add64(old(self).biu@.cycle_num, n),
    {
        let op = self.i.opcode;
        proof {
            crate::cpu_808x::validity::lemma_needs_d0_df(op, self.i.mnemonic);
            crate::cpu_808x::cycles::lemma_routine_cycles_a0_ff(self@, self.i);
            crate::cpu_808x::biu::lemma_add64_add(self.biu@.cycle_num, 0, 0);
        }
        if op < 0xD2 {
            self.exec_shift1();
            Flow::go_on()
        } else if op == 0xD2 {
            self.exec_shift_cl8();
            Flow::go_on()
        } else if op == 0xD3 {
            self.exec_shift_cl16();
            Flow::go_on()
        } else if op < 0xD6 {
            self.exec_ascii()
        } else {
            self.exec_salc_xlat_esc();
            Flow::go_on()
        }
    }
}

impl Instruction {
    /// A shift or rotate by CL whose operand is a register: opcode 0xD2 with
    /// a byte register, or 0xD3 with a word register, and a byte register as
    /// the count.
    pub open spec fn shift_by_cl_of_register(self) -> bool {
        &&& self.operand2_type is Register8
        &&& (self.opcode == 0xD2 && self.operand1_type is Register8) || (self.opcode == 0xD3
            && self.operand1_type is Register16)
    }
}

} // verus!
