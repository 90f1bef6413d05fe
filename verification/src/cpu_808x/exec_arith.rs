//! Opcodes 0x00 to 0x5F: the two-operand ALU instructions, PUSH and POP of
//! registers, the decimal adjusts, INC and DEC of word registers.
use vstd::prelude::*;
use crate::cpu_808x::bcd::{aaa, aaa_spec, aas, aas_spec, daa, daa_spec, das, das_spec};
use crate::cpu_808x::biu::{add64, ReadWriteFlag};
use crate::cpu_808x::exec_common::Flow;
use crate::cpu_808x::instruction::{Instruction, Mnemonic};
use crate::cpu_808x::microcode::MC_JUMP;
use crate::cpu_808x::registers::{reg16_of_index, register16_lut, Register16, Register8};
use crate::cpu_808x::state::{Arch, Control, Cpu};
use crate::cpu_808x::validity::{fits, is_byte, is_word, Need};

verus! {

/// The segment register that the opcodes 0x06 to 0x1F push and pop.
pub open spec fn seg_reg_of(opcode: u8) -> Register16 {
    if opcode < 0x08 {
        Register16::ES
    } else if opcode < 0x10 {
        Register16::CS
    } else if opcode < 0x18 {
        Register16::SS
    } else {
        Register16::DS
    }
}

fn seg_reg(opcode: u8) -> (r: Register16)
    ensures
        r == seg_reg_of(opcode),
{
    if opcode < 0x08 {
        Register16::ES
    } else if opcode < 0x10 {
        Register16::CS
    } else if opcode < 0x18 {
        Register16::SS
    } else {
        Register16::DS
    }
}

impl Arch {
    /// POP into a segment register. A load of SS holds off interrupts and the
    /// single-step trap until the next instruction has run.
    pub open spec fn pop_seg(self, r: Register16) -> Arch {
        let p = self.pop_reg(r);
        if r == Register16::SS {
            Arch { ctl: Control { trap_suppressed: true, interrupt_inhibit: true, ..p.ctl }, ..p }
        } else {
            p
        }
    }

    pub open spec fn with_al_flags(self, r: (u8, crate::cpu_808x::registers::Flags)) -> Arch {
        Arch { regs: self.regs.set8(Register8::AL, r.0), flags: r.1, ..self }
    }

    pub open spec fn with_ax_flags(
        self,
        r: (u8, u8, crate::cpu_808x::registers::Flags),
    ) -> Arch {
        Arch {
            regs: self.regs.set8(Register8::AL, r.0).set8(Register8::AH, r.1),
            flags: r.2,
            ..self
        }
    }

    /// The two-operand ALU instructions below 0x40: operand 1 becomes the
    /// result and the flags are set; the CMP forms, from 0x38 on, set the
    /// flags only. Even opcodes work on bytes, odd ones on words.
    pub open spec fn g0_alu(self, i: Instruction, code: Seq<u8>) -> Arch {
        let store = i.opcode < 0x38;
        let m = if store {
            i.mnemonic
        } else {
            Mnemonic::CMP
        };
        if i.opcode % 2 == 0 {
            self.alu_byte(m, i, code, self.op2_8(i, code), store, true)
        } else {
            self.alu_word(m, i, code, self.op2_16(i, code), store, true)
        }
    }

    /// PUSH (low bits 6) and POP (low bits 7) of a segment register.
    pub open spec fn g0_seg(self, i: Instruction) -> Arch {
        if i.opcode % 2 == 0 {
            self.push_reg(seg_reg_of(i.opcode))
        } else {
            self.pop_seg(seg_reg_of(i.opcode))
        }
    }

    /// DAA, DAS, AAA and AAS. The segment override prefixes, which share the
    /// range, do nothing here: the decode stage recorded them.
    pub open spec fn g0_adjust(self, i: Instruction) -> Arch {
        if i.opcode == 0x27 {
            self.with_al_flags(daa_spec(self.regs.get8(Register8::AL), self.flags))
        } else if i.opcode == 0x2F {
            self.with_al_flags(das_spec(self.regs.get8(Register8::AL), self.flags))
        } else if i.opcode == 0x37 {
            self.with_ax_flags(aaa_spec(
                    self.regs.get8(Register8::AL),
                    self.regs.get8(Register8::AH),
                    self.flags,
                ))
        } else if i.opcode == 0x3F {
            self.with_ax_flags(aas_spec(
                    self.regs.get8(Register8::AL),
                    self.regs.get8(Register8::AH),
                    self.flags,
                ))
        } else {
            self
        }
    }

    /// What the opcodes 0x00 to 0x3F do.
    pub open spec fn g0(self, i: Instruction, code: Seq<u8>) -> Arch {
        if i.opcode % 8 < 6 {
            self.g0_alu(i, code)
        } else if i.opcode < 0x20 {
            self.g0_seg(i)
        } else {
            self.g0_adjust(i)
        }
    }

    /// What the opcodes 0x40 to 0x5F do: INC and DEC of a word register, which
    /// keep the carry flag; PUSH and POP of a word register.
    pub open spec fn g1(self, i: Instruction, code: Seq<u8>) -> Arch {
        if i.opcode < 0x48 {
            self.alu_word(Mnemonic::INC, i, code, 0, true, false)
        } else if i.opcode < 0x50 {
            self.alu_word(Mnemonic::DEC, i, code, 0, true, false)
        } else if i.opcode < 0x58 {
            self.push_reg(reg16_of_index(i.opcode as int % 8))
        } else {
            self.pop_reg(reg16_of_index(i.opcode as int % 8))
        }
    }
}

impl Cpu {
    fn exec_alu2(&mut self)
        requires
            old(self).i.opcode < 0x40,
            old(self).i.opcode % 8 < 6,
            old(self).i.opcode % 2 == 0 ==> fits(old(self).i.operand1_type, Need::RegMem8)
                && is_byte(old(self).i.operand2_type),
            old(self).i.opcode % 2 == 1 ==> fits(old(self).i.operand1_type, Need::RegMem16)
                && is_word(old(self).i.operand2_type),
        ensures
            final(self)@ == old(self)@.g0_alu(old(self).i, old(self).code()),
            final(self).i == old(self).i,
            old(self).i.opcode % 8 < 4 && old(self).i.of_registers() ==> final(self).biu@.cycle_num
                == add64(old(self).biu@.cycle_num, 1),
    {
        let op = self.i.opcode;
        let store = op < 0x38;
        let m = if store {
            self.i.mnemonic
        } else {
            Mnemonic::CMP
        };
        if op % 2 == 0 {
            let (a, b) = self.read_pair8();
            if op == 0x3C {
                self.cycles_nx_i(2, &[MC_JUMP, 0x01a]);
            } else {
                self.cycles_nx_i(2, &[0x008, 0x009]);
            }
            if store && self.i.operand1_type.is_addressing_mode() {
                self.cycles_i(2, &[0x009, 0x00a]);
            }
            self.alu8_finish(m, a, b, store);
        } else {
            let (a, b) = self.read_pair16();
            if op == 0x3D {
                self.cycle_nx_i(0x01a);
            } else {
                self.cycles_nx_i(2, &[0x008, 0x009]);
            }
            if store && self.i.operand1_type.is_addressing_mode() {
                self.cycles_i(2, &[0x009, 0x00a]);
            }
            self.alu16_finish(m, a, b, store);
        }
    }

    fn exec_seg_stack(&mut self)
        requires
            old(self).i.opcode < 0x20,
        ensures
            final(self)@ == old(self)@.g0_seg(old(self).i),
            final(self).i == old(self).i,
    {
        let op = self.i.opcode;
        let r = seg_reg(op);
        if op % 2 == 0 {
            self.cycles_i(3, &[0x02c, 0x02d, 0x023]);
            self.push_register16(r, ReadWriteFlag::RNI);
        } else {
            self.pop_register16(r, ReadWriteFlag::RNI);
            if 0x10 <= op && op < 0x18 {
                self.ctl.trap_suppressed = true;
                self.ctl.interrupt_inhibit = true;
            }
        }
    }

    fn exec_adjust(&mut self)
        ensures
            final(self)@ == old(self)@.g0_adjust(old(self).i),
            final(self).i == old(self).i,
    {
        let op = self.i.opcode;
        let al = self.regs.read8(Register8::AL);
        let ah = self.regs.read8(Register8::AH);
        if op == 0x27 {
            self.cycles_nx_i(3, &[0x144, 0x145, 0x146]);
            let (v, f) = daa(al, self.flags);
            self.regs.write8(Register8::AL, v);
            self.flags = f;
        } else if op == 0x2F {
            self.cycles_nx_i(3, &[0x144, 0x145, 0x146]);
            let (v, f) = das(al, self.flags);
            self.regs.write8(Register8::AL, v);
            self.flags = f;
        } else if op == 0x37 {
            let (l, h, f) = aaa(al, ah, self.flags);
            self.regs.write8(Register8::AL, l);
            self.regs.write8(Register8::AH, h);
            self.flags = f;
        } else if op == 0x3F {
            let (l, h, f) = aas(al, ah, self.flags);
            self.regs.write8(Register8::AL, l);
            self.regs.write8(Register8::AH, h);
            self.flags = f;
        }
    }

    /// Runs an instruction with an opcode from 0x00 to 0x3F.
    pub fn exec_00_3f(&mut self) -> (f: Flow)
        requires
            old(self).i.valid(),
            old(self).i.opcode < 0x40,
        ensures
            final(self)@ == old(self)@.g0(old(self).i, old(self).code()),
            f == Flow::next(),
            final(self).i == old(self).i,
            old(self)@.routine_cycles(old(self).i) matches Some(n) ==> final(self).biu@.cycle_num
                == add64(old(self).biu@.cycle_num, n),
    {
        let op = self.i.opcode;
        proof {
            crate::cpu_808x::validity::lemma_needs_00_5f(op, self.i.mnemonic);
            crate::cpu_808x::cycles::lemma_routine_cycles_00_5f(self@, self.i);
        }
        if op % 8 < 6 {
            self.exec_alu2();
        } else if op < 0x20 {
            self.exec_seg_stack();
        } else {
            self.exec_adjust();
        }
        Flow::go_on()
    }

    /// Runs an instruction with an opcode from 0x40 to 0x5F.
    pub fn exec_40_5f(&mut self) -> (f: Flow)
        requires
            old(self).i.valid(),
            0x40 <= old(self).i.opcode < 0x60,
        ensures
            final(self)@ == old(self)@.g1(old(self).i, old(self).code()),
            f == Flow::next(),
            final(self).i == old(self).i,
            old(self)@.routine_cycles(old(self).i) matches Some(n) ==> final(self).biu@.cycle_num
                == add64(old(self).biu@.cycle_num, n),
    {
        let op = self.i.opcode;
        proof {
            crate::cpu_808x::validity::lemma_needs_00_5f(op, self.i.mnemonic);
            crate::cpu_808x::cycles::lemma_routine_cycles_00_5f(self@, self.i);
            crate::cpu_808x::biu::lemma_add64_add(self.biu@.cycle_num, 0, 0);
        }
        if op < 0x50 {
            let v = self.read_op1_16();
            let m = if op < 0x48 {
                Mnemonic::INC
            } else {
                Mnemonic::DEC
            };
            self.alu16_finish(m, v, 0, true);
            self.cycles_nx(1);
        } else if op < 0x58 {
            let r = register16_lut(op);
            self.cycles_i(3, &[0x028, 0x029, 0x02a]);
            self.push_register16(r, ReadWriteFlag::RNI);
        } else {
            let r = register16_lut(op);
            self.pop_register16(r, ReadWriteFlag::RNI);
            self.cycle_nx_i(0x035);
        }
        Flow::go_on()
    }
}

} // verus!
