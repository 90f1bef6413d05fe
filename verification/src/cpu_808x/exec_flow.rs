//! Opcodes 0xC0 to 0xCF and 0xE0 to 0xEF: returns, LES and LDS, software
//! interrupts, IRET, the loops, port I/O, and the direct calls and jumps.
use vstd::prelude::*;
use crate::cpu_808x::addressing::{code_word_at, sign_extend};
use crate::cpu_808x::biu::{add16, offset_add, ReadWriteFlag};
use crate::cpu_808x::bus::{io_read16, io_read8, io_write16, io_write8};
use crate::cpu_808x::callstack::CallStackEntry;
use crate::cpu_808x::exec_common::Flow;
use crate::cpu_808x::instruction::Instruction;
use crate::cpu_808x::jump::rel_target;
use crate::cpu_808x::microcode::{MC_CORR, MC_JUMP};
use crate::cpu_808x::registers::{linear, Register16, Register8, Registers};
use crate::cpu_808x::state::{Arch, Control, Cpu, CpuAddress};
use crate::cpu_808x::validity::{is_byte, is_word, takes_code};

verus! {

impl Arch {
    /// The state at the entry of a software interrupt: IP is on the next
    /// instruction, which is also the step-over target.
    pub open spec fn int_entry(self, size: u16) -> Arch {
        let next = add16(self.regs.ip, size as int);
        Arch {
            regs: Registers { ip: next, ..self.regs },
            ctl: Control {
                step_over_target: Some(CpuAddress::Segmented(self.regs.cs, next)),
                ..self.ctl
            },
            ..self
        }
    }

    /// LES and LDS: operand 1 takes the offset word of the far pointer that
    /// operand 2 holds, and ES (or DS, when `ds`) its segment word.
    pub open spec fn load_far_pointer(self, i: Instruction, code: Seq<u8>, ds: bool) -> Arch {
        let p = self.operand_farptr(i.operand2_type, i.segment_override).unwrap();
        let w = self.touched(i.operand2_type).written16(
            i.operand1_type,
            i.segment_override,
            p.1,
            code,
        );
        if ds {
            Arch { regs: Registers { ds: p.0, ..w.regs }, ..w }
        } else {
            Arch { regs: Registers { es: p.0, ..w.regs }, ..w }
        }
    }

    /// What the opcodes 0xC0 to 0xCF do.
    ///
    /// - 0xC0 to 0xC3: near return; 0xC8 to 0xCB: far return. The even
    ///   opcodes release as many bytes of stack as operand 1 says.
    /// - 0xC4: LES. 0xC5: LDS. 0xC6, 0xC7: MOV of an immediate.
    /// - 0xCC: INT 3. 0xCD: INT with the number in the instruction. 0xCE:
    ///   INTO, which interrupts only when the overflow flag is set.
    /// - 0xCF: IRET; a trap flag that it turns on takes effect one
    ///   instruction late.
    pub open spec fn g7(self, i: Instruction, code: Seq<u8>) -> (Arch, Flow) {
        let op = i.opcode;
        if op == 0xC0 || op == 0xC2 {
            (
                self.touched(i.operand1_type).returned(false).released(self.op1_16(i, code)),
                Flow::jumped(),
            )
        } else if op == 0xC1 || op == 0xC3 {
            (self.returned(false), Flow::jumped())
        } else if op == 0xC4 {
            (self.load_far_pointer(i, code, false), Flow::next())
        } else if op == 0xC5 {
            (self.load_far_pointer(i, code, true), Flow::next())
        } else if op == 0xC6 {
            (self.mov8(i, code), Flow::next())
        } else if op == 0xC7 {
            (self.mov16(i, code), Flow::next())
        } else if op == 0xC8 || op == 0xCA {
            (
                self.touched(i.operand1_type).returned(true).released(self.op1_16(i, code)),
                Flow::jumped(),
            )
        } else if op == 0xC9 || op == 0xCB {
            (self.returned(true), Flow::jumped())
        } else if op == 0xCC {
            (self.int_entry(i.size).interrupted(3), Flow::jumped())
        } else if op == 0xCD {
            (
                self.int_entry(i.size).touched(i.operand1_type).interrupted(
                    self.int_entry(i.size).op1_8(i, code),
                ),
                Flow::jumped(),
            )
        } else if op == 0xCE {
            if self.flags.overflow {
                (self.int_entry(i.size).interrupted(4), Flow::jumped())
            } else {
                (self, Flow::next())
            }
        } else {
            (self.iret().trap_armed(self.flags), Flow::jumped())
        }
    }

    /// The state after a near call to `target` from an instruction of `size`
    /// bytes.
    pub open spec fn near_call(self, target: u16, size: u16) -> Arch {
        let next = add16(self.regs.ip, size as int);
        let cs = self.regs.cs;
        let b = Arch {
            ctl: Control { step_over_target: Some(CpuAddress::Segmented(cs, next)), ..self.ctl },
            ..self
        }.call_noted(
            CallStackEntry::Call { ret_cs: cs, ret_ip: next, call_ip: target },
            linear(cs, next),
        );
        Arch { regs: Registers { ip: target, ..b.regs }, ..b }.push16(next)
    }

    /// Whether a loop instruction jumps, given the state after CX was
    /// counted down: LOOPNE (0xE0) while CX is not zero and the zero flag is
    /// clear, LOOPE (0xE1) while CX is not zero and the zero flag is set, LOOP
    /// (0xE2) while CX is not zero.
    pub open spec fn loop_taken(self, opcode: u8) -> bool {
        self.regs.cx != 0 && (if opcode == 0xE0 {
            !self.flags.zero
        } else if opcode == 0xE1 {
            self.flags.zero
        } else {
            true
        })
    }

    /// IN: AL or AX takes what the port gives.
    pub open spec fn port_in(self, port: u16, word: bool) -> Arch {
        if word {
            Arch {
                regs: Registers { ax: io_read16(self.io_in, port as int), ..self.regs },
                ..self
            }
        } else {
            Arch {
                regs: self.regs.set8(Register8::AL, io_read8(self.io_in, port as int)),
                ..self
            }
        }
    }

    /// What the opcodes 0xE0 to 0xEF do.
    ///
    /// - 0xE0 to 0xE2: LOOPNE, LOOPE, LOOP: CX is counted down, then the jump
    ///   is taken or not. 0xE3: JCXZ jumps when CX is zero.
    /// - 0xE4, 0xE5, 0xEC, 0xED: IN; 0xE6, 0xE7, 0xEE, 0xEF: OUT. The word
    ///   forms transfer two bytes, on the port and on the port after it.
    /// - 0xE8: CALL. 0xE9, 0xEB: JMP. 0xEA: far JMP to the address in the
    ///   instruction stream.
    pub open spec fn g9(self, i: Instruction, code: Seq<u8>) -> (Arch, Flow) {
        let op = i.opcode;
        if op < 0xE3 {
            let d = self.decremented(Register16::CX);
            (d.rel_jump8(i, code, d.loop_taken(op)), Flow::jump_if(d.loop_taken(op)))
        } else if op == 0xE3 {
            (self.rel_jump8(i, code, self.regs.cx == 0), Flow::jump_if(self.regs.cx == 0))
        } else if op == 0xE4 || op == 0xE5 {
            (
                self.touched(i.operand2_type).port_in(self.op2_8(i, code) as u16, op == 0xE5),
                Flow::next(),
            )
        } else if op == 0xE6 {
            (
                Arch {
                    io_out: io_write8(
                        self.io_out,
                        self.op1_8(i, code) as int,
                        self.op2_8(i, code),
                    ),
                    ..self.read_both(i)
                },
                Flow::next(),
            )
        } else if op == 0xE7 {
            (
                Arch {
                    io_out: io_write16(
                        self.io_out,
                        self.op1_8(i, code) as int,
                        self.op2_16(i, code),
                    ),
                    ..self.read_both(i)
                },
                Flow::next(),
            )
        } else if op == 0xE8 {
            (
                self.touched(i.operand1_type).near_call(
                    rel_target(self.regs.ip, i.size, self.op1_16(i, code)),
                    i.size,
                ),
                Flow::jumped(),
            )
        } else if op == 0xE9 {
            (
                self.touched(i.operand1_type).jumped(
                    rel_target(self.regs.ip, i.size, self.op1_16(i, code)),
                ),
                Flow::jumped(),
            )
        } else if op == 0xEA {
            (self.jumped_far(code_word_at(code, 2), code_word_at(code, 0)), Flow::jumped())
        } else if op == 0xEB {
            (self.rel_jump8(i, code, true), Flow::jumped())
        } else if op == 0xEC || op == 0xED {
            (
                self.touched(i.operand2_type).port_in(self.op2_16(i, code), op == 0xED),
                Flow::next(),
            )
        } else if op == 0xEE {
            (
                Arch {
                    io_out: io_write8(
                        self.io_out,
                        self.op1_16(i, code) as int,
                        self.op2_8(i, code),
                    ),
                    ..self.read_both(i)
                },
                Flow::next(),
            )
        } else {
            (
                Arch {
                    io_out: io_write16(
                        self.io_out,
                        self.op1_16(i, code) as int,
                        self.op2_16(i, code),
                    ),
                    ..self.read_both(i)
                },
                Flow::next(),
            )
        }
    }
}

impl Cpu {
    #[verifier::rlimit(50)]
    fn exec_ret(&mut self)
        requires
            0xC0 <= old(self).i.opcode <= 0xCB,
            old(self).i.opcode < 0xC4 || old(self).i.opcode >= 0xC8,
            old(self).i.opcode % 2 == 0 ==> is_word(old(self).i.operand1_type),
        ensures
            final(self)@ == old(self)@.g7(old(self).i, old(self).code()).0,
            final(self).i == old(self).i,
            final(self).flushed(),
    {
        let op = self.i.opcode;
        let far = op >= 0xC8;
        if op % 2 == 0 {
            let disp = self.read_op1_16();
            self.cycle_i(MC_JUMP);
            self.pop_register16(Register16::IP, ReadWriteFlag::Normal);
            self.biu_suspend_fetch();
            self.cycles_i(2, &[0x0c3, 0x0c4]);
            if far {
                self.pop_register16(Register16::CS, ReadWriteFlag::Normal);
            }
            self.release(disp);
            self.flush_and_cycles(3, &[0x0c5, MC_JUMP, 0x0ce]);
        } else if far {
            self.cycle_i(0x0c0);
            self.farret(true);
        } else {
            self.pop_register16(Register16::IP, ReadWriteFlag::Normal);
            self.biu_suspend_fetch();
            self.cycle_i(0x0bd);
            self.flush_and_cycles(2, &[0x0be, 0x0bf]);
        }
    }

    #[verifier::rlimit(50)]
    fn exec_les_lds(&mut self)
        requires
            old(self).i.opcode == 0xC4 || old(self).i.opcode == 0xC5,
            old(self).i.operand2_type is AddressingMode,
        ensures
            final(self)@ == old(self)@.g7(old(self).i, old(self).code()).0,
            final(self).i == old(self).i,
    {
        let ds = self.i.opcode == 0xC5;
        let ovr = self.i.segment_override;
        let flag = if ds {
            ReadWriteFlag::RNI
        } else {
            ReadWriteFlag::Normal
        };
        let (segment, offset) = self.read_operand_farptr(self.i.operand2_type, ovr, flag).unwrap();
        proof {
            self.lemma_same_code_seq(old(self));
        }
        self.write_operand16(self.i.operand1_type, ovr, offset, ReadWriteFlag::Normal);
        if ds {
            self.regs.ds = segment;
        } else {
            self.regs.es = segment;
        }
    }

    fn exec_mov_imm(&mut self)
        requires
            old(self).i.opcode == 0xC6 || old(self).i.opcode == 0xC7,
            old(self).i.opcode == 0xC6 ==> is_byte(old(self).i.operand2_type),
            old(self).i.opcode == 0xC7 ==> is_word(old(self).i.operand2_type),
            !(takes_code(old(self).i.operand1_type) && takes_code(old(self).i.operand2_type)),
        ensures
            final(self)@ == old(self)@.g7(old(self).i, old(self).code()).0,
            final(self).i == old(self).i,
    {
        if self.i.opcode == 0xC6 {
            let v = self.read_op2_8();
            let ghost mid = *self;
            self.cycles(2);
            proof {
                if !takes_code(old(self).i.operand2_type) {
                    self.lemma_same_code_trans(&mid, old(self));
                    self.lemma_same_code_seq(old(self));
                }
            }
            self.write_operand8(
                self.i.operand1_type,
                self.i.segment_override,
                v,
                ReadWriteFlag::RNI,
            );
        } else {
            let v = self.read_op2_16();
            let ghost mid = *self;
            self.cycle_i(0x01e);
            proof {
                if !takes_code(old(self).i.operand2_type) {
                    self.lemma_same_code_trans(&mid, old(self));
                    self.lemma_same_code_seq(old(self));
                }
            }
            self.write_operand16(
                self.i.operand1_type,
                self.i.segment_override,
                v,
                ReadWriteFlag::RNI,
            );
        }
    }

    fn int_enter(&mut self)
        ensures
            final(self)@ == old(self)@.int_entry(old(self).i.size),
            final(self).i == old(self).i,
            final(self).biu == old(self).biu,
    {
        self.regs.ip = offset_add(self.regs.ip, self.i.size);
        self.ctl.step_over_target = Some(CpuAddress::Segmented(self.regs.cs, self.regs.ip));
    }

    #[verifier::rlimit(50)]
    fn exec_int3(&mut self)
        requires
            old(self).i.opcode == 0xCC,
        ensures
            final(self)@ == old(self)@.int_entry(old(self).i.size).interrupted(3),
            final(self).i == old(self).i,
            final(self).queue_base() == final(self).regs.ip,
    {
        self.int_enter();
        self.cycles_i(4, &[0x1b0, MC_JUMP, 0x1b2, MC_JUMP]);
        self.int3();
    }

    #[verifier::rlimit(50)]
    fn exec_int_imm(&mut self)
        requires
            old(self).i.opcode == 0xCD,
            is_byte(old(self).i.operand1_type),
        ensures
            final(self)@ == old(self)@.int_entry(old(self).i.size).touched(
                old(self).i.operand1_type,
            ).interrupted(
                old(self)@.int_entry(old(self).i.size).op1_8(old(self).i, old(self).code()),
            ),
            final(self).i == old(self).i,
            final(self).queue_base() == final(self).regs.ip,
    {
        self.int_enter();
        proof {
            self.lemma_same_code_frame(old(self));
            self.lemma_same_code_seq(old(self));
        }
        let irq = self.read_op1_8();
        self.cycle_i(MC_JUMP);
        self.sw_interrupt(irq);
    }

    #[verifier::rlimit(50)]
    fn exec_into(&mut self)
        requires
            old(self).flags.overflow,
        ensures
            final(self)@ == old(self)@.int_entry(old(self).i.size).interrupted(4),
            final(self).i == old(self).i,
            final(self).queue_base() == final(self).regs.ip,
    {
        self.int_enter();
        self.sw_interrupt(4);
    }

    fn exec_int(&mut self) -> (f: Flow)
        requires
            0xCC <= old(self).i.opcode <= 0xCF,
            old(self).i.opcode == 0xCD ==> is_byte(old(self).i.operand1_type),
        ensures
            (final(self)@, f) == old(self)@.g7(old(self).i, old(self).code()),
            final(self).i == old(self).i,
            f.jump ==> final(self).queue_base() == final(self).regs.ip,
    {
        let op = self.i.opcode;
        if op == 0xCC {
            self.exec_int3();
            Flow::taken(true)
        } else if op == 0xCD {
            self.exec_int_imm();
            Flow::taken(true)
        } else if op == 0xCE {
            if self.flags.overflow {
                self.exec_into();
                Flow::taken(true)
            } else {
                Flow::go_on()
            }
        } else {
            let trap_before = self.flags.trap;
            self.iret_routine();
            if !trap_before && self.flags.trap {
                self.ctl = Control { trap_enable_delay: 1, ..self.ctl };
            }
            Flow::taken(true)
        }
    }

    /// Runs an instruction with an opcode from 0xC0 to 0xCF.
    pub fn exec_c0_cf(&mut self) -> (f: Flow)
        requires
            old(self).i.valid(),
            0xC0 <= old(self).i.opcode < 0xD0,
        ensures
            (final(self)@, f) == old(self)@.g7(old(self).i, old(self).code()),
            final(self).i == old(self).i,
            f.jump ==> final(self).queue_base() == final(self).regs.ip,
            f.jump && (old(self).i.opcode < 0xC4 || (0xC8 <= old(self).i.opcode <= 0xCB))
                ==> final(self).flushed(),
            !f.stay,
    {
        let op = self.i.opcode;
        proof {
            crate::cpu_808x::validity::lemma_needs_c0_cf(op, self.i.mnemonic);
        }
        if op < 0xC4 || (0xC8 <= op && op <= 0xCB) {
            self.exec_ret();
            Flow::taken(true)
        } else if op < 0xC6 {
            self.exec_les_lds();
            Flow::go_on()
        } else if op < 0xC8 {
            self.exec_mov_imm();
            Flow::go_on()
        } else {
            self.exec_int()
        }
    }

    #[verifier::rlimit(50)]
    fn exec_loop(&mut self) -> (f: Flow)
        requires
            0xE0 <= old(self).i.opcode <= 0xE3,
            is_byte(old(self).i.operand1_type),
        ensures
            (final(self)@, f) == old(self)@.g9(old(self).i, old(self).code()),
            final(self).i == old(self).i,
            f.jump ==> final(self).flushed(),
            !f.stay,
    {
        let op = self.i.opcode;
        if op < 0xE3 {
            self.decrement_register16(Register16::CX);
            proof {
                self.lemma_same_code_frame(old(self));
                self.lemma_same_code_seq(old(self));
            }
            if op == 0xE2 {
                self.cycles_i(2, &[0x140, 0x141]);
            } else {
                self.cycles_i(2, &[0x138, 0x139]);
            }
            let cond = if op == 0xE0 {
                !self.flags.zero
            } else if op == 0xE1 {
                self.flags.zero
            } else {
                true
            };
            let ip = self.regs.ip;
            let rel8 = self.read_op1_8();
            let taken = self.regs.cx != 0 && cond;
            if taken {
                let target = offset_add(offset_add(ip, self.i.size), sign_extend(rel8));
                self.reljmp(target, true);
            } else {
                self.cycle_i(0x13c);
            }
            Flow::taken(taken)
        } else {
            self.cycles_i(2, &[0x138, 0x139]);
            let ip = self.regs.ip;
            let rel8 = self.read_op1_8();
            self.cycle_i(0x13b);
            let taken = self.regs.cx == 0;
            if taken {
                let target = offset_add(offset_add(ip, self.i.size), sign_extend(rel8));
                self.reljmp(target, true);
            } else {
                self.cycle_i(0x13c);
            }
            Flow::taken(taken)
        }
    }

    #[verifier::rlimit(50)]
    fn exec_in(&mut self)
        requires
            old(self).i.opcode == 0xE4 || old(self).i.opcode == 0xE5 || old(self).i.opcode == 0xEC
                || old(self).i.opcode == 0xED,
            old(self).i.opcode < 0xE8 ==> is_byte(old(self).i.operand2_type),
            old(self).i.opcode > 0xE8 ==> is_word(old(self).i.operand2_type),
        ensures
            final(self)@ == old(self)@.g9(old(self).i, old(self).code()).0,
            final(self).i == old(self).i,
    {
        let op = self.i.opcode;
        let port: u16 = if op < 0xE8 {
            let p = self.read_op2_8();
            self.cycles_i(2, &[0x0ad, 0x0ae]);
            p as u16
        } else {
            self.read_op2_16()
        };
        if op == 0xE5 || op == 0xED {
            let v = self.biu_io_read_u16(port);
            self.regs.ax = v;
        } else {
            let v = self.biu_io_read_u8(port);
            self.regs.write8(Register8::AL, v);
        }
    }

    #[verifier::rlimit(50)]
    fn exec_out(&mut self)
        requires
            old(self).i.opcode == 0xE6 || old(self).i.opcode == 0xE7 || old(self).i.opcode == 0xEE
                || old(self).i.opcode == 0xEF,
            old(self).i.opcode < 0xE8 ==> is_byte(old(self).i.operand1_type),
            old(self).i.opcode > 0xE8 ==> is_word(old(self).i.operand1_type),
            old(self).i.opcode % 2 == 0 ==> is_byte(old(self).i.operand2_type),
            old(self).i.opcode % 2 == 1 ==> is_word(old(self).i.operand2_type),
            !(takes_code(old(self).i.operand1_type) && takes_code(old(self).i.operand2_type)),
        ensures
            final(self)@ == old(self)@.g9(old(self).i, old(self).code()).0,
            final(self).i == old(self).i,
    {
        let op = self.i.opcode;
        let port: u16 = if op < 0xE8 {
            let p = self.read_op1_8();
            p as u16
        } else {
            self.read_op1_16()
        };
        let ghost mid = *self;
        proof {
            if !takes_code(old(self).i.operand1_type) {
                self.lemma_same_code_seq(old(self));
            }
        }
        if op % 2 == 0 {
            let v = self.read_op2_8();
            if op < 0xE8 {
                self.cycles_i(2, &[0x0b1, 0x0b2]);
            } else {
                self.cycle_i(0x0b8);
            }
            self.biu_io_write_u8(port, v, ReadWriteFlag::RNI);
        } else {
            let v = self.read_op2_16();
            if op < 0xE8 {
                self.cycles_i(2, &[0x0b1, 0x0b2]);
            } else {
                self.cycle_i(0x0b8);
            }
            self.biu_io_write_u16(port, v, ReadWriteFlag::RNI);
        }
    }

    #[verifier::rlimit(50)]
    fn exec_call_rel(&mut self)
        requires
            is_word(old(self).i.operand1_type),
            old(self).i.opcode == 0xE8,
        ensures
            final(self)@ == old(self)@.g9(old(self).i, old(self).code()).0,
            final(self).i == old(self).i,
            final(self).queue_base() == final(self).regs.ip,
    {
        let ip = self.regs.ip;
        let cs = self.regs.cs;
        let rel16 = self.read_op1_16();
        self.biu_suspend_fetch();
        self.cycles_i(4, &[0x07e, 0x07f, MC_CORR, 0x080]);
        let next_i = offset_add(ip, self.i.size);
        self.ctl.step_over_target = Some(CpuAddress::Segmented(cs, next_i));
        let new_ip = offset_add(offset_add(ip, self.i.size), rel16);
        self.push_call_stack(
            CallStackEntry::Call { ret_cs: cs, ret_ip: next_i, call_ip: new_ip },
            cs,
            next_i,
        );
        self.regs.ip = new_ip;
        self.biu_queue_flush();
        self.cycles_i(3, &[0x081, 0x082, MC_JUMP]);
        self.push_u16(next_i, ReadWriteFlag::RNI);
    }

    #[verifier::rlimit(50)]
    fn exec_jmp(&mut self)
        requires
            old(self).i.opcode == 0xE9 || old(self).i.opcode == 0xEA || old(self).i.opcode
                == 0xEB,
            old(self).i.opcode == 0xE9 ==> is_word(old(self).i.operand1_type),
            old(self).i.opcode == 0xEB ==> is_byte(old(self).i.operand1_type),
        ensures
            final(self)@ == old(self)@.g9(old(self).i, old(self).code()).0,
            final(self).i == old(self).i,
            final(self).flushed(),
    {
        let op = self.i.opcode;
        let ip = self.regs.ip;
        if op == 0xE9 {
            let rel16 = self.read_op1_16();
            let target = offset_add(offset_add(ip, self.i.size), rel16);
            self.reljmp(target, false);
        } else if op == 0xEA {
            proof {
                self.lemma_code();
            }
            let (segment, offset) = self.read_operand_faraddr();
            self.biu_suspend_fetch();
            self.cycles_i(2, &[0x0e4, 0x0e5]);
            self.regs.cs = segment;
            self.regs.ip = offset;
            self.flush_and_cycles(1, &[0x0e6]);
        } else {
            let rel8 = self.read_op1_8();
            let target = offset_add(offset_add(ip, self.i.size), sign_extend(rel8));
            self.reljmp(target, true);
        }
    }

    /// Runs an instruction with an opcode from 0xE0 to 0xEF.
    pub fn exec_e0_ef(&mut self) -> (f: Flow)
        requires
            old(self).i.valid(),
            0xE0 <= old(self).i.opcode < 0xF0,
        ensures
            (final(self)@, f) == old(self)@.g9(old(self).i, old(self).code()),
            final(self).i == old(self).i,
            f.jump ==> final(self).queue_base() == final(self).regs.ip,
            f.jump && old(self).i.opcode != 0xE8 ==> final(self).flushed(),
            !f.stay,
    {
        let op = self.i.opcode;
        proof {
            crate::cpu_808x::validity::lemma_needs_e0_ef(op, self.i.mnemonic);
        }
        if op < 0xE4 {
            self.exec_loop()
        } else if op == 0xE4 || op == 0xE5 || op == 0xEC || op == 0xED {
            self.exec_in();
            Flow::go_on()
        } else if op == 0xE8 {
            self.exec_call_rel();
            Flow::taken(true)
        } else if op == 0xE9 || op == 0xEA || op == 0xEB {
            self.exec_jmp();
            Flow::taken(true)
        } else {
            self.exec_out();
            Flow::go_on()
        }
    }
}

} // verus!
