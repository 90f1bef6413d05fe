//! The instruction dispatcher: one call runs the decoded instruction through
//! prologue, opcode routine and epilogue.
use vstd::prelude::*;
use crate::cpu_808x::biu::{add64, BiuView, QueueOp};
use crate::cpu_808x::bus::{mem_read8, MEM_RET_BIT};
use crate::cpu_808x::exec_common::Flow;
use crate::cpu_808x::instruction::{Instruction, Mnemonic};
use crate::cpu_808x::microcode::{microcode_address_8088, MC_NONE};
use crate::cpu_808x::muldiv::CpuException;
use crate::cpu_808x::registers::{linear, Flags, Registers};
use crate::cpu_808x::state::{
    Arch,
    Control,
    Cpu,
    CpuWarning,
    ExecutionResult,
    RepType,
};
use crate::cpu_808x::biu::add16;

verus! {

/// The string instructions that repeat under REP alone.
pub open spec fn is_plain_string(m: Mnemonic) -> bool {
    m == Mnemonic::STOSB || m == Mnemonic::STOSW || m == Mnemonic::LODSB || m == Mnemonic::LODSW
        || m == Mnemonic::MOVSB || m == Mnemonic::MOVSW
}

/// The string instructions that compare, and repeat under REPE or REPNE.
pub open spec fn is_compare_string(m: Mnemonic) -> bool {
    m == Mnemonic::SCASB || m == Mnemonic::SCASW || m == Mnemonic::CMPSB || m == Mnemonic::CMPSW
}

/// The instructions whose result a repeat prefix negates.
pub open spec fn is_mul_div(m: Mnemonic) -> bool {
    m == Mnemonic::MUL || m == Mnemonic::IMUL || m == Mnemonic::DIV || m == Mnemonic::IDIV
}

/// `v` less one, but not below zero.
pub open spec fn counted_down(v: u32) -> u32 {
    if v == 0 {
        0
    } else {
        (v - 1) as u32
    }
}

impl Instruction {
    /// Control transfers that end within three T-states of their flush: the
    /// conditional jumps, the loops, the near and far returns, the direct
    /// jumps, and the indirect jumps of the groups 4 and 5. When one of them
    /// jumps, the queue is empty when the instruction ends.
    pub open spec fn ends_flushed(self) -> bool {
        let op = self.opcode;
        ||| 0x60 <= op < 0x80
        ||| 0xC0 <= op < 0xC4
        ||| 0xC8 <= op < 0xCC
        ||| 0xE0 <= op < 0xE4
        ||| op == 0xE9
        ||| op == 0xEA
        ||| op == 0xEB
        ||| (op == 0xFE && !(self.mnemonic == Mnemonic::CALLF
            && self.operand1_type is AddressingMode))
        ||| (op == 0xFF && (self.mnemonic == Mnemonic::JMP || self.mnemonic == Mnemonic::JMPF))
    }
}

impl BiuView {
    /// The T-states that the prologue spends: one where the previous
    /// instruction left its last cycle over, or else where only the first
    /// byte of the instruction was taken from the queue; one more where the
    /// decode stage asked for the group delay.
    pub open spec fn prologue_cycles(self, i: Instruction) -> int {
        (if self.nx || self.last_queue_op == QueueOp::First {
            1int
        } else {
            0int
        }) + (if i.group_delay {
            1int
        } else {
            0int
        })
    }
}

impl Arch {
    /// The control state after the repeat prefix was classified. A string
    /// instruction starts a repeat: REP for MOVS, STOS and LODS; for CMPS and
    /// SCAS, REPNE with prefix 0xF2 and REPE with 0xF3. MUL, IMUL, DIV and
    /// IDIV take the prefix as the order to negate. Before any other
    /// instruction the prefix is noted as a warning and has no effect.
    pub open spec fn rep_classified(self, i: Instruction) -> Arch {
        if !i.prefixes.any_rep() {
            self
        } else if is_plain_string(i.mnemonic) {
            Arch {
                ctl: Control {
                    in_rep: true,
                    rep_mnemonic: i.mnemonic,
                    rep_type: RepType::Rep,
                    ..self.ctl
                },
                ..self
            }
        } else if is_compare_string(i.mnemonic) {
            Arch {
                ctl: Control {
                    in_rep: true,
                    rep_mnemonic: i.mnemonic,
                    rep_type: if i.prefixes.rep1 {
                        RepType::Repne
                    } else {
                        RepType::Repe
                    },
                    ..self.ctl
                },
                ..self
            }
        } else if is_mul_div(i.mnemonic) {
            self
        } else {
            Arch { ctl: Control { warning: CpuWarning::InvalidRepPrefix, ..self.ctl }, ..self }
        }
    }

    /// The state after the run of zero opcodes was counted. With off-rails
    /// detection on, the sixth zero opcode in a row clears the interrupt flag
    /// and halts.
    pub open spec fn zero_counted(self, i: Instruction) -> Arch {
        if i.opcode == 0 {
            let n = if self.ctl.opcode0_counter == u32::MAX {
                0u32
            } else {
                (self.ctl.opcode0_counter + 1) as u32
            };
            if self.ctl.off_rails_detection && n > 5 {
                Arch {
                    flags: Flags { interrupt: false, ..self.flags },
                    ctl: Control { opcode0_counter: n, halted: true, ..self.ctl },
                    ..self
                }
            } else {
                Arch { ctl: Control { opcode0_counter: n, ..self.ctl }, ..self }
            }
        } else {
            Arch { ctl: Control { opcode0_counter: 0, ..self.ctl }, ..self }
        }
    }

    /// The state after the first part of the prologue: the step-over target
    /// and the last warning are cleared, the trap suppression is lifted, and
    /// both trap delays are counted down.
    pub open spec fn entered(self) -> Arch {
        Arch {
            ctl: Control {
                step_over_target: None,
                trap_suppressed: false,
                trap_enable_delay: counted_down(self.ctl.trap_enable_delay),
                trap_disable_delay: counted_down(self.ctl.trap_disable_delay),
                ea_loaded: false,
                warning: CpuWarning::NoWarning,
                ..self.ctl
            },
            ..self
        }
    }

    /// Whether CS:IP carries the return mark.
    pub open spec fn at_return_mark(self) -> bool {
        mem_read8(self.mem_flags, linear(self.regs.cs, self.regs.ip)) & MEM_RET_BIT != 0
    }

    /// The state after the prologue.
    ///
    /// 1. `entered`.
    /// 2. If CS:IP carries the return mark, the shadow call stack is unwound
    ///    to it.
    /// 3. The repeat prefix is classified.
    /// 4. The hold on interrupts that STI or a load of SS left is lifted.
    /// 5. The run of zero opcodes is counted.
    pub open spec fn prologue(self, i: Instruction) -> Arch {
        let a = self.entered();
        let b = if a.at_return_mark() {
            a.unwound(linear(a.regs.cs, a.regs.ip))
        } else {
            a
        };
        let c = b.rep_classified(i);
        Arch { ctl: Control { interrupt_inhibit: false, ..c.ctl }, ..c }.zero_counted(i)
    }

    /// The routine of the opcode.
    #[verifier::opaque]
    pub open spec fn dispatch(self, i: Instruction, code: Seq<u8>) -> (Arch, Flow) {
        let op = i.opcode;
        if op < 0x40 {
            (self.g0(i, code), Flow::next())
        } else if op < 0x60 {
            (self.g1(i, code), Flow::next())
        } else if op < 0x80 {
            self.g2(i, code)
        } else if op < 0x90 {
            (self.g3(i, code), Flow::next())
        } else if op < 0xA0 {
            self.g4(i, code)
        } else if op < 0xB0 {
            self.g5(i, code)
        } else if op < 0xC0 {
            (self.g6(i, code), Flow::next())
        } else if op < 0xD0 {
            self.g7(i, code)
        } else if op < 0xE0 {
            self.g8(i, code)
        } else if op < 0xF0 {
            self.g9(i, code)
        } else {
            self.g10(i, code)
        }
    }

    /// The state and the result after the epilogue.
    ///
    /// - Outside a repeat the repeat is marked as not begun, and IP moves past
    ///   the instruction unless the routine jumped or left a repeat for an
    ///   interrupt.
    /// - The result is `Halt` when the CPU is halted with the interrupt flag
    ///   clear; else `OkayJump` when the routine jumped; else `OkayRep` inside
    ///   a repeat, which is then marked as begun; else the divide error if it
    ///   was raised; else `Okay`.
    pub open spec fn epilogue(self, i: Instruction, f: Flow) -> (Arch, ExecutionResult) {
        let a = if !self.ctl.in_rep {
            Arch {
                regs: if !f.jump && !f.stay {
                    Registers { ip: add16(self.regs.ip, i.size as int), ..self.regs }
                } else {
                    self.regs
                },
                ctl: Control { rep_init: false, ..self.ctl },
                ..self
            }
        } else {
            self
        };
        if a.ctl.halted && !a.flags.interrupt {
            (a, ExecutionResult::Halt)
        } else if f.jump {
            (a, ExecutionResult::OkayJump)
        } else if a.ctl.in_rep {
            (Arch { ctl: Control { rep_init: true, ..a.ctl }, ..a }, ExecutionResult::OkayRep)
        } else if f.exception == CpuException::DivideError {
            (a, ExecutionResult::ExceptionError(CpuException::DivideError))
        } else {
            (a, ExecutionResult::Okay)
        }
    }

    /// How the routine of `i` leaves the flow of control.
    pub open spec fn flow(self, i: Instruction, code: Seq<u8>) -> Flow {
        self.prologue(i).dispatch(i, code).1
    }

    /// What `execute_instruction` does to everything but bus timing, and what
    /// it returns: prologue, routine, epilogue. `code` holds the next bytes
    /// of the instruction stream, where the immediate operand lies.
    #[verifier::opaque]
    pub open spec fn executed(self, i: Instruction, code: Seq<u8>) -> (Arch, ExecutionResult) {
        let d = self.prologue(i).dispatch(i, code);
        d.0.epilogue(i, d.1)
    }
}

impl Cpu {
    /// The bus part of the prologue.
    fn prologue_cycles(&mut self)
        ensures
            final(self).timing_only(old(self)),
            final(self).same_code(old(self)),
            final(self).biu@.cycle_num == add64(
                old(self).biu@.cycle_num,
                old(self).biu@.prologue_cycles(old(self).i),
            ),
            !final(self).biu@.nx,
    {
        let ghost c0 = self.biu@.cycle_num;
        proof {
            crate::cpu_808x::biu::lemma_add64_add(c0, 0, 0);
            crate::cpu_808x::biu::lemma_add64_add(c0, 1, 1);
            crate::cpu_808x::biu::lemma_add64_add(c0, 0, 1);
        }
        if self.biu.nx() {
            self.next_mc();
            let ghost m1 = *self;
            self.cycle();
            let ghost m2 = *self;
            self.biu.set_nx(false);
            proof {
                Self::lemma_code_frame(self.biu@, m2.biu@, self.regs.cs, self@.mem);
                m2.lemma_same_code_trans(&m1, old(self));
                self.lemma_same_code_trans(&m2, old(self));
            }
        } else if self.biu.last_queue_op() == QueueOp::First {
            self.set_mc_pc(MC_NONE);
            let ghost m1 = *self;
            self.cycle();
            proof {
                self.lemma_same_code_trans(&m1, old(self));
            }
        } else {
            proof {
                self.lemma_same_code_frame(old(self));
            }
        }
        let ghost m3 = *self;
        if self.i.group_delay {
            self.cycle();
            proof {
                self.lemma_same_code_trans(&m3, old(self));
            }
        }
        let ghost m4 = *self;
        self.set_mc_pc(microcode_address_8088(self.i.opcode));
        proof {
            self.lemma_same_code_trans(&m4, old(self));
        }
    }

    fn note_entry(&mut self)
        ensures
            final(self)@ == old(self)@.entered(),
            final(self).i == old(self).i,
            final(self).biu == old(self).biu,
    {
        let mut c = self.ctl;
        c.step_over_target = None;
        c.trap_suppressed = false;
        c.trap_enable_delay = c.trap_enable_delay.saturating_sub(1);
        c.trap_disable_delay = c.trap_disable_delay.saturating_sub(1);
        c.ea_loaded = false;
        c.warning = CpuWarning::NoWarning;
        self.ctl = c;
    }

    fn classify_rep(&mut self)
        ensures
            final(self)@ == old(self)@.rep_classified(old(self).i),
            final(self).i == old(self).i,
            final(self).biu == old(self).biu,
    {
        if self.i.prefixes.has_rep() {
            let m = self.i.mnemonic;
            let mut c = self.ctl;
            match m {
                Mnemonic::STOSB
                | Mnemonic::STOSW
                | Mnemonic::LODSB
                | Mnemonic::LODSW
                | Mnemonic::MOVSB
                | Mnemonic::MOVSW => {
                    c.in_rep = true;
                    c.rep_mnemonic = m;
                    c.rep_type = RepType::Rep;
                },
                Mnemonic::SCASB | Mnemonic::SCASW | Mnemonic::CMPSB | Mnemonic::CMPSW => {
                    c.in_rep = true;
                    c.rep_mnemonic = m;
                    c.rep_type = if self.i.prefixes.rep1 {
                        RepType::Repne
                    } else {
                        RepType::Repe
                    };
                },
                Mnemonic::MUL | Mnemonic::IMUL | Mnemonic::DIV | Mnemonic::IDIV => {},
                _ => {
                    c.warning = CpuWarning::InvalidRepPrefix;
                },
            }
            self.ctl = c;
        }
    }

    fn count_zero_opcodes(&mut self)
        ensures
            final(self)@ == old(self)@.zero_counted(old(self).i),
            final(self).i == old(self).i,
            final(self).biu == old(self).biu,
    {
        if self.i.opcode == 0x00 {
            let n = self.ctl.opcode0_counter.wrapping_add(1);
            if self.ctl.off_rails_detection && n > 5 {
                self.flags = Flags { interrupt: false, ..self.flags };
                self.ctl = Control { opcode0_counter: n, halted: true, ..self.ctl };
            } else {
                self.ctl = Control { opcode0_counter: n, ..self.ctl };
            }
        } else {
            self.ctl = Control { opcode0_counter: 0, ..self.ctl };
        }
    }

    fn unwind_at_mark(&mut self)
        ensures
            final(self)@ == if old(self)@.at_return_mark() {
                old(self)@.unwound(linear(old(self).regs.cs, old(self).regs.ip))
            } else {
                old(self)@
            },
            final(self).i == old(self).i,
            final(self).biu == old(self).biu,
    {
        let flat = self.get_linear_ip();
        if self.bus.get_flags(flat as usize) & MEM_RET_BIT != 0 {
            self.rewind_call_stack(flat);
        }
    }

    fn lift_inhibit(&mut self)
        ensures
            final(self)@ == (Arch {
                ctl: Control { interrupt_inhibit: false, ..old(self).ctl },
                ..old(self)@
            }),
            final(self).i == old(self).i,
            final(self).biu == old(self).biu,
    {
        self.ctl = Control { interrupt_inhibit: false, ..self.ctl };
    }

    /// The part of the prologue that is not bus timing.
    fn prologue_state(&mut self)
        ensures
            final(self)@ == old(self)@.prologue(old(self).i),
            final(self).i == old(self).i,
            final(self).biu == old(self).biu,
    {
        self.note_entry();
        self.unwind_at_mark();
        self.classify_rep();
        self.lift_inhibit();
        self.count_zero_opcodes();
    }

    /// The prologue: the leading cycles, the unwinding of the shadow call
    /// stack at a marked address, the classification of the repeat prefix.
    pub fn exec_prologue(&mut self)
        ensures
            final(self)@ == old(self)@.prologue(old(self).i),
            final(self).i == old(self).i,
            final(self).code() == old(self).code(),
            final(self).biu@.cycle_num == add64(
                old(self).biu@.cycle_num,
                old(self).biu@.prologue_cycles(old(self).i),
            ),
            !final(self).biu@.nx,
    {
        self.prologue_cycles();
        let ghost m1 = *self;
        self.prologue_state();
        proof {
            self.lemma_same_code_frame(&m1);
            self.lemma_same_code_trans(&m1, old(self));
            self.lemma_same_code_seq(old(self));
        }
    }

    #[verifier::rlimit(100)]
    fn dispatch_low(&mut self) -> (f: Flow)
        requires
            old(self).i.valid(),
            old(self).i.opcode < 0xA0,
        ensures
            (final(self)@, f) == old(self)@.dispatch(old(self).i, old(self).code()),
            final(self).i == old(self).i,
            f.jump ==> final(self).queue_base() == final(self).regs.ip,
            f.jump && old(self).i.opcode < 0x80 ==> final(self).biu@.queue.len() == 0,
            !f.stay,
            old(self)@.routine_cycles(old(self).i) matches Some(n) ==> final(self).biu@.cycle_num
                == add64(old(self).biu@.cycle_num, n),
    {
        proof {
            reveal(Arch::dispatch);
            if 0x60 <= self.i.opcode {
                crate::cpu_808x::cycles::lemma_routine_cycles_60_9f(self@, self.i);
            }
        }
        let op = self.i.opcode;
        if op < 0x40 {
            self.exec_00_3f()
        } else if op < 0x60 {
            self.exec_40_5f()
        } else if op < 0x80 {
            proof {
                crate::cpu_808x::validity::lemma_needs_80_8f(op, self.i.mnemonic);
            }
            self.exec_60_7f()
        } else if op < 0x90 {
            self.exec_80_8f()
        } else {
            self.exec_90_9f()
        }
    }

    #[verifier::rlimit(100)]
    fn dispatch_mid(&mut self) -> (f: Flow)
        requires
            old(self).i.valid(),
            0xA0 <= old(self).i.opcode < 0xE0,
        ensures
            (final(self)@, f) == old(self)@.dispatch(old(self).i, old(self).code()),
            final(self).i == old(self).i,
            f.jump || f.stay ==> final(self).queue_base() == final(self).regs.ip,
            f.stay || (f.jump && old(self).i.ends_flushed()) ==> final(self).biu@.queue.len()
                == 0,
            old(self)@.routine_cycles(old(self).i) matches Some(n) ==> final(self).biu@.cycle_num
                == add64(old(self).biu@.cycle_num, n),
    {
        proof {
            reveal(Arch::dispatch);
            crate::cpu_808x::cycles::lemma_routine_cycles_a0_ff(self@, self.i);
        }
        let op = self.i.opcode;
        if op < 0xB0 {
            self.exec_a0_af()
        } else if op < 0xC0 {
            self.exec_b0_bf()
        } else if op < 0xD0 {
            self.exec_c0_cf()
        } else {
            self.exec_d0_df()
        }
    }

    #[verifier::rlimit(100)]
    fn dispatch_high(&mut self) -> (f: Flow)
        requires
            old(self).i.valid(),
            0xE0 <= old(self).i.opcode,
        ensures
            (final(self)@, f) == old(self)@.dispatch(old(self).i, old(self).code()),
            final(self).i == old(self).i,
            f.jump ==> final(self).queue_base() == final(self).regs.ip,
            f.jump && old(self).i.ends_flushed() ==> final(self).biu@.queue.len() == 0,
            !f.stay,
            old(self)@.routine_cycles(old(self).i) matches Some(n) ==> final(self).biu@.cycle_num
                == add64(old(self).biu@.cycle_num, n),
    {
        proof {
            reveal(Arch::dispatch);
            crate::cpu_808x::cycles::lemma_routine_cycles_a0_ff(self@, self.i);
        }
        let op = self.i.opcode;
        if op < 0xF0 {
            self.exec_e0_ef()
        } else {
            self.exec_f0_ff()
        }
    }

    /// The routine of the opcode.
    pub fn exec_dispatch(&mut self) -> (f: Flow)
        requires
            old(self).i.valid(),
        ensures
            (final(self)@, f) == old(self)@.dispatch(old(self).i, old(self).code()),
            final(self).i == old(self).i,
            f.jump || f.stay ==> final(self).queue_base() == final(self).regs.ip,
            f.stay || (f.jump && old(self).i.ends_flushed()) ==> final(self).biu@.queue.len()
                == 0,
            old(self)@.routine_cycles(old(self).i) matches Some(n) ==> final(self).biu@.cycle_num
                == add64(old(self).biu@.cycle_num, n),
    {
        let op = self.i.opcode;
        if op < 0xA0 {
            self.dispatch_low()
        } else if op < 0xE0 {
            self.dispatch_mid()
        } else {
            self.dispatch_high()
        }
    }

    /// The epilogue: IP moves past the instruction where it has to, and the
    /// outcome is classified.
    pub fn exec_epilogue(&mut self, f: Flow) -> (r: ExecutionResult)
        ensures
            (final(self)@, r) == old(self)@.epilogue(old(self).i, f),
            final(self).i == old(self).i,
            final(self).biu == old(self).biu,
    {
        let mut c = self.ctl;
        if !c.in_rep {
            c.rep_init = false;
            if !f.jump && !f.stay {
                self.regs.ip = crate::cpu_808x::biu::offset_add(self.regs.ip, self.i.size);
            }
        }
        let r = if c.halted && !self.flags.interrupt {
            ExecutionResult::Halt
        } else if f.jump {
            ExecutionResult::OkayJump
        } else if c.in_rep {
            c.rep_init = true;
            ExecutionResult::OkayRep
        } else {
            match f.exception {
                CpuException::DivideError => ExecutionResult::ExceptionError(
                    CpuException::DivideError,
                ),
                CpuException::NoException => ExecutionResult::Okay,
            }
        };
        self.ctl = c;
        r
    }

    /// Executes the decoded instruction `self.i`. The decode stage has taken
    /// the prefixes, the opcode, the ModR/M byte and the displacement from the
    /// queue; an immediate operand is still in the instruction stream.
    ///
    /// - Registers, flags, memory, ports, control state and the shadow call
    ///   stack change as `executed` says, and the result is the one it names.
    /// - The queue holds at most four bytes. After a jump, and after a repeat
    ///   was left for an interrupt, every byte in it was fetched from the new
    ///   CS:IP on; after the transfers that `ends_flushed` names it is empty.
    /// - Where the routine touches neither the bus nor the queue, the
    ///   instruction takes the T-states of the prologue and those that
    ///   `routine_cycles` names: for a shift or rotate of a register by CL,
    ///   six and four more for every step.
    pub fn execute_instruction(&mut self) -> (r: ExecutionResult)
        requires
            old(self).i.valid(),
        ensures
            (final(self)@, r) == old(self)@.executed(old(self).i, old(self).code()),
            final(self).i == old(self).i,
            final(self).biu@.queue.len() <= 4,
            old(self)@.flow(old(self).i, old(self).code()).jump || old(self)@.flow(
                old(self).i,
                old(self).code(),
            ).stay ==> final(self).queue_base() == final(self).regs.ip,
            old(self)@.flow(old(self).i, old(self).code()).stay || (old(self)@.flow(
                old(self).i,
                old(self).code(),
            ).jump && old(self).i.ends_flushed()) ==> final(self).biu@.queue.len() == 0,
            old(self)@.routine_cycles(old(self).i) matches Some(n) ==> final(self).biu@.cycle_num
                == add64(
                old(self).biu@.cycle_num,
                old(self).biu@.prologue_cycles(old(self).i) + n,
            ),
    {
        proof {
            reveal(Arch::executed);
        }
        self.exec_prologue();
        let ghost mid = *self;
        let f = self.exec_dispatch();
        proof {
            crate::cpu_808x::cycles::lemma_routine_cycles_frame(old(self)@, mid@, self.i);
            match mid@.routine_cycles(self.i) {
                Some(n) => {
                    crate::cpu_808x::biu::lemma_add64_add(
                        old(self).biu@.cycle_num,
                        old(self).biu@.prologue_cycles(old(self).i),
                        n,
                    );
                },
                None => {},
            }
        }
        let r = self.exec_epilogue(f);
        self.biu.consistent();
        r
    }
}

} // verus!
