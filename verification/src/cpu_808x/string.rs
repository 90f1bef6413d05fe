//! The string instructions and the repeat prefix machinery.
use vstd::prelude::*;
use crate::cpu_808x::addressing::{overridden, segment_override};
use crate::cpu_808x::alu::{math_op16, math_op8, sub_spec};
use crate::cpu_808x::biu::{add16, offset_add, offset_sub, ReadWriteFlag};
use crate::cpu_808x::bus::{mem_read16, mem_read8, mem_write16, mem_write8};
use crate::cpu_808x::instruction::Mnemonic;
use crate::cpu_808x::registers::{linear, Register16, Register8, Registers, Segment, SegmentOverride};
use crate::cpu_808x::state::{Arch, Control, Cpu, RepType};

verus! {

impl Arch {
    /// How far SI and DI move after one element: forward when the direction
    /// flag is clear, backward when it is set, by the size of the element.
    pub open spec fn string_delta(self, word: bool) -> int {
        let n: int = if word {
            2
        } else {
            1
        };
        if self.flags.direction {
            -n
        } else {
            n
        }
    }

    /// The bus address of the source element: SI in DS, or in the overriding
    /// segment.
    pub open spec fn string_src(self, ovr: SegmentOverride) -> int {
        linear(self.regs.seg(overridden(ovr, Segment::DS)), self.regs.si)
    }

    /// The bus address of the destination element: DI in ES, always.
    pub open spec fn string_dst(self) -> int {
        linear(self.regs.es, self.regs.di)
    }

    /// The state after one element of a string instruction.
    ///
    /// - MOVS copies the source element to the destination and moves SI and
    ///   DI.
    /// - STOS stores AL or AX at the destination and moves DI.
    /// - LODS loads AL or AX from the source and moves SI.
    /// - CMPS sets the flags as the source minus the destination does, and
    ///   moves SI and DI.
    /// - SCAS sets the flags as AL or AX minus the destination does, and
    ///   moves DI.
    /// - Any other mnemonic changes nothing.
    pub open spec fn string_step(self, m: Mnemonic, ovr: SegmentOverride) -> Arch {
        let src = self.string_src(ovr);
        let dst = self.string_dst();
        let r = self.regs;
        let si8 = add16(r.si, self.string_delta(false));
        let di8 = add16(r.di, self.string_delta(false));
        let si16 = add16(r.si, self.string_delta(true));
        let di16 = add16(r.di, self.string_delta(true));
        match m {
            Mnemonic::MOVSB => Arch {
                mem: mem_write8(self.mem, dst, mem_read8(self.mem, src)),
                regs: Registers { si: si8, di: di8, ..r },
                ..self
            },
            Mnemonic::MOVSW => Arch {
                mem: mem_write16(self.mem, dst, mem_read16(self.mem, src)),
                regs: Registers { si: si16, di: di16, ..r },
                ..self
            },
            Mnemonic::STOSB => Arch {
                mem: mem_write8(self.mem, dst, r.get8(Register8::AL)),
                regs: Registers { di: di8, ..r },
                ..self
            },
            Mnemonic::STOSW => Arch {
                mem: mem_write16(self.mem, dst, r.ax),
                regs: Registers { di: di16, ..r },
                ..self
            },
            Mnemonic::LODSB => Arch {
                regs: Registers { si: si8, ..r.set8(Register8::AL, mem_read8(self.mem, src)) },
                ..self
            },
            Mnemonic::LODSW => Arch {
                regs: Registers { ax: mem_read16(self.mem, src), si: si16, ..r },
                ..self
            },
            Mnemonic::CMPSB => Arch {
                flags: sub_spec(
                    mem_read8(self.mem, src) as int,
                    mem_read8(self.mem, dst) as int,
                    false,
                    false,
                    self.flags,
                ).1,
                regs: Registers { si: si8, di: di8, ..r },
                ..self
            },
            Mnemonic::CMPSW => Arch {
                flags: sub_spec(
                    mem_read16(self.mem, src) as int,
                    mem_read16(self.mem, dst) as int,
                    false,
                    true,
                    self.flags,
                ).1,
                regs: Registers { si: si16, di: di16, ..r },
                ..self
            },
            Mnemonic::SCASB => Arch {
                flags: sub_spec(
                    r.get8(Register8::AL) as int,
                    mem_read8(self.mem, dst) as int,
                    false,
                    false,
                    self.flags,
                ).1,
                regs: Registers { di: di8, ..r },
                ..self
            },
            Mnemonic::SCASW => Arch {
                flags: sub_spec(
                    r.ax as int,
                    mem_read16(self.mem, dst) as int,
                    false,
                    true,
                    self.flags,
                ).1,
                regs: Registers { di: di16, ..r },
                ..self
            },
            _ => self,
        }
    }

    /// The state after a repeat ended.
    pub open spec fn rep_ended(self) -> Arch {
        Arch { ctl: Control { in_rep: false, rep_type: RepType::NoRep, ..self.ctl }, ..self }
    }

    /// The state after a register was decremented; no flag changes.
    pub open spec fn decremented(self, r: Register16) -> Arch {
        Arch { regs: self.regs.set16(r, add16(self.regs.get16(r), -1)), ..self }
    }

    /// CBW: AH becomes the sign of AL.
    pub open spec fn cbw(self) -> Arch {
        Arch {
            regs: self.regs.set8(
                Register8::AH,
                if self.regs.get8(Register8::AL) >= 0x80 {
                    0xFFu8
                } else {
                    0u8
                },
            ),
            ..self
        }
    }

    /// CWD: DX becomes the sign of AX.
    pub open spec fn cwd(self) -> Arch {
        Arch {
            regs: Registers {
                dx: if self.regs.ax >= 0x8000 {
                    0xFFFFu16
                } else {
                    0u16
                },
                ..self.regs
            },
            ..self
        }
    }
}

impl Cpu {
    fn step_index(&self, v: u16, word: bool) -> (r: u16)
        ensures
            r == add16(v, self@.string_delta(word)),
    {
        let n: u16 = if word {
            2
        } else {
            1
        };
        if self.flags.direction {
            offset_sub(v, n)
        } else {
            offset_add(v, n)
        }
    }

    #[verifier::rlimit(50)]
    fn movs(&mut self, word: bool, ovr: SegmentOverride)
        ensures
            final(self)@ == old(self)@.string_step(
                if word {
                    Mnemonic::MOVSW
                } else {
                    Mnemonic::MOVSB
                },
                ovr,
            ),
            final(self).i == old(self).i,
            final(self).queue_base() == old(self).queue_base(),
    {
        let sseg = segment_override(ovr, Segment::DS);
        let src = self.calc_linear_address_seg(sseg, self.regs.si);
        let dst = self.calc_linear_address_seg(Segment::ES, self.regs.di);
        let si = self.step_index(self.regs.si, word);
        let di = self.step_index(self.regs.di, word);
        if word {
            let v = self.biu_read_u16(sseg, src, ReadWriteFlag::Normal);
            self.biu_write_u16(Segment::ES, dst, v, ReadWriteFlag::Normal);
        } else {
            let v = self.biu_read_u8(sseg, src);
            self.biu_write_u8(Segment::ES, dst, v, ReadWriteFlag::Normal);
        }
        self.regs.si = si;
        self.regs.di = di;
    }

    #[verifier::rlimit(50)]
    fn stos(&mut self, word: bool, ovr: SegmentOverride)
        ensures
            final(self)@ == old(self)@.string_step(
                if word {
                    Mnemonic::STOSW
                } else {
                    Mnemonic::STOSB
                },
                ovr,
            ),
            final(self).i == old(self).i,
            final(self).queue_base() == old(self).queue_base(),
    {
        let dst = self.calc_linear_address_seg(Segment::ES, self.regs.di);
        let di = self.step_index(self.regs.di, word);
        if word {
            let v = self.regs.ax;
            self.biu_write_u16(Segment::ES, dst, v, ReadWriteFlag::Normal);
        } else {
            let v = self.regs.read8(Register8::AL);
            self.biu_write_u8(Segment::ES, dst, v, ReadWriteFlag::Normal);
        }
        self.regs.di = di;
    }

    #[verifier::rlimit(50)]
    fn lods(&mut self, word: bool, ovr: SegmentOverride)
        ensures
            final(self)@ == old(self)@.string_step(
                if word {
                    Mnemonic::LODSW
                } else {
                    Mnemonic::LODSB
                },
                ovr,
            ),
            final(self).i == old(self).i,
            final(self).queue_base() == old(self).queue_base(),
    {
        let sseg = segment_override(ovr, Segment::DS);
        let src = self.calc_linear_address_seg(sseg, self.regs.si);
        let si = self.step_index(self.regs.si, word);
        if word {
            let v = self.biu_read_u16(sseg, src, ReadWriteFlag::Normal);
            self.regs.ax = v;
        } else {
            let v = self.biu_read_u8(sseg, src);
            self.regs.write8(Register8::AL, v);
        }
        self.regs.si = si;
    }

    #[verifier::rlimit(50)]
    fn cmps(&mut self, word: bool, ovr: SegmentOverride)
        ensures
            final(self)@ == old(self)@.string_step(
                if word {
                    Mnemonic::CMPSW
                } else {
                    Mnemonic::CMPSB
                },
                ovr,
            ),
            final(self).i == old(self).i,
            final(self).queue_base() == old(self).queue_base(),
    {
        proof {
            reveal(crate::cpu_808x::alu::alu8);
            reveal(crate::cpu_808x::alu::alu16);
        }
        let sseg = segment_override(ovr, Segment::DS);
        let src = self.calc_linear_address_seg(sseg, self.regs.si);
        let dst = self.calc_linear_address_seg(Segment::ES, self.regs.di);
        let si = self.step_index(self.regs.si, word);
        let di = self.step_index(self.regs.di, word);
        if word {
            let a = self.biu_read_u16(sseg, src, ReadWriteFlag::Normal);
            let b = self.biu_read_u16(Segment::ES, dst, ReadWriteFlag::Normal);
            let (_, f) = math_op16(Mnemonic::CMP, a, b, self.flags);
            self.flags = f;
        } else {
            let a = self.biu_read_u8(sseg, src);
            let b = self.biu_read_u8(Segment::ES, dst);
            let (_, f) = math_op8(Mnemonic::CMP, a, b, self.flags);
            self.flags = f;
        }
        self.regs.si = si;
        self.regs.di = di;
    }

    #[verifier::rlimit(50)]
    fn scas(&mut self, word: bool, ovr: SegmentOverride)
        ensures
            final(self)@ == old(self)@.string_step(
                if word {
                    Mnemonic::SCASW
                } else {
                    Mnemonic::SCASB
                },
                ovr,
            ),
            final(self).i == old(self).i,
            final(self).queue_base() == old(self).queue_base(),
    {
        proof {
            reveal(crate::cpu_808x::alu::alu8);
            reveal(crate::cpu_808x::alu::alu16);
        }
        let dst = self.calc_linear_address_seg(Segment::ES, self.regs.di);
        let di = self.step_index(self.regs.di, word);
        if word {
            let a = self.regs.ax;
            let b = self.biu_read_u16(Segment::ES, dst, ReadWriteFlag::Normal);
            let (_, f) = math_op16(Mnemonic::CMP, a, b, self.flags);
            self.flags = f;
        } else {
            let a = self.regs.read8(Register8::AL);
            let b = self.biu_read_u8(Segment::ES, dst);
            let (_, f) = math_op8(Mnemonic::CMP, a, b, self.flags);
            self.flags = f;
        }
        self.regs.di = di;
    }

    /// Runs one element of a string instruction.
    pub fn string_op(&mut self, m: Mnemonic, ovr: SegmentOverride)
        ensures
            final(self)@ == old(self)@.string_step(m, ovr),
            final(self).i == old(self).i,
            final(self).queue_base() == old(self).queue_base(),
    {
        match m {
            Mnemonic::MOVSB => self.movs(false, ovr),
            Mnemonic::MOVSW => self.movs(true, ovr),
            Mnemonic::STOSB => self.stos(false, ovr),
            Mnemonic::STOSW => self.stos(true, ovr),
            Mnemonic::LODSB => self.lods(false, ovr),
            Mnemonic::LODSW => self.lods(true, ovr),
            Mnemonic::CMPSB => self.cmps(false, ovr),
            Mnemonic::CMPSW => self.cmps(true, ovr),
            Mnemonic::SCASB => self.scas(false, ovr),
            Mnemonic::SCASW => self.scas(true, ovr),
            _ => {},
        }
    }

    /// Begins an iteration of a string instruction. Under a repeat prefix
    /// with CX zero the repeat ends at once and the body must not run: the
    /// result is `false`.
    pub fn rep_start(&mut self) -> (go: bool)
        ensures
            go == !(old(self).ctl.in_rep && old(self).regs.cx == 0),
            final(self)@ == if go {
                old(self)@
            } else {
                old(self)@.rep_ended()
            },
            final(self).i == old(self).i,
            final(self).queue_base() == old(self).queue_base(),
    {
        if self.ctl.in_rep {
            if !self.ctl.rep_init {
                self.cycles(2);
            }
            if self.regs.cx == 0 {
                self.rep_end();
                return false;
            }
        }
        true
    }

    /// Ends a repeat.
    pub fn rep_end(&mut self)
        ensures
            final(self)@ == old(self)@.rep_ended(),
            final(self).i == old(self).i,
            final(self).biu == old(self).biu,
    {
        self.ctl.in_rep = false;
        self.ctl.rep_type = RepType::NoRep;
    }

    /// Leaves a repeat for a pending interrupt: the prefetcher is stopped, the
    /// queue flushed, and the repeat ended. IP stays at the first byte of the
    /// prefixed instruction, so that the instruction resumes after the
    /// handler returns.
    pub fn rep_interrupt(&mut self)
        ensures
            final(self)@ == old(self)@.rep_ended(),
            final(self).i == old(self).i,
            final(self).flushed(),
    {
        self.biu_suspend_fetch();
        self.cycles(2);
        self.rep_end();
        self.flush_and_cycles(0, &[]);
    }

    /// Decrements a word register without touching the flags.
    pub fn decrement_register16(&mut self, r: Register16)
        ensures
            final(self)@ == old(self)@.decremented(r),
            final(self).i == old(self).i,
            final(self).biu == old(self).biu,
    {
        let v = self.regs.read16(r);
        self.regs.write16(r, offset_sub(v, 1));
    }

    /// CBW.
    pub fn sign_extend_al(&mut self)
        ensures
            final(self)@ == old(self)@.cbw(),
            final(self).i == old(self).i,
            final(self).biu == old(self).biu,
    {
        let al = self.regs.read8(Register8::AL);
        self.regs.write8(
            Register8::AH,
            if al >= 0x80 {
                0xFF
            } else {
                0
            },
        );
    }

    /// CWD.
    pub fn sign_extend_ax(&mut self)
        ensures
            final(self)@ == old(self)@.cwd(),
            final(self).i == old(self).i,
            final(self).biu == old(self).biu,
    {
        self.regs.dx = if self.regs.ax >= 0x8000 {
            0xFFFF
        } else {
            0
        };
    }
}

} // verus!
