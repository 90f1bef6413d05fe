//! The stack: pushes decrement SP before they write, pops read before SP
//! moves back.
use vstd::prelude::*;
use crate::cpu_808x::biu::{add16, offset_add, offset_sub, ReadWriteFlag};
use crate::cpu_808x::bus::{mem_read16, mem_write16, mem_write8};
use crate::cpu_808x::registers::{linear, Flags, Register16, Registers, Segment};
use crate::cpu_808x::state::{Arch, Cpu};

verus! {

impl Arch {
    /// The state after a word was pushed: SP goes down by two, then the word
    /// is written at SS:SP.
    pub open spec fn push16(self, v: u16) -> Arch {
        let sp = add16(self.regs.sp, -2);
        Arch {
            regs: Registers { sp: sp, ..self.regs },
            mem: mem_write16(self.mem, linear(self.regs.ss, sp), v),
            ..self
        }
    }

    /// The state after a byte was pushed: SP goes down by two all the same,
    /// and only the byte at SS:SP is written.
    pub open spec fn push8(self, v: u8) -> Arch {
        let sp = add16(self.regs.sp, -2);
        Arch {
            regs: Registers { sp: sp, ..self.regs },
            mem: mem_write8(self.mem, linear(self.regs.ss, sp), v),
            ..self
        }
    }

    /// The word on top of the stack.
    pub open spec fn top16(self) -> u16 {
        mem_read16(self.mem, linear(self.regs.ss, self.regs.sp))
    }

    /// The state after a word was popped.
    pub open spec fn pop16(self) -> Arch {
        Arch { regs: Registers { sp: add16(self.regs.sp, 2), ..self.regs }, ..self }
    }

    /// The word that PUSH stores for a register: its value, but for SP the
    /// value that SP has after the decrement.
    pub open spec fn pushed_value(self, r: Register16) -> u16 {
        if r == Register16::SP {
            add16(self.regs.sp, -2)
        } else {
            self.regs.get16(r)
        }
    }

    /// The state after PUSH of a register.
    pub open spec fn push_reg(self, r: Register16) -> Arch {
        self.push16(self.pushed_value(r))
    }

    /// The state after POP into a register: the word on top of the stack goes
    /// into the register, then SP moves up by two.
    pub open spec fn pop_reg(self, r: Register16) -> Arch {
        let loaded = self.regs.set16(r, self.top16());
        Arch { regs: Registers { sp: add16(loaded.sp, 2), ..loaded }, ..self }
    }

    /// The state after PUSHF.
    pub open spec fn push_flags(self) -> Arch {
        self.push16(self.flags.word() as u16)
    }

    /// The state after POPF: the defined bits of the word on top of the stack
    /// become the flags.
    pub open spec fn pop_flags(self) -> Arch {
        Arch { flags: Flags::of_word(self.top16()), ..self.pop16() }
    }

    /// The state after `disp` bytes of stack were released.
    pub open spec fn released(self, disp: u16) -> Arch {
        Arch { regs: Registers { sp: add16(self.regs.sp, disp as int), ..self.regs }, ..self }
    }
}

/// A word that was written is the word that is read back.
pub proof fn lemma_write16_read16(mem: Seq<u8>, addr: int, v: u16)
    requires
        mem.len() == 0x100000,
        0 <= addr,
    ensures
        mem_read16(mem_write16(mem, addr, v), addr) == v,
        mem_write16(mem, addr, v).len() == mem.len(),
{
    let base = addr % 0x100000;
    crate::cpu_808x::bus::lemma_block_index(base, 1, base);
    vstd::arithmetic::div_mod::lemma_add_mod_noop_right(1, addr, 0x100000);
}

/// PUSH of a word register followed by POP into the same register restores
/// every register, SP among them, and changes neither flags nor control
/// state: only the two bytes under the old stack top differ. For SP the word
/// that lies on the stack in between is SP after the decrement.
pub proof fn lemma_push_pop_round_trip(a: Arch, r: Register16)
    requires
        a.mem.len() == 0x100000,
    ensures
        a.push_reg(r).pop_reg(r).regs == a.regs,
        a.push_reg(r).pop_reg(r) == (Arch { mem: a.push_reg(r).mem, ..a }),
        a.push_reg(r).top16() == a.pushed_value(r),
        r == Register16::SP ==> a.push_reg(r).top16() == add16(a.regs.sp, -2),
        a.push_reg(r).mem == mem_write16(
            a.mem,
            linear(a.regs.ss, add16(a.regs.sp, -2)),
            a.pushed_value(r),
        ),
{
    let sp = add16(a.regs.sp, -2);
    lemma_write16_read16(a.mem, linear(a.regs.ss, sp), a.pushed_value(r));
    crate::cpu_808x::biu::lemma_add16_add(a.regs.sp, -2, 2);
}

/// PUSHF followed by POPF restores every architecturally defined flag, and
/// every register.
pub proof fn lemma_pushf_popf_round_trip(a: Arch)
    requires
        a.mem.len() == 0x100000,
    ensures
        a.push_flags().pop_flags().flags == a.flags,
        a.push_flags().pop_flags().regs == a.regs,
        a.push_flags().pop_flags() == (Arch { mem: a.push_flags().mem, ..a }),
{
    let sp = add16(a.regs.sp, -2);
    crate::cpu_808x::registers::lemma_flag_word_round_trip(a.flags);
    lemma_write16_read16(a.mem, linear(a.regs.ss, sp), a.flags.word() as u16);
    crate::cpu_808x::biu::lemma_add16_add(a.regs.sp, -2, 2);
}

impl Cpu {
    /// Pushes a word.
    pub fn push_u16(&mut self, v: u16, flag: ReadWriteFlag)
        ensures
            final(self)@ == old(self)@.push16(v),
            final(self).i == old(self).i,
            final(self).queue_base() == old(self).queue_base(),
    {
        self.regs.sp = offset_sub(self.regs.sp, 2);
        let a = self.calc_linear_address_seg(Segment::SS, self.regs.sp);
        self.biu_write_u16(Segment::SS, a, v, flag);
    }

    /// Pushes a byte: SP goes down by two, one byte is written.
    pub fn push_u8(&mut self, v: u8, flag: ReadWriteFlag)
        ensures
            final(self)@ == old(self)@.push8(v),
            final(self).i == old(self).i,
            final(self).queue_base() == old(self).queue_base(),
    {
        self.regs.sp = offset_sub(self.regs.sp, 2);
        let a = self.calc_linear_address_seg(Segment::SS, self.regs.sp);
        self.biu_write_u8(Segment::SS, a, v, flag);
    }

    /// Pops a word.
    pub fn pop_u16(&mut self) -> (v: u16)
        ensures
            v == old(self)@.top16(),
            final(self)@ == old(self)@.pop16(),
            final(self).i == old(self).i,
            final(self).same_code(old(self)),
            final(self).queue_base() == old(self).queue_base(),
    {
        let a = self.calc_linear_address_seg(Segment::SS, self.regs.sp);
        let v = self.biu_read_u16(Segment::SS, a, ReadWriteFlag::Normal);
        let ghost mid = *self;
        self.regs.sp = offset_add(self.regs.sp, 2);
        proof {
            self.lemma_same_code_frame(&mid);
            self.lemma_same_code_trans(&mid, old(self));
        }
        v
    }

    /// PUSH of a register. For SP the word pushed is SP after the decrement.
    pub fn push_register16(&mut self, r: Register16, flag: ReadWriteFlag)
        ensures
            final(self)@ == old(self)@.push_reg(r),
            final(self).i == old(self).i,
            final(self).queue_base() == old(self).queue_base(),
    {
        let v = match r {
            Register16::SP => offset_sub(self.regs.sp, 2),
            _ => self.regs.read16(r),
        };
        self.push_u16(v, flag);
    }

    /// POP into a register.
    pub fn pop_register16(&mut self, r: Register16, flag: ReadWriteFlag)
        ensures
            final(self)@ == old(self)@.pop_reg(r),
            final(self).i == old(self).i,
            final(self).queue_base() == old(self).queue_base(),
    {
        let a = self.calc_linear_address_seg(Segment::SS, self.regs.sp);
        let v = self.biu_read_u16(Segment::SS, a, flag);
        self.regs.write16(r, v);
        self.regs.sp = offset_add(self.regs.sp, 2);
    }

    /// PUSHF.
    pub fn push_flags(&mut self, flag: ReadWriteFlag)
        ensures
            final(self)@ == old(self)@.push_flags(),
            final(self).i == old(self).i,
            final(self).queue_base() == old(self).queue_base(),
    {
        let w = self.flags.to_word();
        self.push_u16(w, flag);
    }

    /// POPF.
    pub fn pop_flags(&mut self)
        ensures
            final(self)@ == old(self)@.pop_flags(),
            final(self).i == old(self).i,
            final(self).same_code(old(self)),
            final(self).queue_base() == old(self).queue_base(),
    {
        let w = self.pop_u16();
        let ghost mid = *self;
        self.flags = Flags::from_word(w);
        proof {
            self.lemma_same_code_frame(&mid);
            self.lemma_same_code_trans(&mid, old(self));
        }
    }

    /// Releases `disp` bytes of stack.
    pub fn release(&mut self, disp: u16)
        ensures
            final(self)@ == old(self)@.released(disp),
            final(self).i == old(self).i,
            final(self).biu == old(self).biu,
    {
        self.regs.sp = offset_add(self.regs.sp, disp);
    }
}

} // verus!
