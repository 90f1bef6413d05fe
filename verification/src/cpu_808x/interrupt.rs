//! Interrupt delivery, IRET, the interrupt lines, and the upkeep of the
//! shadow call stack.
use vstd::prelude::*;
use crate::cpu_808x::biu::ReadWriteFlag;
use crate::cpu_808x::bus::{mem_read16, mem_read8, mem_write8, MEM_RET_BIT};
use crate::cpu_808x::callstack::{pushed, rewound, CallStackEntry};

use crate::cpu_808x::registers::{calc_linear_address, linear, Flags, Registers, Segment};
use crate::cpu_808x::state::{Arch, Control, Cpu};

verus! {

/// The attribute bytes after the return marks of `gone` were cleared, first
/// entry first.
pub open spec fn marks_cleared(flags: Seq<u8>, gone: Seq<CallStackEntry>) -> Seq<u8>
    decreases gone.len(),
{
    if gone.len() == 0 {
        flags
    } else {
        marks_cleared(
            mem_write8(
                flags,
                gone[0].return_address(),
                mem_read8(flags, gone[0].return_address()) & !MEM_RET_BIT,
            ),
            gone.subrange(1, gone.len() as int),
        )
    }
}

impl Arch {
    /// The state after a call was recorded: the entry is on the shadow stack
    /// and the address `ret` carries the return mark.
    pub open spec fn call_noted(self, e: CallStackEntry, ret: int) -> Arch {
        Arch {
            call_stack: pushed(self.call_stack, e),
            mem_flags: mem_write8(
                self.mem_flags,
                ret,
                mem_read8(self.mem_flags, ret) | MEM_RET_BIT,
            ),
            ..self
        }
    }

    /// The state after execution reached the marked address `addr`: the
    /// shadow stack is unwound to the oldest entry that returns there, and the
    /// marks of the entries that left are cleared.
    pub open spec fn unwound(self, addr: int) -> Arch {
        let kept = rewound(self.call_stack, addr);
        Arch {
            call_stack: kept,
            mem_flags: marks_cleared(
                self.mem_flags,
                self.call_stack.subrange(kept.len() as int, self.call_stack.len() as int),
            ),
            ..self
        }
    }

    /// The handler address of interrupt `n`: the offset word at bus address
    /// `4 * n`, the segment word after it. Returns (segment, offset).
    pub open spec fn vector(self, n: u8) -> (u16, u16) {
        (mem_read16(self.mem, 4 * n + 2), mem_read16(self.mem, 4 * n))
    }

    /// The state after interrupt `n` was delivered: the flags are pushed, the
    /// trap and interrupt flags cleared, CS and IP pushed, and CS:IP loaded
    /// from the vector as it was before the pushes. The CPU is no longer
    /// halted, and the shadow call stack has an entry for the return.
    pub open spec fn interrupted(self, n: u8) -> Arch {
        let v = self.vector(n);
        let a = self.push_flags();
        let b = Arch { flags: Flags { trap: false, interrupt: false, ..a.flags }, ..a };
        let c = b.push16(b.regs.cs).push16(b.regs.ip);
        let d = Arch {
            regs: Registers { cs: v.0, ip: v.1, ..c.regs },
            ctl: Control { halted: false, ..c.ctl },
            ..c
        };
        d.call_noted(
            CallStackEntry::Interrupt {
                ret_cs: self.regs.cs,
                ret_ip: self.regs.ip,
                call_cs: v.0,
                call_ip: v.1,
                number: n,
            },
            linear(self.regs.cs, self.regs.ip),
        )
    }

    /// The state after IRET: IP, CS and the flags are popped.
    pub open spec fn iret(self) -> Arch {
        self.returned(true).pop_flags()
    }

    /// Whether the INTR line is recognised: it is asserted, the interrupt flag
    /// is set, and no instruction that delays recognition by one instruction
    /// has just run.
    pub open spec fn intr_recognised(self) -> bool {
        &&& self.ctl.intr is Some
        &&& self.flags.interrupt
        &&& !self.ctl.interrupt_inhibit
        &&& self.ctl.trap_enable_delay == 0
    }

    /// Whether the single-step trap is due: the trap flag is set, it was not
    /// set by the instruction that has just run, and no load of SS has just
    /// suppressed it.
    pub open spec fn trap_due(self) -> bool {
        &&& self.flags.trap
        &&& !self.ctl.trap_suppressed
        &&& self.ctl.trap_enable_delay == 0
    }

    /// The state after POPF or IRET loaded the flags, `before` being the
    /// flags that they replaced: where the load turned the trap flag on, the
    /// trap waits until one more instruction has run.
    pub open spec fn trap_armed(self, before: Flags) -> Arch {
        if !before.trap && self.flags.trap {
            Arch { ctl: Control { trap_enable_delay: 1, ..self.ctl }, ..self }
        } else {
            self
        }
    }

    /// The interrupt that is serviced next at an instruction boundary, if
    /// any: the single-step trap (1) before NMI (2), NMI before INTR.
    pub open spec fn next_interrupt(self) -> Option<u8> {
        if self.trap_due() {
            Some(1u8)
        } else if self.ctl.nmi {
            Some(2u8)
        } else if self.intr_recognised() {
            self.ctl.intr
        } else {
            None
        }
    }

    /// The state after the interrupt that was due was serviced. The trap
    /// leaves the lines as they are; NMI and INTR are taken off the list of
    /// what is pending.
    pub open spec fn serviced(self) -> Arch {
        if self.trap_due() {
            self.interrupted(1)
        } else {
            match self.next_interrupt() {
                Some(n) => (Arch {
                    ctl: Control { nmi: false, pending_interrupt: false, ..self.ctl },
                    ..self
                }).interrupted(n),
                None => self,
            }
        }
    }
}

/// Delivery followed by IRET restores CS, IP, SP and every flag, and leaves
/// the other registers as they were: an interrupted instruction resumes
/// where it was, with the registers it had.
pub proof fn lemma_interrupt_iret_round_trip(a: Arch, n: u8)
    requires
        a.mem.len() == 0x100000,
    ensures
        a.interrupted(n).iret().regs == a.regs,
        a.interrupted(n).iret().flags == a.flags,
{
    let f = a.push_flags();
    let b = Arch { flags: Flags { trap: false, interrupt: false, ..f.flags }, ..f };
    let c1 = b.push16(b.regs.cs);
    let c = c1.push16(b.regs.ip);
    let sp0 = a.regs.sp;
    let sp1 = crate::cpu_808x::biu::add16(sp0, -2);
    let sp2 = crate::cpu_808x::biu::add16(sp1, -2);
    let sp3 = crate::cpu_808x::biu::add16(sp2, -2);
    crate::cpu_808x::biu::lemma_add16_add(sp3, 2, 0);
    crate::cpu_808x::biu::lemma_add16_add(sp0, -2, -2);
    crate::cpu_808x::biu::lemma_add16_add(sp0, -4, -2);
    crate::cpu_808x::biu::lemma_add16_add(sp0, -6, 2);
    crate::cpu_808x::biu::lemma_add16_add(sp0, -4, 2);
    crate::cpu_808x::biu::lemma_add16_add(sp0, -2, 2);
    crate::cpu_808x::registers::lemma_flag_word_round_trip(a.flags);
    let ss = a.regs.ss;
    lemma_stack_words(a.mem, ss, sp0, a.flags.word() as u16, a.regs.cs, a.regs.ip);
}

/// Three words pushed one after the other are read back in reverse order.
pub proof fn lemma_stack_words(mem: Seq<u8>, ss: u16, sp: u16, w1: u16, w2: u16, w3: u16)
    requires
        mem.len() == 0x100000,
    ensures
        ({
            let a1 = linear(ss, crate::cpu_808x::biu::add16(sp, -2));
            let a2 = linear(ss, crate::cpu_808x::biu::add16(sp, -4));
            let a3 = linear(ss, crate::cpu_808x::biu::add16(sp, -6));
            let m = crate::cpu_808x::bus::mem_write16(
                crate::cpu_808x::bus::mem_write16(
                    crate::cpu_808x::bus::mem_write16(mem, a1, w1),
                    a2,
                    w2,
                ),
                a3,
                w3,
            );
            &&& mem_read16(m, a3) == w3
            &&& mem_read16(m, a2) == w2
            &&& mem_read16(m, a1) == w1
        }),
{
    let o1 = crate::cpu_808x::biu::add16(sp, -2);
    let o2 = crate::cpu_808x::biu::add16(sp, -4);
    let o3 = crate::cpu_808x::biu::add16(sp, -6);
    assert(o2 == crate::cpu_808x::biu::add16(o1, -2)) by {
        crate::cpu_808x::biu::lemma_add16_add(sp, -2, -2);
    }
    assert(o3 == crate::cpu_808x::biu::add16(o2, -2)) by {
        crate::cpu_808x::biu::lemma_add16_add(sp, -4, -2);
    }
    assert(o3 == crate::cpu_808x::biu::add16(o1, -4)) by {
        crate::cpu_808x::biu::lemma_add16_add(sp, -2, -4);
    }
    lemma_word_apart(ss, o1, o2);
    lemma_word_apart(ss, o2, o3);
    lemma_word_apart2(ss, o1, o3);
    let a1 = linear(ss, o1);
    let a2 = linear(ss, o2);
    let a3 = linear(ss, o3);
    let m1 = crate::cpu_808x::bus::mem_write16(mem, a1, w1);
    let m2 = crate::cpu_808x::bus::mem_write16(m1, a2, w2);
    let m3 = crate::cpu_808x::bus::mem_write16(m2, a3, w3);
    crate::cpu_808x::stack::lemma_write16_read16(mem, a1, w1);
    crate::cpu_808x::stack::lemma_write16_read16(m1, a2, w2);
    crate::cpu_808x::stack::lemma_write16_read16(m2, a3, w3);
    lemma_write16_elsewhere(m1, a2, w2, a1);
    lemma_write16_elsewhere(m2, a3, w3, a1);
    lemma_write16_elsewhere(m2, a3, w3, a2);
}

/// A word write leaves a word that shares no byte with it as it was.
pub proof fn lemma_write16_elsewhere(mem: Seq<u8>, b: int, w: u16, a: int)
    requires
        mem.len() == 0x100000,
        0 <= a < 0x100000,
        0 <= b < 0x100000,
        a != b,
        a != (b + 1) % 0x100000,
        (a + 1) % 0x100000 != b,
        (a + 1) % 0x100000 != (b + 1) % 0x100000,
    ensures
        mem_read16(crate::cpu_808x::bus::mem_write16(mem, b, w), a) == mem_read16(mem, a),
        crate::cpu_808x::bus::mem_write16(mem, b, w).len() == 0x100000,
{
    vstd::arithmetic::div_mod::lemma_small_mod(a as nat, 0x100000);
    vstd::arithmetic::div_mod::lemma_small_mod(b as nat, 0x100000);
}

/// The bus address of `ss:off`, before it is wrapped to 20 bits, moves with
/// the offset.
proof fn lemma_linear_parts(ss: u16, off: u16)
    ensures
        linear(ss, off) == (ss * 16 + off) % 0x100000,
        0 <= linear(ss, off) < 0x100000,
        (linear(ss, off) + 1) % 0x100000 == (ss * 16 + off + 1) % 0x100000,
{
    vstd::arithmetic::div_mod::lemma_add_mod_noop_right(1, ss * 16 + off, 0x100000);
}

/// Two bus addresses that are congruent to values less than a megabyte apart
/// differ.
proof fn lemma_mod_differs(x: int, d: int)
    requires
        0 < d < 0x100000,
    ensures
        x % 0x100000 != (x + d) % 0x100000,
{
    let base = x % 0x100000;
    crate::cpu_808x::bus::lemma_block_index(base, d, base);
    vstd::arithmetic::div_mod::lemma_add_mod_noop_right(d, x, 0x100000);
}

/// The words at `ss:o` and at `ss:o - 2` share no byte.
proof fn lemma_word_apart(ss: u16, hi_off: u16, lo_off: u16)
    requires
        lo_off == crate::cpu_808x::biu::add16(hi_off, -2),
    ensures
        ({
            let a = linear(ss, hi_off);
            let b = linear(ss, lo_off);
            &&& a != b
            &&& a != (b + 1) % 0x100000
            &&& (a + 1) % 0x100000 != b
            &&& (a + 1) % 0x100000 != (b + 1) % 0x100000
        }),
{
    lemma_linear_parts(ss, hi_off);
    lemma_linear_parts(ss, lo_off);
    if hi_off >= 2 {
        vstd::arithmetic::div_mod::lemma_small_mod((hi_off - 2) as nat, 0x10000);
        let x = ss * 16 + lo_off;
        lemma_mod_differs(x, 2);
        lemma_mod_differs(x, 1);
        lemma_mod_differs(x + 1, 1);
        lemma_mod_differs(x, 3);
        lemma_mod_differs(x + 1, 2);
    } else {
        crate::cpu_808x::alu::lemma_wrap_negative(hi_off - 2, 0x10000);
        let x = ss * 16 + hi_off;
        lemma_mod_differs(x, 0xFFFE);
        lemma_mod_differs(x, 0xFFFF);
        lemma_mod_differs(x + 1, 0xFFFD);
        lemma_mod_differs(x + 1, 0xFFFE);
    }
}

/// The words at `ss:o` and at `ss:o - 4` share no byte.
proof fn lemma_word_apart2(ss: u16, hi_off: u16, lo_off: u16)
    requires
        lo_off == crate::cpu_808x::biu::add16(hi_off, -4),
    ensures
        ({
            let a = linear(ss, hi_off);
            let b = linear(ss, lo_off);
            &&& a != b
            &&& a != (b + 1) % 0x100000
            &&& (a + 1) % 0x100000 != b
            &&& (a + 1) % 0x100000 != (b + 1) % 0x100000
        }),
{
    lemma_linear_parts(ss, hi_off);
    lemma_linear_parts(ss, lo_off);
    if hi_off >= 4 {
        vstd::arithmetic::div_mod::lemma_small_mod((hi_off - 4) as nat, 0x10000);
        let x = ss * 16 + lo_off;
        lemma_mod_differs(x, 4);
        lemma_mod_differs(x, 3);
        lemma_mod_differs(x + 1, 3);
        lemma_mod_differs(x, 5);
        lemma_mod_differs(x + 1, 4);
    } else {
        crate::cpu_808x::alu::lemma_wrap_negative(hi_off - 4, 0x10000);
        let x = ss * 16 + hi_off;
        lemma_mod_differs(x, 0xFFFC);
        lemma_mod_differs(x, 0xFFFD);
        lemma_mod_differs(x + 1, 0xFFFB);
        lemma_mod_differs(x + 1, 0xFFFC);
    }
}

impl Cpu {
    /// Records a call on the shadow stack and marks its return address.
    pub fn push_call_stack(&mut self, e: CallStackEntry, cs: u16, ip: u16)
        ensures
            final(self)@ == old(self)@.call_noted(e, linear(cs, ip)),
            final(self).i == old(self).i,
            final(self).biu == old(self).biu,
    {
        let _ = self.call_stack.push(e);
        let ret = calc_linear_address(cs, ip);
        self.bus.set_flags(ret as usize, MEM_RET_BIT);
    }

    /// Unwinds the shadow stack to the return address `addr`.
    pub fn rewind_call_stack(&mut self, addr: u32)
        ensures
            final(self)@ == old(self)@.unwound(addr as int),
            final(self).i == old(self).i,
            final(self).biu == old(self).biu,
    {
        let gone = self.call_stack.rewind(addr);
        let ghost all = old(self)@.call_stack;
        let ghost kept = rewound(all, addr as int);
        proof {
            crate::cpu_808x::callstack::lemma_first_return_to(all, addr as int);
            assert(gone@ =~= all.subrange(kept.len() as int, all.len() as int)) by {
                assert(kept + gone@ == all);
                assert forall|k: int| 0 <= k < gone@.len() implies gone@[k] == all[kept.len() + k] by {
                    assert((kept + gone@)[kept.len() + k] == gone@[k]);
                }
            }
        }
        let mut k: usize = 0;
        proof {
            assert(gone@.subrange(0, gone@.len() as int) =~= gone@);
        }
        while k < gone.len()
            invariant
                k <= gone@.len(),
                marks_cleared(self@.mem_flags, gone@.subrange(k as int, gone@.len() as int))
                    == marks_cleared(old(self)@.mem_flags, gone@),
                self@ == (Arch { mem_flags: self@.mem_flags, call_stack: kept, ..old(self)@ }),
                self.i == old(self).i,
                self.biu == old(self).biu,
            decreases gone@.len() - k,
        {
            proof {
                let rest = gone@.subrange(k as int, gone@.len() as int);
                assert(rest[0] == gone@[k as int]);
                assert(rest.subrange(1, rest.len() as int) =~= gone@.subrange(
                    k + 1,
                    gone@.len() as int,
                ));
            }
            let a = gone[k].return_addr();
            self.bus.clear_flags(a as usize, MEM_RET_BIT);
            k = k + 1;
        }
        proof {
            assert(gone@.subrange(0, gone@.len() as int) =~= gone@);
        }
    }

    /// Reads the vector of interrupt `n`. Returns (segment, offset).
    fn read_vector(&mut self, n: u8) -> (v: (u16, u16))
        ensures
            v == old(self)@.vector(n),
            final(self).timing_only(old(self)),
    {
        let a: u32 = (n as u32) * 4;
        let ip = self.biu_read_u16(Segment::CS, a, ReadWriteFlag::Normal);
        let cs = self.biu_read_u16(Segment::CS, a + 2, ReadWriteFlag::Normal);
        (cs, ip)
    }

    /// Saves the flags and CS on the stack and clears the trap and interrupt
    /// flags.
    fn save_flags_and_cs(&mut self)
        ensures
            final(self)@ == ({
                let a = old(self)@.push_flags();
                let b = Arch { flags: Flags { trap: false, interrupt: false, ..a.flags }, ..a };
                b.push16(b.regs.cs)
            }),
            final(self).i == old(self).i,
    {
        self.biu_suspend_fetch();
        self.push_flags(ReadWriteFlag::Normal);
        self.flags = Flags { trap: false, interrupt: false, ..self.flags };
        let cs = self.regs.cs;
        self.push_u16(cs, ReadWriteFlag::Normal);
    }

    /// Loads CS:IP, flushes the queue and saves the return offset.
    fn enter_handler(&mut self, cs: u16, ip: u16)
        ensures
            final(self)@ == ({
                let c = old(self)@.push16(old(self).regs.ip);
                Arch {
                    regs: Registers { cs: cs, ip: ip, ..c.regs },
                    ctl: Control { halted: false, ..c.ctl },
                    ..c
                }
            }),
            final(self).i == old(self).i,
            final(self).queue_base() == ip,
    {
        let ret_ip = self.regs.ip;
        self.regs = Registers { cs: cs, ip: ip, ..self.regs };
        self.biu_queue_flush();
        self.push_u16(ret_ip, ReadWriteFlag::RNI);
        self.ctl = Control { halted: false, ..self.ctl };
    }

    /// Delivers interrupt `n`: the return address that is pushed is CS:IP as
    /// it stands.
    pub fn sw_interrupt(&mut self, n: u8)
        ensures
            final(self)@ == old(self)@.interrupted(n),
            final(self).i == old(self).i,
            final(self).queue_base() == final(self).regs.ip,
    {
        let ret_cs = self.regs.cs;
        let ret_ip = self.regs.ip;
        let (new_cs, new_ip) = self.read_vector(n);
        self.save_flags_and_cs();
        self.enter_handler(new_cs, new_ip);
        self.push_call_stack(
            CallStackEntry::Interrupt {
                ret_cs: ret_cs,
                ret_ip: ret_ip,
                call_cs: new_cs,
                call_ip: new_ip,
                number: n,
            },
            ret_cs,
            ret_ip,
        );
    }

    /// INT 3.
    pub fn int3(&mut self)
        ensures
            final(self)@ == old(self)@.interrupted(3),
            final(self).i == old(self).i,
            final(self).queue_base() == final(self).regs.ip,
    {
        self.sw_interrupt(3);
    }

    /// IRET: pops IP, CS and the flags.
    pub fn iret_routine(&mut self)
        ensures
            final(self)@ == old(self)@.iret(),
            final(self).i == old(self).i,
            final(self).queue_base() == final(self).regs.ip,
    {
        self.farret(true);
        self.pop_flags();
    }

    /// Asserts the non-maskable interrupt line.
    pub fn assert_nmi(&mut self)
        ensures
            *final(self) == (Cpu {
                ctl: Control { nmi: true, pending_interrupt: true, ..old(self).ctl },
                ..*old(self)
            }),
    {
        self.ctl.nmi = true;
        self.ctl.pending_interrupt = true;
    }

    /// Asserts the INTR line with vector `n`. The interrupt is pending at once
    /// if the interrupt flag is set.
    pub fn assert_intr(&mut self, n: u8)
        ensures
            *final(self) == (Cpu {
                ctl: Control {
                    intr: Some(n),
                    pending_interrupt: old(self).ctl.nmi || old(self).flags.interrupt,
                    ..old(self).ctl
                },
                ..*old(self)
            }),
    {
        self.ctl.intr = Some(n);
        self.ctl.pending_interrupt = self.ctl.nmi || self.flags.interrupt;
    }

    /// Releases the INTR line.
    pub fn deassert_intr(&mut self)
        ensures
            *final(self) == (Cpu {
                ctl: Control { intr: None, pending_interrupt: old(self).ctl.nmi, ..old(self).ctl },
                ..*old(self)
            }),
    {
        self.ctl.intr = None;
        self.ctl.pending_interrupt = self.ctl.nmi;
    }

    /// The vector on the INTR line, if the line is asserted and recognised.
    pub fn take_pending_irq(&self) -> (r: Option<u8>)
        ensures
            r == if self@.intr_recognised() {
                self.ctl.intr
            } else {
                None
            },
    {
        if self.flags.interrupt && !self.ctl.interrupt_inhibit && self.ctl.trap_enable_delay
            == 0 {
            self.ctl.intr
        } else {
            None
        }
    }

    /// Services the interrupt that is due at an instruction boundary and
    /// returns its number: the single-step trap before NMI, NMI before INTR.
    /// With nothing due, nothing changes.
    pub fn service_pending_interrupt(&mut self) -> (r: Option<u8>)
        ensures
            r == old(self)@.next_interrupt(),
            final(self)@ == old(self)@.serviced(),
            final(self).i == old(self).i,
            r is Some ==> final(self).queue_base() == final(self).regs.ip,
    {
        if self.flags.trap && !self.ctl.trap_suppressed && self.ctl.trap_enable_delay == 0 {
            self.sw_interrupt(1);
            return Some(1);
        }
        let due: Option<u8> = if self.ctl.nmi {
            Some(2)
        } else {
            self.take_pending_irq()
        };
        match due {
            Some(n) => {
                self.ctl = Control { nmi: false, pending_interrupt: false, ..self.ctl };
                self.sw_interrupt(n);
                Some(n)
            },
            None => None,
        }
    }
}

} // verus!
