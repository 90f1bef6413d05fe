//! Transfers of control: relative jumps and returns. Each of them stops the
//! prefetcher, loads the new location and flushes the queue, so that the queue
//! never holds a byte of the path that was left.
use vstd::prelude::*;
use crate::cpu_808x::biu::{add16, lemma_steps, lemma_steps_i, offset_add, BiuView};

use crate::cpu_808x::microcode::{MC_CORR, MC_JUMP, MC_RTN};
use crate::cpu_808x::registers::{Register16, Registers};
use crate::cpu_808x::state::{Arch, Cpu};

verus! {

/// The target of a relative jump: the displacement is counted from the end of
/// the instruction.
pub open spec fn rel_target(ip: u16, size: u16, disp: u16) -> u16 {
    add16(add16(ip, size as int), disp as int)
}

/// `base + offset` inside 64K, for a displacement given as a word.
pub fn relative_offset_u16(base: u16, offset: u16) -> (r: u16)
    ensures
        r == add16(base, offset as int),
{
    offset_add(base, offset)
}

/// For three T-states after a flush the queue stays empty: the first fetch
/// takes four.
pub proof fn lemma_flushed_steps(b: BiuView, ip: u16, cs: u16, mem: Seq<u8>, n: nat)
    requires
        b.wf(),
        n <= 3,
    ensures
        b.flushed(ip).wf(),
        b.flushed(ip).steps(cs, mem, n).queue.len() == 0,
        b.flushed(ip).steps(cs, mem, n).base() == ip,
        b.flushed(ip).steps(cs, mem, n).wf(),
{
    reveal(BiuView::step);
    let f = b.flushed(ip);
    crate::cpu_808x::biu::lemma_add16_add(ip, 0, 0);
    lemma_steps(f, cs, mem, n);
    reveal_with_fuel(BiuView::steps, 4);
    assert(f.queue.len() == 0);
    assert(f.steps(cs, mem, n).queue.len() == 0);
}

impl Arch {
    /// The state after a jump inside the segment.
    pub open spec fn jumped(self, ip: u16) -> Arch {
        Arch { regs: Registers { ip: ip, ..self.regs }, ..self }
    }

    /// The state after a far jump.
    pub open spec fn jumped_far(self, cs: u16, ip: u16) -> Arch {
        Arch { regs: Registers { cs: cs, ip: ip, ..self.regs }, ..self }
    }

    /// The state after a return: IP is popped, and for a far return CS after
    /// it.
    pub open spec fn returned(self, far: bool) -> Arch {
        if far {
            self.pop_reg(Register16::IP).pop_reg(Register16::CS)
        } else {
            self.pop_reg(Register16::IP)
        }
    }
}

impl Cpu {
    /// The queue is empty and the prefetcher points at CS:IP: what a flush
    /// leaves, and what holds for up to three T-states after it.
    pub open spec fn flushed(&self) -> bool {
        &&& self.biu@.queue.len() == 0
        &&& self.queue_base() == self.regs.ip
    }

    /// Flushes the queue and runs up to three annotated T-states.
    pub fn flush_and_cycles(&mut self, n: u32, mc: &[u16])
        requires
            n <= 3,
            n <= mc@.len(),
        ensures
            final(self).timing_only(old(self)),
            final(self).flushed(),
    {
        self.biu.consistent();
        proof {
            let f = self.biu@.flushed(self.regs.ip);
            lemma_flushed_steps(self.biu@, self.regs.ip, self.regs.cs, self@.mem, n as nat);
            lemma_steps_i(f, self.regs.cs, self@.mem, mc@, n as nat);
        }
        self.biu_queue_flush();
        self.cycles_i(n, mc);
    }

    /// Jumps inside the segment. `jump` says that the microcode got here by a
    /// jump of its own, which costs one more cycle.
    pub fn reljmp(&mut self, new_ip: u16, jump: bool)
        ensures
            final(self)@ == old(self)@.jumped(new_ip),
            final(self).i == old(self).i,
            final(self).flushed(),
    {
        if jump {
            self.cycle_i(MC_JUMP);
        }
        self.biu_suspend_fetch();
        self.cycles_i(3, &[0x0d2, 0x0d3, MC_CORR]);
        self.regs.ip = new_ip;
        self.flush_and_cycles(1, &[0x0d5]);
    }

    /// Returns: pops IP, and CS too when `far`, then flushes the queue.
    pub fn farret(&mut self, far: bool)
        ensures
            final(self)@ == old(self)@.returned(far),
            final(self).i == old(self).i,
            final(self).flushed(),
    {
        self.pop_register16(Register16::IP, crate::cpu_808x::biu::ReadWriteFlag::Normal);
        self.biu_suspend_fetch();
        self.cycles_i(2, &[0x0c3, 0x0c4]);
        if far {
            self.pop_register16(Register16::CS, crate::cpu_808x::biu::ReadWriteFlag::Normal);
        }
        self.flush_and_cycles(2, &[0x0c5, MC_RTN]);
    }
}

} // verus!
