//! The cycle driver and the bus primitives of the execution unit, on the CPU
//! aggregate. None of the cycle functions changes anything but the bus
//! interface unit; the bus primitives change, besides, what they transfer.
use vstd::prelude::*;
use crate::cpu_808x::biu::{add16, add64, lemma_step, lemma_steps, lemma_steps_i, BiuView, BusStatus, FetchState, QueueType, ReadWriteFlag};
use crate::cpu_808x::bus::{
    io_read16,
    io_read8,
    io_write16,
    io_write8,
    mem_read16,
    mem_read8,
    mem_write16,
    mem_write8,
};
use crate::cpu_808x::microcode::{next_line, MC_LAST};
use crate::cpu_808x::registers::{linear, make_word, Segment};
use crate::cpu_808x::state::{Arch, Cpu};

verus! {

impl Cpu {
    /// The offset in CS of the next byte that a queue read gives. A flush
    /// sets it to IP; a queue read moves it on by one; nothing else changes
    /// it.
    pub open spec fn queue_base(&self) -> u16 {
        self.biu@.base()
    }

    /// Only the bus interface unit differs from `other`.
    pub open spec fn timing_only(&self, other: &Cpu) -> bool {
        &&& self@ == other@
        &&& self.i == other.i
    }

    /// After a bus cycle that wrote no memory, the queue reads give what they
    /// gave.
    pub proof fn lemma_bus_cycle_keeps_code(
        b: BiuView,
        cs: u16,
        mem: Seq<u8>,
        status: BusStatus,
        rni: bool,
    )
        requires
            b.wf(),
            status != BusStatus::Passive,
            status != BusStatus::CodeFetch,
        ensures
            b.after_bus_cycle(cs, mem, status, rni).wf(),
            forall|i: int|
                i >= 0 ==> #[trigger] b.after_bus_cycle(cs, mem, status, rni).code_byte(cs, mem, i)
                    == b.code_byte(cs, mem, i),
            b.after_bus_cycle(cs, mem, status, rni).busy() == if rni {
                1nat
            } else {
                0nat
            },
            b.after_bus_cycle(cs, mem, status, rni).nx == b.nx,
            b.after_bus_cycle(cs, mem, status, rni).base() == b.base(),
            b.after_bus_cycle(cs, mem, status, rni).mc_pc == b.mc_pc,
            b.after_bus_cycle(cs, mem, status, rni).last_queue_op == b.last_queue_op,
    {
        reveal(BiuView::code_byte);
        lemma_steps(b, cs, mem, b.busy());
        let d = b.steps(cs, mem, b.busy());
        let e = b.after_bus_cycle(cs, mem, status, rni);
        assert forall|i: int| i >= 0 implies #[trigger] e.code_byte(cs, mem, i) == b.code_byte(
            cs,
            mem,
            i,
        ) by {
            assert(d.code_byte(cs, mem, i) == b.code_byte(cs, mem, i));
        }
    }

    /// The bytes that queue reads give depend on the queue, on whether a
    /// code fetch is on the bus, on its byte and on `pc` alone.
    pub proof fn lemma_code_frame(a: BiuView, b: BiuView, cs: u16, mem: Seq<u8>)
        requires
            a.queue == b.queue,
            (a.bus_status == BusStatus::CodeFetch) == (b.bus_status == BusStatus::CodeFetch),
            a.data_latch == b.data_latch,
            a.pc == b.pc,
        ensures
            forall|i: int| #[trigger] a.code_byte(cs, mem, i) == b.code_byte(cs, mem, i),
    {
        reveal(BiuView::code_byte);
    }

    /// Two states with the same bus interface unit, the same CS and the same
    /// memory give the same bytes to queue reads.
    pub proof fn lemma_same_code_frame(&self, other: &Cpu)
        requires
            self.biu@ == other.biu@,
            self.regs.cs == other.regs.cs,
            self@.mem == other@.mem,
        ensures
            self.same_code(other),
            self.code_after(other, 0),
    {
    }

    /// `same_code` is `code_after` with nothing taken.
    pub proof fn lemma_same_code_after(&self, other: &Cpu)
        ensures
            self.same_code(other) == self.code_after(other, 0),
    {
        if self.same_code(other) {
            assert forall|i: int| i >= 0 implies #[trigger] self.code_byte(i) == other.code_byte(
                i + 0,
            ) by {}
        }
        if self.code_after(other, 0) {
            assert forall|i: int| i >= 0 implies #[trigger] self.code_byte(i) == other.code_byte(
                i,
            ) by {
                assert(self.code_byte(i) == other.code_byte(i + 0));
            }
        }
    }

    /// `same_code` is transitive.
    pub proof fn lemma_same_code_trans(&self, mid: &Cpu, first: &Cpu)
        requires
            self.same_code(mid),
            mid.same_code(first),
        ensures
            self.same_code(first),
    {
        assert forall|i: int| i >= 0 implies #[trigger] self.code_byte(i) == first.code_byte(
            i,
        ) by {
            assert(self.code_byte(i) == mid.code_byte(i));
            assert(mid.code_byte(i) == first.code_byte(i));
        }
    }

    /// Runs one T-state.
    pub fn cycle(&mut self)
        ensures
            final(self).timing_only(old(self)),
            final(self).biu@ == old(self).biu@.step(old(self).regs.cs, old(self)@.mem),
            final(self).same_code(old(self)),
            final(self).queue_base() == old(self).queue_base(),
            final(self).biu@.cycle_num == add64(old(self).biu@.cycle_num, 1),
            final(self).biu@.nx == old(self).biu@.nx,
    {
        self.biu.consistent();
        proof {
            lemma_step(self.biu@, self.regs.cs, self@.mem);
        }
        self.biu.cycle(self.regs.cs, &self.bus);
    }

    /// Runs `n` T-states.
    pub fn cycles(&mut self, n: u32)
        ensures
            final(self).timing_only(old(self)),
            final(self).biu@ == old(self).biu@.steps(
                old(self).regs.cs,
                old(self)@.mem,
                n as nat,
            ),
            final(self).same_code(old(self)),
            final(self).queue_base() == old(self).queue_base(),
            final(self).biu@.cycle_num == add64(old(self).biu@.cycle_num, n as int),
    {
        self.biu.consistent();
        proof {
            lemma_steps(self.biu@, self.regs.cs, self@.mem, n as nat);
        }
        self.biu.cycles(n, self.regs.cs, &self.bus);
    }

    /// Records the microcode line that the next cycle retires.
    pub fn set_mc_pc(&mut self, mc: u16)
        ensures
            final(self).timing_only(old(self)),
            final(self).biu@ == (BiuView { mc_pc: mc, ..old(self).biu@ }),
            final(self).same_code(old(self)),
            final(self).queue_base() == old(self).queue_base(),
    {
        self.biu.set_mc_pc(mc);
        proof {
            Self::lemma_code_frame(self.biu@, old(self).biu@, self.regs.cs, self@.mem);
        }
    }

    /// Moves the recorded microcode line on by one.
    pub fn next_mc(&mut self)
        ensures
            final(self).timing_only(old(self)),
            final(self).biu@ == (BiuView {
                mc_pc: next_line(old(self).biu@.mc_pc),
                ..old(self).biu@
            }),
            final(self).same_code(old(self)),
            final(self).queue_base() == old(self).queue_base(),
    {
        let mc = self.biu.mc_pc();
        if mc < MC_LAST {
            self.biu.set_mc_pc(mc + 1);
        }
        proof {
            Self::lemma_code_frame(self.biu@, old(self).biu@, self.regs.cs, self@.mem);
        }
    }

    /// Runs one T-state that retires microcode line `mc`.
    pub fn cycle_i(&mut self, mc: u16)
        ensures
            final(self).timing_only(old(self)),
            final(self).biu@ == (BiuView { mc_pc: mc, ..old(self).biu@ }).step(
                old(self).regs.cs,
                old(self)@.mem,
            ),
            final(self).same_code(old(self)),
            final(self).queue_base() == old(self).queue_base(),
            final(self).biu@.cycle_num == add64(old(self).biu@.cycle_num, 1),
    {
        self.set_mc_pc(mc);
        self.cycle();
    }

    /// Runs `n` T-states that retire the lines `mc[0]`, `mc[1]`, ...
    pub fn cycles_i(&mut self, n: u32, mc: &[u16])
        requires
            n <= mc@.len(),
        ensures
            final(self).timing_only(old(self)),
            final(self).biu@ == old(self).biu@.steps_i(
                old(self).regs.cs,
                old(self)@.mem,
                mc@,
                n as nat,
            ),
            final(self).same_code(old(self)),
            final(self).queue_base() == old(self).queue_base(),
            final(self).biu@.cycle_num == add64(old(self).biu@.cycle_num, n as int),
    {
        proof {
            crate::cpu_808x::biu::lemma_add64_add(self.biu@.cycle_num, 0, 0);
        }
        self.biu.consistent();
        proof {
            lemma_steps_i(self.biu@, self.regs.cs, self@.mem, mc@, n as nat);
            lemma_steps(self.biu@, self.regs.cs, self@.mem, n as nat);
        }
        self.biu.cycles_i(n, mc, self.regs.cs, &self.bus);
        proof {
            let plain = old(self).biu@.steps(self.regs.cs, self@.mem, n as nat);
            Self::lemma_code_frame(self.biu@, plain, self.regs.cs, self@.mem);
            assert forall|i: int| i >= 0 implies #[trigger] self.code_byte(i) == old(
                self,
            ).code_byte(i) by {
                assert(plain.code_byte(self.regs.cs, self@.mem, i) == old(self).biu@.code_byte(
                    self.regs.cs,
                    self@.mem,
                    i,
                ));
            }
        }
    }

    /// Leaves the closing cycle of the instruction to the next one.
    pub fn cycle_nx(&mut self)
        ensures
            final(self).timing_only(old(self)),
            final(self).biu@ == (BiuView { nx: true, ..old(self).biu@ }),
            final(self).same_code(old(self)),
            final(self).queue_base() == old(self).queue_base(),
    {
        self.biu.set_nx(true);
        proof {
            Self::lemma_code_frame(self.biu@, old(self).biu@, self.regs.cs, self@.mem);
        }
    }

    /// As `cycle_nx`; the line is that of the cycle left over, which the next
    /// instruction retires.
    pub fn cycle_nx_i(&mut self, _mc: u16)
        ensures
            final(self).timing_only(old(self)),
            final(self).biu@ == (BiuView { nx: true, ..old(self).biu@ }),
            final(self).same_code(old(self)),
            final(self).queue_base() == old(self).queue_base(),
    {
        self.biu.set_nx(true);
        proof {
            Self::lemma_code_frame(self.biu@, old(self).biu@, self.regs.cs, self@.mem);
        }
    }

    /// Runs `ct - 1` T-states and leaves the last one to the next instruction.
    pub fn cycles_nx(&mut self, ct: u32)
        requires
            ct >= 1,
        ensures
            final(self).timing_only(old(self)),
            final(self).biu@ == (BiuView {
                nx: true,
                ..old(self).biu@.steps(old(self).regs.cs, old(self)@.mem, (ct - 1) as nat)
            }),
            final(self).same_code(old(self)),
            final(self).queue_base() == old(self).queue_base(),
            final(self).biu@.cycle_num == add64(old(self).biu@.cycle_num, ct - 1),
    {
        self.cycles(ct - 1);
        let ghost mid = *self;
        self.cycle_nx();
        proof {
            self.lemma_same_code_trans(&mid, old(self));
        }
    }

    /// Runs `ct - 1` annotated T-states and leaves the last one to the next
    /// instruction.
    pub fn cycles_nx_i(&mut self, ct: u32, mc: &[u16])
        requires
            ct >= 1,
            ct - 1 <= mc@.len(),
        ensures
            final(self).timing_only(old(self)),
            final(self).biu@ == (BiuView {
                nx: true,
                ..old(self).biu@.steps_i(
                    old(self).regs.cs,
                    old(self)@.mem,
                    mc@,
                    (ct - 1) as nat,
                )
            }),
            final(self).same_code(old(self)),
            final(self).queue_base() == old(self).queue_base(),
            final(self).biu@.cycle_num == add64(old(self).biu@.cycle_num, ct - 1),
    {
        self.cycles_i(ct - 1, mc);
        let ghost mid = *self;
        self.cycle_nx();
        proof {
            self.lemma_same_code_trans(&mid, old(self));
        }
    }

    /// Takes the next byte of the instruction stream from the queue.
    pub fn q_read_u8(&mut self, dtype: QueueType) -> (b: u8)
        ensures
            b == old(self).code_byte(0),
            final(self).timing_only(old(self)),
            final(self).code_after(old(self), 1),
            final(self).queue_base() == add16(old(self).queue_base(), 1),
            final(self).biu@.cycle_num == add64(
                old(self).biu@.cycle_num,
                (old(self).biu@.read_wait() + 1) as int,
            ),
            final(self).biu@.last_queue_op == old(self).biu@.read_op(dtype),
            final(self).biu@.nx == old(self).biu@.nx,
            old(self).biu@.queue.len() > 0 ==> final(self).biu@ == (BiuView {
                queue: old(self).biu@.queue.subrange(1, old(self).biu@.queue.len() as int),
                last_queue_op: old(self).biu@.read_op(dtype),
                ..old(self).biu@
            }).step(old(self).regs.cs, old(self)@.mem),
    {
        self.biu.q_read_u8(dtype, self.regs.cs, &self.bus)
    }

    /// Takes the next little-endian word of the instruction stream.
    pub fn q_read_u16(&mut self, dtype: QueueType) -> (w: u16)
        ensures
            w == old(self).code_word(0),
            final(self).timing_only(old(self)),
            final(self).code_after(old(self), 2),
            final(self).queue_base() == add16(old(self).queue_base(), 2),
            final(self).biu@.nx == old(self).biu@.nx,
    {
        proof {
            crate::cpu_808x::biu::lemma_add16_add(self.queue_base(), 1, 1);
        }
        let l = self.q_read_u8(dtype);
        let ghost mid = *self;
        let h = self.q_read_u8(QueueType::Subsequent);
        proof {
            assert(mid.code_byte(0) == old(self).code_byte(1));
            assert forall|i: int| i >= 0 implies #[trigger] self.code_byte(i) == old(
                self,
            ).code_byte(i + 2) by {
                assert(self.code_byte(i) == mid.code_byte(i + 1));
                assert(mid.code_byte(i + 1) == old(self).code_byte(i + 2));
            }
        }
        make_word(l, h)
    }

    /// Stops the prefetcher until the next flush. A code fetch that is on the
    /// bus is completed first.
    pub fn biu_suspend_fetch(&mut self)
        ensures
            final(self).timing_only(old(self)),
            final(self).biu@ == old(self).biu@.stopped(
                old(self).regs.cs,
                old(self)@.mem,
                FetchState::Suspended,
            ),
            final(self).same_code(old(self)),
            final(self).queue_base() == old(self).queue_base(),
    {
        self.biu.consistent();
        proof {
            lemma_steps(self.biu@, self.regs.cs, self@.mem, self.biu@.busy());
        }
        self.biu.stop(FetchState::Suspended, self.regs.cs, &self.bus);
        proof {
            let b = old(self).biu@;
            let d = if b.bus_status == BusStatus::CodeFetch {
                b.steps(self.regs.cs, self@.mem, b.busy())
            } else {
                b
            };
            Self::lemma_code_frame(self.biu@, d, self.regs.cs, self@.mem);
            assert forall|i: int| i >= 0 implies #[trigger] self.code_byte(i) == old(
                self,
            ).code_byte(i) by {
                assert(d.code_byte(self.regs.cs, self@.mem, i) == b.code_byte(
                    self.regs.cs,
                    self@.mem,
                    i,
                ));
            }
        }
    }

    /// Stops the prefetcher for HLT.
    pub fn biu_halt(&mut self)
        ensures
            final(self).timing_only(old(self)),
            final(self).biu@ == old(self).biu@.stopped(
                old(self).regs.cs,
                old(self)@.mem,
                FetchState::Halted,
            ),
            final(self).same_code(old(self)),
            final(self).queue_base() == old(self).queue_base(),
    {
        self.biu.consistent();
        proof {
            lemma_steps(self.biu@, self.regs.cs, self@.mem, self.biu@.busy());
        }
        self.biu.stop(FetchState::Halted, self.regs.cs, &self.bus);
        proof {
            let b = old(self).biu@;
            let d = if b.bus_status == BusStatus::CodeFetch {
                b.steps(self.regs.cs, self@.mem, b.busy())
            } else {
                b
            };
            Self::lemma_code_frame(self.biu@, d, self.regs.cs, self@.mem);
            assert forall|i: int| i >= 0 implies #[trigger] self.code_byte(i) == old(
                self,
            ).code_byte(i) by {
                assert(d.code_byte(self.regs.cs, self@.mem, i) == b.code_byte(
                    self.regs.cs,
                    self@.mem,
                    i,
                ));
            }
        }
    }

    /// Empties the queue and points the prefetcher at CS:IP. The next queue
    /// reads give memory from CS:IP on.
    pub fn biu_queue_flush(&mut self)
        ensures
            final(self).timing_only(old(self)),
            final(self).biu@ == old(self).biu@.flushed(old(self).regs.ip),
            final(self).biu@.queue.len() == 0,
            final(self).queue_base() == old(self).regs.ip,
            forall|i: int|
                i >= 0 ==> #[trigger] final(self).code_byte(i) == mem_read8(
                    old(self)@.mem,
                    linear(old(self).regs.cs, add16(old(self).regs.ip, i)),
                ),
    {
        proof {
            crate::cpu_808x::biu::lemma_add16_add(self.regs.ip, 0, 0);
            reveal(BiuView::code_byte);
        }
        self.biu.flush(self.regs.ip);
    }

    fn bus_read(&mut self, addr: u32, flag: ReadWriteFlag) -> (v: u8)
        ensures
            v == mem_read8(old(self)@.mem, addr as int),
            final(self).timing_only(old(self)),
            final(self).biu@ == old(self).biu@.after_bus_cycle(
                old(self).regs.cs,
                old(self)@.mem,
                BusStatus::MemRead,
                flag == ReadWriteFlag::RNI,
            ),
            final(self).same_code(old(self)),
            final(self).queue_base() == old(self).queue_base(),
    {
        self.biu.consistent();
        proof {
            Self::lemma_bus_cycle_keeps_code(
                self.biu@,
                self.regs.cs,
                self@.mem,
                BusStatus::MemRead,
                flag == ReadWriteFlag::RNI,
            );
        }
        self.biu.bus_cycle(BusStatus::MemRead, flag, self.regs.cs, &self.bus);
        self.bus.read_u8((addr % 0x100000) as usize)
    }

    /// Reads a byte from memory in a bus cycle of its own.
    pub fn biu_read_u8(&mut self, _seg: Segment, addr: u32) -> (v: u8)
        ensures
            v == mem_read8(old(self)@.mem, addr as int),
            final(self).timing_only(old(self)),
            final(self).biu@ == old(self).biu@.after_bus_cycle(
                old(self).regs.cs,
                old(self)@.mem,
                BusStatus::MemRead,
                false,
            ),
            final(self).same_code(old(self)),
            final(self).queue_base() == old(self).queue_base(),
    {
        self.bus_read(addr, ReadWriteFlag::Normal)
    }

    /// Reads a word from memory in two bus cycles, low byte first.
    pub fn biu_read_u16(&mut self, _seg: Segment, addr: u32, flag: ReadWriteFlag) -> (v: u16)
        ensures
            v == mem_read16(old(self)@.mem, addr as int),
            final(self).timing_only(old(self)),
            final(self).biu@ == old(self).biu@.after_bus_cycle(
                old(self).regs.cs,
                old(self)@.mem,
                BusStatus::MemRead,
                false,
            ).after_bus_cycle(
                old(self).regs.cs,
                old(self)@.mem,
                BusStatus::MemRead,
                flag == ReadWriteFlag::RNI,
            ),
            final(self).same_code(old(self)),
            final(self).queue_base() == old(self).queue_base(),
    {
        let a: u32 = addr % 0x100000;
        let l = self.bus_read(a, ReadWriteFlag::Normal);
        let ghost mid = *self;
        let h = self.bus_read(a + 1, flag);
        proof {
            self.lemma_same_code_trans(&mid, old(self));
            vstd::arithmetic::div_mod::lemma_add_mod_noop_right(1, addr as int, 0x100000);
            vstd::arithmetic::div_mod::lemma_mod_twice(addr as int, 0x100000);
        }
        make_word(l, h)
    }

    /// Writes a byte to memory in a bus cycle of its own.
    pub fn biu_write_u8(&mut self, _seg: Segment, addr: u32, v: u8, flag: ReadWriteFlag)
        ensures
            final(self)@ == (Arch { mem: mem_write8(old(self)@.mem, addr as int, v), ..old(self)@ }),
            final(self).i == old(self).i,
            final(self).biu@ == old(self).biu@.after_bus_cycle(
                old(self).regs.cs,
                old(self)@.mem,
                BusStatus::MemWrite,
                flag == ReadWriteFlag::RNI,
            ),
            final(self).queue_base() == old(self).queue_base(),
    {
        self.biu.consistent();
        proof {
            Self::lemma_bus_cycle_keeps_code(
                self.biu@,
                self.regs.cs,
                self@.mem,
                BusStatus::MemWrite,
                flag == ReadWriteFlag::RNI,
            );
        }
        self.biu.bus_cycle(BusStatus::MemWrite, flag, self.regs.cs, &self.bus);
        self.bus.write_u8((addr % 0x100000) as usize, v);
    }

    /// Writes a word to memory in two bus cycles, low byte first.
    pub fn biu_write_u16(&mut self, _seg: Segment, addr: u32, v: u16, flag: ReadWriteFlag)
        ensures
            final(self)@ == (Arch { mem: mem_write16(old(self)@.mem, addr as int, v), ..old(self)@ }),
            final(self).i == old(self).i,
            final(self).biu@ == old(self).biu@.after_bus_cycle(
                old(self).regs.cs,
                old(self)@.mem,
                BusStatus::MemWrite,
                false,
            ).after_bus_cycle(
                old(self).regs.cs,
                mem_write8(old(self)@.mem, addr as int, crate::cpu_808x::registers::lo(v)),
                BusStatus::MemWrite,
                flag == ReadWriteFlag::RNI,
            ),
            final(self).queue_base() == old(self).queue_base(),
    {
        let a: u32 = addr % 0x100000;
        proof {
            vstd::arithmetic::div_mod::lemma_add_mod_noop_right(1, addr as int, 0x100000);
            vstd::arithmetic::div_mod::lemma_mod_twice(addr as int, 0x100000);
        }
        self.biu_write_u8(_seg, a, (v % 256) as u8, ReadWriteFlag::Normal);
        self.biu_write_u8(_seg, a + 1, (v / 256) as u8, flag);
    }

    /// Reads a byte from an I/O port.
    pub fn biu_io_read_u8(&mut self, port: u16) -> (v: u8)
        ensures
            v == io_read8(old(self)@.io_in, port as int),
            final(self).timing_only(old(self)),
            final(self).biu@ == old(self).biu@.after_bus_cycle(
                old(self).regs.cs,
                old(self)@.mem,
                BusStatus::IoRead,
                false,
            ),
            final(self).same_code(old(self)),
            final(self).queue_base() == old(self).queue_base(),
    {
        self.biu.consistent();
        proof {
            Self::lemma_bus_cycle_keeps_code(
                self.biu@,
                self.regs.cs,
                self@.mem,
                BusStatus::IoRead,
                false,
            );
        }
        self.biu.bus_cycle(BusStatus::IoRead, ReadWriteFlag::Normal, self.regs.cs, &self.bus);
        self.bus.io_read_u8(port)
    }

    /// Reads a word from the I/O space: two byte cycles, on `port` and on the
    /// port after it.
    pub fn biu_io_read_u16(&mut self, port: u16) -> (v: u16)
        ensures
            v == io_read16(old(self)@.io_in, port as int),
            final(self).timing_only(old(self)),
            final(self).biu@ == old(self).biu@.after_bus_cycle(
                old(self).regs.cs,
                old(self)@.mem,
                BusStatus::IoRead,
                false,
            ).after_bus_cycle(old(self).regs.cs, old(self)@.mem, BusStatus::IoRead, false),
            final(self).same_code(old(self)),
            final(self).queue_base() == old(self).queue_base(),
    {
        let l = self.biu_io_read_u8(port);
        let ghost mid = *self;
        let h = self.biu_io_read_u8(port.wrapping_add(1));
        proof {
            assert forall|i: int| i >= 0 implies #[trigger] self.code_byte(i) == old(
                self,
            ).code_byte(i) by {
                assert(mid.code_byte(i) == old(self).code_byte(i));
            }
        }
        make_word(l, h)
    }

    /// Writes a byte to an I/O port.
    pub fn biu_io_write_u8(&mut self, port: u16, v: u8, flag: ReadWriteFlag)
        ensures
            final(self)@ == (Arch { io_out: io_write8(old(self)@.io_out, port as int, v), ..old(self)@ }),
            final(self).i == old(self).i,
            final(self).biu@ == old(self).biu@.after_bus_cycle(
                old(self).regs.cs,
                old(self)@.mem,
                BusStatus::IoWrite,
                flag == ReadWriteFlag::RNI,
            ),
            final(self).same_code(old(self)),
            final(self).queue_base() == old(self).queue_base(),
    {
        self.biu.consistent();
        proof {
            Self::lemma_bus_cycle_keeps_code(
                self.biu@,
                self.regs.cs,
                self@.mem,
                BusStatus::IoWrite,
                flag == ReadWriteFlag::RNI,
            );
        }
        self.biu.bus_cycle(BusStatus::IoWrite, flag, self.regs.cs, &self.bus);
        self.bus.io_write_u8(port, v);
    }

    /// Writes a word to the I/O space: two byte cycles, the low byte to `port`
    /// and the high byte to the port after it.
    pub fn biu_io_write_u16(&mut self, port: u16, v: u16, flag: ReadWriteFlag)
        ensures
            final(self)@ == (Arch { io_out: io_write16(old(self)@.io_out, port as int, v), ..old(self)@ }),
            final(self).i == old(self).i,
            final(self).biu@ == old(self).biu@.after_bus_cycle(
                old(self).regs.cs,
                old(self)@.mem,
                BusStatus::IoWrite,
                false,
            ).after_bus_cycle(
                old(self).regs.cs,
                old(self)@.mem,
                BusStatus::IoWrite,
                flag == ReadWriteFlag::RNI,
            ),
            final(self).same_code(old(self)),
            final(self).queue_base() == old(self).queue_base(),
    {
        self.biu_io_write_u8(port, (v % 256) as u8, ReadWriteFlag::Normal);
        let ghost mid = *self;
        self.biu_io_write_u8(port.wrapping_add(1), (v / 256) as u8, flag);
        proof {
            assert forall|i: int| i >= 0 implies #[trigger] self.code_byte(i) == old(
                self,
            ).code_byte(i) by {
                assert(mid.code_byte(i) == old(self).code_byte(i));
            }
        }
    }
}

} // verus!
