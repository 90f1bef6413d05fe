//! The bus interface unit: the prefetch queue, the T-state machine of the
//! bus, and the arbitration between code fetches and the bus cycles that the
//! execution unit asks for.
use vstd::prelude::*;
use crate::cpu_808x::bus::{mem_read8, Bus};
use crate::cpu_808x::queue::PrefetchQueue;
use crate::cpu_808x::registers::{calc_linear_address, linear};

verus! {

/// The T-state that the bus is in. `Ti` is the idle state of a passive bus.
#[derive(Clone, Copy, Debug, PartialEq, Eq, Structural)]
pub enum TCycle {
    Ti,
    T1,
    T2,
    T3,
    T4,
}

/// What the bus is doing.
#[derive(Clone, Copy, Debug, PartialEq, Eq, Structural)]
pub enum BusStatus {
    Passive,
    CodeFetch,
    MemRead,
    MemWrite,
    IoRead,
    IoWrite,
}

/// The state of the prefetcher. `Idle`: free to fetch when the bus is passive
/// and the queue has room. `Fetching`: a code fetch is on the bus.
/// `Suspended`: stopped by the execution unit until the next flush.
/// `Halted`: stopped by HLT.
#[derive(Clone, Copy, Debug, PartialEq, Eq, Structural)]
pub enum FetchState {
    Idle,
    Fetching,
    Suspended,
    Halted,
}

/// What happened to the queue in a cycle. `First`: the first byte of an
/// instruction was taken. `Subsequent`: a later byte was taken.
#[derive(Clone, Copy, Debug, PartialEq, Eq, Structural)]
pub enum QueueOp {
    Idle,
    First,
    Subsequent,
    Flush,
}

/// Whether a queue read takes the first byte of an instruction.
#[derive(Clone, Copy, Debug, PartialEq, Eq, Structural)]
pub enum QueueType {
    First,
    Subsequent,
}

/// `RNI` marks the last bus event of an instruction: the call returns once the
/// transfer is made, and the closing T-state overlaps what comes next.
#[derive(Clone, Copy, Debug, PartialEq, Eq, Structural)]
pub enum ReadWriteFlag {
    Normal,
    RNI,
}

/// The bus interface unit.
#[derive(Clone, Copy, Debug)]
pub struct Biu {
    queue: PrefetchQueue,
    t_cycle: TCycle,
    bus_status: BusStatus,
    fetch_state: FetchState,
    queue_op: QueueOp,
    last_queue_op: QueueOp,
    pc: u16,
    data_latch: u8,
    nx: bool,
    mc_pc: u16,
    cycle_num: u64,
    instr_cycle: u32,
}

/// What the bus interface unit holds.
pub struct BiuView {
    /// The queued bytes, oldest first.
    pub queue: Seq<u8>,
    /// The T-state that the next cycle runs.
    pub t_cycle: TCycle,
    pub bus_status: BusStatus,
    pub fetch_state: FetchState,
    /// The queue operation of the cycle that ran last.
    pub queue_op: QueueOp,
    /// The last read or flush of the queue.
    pub last_queue_op: QueueOp,
    /// The offset in CS of the next byte that enters the queue.
    pub pc: u16,
    /// The byte of the code fetch that is on the bus.
    pub data_latch: u8,
    /// The previous instruction left its last cycle to this one.
    pub nx: bool,
    /// The microcode line of the cycle that ran last.
    pub mc_pc: u16,
    /// T-states since reset, modulo 2^64.
    pub cycle_num: u64,
    /// T-states since the host last cleared the count, modulo 2^32.
    pub instr_cycle: u32,
}

impl View for Biu {
    type V = BiuView;

    closed spec fn view(&self) -> BiuView {
        BiuView {
            queue: self.queue@,
            t_cycle: self.t_cycle,
            bus_status: self.bus_status,
            fetch_state: self.fetch_state,
            queue_op: self.queue_op,
            last_queue_op: self.last_queue_op,
            pc: self.pc,
            data_latch: self.data_latch,
            nx: self.nx,
            mc_pc: self.mc_pc,
            cycle_num: self.cycle_num,
            instr_cycle: self.instr_cycle,
        }
    }
}

/// `c` advanced by `n` T-states.
pub open spec fn add64(c: u64, n: int) -> u64 {
    ((c + n) % 0x1_0000_0000_0000_0000) as u64
}

pub open spec fn add32(c: u32, n: int) -> u32 {
    ((c + n) % 0x1_0000_0000) as u32
}

/// `off` moved by `n` inside a 64K segment.
pub open spec fn add16(off: u16, n: int) -> u16 {
    ((off + n) % 0x10000) as u16
}

/// Moving an offset twice is moving it once by the sum.
pub proof fn lemma_add16_add(off: u16, a: int, b: int)
    ensures
        add16(add16(off, a), b) == add16(off, a + b),
        add16(off, 0) == off,
{
    vstd::arithmetic::div_mod::lemma_add_mod_noop_right(b, off + a, 0x10000);
    vstd::arithmetic::div_mod::lemma_small_mod(off as nat, 0x10000);
}

/// Counting T-states twice is counting their sum.
pub proof fn lemma_add64_add(c: u64, a: int, b: int)
    ensures
        add64(add64(c, a), b) == add64(c, a + b),
        add64(c, 0) == c,
{
    vstd::arithmetic::div_mod::lemma_add_mod_noop_right(b, c + a, 0x1_0000_0000_0000_0000);
    vstd::arithmetic::div_mod::lemma_small_mod(c as nat, 0x1_0000_0000_0000_0000);
}

pub proof fn lemma_add32_add(c: u32, a: int, b: int)
    ensures
        add32(add32(c, a), b) == add32(c, a + b),
        add32(c, 0) == c,
{
    vstd::arithmetic::div_mod::lemma_add_mod_noop_right(b, c + a, 0x1_0000_0000);
    vstd::arithmetic::div_mod::lemma_small_mod(c as nat, 0x1_0000_0000);
}

/// `off + n` inside a 64K segment.
pub fn offset_add(off: u16, n: u16) -> (r: u16)
    ensures
        r == add16(off, n as int),
{
    let s: u32 = off as u32 + n as u32;
    (s % 0x10000) as u16
}

/// `off - n` inside a 64K segment.
pub fn offset_sub(off: u16, n: u16) -> (r: u16)
    ensures
        r == add16(off, -(n as int)),
{
    if off >= n {
        off - n
    } else {
        proof {
            crate::cpu_808x::alu::lemma_wrap_negative(off - n, 0x10000);
        }
        ((off as u32 + 0x10000) - n as u32) as u16
    }
}

impl BiuView {
    pub open spec fn wf(self) -> bool {
        &&& self.queue.len() <= 4
        &&& self.bus_status == BusStatus::CodeFetch ==> {
            &&& self.fetch_state == FetchState::Fetching
            &&& self.queue.len() < 4
            &&& (self.t_cycle == TCycle::T2 || self.t_cycle == TCycle::T3 || self.t_cycle
                == TCycle::T4)
        }
        &&& self.bus_status != BusStatus::CodeFetch ==> self.fetch_state != FetchState::Fetching
        &&& self.bus_status == BusStatus::Passive ==> self.t_cycle == TCycle::Ti
        &&& (self.bus_status != BusStatus::Passive && self.bus_status != BusStatus::CodeFetch)
            ==> self.t_cycle == TCycle::T4
    }

    /// The counters after one more T-state.
    pub open spec fn tick(self) -> BiuView {
        BiuView {
            cycle_num: add64(self.cycle_num, 1),
            instr_cycle: add32(self.instr_cycle, 1),
            queue_op: QueueOp::Idle,
            ..self
        }
    }

    /// One T-state.
    ///
    /// - On a passive bus a code fetch starts when the prefetcher is idle and
    ///   the queue has room; the byte is taken from `cs:pc`.
    /// - A code fetch takes four T-states; at the end of the fourth the byte
    ///   enters the queue and `pc` moves on.
    /// - A bus cycle of the execution unit that was left in its closing
    ///   T-state ends.
    #[verifier::opaque]
    pub open spec fn step(self, cs: u16, mem: Seq<u8>) -> BiuView {
        (match self.bus_status {
            BusStatus::CodeFetch => match self.t_cycle {
                TCycle::T2 => BiuView { t_cycle: TCycle::T3, ..self },
                TCycle::T3 => BiuView { t_cycle: TCycle::T4, ..self },
                _ => BiuView {
                    queue: self.queue.push(self.data_latch),
                    pc: add16(self.pc, 1),
                    bus_status: BusStatus::Passive,
                    fetch_state: FetchState::Idle,
                    t_cycle: TCycle::Ti,
                    ..self
                },
            },
            BusStatus::Passive => if self.fetch_state == FetchState::Idle && self.queue.len()
                < 4 {
                BiuView {
                    bus_status: BusStatus::CodeFetch,
                    fetch_state: FetchState::Fetching,
                    t_cycle: TCycle::T2,
                    data_latch: mem_read8(mem, linear(cs, self.pc)),
                    ..self
                }
            } else {
                self
            },
            _ => BiuView { bus_status: BusStatus::Passive, t_cycle: TCycle::Ti, ..self },
        }).tick()
    }

    /// `n` T-states.
    pub open spec fn steps(self, cs: u16, mem: Seq<u8>, n: nat) -> BiuView
        decreases n,
    {
        if n == 0 {
            self
        } else {
            self.step(cs, mem).steps(cs, mem, (n - 1) as nat)
        }
    }

    /// `n` T-states, the `k`-th of them annotated with the microcode line
    /// `mc[k]`.
    pub open spec fn steps_i(self, cs: u16, mem: Seq<u8>, mc: Seq<u16>, n: nat) -> BiuView
        decreases n,
    {
        if n == 0 {
            self
        } else {
            (BiuView { mc_pc: mc[0], ..self }).step(cs, mem).steps_i(
                cs,
                mem,
                mc.subrange(1, mc.len() as int),
                (n - 1) as nat,
            )
        }
    }

    /// The T-states until the bus is free for the execution unit.
    pub open spec fn busy(self) -> nat {
        if self.bus_status == BusStatus::Passive {
            0
        } else if self.bus_status == BusStatus::CodeFetch {
            if self.t_cycle == TCycle::T2 {
                3
            } else if self.t_cycle == TCycle::T3 {
                2
            } else {
                1
            }
        } else {
            1
        }
    }

    /// The state when a bus cycle of the execution unit has run: first the bus
    /// is left to finish what it is doing, then the cycle takes four T-states,
    /// or three where the closing one is left to overlap (`rni`).
    pub open spec fn after_bus_cycle(
        self,
        cs: u16,
        mem: Seq<u8>,
        status: BusStatus,
        rni: bool,
    ) -> BiuView {
        let d = self.steps(cs, mem, self.busy());
        if rni {
            BiuView {
                bus_status: status,
                t_cycle: TCycle::T4,
                cycle_num: add64(d.cycle_num, 3),
                instr_cycle: add32(d.instr_cycle, 3),
                queue_op: QueueOp::Idle,
                ..d
            }
        } else {
            BiuView {
                cycle_num: add64(d.cycle_num, 4),
                instr_cycle: add32(d.instr_cycle, 4),
                queue_op: QueueOp::Idle,
                ..d
            }
        }
    }

    /// The state after the prefetcher was stopped: a code fetch that is on the
    /// bus is completed first.
    pub open spec fn stopped(self, cs: u16, mem: Seq<u8>, state: FetchState) -> BiuView {
        let d = if self.bus_status == BusStatus::CodeFetch {
            self.steps(cs, mem, self.busy())
        } else {
            self
        };
        BiuView { fetch_state: state, ..d }
    }

    /// The state after a flush: the queue is empty, a code fetch that was on
    /// the bus is dropped, and the prefetcher is free to fetch from `cs:ip`.
    pub open spec fn flushed(self, ip: u16) -> BiuView {
        if self.bus_status == BusStatus::CodeFetch {
            BiuView {
                queue: Seq::empty(),
                bus_status: BusStatus::Passive,
                t_cycle: TCycle::Ti,
                fetch_state: FetchState::Idle,
                pc: ip,
                queue_op: QueueOp::Flush,
                last_queue_op: QueueOp::Flush,
                ..self
            }
        } else {
            BiuView {
                queue: Seq::empty(),
                fetch_state: FetchState::Idle,
                pc: ip,
                queue_op: QueueOp::Flush,
                last_queue_op: QueueOp::Flush,
                ..self
            }
        }
    }

    /// The `i`-th byte that a queue read will give, counting from zero, while
    /// nothing writes to memory or to CS: first the queued bytes, then the
    /// byte of the fetch that is on the bus, then memory from `cs:pc` on.
    #[verifier::opaque]
    pub open spec fn code_byte(self, cs: u16, mem: Seq<u8>, i: int) -> u8 {
        if i < self.queue.len() {
            self.queue[i]
        } else if self.bus_status == BusStatus::CodeFetch {
            if i == self.queue.len() {
                self.data_latch
            } else {
                mem_read8(mem, linear(cs, add16(self.pc, i - self.queue.len())))
            }
        } else {
            mem_read8(mem, linear(cs, add16(self.pc, i - self.queue.len())))
        }
    }

    /// The T-states that a queue read waits for a byte: none while the queue
    /// holds one; else what is left of the code fetch on the bus, or the
    /// four T-states of a new fetch after the bus has finished what it is
    /// doing.
    pub open spec fn read_wait(self) -> nat {
        if self.queue.len() > 0 {
            0
        } else if self.bus_status == BusStatus::CodeFetch {
            self.busy()
        } else {
            self.busy() + 4
        }
    }

    /// The offset in CS of the byte at the head of the queue, that is, of the
    /// next byte that a queue read gives.
    pub open spec fn base(self) -> u16 {
        add16(self.pc, -(self.queue.len() as int))
    }

    /// What a queue read records as its operation: the first byte after a
    /// flush counts as a first byte, whatever the reader asked for.
    pub open spec fn read_op(self, dtype: QueueType) -> QueueOp {
        if dtype == QueueType::First || self.last_queue_op == QueueOp::Flush {
            QueueOp::First
        } else {
            QueueOp::Subsequent
        }
    }
}

/// A T-state keeps the invariant and the bytes that queue reads will give.
pub proof fn lemma_step(b: BiuView, cs: u16, mem: Seq<u8>)
    requires
        b.wf(),
    ensures
        b.step(cs, mem).wf(),
        forall|i: int|
            i >= 0 ==> #[trigger] b.step(cs, mem).code_byte(cs, mem, i) == b.code_byte(cs, mem, i),
        b.step(cs, mem).nx == b.nx,
        b.step(cs, mem).mc_pc == b.mc_pc,
        b.step(cs, mem).last_queue_op == b.last_queue_op,
        b.step(cs, mem).cycle_num == add64(b.cycle_num, 1),
        b.step(cs, mem).instr_cycle == add32(b.instr_cycle, 1),
        b.step(cs, mem).busy() == if b.busy() > 0 {
            (b.busy() - 1) as nat
        } else if b.step(cs, mem).bus_status == BusStatus::CodeFetch {
            3nat
        } else {
            0nat
        },
        b.step(cs, mem).pc == add16(b.pc, b.step(cs, mem).queue.len() - b.queue.len()),
        b.step(cs, mem).base() == b.base(),
        b.queue.len() <= b.step(cs, mem).queue.len() <= b.queue.len() + 1,
        b.fetch_state == FetchState::Suspended || b.fetch_state == FetchState::Halted ==> b.step(
            cs,
            mem,
        ).fetch_state == b.fetch_state && b.step(cs, mem).queue == b.queue,
{
    reveal(BiuView::step);
    reveal(BiuView::code_byte);
    let s = b.step(cs, mem);
    lemma_add16_add(b.pc, 0, 0);
    lemma_add16_add(b.pc, s.queue.len() - b.queue.len(), -(s.queue.len() as int));
    assert forall|i: int| i >= 0 implies #[trigger] s.code_byte(cs, mem, i) == b.code_byte(
        cs,
        mem,
        i,
    ) by {
        if b.bus_status == BusStatus::CodeFetch && b.t_cycle != TCycle::T2 && b.t_cycle
            != TCycle::T3 {
            if i > b.queue.len() {
                lemma_add16_add(b.pc, 1, i - b.queue.len() - 1);
            }
        }
    }
}

/// Any number of T-states keeps the invariant and the bytes that queue reads
/// will give, and counts as many.
pub proof fn lemma_steps(b: BiuView, cs: u16, mem: Seq<u8>, n: nat)
    requires
        b.wf(),
    ensures
        b.steps(cs, mem, n).wf(),
        forall|i: int|
            i >= 0 ==> #[trigger] b.steps(cs, mem, n).code_byte(cs, mem, i) == b.code_byte(
                cs,
                mem,
                i,
            ),
        b.steps(cs, mem, n).nx == b.nx,
        b.steps(cs, mem, n).mc_pc == b.mc_pc,
        b.steps(cs, mem, n).last_queue_op == b.last_queue_op,
        b.steps(cs, mem, n).cycle_num == add64(b.cycle_num, n as int),
        b.steps(cs, mem, n).instr_cycle == add32(b.instr_cycle, n as int),
        b.steps(cs, mem, n).pc == add16(b.pc, b.steps(cs, mem, n).queue.len() - b.queue.len()),
        b.steps(cs, mem, n).base() == b.base(),
        b.queue.len() <= b.steps(cs, mem, n).queue.len(),
        n <= b.busy() ==> b.steps(cs, mem, n).busy() == b.busy() - n,
        b.fetch_state == FetchState::Suspended || b.fetch_state == FetchState::Halted ==> b.steps(
            cs,
            mem,
            n,
        ).fetch_state == b.fetch_state && b.steps(cs, mem, n).queue == b.queue,
    decreases n,
{
    lemma_add64_add(b.cycle_num, 0, 0);
    lemma_add32_add(b.instr_cycle, 0, 0);
    lemma_add16_add(b.pc, 0, 0);
    if n > 0 {
        let s = b.step(cs, mem);
        lemma_step(b, cs, mem);
        lemma_steps(s, cs, mem, (n - 1) as nat);
        let e = s.steps(cs, mem, (n - 1) as nat);
        lemma_add64_add(b.cycle_num, 1, n - 1);
        lemma_add32_add(b.instr_cycle, 1, n - 1);
        lemma_add16_add(b.pc, s.queue.len() - b.queue.len(), e.queue.len() - s.queue.len());
        assert forall|i: int| i >= 0 implies #[trigger] e.code_byte(cs, mem, i) == b.code_byte(
            cs,
            mem,
            i,
        ) by {
            assert(s.code_byte(cs, mem, i) == b.code_byte(cs, mem, i));
        }
    }
}

/// The annotations of `steps_i` change nothing but the recorded line.
pub proof fn lemma_steps_i(b: BiuView, cs: u16, mem: Seq<u8>, mc: Seq<u16>, n: nat)
    requires
        n <= mc.len(),
    ensures
        n > 0 ==> b.steps_i(cs, mem, mc, n) == (BiuView {
            mc_pc: mc[n - 1],
            ..b.steps(cs, mem, n)
        }),
        n == 0 ==> b.steps_i(cs, mem, mc, n) == b,
    decreases n,
{
    if n > 0 {
        let b1 = BiuView { mc_pc: mc[0], ..b };
        let rest = mc.subrange(1, mc.len() as int);
        lemma_steps_i(b1.step(cs, mem), cs, mem, rest, (n - 1) as nat);
        lemma_mc_commutes(b, cs, mem, mc[0], n);
        if n > 1 {
            assert(rest[n - 2] == mc[n - 1]);
            lemma_mc_commutes(b.step(cs, mem), cs, mem, mc[0], (n - 1) as nat);
        }
    }
}

/// The recorded microcode line has no effect on what the bus does.
pub proof fn lemma_mc_commutes(b: BiuView, cs: u16, mem: Seq<u8>, m: u16, n: nat)
    ensures
        (BiuView { mc_pc: m, ..b }).steps(cs, mem, n) == (BiuView {
            mc_pc: m,
            ..b.steps(cs, mem, n)
        }),
    decreases n,
{
    reveal(BiuView::step);
    if n > 0 {
        lemma_mc_commutes(b.step(cs, mem), cs, mem, m, (n - 1) as nat);
    }
}

impl Biu {
    /// The invariant of the state machine.
    #[verifier::type_invariant]
    pub open spec fn inv(&self) -> bool {
        self@.wf()
    }

    /// States the invariant for a caller's proof. Does nothing when run.
    pub fn consistent(&self)
        ensures
            self@.wf(),
    {
        proof {
            use_type_invariant(self);
        }
    }

    /// The unit after reset: queue empty, bus passive, prefetcher free to
    /// fetch from offset 0, all counters zero.
    pub fn new() -> (b: Biu)
        ensures
            b@ == (BiuView {
                queue: Seq::empty(),
                t_cycle: TCycle::Ti,
                bus_status: BusStatus::Passive,
                fetch_state: FetchState::Idle,
                queue_op: QueueOp::Idle,
                last_queue_op: QueueOp::Idle,
                pc: 0,
                data_latch: 0,
                nx: false,
                mc_pc: 0,
                cycle_num: 0,
                instr_cycle: 0,
            }),
    {
        let q = PrefetchQueue::new();
        assert(q@ =~= Seq::<u8>::empty());
        Biu {
            queue: q,
            t_cycle: TCycle::Ti,
            bus_status: BusStatus::Passive,
            fetch_state: FetchState::Idle,
            queue_op: QueueOp::Idle,
            last_queue_op: QueueOp::Idle,
            pc: 0,
            data_latch: 0,
            nx: false,
            mc_pc: 0,
            cycle_num: 0,
            instr_cycle: 0,
        }
    }

    pub fn queue_len(&self) -> (n: usize)
        ensures
            n == self@.queue.len(),
            n <= 4,
    {
        self.queue.len()
    }

    pub fn last_queue_op(&self) -> (op: QueueOp)
        ensures
            op == self@.last_queue_op,
    {
        self.last_queue_op
    }

    pub fn nx(&self) -> (b: bool)
        ensures
            b == self@.nx,
    {
        self.nx
    }

    pub fn mc_pc(&self) -> (m: u16)
        ensures
            m == self@.mc_pc,
    {
        self.mc_pc
    }

    pub fn t_cycle(&self) -> (t: TCycle)
        ensures
            t == self@.t_cycle,
    {
        self.t_cycle
    }

    pub fn bus_status(&self) -> (s: BusStatus)
        ensures
            s == self@.bus_status,
    {
        self.bus_status
    }

    pub fn fetch_state(&self) -> (s: FetchState)
        ensures
            s == self@.fetch_state,
    {
        self.fetch_state
    }

    pub fn cycle_num(&self) -> (c: u64)
        ensures
            c == self@.cycle_num,
    {
        self.cycle_num
    }

    pub fn instr_cycle(&self) -> (c: u32)
        ensures
            c == self@.instr_cycle,
    {
        self.instr_cycle
    }

    pub fn clear_instr_cycle(&mut self)
        ensures
            final(self)@ == (BiuView { instr_cycle: 0, ..old(self)@ }),
    {
        proof {
            use_type_invariant(&*self);
        }
        *self = Biu { instr_cycle: 0, ..*self };
    }

    pub fn set_nx(&mut self, nx: bool)
        ensures
            final(self)@ == (BiuView { nx: nx, ..old(self)@ }),
    {
        proof {
            use_type_invariant(&*self);
        }
        *self = Biu { nx: nx, ..*self };
    }

    pub fn set_mc_pc(&mut self, mc: u16)
        ensures
            final(self)@ == (BiuView { mc_pc: mc, ..old(self)@ }),
    {
        proof {
            use_type_invariant(&*self);
        }
        *self = Biu { mc_pc: mc, ..*self };
    }

    fn ticked(&self, n: u8) -> (b: Biu)
        requires
            self@.wf(),
        ensures
            b@ == (BiuView {
                cycle_num: add64(self@.cycle_num, n as int),
                instr_cycle: add32(self@.instr_cycle, n as int),
                queue_op: QueueOp::Idle,
                ..self@
            }),
    {
        let c: u64 = self.cycle_num.wrapping_add(n as u64);
        let k: u32 = self.instr_cycle.wrapping_add(n as u32);
        proof {
            if self.cycle_num + n > u64::MAX {
                vstd::arithmetic::div_mod::lemma_fundamental_div_mod_converse(
                    self.cycle_num + n,
                    0x1_0000_0000_0000_0000,
                    1,
                    self.cycle_num + n - 0x1_0000_0000_0000_0000,
                );
            } else {
                vstd::arithmetic::div_mod::lemma_small_mod(
                    (self.cycle_num + n) as nat,
                    0x1_0000_0000_0000_0000,
                );
            }
            if self.instr_cycle + n > u32::MAX {
                vstd::arithmetic::div_mod::lemma_fundamental_div_mod_converse(
                    self.instr_cycle + n,
                    0x1_0000_0000,
                    1,
                    self.instr_cycle + n - 0x1_0000_0000,
                );
            } else {
                vstd::arithmetic::div_mod::lemma_small_mod(
                    (self.instr_cycle + n) as nat,
                    0x1_0000_0000,
                );
            }
        }
        Biu { cycle_num: c, instr_cycle: k, queue_op: QueueOp::Idle, ..*self }
    }

    /// Runs one T-state.
    pub fn cycle(&mut self, cs: u16, bus: &Bus)
        ensures
            final(self)@ == old(self)@.step(cs, bus@.mem),
            final(self)@.wf(),
    {
        proof {
            use_type_invariant(&*self);
            lemma_step(self@, cs, bus@.mem);
            reveal(BiuView::step);
        }
        let next: Biu = match self.bus_status {
            BusStatus::CodeFetch => match self.t_cycle {
                TCycle::T2 => Biu { t_cycle: TCycle::T3, ..*self },
                TCycle::T3 => Biu { t_cycle: TCycle::T4, ..*self },
                _ => {
                    let mut q = self.queue;
                    q.push8(self.data_latch);
                    Biu {
                        queue: q,
                        pc: offset_add(self.pc, 1),
                        bus_status: BusStatus::Passive,
                        fetch_state: FetchState::Idle,
                        t_cycle: TCycle::Ti,
                        ..*self
                    }
                },
            },
            BusStatus::Passive => {
                if self.fetch_state == FetchState::Idle && !self.queue.is_full() {
                    let a = calc_linear_address(cs, self.pc);
                    Biu {
                        bus_status: BusStatus::CodeFetch,
                        fetch_state: FetchState::Fetching,
                        t_cycle: TCycle::T2,
                        data_latch: bus.read_u8(a as usize),
                        ..*self
                    }
                } else {
                    *self
                }
            },
            _ => Biu { bus_status: BusStatus::Passive, t_cycle: TCycle::Ti, ..*self },
        };
        *self = next.ticked(1);
    }

    /// Runs `n` T-states.
    pub fn cycles(&mut self, n: u32, cs: u16, bus: &Bus)
        ensures
            final(self)@ == old(self)@.steps(cs, bus@.mem, n as nat),
            final(self)@.wf(),
    {
        proof {
            use_type_invariant(&*self);
        }
        let mut k: u32 = 0;
        while k < n
            invariant
                k <= n,
                self@.wf(),
                self@.steps(cs, bus@.mem, (n - k) as nat) == old(self)@.steps(
                    cs,
                    bus@.mem,
                    n as nat,
                ),
            decreases n - k,
        {
            self.cycle(cs, bus);
            k = k + 1;
        }
    }

    /// Runs `n` T-states, the `k`-th of them annotated with microcode line
    /// `mc[k]`.
    pub fn cycles_i(&mut self, n: u32, mc: &[u16], cs: u16, bus: &Bus)
        requires
            n <= mc@.len(),
        ensures
            final(self)@ == old(self)@.steps_i(cs, bus@.mem, mc@, n as nat),
            final(self)@.wf(),
    {
        proof {
            use_type_invariant(&*self);
            assert(mc@.subrange(0, mc@.len() as int) =~= mc@);
        }
        let mut k: u32 = 0;
        while k < n
            invariant
                k <= n,
                n <= mc@.len(),
                self@.wf(),
                self@.steps_i(
                    cs,
                    bus@.mem,
                    mc@.subrange(k as int, mc@.len() as int),
                    (n - k) as nat,
                ) == old(self)@.steps_i(cs, bus@.mem, mc@, n as nat),
            decreases n - k,
        {
            proof {
                let rest = mc@.subrange(k as int, mc@.len() as int);
                assert(rest[0] == mc@[k as int]);
                assert(rest.subrange(1, rest.len() as int) =~= mc@.subrange(
                    k + 1,
                    mc@.len() as int,
                ));
            }
            self.set_mc_pc(mc[k as usize]);
            self.cycle(cs, bus);
            k = k + 1;
        }
    }

    /// Takes the next byte of the instruction stream from the queue. With an
    /// empty queue the unit runs until a fetched byte arrives; a prefetcher
    /// that was stopped is set going again for that. Taking the byte costs one
    /// T-state.
    pub fn q_read_u8(&mut self, dtype: QueueType, cs: u16, bus: &Bus) -> (b: u8)
        ensures
            b == old(self)@.code_byte(cs, bus@.mem, 0),
            forall|i: int|
                i >= 0 ==> #[trigger] final(self)@.code_byte(cs, bus@.mem, i) == old(
                    self,
                )@.code_byte(cs, bus@.mem, i + 1),
            final(self)@.wf(),
            final(self)@.last_queue_op == old(self)@.read_op(dtype),
            final(self)@.nx == old(self)@.nx,
            final(self)@.mc_pc == old(self)@.mc_pc,
            final(self)@.base() == add16(old(self)@.base(), 1),
            final(self)@.cycle_num == add64(
                old(self)@.cycle_num,
                (old(self)@.read_wait() + 1) as int,
            ),
            old(self)@.queue.len() > 0 ==> final(self)@ == (BiuView {
                queue: old(self)@.queue.subrange(1, old(self)@.queue.len() as int),
                last_queue_op: old(self)@.read_op(dtype),
                ..old(self)@
            }).step(cs, bus@.mem),
    {
        proof {
            use_type_invariant(&*self);
            reveal(BiuView::step);
            reveal(BiuView::code_byte);
        }
        let op = if dtype == QueueType::First || self.last_queue_op == QueueOp::Flush {
            QueueOp::First
        } else {
            QueueOp::Subsequent
        };
        if self.queue.is_empty() {
            if self.fetch_state == FetchState::Suspended || self.fetch_state
                == FetchState::Halted {
                *self = Biu { fetch_state: FetchState::Idle, ..*self };
            }
            proof {
                lemma_add64_add(old(self)@.cycle_num, 0, 0);
            }
            while self.queue.is_empty()
                invariant
                    self@.wf(),
                    self@.cycle_num == add64(
                        old(self)@.cycle_num,
                        old(self)@.read_wait() - self@.read_wait(),
                    ),
                    self@.read_wait() <= old(self)@.read_wait(),
                    self@.queue.len() == 0 ==> self@.fetch_state == FetchState::Idle
                        || self@.fetch_state == FetchState::Fetching,
                    forall|i: int|
                        i >= 0 ==> #[trigger] self@.code_byte(cs, bus@.mem, i) == old(
                            self,
                        )@.code_byte(cs, bus@.mem, i),
                    self@.nx == old(self)@.nx,
                    self@.mc_pc == old(self)@.mc_pc,
                    self@.base() == old(self)@.base(),
                decreases self@.read_wait(),
            {
                proof {
                    lemma_step(self@, cs, bus@.mem);
                    reveal(BiuView::step);
                }
                let ghost before = self@;
                self.cycle(cs, bus);
                proof {
                    lemma_add64_add(
                        old(self)@.cycle_num,
                        old(self)@.read_wait() - before.read_wait(),
                        1,
                    );
                    assert forall|i: int| i >= 0 implies #[trigger] self@.code_byte(
                        cs,
                        bus@.mem,
                        i,
                    ) == old(self)@.code_byte(cs, bus@.mem, i) by {
                        assert(before.code_byte(cs, bus@.mem, i) == old(self)@.code_byte(
                            cs,
                            bus@.mem,
                            i,
                        ));
                    }
                }
            }
        }
        let ghost ready = self@;
        proof {
            lemma_add64_add(old(self)@.cycle_num, 0, 0);
            lemma_add64_add(old(self)@.cycle_num, old(self)@.read_wait() as int, 1);
        }
        assert(ready.code_byte(cs, bus@.mem, 0) == old(self)@.code_byte(cs, bus@.mem, 0));
        let mut q = self.queue;
        let b = q.pop();
        *self = Biu { queue: q, queue_op: op, last_queue_op: op, ..*self };
        let ghost popped = self@;
        proof {
            lemma_add16_add(ready.pc, -(ready.queue.len() as int), 1);
            lemma_step(popped, cs, bus@.mem);
            assert forall|i: int| i >= 0 implies #[trigger] popped.code_byte(cs, bus@.mem, i)
                == ready.code_byte(cs, bus@.mem, i + 1) by {}
            assert(popped.step(cs, bus@.mem) == (BiuView { queue_op: QueueOp::Idle, ..popped }).step(
                cs,
                bus@.mem,
            ));
        }
        self.cycle(cs, bus);
        proof {
            assert forall|i: int| i >= 0 implies #[trigger] self@.code_byte(cs, bus@.mem, i)
                == old(self)@.code_byte(cs, bus@.mem, i + 1) by {
                assert(popped.code_byte(cs, bus@.mem, i) == ready.code_byte(cs, bus@.mem, i + 1));
                assert(ready.code_byte(cs, bus@.mem, i + 1) == old(self)@.code_byte(
                    cs,
                    bus@.mem,
                    i + 1,
                ));
            }
        }
        b
    }

    /// Lets the bus finish what it is doing, without starting anything new.
    fn drain(&mut self, cs: u16, bus: &Bus)
        ensures
            final(self)@ == old(self)@.steps(cs, bus@.mem, old(self)@.busy()),
            final(self)@.wf(),
            final(self)@.bus_status == BusStatus::Passive,
    {
        proof {
            use_type_invariant(&*self);
        }
        while self.bus_status != BusStatus::Passive
            invariant
                self@.wf(),
                self@.steps(cs, bus@.mem, self@.busy()) == old(self)@.steps(
                    cs,
                    bus@.mem,
                    old(self)@.busy(),
                ),
            decreases self@.busy(),
        {
            proof {
                lemma_step(self@, cs, bus@.mem);
            }
            self.cycle(cs, bus);
        }
    }

    /// Runs a bus cycle of the execution unit. The transfer itself is made by
    /// the caller, on the bus.
    pub fn bus_cycle(&mut self, status: BusStatus, flag: ReadWriteFlag, cs: u16, bus: &Bus)
        requires
            status != BusStatus::Passive,
            status != BusStatus::CodeFetch,
        ensures
            final(self)@ == old(self)@.after_bus_cycle(
                cs,
                bus@.mem,
                status,
                flag == ReadWriteFlag::RNI,
            ),
            final(self)@.wf(),
    {
        self.drain(cs, bus);
        proof {
            use_type_invariant(&*self);
        }
        if flag == ReadWriteFlag::RNI {
            let t = self.ticked(3);
            *self = Biu { bus_status: status, t_cycle: TCycle::T4, ..t };
        } else {
            *self = self.ticked(4);
        }
    }

    /// Stops the prefetcher. A code fetch that is on the bus is completed
    /// first.
    pub fn stop(&mut self, state: FetchState, cs: u16, bus: &Bus)
        requires
            state == FetchState::Suspended || state == FetchState::Halted,
        ensures
            final(self)@ == old(self)@.stopped(cs, bus@.mem, state),
            final(self)@.wf(),
    {
        proof {
            use_type_invariant(&*self);
        }
        if self.bus_status == BusStatus::CodeFetch {
            self.drain(cs, bus);
        }
        proof {
            use_type_invariant(&*self);
        }
        *self = Biu { fetch_state: state, ..*self };
    }

    /// Empties the queue and points the prefetcher at `cs:ip`.
    pub fn flush(&mut self, ip: u16)
        ensures
            final(self)@ == old(self)@.flushed(ip),
            final(self)@.wf(),
    {
        proof {
            use_type_invariant(&*self);
        }
        let mut q = self.queue;
        q.flush();
        assert(q@ =~= Seq::<u8>::empty());
        if self.bus_status == BusStatus::CodeFetch {
            *self = Biu {
                queue: q,
                bus_status: BusStatus::Passive,
                t_cycle: TCycle::Ti,
                fetch_state: FetchState::Idle,
                pc: ip,
                queue_op: QueueOp::Flush,
                last_queue_op: QueueOp::Flush,
                ..*self
            };
        } else {
            *self = Biu {
                queue: q,
                fetch_state: FetchState::Idle,
                pc: ip,
                queue_op: QueueOp::Flush,
                last_queue_op: QueueOp::Flush,
                ..*self
            };
        }
    }
}

} // verus!
