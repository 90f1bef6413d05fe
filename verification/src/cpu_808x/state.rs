//! The CPU aggregate and its mathematical model.
//!
//! `Cpu` owns the registers, the flags, the bus interface unit, the bus, the
//! decoded instruction, the control state and the shadow call stack. Its
//! view, `Arch`, is everything that an instruction can change apart from bus
//! timing, which is the view of the bus interface unit.
use vstd::prelude::*;
use crate::cpu_808x::biu::{Biu, BusStatus, FetchState, QueueOp};
use crate::cpu_808x::bus::Bus;
use crate::cpu_808x::callstack::{CallStack, CallStackEntry};
use crate::cpu_808x::instruction::{Instruction, Mnemonic};
use crate::cpu_808x::muldiv::CpuException;
use crate::cpu_808x::registers::{
    calc_linear_address,
    linear,
    word_of,
    Flag,
    Flags,
    Register16,
    Register8,
    Registers,
};

verus! {

#[derive(Clone, Copy, Debug, PartialEq, Eq, Structural)]
pub enum RepType {
    NoRep,
    Rep,
    Repne,
    Repe,
}

#[derive(Clone, Copy, Debug, PartialEq, Eq, Structural)]
pub enum CpuAddress {
    Flat(u32),
    Segmented(u16, u16),
}

/// How an executed instruction ended.
#[derive(Clone, Copy, Debug, PartialEq, Eq, Structural)]
pub enum ExecutionResult {
    Okay,
    OkayJump,
    OkayRep,
    Halt,
    ExceptionError(CpuException),
}

/// What the dispatcher tolerated and the host may want in its trace.
#[derive(Clone, Copy, Debug, PartialEq, Eq, Structural)]
pub enum CpuWarning {
    NoWarning,
    /// A repeat prefix stood before an instruction that has no use for it.
    InvalidRepPrefix,
}

/// Control state of the execution engine.
#[derive(Clone, Copy, Debug)]
pub struct Control {
    /// A repeated string instruction is under way.
    pub in_rep: bool,
    /// The repeated instruction has run at least once since it began.
    pub rep_init: bool,
    pub rep_type: RepType,
    pub rep_mnemonic: Mnemonic,
    pub halted: bool,
    /// An interrupt waits to be serviced at the next instruction boundary.
    pub pending_interrupt: bool,
    pub interrupt_inhibit: bool,
    pub trap_suppressed: bool,
    pub trap_enable_delay: u32,
    pub trap_disable_delay: u32,
    /// How many instructions with opcode 0x00 ran in a row.
    pub opcode0_counter: u32,
    pub off_rails_detection: bool,
    /// The offset of the last effective address that was computed.
    pub last_ea: u16,
    /// The effective address of the current instruction has been computed.
    pub ea_loaded: bool,
    /// Where a debugger would stop to step over the call just made.
    pub step_over_target: Option<CpuAddress>,
    /// The vector on the INTR line, while the line is asserted.
    pub intr: Option<u8>,
    pub nmi: bool,
    pub warning: CpuWarning,
}

/// Everything that an instruction can change, apart from bus timing.
pub struct Arch {
    pub regs: Registers,
    pub flags: Flags,
    pub mem: Seq<u8>,
    pub mem_flags: Seq<u8>,
    pub io_in: Seq<u8>,
    pub io_out: Seq<u8>,
    pub ctl: Control,
    pub call_stack: Seq<CallStackEntry>,
}

/// The CPU.
pub struct Cpu {
    pub regs: Registers,
    pub flags: Flags,
    /// The instruction that `execute_instruction` runs.
    pub i: Instruction,
    pub ctl: Control,
    pub biu: Biu,
    pub bus: Bus,
    pub call_stack: CallStack,
}

impl View for Cpu {
    type V = Arch;

    open spec fn view(&self) -> Arch {
        Arch {
            regs: self.regs,
            flags: self.flags,
            mem: self.bus@.mem,
            mem_flags: self.bus@.flags,
            io_in: self.bus@.io_in,
            io_out: self.bus@.io_out,
            ctl: self.ctl,
            call_stack: self.call_stack@,
        }
    }
}

impl Control {
    /// The control state after reset.
    pub open spec fn reset_state(off_rails_detection: bool) -> Control {
        Control {
            in_rep: false,
            rep_init: false,
            rep_type: RepType::NoRep,
            rep_mnemonic: Mnemonic::NOP,
            halted: false,
            pending_interrupt: false,
            interrupt_inhibit: false,
            trap_suppressed: false,
            trap_enable_delay: 0,
            trap_disable_delay: 0,
            opcode0_counter: 0,
            off_rails_detection: off_rails_detection,
            last_ea: 0,
            ea_loaded: false,
            step_over_target: None,
            intr: None,
            nmi: false,
            warning: CpuWarning::NoWarning,
        }
    }

    pub fn at_reset(off_rails_detection: bool) -> (c: Control)
        ensures
            c == Control::reset_state(off_rails_detection),
    {
        Control {
            in_rep: false,
            rep_init: false,
            rep_type: RepType::NoRep,
            rep_mnemonic: Mnemonic::NOP,
            halted: false,
            pending_interrupt: false,
            interrupt_inhibit: false,
            trap_suppressed: false,
            trap_enable_delay: 0,
            trap_disable_delay: 0,
            opcode0_counter: 0,
            off_rails_detection: off_rails_detection,
            last_ea: 0,
            ea_loaded: false,
            step_over_target: None,
            intr: None,
            nmi: false,
            warning: CpuWarning::NoWarning,
        }
    }
}

impl Cpu {
    /// The `i`-th byte that the next queue reads will give.
    pub open spec fn code_byte(&self, i: int) -> u8 {
        self.biu@.code_byte(self.regs.cs, self@.mem, i)
    }

    /// The little-endian word at bytes `i` and `i + 1` of the code stream.
    pub open spec fn code_word(&self, i: int) -> u16 {
        word_of(self.code_byte(i), self.code_byte(i + 1))
    }

    /// The queue reads of `self` give what those of `other` give.
    pub open spec fn same_code(&self, other: &Cpu) -> bool {
        forall|i: int| i >= 0 ==> #[trigger] self.code_byte(i) == other.code_byte(i)
    }

    /// The queue reads of `self` give what those of `other` give after its
    /// first `n`.
    pub open spec fn code_after(&self, other: &Cpu, n: int) -> bool {
        forall|i: int| i >= 0 ==> #[trigger] self.code_byte(i) == other.code_byte(i + n)
    }

    /// The state that reset leaves: CS is 0xFFFF and every other register
    /// zero, all flags clear, the queue empty, the bus passive and the
    /// prefetcher free to fetch from CS:IP, no repeat under way, nothing
    /// pending, the shadow call stack empty.
    pub open spec fn is_reset(&self) -> bool {
        &&& self.regs.cs == 0xFFFF
        &&& forall|k: Register16| k != Register16::CS ==> self.regs.get16(k) == 0
        &&& self.flags.word() == 0xF002
        &&& self.biu@.queue.len() == 0
        &&& self.biu@.bus_status == BusStatus::Passive
        &&& self.biu@.fetch_state == FetchState::Idle
        &&& self.biu@.pc == 0
        &&& !self.biu@.nx
        &&& self.biu@.cycle_num == 0
        &&& self.biu@.instr_cycle == 0
        &&& self.biu@.last_queue_op == QueueOp::Idle
        &&& self.ctl == Control::reset_state(self.ctl.off_rails_detection)
        &&& self.call_stack@.len() == 0
    }

    /// A CPU at reset, on a bus that is all zero.
    pub fn new() -> (cpu: Cpu)
        ensures
            cpu.is_reset(),
            !cpu.ctl.off_rails_detection,
            cpu@.mem.len() == 0x100000,
            forall|a: int| 0 <= a < 0x100000 ==> cpu@.mem[a] == 0 && cpu@.mem_flags[a] == 0,
            forall|p: int| 0 <= p < 0x10000 ==> cpu@.io_in[p] == 0 && cpu@.io_out[p] == 0,
    {
        Cpu {
            regs: Registers::at_reset(),
            flags: Flags::cleared(),
            i: Instruction::nop(),
            ctl: Control::at_reset(false),
            biu: Biu::new(),
            bus: Bus::new(),
            call_stack: CallStack::new(),
        }
    }

    /// Puts the CPU into the reset state. Memory, its attribute bytes and the
    /// I/O latches stay, and so does the choice of off-rails detection.
    pub fn reset(&mut self)
        ensures
            final(self).is_reset(),
            final(self).ctl.off_rails_detection == old(self).ctl.off_rails_detection,
            final(self).bus == old(self).bus,
    {
        self.regs = Registers::at_reset();
        self.flags = Flags::cleared();
        self.i = Instruction::nop();
        self.ctl = Control::at_reset(self.ctl.off_rails_detection);
        self.biu = Biu::new();
        self.call_stack = CallStack::new();
    }

    pub fn get_register16(&self, r: Register16) -> (v: u16)
        ensures
            v == self.regs.get16(r),
    {
        self.regs.read16(r)
    }

    pub fn get_register8(&self, r: Register8) -> (v: u8)
        ensures
            v == self.regs.get8(r),
    {
        self.regs.read8(r)
    }

    pub fn set_register16(&mut self, r: Register16, v: u16)
        ensures
            *final(self) == (Cpu { regs: old(self).regs.set16(r, v), ..*old(self) }),
    {
        self.regs.write16(r, v);
    }

    pub fn set_register8(&mut self, r: Register8, v: u8)
        ensures
            *final(self) == (Cpu { regs: old(self).regs.set8(r, v), ..*old(self) }),
    {
        self.regs.write8(r, v);
    }

    pub fn get_flag(&self, f: Flag) -> (b: bool)
        ensures
            b == self.flags.get(f),
    {
        self.flags.flag(f)
    }

    pub fn set_flag(&mut self, f: Flag)
        ensures
            *final(self) == (Cpu { flags: old(self).flags.with(f, true), ..*old(self) }),
    {
        self.flags.set_state(f, true);
    }

    pub fn clear_flag(&mut self, f: Flag)
        ensures
            *final(self) == (Cpu { flags: old(self).flags.with(f, false), ..*old(self) }),
    {
        self.flags.set_state(f, false);
    }

    pub fn set_flag_state(&mut self, f: Flag, v: bool)
        ensures
            *final(self) == (Cpu { flags: old(self).flags.with(f, v), ..*old(self) }),
    {
        self.flags.set_state(f, v);
    }

    /// The bus address of CS:IP.
    pub fn get_linear_ip(&self) -> (a: u32)
        ensures
            a == linear(self.regs.cs, self.regs.ip),
    {
        calc_linear_address(self.regs.cs, self.regs.ip)
    }
}

} // verus!
