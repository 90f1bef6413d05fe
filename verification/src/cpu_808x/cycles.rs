//! The T-states of the routines that touch neither the bus nor the queue:
//! for them the time of an instruction does not depend on what the bus
//! interface unit is doing.
use vstd::prelude::*;
use crate::cpu_808x::instruction::Instruction;
use crate::cpu_808x::registers::Register8;
use crate::cpu_808x::state::Arch;

verus! {

impl Instruction {
    /// Both operands are byte registers.
    pub open spec fn of_byte_registers(self) -> bool {
        self.operand1_type is Register8 && self.operand2_type is Register8
    }

    /// Both operands are word registers.
    pub open spec fn of_word_registers(self) -> bool {
        self.operand1_type is Register16 && self.operand2_type is Register16
    }

    /// Both operands are registers of the width of the opcode: a byte for an
    /// even opcode, a word for an odd one.
    pub open spec fn of_registers(self) -> bool {
        if self.opcode % 2 == 0 {
            self.of_byte_registers()
        } else {
            self.of_word_registers()
        }
    }

    /// Operand 1 is a register of the width of the opcode.
    pub open spec fn on_register(self) -> bool {
        if self.opcode % 2 == 0 {
            self.operand1_type is Register8
        } else {
            self.operand1_type is Register16
        }
    }
}

impl Arch {
    /// The T-states that the routine of `i` takes after the prologue, where
    /// that is settled by the instruction and the registers alone.
    ///
    /// - The two-operand ALU instructions, TEST, between registers: 1.
    /// - INC and DEC of a word register, MOV between registers, CBW, CWD,
    ///   SAHF, LAHF, SALC, a shift by one of a register, and the
    ///   instructions that change one flag: none; their last cycle is the
    ///   one left to the next instruction.
    /// - XCHG of AX with a register: 1. XCHG between registers: 2.
    /// - WAIT: 3. Opcode 0xF1: 1.
    /// - A shift by CL of a register: `shift_cl_cycles`.
    ///
    /// For every other form the time depends on the bus.
    #[verifier::opaque]
    pub open spec fn routine_cycles(self, i: Instruction) -> Option<int> {
        let op = i.opcode;
        if op < 0x40 {
            if op % 8 < 4 && i.of_registers() {
                Some(1int)
            } else {
                None
            }
        } else if op < 0x50 {
            if i.operand1_type is Register16 {
                Some(0int)
            } else {
                None
            }
        } else if op == 0x84 || op == 0x85 {
            if i.of_registers() {
                Some(1int)
            } else {
                None
            }
        } else if op == 0x86 || op == 0x87 {
            if i.of_registers() {
                Some(2int)
            } else {
                None
            }
        } else if 0x88 <= op <= 0x8B {
            if i.of_registers() {
                Some(0int)
            } else {
                None
            }
        } else if op == 0x8C || op == 0x8E {
            if i.of_word_registers() {
                Some(0int)
            } else {
                None
            }
        } else if 0x90 <= op <= 0x97 {
            Some(1int)
        } else if op == 0x98 || op == 0x99 || op == 0x9E || op == 0x9F {
            Some(0int)
        } else if op == 0x9B {
            Some(3int)
        } else if op == 0xD0 || op == 0xD1 {
            if i.on_register() {
                Some(0int)
            } else {
                None
            }
        } else if op == 0xD2 || op == 0xD3 {
            if i.shift_by_cl_of_register() {
                Some(self.shift_cl_cycles())
            } else {
                None
            }
        } else if op == 0xD6 {
            Some(0int)
        } else if op == 0xF1 {
            Some(1int)
        } else if op == 0xF5 || (0xF8 <= op <= 0xFD) {
            Some(0int)
        } else {
            None
        }
    }
}

/// `routine_cycles` looks at the registers alone.
pub proof fn lemma_routine_cycles_frame(a: Arch, b: Arch, i: Instruction)
    requires
        a.regs == b.regs,
    ensures
        a.routine_cycles(i) == b.routine_cycles(i),
{
    reveal(Arch::routine_cycles);
}

/// `routine_cycles` for the opcodes below 0x60.
pub proof fn lemma_routine_cycles_00_5f(a: Arch, i: Instruction)
    requires
        i.opcode < 0x60,
    ensures
        a.routine_cycles(i) == if i.opcode < 0x40 {
            if i.opcode % 8 < 4 && i.of_registers() {
                Some(1int)
            } else {
                None
            }
        } else if i.opcode < 0x50 && i.operand1_type is Register16 {
            Some(0int)
        } else {
            None
        },
{
    reveal(Arch::routine_cycles);
}

/// `routine_cycles` for the opcodes 0x60 to 0x9F.
pub proof fn lemma_routine_cycles_60_9f(a: Arch, i: Instruction)
    requires
        0x60 <= i.opcode < 0xA0,
    ensures
        i.opcode < 0x84 ==> a.routine_cycles(i) is None,
        i.opcode == 0x84 || i.opcode == 0x85 ==> a.routine_cycles(i) == if i.of_registers() {
            Some(1int)
        } else {
            None
        },
        i.opcode == 0x86 || i.opcode == 0x87 ==> a.routine_cycles(i) == if i.of_registers() {
            Some(2int)
        } else {
            None
        },
        0x88 <= i.opcode <= 0x8B ==> a.routine_cycles(i) == if i.of_registers() {
            Some(0int)
        } else {
            None
        },
        i.opcode == 0x8C || i.opcode == 0x8E ==> a.routine_cycles(i) == if i.of_word_registers() {
            Some(0int)
        } else {
            None
        },
        i.opcode == 0x8D || i.opcode == 0x8F ==> a.routine_cycles(i) is None,
        0x90 <= i.opcode <= 0x97 ==> a.routine_cycles(i) == Some(1int),
        i.opcode == 0x98 || i.opcode == 0x99 || i.opcode == 0x9E || i.opcode == 0x9F
            ==> a.routine_cycles(i) == Some(0int),
        i.opcode == 0x9B ==> a.routine_cycles(i) == Some(3int),
        i.opcode == 0x9A || i.opcode == 0x9C || i.opcode == 0x9D ==> a.routine_cycles(i) is None,
{
    reveal(Arch::routine_cycles);
}

/// `routine_cycles` for the opcodes from 0xA0 on.
pub proof fn lemma_routine_cycles_a0_ff(a: Arch, i: Instruction)
    requires
        0xA0 <= i.opcode,
    ensures
        i.opcode < 0xD0 ==> a.routine_cycles(i) is None,
        i.opcode == 0xD0 || i.opcode == 0xD1 ==> a.routine_cycles(i) == if i.on_register() {
            Some(0int)
        } else {
            None
        },
        i.opcode == 0xD2 || i.opcode == 0xD3 ==> a.routine_cycles(i)
            == if i.shift_by_cl_of_register() {
            Some(a.shift_cl_cycles())
        } else {
            None
        },
        i.opcode == 0xD4 || i.opcode == 0xD5 || (0xD7 <= i.opcode < 0xF1) ==> a.routine_cycles(
            i,
        ) is None,
        i.opcode == 0xD6 ==> a.routine_cycles(i) == Some(0int),
        i.opcode == 0xF1 ==> a.routine_cycles(i) == Some(1int),
        i.opcode == 0xF5 || (0xF8 <= i.opcode <= 0xFD) ==> a.routine_cycles(i) == Some(0int),
        i.opcode == 0xF2 || i.opcode == 0xF3 || i.opcode == 0xF4 || i.opcode == 0xF6 || i.opcode
            == 0xF7 || i.opcode == 0xFE || i.opcode == 0xFF || i.opcode == 0xF0
            ==> a.routine_cycles(i) is None,
{
    reveal(Arch::routine_cycles);
}

} // verus!
