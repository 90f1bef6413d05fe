//! What the opcode routines share: the outcome of a routine, operand pairs,
//! and the read-modify-write pattern of the ALU instructions.
use vstd::prelude::*;
use crate::cpu_808x::alu::{alu16, alu8, math_op16, math_op8};
use crate::cpu_808x::biu::ReadWriteFlag;
use crate::cpu_808x::instruction::{Instruction, Mnemonic, OperandType};
use crate::cpu_808x::muldiv::CpuException;
use crate::cpu_808x::state::{Arch, Cpu};
use crate::cpu_808x::validity::{fits, is_byte, is_word, takes_code, Need};

verus! {

/// How a routine left the flow of control.
#[derive(Clone, Copy, Debug, PartialEq, Eq, Structural)]
pub struct Flow {
    /// The routine loaded IP itself.
    pub jump: bool,
    pub exception: CpuException,
    /// A repeat was left for an interrupt: IP stays on the instruction.
    pub stay: bool,
}

impl Flow {
    /// Execution goes on with the next instruction.
    pub open spec fn next() -> Flow {
        Flow { jump: false, exception: CpuException::NoException, stay: false }
    }

    pub open spec fn jumped() -> Flow {
        Flow { jump: true, exception: CpuException::NoException, stay: false }
    }

    pub open spec fn jump_if(taken: bool) -> Flow {
        Flow { jump: taken, exception: CpuException::NoException, stay: false }
    }

    pub fn go_on() -> (f: Flow)
        ensures
            f == Flow::next(),
    {
        Flow { jump: false, exception: CpuException::NoException, stay: false }
    }

    pub fn taken(t: bool) -> (f: Flow)
        ensures
            f == Flow::jump_if(t),
            t ==> f == Flow::jumped(),
            !t ==> f == Flow::next(),
    {
        Flow { jump: t, exception: CpuException::NoException, stay: false }
    }
}

impl Arch {
    /// Operand 1 of `i`, read as a byte.
    pub open spec fn op1_8(self, i: Instruction, code: Seq<u8>) -> u8 {
        self.operand8(i.operand1_type, i.segment_override, code).unwrap()
    }

    /// Operand 2 of `i`, read as a byte.
    pub open spec fn op2_8(self, i: Instruction, code: Seq<u8>) -> u8 {
        self.operand8(i.operand2_type, i.segment_override, code).unwrap()
    }

    /// Operand 1 of `i`, read as a word.
    pub open spec fn op1_16(self, i: Instruction, code: Seq<u8>) -> u16 {
        self.operand16(i.operand1_type, i.segment_override, code).unwrap()
    }

    /// Operand 2 of `i`, read as a word.
    pub open spec fn op2_16(self, i: Instruction, code: Seq<u8>) -> u16 {
        self.operand16(i.operand2_type, i.segment_override, code).unwrap()
    }

    /// The state after both operands of `i` were read.
    pub open spec fn read_both(self, i: Instruction) -> Arch {
        self.touched(i.operand1_type).touched(i.operand2_type)
    }

    /// The state after the operands of `i` were read: both of them, or
    /// operand 1 alone.
    pub open spec fn read_ops(self, i: Instruction, both: bool) -> Arch {
        if both {
            self.read_both(i)
        } else {
            self.touched(i.operand1_type)
        }
    }

    /// A byte ALU operation on operand 1 with the value `v2`: the flags are
    /// set, and the result is stored into operand 1 if `store`. `both` says
    /// that operand 2 was read for `v2`.
    pub open spec fn alu_byte(
        self,
        m: Mnemonic,
        i: Instruction,
        code: Seq<u8>,
        v2: u8,
        store: bool,
        both: bool,
    ) -> Arch {
        let (res, f) = alu8(m, self.op1_8(i, code), v2, self.flags);
        let t = Arch { flags: f, ..self.read_ops(i, both) };
        if store {
            t.written8(i.operand1_type, i.segment_override, res, code)
        } else {
            t
        }
    }

    /// A word ALU operation on operand 1 with the value `v2`.
    pub open spec fn alu_word(
        self,
        m: Mnemonic,
        i: Instruction,
        code: Seq<u8>,
        v2: u16,
        store: bool,
        both: bool,
    ) -> Arch {
        let (res, f) = alu16(m, self.op1_16(i, code), v2, self.flags);
        let t = Arch { flags: f, ..self.read_ops(i, both) };
        if store {
            t.written16(i.operand1_type, i.segment_override, res, code)
        } else {
            t
        }
    }
}

/// A write to a register or a memory operand takes nothing from the
/// instruction stream.
pub proof fn lemma_written_code(
    a: Arch,
    op: OperandType,
    ovr: crate::cpu_808x::registers::SegmentOverride,
    v8: u8,
    v16: u16,
    c1: Seq<u8>,
    c2: Seq<u8>,
)
    ensures
        fits(op, Need::RegMem8) ==> a.written8(op, ovr, v8, c1) == a.written8(op, ovr, v8, c2),
        fits(op, Need::RegMem16) ==> a.written16(op, ovr, v16, c1) == a.written16(
            op,
            ovr,
            v16,
            c2,
        ),
{
}

impl Cpu {
    /// Reads operand 1 as a byte.
    pub fn read_op1_8(&mut self) -> (v: u8)
        requires
            is_byte(old(self).i.operand1_type),
        ensures
            v == old(self)@.op1_8(old(self).i, old(self).code()),
            final(self)@ == old(self)@.touched(old(self).i.operand1_type),
            final(self).i == old(self).i,
            old(self).i.operand1_type is Register8 ==> final(self).biu == old(self).biu,
            !takes_code(old(self).i.operand1_type) ==> final(self).same_code(old(self)),
    {
        let v = self.read_operand8(self.i.operand1_type, self.i.segment_override).unwrap();
        proof {
            if !takes_code(old(self).i.operand1_type) {
                self.lemma_same_code_after(old(self));
            }
        }
        v
    }

    /// Reads operand 1 as a word.
    pub fn read_op1_16(&mut self) -> (v: u16)
        requires
            is_word(old(self).i.operand1_type),
        ensures
            v == old(self)@.op1_16(old(self).i, old(self).code()),
            final(self)@ == old(self)@.touched(old(self).i.operand1_type),
            final(self).i == old(self).i,
            old(self).i.operand1_type is Register16 ==> final(self).biu == old(self).biu,
            !takes_code(old(self).i.operand1_type) ==> final(self).same_code(old(self)),
    {
        let v = self.read_operand16(self.i.operand1_type, self.i.segment_override).unwrap();
        proof {
            if !takes_code(old(self).i.operand1_type) {
                self.lemma_same_code_after(old(self));
            }
        }
        v
    }

    /// Reads operand 2 as a byte.
    pub fn read_op2_8(&mut self) -> (v: u8)
        requires
            is_byte(old(self).i.operand2_type),
        ensures
            v == old(self)@.op2_8(old(self).i, old(self).code()),
            final(self)@ == old(self)@.touched(old(self).i.operand2_type),
            final(self).i == old(self).i,
            old(self).i.operand2_type is Register8 ==> final(self).biu == old(self).biu,
            !takes_code(old(self).i.operand2_type) ==> final(self).same_code(old(self)),
    {
        let v = self.read_operand8(self.i.operand2_type, self.i.segment_override).unwrap();
        proof {
            if !takes_code(old(self).i.operand2_type) {
                self.lemma_same_code_after(old(self));
            }
        }
        v
    }

    /// Reads operand 2 as a word.
    pub fn read_op2_16(&mut self) -> (v: u16)
        requires
            is_word(old(self).i.operand2_type),
        ensures
            v == old(self)@.op2_16(old(self).i, old(self).code()),
            final(self)@ == old(self)@.touched(old(self).i.operand2_type),
            final(self).i == old(self).i,
            old(self).i.operand2_type is Register16 ==> final(self).biu == old(self).biu,
            !takes_code(old(self).i.operand2_type) ==> final(self).same_code(old(self)),
    {
        let v = self.read_operand16(self.i.operand2_type, self.i.segment_override).unwrap();
        proof {
            if !takes_code(old(self).i.operand2_type) {
                self.lemma_same_code_after(old(self));
            }
        }
        v
    }

    /// Reads both operands as bytes, operand 1 first.
    pub fn read_pair8(&mut self) -> (r: (u8, u8))
        requires
            fits(old(self).i.operand1_type, Need::RegMem8),
            is_byte(old(self).i.operand2_type),
        ensures
            r.0 == old(self)@.op1_8(old(self).i, old(self).code()),
            r.1 == old(self)@.op2_8(old(self).i, old(self).code()),
            final(self)@ == old(self)@.read_both(old(self).i),
            final(self).i == old(self).i,
            old(self).i.operand1_type is Register8 && old(self).i.operand2_type is Register8
                ==> final(self).biu == old(self).biu,
    {
        let a = self.read_op1_8();
        proof {
            self.lemma_same_code_seq(old(self));
        }
        let b = self.read_op2_8();
        (a, b)
    }

    /// Reads both operands as words, operand 1 first.
    pub fn read_pair16(&mut self) -> (r: (u16, u16))
        requires
            fits(old(self).i.operand1_type, Need::RegMem16),
            is_word(old(self).i.operand2_type),
        ensures
            r.0 == old(self)@.op1_16(old(self).i, old(self).code()),
            r.1 == old(self)@.op2_16(old(self).i, old(self).code()),
            final(self)@ == old(self)@.read_both(old(self).i),
            final(self).i == old(self).i,
            old(self).i.operand1_type is Register16 && old(self).i.operand2_type is Register16
                ==> final(self).biu == old(self).biu,
    {
        let a = self.read_op1_16();
        proof {
            self.lemma_same_code_seq(old(self));
        }
        let b = self.read_op2_16();
        (a, b)
    }

    /// Reads operand 1 as a word and operand 2 as a byte.
    pub fn read_pair16_8(&mut self) -> (r: (u16, u8))
        requires
            fits(old(self).i.operand1_type, Need::RegMem16),
            is_byte(old(self).i.operand2_type),
        ensures
            r.0 == old(self)@.op1_16(old(self).i, old(self).code()),
            r.1 == old(self)@.op2_8(old(self).i, old(self).code()),
            final(self)@ == old(self)@.read_both(old(self).i),
            final(self).i == old(self).i,
            old(self).i.operand1_type is Register16 && old(self).i.operand2_type is Register8
                ==> final(self).biu == old(self).biu,
    {
        let a = self.read_op1_16();
        proof {
            self.lemma_same_code_seq(old(self));
        }
        let b = self.read_op2_8();
        (a, b)
    }

    /// Runs the byte ALU on `v1` and `v2`, sets the flags, and stores the
    /// result into operand 1 if `store`.
    pub fn alu8_finish(&mut self, m: Mnemonic, v1: u8, v2: u8, store: bool)
        requires
            fits(old(self).i.operand1_type, Need::RegMem8),
        ensures
            final(self)@ == ({
                let (res, f) = alu8(m, v1, v2, old(self).flags);
                let t = Arch { flags: f, ..old(self)@ };
                if store {
                    t.written8(
                        old(self).i.operand1_type,
                        old(self).i.segment_override,
                        res,
                        Seq::empty(),
                    )
                } else {
                    t
                }
            }),
            final(self).i == old(self).i,
            old(self).i.operand1_type is Register8 || !store ==> final(self).biu == old(self).biu,
    {
        let (res, f) = math_op8(m, v1, v2, self.flags);
        self.flags = f;
        if store {
            self.write_operand8(
                self.i.operand1_type,
                self.i.segment_override,
                res,
                ReadWriteFlag::RNI,
            );
        }
    }

    /// Runs the word ALU on `v1` and `v2`, sets the flags, and stores the
    /// result into operand 1 if `store`.
    pub fn alu16_finish(&mut self, m: Mnemonic, v1: u16, v2: u16, store: bool)
        requires
            fits(old(self).i.operand1_type, Need::RegMem16),
        ensures
            final(self)@ == ({
                let (res, f) = alu16(m, v1, v2, old(self).flags);
                let t = Arch { flags: f, ..old(self)@ };
                if store {
                    t.written16(
                        old(self).i.operand1_type,
                        old(self).i.segment_override,
                        res,
                        Seq::empty(),
                    )
                } else {
                    t
                }
            }),
            final(self).i == old(self).i,
            old(self).i.operand1_type is Register16 || !store ==> final(self).biu == old(self).biu,
    {
        let (res, f) = math_op16(m, v1, v2, self.flags);
        self.flags = f;
        if store {
            self.write_operand16(
                self.i.operand1_type,
                self.i.segment_override,
                res,
                ReadWriteFlag::RNI,
            );
        }
    }
}

} // verus!
