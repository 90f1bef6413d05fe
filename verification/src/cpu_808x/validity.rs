//! Which decoded records the dispatcher accepts: the operands must be of a
//! form that the opcode reads, and the opcode must not be a prefix byte.
use vstd::prelude::*;
use crate::cpu_808x::instruction::{Instruction, Mnemonic, OperandType};

verus! {

/// What an opcode asks of one of its operands.
#[derive(Clone, Copy, Debug, PartialEq, Eq, Structural)]
pub enum Need {
    /// The operand is not read through its form.
    Free,
    /// It is read as a byte.
    Byte,
    /// It is read as a word.
    Word,
    /// It is a memory operand.
    Memory,
    /// It is a byte register or a memory operand.
    RegMem8,
    /// It is a word register or a memory operand.
    RegMem16,
}

/// The operand can be read as a byte.
pub open spec fn is_byte(op: OperandType) -> bool {
    op is Immediate8 || op is Relative8 || op is Offset8 || op is Register8
        || op is AddressingMode
}

/// The operand can be read as a word.
pub open spec fn is_word(op: OperandType) -> bool {
    op is Immediate16 || op is Relative16 || op is Offset16 || op is Register16
        || op is AddressingMode
}

/// Reading the operand takes bytes from the instruction stream.
pub open spec fn takes_code(op: OperandType) -> bool {
    op is Immediate8 || op is Immediate16 || op is Relative8 || op is Relative16 || op is Offset8
        || op is Offset16 || op is FarAddress
}

pub open spec fn fits(op: OperandType, n: Need) -> bool {
    match n {
        Need::Free => true,
        Need::Byte => is_byte(op),
        Need::Word => is_word(op),
        Need::Memory => op is AddressingMode,
        Need::RegMem8 => op is Register8 || op is AddressingMode,
        Need::RegMem16 => op is Register16 || op is AddressingMode,
    }
}

/// What the opcode, with the mnemonic that the decode stage chose for a group
/// opcode, asks of its two operands.
#[verifier::opaque]
pub open spec fn operand_needs(opcode: u8, m: Mnemonic) -> (Need, Need) {
    if opcode < 0x40 {
        if opcode % 8 == 0 || opcode % 8 == 2 || opcode % 8 == 4 {
            (Need::RegMem8, Need::Byte)
        } else if opcode % 8 == 1 || opcode % 8 == 3 || opcode % 8 == 5 {
            (Need::RegMem16, Need::Word)
        } else {
            (Need::Free, Need::Free)
        }
    } else if opcode < 0x50 {
        (Need::RegMem16, Need::Free)
    } else if opcode < 0x60 {
        (Need::Free, Need::Free)
    } else if opcode < 0x80 {
        (Need::Byte, Need::Free)
    } else if opcode == 0x80 || opcode == 0x82 || opcode == 0x84 {
        (Need::RegMem8, Need::Byte)
    } else if opcode == 0x86 {
        (Need::RegMem8, Need::RegMem8)
    } else if opcode == 0x81 || opcode == 0x85 {
        (Need::RegMem16, Need::Word)
    } else if opcode == 0x87 {
        (Need::RegMem16, Need::RegMem16)
    } else if opcode == 0x83 {
        (Need::RegMem16, Need::Byte)
    } else if opcode == 0x88 || opcode == 0x8A {
        (Need::Free, Need::Byte)
    } else if opcode == 0x89 || opcode == 0x8B || opcode == 0x8C || opcode == 0x8E {
        (Need::Free, Need::Word)
    } else if opcode < 0xA0 {
        (Need::Free, Need::Free)
    } else if opcode == 0xA0 || opcode == 0xA8 {
        (Need::Free, Need::Byte)
    } else if opcode == 0xA1 || opcode == 0xA9 {
        (Need::Free, Need::Word)
    } else if opcode < 0xB0 {
        (Need::Free, Need::Free)
    } else if opcode < 0xB8 {
        (Need::Free, Need::Byte)
    } else if opcode < 0xC0 {
        (Need::Free, Need::Word)
    } else if opcode == 0xC0 || opcode == 0xC2 || opcode == 0xC8 || opcode == 0xCA {
        (Need::Word, Need::Free)
    } else if opcode == 0xC4 || opcode == 0xC5 {
        (Need::Free, Need::Memory)
    } else if opcode == 0xC6 {
        (Need::Free, Need::Byte)
    } else if opcode == 0xC7 {
        (Need::Free, Need::Word)
    } else if opcode == 0xCD {
        (Need::Byte, Need::Free)
    } else if opcode < 0xD0 {
        (Need::Free, Need::Free)
    } else if opcode == 0xD0 {
        (Need::RegMem8, Need::Free)
    } else if opcode == 0xD4 || opcode == 0xD5 {
        (Need::Byte, Need::Free)
    } else if opcode == 0xD1 {
        (Need::RegMem16, Need::Free)
    } else if opcode == 0xD2 {
        (Need::RegMem8, Need::Byte)
    } else if opcode == 0xD3 {
        (Need::RegMem16, Need::Byte)
    } else if opcode < 0xE0 {
        (Need::Free, Need::Free)
    } else if opcode < 0xE4 || opcode == 0xEB {
        (Need::Byte, Need::Free)
    } else if opcode == 0xE4 || opcode == 0xE5 {
        (Need::Free, Need::Byte)
    } else if opcode == 0xE6 {
        (Need::Byte, Need::Byte)
    } else if opcode == 0xE7 {
        (Need::Byte, Need::Word)
    } else if opcode == 0xE8 || opcode == 0xE9 {
        (Need::Word, Need::Free)
    } else if opcode == 0xEC || opcode == 0xED {
        (Need::Free, Need::Word)
    } else if opcode == 0xEE {
        (Need::Word, Need::Byte)
    } else if opcode == 0xEF {
        (Need::Word, Need::Word)
    } else if opcode == 0xF6 {
        if m == Mnemonic::TEST {
            (Need::RegMem8, Need::Byte)
        } else {
            (Need::RegMem8, Need::Free)
        }
    } else if opcode == 0xF7 {
        if m == Mnemonic::TEST {
            (Need::RegMem16, Need::Word)
        } else {
            (Need::RegMem16, Need::Free)
        }
    } else if opcode == 0xFE {
        (Need::RegMem8, Need::Free)
    } else if opcode == 0xFF {
        (Need::RegMem16, Need::Free)
    } else {
        (Need::Free, Need::Free)
    }
}

/// The opcode has a routine: it is not one of the prefix bytes 0xF0, 0xF2 and
/// 0xF3, and a group opcode comes with a mnemonic of its group.
#[verifier::opaque]
pub open spec fn supported(opcode: u8, m: Mnemonic) -> bool {
    if opcode == 0xF0 || opcode == 0xF2 || opcode == 0xF3 {
        false
    } else if opcode == 0xF6 || opcode == 0xF7 {
        m == Mnemonic::TEST || m == Mnemonic::NOT || m == Mnemonic::NEG || m == Mnemonic::MUL || m
            == Mnemonic::IMUL || m == Mnemonic::DIV || m == Mnemonic::IDIV
    } else if opcode == 0xFE || opcode == 0xFF {
        m == Mnemonic::INC || m == Mnemonic::DEC || m == Mnemonic::CALL || m == Mnemonic::CALLF
            || m == Mnemonic::JMP || m == Mnemonic::JMPF || m == Mnemonic::PUSH
    } else {
        true
    }
}

fn fits_exec(op: &OperandType, n: Need) -> (b: bool)
    ensures
        b == fits(*op, n),
{
    match n {
        Need::Free => true,
        Need::Byte => match op {
            OperandType::Immediate8
            | OperandType::Relative8
            | OperandType::Offset8
            | OperandType::Register8(_)
            | OperandType::AddressingMode(_) => true,
            _ => false,
        },
        Need::Word => match op {
            OperandType::Immediate16
            | OperandType::Relative16
            | OperandType::Offset16
            | OperandType::Register16(_)
            | OperandType::AddressingMode(_) => true,
            _ => false,
        },
        Need::Memory => match op {
            OperandType::AddressingMode(_) => true,
            _ => false,
        },
        Need::RegMem8 => match op {
            OperandType::Register8(_) | OperandType::AddressingMode(_) => true,
            _ => false,
        },
        Need::RegMem16 => match op {
            OperandType::Register16(_) | OperandType::AddressingMode(_) => true,
            _ => false,
        },
    }
}

fn takes_code_exec(op: &OperandType) -> (b: bool)
    ensures
        b == takes_code(*op),
{
    match op {
        OperandType::Immediate8
        | OperandType::Immediate16
        | OperandType::Relative8
        | OperandType::Relative16
        | OperandType::Offset8
        | OperandType::Offset16
        | OperandType::FarAddress => true,
        _ => false,
    }
}

fn needs_exec(opcode: u8, m: Mnemonic) -> (n: (Need, Need))
    ensures
        n == operand_needs(opcode, m),
{
    reveal(operand_needs);
    if opcode < 0x40 {
        if opcode % 8 == 0 || opcode % 8 == 2 || opcode % 8 == 4 {
            (Need::RegMem8, Need::Byte)
        } else if opcode % 8 == 1 || opcode % 8 == 3 || opcode % 8 == 5 {
            (Need::RegMem16, Need::Word)
        } else {
            (Need::Free, Need::Free)
        }
    } else if opcode < 0x50 {
        (Need::RegMem16, Need::Free)
    } else if opcode < 0x60 {
        (Need::Free, Need::Free)
    } else if opcode < 0x80 {
        (Need::Byte, Need::Free)
    } else if opcode == 0x80 || opcode == 0x82 || opcode == 0x84 {
        (Need::RegMem8, Need::Byte)
    } else if opcode == 0x86 {
        (Need::RegMem8, Need::RegMem8)
    } else if opcode == 0x81 || opcode == 0x85 {
        (Need::RegMem16, Need::Word)
    } else if opcode == 0x87 {
        (Need::RegMem16, Need::RegMem16)
    } else if opcode == 0x83 {
        (Need::RegMem16, Need::Byte)
    } else if opcode == 0x88 || opcode == 0x8A {
        (Need::Free, Need::Byte)
    } else if opcode == 0x89 || opcode == 0x8B || opcode == 0x8C || opcode == 0x8E {
        (Need::Free, Need::Word)
    } else if opcode < 0xA0 {
        (Need::Free, Need::Free)
    } else if opcode == 0xA0 || opcode == 0xA8 {
        (Need::Free, Need::Byte)
    } else if opcode == 0xA1 || opcode == 0xA9 {
        (Need::Free, Need::Word)
    } else if opcode < 0xB0 {
        (Need::Free, Need::Free)
    } else if opcode < 0xB8 {
        (Need::Free, Need::Byte)
    } else if opcode < 0xC0 {
        (Need::Free, Need::Word)
    } else if opcode == 0xC0 || opcode == 0xC2 || opcode == 0xC8 || opcode == 0xCA {
        (Need::Word, Need::Free)
    } else if opcode == 0xC4 || opcode == 0xC5 {
        (Need::Free, Need::Memory)
    } else if opcode == 0xC6 {
        (Need::Free, Need::Byte)
    } else if opcode == 0xC7 {
        (Need::Free, Need::Word)
    } else if opcode == 0xCD {
        (Need::Byte, Need::Free)
    } else if opcode < 0xD0 {
        (Need::Free, Need::Free)
    } else if opcode == 0xD0 {
        (Need::RegMem8, Need::Free)
    } else if opcode == 0xD4 || opcode == 0xD5 {
        (Need::Byte, Need::Free)
    } else if opcode == 0xD1 {
        (Need::RegMem16, Need::Free)
    } else if opcode == 0xD2 {
        (Need::RegMem8, Need::Byte)
    } else if opcode == 0xD3 {
        (Need::RegMem16, Need::Byte)
    } else if opcode < 0xE0 {
        (Need::Free, Need::Free)
    } else if opcode < 0xE4 || opcode == 0xEB {
        (Need::Byte, Need::Free)
    } else if opcode == 0xE4 || opcode == 0xE5 {
        (Need::Free, Need::Byte)
    } else if opcode == 0xE6 {
        (Need::Byte, Need::Byte)
    } else if opcode == 0xE7 {
        (Need::Byte, Need::Word)
    } else if opcode == 0xE8 || opcode == 0xE9 {
        (Need::Word, Need::Free)
    } else if opcode == 0xEC || opcode == 0xED {
        (Need::Free, Need::Word)
    } else if opcode == 0xEE {
        (Need::Word, Need::Byte)
    } else if opcode == 0xEF {
        (Need::Word, Need::Word)
    } else if opcode == 0xF6 {
        if m == Mnemonic::TEST {
            (Need::RegMem8, Need::Byte)
        } else {
            (Need::RegMem8, Need::Free)
        }
    } else if opcode == 0xF7 {
        if m == Mnemonic::TEST {
            (Need::RegMem16, Need::Word)
        } else {
            (Need::RegMem16, Need::Free)
        }
    } else if opcode == 0xFE {
        (Need::RegMem8, Need::Free)
    } else if opcode == 0xFF {
        (Need::RegMem16, Need::Free)
    } else {
        (Need::Free, Need::Free)
    }
}

fn supported_exec(opcode: u8, m: Mnemonic) -> (b: bool)
    ensures
        b == supported(opcode, m),
{
    reveal(supported);
    if opcode == 0xF0 || opcode == 0xF2 || opcode == 0xF3 {
        false
    } else if opcode == 0xF6 || opcode == 0xF7 {
        m == Mnemonic::TEST || m == Mnemonic::NOT || m == Mnemonic::NEG || m == Mnemonic::MUL || m
            == Mnemonic::IMUL || m == Mnemonic::DIV || m == Mnemonic::IDIV
    } else if opcode == 0xFE || opcode == 0xFF {
        m == Mnemonic::INC || m == Mnemonic::DEC || m == Mnemonic::CALL || m == Mnemonic::CALLF
            || m == Mnemonic::JMP || m == Mnemonic::JMPF || m == Mnemonic::PUSH
    } else {
        true
    }
}

/// What `operand_needs` says of the opcodes below 0x60.
pub proof fn lemma_needs_00_5f(opcode: u8, m: Mnemonic)
    requires
        opcode < 0x60,
    ensures
        opcode < 0x40 && opcode % 8 < 6 && opcode % 2 == 0 ==> operand_needs(opcode, m) == (
            Need::RegMem8,
            Need::Byte,
        ),
        opcode < 0x40 && opcode % 8 < 6 && opcode % 2 == 1 ==> operand_needs(opcode, m) == (
            Need::RegMem16,
            Need::Word,
        ),
        0x40 <= opcode < 0x50 ==> operand_needs(opcode, m).0 == Need::RegMem16,
{
    reveal(operand_needs);
}

/// What `operand_needs` says of the opcodes 0x60 to 0x8F.
pub proof fn lemma_needs_80_8f(opcode: u8, m: Mnemonic)
    requires
        0x60 <= opcode < 0x90,
    ensures
        opcode < 0x80 ==> operand_needs(opcode, m).0 == Need::Byte,
        opcode == 0x80 || opcode == 0x82 || opcode == 0x84 ==> operand_needs(opcode, m) == (
            Need::RegMem8,
            Need::Byte,
        ),
        opcode == 0x86 ==> operand_needs(opcode, m) == (Need::RegMem8, Need::RegMem8),
        opcode == 0x81 || opcode == 0x85 ==> operand_needs(opcode, m) == (
            Need::RegMem16,
            Need::Word,
        ),
        opcode == 0x87 ==> operand_needs(opcode, m) == (Need::RegMem16, Need::RegMem16),
        opcode == 0x83 ==> operand_needs(opcode, m) == (Need::RegMem16, Need::Byte),
        opcode == 0x88 || opcode == 0x8A ==> operand_needs(opcode, m).1 == Need::Byte,
        opcode == 0x89 || opcode == 0x8B || opcode == 0x8C || opcode == 0x8E ==> operand_needs(
            opcode,
            m,
        ).1 == Need::Word,
{
    reveal(operand_needs);
}

/// What `operand_needs` says of the opcodes 0xA0 to 0xBF.
pub proof fn lemma_needs_a0_bf(opcode: u8, m: Mnemonic)
    requires
        0xA0 <= opcode < 0xC0,
    ensures
        opcode == 0xA0 || opcode == 0xA8 || 0xB0 <= opcode < 0xB8 ==> operand_needs(opcode, m).1
            == Need::Byte,
        opcode == 0xA1 || opcode == 0xA9 || 0xB8 <= opcode ==> operand_needs(opcode, m).1
            == Need::Word,
{
    reveal(operand_needs);
}

/// What `operand_needs` says of the opcodes 0xC0 to 0xCF.
pub proof fn lemma_needs_c0_cf(opcode: u8, m: Mnemonic)
    requires
        0xC0 <= opcode < 0xD0,
    ensures
        opcode == 0xC0 || opcode == 0xC2 || opcode == 0xC8 || opcode == 0xCA ==> operand_needs(
            opcode,
            m,
        ).0 == Need::Word,
        opcode == 0xC4 || opcode == 0xC5 ==> operand_needs(opcode, m).1 == Need::Memory,
        opcode == 0xC6 ==> operand_needs(opcode, m).1 == Need::Byte,
        opcode == 0xC7 ==> operand_needs(opcode, m).1 == Need::Word,
        opcode == 0xCD ==> operand_needs(opcode, m).0 == Need::Byte,
{
    reveal(operand_needs);
}

/// What `operand_needs` says of the opcodes 0xE0 to 0xEF.
pub proof fn lemma_needs_e0_ef(opcode: u8, m: Mnemonic)
    requires
        0xE0 <= opcode < 0xF0,
    ensures
        opcode < 0xE4 || opcode == 0xEB ==> operand_needs(opcode, m).0 == Need::Byte,
        opcode == 0xE4 || opcode == 0xE5 ==> operand_needs(opcode, m).1 == Need::Byte,
        opcode == 0xE6 ==> operand_needs(opcode, m) == (Need::Byte, Need::Byte),
        opcode == 0xE7 ==> operand_needs(opcode, m) == (Need::Byte, Need::Word),
        opcode == 0xE8 || opcode == 0xE9 ==> operand_needs(opcode, m).0 == Need::Word,
        opcode == 0xEC || opcode == 0xED ==> operand_needs(opcode, m).1 == Need::Word,
        opcode == 0xEE ==> operand_needs(opcode, m) == (Need::Word, Need::Byte),
        opcode == 0xEF ==> operand_needs(opcode, m) == (Need::Word, Need::Word),
{
    reveal(operand_needs);
}

/// What `operand_needs` says of the opcodes 0xD0 to 0xDF.
pub proof fn lemma_needs_d0_df(opcode: u8, m: Mnemonic)
    requires
        0xD0 <= opcode < 0xE0,
    ensures
        opcode == 0xD0 ==> operand_needs(opcode, m).0 == Need::RegMem8,
        opcode == 0xD1 ==> operand_needs(opcode, m).0 == Need::RegMem16,
        opcode == 0xD2 ==> operand_needs(opcode, m) == (Need::RegMem8, Need::Byte),
        opcode == 0xD3 ==> operand_needs(opcode, m) == (Need::RegMem16, Need::Byte),
        opcode == 0xD4 || opcode == 0xD5 ==> operand_needs(opcode, m).0 == Need::Byte,
{
    reveal(operand_needs);
}

/// What `operand_needs` and `supported` say of the opcodes 0xF0 to 0xFF.
pub proof fn lemma_needs_f0_ff(opcode: u8, m: Mnemonic)
    requires
        0xF0 <= opcode,
    ensures
        opcode == 0xF6 ==> operand_needs(opcode, m).0 == Need::RegMem8,
        opcode == 0xF7 ==> operand_needs(opcode, m).0 == Need::RegMem16,
        opcode == 0xF6 && m == Mnemonic::TEST ==> operand_needs(opcode, m).1 == Need::Byte,
        opcode == 0xF7 && m == Mnemonic::TEST ==> operand_needs(opcode, m).1 == Need::Word,
        opcode == 0xFE ==> operand_needs(opcode, m).0 == Need::RegMem8,
        opcode == 0xFF ==> operand_needs(opcode, m).0 == Need::RegMem16,
        supported(opcode, m) ==> opcode != 0xF0 && opcode != 0xF2 && opcode != 0xF3,
        supported(opcode, m) && (opcode == 0xF6 || opcode == 0xF7) ==> (m == Mnemonic::TEST || m
            == Mnemonic::NOT || m == Mnemonic::NEG || m == Mnemonic::MUL || m == Mnemonic::IMUL
            || m == Mnemonic::DIV || m == Mnemonic::IDIV),
        supported(opcode, m) && (opcode == 0xFE || opcode == 0xFF) ==> (m == Mnemonic::INC || m
            == Mnemonic::DEC || m == Mnemonic::CALL || m == Mnemonic::CALLF || m == Mnemonic::JMP
            || m == Mnemonic::JMPF || m == Mnemonic::PUSH),
{
    reveal(operand_needs);
    reveal(supported);
}

impl Instruction {
    /// The record is one that the dispatcher can run: each operand has a form
    /// that the opcode reads, at most one of them lies in the instruction
    /// stream, and the opcode has a routine.
    pub open spec fn valid(self) -> bool {
        &&& fits(self.operand1_type, operand_needs(self.opcode, self.mnemonic).0)
        &&& fits(self.operand2_type, operand_needs(self.opcode, self.mnemonic).1)
        &&& supported(self.opcode, self.mnemonic)
        &&& !(takes_code(self.operand1_type) && takes_code(self.operand2_type))
    }

    /// Tests `valid`.
    pub fn is_valid(&self) -> (b: bool)
        ensures
            b == self.valid(),
    {
        let n = needs_exec(self.opcode, self.mnemonic);
        fits_exec(&self.operand1_type, n.0) && fits_exec(&self.operand2_type, n.1)
            && supported_exec(self.opcode, self.mnemonic) && !(takes_code_exec(
            &self.operand1_type,
        ) && takes_code_exec(&self.operand2_type))
    }
}

} // verus!
