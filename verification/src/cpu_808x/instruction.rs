//! The decoded instruction record that the decode stage hands to the
//! dispatcher.
use vstd::prelude::*;
use crate::cpu_808x::registers::{Register16, Register8, SegmentOverride};

verus! {

#[derive(Clone, Copy, Debug, PartialEq, Eq, Structural)]
pub enum Mnemonic {
    InvalidOpcode,
    NoOpcode,
    AAA,
    AAD,
    AAM,
    AAS,
    ADC,
    ADD,
    AND,
    CALL,
    CALLF,
    CBW,
    CLC,
    CLD,
    CLI,
    CMC,
    CMP,
    CMPSB,
    CMPSW,
    CWD,
    DAA,
    DAS,
    DEC,
    DIV,
    ESC,
    HLT,
    IDIV,
    IMUL,
    IN,
    INC,
    INT,
    INT3,
    INTO,
    IRET,
    JB,
    JBE,
    JCXZ,
    JL,
    JLE,
    JMP,
    JMPF,
    JNB,
    JNBE,
    JNL,
    JNLE,
    JNO,
    JNP,
    JNS,
    JNZ,
    JO,
    JP,
    JS,
    JZ,
    LAHF,
    LDS,
    LEA,
    LES,
    LOCK,
    LODSB,
    LODSW,
    LOOP,
    LOOPNE,
    LOOPE,
    MOV,
    MOVSB,
    MOVSW,
    MUL,
    NEG,
    NOP,
    NOT,
    OR,
    OUT,
    POP,
    POPF,
    PUSH,
    PUSHF,
    RCL,
    RCR,
    RETF,
    RETN,
    ROL,
    ROR,
    SAHF,
    SALC,
    SAR,
    SBB,
    SCASB,
    SCASW,
    SHL,
    SHR,
    STC,
    STD,
    STI,
    STOSB,
    STOSW,
    SUB,
    TEST,
    WAIT,
    XCHG,
    XLAT,
    XOR,
}

/// A memory operand form: one of the eight r/m forms, with the displacement
/// that the decode stage read. An 8-bit displacement is sign-extended when the
/// address is formed.
#[derive(Clone, Copy, Debug, PartialEq, Eq, Structural)]
pub enum AddressingMode {
    BxSi,
    BxDi,
    BpSi,
    BpDi,
    Si,
    Di,
    Disp16(u16),
    Bx,
    BxSiDisp8(u8),
    BxDiDisp8(u8),
    BpSiDisp8(u8),
    BpDiDisp8(u8),
    SiDisp8(u8),
    DiDisp8(u8),
    BpDisp8(u8),
    BxDisp8(u8),
    BxSiDisp16(u16),
    BxDiDisp16(u16),
    BpSiDisp16(u16),
    BpDiDisp16(u16),
    SiDisp16(u16),
    DiDisp16(u16),
    BpDisp16(u16),
    BxDisp16(u16),
}

/// The form of an operand. Immediates, relative displacements, direct
/// offsets and far addresses are still in the instruction stream when the
/// dispatcher runs: it reads them from the prefetch queue.
#[derive(Clone, Copy, Debug, PartialEq, Eq, Structural)]
pub enum OperandType {
    NoOperand,
    Immediate8,
    Immediate16,
    Relative8,
    Relative16,
    Offset8,
    Offset16,
    FarAddress,
    Register8(Register8),
    Register16(Register16),
    AddressingMode(AddressingMode),
}

pub const OPCODE_PREFIX_LOCK: u32 = 0x01;
pub const OPCODE_PREFIX_REP1: u32 = 0x02;
pub const OPCODE_PREFIX_REP2: u32 = 0x04;
pub const OPCODE_PREFIX_SEG_OVERRIDE: u32 = 0x08;
pub const I_GROUP_DELAY: u32 = 0x01;

/// The prefixes seen before the opcode.
#[derive(Clone, Copy, Debug, PartialEq, Eq, Structural)]
pub struct Prefixes {
    pub lock: bool,
    /// 0xF2, REPNE.
    pub rep1: bool,
    /// 0xF3, REP or REPE.
    pub rep2: bool,
    pub segment_override: bool,
}

impl Prefixes {
    pub open spec fn any_rep(self) -> bool {
        self.rep1 || self.rep2
    }

    pub open spec fn bits(self) -> int {
        (if self.lock {
            1int
        } else {
            0
        }) + (if self.rep1 {
            2int
        } else {
            0
        }) + (if self.rep2 {
            4int
        } else {
            0
        }) + (if self.segment_override {
            8int
        } else {
            0
        })
    }

    pub fn none() -> (p: Prefixes)
        ensures
            !p.lock && !p.rep1 && !p.rep2 && !p.segment_override,
    {
        Prefixes { lock: false, rep1: false, rep2: false, segment_override: false }
    }

    pub fn has_rep(&self) -> (b: bool)
        ensures
            b == self.any_rep(),
    {
        self.rep1 || self.rep2
    }

    /// The prefixes as the bit set LOCK, REP1, REP2, segment override.
    pub fn to_bits(&self) -> (b: u32)
        ensures
            b == self.bits(),
    {
        let mut b: u32 = 0;
        if self.lock {
            b = b + OPCODE_PREFIX_LOCK;
        }
        if self.rep1 {
            b = b + OPCODE_PREFIX_REP1;
        }
        if self.rep2 {
            b = b + OPCODE_PREFIX_REP2;
        }
        if self.segment_override {
            b = b + OPCODE_PREFIX_SEG_OVERRIDE;
        }
        b
    }
}

/// One decoded instruction.
#[derive(Clone, Copy, Debug, PartialEq, Eq, Structural)]
pub struct Instruction {
    pub opcode: u8,
    pub mnemonic: Mnemonic,
    pub prefixes: Prefixes,
    pub segment_override: SegmentOverride,
    pub operand1_type: OperandType,
    pub operand2_type: OperandType,
    /// Length in bytes, prefixes included.
    pub size: u16,
    /// The decode stage asks for the extra cycle that the group opcodes take.
    pub group_delay: bool,
}

impl Instruction {
    /// A NOP: what the record holds before the first decode.
    pub fn nop() -> (i: Instruction)
        ensures
            i.opcode == 0x90,
            i.mnemonic == Mnemonic::NOP,
            i.size == 1,
            !i.prefixes.any_rep(),
            i.segment_override == SegmentOverride::NoOverride,
            i.operand1_type == OperandType::NoOperand,
            i.operand2_type == OperandType::NoOperand,
            !i.group_delay,
    {
        Instruction {
            opcode: 0x90,
            mnemonic: Mnemonic::NOP,
            prefixes: Prefixes::none(),
            segment_override: SegmentOverride::NoOverride,
            operand1_type: OperandType::NoOperand,
            operand2_type: OperandType::NoOperand,
            size: 1,
            group_delay: false,
        }
    }
}

impl OperandType {
    pub open spec fn is_memory(self) -> bool {
        self is AddressingMode
    }

    pub fn is_addressing_mode(&self) -> (b: bool)
        ensures
            b == self.is_memory(),
    {
        match self {
            OperandType::AddressingMode(_) => true,
            _ => false,
        }
    }
}

} // verus!
