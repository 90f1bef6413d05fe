//! Effective addresses and operand access.
use vstd::prelude::*;
use crate::cpu_808x::biu::{add16, offset_add, QueueType, ReadWriteFlag};
use crate::cpu_808x::bus::{mem_read16, mem_read8, mem_write16, mem_write8};
use crate::cpu_808x::instruction::{AddressingMode, OperandType};
use crate::cpu_808x::registers::{
    calc_linear_address,
    linear,
    word_of,
    Registers,
    Segment,
    SegmentOverride,
};
use crate::cpu_808x::state::{Arch, Control, Cpu};

verus! {

/// An 8-bit displacement, sign-extended to a word.
pub open spec fn sext16(d: u8) -> u16 {
    if d >= 128 {
        (0xFF00 + d) as u16
    } else {
        d as u16
    }
}

pub fn sign_extend(d: u8) -> (w: u16)
    ensures
        w == sext16(d),
{
    if d >= 128 {
        0xFF00 + d as u16
    } else {
        d as u16
    }
}

/// The offset that an addressing mode names: the sum of its base, its index
/// and its displacement, inside 64K.
#[verifier::opaque]
pub open spec fn ea_offset(mode: AddressingMode, r: Registers) -> u16 {
    match mode {
        AddressingMode::BxSi => add16(r.bx, r.si as int),
        AddressingMode::BxDi => add16(r.bx, r.di as int),
        AddressingMode::BpSi => add16(r.bp, r.si as int),
        AddressingMode::BpDi => add16(r.bp, r.di as int),
        AddressingMode::Si => r.si,
        AddressingMode::Di => r.di,
        AddressingMode::Disp16(d) => d,
        AddressingMode::Bx => r.bx,
        AddressingMode::BxSiDisp8(d) => add16(add16(r.bx, r.si as int), sext16(d) as int),
        AddressingMode::BxDiDisp8(d) => add16(add16(r.bx, r.di as int), sext16(d) as int),
        AddressingMode::BpSiDisp8(d) => add16(add16(r.bp, r.si as int), sext16(d) as int),
        AddressingMode::BpDiDisp8(d) => add16(add16(r.bp, r.di as int), sext16(d) as int),
        AddressingMode::SiDisp8(d) => add16(r.si, sext16(d) as int),
        AddressingMode::DiDisp8(d) => add16(r.di, sext16(d) as int),
        AddressingMode::BpDisp8(d) => add16(r.bp, sext16(d) as int),
        AddressingMode::BxDisp8(d) => add16(r.bx, sext16(d) as int),
        AddressingMode::BxSiDisp16(d) => add16(add16(r.bx, r.si as int), d as int),
        AddressingMode::BxDiDisp16(d) => add16(add16(r.bx, r.di as int), d as int),
        AddressingMode::BpSiDisp16(d) => add16(add16(r.bp, r.si as int), d as int),
        AddressingMode::BpDiDisp16(d) => add16(add16(r.bp, r.di as int), d as int),
        AddressingMode::SiDisp16(d) => add16(r.si, d as int),
        AddressingMode::DiDisp16(d) => add16(r.di, d as int),
        AddressingMode::BpDisp16(d) => add16(r.bp, d as int),
        AddressingMode::BxDisp16(d) => add16(r.bx, d as int),
    }
}

/// The segment that a mode uses when nothing overrides it: SS for every form
/// with BP in it, DS for the others.
pub open spec fn ea_default_segment(mode: AddressingMode) -> Segment {
    match mode {
        AddressingMode::BpSi
        | AddressingMode::BpDi
        | AddressingMode::BpSiDisp8(_)
        | AddressingMode::BpDiDisp8(_)
        | AddressingMode::BpDisp8(_)
        | AddressingMode::BpSiDisp16(_)
        | AddressingMode::BpDiDisp16(_)
        | AddressingMode::BpDisp16(_) => Segment::SS,
        _ => Segment::DS,
    }
}

/// The T-states that forming the address takes: 5 for a single base or index
/// register, 6 for a displacement alone, 7 or 8 for base plus index, and 4
/// more where a displacement is added to registers.
pub open spec fn ea_cycles(mode: AddressingMode) -> nat {
    match mode {
        AddressingMode::BxSi | AddressingMode::BpDi => 7,
        AddressingMode::BxDi | AddressingMode::BpSi => 8,
        AddressingMode::Si | AddressingMode::Di | AddressingMode::Bx => 5,
        AddressingMode::Disp16(_) => 6,
        AddressingMode::BxSiDisp8(_)
        | AddressingMode::BpDiDisp8(_)
        | AddressingMode::BxSiDisp16(_)
        | AddressingMode::BpDiDisp16(_) => 11,
        AddressingMode::BxDiDisp8(_)
        | AddressingMode::BpSiDisp8(_)
        | AddressingMode::BxDiDisp16(_)
        | AddressingMode::BpSiDisp16(_) => 12,
        _ => 9,
    }
}

/// The segment after an override is applied to a default.
pub open spec fn overridden(ovr: SegmentOverride, default: Segment) -> Segment {
    match ovr {
        SegmentOverride::NoOverride => default,
        SegmentOverride::ES => Segment::ES,
        SegmentOverride::CS => Segment::CS,
        SegmentOverride::SS => Segment::SS,
        SegmentOverride::DS => Segment::DS,
    }
}

/// The segment of a memory operand.
pub open spec fn ea_segment(mode: AddressingMode, ovr: SegmentOverride) -> Segment {
    overridden(ovr, ea_default_segment(mode))
}

/// The bus address of a memory operand.
pub open spec fn ea_linear(mode: AddressingMode, ovr: SegmentOverride, r: Registers) -> int {
    linear(r.seg(ea_segment(mode, ovr)), ea_offset(mode, r))
}

/// The control state after an operand was touched: a memory operand records
/// its offset as the last effective address.
pub open spec fn ea_noted(ctl: Control, op: OperandType, r: Registers) -> Control {
    match op {
        OperandType::AddressingMode(m) => Control {
            last_ea: ea_offset(m, r),
            ea_loaded: true,
            ..ctl
        },
        _ => ctl,
    }
}

/// The bytes of the instruction stream that a byte access to an operand
/// takes from the queue: one for an immediate or a relative displacement, two
/// for a direct offset.
pub open spec fn code_len8(op: OperandType) -> int {
    match op {
        OperandType::Immediate8 | OperandType::Relative8 => 1,
        OperandType::Offset8 => 2,
        _ => 0,
    }
}

/// The bytes of the instruction stream that a word access to an operand takes
/// from the queue.
pub open spec fn code_len16(op: OperandType) -> int {
    match op {
        OperandType::Immediate16 | OperandType::Relative16 | OperandType::Offset16 => 2,
        _ => 0,
    }
}

pub fn segment_override(ovr: SegmentOverride, default: Segment) -> (s: Segment)
    ensures
        s == overridden(ovr, default),
{
    match ovr {
        SegmentOverride::NoOverride => default,
        SegmentOverride::ES => Segment::ES,
        SegmentOverride::CS => Segment::CS,
        SegmentOverride::SS => Segment::SS,
        SegmentOverride::DS => Segment::DS,
    }
}

fn default_segment(mode: AddressingMode) -> (s: Segment)
    ensures
        s == ea_default_segment(mode),
{
    match mode {
        AddressingMode::BpSi
        | AddressingMode::BpDi
        | AddressingMode::BpSiDisp8(_)
        | AddressingMode::BpDiDisp8(_)
        | AddressingMode::BpDisp8(_)
        | AddressingMode::BpSiDisp16(_)
        | AddressingMode::BpDiDisp16(_)
        | AddressingMode::BpDisp16(_) => Segment::SS,
        _ => Segment::DS,
    }
}

fn mode_cycles(mode: AddressingMode) -> (n: u32)
    ensures
        n == ea_cycles(mode),
{
    match mode {
        AddressingMode::BxSi | AddressingMode::BpDi => 7,
        AddressingMode::BxDi | AddressingMode::BpSi => 8,
        AddressingMode::Si | AddressingMode::Di | AddressingMode::Bx => 5,
        AddressingMode::Disp16(_) => 6,
        AddressingMode::BxSiDisp8(_)
        | AddressingMode::BpDiDisp8(_)
        | AddressingMode::BxSiDisp16(_)
        | AddressingMode::BpDiDisp16(_) => 11,
        AddressingMode::BxDiDisp8(_)
        | AddressingMode::BpSiDisp8(_)
        | AddressingMode::BxDiDisp16(_)
        | AddressingMode::BpSiDisp16(_) => 12,
        _ => 9,
    }
}

fn mode_offset(mode: AddressingMode, r: &Registers) -> (off: u16)
    ensures
        off == ea_offset(mode, *r),
{
    reveal(ea_offset);
    match mode {
        AddressingMode::BxSi => offset_add(r.bx, r.si),
        AddressingMode::BxDi => offset_add(r.bx, r.di),
        AddressingMode::BpSi => offset_add(r.bp, r.si),
        AddressingMode::BpDi => offset_add(r.bp, r.di),
        AddressingMode::Si => r.si,
        AddressingMode::Di => r.di,
        AddressingMode::Disp16(d) => d,
        AddressingMode::Bx => r.bx,
        AddressingMode::BxSiDisp8(d) => offset_add(offset_add(r.bx, r.si), sign_extend(d)),
        AddressingMode::BxDiDisp8(d) => offset_add(offset_add(r.bx, r.di), sign_extend(d)),
        AddressingMode::BpSiDisp8(d) => offset_add(offset_add(r.bp, r.si), sign_extend(d)),
        AddressingMode::BpDiDisp8(d) => offset_add(offset_add(r.bp, r.di), sign_extend(d)),
        AddressingMode::SiDisp8(d) => offset_add(r.si, sign_extend(d)),
        AddressingMode::DiDisp8(d) => offset_add(r.di, sign_extend(d)),
        AddressingMode::BpDisp8(d) => offset_add(r.bp, sign_extend(d)),
        AddressingMode::BxDisp8(d) => offset_add(r.bx, sign_extend(d)),
        AddressingMode::BxSiDisp16(d) => offset_add(offset_add(r.bx, r.si), d),
        AddressingMode::BxDiDisp16(d) => offset_add(offset_add(r.bx, r.di), d),
        AddressingMode::BpSiDisp16(d) => offset_add(offset_add(r.bp, r.si), d),
        AddressingMode::BpDiDisp16(d) => offset_add(offset_add(r.bp, r.di), d),
        AddressingMode::SiDisp16(d) => offset_add(r.si, d),
        AddressingMode::DiDisp16(d) => offset_add(r.di, d),
        AddressingMode::BpDisp16(d) => offset_add(r.bp, d),
        AddressingMode::BxDisp16(d) => offset_add(r.bx, d),
    }
}

/// The word at bytes `k` and `k + 1` of a piece of the instruction stream.
pub open spec fn code_word_at(code: Seq<u8>, k: int) -> u16 {
    word_of(code[k], code[k + 1])
}

impl Arch {
    /// The byte that reading operand `op` gives, if it can be read as a byte;
    /// `code` holds the next bytes of the instruction stream. An immediate or
    /// a relative displacement is the next byte of the stream; a direct offset
    /// is the next word of the stream, and the operand is the byte there in
    /// DS or in the overriding segment.
    pub open spec fn operand8(self, op: OperandType, ovr: SegmentOverride, code: Seq<u8>) -> Option<
        u8,
    > {
        match op {
            OperandType::Immediate8 | OperandType::Relative8 => Some(code[0]),
            OperandType::Offset8 => Some(
                mem_read8(
                    self.mem,
                    linear(self.regs.seg(overridden(ovr, Segment::DS)), code_word_at(code, 0)),
                ),
            ),
            OperandType::Register8(r) => Some(self.regs.get8(r)),
            OperandType::AddressingMode(m) => Some(
                mem_read8(self.mem, ea_linear(m, ovr, self.regs)),
            ),
            _ => None,
        }
    }

    /// The word that reading operand `op` gives, if it can be read as a word.
    pub open spec fn operand16(self, op: OperandType, ovr: SegmentOverride, code: Seq<u8>) -> Option<
        u16,
    > {
        match op {
            OperandType::Immediate16 | OperandType::Relative16 => Some(code_word_at(code, 0)),
            OperandType::Offset16 => Some(
                mem_read16(
                    self.mem,
                    linear(self.regs.seg(overridden(ovr, Segment::DS)), code_word_at(code, 0)),
                ),
            ),
            OperandType::Register16(r) => Some(self.regs.get16(r)),
            OperandType::AddressingMode(m) => Some(
                mem_read16(self.mem, ea_linear(m, ovr, self.regs)),
            ),
            _ => None,
        }
    }

    /// The far pointer that a memory operand holds: the offset word at the
    /// effective address, the segment word two bytes after it. Returns
    /// (segment, offset).
    pub open spec fn operand_farptr(self, op: OperandType, ovr: SegmentOverride) -> Option<
        (u16, u16),
    > {
        match op {
            OperandType::AddressingMode(m) => Some(
                (
                    mem_read16(
                        self.mem,
                        linear(
                            self.regs.seg(ea_segment(m, ovr)),
                            add16(ea_offset(m, self.regs), 2),
                        ),
                    ),
                    mem_read16(self.mem, ea_linear(m, ovr, self.regs)),
                ),
            ),
            _ => None,
        }
    }

    /// The state after an operand was read: a memory operand leaves its offset
    /// as the last effective address.
    pub open spec fn touched(self, op: OperandType) -> Arch {
        Arch { ctl: ea_noted(self.ctl, op, self.regs), ..self }
    }

    /// The state after byte `v` was written to operand `op`. Only a register,
    /// a memory operand or a direct offset takes a write; any other form
    /// leaves the state as it is.
    pub open spec fn written8(
        self,
        op: OperandType,
        ovr: SegmentOverride,
        v: u8,
        code: Seq<u8>,
    ) -> Arch {
        match op {
            OperandType::Register8(r) => Arch { regs: self.regs.set8(r, v), ..self },
            OperandType::AddressingMode(m) => Arch {
                mem: mem_write8(self.mem, ea_linear(m, ovr, self.regs), v),
                ctl: ea_noted(self.ctl, op, self.regs),
                ..self
            },
            OperandType::Offset8 => Arch {
                mem: mem_write8(
                    self.mem,
                    linear(self.regs.seg(overridden(ovr, Segment::DS)), code_word_at(code, 0)),
                    v,
                ),
                ..self
            },
            _ => self,
        }
    }

    /// The state after word `v` was written to operand `op`.
    pub open spec fn written16(
        self,
        op: OperandType,
        ovr: SegmentOverride,
        v: u16,
        code: Seq<u8>,
    ) -> Arch {
        match op {
            OperandType::Register16(r) => Arch { regs: self.regs.set16(r, v), ..self },
            OperandType::AddressingMode(m) => Arch {
                mem: mem_write16(self.mem, ea_linear(m, ovr, self.regs), v),
                ctl: ea_noted(self.ctl, op, self.regs),
                ..self
            },
            OperandType::Offset16 => Arch {
                mem: mem_write16(
                    self.mem,
                    linear(self.regs.seg(overridden(ovr, Segment::DS)), code_word_at(code, 0)),
                    v,
                ),
                ..self
            },
            _ => self,
        }
    }
}

impl Cpu {
    /// The next four bytes that queue reads will give.
    pub open spec fn code(&self) -> Seq<u8> {
        Seq::new(4, |i: int| self.code_byte(i))
    }

    /// The bytes of `code` are those of `code_byte`.
    pub proof fn lemma_code(&self)
        ensures
            self.code().len() == 4,
            forall|i: int| 0 <= i < 4 ==> #[trigger] self.code()[i] == self.code_byte(i),
            code_word_at(self.code(), 0) == self.code_word(0),
            code_word_at(self.code(), 2) == self.code_word(2),
    {
    }

    /// States with the same queue reads have the same `code`.
    pub proof fn lemma_same_code_seq(&self, other: &Cpu)
        requires
            self.same_code(other),
        ensures
            self.code() == other.code(),
    {
        assert(self.code() =~= other.code());
    }

    /// The bus address of `seg:off`, with the segment taken from its register.
    pub fn calc_linear_address_seg(&self, seg: Segment, off: u16) -> (a: u32)
        ensures
            a == linear(self.regs.seg(seg), off),
            a < 0x100000,
    {
        calc_linear_address(self.regs.segment(seg), off)
    }

    /// Value of the segment, segment and offset of a memory operand. Spends no
    /// cycle.
    pub fn calc_effective_address(&self, mode: AddressingMode, ovr: SegmentOverride) -> (r: (
        u16,
        Segment,
        u16,
    ))
        ensures
            r.1 == ea_segment(mode, ovr),
            r.0 == self.regs.seg(r.1),
            r.2 == ea_offset(mode, self.regs),
    {
        let seg = segment_override(ovr, default_segment(mode));
        (self.regs.segment(seg), seg, mode_offset(mode, &self.regs))
    }

    /// Forms the effective address of a memory operand: spends the cycles of
    /// its mode, once per instruction, and records the offset. A register
    /// operand has no address.
    pub fn load_effective_address(&mut self, op: OperandType) -> (r: Option<u16>)
        ensures
            r == match op {
                OperandType::AddressingMode(m) => Some(ea_offset(m, old(self).regs)),
                _ => None::<u16>,
            },
            final(self)@ == old(self)@.touched(op),
            final(self).i == old(self).i,
            final(self).same_code(old(self)),
            final(self).biu@ == match op {
                OperandType::AddressingMode(m) if !old(self).ctl.ea_loaded => old(self).biu@.steps(
                    old(self).regs.cs,
                    old(self)@.mem,
                    ea_cycles(m),
                ),
                _ => old(self).biu@,
            },
    {
        match op {
            OperandType::AddressingMode(m) => {
                if !self.ctl.ea_loaded {
                    self.cycles(mode_cycles(m));
                }
                let ghost mid = *self;
                let off = mode_offset(m, &self.regs);
                self.ctl.last_ea = off;
                self.ctl.ea_loaded = true;
                proof {
                    self.lemma_same_code_frame(&mid);
                    if old(self).ctl.ea_loaded {
                        mid.lemma_same_code_frame(old(self));
                    }
                    self.lemma_same_code_trans(&mid, old(self));
                }
                Some(off)
            },
            _ => {
                proof {
                    self.lemma_same_code_frame(old(self));
                }
                None
            },
        }
    }

    /// Reads an operand as a byte.
    pub fn read_operand8(&mut self, op: OperandType, ovr: SegmentOverride) -> (r: Option<u8>)
        ensures
            r == old(self)@.operand8(op, ovr, old(self).code()),
            final(self)@ == old(self)@.touched(op),
            final(self).i == old(self).i,
            final(self).code_after(old(self), code_len8(op)),
            op is Register8 ==> final(self).biu == old(self).biu,
    {
        match op {
            OperandType::Immediate8 | OperandType::Relative8 => {
                let v = self.q_read_u8(QueueType::Subsequent);
                assert(self.code_after(old(self), 1));
                Some(v)
            },
            OperandType::Offset8 => {
                let off = self.q_read_u16(QueueType::Subsequent);
                let ghost mid = *self;
                let seg = segment_override(ovr, Segment::DS);
                let a = self.calc_linear_address_seg(seg, off);
                let v = self.biu_read_u8(seg, a);
                proof {
                    assert forall|i: int| i >= 0 implies #[trigger] self.code_byte(i) == old(
                        self,
                    ).code_byte(i + 2) by {
                        assert(self.code_byte(i) == mid.code_byte(i));
                    }
                    assert(self.code_after(old(self), 2));
                }
                Some(v)
            },
            OperandType::Register8(r) => {
                proof {
                    self.lemma_same_code_frame(old(self));
                }
                Some(self.regs.read8(r))
            },
            OperandType::AddressingMode(m) => {
                self.load_effective_address(op);
                let ghost mid = *self;
                let (_, seg, off) = self.calc_effective_address(m, ovr);
                let a = self.calc_linear_address_seg(seg, off);
                let v = self.biu_read_u8(seg, a);
                proof {
                    self.lemma_same_code_trans(&mid, old(self));
                    self.lemma_same_code_after(old(self));
                }
                Some(v)
            },
            _ => {
                proof {
                    self.lemma_same_code_frame(old(self));
                }
                None
            },
        }
    }

    /// Reads an operand as a word.
    pub fn read_operand16(&mut self, op: OperandType, ovr: SegmentOverride) -> (r: Option<u16>)
        ensures
            r == old(self)@.operand16(op, ovr, old(self).code()),
            final(self)@ == old(self)@.touched(op),
            final(self).i == old(self).i,
            final(self).code_after(old(self), code_len16(op)),
            op is Register16 ==> final(self).biu == old(self).biu,
    {
        match op {
            OperandType::Immediate16 | OperandType::Relative16 => {
                let v = self.q_read_u16(QueueType::Subsequent);
                assert(self.code_after(old(self), 2));
                Some(v)
            },
            OperandType::Offset16 => {
                let off = self.q_read_u16(QueueType::Subsequent);
                let ghost mid = *self;
                let seg = segment_override(ovr, Segment::DS);
                let a = self.calc_linear_address_seg(seg, off);
                let v = self.biu_read_u16(seg, a, ReadWriteFlag::Normal);
                proof {
                    assert forall|i: int| i >= 0 implies #[trigger] self.code_byte(i) == old(
                        self,
                    ).code_byte(i + 2) by {
                        assert(self.code_byte(i) == mid.code_byte(i));
                    }
                    assert(self.code_after(old(self), 2));
                }
                Some(v)
            },
            OperandType::Register16(r) => {
                proof {
                    self.lemma_same_code_frame(old(self));
                }
                Some(self.regs.read16(r))
            },
            OperandType::AddressingMode(m) => {
                self.load_effective_address(op);
                let ghost mid = *self;
                let (_, seg, off) = self.calc_effective_address(m, ovr);
                let a = self.calc_linear_address_seg(seg, off);
                let v = self.biu_read_u16(seg, a, ReadWriteFlag::Normal);
                proof {
                    self.lemma_same_code_trans(&mid, old(self));
                    self.lemma_same_code_after(old(self));
                }
                Some(v)
            },
            _ => {
                proof {
                    self.lemma_same_code_frame(old(self));
                }
                None
            },
        }
    }

    /// Reads the far pointer that a memory operand holds. Returns
    /// (segment, offset).
    pub fn read_operand_farptr(
        &mut self,
        op: OperandType,
        ovr: SegmentOverride,
        flag: ReadWriteFlag,
    ) -> (r: Option<(u16, u16)>)
        ensures
            r == old(self)@.operand_farptr(op, ovr),
            final(self)@ == old(self)@.touched(op),
            final(self).i == old(self).i,
            final(self).same_code(old(self)),
    {
        match op {
            OperandType::AddressingMode(m) => {
                self.load_effective_address(op);
                let ghost mid = *self;
                let (_, seg, off) = self.calc_effective_address(m, ovr);
                let a = self.calc_linear_address_seg(seg, off);
                let offset = self.biu_read_u16(seg, a, ReadWriteFlag::Normal);
                let ghost mid2 = *self;
                let a2 = self.calc_linear_address_seg(seg, offset_add(off, 2));
                let segment = self.biu_read_u16(seg, a2, flag);
                proof {
                    mid2.lemma_same_code_trans(&mid, old(self));
                    self.lemma_same_code_trans(&mid2, old(self));
                }
                Some((segment, offset))
            },
            _ => {
                proof {
                    self.lemma_same_code_frame(old(self));
                }
                None
            },
        }
    }

    /// Reads a far address from the instruction stream: offset word, then
    /// segment word. Returns (segment, offset).
    pub fn read_operand_faraddr(&mut self) -> (r: (u16, u16))
        ensures
            r.1 == old(self).code_word(0),
            r.0 == old(self).code_word(2),
            final(self).timing_only(old(self)),
            final(self).code_after(old(self), 4),
    {
        let offset = self.q_read_u16(QueueType::Subsequent);
        let ghost mid = *self;
        let segment = self.q_read_u16(QueueType::Subsequent);
        proof {
            assert(mid.code_byte(0) == old(self).code_byte(2));
            assert(mid.code_byte(1) == old(self).code_byte(3));
            assert forall|i: int| i >= 0 implies #[trigger] self.code_byte(i) == old(
                self,
            ).code_byte(i + 4) by {
                assert(self.code_byte(i) == mid.code_byte(i + 2));
                assert(mid.code_byte(i + 2) == old(self).code_byte(i + 4));
            }
        }
        (segment, offset)
    }

    /// Writes a byte to an operand.
    pub fn write_operand8(
        &mut self,
        op: OperandType,
        ovr: SegmentOverride,
        v: u8,
        flag: ReadWriteFlag,
    )
        ensures
            final(self)@ == old(self)@.written8(op, ovr, v, old(self).code()),
            final(self).i == old(self).i,
            op is Register8 ==> final(self).biu == old(self).biu,
    {
        match op {
            OperandType::Register8(r) => {
                self.regs.write8(r, v);
            },
            OperandType::AddressingMode(m) => {
                self.load_effective_address(op);
                let (_, seg, off) = self.calc_effective_address(m, ovr);
                let a = self.calc_linear_address_seg(seg, off);
                self.biu_write_u8(seg, a, v, flag);
            },
            OperandType::Offset8 => {
                let off = self.q_read_u16(QueueType::Subsequent);
                let seg = segment_override(ovr, Segment::DS);
                let a = self.calc_linear_address_seg(seg, off);
                self.biu_write_u8(seg, a, v, flag);
            },
            _ => {},
        }
    }

    /// Writes a word to an operand.
    pub fn write_operand16(
        &mut self,
        op: OperandType,
        ovr: SegmentOverride,
        v: u16,
        flag: ReadWriteFlag,
    )
        ensures
            final(self)@ == old(self)@.written16(op, ovr, v, old(self).code()),
            final(self).i == old(self).i,
            op is Register16 ==> final(self).biu == old(self).biu,
    {
        match op {
            OperandType::Register16(r) => {
                self.regs.write16(r, v);
            },
            OperandType::AddressingMode(m) => {
                self.load_effective_address(op);
                let (_, seg, off) = self.calc_effective_address(m, ovr);
                let a = self.calc_linear_address_seg(seg, off);
                self.biu_write_u16(seg, a, v, flag);
            },
            OperandType::Offset16 => {
                let off = self.q_read_u16(QueueType::Subsequent);
                let seg = segment_override(ovr, Segment::DS);
                let a = self.calc_linear_address_seg(seg, off);
                self.biu_write_u16(seg, a, v, flag);
            },
            _ => {},
        }
    }
}

} // verus!
