//! Register file and flag word of the 8088.
use vstd::prelude::*;

verus! {

/// The eight byte registers, in ModR/M encoding order.
#[derive(Clone, Copy, Debug, PartialEq, Eq, Structural)]
pub enum Register8 {
    AL,
    CL,
    DL,
    BL,
    AH,
    CH,
    DH,
    BH,
}

/// The word registers: general, pointer and index registers in ModR/M
/// encoding order, then the segment registers and the instruction pointer.
#[derive(Clone, Copy, Debug, PartialEq, Eq, Structural)]
pub enum Register16 {
    AX,
    CX,
    DX,
    BX,
    SP,
    BP,
    SI,
    DI,
    ES,
    CS,
    SS,
    DS,
    IP,
}

/// A segment register selected for a bus access.
#[derive(Clone, Copy, Debug, PartialEq, Eq, Structural)]
pub enum Segment {
    ES,
    CS,
    SS,
    DS,
}

/// The segment override recorded by the decode stage.
#[derive(Clone, Copy, Debug, PartialEq, Eq, Structural)]
pub enum SegmentOverride {
    NoOverride,
    ES,
    CS,
    SS,
    DS,
}

/// The nine architecturally defined flags.
#[derive(Clone, Copy, Debug, PartialEq, Eq, Structural)]
pub enum Flag {
    Carry,
    Parity,
    AuxCarry,
    Zero,
    Sign,
    Trap,
    Interrupt,
    Direction,
    Overflow,
}

pub const CPU_FLAG_CARRY: u16 = 0x0001;
pub const CPU_FLAG_RESERVED1: u16 = 0x0002;
pub const CPU_FLAG_PARITY: u16 = 0x0004;
pub const CPU_FLAG_AUX_CARRY: u16 = 0x0010;
pub const CPU_FLAG_ZERO: u16 = 0x0040;
pub const CPU_FLAG_SIGN: u16 = 0x0080;
pub const CPU_FLAG_TRAP: u16 = 0x0100;
pub const CPU_FLAG_INT_ENABLE: u16 = 0x0200;
pub const CPU_FLAG_DIRECTION: u16 = 0x0400;
pub const CPU_FLAG_OVERFLOW: u16 = 0x0800;
/// Bits 12 to 15 and bit 1 read as one on the 8088; bits 3 and 5 read as zero.
pub const CPU_FLAGS_ALWAYS_ON: u16 = 0xF002;

/// The flag word, held as one boolean per defined bit. The undefined bits are
/// not stored: they are forced when the word is assembled.
#[derive(Clone, Copy, Debug, PartialEq, Eq, Structural)]
pub struct Flags {
    pub carry: bool,
    pub parity: bool,
    pub aux_carry: bool,
    pub zero: bool,
    pub sign: bool,
    pub trap: bool,
    pub interrupt: bool,
    pub direction: bool,
    pub overflow: bool,
}

/// The value of bit `k` of `w` (0 or 1).
pub open spec fn bit_of(w: int, k: int) -> bool {
    (w / pow2_small(k)) % 2 == 1
}

/// Two to the power `k`, for `k` in 0..=15.
pub open spec fn pow2_small(k: int) -> int {
    if k == 0 {
        1
    } else if k == 1 {
        2
    } else if k == 2 {
        4
    } else if k == 3 {
        8
    } else if k == 4 {
        16
    } else if k == 5 {
        32
    } else if k == 6 {
        64
    } else if k == 7 {
        128
    } else if k == 8 {
        256
    } else if k == 9 {
        512
    } else if k == 10 {
        1024
    } else if k == 11 {
        2048
    } else if k == 12 {
        4096
    } else if k == 13 {
        8192
    } else if k == 14 {
        16384
    } else {
        32768
    }
}

pub open spec fn b2i(b: bool) -> int {
    if b {
        1
    } else {
        0
    }
}

impl Flags {
    /// The low byte of the flag word, as LAHF loads it: bit 1 reads as one,
    /// bits 3 and 5 as zero.
    pub open spec fn low(self) -> int {
        2 + b2i(self.carry) + 4 * b2i(self.parity) + 16 * b2i(self.aux_carry) + 64 * b2i(
            self.zero,
        ) + 128 * b2i(self.sign)
    }

    /// The high byte of the flag word: bits 12 to 15 read as one.
    pub open spec fn high(self) -> int {
        0xF0 + b2i(self.trap) + 2 * b2i(self.interrupt) + 4 * b2i(self.direction) + 8 * b2i(
            self.overflow,
        )
    }

    /// The flag word as PUSHF stores it.
    pub open spec fn word(self) -> int {
        256 * self.high() + self.low()
    }

    /// The flags that POPF loads from a word: the defined bits only.
    pub open spec fn of_word(w: u16) -> Flags {
        Flags {
            carry: bit_of(w as int, 0),
            parity: bit_of(w as int, 2),
            aux_carry: bit_of(w as int, 4),
            zero: bit_of(w as int, 6),
            sign: bit_of(w as int, 7),
            trap: bit_of(w as int, 8),
            interrupt: bit_of(w as int, 9),
            direction: bit_of(w as int, 10),
            overflow: bit_of(w as int, 11),
        }
    }

    /// The flags after SAHF loads the low byte `b`: the five status flags of
    /// the low byte change, the others stay.
    pub open spec fn with_low_byte(self, b: u8) -> Flags {
        Flags {
            carry: bit_of(b as int, 0),
            parity: bit_of(b as int, 2),
            aux_carry: bit_of(b as int, 4),
            zero: bit_of(b as int, 6),
            sign: bit_of(b as int, 7),
            ..self
        }
    }

    pub open spec fn get(self, f: Flag) -> bool {
        match f {
            Flag::Carry => self.carry,
            Flag::Parity => self.parity,
            Flag::AuxCarry => self.aux_carry,
            Flag::Zero => self.zero,
            Flag::Sign => self.sign,
            Flag::Trap => self.trap,
            Flag::Interrupt => self.interrupt,
            Flag::Direction => self.direction,
            Flag::Overflow => self.overflow,
        }
    }

    pub open spec fn with(self, f: Flag, v: bool) -> Flags {
        match f {
            Flag::Carry => Flags { carry: v, ..self },
            Flag::Parity => Flags { parity: v, ..self },
            Flag::AuxCarry => Flags { aux_carry: v, ..self },
            Flag::Zero => Flags { zero: v, ..self },
            Flag::Sign => Flags { sign: v, ..self },
            Flag::Trap => Flags { trap: v, ..self },
            Flag::Interrupt => Flags { interrupt: v, ..self },
            Flag::Direction => Flags { direction: v, ..self },
            Flag::Overflow => Flags { overflow: v, ..self },
        }
    }

    /// All flags clear, as after reset.
    pub fn cleared() -> (f: Flags)
        ensures
            f.word() == 0xF002,
            forall|k: Flag| !f.get(k),
    {
        Flags {
            carry: false,
            parity: false,
            aux_carry: false,
            zero: false,
            sign: false,
            trap: false,
            interrupt: false,
            direction: false,
            overflow: false,
        }
    }

    pub fn flag(&self, f: Flag) -> (b: bool)
        ensures
            b == self.get(f),
    {
        match f {
            Flag::Carry => self.carry,
            Flag::Parity => self.parity,
            Flag::AuxCarry => self.aux_carry,
            Flag::Zero => self.zero,
            Flag::Sign => self.sign,
            Flag::Trap => self.trap,
            Flag::Interrupt => self.interrupt,
            Flag::Direction => self.direction,
            Flag::Overflow => self.overflow,
        }
    }

    pub fn set_state(&mut self, f: Flag, v: bool)
        ensures
            *final(self) == old(self).with(f, v),
    {
        match f {
            Flag::Carry => self.carry = v,
            Flag::Parity => self.parity = v,
            Flag::AuxCarry => self.aux_carry = v,
            Flag::Zero => self.zero = v,
            Flag::Sign => self.sign = v,
            Flag::Trap => self.trap = v,
            Flag::Interrupt => self.interrupt = v,
            Flag::Direction => self.direction = v,
            Flag::Overflow => self.overflow = v,
        }
    }

    /// Assembles the flag word, forcing the bits that the hardware forces.
    pub fn to_word(&self) -> (w: u16)
        ensures
            w == self.word(),
    {
        let l: u16 = self.low_byte() as u16;
        let mut h: u16 = 0xF0;
        if self.trap {
            h = h + 1;
        }
        if self.interrupt {
            h = h + 2;
        }
        if self.direction {
            h = h + 4;
        }
        if self.overflow {
            h = h + 8;
        }
        h * 256 + l
    }

    /// Loads the defined bits of a flag word; the undefined bits are dropped.
    pub fn from_word(w: u16) -> (f: Flags)
        ensures
            f == Flags::of_word(w),
    {
        Flags {
            carry: w % 2 == 1,
            parity: (w / 4) % 2 == 1,
            aux_carry: (w / 16) % 2 == 1,
            zero: (w / 64) % 2 == 1,
            sign: (w / 128) % 2 == 1,
            trap: (w / 256) % 2 == 1,
            interrupt: (w / 512) % 2 == 1,
            direction: (w / 1024) % 2 == 1,
            overflow: (w / 2048) % 2 == 1,
        }
    }

    /// SAHF: loads the five status flags of the low byte.
    pub fn store_low_byte(&mut self, b: u8)
        ensures
            *final(self) == old(self).with_low_byte(b),
    {
        self.carry = b % 2 == 1;
        self.parity = (b / 4) % 2 == 1;
        self.aux_carry = (b / 16) % 2 == 1;
        self.zero = (b / 64) % 2 == 1;
        self.sign = (b / 128) % 2 == 1;
    }

    /// LAHF: the low byte of the flag word.
    pub fn low_byte(&self) -> (b: u8)
        ensures
            b == self.low(),
    {
        let mut b: u8 = 2;
        if self.carry {
            b = b + 1;
        }
        if self.parity {
            b = b + 4;
        }
        if self.aux_carry {
            b = b + 16;
        }
        if self.zero {
            b = b + 64;
        }
        if self.sign {
            b = b + 128;
        }
        b
    }
}

/// Storing the low byte that LAHF loaded changes no flag.
pub proof fn lemma_flag_low_byte_round_trip(f: Flags)
    ensures
        2 <= f.low() <= 0xD7,
        f.with_low_byte(f.low() as u8) == f,
{
}

/// Every flag survives a trip through the flag word.
pub proof fn lemma_flag_word_round_trip(f: Flags)
    ensures
        0xF002 <= f.word() <= 0xFFD7,
        Flags::of_word(f.word() as u16) == f,
{
}

/// The register file.
#[derive(Clone, Copy, Debug, PartialEq, Eq, Structural)]
pub struct Registers {
    pub ax: u16,
    pub bx: u16,
    pub cx: u16,
    pub dx: u16,
    pub sp: u16,
    pub bp: u16,
    pub si: u16,
    pub di: u16,
    pub cs: u16,
    pub ds: u16,
    pub es: u16,
    pub ss: u16,
    pub ip: u16,
}

/// The low byte of a word.
pub open spec fn lo(w: u16) -> u8 {
    (w % 256) as u8
}

/// The high byte of a word.
pub open spec fn hi(w: u16) -> u8 {
    (w / 256) as u8
}

/// The word with low byte `l` and high byte `h`.
pub open spec fn word_of(l: u8, h: u8) -> u16 {
    (h * 256 + l) as u16
}

/// The 20-bit bus address of `seg:off`.
pub open spec fn linear(seg: u16, off: u16) -> int {
    (seg * 16 + off) % 0x100000
}

pub fn low_byte_of(w: u16) -> (b: u8)
    ensures
        b == lo(w),
{
    (w % 256) as u8
}

pub fn high_byte_of(w: u16) -> (b: u8)
    ensures
        b == hi(w),
{
    (w / 256) as u8
}

pub fn make_word(l: u8, h: u8) -> (w: u16)
    ensures
        w == word_of(l, h),
        lo(w) == l,
        hi(w) == h,
{
    (h as u16) * 256 + (l as u16)
}

/// The bus address of `seg:off`: the segment shifted by four bits plus the
/// offset, wrapped to 20 bits.
pub fn calc_linear_address(seg: u16, off: u16) -> (a: u32)
    ensures
        a == linear(seg, off),
        a < 0x100000,
{
    ((seg as u32) * 16 + (off as u32)) % 0x100000
}

impl Registers {
    pub open spec fn get16(self, r: Register16) -> u16 {
        match r {
            Register16::AX => self.ax,
            Register16::CX => self.cx,
            Register16::DX => self.dx,
            Register16::BX => self.bx,
            Register16::SP => self.sp,
            Register16::BP => self.bp,
            Register16::SI => self.si,
            Register16::DI => self.di,
            Register16::ES => self.es,
            Register16::CS => self.cs,
            Register16::SS => self.ss,
            Register16::DS => self.ds,
            Register16::IP => self.ip,
        }
    }

    pub open spec fn set16(self, r: Register16, v: u16) -> Registers {
        match r {
            Register16::AX => Registers { ax: v, ..self },
            Register16::CX => Registers { cx: v, ..self },
            Register16::DX => Registers { dx: v, ..self },
            Register16::BX => Registers { bx: v, ..self },
            Register16::SP => Registers { sp: v, ..self },
            Register16::BP => Registers { bp: v, ..self },
            Register16::SI => Registers { si: v, ..self },
            Register16::DI => Registers { di: v, ..self },
            Register16::ES => Registers { es: v, ..self },
            Register16::CS => Registers { cs: v, ..self },
            Register16::SS => Registers { ss: v, ..self },
            Register16::DS => Registers { ds: v, ..self },
            Register16::IP => Registers { ip: v, ..self },
        }
    }

    #[verifier::opaque]
    pub open spec fn get8(self, r: Register8) -> u8 {
        match r {
            Register8::AL => lo(self.ax),
            Register8::CL => lo(self.cx),
            Register8::DL => lo(self.dx),
            Register8::BL => lo(self.bx),
            Register8::AH => hi(self.ax),
            Register8::CH => hi(self.cx),
            Register8::DH => hi(self.dx),
            Register8::BH => hi(self.bx),
        }
    }

    #[verifier::opaque]
    pub open spec fn set8(self, r: Register8, v: u8) -> Registers {
        match r {
            Register8::AL => Registers { ax: word_of(v, hi(self.ax)), ..self },
            Register8::CL => Registers { cx: word_of(v, hi(self.cx)), ..self },
            Register8::DL => Registers { dx: word_of(v, hi(self.dx)), ..self },
            Register8::BL => Registers { bx: word_of(v, hi(self.bx)), ..self },
            Register8::AH => Registers { ax: word_of(lo(self.ax), v), ..self },
            Register8::CH => Registers { cx: word_of(lo(self.cx), v), ..self },
            Register8::DH => Registers { dx: word_of(lo(self.dx), v), ..self },
            Register8::BH => Registers { bx: word_of(lo(self.bx), v), ..self },
        }
    }

    pub open spec fn seg(self, s: Segment) -> u16 {
        match s {
            Segment::ES => self.es,
            Segment::CS => self.cs,
            Segment::SS => self.ss,
            Segment::DS => self.ds,
        }
    }

    /// The register file after reset: CS is 0xFFFF, everything else zero.
    pub fn at_reset() -> (r: Registers)
        ensures
            r.cs == 0xFFFF,
            r.ip == 0,
            forall|k: Register16| k != Register16::CS ==> r.get16(k) == 0,
    {
        Registers {
            ax: 0,
            bx: 0,
            cx: 0,
            dx: 0,
            sp: 0,
            bp: 0,
            si: 0,
            di: 0,
            cs: 0xFFFF,
            ds: 0,
            es: 0,
            ss: 0,
            ip: 0,
        }
    }

    pub fn read16(&self, r: Register16) -> (v: u16)
        ensures
            v == self.get16(r),
    {
        match r {
            Register16::AX => self.ax,
            Register16::CX => self.cx,
            Register16::DX => self.dx,
            Register16::BX => self.bx,
            Register16::SP => self.sp,
            Register16::BP => self.bp,
            Register16::SI => self.si,
            Register16::DI => self.di,
            Register16::ES => self.es,
            Register16::CS => self.cs,
            Register16::SS => self.ss,
            Register16::DS => self.ds,
            Register16::IP => self.ip,
        }
    }

    pub fn write16(&mut self, r: Register16, v: u16)
        ensures
            *final(self) == old(self).set16(r, v),
            final(self).get16(r) == v,
    {
        match r {
            Register16::AX => self.ax = v,
            Register16::CX => self.cx = v,
            Register16::DX => self.dx = v,
            Register16::BX => self.bx = v,
            Register16::SP => self.sp = v,
            Register16::BP => self.bp = v,
            Register16::SI => self.si = v,
            Register16::DI => self.di = v,
            Register16::ES => self.es = v,
            Register16::CS => self.cs = v,
            Register16::SS => self.ss = v,
            Register16::DS => self.ds = v,
            Register16::IP => self.ip = v,
        }
    }

    pub fn read8(&self, r: Register8) -> (v: u8)
        ensures
            v == self.get8(r),
    {
        reveal(Registers::get8);
        match r {
            Register8::AL => low_byte_of(self.ax),
            Register8::CL => low_byte_of(self.cx),
            Register8::DL => low_byte_of(self.dx),
            Register8::BL => low_byte_of(self.bx),
            Register8::AH => high_byte_of(self.ax),
            Register8::CH => high_byte_of(self.cx),
            Register8::DH => high_byte_of(self.dx),
            Register8::BH => high_byte_of(self.bx),
        }
    }

    pub fn write8(&mut self, r: Register8, v: u8)
        ensures
            *final(self) == old(self).set8(r, v),
            final(self).get8(r) == v,
    {
        reveal(Registers::get8);
        reveal(Registers::set8);
        match r {
            Register8::AL => self.ax = make_word(v, high_byte_of(self.ax)),
            Register8::CL => self.cx = make_word(v, high_byte_of(self.cx)),
            Register8::DL => self.dx = make_word(v, high_byte_of(self.dx)),
            Register8::BL => self.bx = make_word(v, high_byte_of(self.bx)),
            Register8::AH => self.ax = make_word(low_byte_of(self.ax), v),
            Register8::CH => self.cx = make_word(low_byte_of(self.cx), v),
            Register8::DH => self.dx = make_word(low_byte_of(self.dx), v),
            Register8::BH => self.bx = make_word(low_byte_of(self.bx), v),
        }
    }

    pub fn segment(&self, s: Segment) -> (v: u16)
        ensures
            v == self.seg(s),
    {
        match s {
            Segment::ES => self.es,
            Segment::CS => self.cs,
            Segment::SS => self.ss,
            Segment::DS => self.ds,
        }
    }
}

/// What the byte registers are to the word registers: AL and AH are the low
/// and the high byte of AX, and so on; a write to a byte register changes no
/// other byte.
pub proof fn lemma_byte_registers(r: Registers, k: Register8, v: u8)
    ensures
        r.get8(Register8::AL) == lo(r.ax),
        r.get8(Register8::AH) == hi(r.ax),
        r.get8(Register8::BL) == lo(r.bx),
        r.get8(Register8::BH) == hi(r.bx),
        r.get8(Register8::CL) == lo(r.cx),
        r.get8(Register8::CH) == hi(r.cx),
        r.get8(Register8::DL) == lo(r.dx),
        r.get8(Register8::DH) == hi(r.dx),
        r.set8(k, v).get8(k) == v,
        forall|j: Register8| j != k ==> r.set8(k, v).get8(j) == r.get8(j),
        forall|w: Register16|
            w != Register16::AX && w != Register16::BX && w != Register16::CX && w
                != Register16::DX ==> r.set8(k, v).get16(w) == r.get16(w),
        r.set8(Register8::AL, v) == (Registers { ax: word_of(v, hi(r.ax)), ..r }),
        r.set8(Register8::AH, v) == (Registers { ax: word_of(lo(r.ax), v), ..r }),
{
    reveal(Registers::get8);
    reveal(Registers::set8);
}

/// The word register with the same encoding index as a byte register: what
/// the 8-bit forms of the indirect jumps and calls read when the operand is a
/// register.
pub open spec fn reg8_to_16(r: Register8) -> Register16 {
    match r {
        Register8::AL => Register16::AX,
        Register8::CL => Register16::CX,
        Register8::DL => Register16::DX,
        Register8::BL => Register16::BX,
        Register8::AH => Register16::SP,
        Register8::CH => Register16::BP,
        Register8::DH => Register16::SI,
        Register8::BH => Register16::DI,
    }
}

pub fn reg8to16(r: Register8) -> (w: Register16)
    ensures
        w == reg8_to_16(r),
{
    match r {
        Register8::AL => Register16::AX,
        Register8::CL => Register16::CX,
        Register8::DL => Register16::DX,
        Register8::BL => Register16::BX,
        Register8::AH => Register16::SP,
        Register8::CH => Register16::BP,
        Register8::DH => Register16::SI,
        Register8::BH => Register16::DI,
    }
}

/// The word register selected by the low three bits of an opcode.
pub open spec fn reg16_of_index(i: int) -> Register16 {
    if i == 0 {
        Register16::AX
    } else if i == 1 {
        Register16::CX
    } else if i == 2 {
        Register16::DX
    } else if i == 3 {
        Register16::BX
    } else if i == 4 {
        Register16::SP
    } else if i == 5 {
        Register16::BP
    } else if i == 6 {
        Register16::SI
    } else {
        Register16::DI
    }
}

pub fn register16_lut(opcode: u8) -> (r: Register16)
    ensures
        r == reg16_of_index(opcode as int % 8),
{
    let i: u8 = opcode % 8;
    if i == 0 {
        Register16::AX
    } else if i == 1 {
        Register16::CX
    } else if i == 2 {
        Register16::DX
    } else if i == 3 {
        Register16::BX
    } else if i == 4 {
        Register16::SP
    } else if i == 5 {
        Register16::BP
    } else if i == 6 {
        Register16::SI
    } else {
        Register16::DI
    }
}

} // verus!
