//! The arithmetic and logic unit: pure functions from operands and flags to a
//! result and flags. Nothing here touches the bus.
use vstd::prelude::*;
use crate::cpu_808x::instruction::Mnemonic;
use crate::cpu_808x::registers::{b2i, Flags};

verus! {

/// The number of one bits among the low `n` bits of `v`.
pub open spec fn ones(v: int, n: nat) -> int
    decreases n,
{
    if n == 0 {
        0
    } else {
        v % 2 + ones(v / 2, (n - 1) as nat)
    }
}

/// The parity flag of a result: set when its low byte has an even number of
/// one bits.
#[verifier::opaque]
pub open spec fn parity_even(v: int) -> bool {
    ones(v % 256, 8) % 2 == 0
}

/// 256 for byte operations, 65536 for word operations.
pub open spec fn modulus(word: bool) -> int {
    if word {
        0x10000
    } else {
        0x100
    }
}

/// The weight of the sign bit.
pub open spec fn sign_bit(word: bool) -> int {
    if word {
        0x8000
    } else {
        0x80
    }
}

/// `v` reduced to the operand width.
pub open spec fn wrap(v: int, word: bool) -> int {
    if word {
        v % 0x10000
    } else {
        v % 0x100
    }
}

/// The two's complement value of an operand.
pub open spec fn signed(v: int, word: bool) -> int {
    if v >= sign_bit(word) {
        v - modulus(word)
    } else {
        v
    }
}

/// Sign, zero and parity of a result; the other flags stay.
pub open spec fn szp(res: int, word: bool, f: Flags) -> Flags {
    Flags { sign: res >= sign_bit(word), zero: res == 0, parity: parity_even(res), ..f }
}

/// Addition with carry in: the sum, and all six status flags.
pub open spec fn add_spec(a: int, b: int, c: bool, word: bool, f: Flags) -> (int, Flags) {
    let sum = a + b + b2i(c);
    let res = wrap(sum, word);
    let s = signed(a, word) + signed(b, word) + b2i(c);
    (
        res,
        Flags {
            carry: sum >= modulus(word),
            aux_carry: a % 16 + b % 16 + b2i(c) > 15,
            overflow: s >= sign_bit(word) || s < -sign_bit(word),
            ..szp(res, word, f)
        },
    )
}

/// Subtraction with borrow in: the difference, and all six status flags.
pub open spec fn sub_spec(a: int, b: int, c: bool, word: bool, f: Flags) -> (int, Flags) {
    let res = wrap(a - b - b2i(c), word);
    let s = signed(a, word) - signed(b, word) - b2i(c);
    (
        res,
        Flags {
            carry: a < b + b2i(c),
            aux_carry: a % 16 < b % 16 + b2i(c),
            overflow: s >= sign_bit(word) || s < -sign_bit(word),
            ..szp(res, word, f)
        },
    )
}

/// The flags after AND, OR, XOR and TEST: carry, overflow and auxiliary carry
/// cleared, the rest from the result.
pub open spec fn logic_flags(res: int, word: bool, f: Flags) -> Flags {
    Flags { carry: false, overflow: false, aux_carry: false, ..szp(res, word, f) }
}

/// What `math_op8` computes. INC and DEC keep the carry flag; NEG subtracts
/// from zero; NOT changes no flag; CMP and TEST give the result that is then
/// thrown away. A mnemonic that is no ALU operation leaves operand and flags
/// as they are.
#[verifier::opaque]
pub open spec fn alu8(m: Mnemonic, a: u8, b: u8, f: Flags) -> (u8, Flags) {
    match m {
        Mnemonic::ADD => {
            let (r, g) = add_spec(a as int, b as int, false, false, f);
            (r as u8, g)
        },
        Mnemonic::ADC => {
            let (r, g) = add_spec(a as int, b as int, f.carry, false, f);
            (r as u8, g)
        },
        Mnemonic::SUB | Mnemonic::CMP => {
            let (r, g) = sub_spec(a as int, b as int, false, false, f);
            (r as u8, g)
        },
        Mnemonic::SBB => {
            let (r, g) = sub_spec(a as int, b as int, f.carry, false, f);
            (r as u8, g)
        },
        Mnemonic::INC => {
            let (r, g) = add_spec(a as int, 1, false, false, f);
            (r as u8, Flags { carry: f.carry, ..g })
        },
        Mnemonic::DEC => {
            let (r, g) = sub_spec(a as int, 1, false, false, f);
            (r as u8, Flags { carry: f.carry, ..g })
        },
        Mnemonic::NEG => {
            let (r, g) = sub_spec(0, a as int, false, false, f);
            (r as u8, g)
        },
        Mnemonic::NOT => ((255 - a) as u8, f),
        Mnemonic::AND | Mnemonic::TEST => (a & b, logic_flags((a & b) as int, false, f)),
        Mnemonic::OR => (a | b, logic_flags((a | b) as int, false, f)),
        Mnemonic::XOR => (a ^ b, logic_flags((a ^ b) as int, false, f)),
        _ => (a, f),
    }
}

/// What `math_op16` computes: as `alu8`, on words. Parity is that of the low
/// byte.
#[verifier::opaque]
pub open spec fn alu16(m: Mnemonic, a: u16, b: u16, f: Flags) -> (u16, Flags) {
    match m {
        Mnemonic::ADD => {
            let (r, g) = add_spec(a as int, b as int, false, true, f);
            (r as u16, g)
        },
        Mnemonic::ADC => {
            let (r, g) = add_spec(a as int, b as int, f.carry, true, f);
            (r as u16, g)
        },
        Mnemonic::SUB | Mnemonic::CMP => {
            let (r, g) = sub_spec(a as int, b as int, false, true, f);
            (r as u16, g)
        },
        Mnemonic::SBB => {
            let (r, g) = sub_spec(a as int, b as int, f.carry, true, f);
            (r as u16, g)
        },
        Mnemonic::INC => {
            let (r, g) = add_spec(a as int, 1, false, true, f);
            (r as u16, Flags { carry: f.carry, ..g })
        },
        Mnemonic::DEC => {
            let (r, g) = sub_spec(a as int, 1, false, true, f);
            (r as u16, Flags { carry: f.carry, ..g })
        },
        Mnemonic::NEG => {
            let (r, g) = sub_spec(0, a as int, false, true, f);
            (r as u16, g)
        },
        Mnemonic::NOT => ((65535 - a) as u16, f),
        Mnemonic::AND | Mnemonic::TEST => (a & b, logic_flags((a & b) as int, true, f)),
        Mnemonic::OR => (a | b, logic_flags((a | b) as int, true, f)),
        Mnemonic::XOR => (a ^ b, logic_flags((a ^ b) as int, true, f)),
        _ => (a, f),
    }
}

/// A negative difference wraps by adding the modulus once.
pub proof fn lemma_wrap_negative(d: int, m: int)
    requires
        0 < m,
        -m <= d < 0,
    ensures
        d % m == d + m,
{
    vstd::arithmetic::div_mod::lemma_fundamental_div_mod_converse(d, m, -1, d + m);
}

pub fn parity8(v: u8) -> (p: bool)
    ensures
        p == parity_even(v as int),
{
    let mut x: u8 = v;
    let mut n: u8 = 0;
    let mut i: u8 = 0;
    while i < 8
        invariant
            i <= 8,
            n <= i,
            n + ones(x as int, (8 - i) as nat) == ones(v as int, 8),
        decreases 8 - i,
    {
        n = n + x % 2;
        x = x / 2;
        i = i + 1;
    }
    proof {
        reveal(parity_even);
    }
    n % 2 == 0
}

/// Sets sign, zero and parity from a byte result.
pub fn set_szp8(res: u8, f: Flags) -> (g: Flags)
    ensures
        g == szp(res as int, false, f),
{
    let mut g = f;
    g.sign = res >= 0x80;
    g.zero = res == 0;
    g.parity = parity8(res);
    g
}

/// Sets sign, zero and parity from a word result.
pub fn set_szp16(res: u16, f: Flags) -> (g: Flags)
    ensures
        g == szp(res as int, true, f),
{
    let mut g = f;
    g.sign = res >= 0x8000;
    g.zero = res == 0;
    g.parity = parity8((res % 256) as u8);
    proof {
        reveal(parity_even);
    }
    g
}

fn add8(a: u8, b: u8, c: bool, f: Flags) -> (r: (u8, Flags))
    ensures
        r.0 as int == add_spec(a as int, b as int, c, false, f).0,
        r.1 == add_spec(a as int, b as int, c, false, f).1,
{
    let cin: u16 = if c {
        1
    } else {
        0
    };
    let sum: u16 = a as u16 + b as u16 + cin;
    let res: u8 = (sum % 256) as u8;
    let sa: i16 = if a >= 0x80 {
        a as i16 - 256
    } else {
        a as i16
    };
    let sb: i16 = if b >= 0x80 {
        b as i16 - 256
    } else {
        b as i16
    };
    let s: i16 = sa + sb + (cin as i16);
    let mut g = set_szp8(res, f);
    g.carry = sum >= 0x100;
    g.aux_carry = (a % 16) as u16 + (b % 16) as u16 + cin > 15;
    g.overflow = s >= 0x80 || s < -0x80;
    (res, g)
}

fn sub8(a: u8, b: u8, c: bool, f: Flags) -> (r: (u8, Flags))
    ensures
        r.0 as int == sub_spec(a as int, b as int, c, false, f).0,
        r.1 == sub_spec(a as int, b as int, c, false, f).1,
{
    let cin: i16 = if c {
        1
    } else {
        0
    };
    let diff: i16 = a as i16 - b as i16 - cin;
    let res: u8 = if diff < 0 {
        proof {
            lemma_wrap_negative(diff as int, 0x100);
        }
        (diff + 256) as u8
    } else {
        diff as u8
    };
    let sa: i16 = if a >= 0x80 {
        a as i16 - 256
    } else {
        a as i16
    };
    let sb: i16 = if b >= 0x80 {
        b as i16 - 256
    } else {
        b as i16
    };
    let s: i16 = sa - sb - cin;
    let mut g = set_szp8(res, f);
    g.carry = (a as i16) < b as i16 + cin;
    g.aux_carry = ((a % 16) as i16) < (b % 16) as i16 + cin;
    g.overflow = s >= 0x80 || s < -0x80;
    (res, g)
}

fn add16(a: u16, b: u16, c: bool, f: Flags) -> (r: (u16, Flags))
    ensures
        r.0 as int == add_spec(a as int, b as int, c, true, f).0,
        r.1 == add_spec(a as int, b as int, c, true, f).1,
{
    let cin: u32 = if c {
        1
    } else {
        0
    };
    let sum: u32 = a as u32 + b as u32 + cin;
    let res: u16 = (sum % 0x10000) as u16;
    let sa: i32 = if a >= 0x8000 {
        a as i32 - 0x10000
    } else {
        a as i32
    };
    let sb: i32 = if b >= 0x8000 {
        b as i32 - 0x10000
    } else {
        b as i32
    };
    let s: i32 = sa + sb + (cin as i32);
    let mut g = set_szp16(res, f);
    g.carry = sum >= 0x10000;
    g.aux_carry = (a % 16) as u32 + (b % 16) as u32 + cin > 15;
    g.overflow = s >= 0x8000 || s < -0x8000;
    (res, g)
}

fn sub16(a: u16, b: u16, c: bool, f: Flags) -> (r: (u16, Flags))
    ensures
        r.0 as int == sub_spec(a as int, b as int, c, true, f).0,
        r.1 == sub_spec(a as int, b as int, c, true, f).1,
{
    let cin: i32 = if c {
        1
    } else {
        0
    };
    let diff: i32 = a as i32 - b as i32 - cin;
    let res: u16 = if diff < 0 {
        proof {
            lemma_wrap_negative(diff as int, 0x10000);
        }
        (diff + 0x10000) as u16
    } else {
        diff as u16
    };
    let sa: i32 = if a >= 0x8000 {
        a as i32 - 0x10000
    } else {
        a as i32
    };
    let sb: i32 = if b >= 0x8000 {
        b as i32 - 0x10000
    } else {
        b as i32
    };
    let s: i32 = sa - sb - cin;
    let mut g = set_szp16(res, f);
    g.carry = (a as i32) < b as i32 + cin;
    g.aux_carry = ((a % 16) as i32) < (b % 16) as i32 + cin;
    g.overflow = s >= 0x8000 || s < -0x8000;
    (res, g)
}

fn logic8(res: u8, f: Flags) -> (g: Flags)
    ensures
        g == logic_flags(res as int, false, f),
{
    let mut g = set_szp8(res, f);
    g.carry = false;
    g.overflow = false;
    g.aux_carry = false;
    g
}

fn logic16(res: u16, f: Flags) -> (g: Flags)
    ensures
        g == logic_flags(res as int, true, f),
{
    let mut g = set_szp16(res, f);
    g.carry = false;
    g.overflow = false;
    g.aux_carry = false;
    g
}

/// The byte ALU: result and flags of one operation.
pub fn math_op8(m: Mnemonic, a: u8, b: u8, f: Flags) -> (r: (u8, Flags))
    ensures
        r == alu8(m, a, b, f),
{
    reveal(alu8);
    match m {
        Mnemonic::ADD => add8(a, b, false, f),
        Mnemonic::ADC => add8(a, b, f.carry, f),
        Mnemonic::SUB | Mnemonic::CMP => sub8(a, b, false, f),
        Mnemonic::SBB => sub8(a, b, f.carry, f),
        Mnemonic::INC => {
            let (r, mut g) = add8(a, 1, false, f);
            g.carry = f.carry;
            (r, g)
        },
        Mnemonic::DEC => {
            let (r, mut g) = sub8(a, 1, false, f);
            g.carry = f.carry;
            (r, g)
        },
        Mnemonic::NEG => sub8(0, a, false, f),
        Mnemonic::NOT => (255 - a, f),
        Mnemonic::AND | Mnemonic::TEST => (a & b, logic8(a & b, f)),
        Mnemonic::OR => (a | b, logic8(a | b, f)),
        Mnemonic::XOR => (a ^ b, logic8(a ^ b, f)),
        _ => (a, f),
    }
}

/// The word ALU: result and flags of one operation.
pub fn math_op16(m: Mnemonic, a: u16, b: u16, f: Flags) -> (r: (u16, Flags))
    ensures
        r == alu16(m, a, b, f),
{
    reveal(alu16);
    match m {
        Mnemonic::ADD => add16(a, b, false, f),
        Mnemonic::ADC => add16(a, b, f.carry, f),
        Mnemonic::SUB | Mnemonic::CMP => sub16(a, b, false, f),
        Mnemonic::SBB => sub16(a, b, f.carry, f),
        Mnemonic::INC => {
            let (r, mut g) = add16(a, 1, false, f);
            g.carry = f.carry;
            (r, g)
        },
        Mnemonic::DEC => {
            let (r, mut g) = sub16(a, 1, false, f);
            g.carry = f.carry;
            (r, g)
        },
        Mnemonic::NEG => sub16(0, a, false, f),
        Mnemonic::NOT => (65535 - a, f),
        Mnemonic::AND | Mnemonic::TEST => (a & b, logic16(a & b, f)),
        Mnemonic::OR => (a | b, logic16(a | b, f)),
        Mnemonic::XOR => (a ^ b, logic16(a ^ b, f)),
        _ => (a, f),
    }
}

} // verus!
