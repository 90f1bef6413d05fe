//! Shifts and rotates. The 8088 has no count mask: a count of `n` is `n`
//! single-bit steps, and the flags are those of the last step.
use vstd::prelude::*;
use crate::cpu_808x::alu::{modulus, set_szp16, set_szp8, sign_bit, szp, wrap};
use crate::cpu_808x::instruction::Mnemonic;
use crate::cpu_808x::registers::{b2i, Flags};

verus! {

/// The bit below the sign bit is set.
pub open spec fn next_to_sign(v: int, word: bool) -> bool {
    (v / (sign_bit(word) / 2)) % 2 == 1
}

/// One single-bit step.
///
/// - ROL, RCL, SHL move the sign bit into carry; ROR, RCR, SHR, SAR move bit 0
///   into carry.
/// - Overflow: for the left forms, sign of the result differs from carry; for
///   ROR and RCR, the two top bits of the result differ; for SHR, the sign of
///   the operand; for SAR, clear.
/// - The shifts set sign, zero and parity from the result; SHL sets auxiliary
///   carry from bit 3 of the operand, SHR and SAR clear it. The rotates leave
///   those four flags alone.
/// - Any other mnemonic changes nothing.
pub open spec fn shift_step(m: Mnemonic, v: int, word: bool, f: Flags) -> (int, Flags) {
    let top = v >= sign_bit(word);
    let low = v % 2 == 1;
    match m {
        Mnemonic::ROL => {
            let r = wrap(v * 2, word) + b2i(top);
            (r, Flags { carry: top, overflow: (r >= sign_bit(word)) != top, ..f })
        },
        Mnemonic::ROR => {
            let r = v / 2 + (if low {
                sign_bit(word)
            } else {
                0
            });
            (
                r,
                Flags {
                    carry: low,
                    overflow: (r >= sign_bit(word)) != next_to_sign(r, word),
                    ..f
                },
            )
        },
        Mnemonic::RCL => {
            let r = wrap(v * 2, word) + b2i(f.carry);
            (r, Flags { carry: top, overflow: (r >= sign_bit(word)) != top, ..f })
        },
        Mnemonic::RCR => {
            let r = v / 2 + (if f.carry {
                sign_bit(word)
            } else {
                0
            });
            (
                r,
                Flags {
                    carry: low,
                    overflow: (r >= sign_bit(word)) != next_to_sign(r, word),
                    ..f
                },
            )
        },
        Mnemonic::SHL => {
            let r = wrap(v * 2, word);
            (
                r,
                Flags {
                    carry: top,
                    overflow: (r >= sign_bit(word)) != top,
                    aux_carry: v % 16 >= 8,
                    ..szp(r, word, f)
                },
            )
        },
        Mnemonic::SHR => {
            let r = v / 2;
            (r, Flags { carry: low, overflow: top, aux_carry: false, ..szp(r, word, f) })
        },
        Mnemonic::SAR => {
            let r = v / 2 + (if top {
                sign_bit(word)
            } else {
                0
            });
            (r, Flags { carry: low, overflow: false, aux_carry: false, ..szp(r, word, f) })
        },
        _ => (v, f),
    }
}

/// `n` single-bit steps. With `n == 0` the operand and every flag stay.
pub open spec fn shift_n(m: Mnemonic, v: int, word: bool, f: Flags, n: nat) -> (int, Flags)
    decreases n,
{
    if n == 0 {
        (v, f)
    } else {
        let (v1, f1) = shift_step(m, v, word, f);
        shift_n(m, v1, word, f1, (n - 1) as nat)
    }
}

fn top_weight(word: bool) -> (t: u32)
    ensures
        t == sign_bit(word),
{
    if word {
        0x8000
    } else {
        0x80
    }
}

fn doubled(v: u32, word: bool) -> (d: u32)
    requires
        v < modulus(word),
    ensures
        d == wrap(v * 2, word),
        d % 2 == 0,
        d < modulus(word),
{
    if word {
        (v * 2) % 0x10000
    } else {
        (v * 2) % 0x100
    }
}

fn set_szp(r: u32, word: bool, f: Flags) -> (g: Flags)
    requires
        r < modulus(word),
    ensures
        g == szp(r as int, word, f),
{
    if word {
        set_szp16(r as u16, f)
    } else {
        set_szp8(r as u8, f)
    }
}

fn rol(v: u32, word: bool, f: Flags, through_carry: bool) -> (r: (u32, Flags))
    requires
        v < modulus(word),
    ensures
        r.0 < modulus(word),
        !through_carry ==> (r.0 as int, r.1) == shift_step(Mnemonic::ROL, v as int, word, f),
        through_carry ==> (r.0 as int, r.1) == shift_step(Mnemonic::RCL, v as int, word, f),
{
    let t = top_weight(word);
    let top = v >= t;
    let d = doubled(v, word);
    let fill = if through_carry {
        f.carry
    } else {
        top
    };
    let r: u32 = if fill {
        d + 1
    } else {
        d
    };
    let mut g = f;
    g.carry = top;
    g.overflow = (r >= t) != top;
    (r, g)
}

fn ror(v: u32, word: bool, f: Flags, through_carry: bool) -> (r: (u32, Flags))
    requires
        v < modulus(word),
    ensures
        r.0 < modulus(word),
        !through_carry ==> (r.0 as int, r.1) == shift_step(Mnemonic::ROR, v as int, word, f),
        through_carry ==> (r.0 as int, r.1) == shift_step(Mnemonic::RCR, v as int, word, f),
{
    let t = top_weight(word);
    let low = v % 2 == 1;
    let fill = if through_carry {
        f.carry
    } else {
        low
    };
    let r: u32 = if fill {
        v / 2 + t
    } else {
        v / 2
    };
    let mut g = f;
    g.carry = low;
    g.overflow = (r >= t) != ((r / (t / 2)) % 2 == 1);
    (r, g)
}

fn shl(v: u32, word: bool, f: Flags) -> (r: (u32, Flags))
    requires
        v < modulus(word),
    ensures
        r.0 < modulus(word),
        (r.0 as int, r.1) == shift_step(Mnemonic::SHL, v as int, word, f),
{
    let t = top_weight(word);
    let top = v >= t;
    let d = doubled(v, word);
    let mut g = set_szp(d, word, f);
    g.carry = top;
    g.overflow = (d >= t) != top;
    g.aux_carry = v % 16 >= 8;
    (d, g)
}

fn shr(v: u32, word: bool, f: Flags, arithmetic: bool) -> (r: (u32, Flags))
    requires
        v < modulus(word),
    ensures
        r.0 < modulus(word),
        !arithmetic ==> (r.0 as int, r.1) == shift_step(Mnemonic::SHR, v as int, word, f),
        arithmetic ==> (r.0 as int, r.1) == shift_step(Mnemonic::SAR, v as int, word, f),
{
    let t = top_weight(word);
    let top = v >= t;
    let r: u32 = if arithmetic && top {
        v / 2 + t
    } else {
        v / 2
    };
    let mut g = set_szp(r, word, f);
    g.carry = v % 2 == 1;
    g.overflow = !arithmetic && top;
    g.aux_carry = false;
    (r, g)
}

fn step(m: Mnemonic, v: u32, word: bool, f: Flags) -> (r: (u32, Flags))
    requires
        v < modulus(word),
    ensures
        r.0 < modulus(word),
        (r.0 as int, r.1) == shift_step(m, v as int, word, f),
{
    match m {
        Mnemonic::ROL => rol(v, word, f, false),
        Mnemonic::RCL => rol(v, word, f, true),
        Mnemonic::ROR => ror(v, word, f, false),
        Mnemonic::RCR => ror(v, word, f, true),
        Mnemonic::SHL => shl(v, word, f),
        Mnemonic::SHR => shr(v, word, f, false),
        Mnemonic::SAR => shr(v, word, f, true),
        _ => (v, f),
    }
}

fn steps(m: Mnemonic, v: u32, word: bool, count: u8, f: Flags) -> (r: (u32, Flags))
    requires
        v < modulus(word),
    ensures
        r.0 < modulus(word),
        (r.0 as int, r.1) == shift_n(m, v as int, word, f, count as nat),
{
    let mut cur: u32 = v;
    let mut g: Flags = f;
    let mut i: u8 = 0;
    while i < count
        invariant
            i <= count,
            cur < modulus(word),
            shift_n(m, cur as int, word, g, (count - i) as nat) == shift_n(
                m,
                v as int,
                word,
                f,
                count as nat,
            ),
        decreases count - i,
    {
        let (c2, g2) = step(m, cur, word, g);
        cur = c2;
        g = g2;
        i = i + 1;
    }
    (cur, g)
}

/// Shifts or rotates a byte by `count` single-bit steps.
pub fn bitshift_op8(m: Mnemonic, v: u8, count: u8, f: Flags) -> (r: (u8, Flags))
    ensures
        (r.0 as int, r.1) == shift_n(m, v as int, false, f, count as nat),
        count == 0 ==> r.0 == v && r.1 == f,
{
    let (x, g) = steps(m, v as u32, false, count, f);
    (x as u8, g)
}

/// Shifts or rotates a word by `count` single-bit steps.
pub fn bitshift_op16(m: Mnemonic, v: u16, count: u8, f: Flags) -> (r: (u16, Flags))
    ensures
        (r.0 as int, r.1) == shift_n(m, v as int, true, f, count as nat),
        count == 0 ==> r.0 == v && r.1 == f,
{
    let (x, g) = steps(m, v as u32, true, count, f);
    (x as u16, g)
}

} // verus!
