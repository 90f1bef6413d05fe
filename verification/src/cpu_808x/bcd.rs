//! The decimal and ASCII adjust instructions, as functions of AL, AH and the
//! flags.
use vstd::prelude::*;
use crate::cpu_808x::alu::{set_szp8, szp};
use crate::cpu_808x::registers::Flags;

verus! {

/// DAA. The low nibble is adjusted by 6 when it is above 9 or auxiliary carry
/// is set; the high nibble by 0x60 when AL was above the limit or carry was
/// set. On this part the limit is 0x9F when auxiliary carry was set and 0x99
/// otherwise. Overflow stays.
#[verifier::opaque]
pub open spec fn daa_spec(al: u8, f: Flags) -> (u8, Flags) {
    let limit: int = if f.aux_carry {
        0x9F
    } else {
        0x99
    };
    let low = al % 16 > 9 || f.aux_carry;
    let high = al > limit || f.carry;
    let a1: int = if low {
        (al + 6) % 256
    } else {
        al as int
    };
    let a2: int = if high {
        (a1 + 0x60) % 256
    } else {
        a1
    };
    (a2 as u8, Flags { aux_carry: low, carry: high, ..szp(a2, false, f) })
}

/// DAS: as DAA, subtracting.
#[verifier::opaque]
pub open spec fn das_spec(al: u8, f: Flags) -> (u8, Flags) {
    let limit: int = if f.aux_carry {
        0x9F
    } else {
        0x99
    };
    let low = al % 16 > 9 || f.aux_carry;
    let high = al > limit || f.carry;
    let a1: int = if low {
        (al - 6) % 256
    } else {
        al as int
    };
    let a2: int = if high {
        (a1 - 0x60) % 256
    } else {
        a1
    };
    (a2 as u8, Flags { aux_carry: low, carry: high, ..szp(a2, false, f) })
}

/// AAA: when the low nibble of AL is above 9 or auxiliary carry is set, AL
/// gains 6 and AH gains 1, and carry and auxiliary carry are set; otherwise
/// both are cleared. AL is then reduced to its low nibble. Returns (AL, AH).
#[verifier::opaque]
pub open spec fn aaa_spec(al: u8, ah: u8, f: Flags) -> (u8, u8, Flags) {
    let adjust = al % 16 > 9 || f.aux_carry;
    if adjust {
        (((al + 6) % 16) as u8, ((ah + 1) % 256) as u8, Flags { aux_carry: true, carry: true, ..f })
    } else {
        ((al % 16) as u8, ah, Flags { aux_carry: false, carry: false, ..f })
    }
}

/// AAS: as AAA, subtracting.
#[verifier::opaque]
pub open spec fn aas_spec(al: u8, ah: u8, f: Flags) -> (u8, u8, Flags) {
    let adjust = al % 16 > 9 || f.aux_carry;
    if adjust {
        (((al - 6) % 16) as u8, ((ah - 1) % 256) as u8, Flags { aux_carry: true, carry: true, ..f })
    } else {
        ((al % 16) as u8, ah, Flags { aux_carry: false, carry: false, ..f })
    }
}

/// AAM with the base from the instruction: AH is AL divided by the base, AL
/// the remainder; sign, zero and parity come from the new AL. A zero base
/// gives no result.
#[verifier::opaque]
pub open spec fn aam_spec(al: u8, base: u8, f: Flags) -> Option<(u8, u8, Flags)> {
    if base == 0 {
        None
    } else {
        Some(((al % base) as u8, (al / base) as u8, szp((al % base) as int, false, f)))
    }
}

/// AAD with the base from the instruction: AL becomes AH times the base plus
/// AL, reduced to a byte; AH becomes zero; sign, zero and parity come from the
/// new AL.
#[verifier::opaque]
pub open spec fn aad_spec(al: u8, ah: u8, base: u8, f: Flags) -> (u8, u8, Flags) {
    let r = (ah * base + al) % 256;
    (r as u8, 0u8, szp(r, false, f))
}

pub fn daa(al: u8, f: Flags) -> (r: (u8, Flags))
    ensures
        r == daa_spec(al, f),
{
    reveal(daa_spec);
    let limit: u8 = if f.aux_carry {
        0x9F
    } else {
        0x99
    };
    let low = al % 16 > 9 || f.aux_carry;
    let high = al > limit || f.carry;
    let a1: u8 = if low {
        ((al as u16 + 6) % 256) as u8
    } else {
        al
    };
    let a2: u8 = if high {
        ((a1 as u16 + 0x60) % 256) as u8
    } else {
        a1
    };
    let mut g = set_szp8(a2, f);
    g.aux_carry = low;
    g.carry = high;
    (a2, g)
}

fn sub_wrap8(a: u8, b: u8) -> (r: u8)
    ensures
        r == (a - b) % 256,
{
    if a >= b {
        a - b
    } else {
        proof {
            crate::cpu_808x::alu::lemma_wrap_negative(a - b, 256);
        }
        ((a as u16 + 256) - b as u16) as u8
    }
}

pub fn das(al: u8, f: Flags) -> (r: (u8, Flags))
    ensures
        r == das_spec(al, f),
{
    reveal(das_spec);
    let limit: u8 = if f.aux_carry {
        0x9F
    } else {
        0x99
    };
    let low = al % 16 > 9 || f.aux_carry;
    let high = al > limit || f.carry;
    let a1: u8 = if low {
        sub_wrap8(al, 6)
    } else {
        al
    };
    let a2: u8 = if high {
        sub_wrap8(a1, 0x60)
    } else {
        a1
    };
    let mut g = set_szp8(a2, f);
    g.aux_carry = low;
    g.carry = high;
    (a2, g)
}

pub fn aaa(al: u8, ah: u8, f: Flags) -> (r: (u8, u8, Flags))
    ensures
        r == aaa_spec(al, ah, f),
{
    reveal(aaa_spec);
    let adjust = al % 16 > 9 || f.aux_carry;
    let mut g = f;
    g.aux_carry = adjust;
    g.carry = adjust;
    if adjust {
        (((al as u16 + 6) % 16) as u8, ((ah as u16 + 1) % 256) as u8, g)
    } else {
        (al % 16, ah, g)
    }
}

pub fn aas(al: u8, ah: u8, f: Flags) -> (r: (u8, u8, Flags))
    ensures
        r == aas_spec(al, ah, f),
{
    reveal(aas_spec);
    let adjust = al % 16 > 9 || f.aux_carry;
    let mut g = f;
    g.aux_carry = adjust;
    g.carry = adjust;
    if adjust {
        let a = sub_wrap8(al, 6);
        proof {
            if al < 6 {
                crate::cpu_808x::alu::lemma_wrap_negative(al - 6, 256);
            }
            assert((al - 6) % 16 == a % 16) by {
                if al < 6 {
                    crate::cpu_808x::alu::lemma_wrap_negative(al - 6, 16);
                }
            }
        }
        (a % 16, sub_wrap8(ah, 1), g)
    } else {
        (al % 16, ah, g)
    }
}

/// `None` stands for the divide error.
pub fn aam(al: u8, base: u8, f: Flags) -> (r: Option<(u8, u8, Flags)>)
    ensures
        r == aam_spec(al, base, f),
{
    reveal(aam_spec);
    if base == 0 {
        None
    } else {
        let l: u8 = al % base;
        Some((l, al / base, set_szp8(l, f)))
    }
}

pub fn aad(al: u8, ah: u8, base: u8, f: Flags) -> (r: (u8, u8, Flags))
    ensures
        r == aad_spec(al, ah, base, f),
{
    reveal(aad_spec);
    assert(ah * base <= 255 * 255) by (nonlinear_arith)
        requires
            ah <= 255,
            base <= 255,
    ;
    let l: u8 = ((ah as u32 * base as u32 + al as u32) % 256) as u8;
    (l, 0, set_szp8(l, f))
}

} // verus!
