//! Multiply and divide. `negate` is the effect of a repeat prefix on these
//! instructions: the product or quotient leaves in two's complement.
use vstd::prelude::*;
use crate::cpu_808x::alu::{lemma_wrap_negative, signed};
use crate::cpu_808x::registers::Flags;

verus! {

/// What the execution engine can raise.
#[derive(Clone, Copy, Debug, PartialEq, Eq, Structural)]
pub enum CpuException {
    NoException,
    DivideError,
}

/// The exact product before it is reduced to the result width.
pub open spec fn product(a: int, b: int, word: bool, is_signed: bool, negate: bool) -> int {
    let p = if is_signed {
        signed(a, word) * signed(b, word)
    } else {
        a * b
    };
    if negate {
        -p
    } else {
        p
    }
}

/// The 16-bit product of two bytes, as it lands in AX.
pub open spec fn mul8_spec(a: u8, b: u8, is_signed: bool, negate: bool) -> u16 {
    (product(a as int, b as int, false, is_signed, negate) % 0x10000) as u16
}

/// The 32-bit product of two words: DX is the high half, AX the low half.
pub open spec fn mul16_spec(a: u16, b: u16, is_signed: bool, negate: bool) -> int {
    product(a as int, b as int, true, is_signed, negate) % 0x1_0000_0000
}

/// Carry and overflow after a multiply: for MUL, the high half is not zero;
/// for IMUL, the high half is not the sign extension of the low half.
/// Auxiliary carry is cleared.
pub open spec fn mul_carry(low: int, high: int, word: bool, is_signed: bool) -> bool {
    if is_signed {
        if signed(low, word) < 0 {
            high != (if word {
                0xFFFFint
            } else {
                0xFFint
            })
        } else {
            high != 0
        }
    } else {
        high != 0
    }
}

pub open spec fn mul_flags(low: int, high: int, word: bool, is_signed: bool, f: Flags) -> Flags {
    let c = mul_carry(low, high, word, is_signed);
    Flags { carry: c, overflow: c, aux_carry: false, ..f }
}

proof fn lemma_product_bound(a: int, b: int, m: int)
    requires
        -m <= a <= m,
        -m <= b <= m,
        0 <= m,
    ensures
        -(m * m) <= a * b <= m * m,
{
    assert(-(m * m) <= a * b <= m * m) by (nonlinear_arith)
        requires
            -m <= a <= m,
            -m <= b <= m,
            0 <= m,
    ;
}

/// Multiplies AL by an operand. Returns the product for AX and the flags with
/// carry, overflow and auxiliary carry set as the multiply sets them.
pub fn mul8(a: u8, b: u8, is_signed: bool, negate: bool, f: Flags) -> (r: (u16, Flags))
    ensures
        r.0 == mul8_spec(a, b, is_signed, negate),
        r.1 == mul_flags((r.0 % 256) as int, (r.0 / 256) as int, false, is_signed, f),
{
    let sa: i32 = if is_signed && a >= 0x80 {
        a as i32 - 0x100
    } else {
        a as i32
    };
    let sb: i32 = if is_signed && b >= 0x80 {
        b as i32 - 0x100
    } else {
        b as i32
    };
    proof {
        lemma_product_bound(sa as int, sb as int, 255);
    }
    let p: i32 = sa * sb;
    let q: i32 = if negate {
        -p
    } else {
        p
    };
    let res: u16 = if q < 0 {
        proof {
            lemma_wrap_negative(q as int, 0x10000);
        }
        (q + 0x10000) as u16
    } else {
        (q % 0x10000) as u16
    };
    let low: u16 = res % 256;
    let high: u16 = res / 256;
    let c = if is_signed {
        if low >= 0x80 {
            high != 0xFF
        } else {
            high != 0
        }
    } else {
        high != 0
    };
    let mut g = f;
    g.carry = c;
    g.overflow = c;
    g.aux_carry = false;
    (res, g)
}

/// Multiplies AX by an operand. Returns DX, AX and the flags.
pub fn mul16(a: u16, b: u16, is_signed: bool, negate: bool, f: Flags) -> (r: (u16, u16, Flags))
    ensures
        r.0 * 0x10000 + r.1 == mul16_spec(a, b, is_signed, negate),
        r.2 == mul_flags(r.1 as int, r.0 as int, true, is_signed, f),
{
    let sa: i64 = if is_signed && a >= 0x8000 {
        a as i64 - 0x10000
    } else {
        a as i64
    };
    let sb: i64 = if is_signed && b >= 0x8000 {
        b as i64 - 0x10000
    } else {
        b as i64
    };
    proof {
        lemma_product_bound(sa as int, sb as int, 65535);
    }
    let p: i64 = sa * sb;
    let q: i64 = if negate {
        -p
    } else {
        p
    };
    let res: u32 = if q < 0 {
        proof {
            lemma_wrap_negative(q as int, 0x1_0000_0000);
        }
        (q + 0x1_0000_0000) as u32
    } else {
        (q % 0x1_0000_0000) as u32
    };
    let low: u16 = (res % 0x10000) as u16;
    let high: u16 = (res / 0x10000) as u16;
    let c = if is_signed {
        if low >= 0x8000 {
            high != 0xFFFF
        } else {
            high != 0
        }
    } else {
        high != 0
    };
    let mut g = f;
    g.carry = c;
    g.overflow = c;
    g.aux_carry = false;
    (high, low, g)
}

/// The magnitude of a signed value.
pub open spec fn abs(v: int) -> int {
    if v < 0 {
        -v
    } else {
        v
    }
}

/// Quotient and remainder before the range check. Signed division truncates
/// toward zero and the remainder takes the sign of the dividend. A zero
/// divisor gives no result.
pub open spec fn div_exact(dividend: int, divisor: int) -> Option<(int, int)> {
    if divisor == 0 {
        None
    } else {
        let q = abs(dividend) / abs(divisor);
        let r = abs(dividend) % abs(divisor);
        Some(
            (
                if (dividend < 0) != (divisor < 0) {
                    -q
                } else {
                    q
                },
                if dividend < 0 {
                    -r
                } else {
                    r
                },
            ),
        )
    }
}

/// DIV and IDIV of AX by a byte: quotient and remainder, each reduced to a
/// byte, or nothing where the hardware raises the divide error: a zero
/// divisor, an unsigned quotient above 255, a signed quotient outside
/// -127..=127.
pub open spec fn div8_spec(dividend: u16, divisor: u8, is_signed: bool, negate: bool) -> Option<
    (u8, u8),
> {
    let dd = if is_signed {
        signed(dividend as int, true)
    } else {
        dividend as int
    };
    let dv = if is_signed {
        signed(divisor as int, false)
    } else {
        divisor as int
    };
    match div_exact(dd, dv) {
        None => None,
        Some((q, r)) => if (is_signed && (q > 127 || q < -127)) || (!is_signed && q > 255) {
            None
        } else {
            let qn = if negate {
                -q
            } else {
                q
            };
            Some(((qn % 256) as u8, (r % 256) as u8))
        },
    }
}

/// The two's complement value of a double word.
pub open spec fn signed32(v: int) -> int {
    if v >= 0x8000_0000 {
        v - 0x1_0000_0000
    } else {
        v
    }
}

/// DIV and IDIV of DX:AX by a word: as `div8_spec`, with the limits 65535 and
/// -32767..=32767.
pub open spec fn div16_spec(dividend: u32, divisor: u16, is_signed: bool, negate: bool) -> Option<
    (u16, u16),
> {
    let dd = if is_signed {
        signed32(dividend as int)
    } else {
        dividend as int
    };
    let dv = if is_signed {
        signed(divisor as int, true)
    } else {
        divisor as int
    };
    match div_exact(dd, dv) {
        None => None,
        Some((q, r)) => if (is_signed && (q > 32767 || q < -32767)) || (!is_signed && q > 65535) {
            None
        } else {
            let qn = if negate {
                -q
            } else {
                q
            };
            Some(((qn % 0x10000) as u16, (r % 0x10000) as u16))
        },
    }
}

fn reduce(v: i64, m: i64) -> (r: i64)
    requires
        m == 0x100 || m == 0x10000,
        -m < v < m,
    ensures
        r == (v as int) % (m as int),
        0 <= r < m,
{
    if v < 0 {
        proof {
            lemma_wrap_negative(v as int, m as int);
        }
        v + m
    } else {
        proof {
            vstd::arithmetic::div_mod::lemma_small_mod(v as nat, m as nat);
        }
        v
    }
}

fn divide(dd: i64, dv: i64) -> (r: Option<(i64, i64)>)
    requires
        -0x1_0000_0000 <= dd <= 0x1_0000_0000,
        -0x10000 <= dv <= 0x10000,
    ensures
        match (r, div_exact(dd as int, dv as int)) {
            (None, None) => true,
            (Some((q, m)), Some((q2, m2))) => q == q2 && m == m2 && abs(m as int) < abs(
                dv as int,
            ) && abs(q as int) <= abs(dd as int),
            _ => false,
        },
{
    if dv == 0 {
        return None;
    }
    let ad: i64 = if dd < 0 {
        -dd
    } else {
        dd
    };
    let av: i64 = if dv < 0 {
        -dv
    } else {
        dv
    };
    let q: i64 = ad / av;
    let m: i64 = ad % av;
    proof {
        vstd::arithmetic::div_mod::lemma_div_is_ordered_by_denominator(ad as int, 1, av as int);
        vstd::arithmetic::div_mod::lemma_div_basics(ad as int);
        vstd::arithmetic::div_mod::lemma_div_pos_is_pos(ad as int, av as int);
    }
    let sq: i64 = if (dd < 0) != (dv < 0) {
        -q
    } else {
        q
    };
    let sm: i64 = if dd < 0 {
        -m
    } else {
        m
    };
    Some((sq, sm))
}

/// Divides AX by a byte. `Ok((quotient, remainder))` for AL and AH, or the
/// divide error.
pub fn div8(dividend: u16, divisor: u8, is_signed: bool, negate: bool) -> (r: Result<
    (u8, u8),
    CpuException,
>)
    ensures
        r is Err <==> div8_spec(dividend, divisor, is_signed, negate) is None,
        r matches Err(e) ==> e == CpuException::DivideError,
        r matches Ok(v) ==> div8_spec(dividend, divisor, is_signed, negate) == Some(v),
{
    let dd: i64 = if is_signed && dividend >= 0x8000 {
        dividend as i64 - 0x10000
    } else {
        dividend as i64
    };
    let dv: i64 = if is_signed && divisor >= 0x80 {
        divisor as i64 - 0x100
    } else {
        divisor as i64
    };
    match divide(dd, dv) {
        None => Err(CpuException::DivideError),
        Some((q, m)) => {
            if (is_signed && (q > 127 || q < -127)) || (!is_signed && q > 255) {
                Err(CpuException::DivideError)
            } else {
                let qn: i64 = if negate {
                    -q
                } else {
                    q
                };
                let qr = reduce(qn, 0x100);
                let mr = reduce(m, 0x100);
                Ok((qr as u8, mr as u8))
            }
        },
    }
}

/// Divides DX:AX by a word. `Ok((quotient, remainder))` for AX and DX, or the
/// divide error.
pub fn div16(dividend: u32, divisor: u16, is_signed: bool, negate: bool) -> (r: Result<
    (u16, u16),
    CpuException,
>)
    ensures
        r is Err <==> div16_spec(dividend, divisor, is_signed, negate) is None,
        r matches Err(e) ==> e == CpuException::DivideError,
        r matches Ok(v) ==> div16_spec(dividend, divisor, is_signed, negate) == Some(v),
{
    let dd: i64 = if is_signed && dividend >= 0x8000_0000 {
        dividend as i64 - 0x1_0000_0000
    } else {
        dividend as i64
    };
    let dv: i64 = if is_signed && divisor >= 0x8000 {
        divisor as i64 - 0x10000
    } else {
        divisor as i64
    };
    match divide(dd, dv) {
        None => Err(CpuException::DivideError),
        Some((q, m)) => {
            if (is_signed && (q > 32767 || q < -32767)) || (!is_signed && q > 65535) {
                Err(CpuException::DivideError)
            } else {
                let qn: i64 = if negate {
                    -q
                } else {
                    q
                };
                let qr = reduce(qn, 0x10000);
                let mr = reduce(m, 0x10000);
                Ok((qr as u16, mr as u16))
            }
        },
    }
}

} // verus!
