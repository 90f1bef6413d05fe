//! Tokens for the visual formatting of debugger output: disassembly, memory
//! views and device state. A view draws a token by its kind; the tokens that
//! show a value carry an age, which the views use to fade a value in after it
//! changed.
use vstd::prelude::*;

verus! {

/// The age at which a value no longer stands out.
pub const TOKEN_MAX_AGE: u8 = 255;

/// Something that can be shown as a row of tokens.
pub trait SyntaxTokenize {
    fn tokenize(&self) -> Vec<SyntaxToken>;
}

#[derive(Clone, Debug)]
pub enum SyntaxToken {
    NullToken,
    /// A state value: text, whether it just changed, and its age.
    StateString(String, bool, u8),
    ErrorString(String),
    /// Segment, offset and text of a segmented address.
    MemoryAddressSeg16(u16, u16, String),
    /// A flat address and its text.
    MemoryAddressFlat(u32, String),
    /// Address, value and text of a byte in hexadecimal, whether the cursor
    /// is on it, and its age.
    MemoryByteHexValue(u32, u8, String, bool, u8),
    /// Address, value and text of a byte as a character, and its age.
    MemoryByteAsciiValue(u32, u8, String, u8),
    ErrorText(String),
    InstructionBytes(String),
    Prefix(String),
    Mnemonic(String),
    Text(String),
    Segment(String),
    Colon,
    Comma,
    PlusSign,
    OpenBracket,
    CloseBracket,
    HexValue(String),
    Register(String),
    Displacement(String),
}

impl Default for SyntaxToken {
    fn default() -> (t: Self)
        ensures
            t is NullToken,
    {
        SyntaxToken::NullToken
    }
}

/// `age` plus `n`, held at 255.
pub open spec fn older(age: u8, n: int) -> u8 {
    if age + n > 255 {
        255u8
    } else {
        (age + n) as u8
    }
}

/// How strongly a value of the given age stands out: 255 when it has just
/// changed, 0 at the maximum age.
pub open spec fn fade_of(age: u8) -> u8 {
    (255 - age) as u8
}

pub fn fade_from_age(age: u8) -> (f: u8)
    ensures
        f == fade_of(age),
{
    255 - age
}

impl SyntaxToken {
    /// The token with its age at the maximum, if it is a memory byte; any
    /// other token as it is.
    pub open spec fn max_aged(self) -> SyntaxToken {
        match self {
            SyntaxToken::MemoryByteHexValue(a, v, s, c, _) => SyntaxToken::MemoryByteHexValue(
                a,
                v,
                s,
                c,
                TOKEN_MAX_AGE,
            ),
            SyntaxToken::MemoryByteAsciiValue(a, v, s, _) => SyntaxToken::MemoryByteAsciiValue(
                a,
                v,
                s,
                TOKEN_MAX_AGE,
            ),
            _ => self,
        }
    }

    /// A memory byte token that takes the place of `old` in a view. If both
    /// show the same address and the same value, the new token is two frames
    /// older than the old one was; with the same address and another value it
    /// keeps the age it came with; with another address it gets the maximum
    /// age, so that it does not flash. Tokens of different kinds, and tokens
    /// that are no memory bytes, stay as they came.
    pub open spec fn aged(self, old: SyntaxToken) -> SyntaxToken {
        match (self, old) {
            (
                SyntaxToken::MemoryByteHexValue(a, v, s, c, age),
                SyntaxToken::MemoryByteHexValue(oa, ov, _, _, oage),
            ) => if oa == a {
                if ov == v {
                    SyntaxToken::MemoryByteHexValue(a, v, s, c, older(oage, 2))
                } else {
                    self
                }
            } else {
                SyntaxToken::MemoryByteHexValue(a, v, s, c, 255)
            },
            (
                SyntaxToken::MemoryByteAsciiValue(a, v, s, age),
                SyntaxToken::MemoryByteAsciiValue(oa, ov, _, oage),
            ) => if oa == a {
                if ov == v {
                    SyntaxToken::MemoryByteAsciiValue(a, v, s, older(oage, 2))
                } else {
                    self
                }
            } else {
                SyntaxToken::MemoryByteAsciiValue(a, v, s, 255)
            },
            _ => self,
        }
    }

    /// Sets the age of a memory byte token to the maximum.
    pub fn set_max_age(&mut self)
        ensures
            *final(self) == old(self).max_aged(),
    {
        match self {
            SyntaxToken::MemoryByteHexValue(_, _, _, _, age) => {
                *age = TOKEN_MAX_AGE;
            },
            SyntaxToken::MemoryByteAsciiValue(_, _, _, age) => {
                *age = TOKEN_MAX_AGE;
            },
            _ => {},
        }
    }

    /// Ages the token against the token that it replaces.
    pub fn age_against(&mut self, old_token: &SyntaxToken)
        ensures
            *final(self) == old(self).aged(*old_token),
    {
        match self {
            SyntaxToken::MemoryByteHexValue(a, v, _, _, age) => {
                match old_token {
                    SyntaxToken::MemoryByteHexValue(oa, ov, _, _, oage) => {
                        if *oa == *a {
                            if *ov == *v {
                                *age = oage.saturating_add(2);
                            }
                        } else {
                            *age = 255;
                        }
                    },
                    _ => {},
                }
            },
            SyntaxToken::MemoryByteAsciiValue(a, v, _, age) => {
                match old_token {
                    SyntaxToken::MemoryByteAsciiValue(oa, ov, _, oage) => {
                        if *oa == *a {
                            if *ov == *v {
                                *age = oage.saturating_add(2);
                            }
                        } else {
                            *age = 255;
                        }
                    },
                    _ => {},
                }
            },
            _ => {},
        }
    }
}

} // verus!
