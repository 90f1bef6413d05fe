//! Microcode annotations. Every T-state that the execution unit spends is
//! tagged with the microcode line that it retires, so that a trace can be
//! held against the real part. The lines are data: nothing branches on them.
use vstd::prelude::*;

verus! {

/// The highest microcode address. Larger values tag cycles that retire no
/// line of their own.
pub const MC_LAST: u16 = 0x1FF;

/// A cycle spent on a microcode jump.
pub const MC_JUMP: u16 = 0x200;

/// A cycle spent on a return from a microcode subroutine.
pub const MC_RTN: u16 = 0x201;

/// A cycle spent in the routine that corrects the program counter for the
/// bytes still in the queue.
pub const MC_CORR: u16 = 0x202;

/// A cycle with no microcode line recorded.
pub const MC_NONE: u16 = 0x203;

/// The line at which the routine of an opcode starts, where it is on record;
/// `MC_NONE` otherwise.
pub open spec fn microcode_start(opcode: u8) -> u16 {
    if opcode < 0x40 && opcode % 8 < 4 {
        0x008
    } else if opcode == 0x06 || opcode == 0x0E || opcode == 0x16 || opcode == 0x1E {
        0x02c
    } else if opcode == 0x27 || opcode == 0x2F {
        0x144
    } else if 0x50 <= opcode <= 0x57 {
        0x028
    } else if opcode == 0x8F {
        0x040
    } else if 0x90 <= opcode <= 0x97 {
        0x084
    } else if opcode == 0xC9 || opcode == 0xCB {
        0x0c0
    } else if opcode == 0xCC {
        0x1b0
    } else if opcode == 0xD2 || opcode == 0xD3 {
        0x08c
    } else if opcode == 0xD7 {
        0x10c
    } else if opcode == 0xE0 || opcode == 0xE1 || opcode == 0xE3 {
        0x138
    } else if opcode == 0xE2 {
        0x140
    } else {
        MC_NONE
    }
}

/// The 256-slot table from opcode to the start of its microcode routine.
pub fn microcode_address_8088(opcode: u8) -> (mc: u16)
    ensures
        mc == microcode_start(opcode),
{
    if opcode < 0x40 && opcode % 8 < 4 {
        0x008
    } else if opcode == 0x06 || opcode == 0x0E || opcode == 0x16 || opcode == 0x1E {
        0x02c
    } else if opcode == 0x27 || opcode == 0x2F {
        0x144
    } else if 0x50 <= opcode && opcode <= 0x57 {
        0x028
    } else if opcode == 0x8F {
        0x040
    } else if 0x90 <= opcode && opcode <= 0x97 {
        0x084
    } else if opcode == 0xC9 || opcode == 0xCB {
        0x0c0
    } else if opcode == 0xCC {
        0x1b0
    } else if opcode == 0xD2 || opcode == 0xD3 {
        0x08c
    } else if opcode == 0xD7 {
        0x10c
    } else if opcode == 0xE0 || opcode == 0xE1 || opcode == 0xE3 {
        0x138
    } else if opcode == 0xE2 {
        0x140
    } else {
        MC_NONE
    }
}

/// The line after `mc`: the next address for a microcode line, the tag itself
/// for a tag.
pub open spec fn next_line(mc: u16) -> u16 {
    if mc < MC_LAST {
        (mc + 1) as u16
    } else {
        mc
    }
}

} // verus!
