//! The memory and I/O bus as the core sees it: one megabyte of memory with an
//! attribute byte per address, and the I/O port space as two sets of latches,
//! what the ports give on a read and what was last written to them.
use vstd::prelude::*;
use crate::cpu_808x::registers::{hi, lo, word_of};

verus! {

/// The number of addresses on the 20-bit bus.
pub const ADDRESS_SPACE: usize = 0x100000;

/// The number of I/O ports.
pub const IO_SPACE: usize = 0x10000;

/// Marks an address as a known return target of a call or an interrupt.
pub const MEM_RET_BIT: u8 = 0x80;

pub struct Bus {
    memory: Vec<u8>,
    mem_flags: Vec<u8>,
    io_in: Vec<u8>,
    io_out: Vec<u8>,
}

/// What a bus holds.
pub struct BusView {
    pub mem: Seq<u8>,
    pub flags: Seq<u8>,
    pub io_in: Seq<u8>,
    pub io_out: Seq<u8>,
}

/// The byte at a bus address; the address wraps at one megabyte.
pub open spec fn mem_read8(mem: Seq<u8>, addr: int) -> u8 {
    mem[addr % 0x100000]
}

/// The little-endian word at a bus address. The high byte comes from the next
/// bus address.
pub open spec fn mem_read16(mem: Seq<u8>, addr: int) -> u16 {
    word_of(mem_read8(mem, addr), mem_read8(mem, addr + 1))
}

pub open spec fn mem_write8(mem: Seq<u8>, addr: int, v: u8) -> Seq<u8> {
    mem.update(addr % 0x100000, v)
}

/// Low byte first, then the high byte at the next bus address.
pub open spec fn mem_write16(mem: Seq<u8>, addr: int, v: u16) -> Seq<u8> {
    mem_write8(mem_write8(mem, addr, lo(v)), addr + 1, hi(v))
}

/// The byte that port `port` gives; the port number wraps at 64K.
pub open spec fn io_read8(io: Seq<u8>, port: int) -> u8 {
    io[port % 0x10000]
}

pub open spec fn io_write8(io: Seq<u8>, port: int, v: u8) -> Seq<u8> {
    io.update(port % 0x10000, v)
}

/// A word read from the I/O space is two byte reads, on `port` and on the
/// port after it.
pub open spec fn io_read16(io: Seq<u8>, port: int) -> u16 {
    word_of(io_read8(io, port), io_read8(io, port + 1))
}

/// A word write to the I/O space is two byte writes, the low byte to `port`
/// and the high byte to the port after it.
pub open spec fn io_write16(io: Seq<u8>, port: int, v: u16) -> Seq<u8> {
    io_write8(io_write8(io, port, lo(v)), port + 1, hi(v))
}

/// Memory after the first `n` bytes of `data` were copied from `base` on.
pub open spec fn loaded_upto(mem: Seq<u8>, data: Seq<u8>, base: int, n: int) -> Seq<u8> {
    Seq::new(
        0x100000,
        |a: int|
            if (a - base) % 0x100000 < n {
                data[(a - base) % 0x100000]
            } else {
                mem[a]
            },
    )
}

/// Memory after `data` was copied to `address` and the addresses after it,
/// wrapping at one megabyte; bytes of `data` beyond one megabyte are left out.
pub open spec fn loaded(mem: Seq<u8>, data: Seq<u8>, address: int) -> Seq<u8> {
    loaded_upto(
        mem,
        data,
        address % 0x100000,
        if data.len() < 0x100000 {
            data.len() as int
        } else {
            0x100000
        },
    )
}

impl View for Bus {
    type V = BusView;

    closed spec fn view(&self) -> BusView {
        BusView {
            mem: self.memory@,
            flags: self.mem_flags@,
            io_in: self.io_in@,
            io_out: self.io_out@,
        }
    }
}

impl BusView {
    pub open spec fn wf(self) -> bool {
        &&& self.mem.len() == 0x100000
        &&& self.flags.len() == 0x100000
        &&& self.io_in.len() == 0x10000
        &&& self.io_out.len() == 0x10000
    }
}

impl Bus {
    /// Memory and both latch sets always have their full size.
    #[verifier::type_invariant]
    pub open spec fn inv(&self) -> bool {
        self@.wf()
    }

    /// States the sizes for a caller's proof. Does nothing when run.
    pub fn sizes(&self)
        ensures
            self@.wf(),
    {
        proof {
            use_type_invariant(self);
        }
    }

    /// A bus with all memory, attributes and port latches zero.
    pub fn new() -> (bus: Bus)
        ensures
            bus@.wf(),
            forall|i: int| 0 <= i < 0x100000 ==> bus@.mem[i] == 0 && bus@.flags[i] == 0,
            forall|i: int| 0 <= i < 0x10000 ==> bus@.io_in[i] == 0 && bus@.io_out[i] == 0,
    {
        Bus {
            memory: vec![0u8; ADDRESS_SPACE],
            mem_flags: vec![0u8; ADDRESS_SPACE],
            io_in: vec![0u8; IO_SPACE],
            io_out: vec![0u8; IO_SPACE],
        }
    }

    pub fn read_u8(&self, address: usize) -> (v: u8)
        ensures
            v == mem_read8(self@.mem, address as int),
    {
        proof {
            use_type_invariant(self);
        }
        self.memory[address % ADDRESS_SPACE]
    }

    pub fn read_u16(&self, address: usize) -> (v: u16)
        ensures
            v == mem_read16(self@.mem, address as int),
    {
        proof {
            use_type_invariant(self);
        }
        let l = self.memory[address % ADDRESS_SPACE];
        let h = self.memory[(address % ADDRESS_SPACE + 1) % ADDRESS_SPACE];
        (h as u16) * 256 + (l as u16)
    }

    pub fn write_u8(&mut self, address: usize, v: u8)
        ensures
            final(self)@ == (BusView { mem: mem_write8(old(self)@.mem, address as int, v), ..old(self)@ }),
    {
        proof {
            use_type_invariant(&*self);
        }
        self.memory[address % ADDRESS_SPACE] = v;
    }

    pub fn write_u16(&mut self, address: usize, v: u16)
        ensures
            final(self)@ == (BusView { mem: mem_write16(old(self)@.mem, address as int, v), ..old(self)@ }),
    {
        proof {
            use_type_invariant(&*self);
        }
        self.memory[address % ADDRESS_SPACE] = (v % 256) as u8;
        self.memory[(address % ADDRESS_SPACE + 1) % ADDRESS_SPACE] = (v / 256) as u8;
    }

    /// Copies `data` into memory from `address` on, wrapping at one megabyte.
    /// No more than one megabyte is copied.
    pub fn copy_from(&mut self, data: &Vec<u8>, address: usize)
        ensures
            final(self)@ == (BusView { mem: loaded(old(self)@.mem, data@, address as int), ..old(self)@ }),
    {
        proof {
            use_type_invariant(&*self);
        }
        let base: usize = address % ADDRESS_SPACE;
        let n: usize = if data.len() < ADDRESS_SPACE {
            data.len()
        } else {
            ADDRESS_SPACE
        };
        let mut i: usize = 0;
        assert(self@.mem =~= loaded_upto(self@.mem, data@, base as int, 0));
        while i < n
            invariant
                self@.wf(),
                base == address % 0x100000,
                n <= data@.len(),
                n <= 0x100000,
                i <= n,
                self@ == (BusView { mem: loaded_upto(old(self)@.mem, data@, base as int, i as int), ..old(self)@ }),
            decreases n - i,
        {
            let a: usize = (base + i) % ADDRESS_SPACE;
            let ghost before = self@.mem;
            self.memory[a] = data[i];
            proof {
                let target = loaded_upto(old(self)@.mem, data@, base as int, i + 1);
                assert forall|x: int| 0 <= x < 0x100000 implies #[trigger] self@.mem[x]
                    == target[x] by {
                    lemma_block_index(base as int, i as int, x);
                    assert(before[x] == loaded_upto(old(self)@.mem, data@, base as int, i as int)[x]);
                }
                assert(self@.mem =~= target);
            }
            i = i + 1;
        }
        assert(loaded_upto(old(self)@.mem, data@, base as int, n as int) =~= loaded(
            old(self)@.mem,
            data@,
            address as int,
        ));
    }

    /// The byte that the device behind `port` gives on a read.
    pub fn io_read_u8(&self, port: u16) -> (v: u8)
        ensures
            v == io_read8(self@.io_in, port as int),
    {
        proof {
            use_type_invariant(self);
        }
        self.io_in[port as usize]
    }

    /// Latches a byte written to `port`.
    pub fn io_write_u8(&mut self, port: u16, v: u8)
        ensures
            final(self)@ == (BusView { io_out: io_write8(old(self)@.io_out, port as int, v), ..old(self)@ }),
    {
        proof {
            use_type_invariant(&*self);
        }
        self.io_out[port as usize] = v;
    }

    /// The host sets what `port` gives on the next reads.
    pub fn set_io_input(&mut self, port: u16, v: u8)
        ensures
            final(self)@ == (BusView { io_in: io_write8(old(self)@.io_in, port as int, v), ..old(self)@ }),
    {
        proof {
            use_type_invariant(&*self);
        }
        self.io_in[port as usize] = v;
    }

    /// The byte last written to `port`.
    pub fn io_output(&self, port: u16) -> (v: u8)
        ensures
            v == io_read8(self@.io_out, port as int),
    {
        proof {
            use_type_invariant(self);
        }
        self.io_out[port as usize]
    }

    /// The attribute bits of an address.
    pub fn get_flags(&self, address: usize) -> (v: u8)
        ensures
            v == mem_read8(self@.flags, address as int),
    {
        proof {
            use_type_invariant(self);
        }
        self.mem_flags[address % ADDRESS_SPACE]
    }

    /// Sets the given attribute bits of an address.
    pub fn set_flags(&mut self, address: usize, bits: u8)
        ensures
            final(self)@ == (BusView {
                flags: mem_write8(
                    old(self)@.flags,
                    address as int,
                    mem_read8(old(self)@.flags, address as int) | bits,
                ),
                ..old(self)@
            }),
    {
        proof {
            use_type_invariant(&*self);
        }
        let a = address % ADDRESS_SPACE;
        let v = self.mem_flags[a];
        self.mem_flags[a] = v | bits;
    }

    /// Clears the given attribute bits of an address.
    pub fn clear_flags(&mut self, address: usize, bits: u8)
        ensures
            final(self)@ == (BusView {
                flags: mem_write8(
                    old(self)@.flags,
                    address as int,
                    mem_read8(old(self)@.flags, address as int) & !bits,
                ),
                ..old(self)@
            }),
    {
        proof {
            use_type_invariant(&*self);
        }
        let a = address % ADDRESS_SPACE;
        let v = self.mem_flags[a];
        self.mem_flags[a] = v & !bits;
    }
}

/// Address `x` is the `i`-th of the block that starts at `base` exactly when
/// it is `base + i` wrapped to the bus.
pub proof fn lemma_block_index(base: int, i: int, x: int)
    requires
        0 <= base < 0x100000,
        0 <= i < 0x100000,
        0 <= x < 0x100000,
    ensures
        (x - base) % 0x100000 == i <==> x == (base + i) % 0x100000,
{
    let m = 0x100000int;
    if x >= base {
        vstd::arithmetic::div_mod::lemma_small_mod((x - base) as nat, m as nat);
    } else {
        crate::cpu_808x::alu::lemma_wrap_negative(x - base, m);
    }
    if base + i < m {
        vstd::arithmetic::div_mod::lemma_small_mod((base + i) as nat, m as nat);
    } else {
        vstd::arithmetic::div_mod::lemma_fundamental_div_mod_converse(base + i, m, 1, base + i - m);
    }
}

} // verus!
