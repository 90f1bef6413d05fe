//! The shadow call stack: a bounded record of the calls and interrupts that
//! have not returned yet. It serves step-over and unwinding; the real stack
//! lives in guest memory.
use vstd::prelude::*;
use crate::cpu_808x::registers::{calc_linear_address, linear};

verus! {

/// The number of entries that the shadow call stack holds.
pub const CPU_CALL_STACK_LEN: usize = 128;

/// One entry of the shadow call stack.
#[derive(Clone, Copy, Debug, PartialEq, Eq, Structural)]
pub enum CallStackEntry {
    Call { ret_cs: u16, ret_ip: u16, call_ip: u16 },
    CallF { ret_cs: u16, ret_ip: u16, call_cs: u16, call_ip: u16 },
    Interrupt { ret_cs: u16, ret_ip: u16, call_cs: u16, call_ip: u16, number: u8 },
}

impl CallStackEntry {
    /// The bus address that the entry returns to.
    pub open spec fn return_address(self) -> int {
        match self {
            CallStackEntry::Call { ret_cs, ret_ip, .. } => linear(ret_cs, ret_ip),
            CallStackEntry::CallF { ret_cs, ret_ip, .. } => linear(ret_cs, ret_ip),
            CallStackEntry::Interrupt { ret_cs, ret_ip, .. } => linear(ret_cs, ret_ip),
        }
    }

    pub fn return_addr(&self) -> (a: u32)
        ensures
            a == self.return_address(),
    {
        match self {
            CallStackEntry::Call { ret_cs, ret_ip, .. } => calc_linear_address(*ret_cs, *ret_ip),
            CallStackEntry::CallF { ret_cs, ret_ip, .. } => calc_linear_address(*ret_cs, *ret_ip),
            CallStackEntry::Interrupt { ret_cs, ret_ip, .. } => calc_linear_address(
                *ret_cs,
                *ret_ip,
            ),
        }
    }
}

/// The index of the first entry that returns to `addr`, or the length of the
/// sequence if there is none.
pub open spec fn first_return_to(s: Seq<CallStackEntry>, addr: int) -> int
    decreases s.len(),
{
    if s.len() == 0 {
        0
    } else if s[0].return_address() == addr {
        0
    } else {
        1 + first_return_to(s.subrange(1, s.len() as int), addr)
    }
}

/// The stack after a push: when it is full, the oldest entry leaves first.
pub open spec fn pushed(s: Seq<CallStackEntry>, e: CallStackEntry) -> Seq<CallStackEntry> {
    if s.len() >= CPU_CALL_STACK_LEN {
        s.subrange(1, s.len() as int).push(e)
    } else {
        s.push(e)
    }
}

/// The stack after execution reached the return address `addr`: the oldest
/// entry that returns there leaves, with everything that was pushed after
/// it. A stack without such an entry stays as it is.
pub open spec fn rewound(s: Seq<CallStackEntry>, addr: int) -> Seq<CallStackEntry> {
    s.subrange(0, first_return_to(s, addr))
}

pub proof fn lemma_first_return_to(s: Seq<CallStackEntry>, addr: int)
    ensures
        0 <= first_return_to(s, addr) <= s.len(),
        first_return_to(s, addr) < s.len() ==> s[first_return_to(s, addr)].return_address()
            == addr,
        forall|k: int|
            0 <= k < first_return_to(s, addr) ==> (#[trigger] s[k]).return_address() != addr,
    decreases s.len(),
{
    if s.len() > 0 && s[0].return_address() != addr {
        let t = s.subrange(1, s.len() as int);
        lemma_first_return_to(t, addr);
        assert forall|k: int| 0 <= k < first_return_to(s, addr) implies (#[trigger] s[k]).return_address()
            != addr by {
            if k > 0 {
                assert(t[k - 1] == s[k]);
            }
        }
    }
}

pub struct CallStack {
    entries: Vec<CallStackEntry>,
}

impl View for CallStack {
    type V = Seq<CallStackEntry>;

    closed spec fn view(&self) -> Seq<CallStackEntry> {
        self.entries@
    }
}

impl CallStack {
    #[verifier::type_invariant]
    pub open spec fn inv(&self) -> bool {
        self@.len() <= CPU_CALL_STACK_LEN
    }

    pub fn new() -> (s: CallStack)
        ensures
            s@.len() == 0,
    {
        CallStack { entries: Vec::new() }
    }

    pub fn len(&self) -> (n: usize)
        ensures
            n == self@.len(),
            n <= CPU_CALL_STACK_LEN,
    {
        proof {
            use_type_invariant(self);
        }
        self.entries.len()
    }

    /// The entry at `i`, counting from the oldest.
    pub fn get(&self, i: usize) -> (e: Option<CallStackEntry>)
        ensures
            i < self@.len() ==> e == Some(self@[i as int]),
            i >= self@.len() ==> e is None,
    {
        if i < self.entries.len() {
            Some(self.entries[i])
        } else {
            None
        }
    }

    /// Pushes an entry. Returns the entry that had to leave, if the stack was
    /// full.
    pub fn push(&mut self, e: CallStackEntry) -> (dropped: Option<CallStackEntry>)
        ensures
            final(self)@ == pushed(old(self)@, e),
            dropped == if old(self)@.len() >= CPU_CALL_STACK_LEN {
                Some(old(self)@[0])
            } else {
                None
            },
    {
        proof {
            use_type_invariant(&*self);
        }
        let mut v: Vec<CallStackEntry> = Vec::new();
        let mut dropped: Option<CallStackEntry> = None;
        let n = self.entries.len();
        let start: usize = if n >= CPU_CALL_STACK_LEN {
            dropped = Some(self.entries[0]);
            1
        } else {
            0
        };
        let mut k: usize = start;
        while k < n
            invariant
                start <= k <= n,
                n == self.entries@.len(),
                v@ == self.entries@.subrange(start as int, k as int),
            decreases n - k,
        {
            v.push(self.entries[k]);
            assert(v@ =~= self.entries@.subrange(start as int, k + 1));
            k = k + 1;
        }
        v.push(e);
        proof {
            assert(self.entries@.subrange(0, n as int) =~= self.entries@);
            assert(v@ =~= pushed(self.entries@, e));
        }
        *self = CallStack { entries: v };
        dropped
    }

    /// Unwinds to the return address `addr`. Returns the entries that left,
    /// oldest first.
    pub fn rewind(&mut self, addr: u32) -> (gone: Vec<CallStackEntry>)
        ensures
            final(self)@ == rewound(old(self)@, addr as int),
            final(self)@ + gone@ == old(self)@,
    {
        proof {
            use_type_invariant(&*self);
        }
        let n = self.entries.len();
        let mut pos: usize = 0;
        assert(self.entries@.subrange(0, n as int) =~= self.entries@);
        while pos < n && self.entries[pos].return_addr() != addr
            invariant
                pos <= n,
                n == self.entries@.len(),
                pos + first_return_to(self.entries@.subrange(pos as int, n as int), addr as int)
                    == first_return_to(self.entries@, addr as int),
            decreases n - pos,
        {
            proof {
                let t = self.entries@.subrange(pos as int, n as int);
                assert(t[0] == self.entries@[pos as int]);
                assert(t.subrange(1, t.len() as int) =~= self.entries@.subrange(
                    pos + 1,
                    n as int,
                ));
            }
            pos = pos + 1;
        }
        proof {
            let t = self.entries@.subrange(pos as int, n as int);
            if pos < n {
                assert(t[0] == self.entries@[pos as int]);
            }
            assert(first_return_to(t, addr as int) == 0);
        }
        let mut kept: Vec<CallStackEntry> = Vec::new();
        let mut gone: Vec<CallStackEntry> = Vec::new();
        let mut k: usize = 0;
        while k < n
            invariant
                k <= n,
                pos <= n,
                n == self.entries@.len(),
                kept@ == self.entries@.subrange(
                    0,
                    if k < pos {
                        k as int
                    } else {
                        pos as int
                    },
                ),
                gone@ == self.entries@.subrange(
                    pos as int,
                    if k < pos {
                        pos as int
                    } else {
                        k as int
                    },
                ),
            decreases n - k,
        {
            if k < pos {
                kept.push(self.entries[k]);
                assert(kept@ =~= self.entries@.subrange(0, k + 1));
            } else {
                gone.push(self.entries[k]);
                assert(gone@ =~= self.entries@.subrange(pos as int, k + 1));
            }
            k = k + 1;
        }
        proof {
            assert(kept@ + gone@ =~= self.entries@);
        }
        *self = CallStack { entries: kept };
        gone
    }

    /// Empties the stack.
    pub fn clear(&mut self)
        ensures
            final(self)@.len() == 0,
    {
        *self = CallStack { entries: Vec::new() };
    }
}

} // verus!
