//! The four-byte prefetch queue: a ring of four cells with a head index and a
//! length.
use vstd::prelude::*;

verus! {

pub const QUEUE_SIZE: usize = 4;

#[derive(Clone, Copy, Debug)]
pub struct PrefetchQueue {
    cells: [u8; 4],
    head: usize,
    len: usize,
}

impl View for PrefetchQueue {
    type V = Seq<u8>;

    /// The queued bytes, oldest first.
    closed spec fn view(&self) -> Seq<u8> {
        Seq::new(self.len as nat, |i: int| self.cells@[(self.head + i) % 4])
    }
}

impl PrefetchQueue {
    #[verifier::type_invariant]
    closed spec fn inv(&self) -> bool {
        self.head < 4 && self.len <= 4
    }

    pub fn new() -> (q: PrefetchQueue)
        ensures
            q@.len() == 0,
    {
        PrefetchQueue { cells: [0u8; 4], head: 0, len: 0 }
    }

    pub fn len(&self) -> (n: usize)
        ensures
            n == self@.len(),
            n <= 4,
    {
        proof {
            use_type_invariant(self);
        }
        self.len
    }

    pub fn is_full(&self) -> (b: bool)
        ensures
            b == (self@.len() == 4),
            self@.len() <= 4,
    {
        proof {
            use_type_invariant(self);
        }
        self.len == QUEUE_SIZE
    }

    pub fn is_empty(&self) -> (b: bool)
        ensures
            b == (self@.len() == 0),
    {
        self.len == 0
    }

    /// Appends a fetched byte at the tail.
    pub fn push8(&mut self, b: u8)
        requires
            old(self)@.len() < 4,
        ensures
            final(self)@ == old(self)@.push(b),
    {
        proof {
            use_type_invariant(&*self);
        }
        let tail = (self.head + self.len) % QUEUE_SIZE;
        let ghost before = *self;
        self.cells[tail] = b;
        self.len = self.len + 1;
        assert(self@ =~= before@.push(b));
    }

    /// Removes the byte at the head.
    pub fn pop(&mut self) -> (b: u8)
        requires
            old(self)@.len() > 0,
        ensures
            b == old(self)@[0],
            final(self)@ == old(self)@.subrange(1, old(self)@.len() as int),
    {
        proof {
            use_type_invariant(&*self);
        }
        let ghost before = *self;
        let b = self.cells[self.head];
        self.head = (self.head + 1) % QUEUE_SIZE;
        self.len = self.len - 1;
        assert(self@ =~= before@.subrange(1, before@.len() as int));
        b
    }

    /// Empties the queue.
    pub fn flush(&mut self)
        ensures
            final(self)@.len() == 0,
    {
        proof {
            use_type_invariant(&*self);
        }
        self.head = 0;
        self.len = 0;
    }
}

} // verus!
