//! Simple ring buffer of bytes with a fixed capacity.
//!
//! One slot is always left free, so a buffer of size `N` stores at most
//! `N - 1` bytes; writes into a full buffer are ignored.

use vstd::prelude::*;

verus! {

/// Byte ring buffer over a fixed array of size `N`.
#[derive(Debug, Clone, Copy)]
pub struct Buffer<const N: usize> {
    /// Slot the next write goes to.
    pub head: usize,
    /// Slot the next read comes from.
    pub tail: usize,
    /// Backing storage.
    pub buffer: [u8; N],
}

impl<const N: usize> Buffer<N> {
    /// Both cursors stay within the backing array.
    pub open spec fn wf(self) -> bool {
        self.head < N && self.tail < N
    }

    /// How many bytes the buffer stores.
    pub open spec fn spec_len(self) -> int {
        if self.head >= self.tail {
            self.head - self.tail
        } else {
            N + self.head - self.tail
        }
    }

    /// Creates a new empty buffer.
    pub fn new() -> (r: Buffer<N>)
        requires
            0 < N,
        ensures
            r.wf(),
            r.head == 0 && r.tail == 0,
            r.spec_len() == 0,
    {
        Buffer { head: 0, tail: 0, buffer: [0; N] }
    }

    /// Creates a buffer holding the contents of the given slice, oldest
    /// first.  The slice must not exceed the backing array; a slice that
    /// fills it exactly loses its last byte to the ring's one free slot.
    pub fn copy_from_slice(data: &[u8]) -> (r: Buffer<N>)
        requires
            0 < N,
            data@.len() <= N,
        ensures
            r.wf(),
            r.spec_len() == (if data@.len() < N {
                data@.len() as int
            } else {
                N - 1
            }),
            forall|j: int| 0 <= j < r.spec_len() ==> r.buffer@[j] == data@[j],
    {
        let mut new = Self::new();
        let mut i: usize = 0;
        while i < data.len()
            invariant
                0 < N,
                i <= data@.len() <= N,
                new.wf(),
                new.tail == 0,
                new.head == (if i < N {
                    i as int
                } else {
                    N - 1
                }),
                forall|j: int| 0 <= j < new.head ==> new.buffer@[j] == data@[j],
            decreases data@.len() - i,
        {
            new.write(data[i]);
            proof {
                if new.tail == 0 && i + 1 < N {
                    vstd::arithmetic::div_mod::lemma_small_mod((i + 1) as nat, N as nat);
                }
                if i + 1 == N {
                    vstd::arithmetic::div_mod::lemma_mod_self_0(N as int);
                }
            }
            i = i + 1;
        }
        new
    }

    /// Writes a byte at the head of the buffer; a full buffer ignores the
    /// write rather than overrunning the tail.
    pub fn write(&mut self, value: u8)
        requires
            old(self).wf(),
            0 < N,
        ensures
            final(self).wf(),
            final(self).tail == old(self).tail,
            ({
                let i = ((old(self).head + 1) as int) % (N as int);
                if i != old(self).tail {
                    final(self).head == i && final(self).buffer@ == old(self).buffer@.update(
                        old(self).head as int,
                        value,
                    )
                } else {
                    *final(self) == *old(self)
                }
            }),
    {
        let i = (self.head + 1) % N;
        // If this write would advance the head onto the tail, the buffer is
        // about to overflow: drop the byte and leave the head alone.
        if i != self.tail {
            self.buffer[self.head] = value;
            self.head = i;
        }
    }

    /// The number of bytes stored in the buffer.
    pub fn len(&self) -> (r: usize)
        requires
            self.wf(),
            0 < N,
        ensures
            r == self.spec_len(),
            r < N,
    {
        if self.head >= self.tail {
            self.head - self.tail
        } else {
            N - self.tail + self.head
        }
    }

    /// The space left in the buffer before writes are ignored.
    pub fn available(&self) -> (r: usize)
        requires
            self.wf(),
            0 < N,
        ensures
            r == N - 1 - self.spec_len(),
    {
        N - 1 - self.len()
    }

    /// Reads the byte at the front of the buffer, or `None` when empty.
    pub fn read(&mut self) -> (r: Option<u8>)
        requires
            old(self).wf(),
            0 < N,
        ensures
            final(self).wf(),
            final(self).head == old(self).head,
            final(self).buffer == old(self).buffer,
            old(self).head == old(self).tail ==> r == None::<u8> && *final(self) == *old(self),
            old(self).head != old(self).tail ==> r == Some(old(self).buffer@[old(self).tail as int])
                && final(self).tail == ((old(self).tail + 1) as int) % (N as int),
    {
        // If the head is not ahead of the tail, there is nothing stored.
        if self.head == self.tail {
            return None;
        }
        let value = self.buffer[self.tail];
        self.tail = (self.tail + 1) % N;
        Some(value)
    }

    /// Returns `true` if the buffer holds no bytes.
    pub fn is_empty(&self) -> (r: bool)
        requires
            self.wf(),
            0 < N,
        ensures
            r == (self.spec_len() == 0),
    {
        self.tail == self.head
    }

    /// Returns `true` when the buffer is at capacity, so further writes
    /// will be ignored.
    pub fn is_full(&self) -> (r: bool)
        requires
            self.wf(),
            0 < N,
        ensures
            r == (self.spec_len() == N - 1),
    {
        self.len() >= N - 1
    }

    /// Clears the buffer.
    pub fn clear(&mut self)
        requires
            old(self).wf(),
        ensures
            final(self).wf(),
            final(self).spec_len() == 0,
            final(self).head == old(self).head && final(self).tail == old(self).head,
            final(self).buffer == old(self).buffer,
    {
        self.tail = self.head;
    }
}

} // verus!
