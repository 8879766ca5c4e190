//! The unit of transfer from the serial reader to the connection handlers:
//! a fixed-capacity byte buffer plus a logical length. Only the first `size`
//! bytes are valid payload; the rest is unspecified padding.

use vstd::prelude::*;

verus! {

/// Number of bytes every chunk buffer holds.
pub const CAPACITY: usize = 1024;

/// Fixed-capacity byte buffer plus a logical length.
pub struct Chunk {
    pub data: Vec<u8>,
    pub size: usize,
}

impl View for Chunk {
    type V = Seq<u8>;

    /// A chunk stands for its valid payload: the first `size` bytes.
    open spec fn view(&self) -> Seq<u8> {
        self.data@.subrange(0, self.size as int)
    }
}

impl Chunk {
    /// A chunk is well formed when its buffer holds exactly `CAPACITY` bytes
    /// and the logical length never exceeds the capacity.
    pub open spec fn wf(&self) -> bool {
        &&& self.data@.len() == CAPACITY
        &&& self.size <= CAPACITY
    }

    /// Copy the first `length` bytes of `buffer` into a fresh chunk, padding
    /// the rest of the buffer with zeroes. Rejected exactly when `length`
    /// exceeds the capacity or the bytes available; length 0 is valid and
    /// stands for "nothing to send".
    pub fn from_read(buffer: &[u8], length: usize) -> (r: Option<Chunk>)
        ensures
            r is Some <==> (length <= CAPACITY && length <= buffer@.len()),
            r matches Some(c) ==> c.wf() && c.size == length && c@ == buffer@.subrange(
                0,
                length as int,
            ),
    {
        if length > CAPACITY || length > buffer.len() {
            return None;
        }
        let mut data: Vec<u8> = Vec::new();
        let mut i: usize = 0;
        while i < length
            invariant
                i <= length,
                length <= buffer@.len(),
                length <= CAPACITY,
                data@.len() == i,
                forall|k: int| 0 <= k < i ==> data@[k] == buffer@[k],
            decreases length - i,
        {
            data.push(buffer[i]);
            i = i + 1;
        }
        while data.len() < CAPACITY
            invariant
                length <= data@.len() <= CAPACITY,
                forall|k: int| 0 <= k < length ==> data@[k] == buffer@[k],
            decreases CAPACITY - data@.len(),
        {
            data.push(0u8);
        }
        let c = Chunk { data, size: length };
        proof {
            assert(c@ =~= buffer@.subrange(0, length as int));
        }
        Some(c)
    }

    /// A copy of the valid bytes, `data[0..size]`: what a handler forwards
    /// to its socket.
    pub fn payload(&self) -> (r: Vec<u8>)
        requires
            self.wf(),
        ensures
            r@ == self@,
    {
        let mut r: Vec<u8> = Vec::new();
        let mut i: usize = 0;
        while i < self.size
            invariant
                self.wf(),
                i <= self.size,
                r@.len() == i,
                forall|k: int| 0 <= k < i ==> r@[k] == self.data@[k],
            decreases self.size - i,
        {
            r.push(self.data[i]);
            i = i + 1;
        }
        proof {
            assert(r@ =~= self@);
        }
        r
    }
}

impl Default for Chunk {
    /// The empty chunk: zeroed buffer, length 0. Used as the broadcast
    /// channel's initial value, which handlers treat as "nothing to send".
    fn default() -> (r: Chunk)
        ensures
            r.wf(),
            r.size == 0,
            r@ == Seq::<u8>::empty(),
            r.data@.len() == CAPACITY,
            forall|k: int| 0 <= k < r.data@.len() ==> r.data@[k] == 0u8,
    {
        let mut data: Vec<u8> = Vec::new();
        while data.len() < CAPACITY
            invariant
                data@.len() <= CAPACITY,
                forall|k: int| 0 <= k < data@.len() ==> data@[k] == 0u8,
            decreases CAPACITY - data@.len(),
        {
            data.push(0u8);
        }
        let r = Chunk { data, size: 0 };
        proof {
            assert(r@ =~= Seq::<u8>::empty());
        }
        r
    }
}

} // verus!
