//! The scratch memory arena behind the module host.
//!
//! A contract module and its host share a linear scratch memory.  The host
//! hands values to the module by allocating a buffer and writing it byte
//! by byte; lists of buffers travel as collections of buffer handles.  Any
//! access outside an allocated buffer is a fault that aborts the
//! transaction.

use vstd::prelude::*;

verus! {

/// A fault of the module host: an access outside an allocated buffer, or
/// a malformed collection access.
#[derive(Debug, Clone, PartialEq)]
pub enum ExternalsError {
    OutOfBounds,
    UnknownBuffer,
    UnknownCollection,
    TooLarge,
}

/// The scratch arena: every allocated buffer, and every collection of
/// buffer handles.  A buffer handle is an index into the buffer list; a
/// collection handle an index into the collection list.
pub struct HostMemory {
    buffers: Vec<Vec<u8>>,
    collections: Vec<Vec<usize>>,
}

/// View of a [`HostMemory`]: the buffers' contents and the collections'
/// handle lists.
pub ghost struct HostMemoryV {
    pub buffers: Seq<Seq<u8>>,
    pub collections: Seq<Seq<usize>>,
}

impl View for HostMemory {
    type V = HostMemoryV;

    closed spec fn view(&self) -> HostMemoryV {
        HostMemoryV {
            buffers: self.buffers.deep_view(),
            collections: Seq::new(self.collections@.len(), |i: int| self.collections@[i]@),
        }
    }
}

impl HostMemory {
    /// An empty arena.
    pub fn new() -> (r: HostMemory)
        ensures
            r@.buffers =~= Seq::<Seq<u8>>::empty(),
            r@.collections =~= Seq::<Seq<usize>>::empty(),
    {
        HostMemory { buffers: Vec::new(), collections: Vec::new() }
    }

    /// Allocates a zeroed buffer of `len` bytes and returns its handle.
    #[verifier::loop_isolation(false)]
    pub fn allocate(&mut self, len: usize) -> (ptr: usize)
        ensures
            ptr == old(self)@.buffers.len(),
            final(self)@.buffers == old(self)@.buffers.push(Seq::new(len as nat, |i: int| 0u8)),
            final(self)@.collections == old(self)@.collections,
    {
        let ptr = self.buffers.len();
        let mut buf: Vec<u8> = Vec::new();
        let mut i: usize = 0;
        while i < len
            invariant
                i <= len,
                buf@ =~= Seq::new(i as nat, |j: int| 0u8),
            decreases len - i,
        {
            buf.push(0u8);
            proof {
                assert(buf@ =~= Seq::new(i as nat + 1, |j: int| 0u8));
            }
            i += 1;
        }
        let ghost before = self.buffers.deep_view();
        self.buffers.push(buf);
        proof {
            assert forall|m: int| 0 <= m < self.buffers.deep_view().len() implies
                self.buffers.deep_view()[m] == before.push(
                Seq::new(len as nat, |i: int| 0u8),
            )[m] by {
                if m < before.len() {
                    assert(self.buffers.deep_view()[m] == before[m]);
                } else {
                    assert(self.buffers.deep_view()[m] == self.buffers[m]@);
                }
            }
            assert(self.buffers.deep_view() =~= before.push(Seq::new(len as nat, |i: int| 0u8)));
            assert(self@.collections =~= old(self)@.collections);
        }
        ptr
    }

    /// The length of the buffer behind `ptr`.
    pub fn get_ptr_len(&self, ptr: usize) -> (r: Result<usize, ExternalsError>)
        ensures
            match r {
                Ok(n) => ptr < self@.buffers.len() && n == self@.buffers[ptr as int].len(),
                Err(e) => ptr >= self@.buffers.len() && e == ExternalsError::UnknownBuffer,
            },
    {
        if ptr >= self.buffers.len() {
            return Err(ExternalsError::UnknownBuffer);
        }
        proof {
            assert(self.buffers.deep_view()[ptr as int] == self.buffers[ptr as int]@);
        }
        Ok(self.buffers[ptr].len())
    }

    /// Writes one byte at `offset` inside the buffer behind `ptr`.
    pub fn write_byte(&mut self, ptr: usize, offset: usize, byte: u8) -> (r: Result<
        (),
        ExternalsError,
    >)
        ensures
            match r {
                Ok(()) => ptr < old(self)@.buffers.len() && offset < old(self)@.buffers[
                    ptr as int
                ].len() && final(self)@.buffers == old(self)@.buffers.update(
                    ptr as int,
                    old(self)@.buffers[ptr as int].update(offset as int, byte),
                ) && final(self)@.collections == old(self)@.collections,
                Err(e) => *final(self) == *old(self) && (ptr >= old(self)@.buffers.len()
                    || offset >= old(self)@.buffers[ptr as int].len()),
            },
    {
        if ptr >= self.buffers.len() {
            return Err(ExternalsError::UnknownBuffer);
        }
        proof {
            assert(self.buffers.deep_view()[ptr as int] == self.buffers[ptr as int]@);
        }
        if offset >= self.buffers[ptr].len() {
            return Err(ExternalsError::OutOfBounds);
        }
        let ghost before = self.buffers.deep_view();
        let buf = &mut self.buffers[ptr];
        buf[offset] = byte;
        proof {
            assert forall|m: int| 0 <= m < self.buffers.deep_view().len() implies
                self.buffers.deep_view()[m] == before.update(
                ptr as int,
                before[ptr as int].update(offset as int, byte),
            )[m] by {
                assert(self.buffers.deep_view()[m] == self.buffers[m]@);
            }
            assert(self.buffers.deep_view() =~= before.update(
                ptr as int,
                before[ptr as int].update(offset as int, byte),
            ));
            assert(self@.collections =~= old(self)@.collections);
        }
        Ok(())
    }

    /// Reads one byte at `offset` inside the buffer behind `ptr`.
    pub fn read_byte(&self, ptr: usize, offset: usize) -> (r: Result<u8, ExternalsError>)
        ensures
            match r {
                Ok(b) => ptr < self@.buffers.len() && offset < self@.buffers[ptr as int].len()
                    && b == self@.buffers[ptr as int][offset as int],
                Err(_) => ptr >= self@.buffers.len() || offset >= self@.buffers[ptr as int].len(),
            },
    {
        if ptr >= self.buffers.len() {
            return Err(ExternalsError::UnknownBuffer);
        }
        proof {
            assert(self.buffers.deep_view()[ptr as int] == self.buffers[ptr as int]@);
        }
        if offset >= self.buffers[ptr].len() {
            return Err(ExternalsError::OutOfBounds);
        }
        Ok(self.buffers[ptr][offset])
    }

    /// Copies `data` into a fresh buffer — the allocate-then-write-bytes
    /// marshalling loop — and returns the buffer's handle.
    #[verifier::loop_isolation(false)]
    pub fn write_data(&mut self, data: &[u8]) -> (r: Result<usize, ExternalsError>)
        ensures
            match r {
                Ok(ptr) => ptr == old(self)@.buffers.len() && final(self)@.buffers == old(
                    self,
                )@.buffers.push(data@) && final(self)@.collections == old(self)@.collections,
                Err(_) => false,
            },
    {
        let len = data.len();
        let ptr = self.allocate(len);
        let ghost allocated = self@.buffers;
        let mut i: usize = 0;
        while i < len
            invariant
                i <= len,
                ptr < self@.buffers.len(),
                self@.buffers.len() == allocated.len(),
                self@.buffers[ptr as int].len() == len,
                self@.collections == old(self)@.collections,
                forall|m: int| 0 <= m < self@.buffers.len() && m != ptr
                    ==> self@.buffers[m] == #[trigger] allocated[m],
                forall|j: int| 0 <= j < i ==> self@.buffers[ptr as int][j] == data@[j],
            decreases len - i,
        {
            match self.write_byte(ptr, i, data[i]) {
                Ok(()) => (),
                Err(_) => {
                    proof {
                        assert(false);
                    }
                    return Err(ExternalsError::OutOfBounds);
                },
            }
            i += 1;
        }
        proof {
            assert(self@.buffers[ptr as int] =~= data@);
            assert forall|m: int| 0 <= m < self@.buffers.len() implies self@.buffers[m] == old(
                self,
            )@.buffers.push(data@)[m] by {
                if m != ptr {
                    assert(self@.buffers[m] == allocated[m]);
                    assert(allocated[m] == old(self)@.buffers[m]);
                }
            }
            assert(self@.buffers =~= old(self)@.buffers.push(data@));
        }
        Ok(ptr)
    }

    /// Starts a new collection holding the buffer handle `head`, and
    /// returns the collection's handle.
    pub fn create_collection(&mut self, head: usize) -> (r: Result<usize, ExternalsError>)
        ensures
            match r {
                Ok(c) => head < old(self)@.buffers.len() && c == old(self)@.collections.len()
                    && final(self)@.collections == old(self)@.collections.push(seq![head])
                    && final(self)@.buffers == old(self)@.buffers,
                Err(e) => *final(self) == *old(self) && head >= old(self)@.buffers.len() && e
                    == ExternalsError::UnknownBuffer,
            },
    {
        if head >= self.buffers.len() {
            return Err(ExternalsError::UnknownBuffer);
        }
        let c = self.collections.len();
        let mut col: Vec<usize> = Vec::new();
        col.push(head);
        proof {
            assert(col@ =~= seq![head]);
        }
        self.collections.push(col);
        proof {
            assert forall|m: int| 0 <= m < self@.collections.len() implies self@.collections[m]
                == old(self)@.collections.push(seq![head])[m] by {
                assert(self@.collections[m] == self.collections@[m]@);
                if m < old(self)@.collections.len() {
                    assert(self.collections@[m] == old(self).collections@[m]);
                }
            }
            assert(self@.collections =~= old(self)@.collections.push(seq![head]));
            assert(self@.buffers =~= old(self)@.buffers);
        }
        Ok(c)
    }

    /// Appends the buffer handle `ptr` to the collection behind `head`.
    pub fn add_to_collection(&mut self, head: usize, ptr: usize) -> (r: Result<
        (),
        ExternalsError,
    >)
        ensures
            match r {
                Ok(()) => head < old(self)@.collections.len() && ptr < old(self)@.buffers.len()
                    && final(self)@.collections == old(self)@.collections.update(
                    head as int,
                    old(self)@.collections[head as int].push(ptr),
                ) && final(self)@.buffers == old(self)@.buffers,
                Err(_) => *final(self) == *old(self) && (head >= old(self)@.collections.len()
                    || ptr >= old(self)@.buffers.len()),
            },
    {
        if head >= self.collections.len() {
            return Err(ExternalsError::UnknownCollection);
        }
        if ptr >= self.buffers.len() {
            return Err(ExternalsError::UnknownBuffer);
        }
        proof {
            assert(self@.collections[head as int] == self.collections@[head as int]@);
        }
        let col = &mut self.collections[head];
        col.push(ptr);
        proof {
            assert forall|m: int| 0 <= m < self@.collections.len() implies self@.collections[m]
                == old(self)@.collections.update(
                head as int,
                old(self)@.collections[head as int].push(ptr),
            )[m] by {
                assert(self@.collections[m] == self.collections@[m]@);
                if m != head as int {
                    assert(self.collections@[m] == old(self).collections@[m]);
                }
            }
            assert(self@.collections =~= old(self)@.collections.update(
                head as int,
                old(self)@.collections[head as int].push(ptr),
            ));
            assert(self@.buffers =~= old(self)@.buffers);
        }
        Ok(())
    }

    /// The number of buffer handles in the collection behind `head`.
    pub fn get_ptr_collection_len(&self, head: usize) -> (r: Result<usize, ExternalsError>)
        ensures
            match r {
                Ok(n) => head < self@.collections.len() && n == self@.collections[
                    head as int
                ].len(),
                Err(e) => head >= self@.collections.len() && e
                    == ExternalsError::UnknownCollection,
            },
    {
        if head >= self.collections.len() {
            return Err(ExternalsError::UnknownCollection);
        }
        Ok(self.collections[head].len())
    }

    /// The buffer handle at `index` in the collection behind `head`.
    pub fn get_ptr_from_collection(&self, head: usize, index: usize) -> (r: Result<
        usize,
        ExternalsError,
    >)
        ensures
            match r {
                Ok(p) => head < self@.collections.len() && index < self@.collections[
                    head as int
                ].len() && p == self@.collections[head as int][index as int],
                Err(_) => head >= self@.collections.len() || index >= self@.collections[
                    head as int
                ].len(),
            },
    {
        if head >= self.collections.len() {
            return Err(ExternalsError::UnknownCollection);
        }
        if index >= self.collections[head].len() {
            return Err(ExternalsError::OutOfBounds);
        }
        Ok(self.collections[head][index])
    }

    /// The bytes of the buffer behind `ptr`, copied out for the caller.
    #[verifier::loop_isolation(false)]
    pub fn read_data(&self, ptr: usize) -> (r: Result<Vec<u8>, ExternalsError>)
        ensures
            match r {
                Ok(data) => ptr < self@.buffers.len() && data@ == self@.buffers[ptr as int],
                Err(e) => ptr >= self@.buffers.len() && e == ExternalsError::UnknownBuffer,
            },
    {
        if ptr >= self.buffers.len() {
            return Err(ExternalsError::UnknownBuffer);
        }
        proof {
            assert(self.buffers.deep_view()[ptr as int] == self.buffers[ptr as int]@);
        }
        let buf = &self.buffers[ptr];
        let n = buf.len();
        let mut data: Vec<u8> = Vec::new();
        let mut i: usize = 0;
        while i < n
            invariant
                i <= n,
                data@ == buf@.take(i as int),
            decreases n - i,
        {
            data.push(buf[i]);
            proof {
                assert(data@ =~= buf@.take(i + 1));
            }
            i += 1;
        }
        proof {
            assert(data@ =~= buf@);
        }
        Ok(data)
    }
}

} // verus!
