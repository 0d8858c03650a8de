//! Linear memory and its typed, bounds-checked read views.
//!
//! Memory exposes a single operation: load a value of some loadable
//! shape at a byte offset.  A read fails with a recoverable
//! [`MemoryError`] — never a fault — when the offset is out of bounds
//! or the bytes are not validly formatted for the requested shape.

use vstd::prelude::*;
use vstd::slice::slice_index_get;

use crate::error::MemoryError;

verus! {

/// A shape that can be loaded from linear memory.
///
/// The separate trait lets callers pick the shape with turbofish
/// syntax, `memory.load::<T>(offset)`.
pub trait Loadable: View + Sized {
    /// What loading this shape at `offset` yields: the view of the
    /// loaded value, or the error the read fails with.
    spec fn spec_load(memory: Seq<u8>, offset: int) -> Result<Self::V, MemoryError>;

    /// Loads the shape from `memory` at `offset`.
    fn load(memory: &[u8], offset: usize) -> (r: Result<Self, MemoryError>)
        ensures
            r matches Ok(v) ==> Self::spec_load(memory@, offset as int) matches Ok(m) && v@ == m,
            r matches Err(e) ==> Self::spec_load(memory@, offset as int) == Err::<Self::V,
                MemoryError,
            >(e),
    ;
}

/// The raw byte span from an offset to the end of memory.  The read
/// succeeds exactly when the offset is within bounds (an offset equal
/// to the length yields the empty span).
impl Loadable for Vec<u8> {
    open spec fn spec_load(memory: Seq<u8>, offset: int) -> Result<Seq<u8>, MemoryError> {
        if 0 <= offset <= memory.len() {
            Ok(memory.skip(offset))
        } else {
            Err(MemoryError::OutOfBounds)
        }
    }

    fn load(memory: &[u8], offset: usize) -> (r: Result<Self, MemoryError>) {
        let n = memory.len();
        if offset > n {
            return Err(MemoryError::OutOfBounds);
        }
        let mut out: Vec<u8> = Vec::new();
        let mut i: usize = offset;
        while i < n
            invariant
                n == memory@.len(),
                offset <= i <= n,
                out@ =~= memory@.subrange(offset as int, i as int),
            decreases n - i,
        {
            out.push(*slice_index_get(memory, i));
            assert(out@ =~= memory@.subrange(offset as int, i + 1 as int));
            i += 1;
        }
        assert(memory@.subrange(offset as int, n as int) =~= memory@.skip(offset as int));
        Ok(out)
    }
}

/// A NUL-terminated byte string loaded from linear memory: exactly the
/// bytes preceding the first NUL at or after the load offset.  The
/// stored bytes therefore never contain a NUL.
#[derive(Debug)]
pub struct ZString {
    bytes: Vec<u8>,
}

impl View for ZString {
    type V = Seq<u8>;

    closed spec fn view(&self) -> Seq<u8> {
        self.bytes@
    }
}

impl ZString {
    /// The bytes of the string, without the terminator.
    pub fn bytes(&self) -> (r: &Vec<u8>)
        ensures
            r@ == self@,
    {
        &self.bytes
    }

    /// Consumes the string, yielding its bytes without the terminator.
    pub fn into_bytes(self) -> (r: Vec<u8>)
        ensures
            r@ == self@,
    {
        self.bytes
    }
}

/// The read succeeds exactly when the offset is within bounds and a NUL
/// terminator occurs between it and the end of memory; it yields the
/// bytes strictly before the first such terminator.
impl Loadable for ZString {
    open spec fn spec_load(memory: Seq<u8>, offset: int) -> Result<Seq<u8>, MemoryError> {
        if !(0 <= offset <= memory.len()) {
            Err(MemoryError::OutOfBounds)
        } else {
            match memory.skip(offset).index_of_first(0u8) {
                Some(i) => Ok(memory.skip(offset).take(i)),
                None => Err(MemoryError::MissingTerminator),
            }
        }
    }

    fn load(memory: &[u8], offset: usize) -> (r: Result<Self, MemoryError>) {
        let n = memory.len();
        if offset > n {
            return Err(MemoryError::OutOfBounds);
        }
        let ghost tail = memory@.skip(offset as int);
        let mut end: usize = offset;
        while end < n
            invariant
                n == memory@.len(),
                offset <= end <= n,
                forall|j: int| offset <= j < end ==> memory@[j] != 0,
            ensures
                offset <= end <= n,
                forall|j: int| offset <= j < end ==> memory@[j] != 0,
                end < n ==> memory@[end as int] == 0,
            decreases n - end,
        {
            if *slice_index_get(memory, end) == 0 {
                break;
            }
            end += 1;
        }
        if end == n {
            proof {
                tail.index_of_first_ensures(0u8);
                if tail.index_of_first(0u8) is Some {
                    let i = tail.index_of_first(0u8)->Some_0;
                    assert(tail[i] == memory@[offset + i]);
                    assert(false);
                }
            }
            return Err(MemoryError::MissingTerminator);
        }
        proof {
            tail.index_of_first_ensures(0u8);
            assert(tail[end - offset] == 0) by {
                assert(tail[end - offset] == memory@[end as int]);
            }
            assert(tail.contains(0u8)) by {
                assert(tail[end - offset] == 0u8);
            }
            let i = tail.index_of_first(0u8)->Some_0;
            assert(tail[i] == memory@[offset + i]);
            assert(i == end - offset) by {
                if i < end - offset {
                    assert(memory@[offset + i] != 0);
                } else if i > end - offset {
                    assert(tail[end - offset] != 0u8);
                }
            }
        }
        let mut out: Vec<u8> = Vec::new();
        let mut i: usize = offset;
        while i < end
            invariant
                n == memory@.len(),
                offset <= i <= end <= n,
                out@ =~= memory@.subrange(offset as int, i as int),
            decreases end - i,
        {
            out.push(*slice_index_get(memory, i));
            assert(out@ =~= memory@.subrange(offset as int, i + 1 as int));
            i += 1;
        }
        proof {
            assert(memory@.subrange(offset as int, end as int) =~= tail.take(end - offset));
        }
        Ok(ZString { bytes: out })
    }
}

/// A WebAssembly linear memory instance: a byte buffer sized once at
/// link time and never grown.
#[derive(Debug)]
pub struct Memory(Vec<u8>);

impl View for Memory {
    type V = Seq<u8>;

    closed spec fn view(&self) -> Seq<u8> {
        self.0@
    }
}

impl Memory {
    /// A memory over the given initial contents.
    pub fn new(data: Vec<u8>) -> (m: Memory)
        ensures
            m@ == data@,
    {
        Memory(data)
    }

    /// The size of the memory in bytes.
    pub fn size(&self) -> (r: usize)
        ensures
            r == self@.len(),
    {
        self.0.len()
    }

    /// Loads a value of shape `T` at the given byte offset.
    pub fn load<T: Loadable>(&self, offset: usize) -> (r: Result<T, MemoryError>)
        ensures
            r matches Ok(v) ==> T::spec_load(self@, offset as int) matches Ok(m) && v@ == m,
            r matches Err(e) ==> T::spec_load(self@, offset as int) == Err::<T::V, MemoryError>(e),
    {
        T::load(self.0.as_slice(), offset)
    }
}

} // verus!
