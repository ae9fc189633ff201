//! A verified host-memory backend.
//!
//! Every buffer lives in ordinary host memory. This backend proves the
//! capability contracts of [`crate::backend`] implementable and gives callers
//! a backend that needs no device. A host "mapping" is a snapshot copy of the
//! buffer's memory: reads through it see the contents at mapping time, and a
//! mutable mapping is written back into the buffer's storage when the mapping
//! is released, as the slice capability demands.

use vstd::prelude::*;

use crate::backend::BufferBackend;
use crate::backend::GraphicsContext;
use crate::backend::SliceBackend;
use crate::buffer::BufferError;

verus! {

/// The host-memory backend capability. It keeps no state of its own: each
/// buffer representation owns its storage.
pub struct MemoryBackend;

/// A context that owns a [`MemoryBackend`] and hands out access to it.
pub struct MemoryContext {
    backend: MemoryBackend,
}

impl MemoryContext {
    /// A fresh context over the host-memory backend.
    pub fn new() -> MemoryContext {
        MemoryContext { backend: MemoryBackend }
    }
}

impl GraphicsContext for MemoryContext {
    type Backend = MemoryBackend;

    fn backend(&mut self) -> &mut MemoryBackend {
        &mut self.backend
    }
}

/// Copy a borrowed run of elements into a fresh host vector.
fn copy_out<T: Copy>(values: &[T]) -> (r: Vec<T>)
    ensures
        r@ == values@,
{
    let mut out: Vec<T> = Vec::new();
    let mut i: usize = 0;
    while i < values.len()
        invariant
            i <= values@.len(),
            out@.len() == i as nat,
            forall|j: int| 0 <= j < i ==> out@[j] == values@[j],
        decreases values@.len() - i,
    {
        out.push(values[i]);
        i = i + 1;
    }
    proof {
        assert(out@ =~= values@);
    }
    out
}

impl<T: Copy + Default> BufferBackend<T> for MemoryBackend {
    type BufferRepr = Vec<T>;

    open spec fn buffer_view(repr: Vec<T>) -> Seq<T> {
        repr@
    }

    fn new_buffer(&mut self, len: usize) -> (r: Result<Vec<T>, BufferError>) {
        let mut out: Vec<T> = Vec::new();
        let mut i: usize = 0;
        while i < len
            invariant
                i <= len,
                out@.len() == i as nat,
            decreases len - i,
        {
            out.push(T::default());
            i = i + 1;
        }
        Ok(out)
    }

    fn from_slice(&mut self, values: &[T]) -> (r: Result<Vec<T>, BufferError>) {
        Ok(copy_out(values))
    }

    fn repeat(&mut self, len: usize, value: T) -> (r: Result<Vec<T>, BufferError>) {
        let mut out: Vec<T> = Vec::new();
        let mut i: usize = 0;
        while i < len
            invariant
                i <= len,
                out@.len() == i as nat,
                forall|j: int| 0 <= j < i ==> out@[j] == value,
            decreases len - i,
        {
            out.push(value);
            i = i + 1;
        }
        proof {
            assert(out@ =~= Seq::new(len as nat, |i: int| value));
        }
        Ok(out)
    }

    fn at(repr: &Vec<T>, i: usize) -> (r: T) {
        repr[i]
    }

    fn whole(repr: &Vec<T>) -> (r: Vec<T>) {
        copy_out(repr.as_slice())
    }

    fn set(repr: &mut Vec<T>, i: usize, x: T) {
        let element = &mut repr[i];
        *element = x;
    }

    fn write_whole(repr: &mut Vec<T>, values: &[T]) {
        let mut i: usize = 0;
        while i < values.len()
            invariant
                i <= values@.len(),
                repr@.len() == values@.len(),
                forall|j: int| 0 <= j < i ==> repr@[j] == values@[j],
            decreases values@.len() - i,
        {
            let element = &mut repr[i];
            *element = values[i];
            i = i + 1;
        }
        proof {
            assert(repr@ =~= values@);
        }
    }

    fn clear(repr: &mut Vec<T>, x: T) {
        let len = repr.len();
        let mut i: usize = 0;
        while i < len
            invariant
                i <= len,
                repr@.len() == len as nat,
                forall|j: int| 0 <= j < i ==> repr@[j] == x,
            decreases len - i,
        {
            let element = &mut repr[i];
            *element = x;
            i = i + 1;
        }
        proof {
            assert(repr@ =~= Seq::new(old(repr)@.len(), |i: int| x));
        }
    }

    fn len(repr: &Vec<T>) -> (r: usize) {
        repr.len()
    }

    fn destroy_buffer(repr: Vec<T>) {
        let _ = repr;
    }
}

impl<T: Copy + Default> SliceBackend<T> for MemoryBackend {
    type SliceRepr = Vec<T>;

    type SliceMutRepr = Vec<T>;

    open spec fn slice_view(slice: Vec<T>) -> Seq<T> {
        slice@
    }

    open spec fn slice_mut_view(slice: Vec<T>) -> Seq<T> {
        slice@
    }

    fn slice_buffer(repr: &mut Vec<T>) -> (r: Result<Vec<T>, BufferError>) {
        Ok(copy_out(repr.as_slice()))
    }

    fn slice_buffer_mut(repr: &mut Vec<T>) -> (r: Result<Vec<T>, BufferError>) {
        Ok(copy_out(repr.as_slice()))
    }

    fn obtain_slice<'a>(slice: &'a Vec<T>) -> (r: Result<&'a [T], BufferError>) {
        Ok(slice.as_slice())
    }

    fn obtain_slice_mut<'a>(slice: &'a mut Vec<T>) -> (r: Result<&'a mut [T], BufferError>) {
        Ok(slice.as_mut_slice())
    }

    fn destroy_buffer_slice(slice: Vec<T>) {
        let _ = slice;
    }

    fn destroy_buffer_slice_mut(repr: &mut Vec<T>, slice: Vec<T>) {
        *repr = slice;
    }
}

} // verus!
