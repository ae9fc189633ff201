//! Backend capability contracts.
//!
//! A backend is a privileged component with access to a live device. The
//! traits here state exactly what the buffer handle assumes of it: every
//! contract below is an obligation on the backend implementation, and the
//! handle performs all bounds and length validation itself before delegating,
//! so an implementation may assume validated inputs.

use vstd::prelude::*;

use crate::buffer::BufferError;

verus! {

/// A graphics context owns a backend capability instance and hands out
/// exclusive access to it for the duration of a call.
pub trait GraphicsContext {
    /// The backend capability this context drives.
    type Backend;

    /// Exclusive access to the backend.
    fn backend(&mut self) -> &mut Self::Backend;
}

/// The buffer capability: allocation, element access, bulk transfer and
/// destruction of one linear, fixed-length buffer of `T`.
///
/// `buffer_view` is the model of a live representation: the sequence of
/// elements it currently holds. Every method's contract is stated over it.
pub trait BufferBackend<T>: Sized {
    /// The backend's own representation of one live buffer.
    type BufferRepr;

    /// The elements a representation currently holds.
    spec fn buffer_view(repr: Self::BufferRepr) -> Seq<T>;

    /// Allocate a buffer of `len` elements, each holding some valid value of
    /// `T`. May fail with a backend-defined error.
    fn new_buffer(&mut self, len: usize) -> (r: Result<Self::BufferRepr, BufferError>)
        ensures
            r matches Ok(repr) ==> Self::buffer_view(repr).len() == len as nat,
    ;

    /// Allocate a buffer holding exactly the given values.
    fn from_slice(&mut self, values: &[T]) -> (r: Result<Self::BufferRepr, BufferError>)
        ensures
            r matches Ok(repr) ==> Self::buffer_view(repr) == values@,
    ;

    /// Allocate a buffer of `len` copies of `value`.
    fn repeat(&mut self, len: usize, value: T) -> (r: Result<Self::BufferRepr, BufferError>) where
        T: Copy
        ensures
            r matches Ok(repr) ==> Self::buffer_view(repr) == Seq::new(
                len as nat,
                |i: int| value,
            ),
    ;

    /// Read one element. The index has been validated by the caller.
    fn at(repr: &Self::BufferRepr, i: usize) -> (r: T) where T: Copy
        requires
            (i as nat) < Self::buffer_view(*repr).len(),
        ensures
            r == Self::buffer_view(*repr)[i as int],
    ;

    /// Copy every element out to host memory.
    fn whole(repr: &Self::BufferRepr) -> (r: Vec<T>) where T: Copy
        ensures
            r@ == Self::buffer_view(*repr),
    ;

    /// Overwrite one element. The index has been validated by the caller.
    fn set(repr: &mut Self::BufferRepr, i: usize, x: T) where T: Copy
        requires
            (i as nat) < Self::buffer_view(*old(repr)).len(),
        ensures
            Self::buffer_view(*final(repr)) == Self::buffer_view(*old(repr)).update(i as int, x),
    ;

    /// Overwrite every element from host values whose length the caller has
    /// validated to match the buffer's.
    fn write_whole(repr: &mut Self::BufferRepr, values: &[T])
        requires
            values@.len() == Self::buffer_view(*old(repr)).len(),
        ensures
            Self::buffer_view(*final(repr)) == values@,
    ;

    /// Set every element to `x`.
    fn clear(repr: &mut Self::BufferRepr, x: T) where T: Copy
        ensures
            Self::buffer_view(*final(repr)) == Seq::new(
                Self::buffer_view(*old(repr)).len(),
                |i: int| x,
            ),
    ;

    /// The number of elements the buffer holds. Fixed over its lifetime.
    fn len(repr: &Self::BufferRepr) -> (r: usize)
        ensures
            r as nat == Self::buffer_view(*repr).len(),
    ;

    /// Release the device resource behind the representation. Taking the
    /// representation by value makes a double release impossible: it is
    /// consumed exactly once, when the owning handle is released.
    fn destroy_buffer(repr: Self::BufferRepr);
}

/// The slice capability: mapping a buffer region into a host-addressable view
/// and releasing that mapping.
pub trait SliceBackend<T>: BufferBackend<T> {
    /// The backend's representation of a live read-only mapping.
    type SliceRepr;

    /// The backend's representation of a live mutable mapping.
    type SliceMutRepr;

    /// The elements a read-only mapping exposes.
    spec fn slice_view(slice: Self::SliceRepr) -> Seq<T>;

    /// The elements a mutable mapping currently holds.
    spec fn slice_mut_view(slice: Self::SliceMutRepr) -> Seq<T>;

    /// Map the buffer for reading. Mapping for reading never alters the
    /// buffer's contents, and the mapped view exposes exactly those contents.
    fn slice_buffer(repr: &mut Self::BufferRepr) -> (r: Result<Self::SliceRepr, BufferError>)
        ensures
            Self::buffer_view(*final(repr)) == Self::buffer_view(*old(repr)),
            r matches Ok(s) ==> Self::slice_view(s) == Self::buffer_view(*old(repr)),
    ;

    /// Map the buffer for writing. The mapping call itself never alters the
    /// buffer's contents, and the mapped view starts out holding exactly
    /// those contents. Writes then happen through the view; they reach the
    /// buffer when the mapping is released, through
    /// [`SliceBackend::destroy_buffer_slice_mut`].
    fn slice_buffer_mut(repr: &mut Self::BufferRepr) -> (r: Result<
        Self::SliceMutRepr,
        BufferError,
    >)
        ensures
            Self::buffer_view(*final(repr)) == Self::buffer_view(*old(repr)),
            r matches Ok(s) ==> Self::slice_mut_view(s) == Self::buffer_view(*old(repr)),
    ;

    /// Expose a live read-only mapping as a direct host view.
    fn obtain_slice<'a>(slice: &'a Self::SliceRepr) -> (r: Result<&'a [T], BufferError>)
        ensures
            r matches Ok(s) ==> s@ == Self::slice_view(*slice),
    ;

    /// Expose a live mutable mapping as a direct, writable host view. Writes
    /// through the view land in the mapping.
    fn obtain_slice_mut<'a>(slice: &'a mut Self::SliceMutRepr) -> (r: Result<
        &'a mut [T],
        BufferError,
    >)
        ensures
            r matches Ok(s) ==> s@ == Self::slice_mut_view(*old(slice))
                && Self::slice_mut_view(*final(slice)) == final(s)@,
            r is Err ==> Self::slice_mut_view(*final(slice)) == Self::slice_mut_view(*old(slice)),
    ;

    /// Release a read-only mapping. Consumed by value: a mapping is unmapped
    /// exactly once, when the view is released.
    fn destroy_buffer_slice(slice: Self::SliceRepr);

    /// Release a mutable mapping over the given buffer representation,
    /// writing the mapping's contents back: afterwards the buffer holds
    /// exactly what the mapping held, so every write made through the view is
    /// visible in the buffer. The mapping is consumed by value: it is
    /// unmapped exactly once, when the view is released.
    fn destroy_buffer_slice_mut(repr: &mut Self::BufferRepr, slice: Self::SliceMutRepr)
        ensures
            Self::buffer_view(*final(repr)) == Self::slice_mut_view(slice),
    ;
}

} // verus!
