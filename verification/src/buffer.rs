//! The owning buffer handle, its transient mapped views, and the error type.

use core::marker::PhantomData;

use vstd::prelude::*;

use vstd::string::StringExecFns;

use crate::backend::BufferBackend;
use crate::backend::GraphicsContext;
use crate::backend::SliceBackend;
use crate::text::decimal;
use crate::text::decimal_string;

verus! {

/// Why a buffer operation failed. Purely descriptive: the fields carry enough
/// structure to format a precise diagnostic without further context.
#[derive(Debug, PartialEq, Eq, Structural)]
pub enum BufferError {
    /// An index-based write was attempted at or past the end of the buffer.
    Overflow { index: usize, buffer_len: usize },
    /// A bulk write provided fewer values than the buffer holds.
    TooFewValues { provided_len: usize, buffer_len: usize },
    /// A bulk write provided more values than the buffer holds.
    TooManyValues { provided_len: usize, buffer_len: usize },
    /// The backend could not establish or expose a host mapping.
    MapFailed,
}

impl BufferError {
    /// The diagnostic message for this error.
    pub open spec fn spec_describe(&self) -> Seq<char> {
        match *self {
            BufferError::Overflow { index, buffer_len } => "buffer overflow (index = "@ + decimal(
                index as nat,
            ) + ", size = "@ + decimal(buffer_len as nat) + ")"@,
            BufferError::TooFewValues { provided_len, buffer_len } => "too few values passed to the buffer (nb = "@
                + decimal(provided_len as nat) + ", size = "@ + decimal(buffer_len as nat) + ")"@,
            BufferError::TooManyValues { provided_len, buffer_len } => "too many values passed to the buffer (nb = "@
                + decimal(provided_len as nat) + ", size = "@ + decimal(buffer_len as nat) + ")"@,
            BufferError::MapFailed => "buffer mapping failed"@,
        }
    }

    /// The diagnostic message, as text a caller can show.
    pub fn describe(&self) -> (r: String)
        ensures
            r@ == self.spec_describe(),
    {
        match self {
            BufferError::Overflow { index, buffer_len } => {
                let mut message = "buffer overflow (index = ".to_owned();
                message.append(decimal_string(*index).as_str());
                message.append(", size = ");
                message.append(decimal_string(*buffer_len).as_str());
                message.append(")");
                message
            },
            BufferError::TooFewValues { provided_len, buffer_len } => {
                let mut message = "too few values passed to the buffer (nb = ".to_owned();
                message.append(decimal_string(*provided_len).as_str());
                message.append(", size = ");
                message.append(decimal_string(*buffer_len).as_str());
                message.append(")");
                message
            },
            BufferError::TooManyValues { provided_len, buffer_len } => {
                let mut message = "too many values passed to the buffer (nb = ".to_owned();
                message.append(decimal_string(*provided_len).as_str());
                message.append(", size = ");
                message.append(decimal_string(*buffer_len).as_str());
                message.append(")");
                message
            },
            BufferError::MapFailed => "buffer mapping failed".to_owned(),
        }
    }
}

/// The owning handle to one backend buffer: a fixed-length sequence of `T`
/// living in device memory.
///
/// Its view (`self@`) is the sequence of elements the buffer currently holds.
/// The length is fixed at construction: every operation below either keeps it
/// or leaves the buffer untouched. The handle exclusively owns its backend
/// representation; releasing the handle releases the representation exactly
/// once.
pub struct Buffer<S, T> where S: BufferBackend<T> {
    repr: S::BufferRepr,
    _t: PhantomData<T>,
}

impl<S, T> View for Buffer<S, T> where S: BufferBackend<T> {
    type V = Seq<T>;

    closed spec fn view(&self) -> Seq<T> {
        S::buffer_view(self.repr)
    }
}

impl<S, T> Buffer<S, T> where S: BufferBackend<T> {
    /// Allocate a buffer of `len` elements through the context's backend.
    /// Each element holds some valid, backend-chosen value of `T`.
    pub fn new<C>(ctx: &mut C, len: usize) -> (r: Result<Self, BufferError>) where
        C: GraphicsContext<Backend = S>,

        ensures
            r matches Ok(b) ==> b@.len() == len as nat,
    {
        match ctx.backend().new_buffer(len) {
            Ok(repr) => Ok(Buffer { repr, _t: PhantomData }),
            Err(e) => Err(e),
        }
    }

    /// Allocate a buffer sized to `values`, holding a copy of its contents.
    pub fn from_slice<C>(ctx: &mut C, values: &[T]) -> (r: Result<Self, BufferError>) where
        C: GraphicsContext<Backend = S>,

        ensures
            r matches Ok(b) ==> b@ == values@,
    {
        match ctx.backend().from_slice(values) {
            Ok(repr) => Ok(Buffer { repr, _t: PhantomData }),
            Err(e) => Err(e),
        }
    }

    /// Allocate a buffer of `len` elements, every one set to `value`.
    pub fn repeat<C>(ctx: &mut C, len: usize, value: T) -> (r: Result<Self, BufferError>) where
        C: GraphicsContext<Backend = S>,
        T: Copy,

        ensures
            r matches Ok(b) ==> b@ == Seq::new(len as nat, |i: int| value),
    {
        match ctx.backend().repeat(len, value) {
            Ok(repr) => Ok(Buffer { repr, _t: PhantomData }),
            Err(e) => Err(e),
        }
    }

    /// The element at `index`, or `None` if `index` is out of range. An
    /// out-of-range read is not an error: the query has a natural "nothing
    /// there" reading, unlike the write in [`Buffer::set`].
    pub fn at(&self, index: usize) -> (r: Option<T>) where T: Copy
        ensures
            (index as nat) < self@.len() ==> r == Some(self@[index as int]),
            (index as nat) >= self@.len() ==> r is None,
    {
        if index < S::len(&self.repr) {
            Some(S::at(&self.repr, index))
        } else {
            None
        }
    }

    /// A host-owned copy of every element, in order.
    pub fn whole(&self) -> (r: Vec<T>) where T: Copy
        ensures
            r@ == self@,
    {
        S::whole(&self.repr)
    }

    /// Write one element. Succeeds exactly when `index` is in range; an
    /// out-of-range index fails with `Overflow` and leaves the buffer
    /// unchanged.
    pub fn set(&mut self, index: usize, value: T) -> (r: Result<(), BufferError>) where T: Copy
        ensures
            r is Ok <==> (index as nat) < old(self)@.len(),
            r is Ok ==> final(self)@ == old(self)@.update(index as int, value),
            r matches Err(e) ==> e == (BufferError::Overflow {
                index,
                buffer_len: old(self)@.len() as usize,
            }) && final(self)@ == old(self)@,
    {
        let buffer_len = S::len(&self.repr);
        if index < buffer_len {
            S::set(&mut self.repr, index, value);
            Ok(())
        } else {
            Err(BufferError::Overflow { index, buffer_len })
        }
    }

    /// Overwrite the whole buffer from `values`. Succeeds exactly when the
    /// lengths match; a shorter input fails with `TooFewValues`, a longer one
    /// with `TooManyValues`, and either failure leaves the buffer unchanged.
    pub fn write_whole(&mut self, values: &[T]) -> (r: Result<(), BufferError>)
        ensures
            r is Ok <==> values@.len() == old(self)@.len(),
            r is Ok ==> final(self)@ == values@,
            values@.len() < old(self)@.len() ==> (r matches Err(e) && e == (
            BufferError::TooFewValues {
                provided_len: values@.len() as usize,
                buffer_len: old(self)@.len() as usize,
            })),
            values@.len() > old(self)@.len() ==> (r matches Err(e) && e == (
            BufferError::TooManyValues {
                provided_len: values@.len() as usize,
                buffer_len: old(self)@.len() as usize,
            })),
            r is Err ==> final(self)@ == old(self)@,
    {
        let buffer_len = S::len(&self.repr);
        let provided_len = values.len();
        if provided_len == buffer_len {
            S::write_whole(&mut self.repr, values);
            Ok(())
        } else if provided_len < buffer_len {
            Err(BufferError::TooFewValues { provided_len, buffer_len })
        } else {
            Err(BufferError::TooManyValues { provided_len, buffer_len })
        }
    }

    /// Set every element to `value`. Nothing is left to validate, so this
    /// always succeeds.
    pub fn clear(&mut self, value: T) -> (r: Result<(), BufferError>) where T: Copy
        ensures
            r is Ok,
            final(self)@ == Seq::new(old(self)@.len(), |i: int| value),
    {
        S::clear(&mut self.repr, value);
        Ok(())
    }

    /// The number of elements the buffer holds.
    pub fn len(&self) -> (r: usize)
        ensures
            r as nat == self@.len(),
    {
        S::len(&self.repr)
    }

    /// Whether the buffer holds no elements.
    pub fn is_empty(&self) -> (r: bool)
        ensures
            r == (self@.len() == 0),
    {
        self.len() == 0
    }

    /// Release the handle, destroying the backend representation. Consuming
    /// the handle makes the release happen exactly once.
    pub fn release(self) {
        let Buffer { repr, _t } = self;
        S::destroy_buffer(repr);
    }
}

impl<S, T> Buffer<S, T> where S: SliceBackend<T> {
    /// Map the buffer into a read-only host view. Takes the buffer
    /// exclusively even though the view is read-only: establishing any
    /// mapping must exclude concurrent access through the plain API, and the
    /// borrow held by the returned view enforces that until it is released.
    /// Fails with `MapFailed` when the backend cannot map, leaving the buffer
    /// unchanged; mapping for reading never alters the contents.
    pub fn slice(&mut self) -> (r: Result<BufferSlice<'_, S, T>, BufferError>)
        ensures
            final(self)@ == old(self)@,
            r matches Ok(v) ==> v@ == old(self)@,
            r matches Err(e) ==> e == BufferError::MapFailed,
    {
        match S::slice_buffer(&mut self.repr) {
            Ok(slice) => Ok(BufferSlice { slice, _borrow: PhantomData }),
            Err(_) => Err(BufferError::MapFailed),
        }
    }

    /// Map the buffer into a writable host view. The view takes the whole
    /// handle: while the mapping is live the buffer cannot be read, written
    /// or sliced through any other path, and the handle comes back, with
    /// every write made through the view applied, from
    /// [`BufferSliceMut::release`]. The mapping call itself changes nothing:
    /// the view starts out holding exactly the buffer's contents. Fails with
    /// `MapFailed` when the backend cannot map, handing the buffer back
    /// unchanged.
    pub fn slice_mut(self) -> (r: Result<BufferSliceMut<S, T>, (Buffer<S, T>, BufferError)>)
        ensures
            r matches Ok(v) ==> v@ == self@,
            r matches Err(p) ==> p.0@ == self@ && p.1 == BufferError::MapFailed,
    {
        let Buffer { mut repr, _t } = self;
        match S::slice_buffer_mut(&mut repr) {
            Ok(slice) => Ok(BufferSliceMut { repr, slice, _t: PhantomData }),
            Err(_) => Err((Buffer { repr, _t: PhantomData }, BufferError::MapFailed)),
        }
    }
}

/// A transient read-only host view of a buffer's memory.
///
/// The view borrows its buffer mutably for its whole lifetime, so while it is
/// live the buffer cannot be read, written or sliced again. Its view
/// (`self@`) is the mapped contents: the buffer's contents at mapping time.
pub struct BufferSlice<'a, S, T> where S: SliceBackend<T> {
    slice: S::SliceRepr,
    _borrow: PhantomData<&'a mut ()>,
}

impl<'a, S, T> View for BufferSlice<'a, S, T> where S: SliceBackend<T> {
    type V = Seq<T>;

    closed spec fn view(&self) -> Seq<T> {
        S::slice_view(self.slice)
    }
}

impl<'a, S, T> BufferSlice<'a, S, T> where S: SliceBackend<T> {
    /// A direct view over the mapped host memory. Fails with `MapFailed`
    /// when the backend cannot expose the mapping.
    pub fn as_slice(&self) -> (r: Result<&[T], BufferError>)
        ensures
            r matches Ok(s) ==> s@ == self@,
            r matches Err(e) ==> e == BufferError::MapFailed,
    {
        match S::obtain_slice(&self.slice) {
            Ok(s) => Ok(s),
            Err(_) => Err(BufferError::MapFailed),
        }
    }

    /// Release the mapping, returning control of the region to the buffer.
    /// Consuming the view makes the release happen exactly once and ends the
    /// borrow of the buffer.
    pub fn release(self) {
        let BufferSlice { slice, _borrow } = self;
        S::destroy_buffer_slice(slice);
    }
}

/// A transient writable host view of a buffer's memory.
///
/// The view holds its buffer for its whole lifetime, so while it is live the
/// buffer cannot be read, written or sliced through any other path. Its view
/// (`self@`) is the mapped contents, which writes through
/// [`BufferSliceMut::as_slice_mut`] update; releasing the view writes them
/// back and returns the buffer.
pub struct BufferSliceMut<S, T> where S: SliceBackend<T> {
    repr: S::BufferRepr,
    slice: S::SliceMutRepr,
    _t: PhantomData<T>,
}

impl<S, T> View for BufferSliceMut<S, T> where S: SliceBackend<T> {
    type V = Seq<T>;

    closed spec fn view(&self) -> Seq<T> {
        S::slice_mut_view(self.slice)
    }
}

impl<S, T> BufferSliceMut<S, T> where S: SliceBackend<T> {
    /// A direct writable view over the mapped host memory; writes through it
    /// land in the mapping. Fails with `MapFailed` when the backend cannot
    /// expose the mapping, leaving the mapped contents unchanged.
    pub fn as_slice_mut(&mut self) -> (r: Result<&mut [T], BufferError>)
        ensures
            r matches Ok(s) ==> s@ == old(self)@ && final(self)@ == final(s)@,
            r matches Err(e) ==> e == BufferError::MapFailed && final(self)@ == old(self)@,
    {
        match S::obtain_slice_mut(&mut self.slice) {
            Ok(s) => Ok(s),
            Err(_) => Err(BufferError::MapFailed),
        }
    }

    /// Release the mapping and hand the buffer back. The returned buffer
    /// holds exactly what the view held, so every write made through the view
    /// is visible in it. Consuming the view makes the release happen exactly
    /// once.
    pub fn release(self) -> (b: Buffer<S, T>)
        ensures
            b@ == self@,
    {
        let BufferSliceMut { mut repr, slice, _t } = self;
        S::destroy_buffer_slice_mut(&mut repr, slice);
        Buffer { repr, _t: PhantomData }
    }
}

} // verus!
