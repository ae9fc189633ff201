//! Laws of the buffer handle.
//!
//! Each function here states one property that holds of every buffer over
//! every backend meeting the capability contracts, and its verification is
//! the proof: the body performs exactly the calls the property speaks of, and
//! the contract states the promised outcome. The one property not stated
//! here is exclusivity of live mapped views, which is enforced structurally:
//! [`crate::buffer::Buffer::slice`] borrows the buffer mutably for the view's
//! whole lifetime and [`crate::buffer::Buffer::slice_mut`] consumes the
//! handle until the view's release returns it, so a second view or any other
//! access while one is live is rejected at compile time.

use vstd::prelude::*;

use crate::backend::BufferBackend;
use crate::backend::GraphicsContext;
use crate::backend::SliceBackend;
use crate::buffer::Buffer;
use crate::buffer::BufferError;

verus! {

/// Round trip: on a buffer of length `n`, a bulk write of any `n` values
/// succeeds, and reading the whole buffer back returns exactly those values.
pub fn round_trip<S, T>(buffer: &mut Buffer<S, T>, values: &[T]) -> (r: Vec<T>) where
    S: BufferBackend<T>,
    T: Copy,

    requires
        values@.len() == old(buffer)@.len(),
    ensures
        r@ == values@,
{
    let _ = buffer.write_whole(values);
    buffer.whole()
}

/// Index agreement: after `set(index, value)` succeeds, `at(index)` returns
/// `Some(value)`, and every other index reads exactly what it held before.
pub fn index_agreement<S, T>(buffer: &mut Buffer<S, T>, index: usize, other: usize, value: T) -> (r:
    (Option<T>, Option<T>)) where S: BufferBackend<T>, T: Copy
    requires
        (index as nat) < old(buffer)@.len(),
        (other as nat) < old(buffer)@.len(),
        other != index,
    ensures
        r.0 == Some(value),
        r.1 == Some(old(buffer)@[other as int]),
        final(buffer)@ == old(buffer)@.update(index as int, value),
{
    let _ = buffer.set(index, value);
    (buffer.at(index), buffer.at(other))
}

/// Overflow correctness: `set` at any index at or past the end — in
/// particular at index `n` on a length-`n` buffer — fails with exactly
/// `Overflow { index, buffer_len: n }` and changes nothing.
pub fn overflow_rejected<S, T>(buffer: &mut Buffer<S, T>, index: usize, value: T) -> (r: Result<
    (),
    BufferError,
>) where S: BufferBackend<T>, T: Copy
    requires
        (index as nat) >= old(buffer)@.len(),
    ensures
        r == Err::<(), BufferError>(BufferError::Overflow {
            index,
            buffer_len: old(buffer)@.len() as usize,
        }),
        final(buffer)@ == old(buffer)@,
{
    buffer.set(index, value)
}

/// Length mismatch: a bulk write of fewer values than the buffer holds fails
/// with exactly `TooFewValues`, one of more values with exactly
/// `TooManyValues`, and either failure changes nothing.
pub fn length_mismatch_rejected<S, T>(buffer: &mut Buffer<S, T>, values: &[T]) -> (r: Result<
    (),
    BufferError,
>) where S: BufferBackend<T>
    requires
        values@.len() != old(buffer)@.len(),
    ensures
        values@.len() < old(buffer)@.len() ==> r == Err::<(), BufferError>(
            BufferError::TooFewValues {
                provided_len: values@.len() as usize,
                buffer_len: old(buffer)@.len() as usize,
            },
        ),
        values@.len() > old(buffer)@.len() ==> r == Err::<(), BufferError>(
            BufferError::TooManyValues {
                provided_len: values@.len() as usize,
                buffer_len: old(buffer)@.len() as usize,
            },
        ),
        final(buffer)@ == old(buffer)@,
{
    buffer.write_whole(values)
}

/// Repeat fill: a buffer built by `repeat(len, value)` reads back, through
/// `whole`, exactly `len` copies of `value`.
pub fn repeat_fill<S, T, C>(ctx: &mut C, len: usize, value: T) -> (r: Result<
    Vec<T>,
    BufferError,
>) where S: BufferBackend<T>, T: Copy, C: GraphicsContext<Backend = S>
    ensures
        r matches Ok(v) ==> v@.len() == len as nat && (forall|j: int|
            0 <= j < len ==> v@[j] == value),
{
    match Buffer::<S, T>::repeat(ctx, len, value) {
        Ok(buffer) => {
            let contents = buffer.whole();
            buffer.release();
            Ok(contents)
        },
        Err(e) => Err(e),
    }
}

/// Write-back: a write made through a mutable mapped view is the buffer's
/// content once the view is released — mapping changes nothing by itself,
/// the view starts out holding the buffer's contents, and releasing the view
/// returns the buffer holding the view's final contents. When the backend
/// cannot map or expose the mapping, the buffer comes back unchanged with
/// `MapFailed`.
pub fn write_through_view<S, T>(buffer: Buffer<S, T>, index: usize, value: T) -> (r: Result<
    Buffer<S, T>,
    (Buffer<S, T>, BufferError),
>) where S: SliceBackend<T>, T: Copy
    requires
        (index as nat) < buffer@.len(),
    ensures
        r matches Ok(b) ==> b@ == buffer@.update(index as int, value),
        r matches Err(p) ==> p.0@ == buffer@ && p.1 == BufferError::MapFailed,
{
    match buffer.slice_mut() {
        Ok(mut view) => {
            let wrote = match view.as_slice_mut() {
                Ok(host) => {
                    host[index] = value;
                    true
                },
                Err(_) => false,
            };
            let released = view.release();
            if wrote {
                Ok(released)
            } else {
                Err((released, BufferError::MapFailed))
            }
        },
        Err(p) => Err(p),
    }
}

/// Empty buffer: a zero-length buffer reports itself empty, has nothing at
/// index 0, and reads back the empty sequence.
pub fn empty_buffer<S, T>(buffer: &Buffer<S, T>) -> (r: (bool, Option<T>, Vec<T>)) where
    S: BufferBackend<T>,
    T: Copy,

    requires
        buffer@.len() == 0,
    ensures
        r.0 == true,
        r.1 is None,
        r.2@ == Seq::<T>::empty(),
{
    let empty = buffer.is_empty();
    let first = buffer.at(0);
    let contents = buffer.whole();
    proof {
        assert(contents@ =~= Seq::<T>::empty());
    }
    (empty, first, contents)
}

} // verus!
