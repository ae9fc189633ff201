use gpu_buffer::buffer::Buffer;
use gpu_buffer::buffer::BufferError;
use gpu_buffer::laws;
use gpu_buffer::memory::MemoryBackend;
use gpu_buffer::memory::MemoryContext;

fn make(values: &[u32]) -> (MemoryContext, Buffer<MemoryBackend, u32>) {
    let mut ctx = MemoryContext::new();
    let buffer = Buffer::<MemoryBackend, u32>::from_slice(&mut ctx, values).unwrap();
    (ctx, buffer)
}

#[test]
fn slice_reads_contents() {
    let (_ctx, mut buffer) = make([3, 1, 4, 1, 5].as_slice());
    let view = buffer.slice().unwrap();
    assert_eq!(view.as_slice().unwrap(), [3, 1, 4, 1, 5].as_slice());
    view.release();
    // The read-only mapping left the buffer untouched.
    assert_eq!(buffer.whole(), vec![3, 1, 4, 1, 5]);
    buffer.release();
}

#[test]
fn slice_mut_writes_reach_the_buffer() {
    let (_ctx, buffer) = make([1, 2].as_slice());
    let mut view = buffer.slice_mut().ok().unwrap();
    {
        let host = view.as_slice_mut().unwrap();
        assert_eq!(host, [1, 2].as_slice());
        host[0] = 10;
        host[1] = 20;
    }
    // Releasing the view writes the mapping back into the buffer.
    let buffer = view.release();
    assert_eq!(buffer.whole(), vec![10, 20]);
    assert_eq!(buffer.at(0), Some(10));
    assert_eq!(buffer.len(), 2);
    buffer.release();
}

#[test]
fn slice_mut_without_writes_changes_nothing() {
    let (_ctx, buffer) = make([4, 5, 6].as_slice());
    let view = buffer.slice_mut().ok().unwrap();
    let buffer = view.release();
    assert_eq!(buffer.whole(), vec![4, 5, 6]);
    buffer.release();
}

#[test]
fn mappings_are_sequential_after_release() {
    // Exclusivity is compile-time: a second mapping needs the first view's
    // borrow to end. Releasing one view makes the next mapping possible.
    let (_ctx, mut buffer) = make([8, 9].as_slice());
    let first = buffer.slice().unwrap();
    assert_eq!(first.as_slice().unwrap(), [8, 9].as_slice());
    first.release();
    let second = buffer.slice().unwrap();
    assert_eq!(second.as_slice().unwrap(), [8, 9].as_slice());
    second.release();
    buffer.release();
}

#[test]
fn law_round_trip() {
    let (_ctx, mut buffer) = make([0, 0, 0].as_slice());
    let read_back = laws::round_trip(&mut buffer, [4, 5, 6].as_slice());
    assert_eq!(read_back, vec![4, 5, 6]);
    buffer.release();
}

#[test]
fn law_index_agreement() {
    let (_ctx, mut buffer) = make([7, 7, 7].as_slice());
    let (written, untouched) = laws::index_agreement(&mut buffer, 2, 0, 50);
    assert_eq!(written, Some(50));
    assert_eq!(untouched, Some(7));
    buffer.release();
}

#[test]
fn law_overflow_rejected() {
    let (_ctx, mut buffer) = make([1].as_slice());
    let result = laws::overflow_rejected(&mut buffer, 1, 0);
    assert_eq!(
        result,
        Err(BufferError::Overflow {
            index: 1,
            buffer_len: 1
        })
    );
    buffer.release();
}

#[test]
fn law_length_mismatch_rejected() {
    let (_ctx, mut buffer) = make([1, 2].as_slice());
    let result = laws::length_mismatch_rejected(&mut buffer, [1, 2, 3].as_slice());
    assert_eq!(
        result,
        Err(BufferError::TooManyValues {
            provided_len: 3,
            buffer_len: 2
        })
    );
    buffer.release();
}

#[test]
fn law_repeat_fill() {
    let mut ctx = MemoryContext::new();
    let contents = laws::repeat_fill::<MemoryBackend, u32, MemoryContext>(&mut ctx, 4, 9).unwrap();
    assert_eq!(contents, vec![9, 9, 9, 9]);
}

#[test]
fn law_write_through_view() {
    let (_ctx, buffer) = make([1, 2, 3].as_slice());
    let buffer = laws::write_through_view(buffer, 1, 42).ok().unwrap();
    assert_eq!(buffer.whole(), vec![1, 42, 3]);
    buffer.release();
}

#[test]
fn law_empty_buffer() {
    let mut ctx = MemoryContext::new();
    let buffer = Buffer::<MemoryBackend, u32>::new(&mut ctx, 0).unwrap();
    let (empty, first, contents) = laws::empty_buffer(&buffer);
    assert!(empty);
    assert_eq!(first, None);
    assert_eq!(contents, Vec::<u32>::new());
    buffer.release();
}
