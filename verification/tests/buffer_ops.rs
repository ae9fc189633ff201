use gpu_buffer::buffer::Buffer;
use gpu_buffer::buffer::BufferError;
use gpu_buffer::memory::MemoryBackend;
use gpu_buffer::memory::MemoryContext;

fn make(values: &[u32]) -> (MemoryContext, Buffer<MemoryBackend, u32>) {
    let mut ctx = MemoryContext::new();
    let buffer = Buffer::<MemoryBackend, u32>::from_slice(&mut ctx, values).unwrap();
    (ctx, buffer)
}

#[test]
fn scenario_from_slice_then_queries() {
    let (_ctx, mut buffer) = make([1, 2, 3].as_slice());
    assert_eq!(buffer.len(), 3);
    assert_eq!(buffer.at(1), Some(2));
    assert_eq!(
        buffer.set(5, 9),
        Err(BufferError::Overflow {
            index: 5,
            buffer_len: 3
        })
    );
    assert_eq!(
        buffer.write_whole([7, 8].as_slice()),
        Err(BufferError::TooFewValues {
            provided_len: 2,
            buffer_len: 3
        })
    );
    assert_eq!(buffer.clear(0), Ok(()));
    assert_eq!(buffer.whole(), vec![0, 0, 0]);
    buffer.release();
}

#[test]
fn round_trip_whole_buffer() {
    let (_ctx, mut buffer) = make([0, 0, 0, 0].as_slice());
    assert_eq!(buffer.write_whole([9, 8, 7, 6].as_slice()), Ok(()));
    assert_eq!(buffer.whole(), vec![9, 8, 7, 6]);
    buffer.release();
}

#[test]
fn set_then_at_agrees_and_leaves_others() {
    let (_ctx, mut buffer) = make([10, 20, 30].as_slice());
    assert_eq!(buffer.set(1, 99), Ok(()));
    assert_eq!(buffer.at(1), Some(99));
    assert_eq!(buffer.at(0), Some(10));
    assert_eq!(buffer.at(2), Some(30));
    buffer.release();
}

#[test]
fn set_at_length_overflows() {
    let (_ctx, mut buffer) = make([1, 2, 3, 4].as_slice());
    assert_eq!(
        buffer.set(4, 0),
        Err(BufferError::Overflow {
            index: 4,
            buffer_len: 4
        })
    );
    assert_eq!(buffer.whole(), vec![1, 2, 3, 4]);
    buffer.release();
}

#[test]
fn write_whole_length_mismatch() {
    let (_ctx, mut buffer) = make([1, 2, 3].as_slice());
    assert_eq!(
        buffer.write_whole([1, 2, 3, 4].as_slice()),
        Err(BufferError::TooManyValues {
            provided_len: 4,
            buffer_len: 3
        })
    );
    assert_eq!(
        buffer.write_whole([1, 2].as_slice()),
        Err(BufferError::TooFewValues {
            provided_len: 2,
            buffer_len: 3
        })
    );
    assert_eq!(buffer.whole(), vec![1, 2, 3]);
    buffer.release();
}

#[test]
fn repeat_fills_every_element() {
    let mut ctx = MemoryContext::new();
    let buffer = Buffer::<MemoryBackend, u32>::repeat(&mut ctx, 5, 42).unwrap();
    assert_eq!(buffer.len(), 5);
    assert_eq!(buffer.whole(), vec![42, 42, 42, 42, 42]);
    buffer.release();
}

#[test]
fn new_buffer_has_requested_length() {
    let mut ctx = MemoryContext::new();
    let buffer = Buffer::<MemoryBackend, u32>::new(&mut ctx, 7).unwrap();
    assert_eq!(buffer.len(), 7);
    assert!(!buffer.is_empty());
    buffer.release();
}

#[test]
fn empty_buffer_queries() {
    let mut ctx = MemoryContext::new();
    let buffer = Buffer::<MemoryBackend, u32>::new(&mut ctx, 0).unwrap();
    assert_eq!(buffer.len(), 0);
    assert!(buffer.is_empty());
    assert_eq!(buffer.at(0), None);
    assert_eq!(buffer.whole(), Vec::<u32>::new());
    buffer.release();
}

#[test]
fn clear_overwrites_everything() {
    let (_ctx, mut buffer) = make([5, 6, 7].as_slice());
    assert_eq!(buffer.clear(1), Ok(()));
    assert_eq!(buffer.whole(), vec![1, 1, 1]);
    buffer.release();
}
