use gpu_buffer::buffer::BufferError;
use gpu_buffer::text::decimal_string;

#[test]
fn decimal_formatting() {
    assert_eq!(decimal_string(0), "0");
    assert_eq!(decimal_string(7), "7");
    assert_eq!(decimal_string(10), "10");
    assert_eq!(decimal_string(907), "907");
    assert_eq!(decimal_string(usize::MAX), usize::MAX.to_string());
}

#[test]
fn overflow_message() {
    let error = BufferError::Overflow {
        index: 5,
        buffer_len: 3,
    };
    assert_eq!(error.describe(), "buffer overflow (index = 5, size = 3)");
}

#[test]
fn too_few_values_message() {
    let error = BufferError::TooFewValues {
        provided_len: 2,
        buffer_len: 3,
    };
    assert_eq!(
        error.describe(),
        "too few values passed to the buffer (nb = 2, size = 3)"
    );
}

#[test]
fn too_many_values_message() {
    let error = BufferError::TooManyValues {
        provided_len: 12,
        buffer_len: 3,
    };
    assert_eq!(
        error.describe(),
        "too many values passed to the buffer (nb = 12, size = 3)"
    );
}

#[test]
fn map_failed_message() {
    assert_eq!(BufferError::MapFailed.describe(), "buffer mapping failed");
}
