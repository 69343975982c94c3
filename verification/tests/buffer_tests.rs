use stream_parser::buffers::dynamic::BufferDynamic;
use stream_parser::buffers::preallocated::BufferPreallocated;
use stream_parser::{Buffer, StreamParserError};

#[test]
fn append_with_eviction() {
    let mut buffer = BufferPreallocated::new(6);
    let data = b"abc";
    buffer.append(data, None).unwrap();
    buffer.append(b"de", None).unwrap();
    buffer.append(b"123", Some(2)).unwrap();
    assert_eq!(b"cde123" as &[u8], buffer.readable());
}

#[test]
fn eviction_reports_and_shifts() {
    let mut buffer = BufferPreallocated::new(6).with_name("work buffer");
    assert_eq!(buffer.append(b"abcde", None), Ok(false));
    // Exceeds free space; evicting the two consumed bytes frees enough room.
    assert_eq!(buffer.append(b"123", Some(2)), Ok(true));
    assert_eq!(b"cde123" as &[u8], buffer.readable());
    assert_eq!(buffer.data_len(), 6);
}

#[test]
fn overflow_with_no_allowance_is_fatal() {
    let mut buffer = BufferPreallocated::new(4);
    buffer.append(b"abcd", None).unwrap();
    let err = buffer.append(b"x", None).unwrap_err();
    assert_eq!(
        err,
        StreamParserError::ExceededBuffer {
            buffer_size: 4,
            data_size: 1,
        }
    );
    // No partial write occurred.
    assert_eq!(b"abcd" as &[u8], buffer.readable());
}

#[test]
fn overflow_with_zero_allowance_is_fatal() {
    let mut buffer = BufferPreallocated::new(4);
    buffer.append(b"abcd", None).unwrap();
    let err = buffer.append(b"xy", Some(0)).unwrap_err();
    assert_eq!(
        err,
        StreamParserError::ExceededBuffer {
            buffer_size: 4,
            data_size: 2,
        }
    );
    assert_eq!(b"abcd" as &[u8], buffer.readable());
}

#[test]
fn overflow_after_maximal_eviction_is_fatal() {
    let mut buffer = BufferPreallocated::new(4);
    buffer.append(b"ab", None).unwrap();
    // Even evicting both bytes leaves no room for five more.
    let err = buffer.append(b"12345", Some(2)).unwrap_err();
    assert_eq!(
        err,
        StreamParserError::ExceededBuffer {
            buffer_size: 4,
            data_size: 5,
        }
    );
    assert_eq!(b"ab" as &[u8], buffer.readable());
}

#[test]
fn clear_empties_the_window() {
    let mut buffer = BufferPreallocated::new(4);
    buffer.append(b"ab", None).unwrap();
    buffer.clear();
    assert_eq!(buffer.data_len(), 0);
    assert_eq!(b"" as &[u8], buffer.readable());
}

#[test]
fn compact_discards_the_front() {
    let mut buffer = BufferPreallocated::new(8);
    buffer.append(b"abcdef", None).unwrap();
    buffer.compact(4);
    assert_eq!(b"ef" as &[u8], buffer.readable());
    assert_eq!(buffer.free_space(), 6);
}

#[test]
fn dynamic_buffer_never_overflows() {
    let mut buffer = BufferDynamic::new();
    assert_eq!(buffer.append(b"abc", None), Ok(false));
    assert_eq!(buffer.append(b"defghij", Some(0)), Ok(false));
    assert_eq!(b"abcdefghij" as &[u8], buffer.readable());
    buffer.compact(3);
    assert_eq!(b"defghij" as &[u8], buffer.readable());
    buffer.clear();
    assert_eq!(buffer.data_len(), 0);
}
