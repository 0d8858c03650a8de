use fabric_runtime::{Memory, MemoryError, ZString};

#[test]
fn byte_span_load_returns_tail() {
    let memory = Memory::new(vec![1, 2, 3, 4, 5]);
    let tail: Vec<u8> = memory.load(2).unwrap();
    assert_eq!(tail, vec![3, 4, 5]);
}

#[test]
fn byte_span_load_at_length_is_empty() {
    let memory = Memory::new(vec![1, 2, 3]);
    let tail: Vec<u8> = memory.load(3).unwrap();
    assert_eq!(tail, Vec::<u8>::new());
}

#[test]
fn byte_span_load_out_of_bounds_fails() {
    let memory = Memory::new(vec![1, 2, 3]);
    let r: Result<Vec<u8>, MemoryError> = memory.load(4);
    assert_eq!(r.unwrap_err(), MemoryError::OutOfBounds);
}

#[test]
fn string_load_returns_bytes_before_first_nul() {
    let memory = Memory::new(vec![b'h', b'i', 0, b'x', 0, b'y']);
    let s: ZString = memory.load(0).unwrap();
    assert_eq!(s.bytes().as_slice(), b"hi");
    let s: ZString = memory.load(3).unwrap();
    assert_eq!(s.into_bytes(), b"x".to_vec());
}

#[test]
fn string_load_at_terminator_is_empty() {
    let memory = Memory::new(vec![b'a', 0, b'b', 0]);
    let s: ZString = memory.load(1).unwrap();
    assert_eq!(s.bytes().len(), 0);
}

#[test]
fn string_load_without_terminator_fails() {
    // The terminator would lie beyond the end of the buffer.
    let memory = Memory::new(vec![b'a', b'b', b'c']);
    let r: Result<ZString, MemoryError> = memory.load(0);
    assert_eq!(r.unwrap_err(), MemoryError::MissingTerminator);
}

#[test]
fn string_load_out_of_bounds_fails() {
    let memory = Memory::new(vec![0]);
    let r: Result<ZString, MemoryError> = memory.load(2);
    assert_eq!(r.unwrap_err(), MemoryError::OutOfBounds);
}

#[test]
fn memory_reports_its_size() {
    let memory = Memory::new(vec![0; 12]);
    assert_eq!(memory.size(), 12);
}
