use rust_decode::buffer::{BufferEndReachedError, InstructionBuffer};

#[test]
fn cursor_reads_and_jumps() {
    let mut b = InstructionBuffer::from_bytes(vec![1, 2, 3, 4]);
    assert_eq!(b.next_byte(), Ok(1));
    assert_eq!(b.next_n_bytes(2).unwrap(), vec![2, 3]);
    assert_eq!(b.next_n_bytes(2), Err(BufferEndReachedError));
    assert_eq!(b.last_read, 3);
    assert!(!b.is_at_the_end());
    b.jump_by(-3);
    assert_eq!(b.next_byte(), Ok(1));
    b.jump_by(3);
    assert!(b.is_at_the_end());
    assert_eq!(b.next_byte(), Err(BufferEndReachedError));
}

#[test]
fn only_loaded_bytes_are_readable() {
    let mut b = InstructionBuffer { buf: vec![9; 8], last_read: 0, bytes_loaded: 2 };
    assert_eq!(b.next_n_bytes(3), Err(BufferEndReachedError));
    assert_eq!(b.next_n_bytes(2).unwrap(), vec![9, 9]);
    assert!(b.is_at_the_end());
}
