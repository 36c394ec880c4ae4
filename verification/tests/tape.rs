use postscript::{Error, Tape};

#[test]
fn tape_reads_high_byte_first() {
    let mut tape = Tape::new(vec![1, 2, 3, 4, 5, 6, 7, 8, 9, 10]);
    assert_eq!(tape.position(), 0);
    assert_eq!(tape.take_u8(), Ok(1));
    assert_eq!(tape.take_u16(), Ok(0x0203));
    assert_eq!(tape.take_u24(), Ok(0x040506));
    assert_eq!(tape.take_u32(), Ok(0x0708090a));
    assert_eq!(tape.position(), 10);
    assert_eq!(tape.remaining(), 0);
    assert_eq!(tape.take_u8(), Err(Error::Truncated));
}

#[test]
fn tape_reads_largest_values() {
    let mut tape = Tape::new(vec![0xff; 10]);
    assert_eq!(tape.take_u8(), Ok(u8::MAX));
    assert_eq!(tape.take_u16(), Ok(u16::MAX));
    assert_eq!(tape.take_u24(), Ok(0xffffff));
    assert_eq!(tape.take_u32(), Ok(u32::MAX));
}

#[test]
fn tape_does_not_read_beyond_its_end() {
    assert_eq!(Tape::new(vec![1]).take_u16(), Err(Error::Truncated));
    assert_eq!(Tape::new(vec![1, 2]).take_u24(), Err(Error::Truncated));
    assert_eq!(Tape::new(vec![1, 2, 3]).take_u32(), Err(Error::Truncated));
    assert_eq!(Tape::new(vec![1, 2, 3]).take_bytes(4), Err(Error::Truncated));
    assert_eq!(Tape::new(vec![]).peek_u8(), Err(Error::Truncated));
}

#[test]
fn tape_peeks_without_moving() {
    let mut tape = Tape::new(vec![7, 8]);
    assert_eq!(tape.peek_u8(), Ok(7));
    assert_eq!(tape.position(), 0);
    assert_eq!(tape.take_u8(), Ok(7));
    assert_eq!(tape.peek_u8(), Ok(8));
}

#[test]
fn tape_takes_bytes() {
    let mut tape = Tape::new(vec![1, 2, 3, 4, 5]);
    assert_eq!(tape.take_bytes(0), Ok(vec![]));
    assert_eq!(tape.take_bytes(2), Ok(vec![1, 2]));
    assert_eq!(tape.position(), 2);
    assert_eq!(tape.take_bytes(3), Ok(vec![3, 4, 5]));
    assert_eq!(tape.take_bytes(0), Ok(vec![]));
    assert_eq!(tape.take_bytes(1), Err(Error::Truncated));
}

#[test]
fn tape_jumps_within_its_bytes() {
    let mut tape = Tape::new(vec![1, 2, 3, 4, 5]);
    assert_eq!(tape.jump(3), Ok(()));
    assert_eq!(tape.position(), 3);
    assert_eq!(tape.take_u8(), Ok(4));
    assert_eq!(tape.jump(5), Ok(()));
    assert_eq!(tape.position(), 5);
    assert_eq!(tape.jump(6), Err(Error::Truncated));
    assert_eq!(tape.position(), 5);
    assert_eq!(tape.jump(u64::MAX), Err(Error::Truncated));
    assert_eq!(tape.jump(0), Ok(()));
    assert_eq!(tape.take_u8(), Ok(1));
}

#[test]
fn tape_jumps_by_an_offset() {
    let mut tape = Tape::new(vec![1, 2, 3, 4, 5]);
    assert_eq!(tape.jump_by(2, 2), Ok(()));
    assert_eq!(tape.position(), 4);
    assert_eq!(tape.jump_by(4, -3), Ok(()));
    assert_eq!(tape.position(), 1);
    assert_eq!(tape.jump_by(1, -2), Err(Error::Truncated));
    assert_eq!(tape.position(), 1);
    assert_eq!(tape.jump_by(3, 3), Err(Error::Truncated));
    assert_eq!(tape.jump_by(u64::MAX, i64::MAX), Err(Error::Truncated));
    assert_eq!(tape.jump_by(0, i64::MIN), Err(Error::Truncated));
    assert_eq!(tape.position(), 1);
}
