use postscript::type2::number::{read, Number};
use postscript::{Error, Tape};

fn scaled(number: Number) -> f32 {
    match number {
        Number::Integer(value) => value as f32,
        Number::Fixed(value) => value as f32 / 65536.0,
    }
}

#[test]
fn type2_number_real() {
    let mut tape = Tape::new(vec![0xff, 0x00, 0x01, 0x04, 0x5a]);
    assert_eq!(format!("{:.3}", scaled(read(&mut tape).unwrap())), "1.017");
}

#[test]
fn type2_fixed_is_signed() {
    let mut tape = Tape::new(vec![0xff, 0xff, 0xff, 0x80, 0x00]);
    assert_eq!(read(&mut tape), Ok(Number::Fixed(-32768)));
    assert_eq!(tape.position(), 5);
}

#[test]
fn type2_integers() {
    assert_eq!(read(&mut Tape::new(vec![0x20])), Ok(Number::Integer(-107)));
    assert_eq!(read(&mut Tape::new(vec![0x8b])), Ok(Number::Integer(0)));
    assert_eq!(read(&mut Tape::new(vec![0xf6])), Ok(Number::Integer(107)));
    assert_eq!(read(&mut Tape::new(vec![0xf7, 0x00])), Ok(Number::Integer(108)));
    assert_eq!(read(&mut Tape::new(vec![0xfa, 0xff])), Ok(Number::Integer(1131)));
    assert_eq!(read(&mut Tape::new(vec![0xfb, 0x00])), Ok(Number::Integer(-108)));
    assert_eq!(read(&mut Tape::new(vec![0xfe, 0xff])), Ok(Number::Integer(-1131)));
    assert_eq!(read(&mut Tape::new(vec![0x1c, 0x80, 0x00])), Ok(Number::Integer(-32768)));
    assert_eq!(read(&mut Tape::new(vec![0x1c, 0x7f, 0xff])), Ok(Number::Integer(32767)));
}

#[test]
fn type2_errors() {
    assert_eq!(read(&mut Tape::new(vec![])), Err(Error::Truncated));
    assert_eq!(read(&mut Tape::new(vec![0x1f])), Err(Error::MalformedNumber));
    assert_eq!(read(&mut Tape::new(vec![0x1d, 0, 0, 0, 0])), Err(Error::MalformedNumber));
    assert_eq!(read(&mut Tape::new(vec![0xf7])), Err(Error::Truncated));
    assert_eq!(read(&mut Tape::new(vec![0xff, 0, 0, 0])), Err(Error::Truncated));
}
