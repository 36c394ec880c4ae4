use postscript::compact1::header::Header;
use postscript::compact1::index::{Index, Names, Strings, Subroutines};
use postscript::compact1::offset::Offset;
use postscript::{Error, Tape};

#[test]
fn header_of_four_bytes() {
    let mut tape = Tape::new(vec![0x01, 0x00, 0x04, 0x02]);
    let header = Header::read(&mut tape).unwrap();
    assert_eq!(header, Header { major: 1, minor: 0, header_size: 4, offset_size: 2 });
    assert_eq!(tape.position(), 4);
}

#[test]
fn header_errors() {
    assert_eq!(Header::read(&mut Tape::new(vec![1, 0, 4])), Err(Error::Truncated));
    assert_eq!(Header::read(&mut Tape::new(vec![1, 0, 3, 2])), Err(Error::MalformedHeader));
    assert_eq!(Header::read(&mut Tape::new(vec![1, 0, 4, 0])), Err(Error::MalformedOffsetSize));
    assert_eq!(Header::read(&mut Tape::new(vec![1, 0, 4, 5])), Err(Error::MalformedOffsetSize));
    assert_eq!(Header::read(&mut Tape::new(vec![1, 0, 0, 0])), Err(Error::MalformedHeader));
    assert!(Header::read(&mut Tape::new(vec![1, 0, 255, 4])).is_ok());
}

#[test]
fn offsets_of_each_size() {
    let bytes = vec![0x12, 0x34, 0x56, 0x78];
    assert_eq!(Offset::read(&mut Tape::new(bytes.clone()), 1), Ok(Offset(0x12)));
    assert_eq!(Offset::read(&mut Tape::new(bytes.clone()), 2), Ok(Offset(0x1234)));
    assert_eq!(Offset::read(&mut Tape::new(bytes.clone()), 3), Ok(Offset(0x123456)));
    assert_eq!(Offset::read(&mut Tape::new(bytes.clone()), 4), Ok(Offset(0x12345678)));
    assert_eq!(Offset::read(&mut Tape::new(bytes.clone()), 0), Err(Error::MalformedOffsetSize));
    assert_eq!(Offset::read(&mut Tape::new(bytes.clone()), 5), Err(Error::MalformedOffsetSize));
    assert_eq!(Offset::read(&mut Tape::new(vec![1, 2]), 3), Err(Error::Truncated));
    let mut tape = Tape::new(bytes);
    Offset::read(&mut tape, 3).unwrap();
    assert_eq!(tape.position(), 3);
    assert_eq!(u32::from(Offset(0xffffffff)), 0xffffffff);
}

#[test]
fn empty_index() {
    let mut tape = Tape::new(vec![0x00, 0x00, 9, 9]);
    let index = Index::read(&mut tape).unwrap();
    assert_eq!(index.count, 0);
    assert_eq!(index.offset_size, 0);
    assert!(index.offsets.is_empty());
    assert!(index.data.is_empty());
    assert_eq!(index, Index::default());
    assert_eq!(tape.position(), 2);
}

#[test]
fn index_of_three() {
    let mut tape = Tape::new(vec![0, 3, 1, 1, 3, 4, 8, b'a', b'b', b'c', b'd', b'e', b'f', b'g', 9]);
    let index = Index::read(&mut tape).unwrap();
    assert_eq!(index.count, 3);
    assert_eq!(index.offset_size, 1);
    assert_eq!(index.offsets, vec![Offset(1), Offset(3), Offset(4), Offset(8)]);
    assert_eq!(index.data, vec![b"ab".to_vec(), b"c".to_vec(), b"defg".to_vec()]);
    assert_eq!(index.len(), 3);
    assert_eq!(index.get(1), Some(&b"c".to_vec()));
    assert_eq!(index.get(3), None);
    assert_eq!(tape.position(), 14);
}

#[test]
fn index_sizes_add_up() {
    let mut tape = Tape::new(vec![0, 3, 2, 0, 1, 0, 3, 0, 4, 0, 8, 1, 2, 3, 4, 5, 6, 7]);
    let index = Index::read(&mut tape).unwrap();
    let total: usize = index.data.iter().map(|chunk| chunk.len()).sum();
    assert_eq!(index.offsets[0], Offset(1));
    assert_eq!(total as u32, index.offsets[index.count as usize].0 - 1);
    assert_eq!(total, 7);
    for i in 0..index.count as usize {
        assert_eq!(index.data[i].len() as u32, index.offsets[i + 1].0 - index.offsets[i].0);
    }
}

#[test]
fn index_with_wide_offsets() {
    let mut tape = Tape::new(vec![0, 1, 4, 0, 0, 0, 1, 0, 0, 0, 3, 7, 8]);
    let index = Index::read(&mut tape).unwrap();
    assert_eq!(index.offset_size, 4);
    assert_eq!(index.data, vec![vec![7, 8]]);
    let mut tape = Tape::new(vec![0, 1, 3, 0, 0, 1, 0, 0, 2, 7]);
    let index = Index::read(&mut tape).unwrap();
    assert_eq!(index.offset_size, 3);
    assert_eq!(index.data, vec![vec![7]]);
}

#[test]
fn index_errors() {
    let read = |bytes: Vec<u8>| Index::read(&mut Tape::new(bytes));
    assert_eq!(read(vec![]), Err(Error::Truncated));
    assert_eq!(read(vec![0]), Err(Error::Truncated));
    assert_eq!(read(vec![0, 1]), Err(Error::Truncated));
    assert_eq!(read(vec![0, 1, 1]), Err(Error::Truncated));
    assert_eq!(read(vec![0, 1, 1, 1]), Err(Error::Truncated));
    assert_eq!(read(vec![0, 1, 1, 1, 3, 7]), Err(Error::Truncated));
    assert_eq!(read(vec![0, 1, 1, 2, 3, 7]), Err(Error::MalformedIndex));
    assert_eq!(read(vec![0, 1, 1, 0, 3, 7]), Err(Error::MalformedIndex));
    assert_eq!(read(vec![0, 2, 1, 1, 3, 3, 7, 8]), Err(Error::MalformedIndex));
    assert_eq!(read(vec![0, 2, 1, 1, 3, 2, 7, 8]), Err(Error::MalformedIndex));
    assert_eq!(read(vec![0, 1, 1, 1, 1]), Err(Error::MalformedIndex));
    assert_eq!(read(vec![0, 1, 0, 1, 2, 7]), Err(Error::MalformedOffsetSize));
    assert_eq!(read(vec![0, 1, 5, 1, 2, 7]), Err(Error::MalformedOffsetSize));
    // The first offset that is wrong decides, before the end of the tape does.
    assert_eq!(read(vec![0, 9, 1, 1, 1]), Err(Error::MalformedIndex));
}

#[test]
fn names_are_text() {
    let mut tape = Tape::new(vec![0, 2, 1, 1, 3, 5, b'A', b'b', 0xc3, 0xa9]);
    let names = Names::read(&mut tape).unwrap();
    assert_eq!(names.len(), 2);
    assert_eq!(names.get(0), Some("Ab".to_string()));
    assert_eq!(names.get(1), Some("\u{e9}".to_string()));
    assert_eq!(names.get(2), None);
    let mut tape = Tape::new(vec![0, 1, 1, 1, 3, 0xff, 0xfe]);
    let names = Names::read(&mut tape).unwrap();
    assert_eq!(names.len(), 1);
    assert_eq!(names.get(0), None);
}

#[test]
fn strings_follow_the_standard_strings() {
    let mut tape = Tape::new(vec![0, 3, 1, 1, 3, 4, 6, b'a', b'b', b'c', 0xff, 0xff]);
    let strings = Strings::read(&mut tape).unwrap();
    assert_eq!(strings.len(), 3);
    assert_eq!(strings.get(0), Some(".notdef".to_string()));
    assert_eq!(strings.get(1), Some("space".to_string()));
    assert_eq!(strings.get(11), Some("asterisk".to_string()));
    assert_eq!(strings.get(109), Some("fi".to_string()));
    assert_eq!(strings.get(228), Some("zcaron".to_string()));
    assert_eq!(strings.get(229), Some("exclamsmall".to_string()));
    assert_eq!(strings.get(378), Some("Ydieresissmall".to_string()));
    assert_eq!(strings.get(379), Some("001.000".to_string()));
    assert_eq!(strings.get(388), Some("Regular".to_string()));
    assert_eq!(strings.get(390), Some("Semibold".to_string()));
    assert_eq!(strings.get(391), Some("ab".to_string()));
    assert_eq!(strings.get(392), Some("c".to_string()));
    assert_eq!(strings.get(393), None);
    assert_eq!(strings.get(394), None);
    assert_eq!(strings.get(u16::MAX), None);
}

#[test]
fn standard_strings_are_all_there() {
    let strings = Strings::default();
    assert_eq!(strings.len(), 0);
    for sid in 0..391 {
        let string = strings.get(sid).unwrap();
        assert!(!string.is_empty());
    }
    assert_eq!(strings.get(391), None);
}

#[test]
fn subroutines_by_default() {
    assert_eq!(Subroutines::new().len(), 0);
    assert_eq!(Subroutines::new(), Subroutines::default());
    let mut tape = Tape::new(vec![0, 2, 1, 1, 2, 3, 11, 11]);
    assert_eq!(Subroutines::read(&mut tape).unwrap().len(), 2);
}
