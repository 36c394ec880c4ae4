use postscript::compact1::char_set::{CharSet, Format0, Format1, Format2, Range};
use postscript::{Error, Tape};

fn read(bytes: Vec<u8>, glyphs: usize) -> Result<CharSet, Error> {
    CharSet::read_given(&mut Tape::new(bytes), glyphs)
}

#[test]
fn predefined_char_sets() {
    let char_set = CharSet::ISOAdobe;
    assert_eq!(char_set.get(0), Some(0));
    assert_eq!(char_set.get(1), Some(1));
    assert_eq!(char_set.get(228), Some(228));
    assert_eq!(char_set.get(229), None);
    let char_set = CharSet::Expert;
    assert_eq!(char_set.get(0), Some(0));
    assert_eq!(char_set.get(1), Some(1));
    assert_eq!(char_set.get(2), Some(229));
    assert_eq!(char_set.get(12), Some(13));
    assert_eq!(char_set.get(15), Some(99));
    assert_eq!(char_set.get(16), Some(239));
    assert_eq!(char_set.get(46), Some(109));
    assert_eq!(char_set.get(100), Some(158));
    assert_eq!(char_set.get(111), Some(150));
    assert_eq!(char_set.get(165), Some(378));
    assert_eq!(char_set.get(166), None);
    let char_set = CharSet::ExpertSubset;
    assert_eq!(char_set.get(0), Some(0));
    assert_eq!(char_set.get(1), Some(1));
    assert_eq!(char_set.get(2), Some(231));
    assert_eq!(char_set.get(4), Some(235));
    assert_eq!(char_set.get(27), Some(253));
    assert_eq!(char_set.get(47), Some(272));
    assert_eq!(char_set.get(48), Some(300));
    assert_eq!(char_set.get(57), Some(320));
    assert_eq!(char_set.get(86), Some(346));
    assert_eq!(char_set.get(87), None);
}

#[test]
fn predefined_char_sets_name_each_glyph_once() {
    for (char_set, glyphs) in
        [(CharSet::ISOAdobe, 229), (CharSet::Expert, 166), (CharSet::ExpertSubset, 87)]
    {
        let mut sids: Vec<u16> = (0..glyphs).map(|glyph| char_set.get(glyph).unwrap()).collect();
        assert_eq!(sids[0], 0);
        sids.sort();
        sids.dedup();
        assert_eq!(sids.len(), glyphs as usize);
        assert!(*sids.last().unwrap() <= 378);
    }
}

#[test]
fn char_set_of_string_identifiers() {
    let mut tape = Tape::new(vec![0, 0, 5, 1, 9, 7]);
    let char_set = CharSet::read_given(&mut tape, 3).unwrap();
    assert_eq!(tape.position(), 5);
    assert_eq!(char_set, CharSet::Format0(Format0 { glyphs: vec![5, 265] }));
    assert_eq!(char_set.get(0), Some(0));
    assert_eq!(char_set.get(1), Some(5));
    assert_eq!(char_set.get(2), Some(265));
    assert_eq!(char_set.get(3), None);
    let mut tape = Tape::new(vec![0, 9]);
    assert_eq!(
        CharSet::read_given(&mut tape, 1),
        Ok(CharSet::Format0(Format0 { glyphs: vec![] }))
    );
    assert_eq!(tape.position(), 1);
}

#[test]
fn char_set_of_ranges() {
    let mut tape = Tape::new(vec![1, 0, 10, 2, 1, 0, 0, 9, 9, 9]);
    let char_set = CharSet::read_given(&mut tape, 5).unwrap();
    assert_eq!(tape.position(), 7);
    assert_eq!(
        char_set,
        CharSet::Format1(Format1 {
            ranges: vec![Range { first: 10, left: 2 }, Range { first: 256, left: 0 }]
        })
    );
    assert_eq!(char_set.get(0), Some(0));
    assert_eq!(char_set.get(1), Some(10));
    assert_eq!(char_set.get(2), Some(11));
    assert_eq!(char_set.get(3), Some(12));
    assert_eq!(char_set.get(4), Some(256));
    assert_eq!(char_set.get(5), None);
}

#[test]
fn char_set_of_wide_ranges() {
    let mut tape = Tape::new(vec![2, 0, 10, 1, 0, 0xff, 0xff, 0, 0]);
    let char_set = CharSet::read_given(&mut tape, 259).unwrap();
    assert_eq!(tape.position(), 9);
    assert_eq!(
        char_set,
        CharSet::Format2(Format2 {
            ranges: vec![Range { first: 10, left: 256 }, Range { first: 65535, left: 0 }]
        })
    );
    assert_eq!(char_set.get(1), Some(10));
    assert_eq!(char_set.get(257), Some(266));
    assert_eq!(char_set.get(258), Some(65535));
    assert_eq!(char_set.get(259), None);
}

#[test]
fn last_range_may_name_more_glyphs() {
    let mut tape = Tape::new(vec![1, 0, 10, 5, 0, 20, 0]);
    let char_set = CharSet::read_given(&mut tape, 3).unwrap();
    assert_eq!(tape.position(), 4);
    assert_eq!(char_set, CharSet::Format1(Format1 { ranges: vec![Range { first: 10, left: 5 }] }));
    assert_eq!(char_set.get(2), Some(11));
    assert_eq!(char_set.get(6), Some(15));
    assert_eq!(char_set.get(7), None);
}

#[test]
fn char_set_for_one_glyph() {
    let mut tape = Tape::new(vec![1, 0, 10, 5]);
    let char_set = CharSet::read_given(&mut tape, 1).unwrap();
    assert_eq!(tape.position(), 1);
    assert_eq!(char_set, CharSet::Format1(Format1 { ranges: vec![] }));
    assert_eq!(char_set.get(0), Some(0));
    assert_eq!(char_set.get(1), None);
}

#[test]
fn string_identifiers_beyond_the_last() {
    let char_set = CharSet::Format2(Format2 { ranges: vec![Range { first: 65534, left: 3 }] });
    assert_eq!(char_set.get(1), Some(65534));
    assert_eq!(char_set.get(2), Some(65535));
    assert_eq!(char_set.get(3), None);
    assert_eq!(char_set.get(4), None);
    assert_eq!(char_set.get(5), None);
}

#[test]
fn malformed_char_sets() {
    assert_eq!(read(vec![0, 0, 1], 0), Err(Error::MalformedCharSet));
    assert_eq!(read(vec![], 0), Err(Error::MalformedCharSet));
    assert_eq!(read(vec![3], 2), Err(Error::MalformedCharSet));
    assert_eq!(read(vec![255], 2), Err(Error::MalformedCharSet));
    assert_eq!(read(vec![], 2), Err(Error::Truncated));
    assert_eq!(read(vec![0, 0], 2), Err(Error::Truncated));
    assert_eq!(read(vec![0, 0, 1, 0], 3), Err(Error::Truncated));
    assert_eq!(read(vec![1, 0, 1], 2), Err(Error::Truncated));
    assert_eq!(read(vec![1, 0, 1, 0], 3), Err(Error::Truncated));
    assert_eq!(read(vec![2, 0, 1, 0], 2), Err(Error::Truncated));
}
