use postscript::compact1::encoding::{Encoding, Format0, Format1, Range1, Supplement};
use postscript::{Error, Tape};

fn read(bytes: Vec<u8>) -> Result<Encoding, Error> {
    Encoding::read(&mut Tape::new(bytes))
}

#[test]
fn standard_encoding() {
    let encoding = Encoding::Standard;
    assert_eq!(encoding.get(0), Some(0));
    assert_eq!(encoding.get(31), Some(0));
    assert_eq!(encoding.get(32), Some(1));
    assert_eq!(encoding.get(42), Some(11));
    assert_eq!(encoding.get(65), Some(34));
    assert_eq!(encoding.get(97), Some(66));
    assert_eq!(encoding.get(126), Some(95));
    assert_eq!(encoding.get(127), Some(0));
    assert_eq!(encoding.get(160), Some(0));
    assert_eq!(encoding.get(161), Some(96));
    assert_eq!(encoding.get(175), Some(110));
    assert_eq!(encoding.get(176), Some(0));
    assert_eq!(encoding.get(177), Some(111));
    assert_eq!(encoding.get(191), Some(123));
    assert_eq!(encoding.get(193), Some(124));
    assert_eq!(encoding.get(208), Some(137));
    assert_eq!(encoding.get(225), Some(138));
    assert_eq!(encoding.get(227), Some(139));
    assert_eq!(encoding.get(232), Some(140));
    assert_eq!(encoding.get(241), Some(144));
    assert_eq!(encoding.get(245), Some(145));
    assert_eq!(encoding.get(251), Some(149));
    assert_eq!(encoding.get(255), Some(0));
    assert_eq!(encoding.get(256), None);
    assert_eq!(encoding.glyph(65), None);
    let mut named = 0;
    for code in 0..256 {
        if encoding.get(code) != Some(0) {
            named += 1;
        }
    }
    assert_eq!(named, 149);
}

#[test]
fn expert_encoding() {
    let encoding = Encoding::Expert;
    assert_eq!(encoding.get(0), Some(0));
    assert_eq!(encoding.get(32), Some(1));
    assert_eq!(encoding.get(33), Some(229));
    assert_eq!(encoding.get(35), Some(0));
    assert_eq!(encoding.get(44), Some(13));
    assert_eq!(encoding.get(47), Some(99));
    assert_eq!(encoding.get(48), Some(239));
    assert_eq!(encoding.get(58), Some(27));
    assert_eq!(encoding.get(87), Some(109));
    assert_eq!(encoding.get(88), Some(110));
    assert_eq!(encoding.get(126), Some(303));
    assert_eq!(encoding.get(127), Some(0));
    assert_eq!(encoding.get(161), Some(304));
    assert_eq!(encoding.get(188), Some(158));
    assert_eq!(encoding.get(189), Some(155));
    assert_eq!(encoding.get(190), Some(163));
    assert_eq!(encoding.get(201), Some(150));
    assert_eq!(encoding.get(255), Some(378));
    assert_eq!(encoding.get(256), None);
    let mut named = 0;
    for code in 0..256 {
        if encoding.get(code) != Some(0) {
            named += 1;
        }
    }
    assert_eq!(named, 165);
}

#[test]
fn encoding_of_codes() {
    let mut tape = Tape::new(vec![0, 3, 65, 66, 67, 9]);
    let encoding = Encoding::read(&mut tape).unwrap();
    assert_eq!(tape.position(), 5);
    assert_eq!(
        encoding,
        Encoding::Format0(Format0 { format: 0, codes: vec![65, 66, 67], supplements: vec![] })
    );
    assert_eq!(encoding.glyph(65), Some(1));
    assert_eq!(encoding.glyph(66), Some(2));
    assert_eq!(encoding.glyph(67), Some(3));
    assert_eq!(encoding.glyph(68), None);
    assert_eq!(encoding.glyph(0x141), None);
    assert_eq!(encoding.get(65), None);
}

#[test]
fn encoding_of_codes_with_supplements() {
    let mut tape = Tape::new(vec![0x80, 1, 65, 2, 97, 0x01, 0x00, 98, 0x00, 0x07]);
    let encoding = Encoding::read(&mut tape).unwrap();
    assert_eq!(tape.position(), 10);
    assert_eq!(
        encoding,
        Encoding::Format0(Format0 {
            format: 0x80,
            codes: vec![65],
            supplements: vec![Supplement { code: 97, sid: 256 }, Supplement { code: 98, sid: 7 }],
        })
    );
    assert_eq!(encoding.get(97), Some(256));
    assert_eq!(encoding.get(98), Some(7));
    assert_eq!(encoding.get(65), None);
    assert_eq!(encoding.get(0x161), None);
    assert_eq!(encoding.glyph(65), Some(1));
    assert_eq!(encoding.glyph(97), None);
}

#[test]
fn encoding_of_ranges() {
    let mut tape = Tape::new(vec![1, 2, 32, 3, 65, 1]);
    let encoding = Encoding::read(&mut tape).unwrap();
    assert_eq!(tape.position(), 6);
    assert_eq!(
        encoding,
        Encoding::Format1(Format1 {
            format: 1,
            ranges: vec![Range1 { first: 32, left: 3 }, Range1 { first: 65, left: 1 }],
            supplements: vec![],
        })
    );
    assert_eq!(encoding.glyph(31), None);
    assert_eq!(encoding.glyph(32), Some(1));
    assert_eq!(encoding.glyph(34), Some(3));
    assert_eq!(encoding.glyph(35), Some(4));
    assert_eq!(encoding.glyph(36), None);
    assert_eq!(encoding.glyph(65), Some(5));
    assert_eq!(encoding.glyph(66), Some(6));
    assert_eq!(encoding.glyph(67), None);
    assert_eq!(encoding.get(32), None);
}

#[test]
fn encoding_of_ranges_with_supplements() {
    let encoding = read(vec![0x81, 1, 32, 0, 1, 33, 0x01, 0x02]).unwrap();
    assert_eq!(
        encoding,
        Encoding::Format1(Format1 {
            format: 0x81,
            ranges: vec![Range1 { first: 32, left: 0 }],
            supplements: vec![Supplement { code: 33, sid: 258 }],
        })
    );
    assert_eq!(encoding.get(33), Some(258));
    assert_eq!(encoding.glyph(32), Some(1));
}

#[test]
fn encoding_without_codes() {
    assert_eq!(
        read(vec![0, 0]),
        Ok(Encoding::Format0(Format0 { format: 0, codes: vec![], supplements: vec![] }))
    );
    assert_eq!(
        read(vec![1, 0]),
        Ok(Encoding::Format1(Format1 { format: 1, ranges: vec![], supplements: vec![] }))
    );
    assert_eq!(
        read(vec![0x80, 0, 0]),
        Ok(Encoding::Format0(Format0 { format: 0x80, codes: vec![], supplements: vec![] }))
    );
}

#[test]
fn first_code_that_fits_counts() {
    let encoding = Encoding::Format0(Format0 {
        format: 0x80,
        codes: vec![7, 8, 7],
        supplements: vec![Supplement { code: 7, sid: 1 }, Supplement { code: 7, sid: 2 }],
    });
    assert_eq!(encoding.glyph(7), Some(1));
    assert_eq!(encoding.get(7), Some(1));
    let encoding = Encoding::Format1(Format1 {
        format: 1,
        ranges: vec![Range1 { first: 10, left: 5 }, Range1 { first: 12, left: 255 }],
        supplements: vec![],
    });
    assert_eq!(encoding.glyph(12), Some(3));
    assert_eq!(encoding.glyph(16), Some(11));
    assert_eq!(encoding.glyph(255), Some(250));
    assert_eq!(encoding.glyph(267), Some(262));
    assert_eq!(encoding.glyph(268), None);
}

#[test]
fn glyphs_beyond_the_identifiers() {
    let encoding = Encoding::Format1(Format1 {
        format: 1,
        ranges: vec![Range1 { first: 0, left: 255 }; 256],
        supplements: vec![],
    });
    assert_eq!(encoding.glyph(0), Some(1));
    assert_eq!(encoding.glyph(255), Some(256));
    let mut ranges = vec![Range1 { first: 0, left: 254 }; 257];
    ranges.push(Range1 { first: 255, left: 0 });
    let encoding = Encoding::Format1(Format1 { format: 1, ranges, supplements: vec![] });
    assert_eq!(encoding.glyph(255), None);
    let mut ranges = vec![Range1 { first: 0, left: 254 }; 256];
    ranges.push(Range1 { first: 255, left: 0 });
    let encoding = Encoding::Format1(Format1 { format: 1, ranges, supplements: vec![] });
    assert_eq!(encoding.glyph(255), Some(65281));
}

#[test]
fn malformed_encodings() {
    assert_eq!(read(vec![]), Err(Error::Truncated));
    assert_eq!(read(vec![0]), Err(Error::Truncated));
    assert_eq!(read(vec![0, 2, 65]), Err(Error::Truncated));
    assert_eq!(read(vec![1, 1, 65]), Err(Error::Truncated));
    assert_eq!(read(vec![0x80, 0]), Err(Error::Truncated));
    assert_eq!(read(vec![0x80, 0, 1, 65, 0]), Err(Error::Truncated));
    assert_eq!(read(vec![2, 0]), Err(Error::MalformedEncoding));
    assert_eq!(read(vec![0x82, 0]), Err(Error::MalformedEncoding));
    assert_eq!(read(vec![0x7f, 0]), Err(Error::MalformedEncoding));
}
