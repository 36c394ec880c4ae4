use postscript::compact1::char_set::{CharSet, Format0 as Glyphs};
use postscript::compact1::encoding::{Encoding, Format0 as Codes};
use postscript::compact1::font_set::character_id_keyed::{
    Format0 as Dictionaries, Format3, Range3, Selection,
};
use postscript::compact1::font_set::{FontSet, Record};
use postscript::compact1::number::Number;
use postscript::compact1::operator::Operator;
use postscript::{Error, Tape};

// The encoded form of an index with the byte strings, with offsets of one byte.
fn index(entries: &[Vec<u8>]) -> Vec<u8> {
    let mut bytes = vec![0, entries.len() as u8];
    if entries.is_empty() {
        return bytes;
    }
    bytes.push(1);
    let mut offset = 1;
    bytes.push(offset);
    for entry in entries {
        offset += entry.len() as u8;
        bytes.push(offset);
    }
    for entry in entries {
        bytes.extend_from_slice(entry);
    }
    bytes
}

// An operation with integer operands, each in three bytes.
fn operation(operator: Operator, operands: &[i16]) -> Vec<u8> {
    let mut bytes = vec![];
    for operand in operands {
        bytes.extend_from_slice(&[28, (operand >> 8) as u8, *operand as u8]);
    }
    let code = operator.code();
    if code >= 0x0c00 {
        bytes.push(12);
    }
    bytes.push(code as u8);
    bytes
}

// A font set with the dictionaries of its fonts, and with parts at offsets.
fn font_set(dictionaries: &[Vec<u8>], parts: &[(usize, Vec<u8>)]) -> Vec<u8> {
    let mut blob = vec![1, 0, 4, 1];
    let names: Vec<Vec<u8>> = (0..dictionaries.len()).map(|i| vec![b'A' + i as u8]).collect();
    blob.extend(index(&names));
    blob.extend(index(dictionaries));
    blob.extend(index(&[]));
    blob.extend(index(&[vec![11]]));
    for (offset, part) in parts {
        assert!(blob.len() <= *offset, "{} > {}", blob.len(), offset);
        blob.resize(*offset, 0);
        blob.extend_from_slice(part);
    }
    blob
}

fn read(blob: Vec<u8>) -> Result<FontSet, Error> {
    FontSet::read(&mut Tape::new(blob))
}

fn char_strings(count: usize) -> Vec<u8> {
    index(&vec![vec![14]; count])
}

#[test]
fn font_set_without_fonts() {
    let mut tape = Tape::new(vec![1, 0, 4, 1, 0, 0, 0, 0, 0, 0, 0, 0, 9]);
    let set = FontSet::read(&mut tape).unwrap();
    assert_eq!(tape.position(), 12);
    assert_eq!(set.names.len(), 0);
    assert!(set.global_operations.is_empty());
    assert_eq!(set.strings.len(), 0);
    assert_eq!(set.global_subroutines.len(), 0);
    assert!(set.encodings.is_empty());
    assert!(set.char_sets.is_empty());
    assert!(set.char_strings.is_empty());
    assert!(set.records.is_empty());
}

#[test]
fn font_keyed_by_character_names() {
    let dictionary = [
        operation(Operator::CharStrings, &[100]),
        operation(Operator::Private, &[0, 120]),
    ]
    .concat();
    let blob = font_set(&[dictionary], &[(100, char_strings(3)), (120, vec![])]);
    let mut tape = Tape::new(blob);
    let set = FontSet::read(&mut tape).unwrap();
    assert_eq!(tape.position(), 120);
    assert_eq!(set.names.get(0), Some("A".to_string()));
    assert_eq!(set.global_subroutines.len(), 1);
    assert_eq!(set.char_strings[0].len(), 3);
    assert_eq!(set.char_strings[0].format, 2);
    assert_eq!(set.char_sets, vec![CharSet::ISOAdobe]);
    assert_eq!(set.encodings, vec![Encoding::Standard]);
    match &set.records[0] {
        Record::CharacterNameKeyed(record) => {
            assert_eq!(record.operations.len(), 0);
            assert_eq!(record.subroutines.len(), 0);
        }
        _ => unreachable!(),
    }
}

#[test]
fn font_set_in_the_middle_of_a_tape() {
    let dictionary = [
        operation(Operator::CharSet, &[90]),
        operation(Operator::Encoding, &[95]),
        operation(Operator::CharStrings, &[100]),
        operation(Operator::Private, &[4, 120]),
    ]
    .concat();
    let private = operation(Operator::Subrs, &[10]);
    assert_eq!(private.len(), 4);
    let blob = font_set(
        &[dictionary],
        &[
            (90, vec![0, 1, 0, 1, 1]),
            (95, vec![0, 2, 65, 66]),
            (100, char_strings(3)),
            (120, private),
            (130, index(&[vec![1], vec![2]])),
        ],
    );
    let mut bytes = vec![0xee; 10];
    bytes.extend(blob.clone());
    bytes.extend(vec![0xee; 10]);
    let mut tape = Tape::new(bytes);
    tape.jump(10).unwrap();
    let set = FontSet::read(&mut tape).unwrap();
    assert_eq!(tape.position(), 10 + blob.len() as u64);
    assert_eq!(set, read(blob).unwrap());
    assert_eq!(set.char_sets, vec![CharSet::Format0(Glyphs { glyphs: vec![256, 257] })]);
    assert_eq!(
        set.encodings,
        vec![Encoding::Format0(Codes { format: 0, codes: vec![65, 66], supplements: vec![] })]
    );
    match &set.records[0] {
        Record::CharacterNameKeyed(record) => {
            assert_eq!(record.operations.get_single(Operator::Subrs), Some(&Number::Integer(10)));
            assert_eq!(record.subroutines.len(), 2);
        }
        _ => unreachable!(),
    }
}

#[test]
fn header_says_where_the_names_start() {
    let dictionary = [
        operation(Operator::CharStrings, &[100]),
        operation(Operator::Private, &[0, 120]),
    ]
    .concat();
    let blob = font_set(&[dictionary], &[(100, char_strings(3)), (120, vec![])]);
    let mut longer = vec![1, 0, 6, 1, 0xee, 0xee];
    longer.extend_from_slice(&blob[4..98]);
    longer.extend_from_slice(&blob[100..]);
    let mut expected = read(blob).unwrap();
    expected.header.header_size = 6;
    assert_eq!(read(longer), Ok(expected));
}

#[test]
fn predefined_char_sets_and_encodings_by_number() {
    let dictionaries = [
        [
            operation(Operator::CharSet, &[0]),
            operation(Operator::Encoding, &[0]),
            operation(Operator::CharStrings, &[150]),
            operation(Operator::Private, &[0, 150]),
        ]
        .concat(),
        [
            operation(Operator::CharSet, &[1]),
            operation(Operator::Encoding, &[1]),
            operation(Operator::CharStringType, &[1]),
            operation(Operator::CharStrings, &[150]),
            operation(Operator::Private, &[0, 150]),
        ]
        .concat(),
        [
            operation(Operator::CharSet, &[2]),
            operation(Operator::CharStrings, &[150]),
            operation(Operator::Private, &[0, 150]),
        ]
        .concat(),
    ];
    let set = read(font_set(&dictionaries, &[(150, char_strings(3))])).unwrap();
    assert_eq!(set.names.len(), 3);
    assert_eq!(set.char_sets, vec![CharSet::ISOAdobe, CharSet::Expert, CharSet::ExpertSubset]);
    assert_eq!(set.encodings, vec![Encoding::Standard, Encoding::Expert, Encoding::Standard]);
    assert_eq!(set.char_strings[0].format, 2);
    assert_eq!(set.char_strings[1].format, 1);
    assert_eq!(set.char_strings[2].format, 2);
    assert_eq!(set.records.len(), 3);
    assert_eq!(set.global_operations.len(), 3);
}

#[test]
fn font_keyed_by_character_identifiers() {
    let dictionary = [
        operation(Operator::ROS, &[391, 392, 3]),
        operation(Operator::CharStrings, &[100]),
        operation(Operator::FDSelect, &[120]),
        operation(Operator::FDArray, &[130]),
    ]
    .concat();
    let font = operation(Operator::Private, &[0, 150]);
    let blob = font_set(
        &[dictionary],
        &[(100, char_strings(3)), (120, vec![0, 0, 0, 0]), (130, index(&[font])), (150, vec![])],
    );
    let set = read(blob).unwrap();
    match &set.records[0] {
        Record::CharacterIDKeyed(record) => {
            assert_eq!(record.registry, 391);
            assert_eq!(record.ordering, 392);
            assert_eq!(record.supplement, Number::Integer(3));
            assert_eq!(record.count, None);
            assert_eq!(
                record.selection,
                Selection::Format0(Dictionaries { dictionaries: vec![0, 0, 0] })
            );
            assert_eq!(record.selection.get(2), Some(0));
            assert_eq!(record.selection.get(3), None);
            assert_eq!(record.operations.len(), 1);
            assert_eq!(record.records.len(), 1);
        }
        _ => unreachable!(),
    }
}

#[test]
fn selection_of_ranges() {
    let mut tape = Tape::new(vec![3, 0, 2, 0, 0, 5, 0, 4, 7, 0, 9, 1]);
    let selection = Selection::read_given(&mut tape, 9).unwrap();
    assert_eq!(tape.position(), 11);
    assert_eq!(
        selection,
        Selection::Format3(Format3 {
            ranges: vec![
                Range3 { first: 0, dictionary: 5 },
                Range3 { first: 4, dictionary: 7 }
            ],
            sentinel: 9,
        })
    );
    assert_eq!(selection.get(0), Some(5));
    assert_eq!(selection.get(3), Some(5));
    assert_eq!(selection.get(4), Some(7));
    assert_eq!(selection.get(8), Some(7));
    assert_eq!(selection.get(9), None);
    let read = |bytes: Vec<u8>| Selection::read_given(&mut Tape::new(bytes), 2);
    assert_eq!(read(vec![1, 0, 0]), Err(Error::MalformedSelection));
    assert_eq!(read(vec![2, 0, 0]), Err(Error::MalformedSelection));
    assert_eq!(read(vec![0, 0]), Err(Error::Truncated));
    assert_eq!(read(vec![3, 0, 1, 0, 0, 0, 0]), Err(Error::Truncated));
    assert_eq!(read(vec![3, 0, 1, 0, 0]), Err(Error::Truncated));
    assert_eq!(read(vec![]), Err(Error::Truncated));
}

#[test]
fn operator_of_such_fonts_has_to_come_first() {
    let dictionary = [
        operation(Operator::CharStrings, &[100]),
        operation(Operator::ROS, &[391, 392, 3]),
        operation(Operator::FDSelect, &[120]),
        operation(Operator::FDArray, &[130]),
    ]
    .concat();
    let blob = font_set(&[dictionary], &[(100, char_strings(3))]);
    assert_eq!(read(blob), Err(Error::MissingOperation(Operator::Private)));
}

#[test]
fn malformed_fonts_keyed_by_character_identifiers() {
    let build = |operations: Vec<Vec<u8>>, selection: Vec<u8>| {
        font_set(
            &[operations.concat()],
            &[
                (100, char_strings(3)),
                (120, selection),
                (130, index(&[operation(Operator::Private, &[0, 150])])),
                (150, vec![]),
            ],
        )
    };
    let char_strings = operation(Operator::CharStrings, &[100]);
    let select = operation(Operator::FDSelect, &[120]);
    let array = operation(Operator::FDArray, &[130]);
    let ros = operation(Operator::ROS, &[1, 2, 3]);
    let selection = vec![0, 0, 0, 0];
    assert!(read(build(
        vec![ros.clone(), char_strings.clone(), select.clone(), array.clone()],
        selection.clone()
    ))
    .is_ok());
    assert_eq!(
        read(build(
            vec![
                operation(Operator::ROS, &[1, 2]),
                char_strings.clone(),
                select.clone(),
                array.clone()
            ],
            selection.clone()
        )),
        Err(Error::MissingOperand(Operator::ROS))
    );
    assert_eq!(
        read(build(
            vec![
                operation(Operator::ROS, &[-1, 2, 3]),
                char_strings.clone(),
                select.clone(),
                array.clone()
            ],
            selection.clone()
        )),
        Err(Error::MalformedOperation(Operator::ROS))
    );
    assert_eq!(
        read(build(vec![ros.clone(), char_strings.clone(), array.clone()], selection.clone())),
        Err(Error::MissingOperation(Operator::FDSelect))
    );
    assert_eq!(
        read(build(vec![ros.clone(), char_strings.clone(), select.clone()], selection.clone())),
        Err(Error::MissingOperation(Operator::FDArray))
    );
    assert_eq!(
        read(build(
            vec![ros.clone(), char_strings.clone(), select.clone(), array.clone()],
            vec![1]
        )),
        Err(Error::MalformedSelection)
    );
    assert_eq!(
        read(build(
            vec![
                ros.clone(),
                operation(Operator::CIDCount, &[1, 2]),
                char_strings.clone(),
                select.clone(),
                array.clone()
            ],
            selection.clone()
        )),
        Err(Error::MalformedOperation(Operator::CIDCount))
    );
}

#[test]
fn malformed_font_sets() {
    let char_strings_at = operation(Operator::CharStrings, &[100]);
    let private = operation(Operator::Private, &[0, 120]);
    let parts = [(100, char_strings(3)), (120, vec![])];
    let build = |operations: Vec<Vec<u8>>| font_set(&[operations.concat()], &parts);
    assert!(read(build(vec![char_strings_at.clone(), private.clone()])).is_ok());
    assert_eq!(
        read(build(vec![private.clone()])),
        Err(Error::MissingOperation(Operator::CharStrings))
    );
    assert_eq!(
        read(build(vec![char_strings_at.clone()])),
        Err(Error::MissingOperation(Operator::Private))
    );
    assert_eq!(
        read(build(vec![operation(Operator::CharStrings, &[100, 100]), private.clone()])),
        Err(Error::MalformedOperation(Operator::CharStrings))
    );
    assert_eq!(
        read(build(vec![vec![30, 0x1a, 0x5f, 17], private.clone()])),
        Err(Error::MalformedOperation(Operator::CharStrings))
    );
    assert_eq!(
        read(build(vec![char_strings_at.clone(), operation(Operator::Private, &[120])])),
        Err(Error::MissingOperand(Operator::Private))
    );
    assert_eq!(
        read(build(vec![
            char_strings_at.clone(),
            operation(Operator::CharStringType, &[]),
            private.clone()
        ])),
        Err(Error::MissingOperand(Operator::CharStringType))
    );
    assert_eq!(
        read(build(vec![
            char_strings_at.clone(),
            operation(Operator::CharSet, &[1, 2]),
            private.clone()
        ])),
        Err(Error::MalformedOperation(Operator::CharSet))
    );
    assert_eq!(
        read(build(vec![
            char_strings_at.clone(),
            operation(Operator::Encoding, &[]),
            private.clone()
        ])),
        Err(Error::MissingOperand(Operator::Encoding))
    );
    // Offsets that lead out of the tape.
    assert_eq!(
        read(build(vec![operation(Operator::CharStrings, &[1000]), private.clone()])),
        Err(Error::Truncated)
    );
    assert_eq!(
        read(build(vec![operation(Operator::CharStrings, &[-1]), private.clone()])),
        Err(Error::Truncated)
    );
    assert_eq!(
        read(build(vec![char_strings_at.clone(), operation(Operator::Private, &[0, 1000])])),
        Err(Error::Truncated)
    );
    assert_eq!(
        read(build(vec![char_strings_at.clone(), operation(Operator::Private, &[1, 120])])),
        Err(Error::Truncated)
    );
    assert_eq!(
        read(build(vec![char_strings_at.clone(), operation(Operator::Private, &[-1, 120])])),
        Err(Error::Truncated)
    );
    assert_eq!(
        read(build(vec![
            char_strings_at.clone(),
            operation(Operator::CharSet, &[-5]),
            private.clone()
        ])),
        Err(Error::Truncated)
    );
    // A char set and an encoding of unknown formats.
    assert_eq!(
        read(build(vec![
            char_strings_at.clone(),
            operation(Operator::CharSet, &[9]),
            private.clone()
        ])),
        Err(Error::MalformedCharSet)
    );
    assert_eq!(
        read(build(vec![
            char_strings_at.clone(),
            operation(Operator::Encoding, &[2]),
            private.clone()
        ])),
        Err(Error::MalformedEncoding)
    );
}

#[test]
fn names_and_dictionaries_differ_in_number() {
    let mut blob = vec![1, 0, 4, 1];
    blob.extend(index(&[vec![b'A'], vec![b'B']]));
    blob.extend(index(&[operation(Operator::CharStrings, &[100])]));
    blob.extend(index(&[]));
    blob.extend(index(&[]));
    assert_eq!(read(blob), Err(Error::MalformedFontSet));
}

#[test]
fn malformed_headers_and_indices_of_font_sets() {
    assert_eq!(read(vec![]), Err(Error::Truncated));
    assert_eq!(read(vec![1, 0, 3, 1, 0, 0, 0, 0, 0, 0, 0, 0]), Err(Error::MalformedHeader));
    assert_eq!(read(vec![1, 0, 4, 9, 0, 0, 0, 0, 0, 0, 0, 0]), Err(Error::MalformedOffsetSize));
    assert_eq!(read(vec![1, 0, 40, 1, 0, 0, 0, 0, 0, 0, 0, 0]), Err(Error::Truncated));
    assert_eq!(read(vec![1, 0, 4, 1, 0, 0, 0, 0, 0, 0, 0]), Err(Error::Truncated));
    assert_eq!(read(vec![1, 0, 4, 1, 0, 1, 1, 2, 3, 65]), Err(Error::MalformedIndex));
    // A dictionary that is cut short.
    let mut blob = vec![1, 0, 4, 1];
    blob.extend(index(&[vec![b'A']]));
    blob.extend(index(&[vec![139]]));
    blob.extend(index(&[]));
    blob.extend(index(&[]));
    assert_eq!(read(blob), Err(Error::Truncated));
}

#[test]
fn char_set_for_no_glyph() {
    let dictionary = [
        operation(Operator::CharSet, &[90]),
        operation(Operator::CharStrings, &[100]),
        operation(Operator::Private, &[0, 120]),
    ]
    .concat();
    let blob = font_set(&[dictionary], &[(90, vec![0]), (100, char_strings(0)), (120, vec![])]);
    assert_eq!(read(blob), Err(Error::MalformedCharSet));
}
