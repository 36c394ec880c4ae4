//! The font sets.

use vstd::prelude::*;

pub mod character_id_keyed;
pub mod character_name_keyed;

use crate::compact1::char_set::{
    lemma_char_set_glyphs, parse_char_set, CharSet, CharSetModel,
};
use crate::compact1::encoding::{parse_encoding, Encoding, EncodingModel};
use crate::compact1::header::Header;
use crate::compact1::index::char_strings::{parse_char_strings, CharStringsModel};
use crate::compact1::index::dictionaries::{lemma_dictionaries_len, parse_dictionaries};
use crate::compact1::index::{
    lemma_parse_index, parse_index, CharStrings, Dictionaries, IndexModel, Names, Strings,
    Subroutines,
};
use crate::compact1::operation::{integer_or, required_integer, OperationModel, Operations};
use crate::compact1::operator::Operator;
use crate::error::Error;
use crate::parsing::{parse_jump, views, yields_view, Parsed};
use crate::tape::Tape;

verus! {

/// A font set.
#[derive(Clone, Debug, PartialEq, Eq)]
pub struct FontSet {
    /// The header.
    pub header: Header,
    /// The names of the fonts.
    pub names: Names,
    /// The operations of the dictionaries of the fonts.
    pub global_operations: Vec<Operations>,
    /// The strings.
    pub strings: Strings,
    /// The subroutines that all fonts share.
    pub global_subroutines: Subroutines,
    /// The encodings of the fonts.
    pub encodings: Vec<Encoding>,
    /// The char sets of the fonts.
    pub char_sets: Vec<CharSet>,
    /// The char strings of the fonts.
    pub char_strings: Vec<CharStrings>,
    /// What the dictionaries of the fonts refer to.
    pub records: Vec<Record>,
}

/// A record in a font set.
#[derive(Clone, Debug, PartialEq, Eq)]
pub enum Record {
    /// The record of a font keyed by character identifiers.
    CharacterIDKeyed(character_id_keyed::Record),
    /// The record of a font keyed by character names.
    CharacterNameKeyed(character_name_keyed::Record),
}

/// What a record holds.
pub enum RecordModel {
    CharacterIDKeyed(character_id_keyed::RecordModel),
    CharacterNameKeyed(character_name_keyed::RecordModel),
}

impl RecordModel {
    /// Whether the parts of the record fit together.
    pub open spec fn wf(self) -> bool {
        match self {
            RecordModel::CharacterIDKeyed(record) => record.wf(),
            RecordModel::CharacterNameKeyed(record) => record.wf(),
        }
    }
}

impl View for Record {
    type V = RecordModel;

    open spec fn view(&self) -> RecordModel {
        match self {
            Record::CharacterIDKeyed(record) => RecordModel::CharacterIDKeyed(record@),
            Record::CharacterNameKeyed(record) => RecordModel::CharacterNameKeyed(record@),
        }
    }
}

/// What a font set holds of one font.
pub struct FontModel {
    pub char_strings: CharStringsModel,
    pub char_set: CharSetModel,
    pub encoding: EncodingModel,
    pub record: RecordModel,
}

/// What a font set holds.
pub struct FontSetModel {
    pub header: Header,
    pub names: IndexModel,
    pub global_operations: Seq<Seq<OperationModel>>,
    pub strings: IndexModel,
    pub global_subroutines: IndexModel,
    pub encodings: Seq<EncodingModel>,
    pub char_sets: Seq<CharSetModel>,
    pub char_strings: Seq<CharStringsModel>,
    pub records: Seq<RecordModel>,
}

impl View for FontSet {
    type V = FontSetModel;

    open spec fn view(&self) -> FontSetModel {
        FontSetModel {
            header: self.header,
            names: self.names@,
            global_operations: views(self.global_operations@),
            strings: self.strings@,
            global_subroutines: self.global_subroutines@,
            encodings: views(self.encodings@),
            char_sets: views(self.char_sets@),
            char_strings: views(self.char_strings@),
            records: views(self.records@),
        }
    }
}

/// Whether the char set names the glyphs of a font with `glyphs` glyphs. A
/// predefined char set names what it names. Another names, in format 0, as
/// many glyphs as the font has; in ranges at least as many, and without its
/// last range fewer.
pub open spec fn names_glyphs(char_set: CharSetModel, glyphs: int) -> bool {
    match char_set {
        CharSetModel::ISOAdobe => true,
        CharSetModel::Expert => true,
        CharSetModel::ExpertSubset => true,
        CharSetModel::Format0(_) => char_set.glyphs() == glyphs,
        CharSetModel::Format1(ranges) => char_set.glyphs() >= glyphs && (ranges.len() > 0
            ==> char_set.glyphs() - ranges.last().left - 1 < glyphs),
        CharSetModel::Format2(ranges) => char_set.glyphs() >= glyphs && (ranges.len() > 0
            ==> char_set.glyphs() - ranges.last().left - 1 < glyphs),
    }
}

impl FontModel {
    /// Whether the parts fit together: the char strings form a well-formed
    /// index, the char set names the glyphs that have char strings, and the
    /// parts of the record fit together.
    pub open spec fn wf(self) -> bool {
        &&& self.char_strings.index.wf()
        &&& names_glyphs(self.char_set, self.char_strings.index.count as int)
        &&& self.record.wf()
    }
}

impl FontSetModel {
    /// The font set with the parts, and with what it holds of each font.
    pub open spec fn assemble(
        header: Header,
        names: IndexModel,
        global_operations: Seq<Seq<OperationModel>>,
        strings: IndexModel,
        global_subroutines: IndexModel,
        fonts: Seq<FontModel>,
    ) -> FontSetModel {
        FontSetModel {
            header,
            names,
            global_operations,
            strings,
            global_subroutines,
            encodings: Seq::new(fonts.len(), |i: int| fonts[i].encoding),
            char_sets: Seq::new(fonts.len(), |i: int| fonts[i].char_set),
            char_strings: Seq::new(fonts.len(), |i: int| fonts[i].char_strings),
            records: Seq::new(fonts.len(), |i: int| fonts[i].record),
        }
    }

    /// The number of fonts.
    pub open spec fn fonts(self) -> nat {
        self.names.data.len()
    }

    /// What the font set holds of the font `i`.
    pub open spec fn font(self, i: int) -> FontModel {
        FontModel {
            char_strings: self.char_strings[i],
            char_set: self.char_sets[i],
            encoding: self.encodings[i],
            record: self.records[i],
        }
    }

    /// Whether the parts fit together: the indices are well-formed, there is
    /// one of everything for each font, and the parts of each font fit
    /// together.
    pub open spec fn wf(self) -> bool {
        &&& self.header.header_size >= 4
        &&& 1 <= self.header.offset_size <= 4
        &&& self.names.wf()
        &&& self.strings.wf()
        &&& self.global_subroutines.wf()
        &&& self.global_operations.len() == self.fonts()
        &&& self.encodings.len() == self.fonts()
        &&& self.char_sets.len() == self.fonts()
        &&& self.char_strings.len() == self.fonts()
        &&& self.records.len() == self.fonts()
        &&& forall|i: int| 0 <= i < self.fonts() ==> (#[trigger] self.font(i)).wf()
    }
}

/// Whether the four sequences hold what is held of the fonts, part by part.
pub open spec fn gathered(
    fonts: Seq<FontModel>,
    encodings: Seq<EncodingModel>,
    char_sets: Seq<CharSetModel>,
    char_strings: Seq<CharStringsModel>,
    records: Seq<RecordModel>,
) -> bool {
    &&& encodings.len() == fonts.len()
    &&& char_sets.len() == fonts.len()
    &&& char_strings.len() == fonts.len()
    &&& records.len() == fonts.len()
    &&& forall|i: int|
        0 <= i < fonts.len() ==> (#[trigger] fonts[i]) == (FontModel {
            char_strings: char_strings[i],
            char_set: char_sets[i],
            encoding: encodings[i],
            record: records[i],
        })
}

/// The record of the dictionary of a font with `glyphs` glyphs in a font set
/// that starts at `position`: that of a font keyed by character identifiers
/// where the first operation of the dictionary has the operator that marks
/// such a font, else that of a font keyed by character names.
pub open spec fn parse_record(
    bytes: Seq<u8>,
    position: int,
    dictionary: Seq<OperationModel>,
    glyphs: nat,
) -> Parsed<RecordModel> {
    if dictionary.len() > 0 && dictionary[0].operator == Operator::ROS {
        match character_id_keyed::parse_record(bytes, position, dictionary, glyphs) {
            Err(error) => Err(error),
            Ok((record, end)) => Ok((RecordModel::CharacterIDKeyed(record), end)),
        }
    } else {
        match character_name_keyed::parse_record(bytes, position, dictionary) {
            Err(error) => Err(error),
            Ok((record, end)) => Ok((RecordModel::CharacterNameKeyed(record), end)),
        }
    }
}

/// The char set of the dictionary of a font with `glyphs` glyphs in a font
/// set that starts at `position`, the reading position being `at`. The
/// operand of the dictionary, or zero where it has none, is the number of a
/// predefined char set where it is 0, 1 or 2, and else the offset of the char
/// set from the start of the font set.
pub open spec fn parse_font_char_set(
    bytes: Seq<u8>,
    position: int,
    dictionary: Seq<OperationModel>,
    glyphs: nat,
    at: int,
) -> Parsed<CharSetModel> {
    match integer_or(dictionary, Operator::CharSet, 0) {
        Err(error) => Err(error),
        Ok(offset) => if offset == 0 {
            Ok((CharSetModel::ISOAdobe, at))
        } else if offset == 1 {
            Ok((CharSetModel::Expert, at))
        } else if offset == 2 {
            Ok((CharSetModel::ExpertSubset, at))
        } else {
            match parse_jump(bytes, position + offset) {
                Err(error) => Err(error),
                Ok(target) => parse_char_set(bytes, target, glyphs),
            }
        },
    }
}

/// The encoding of the dictionary of a font in a font set that starts at
/// `position`, the reading position being `at`. The operand of the
/// dictionary, or zero where it has none, is the number of a predefined
/// encoding where it is 0 or 1, and else the offset of the encoding from the
/// start of the font set.
pub open spec fn parse_font_encoding(
    bytes: Seq<u8>,
    position: int,
    dictionary: Seq<OperationModel>,
    at: int,
) -> Parsed<EncodingModel> {
    match integer_or(dictionary, Operator::Encoding, 0) {
        Err(error) => Err(error),
        Ok(offset) => if offset == 0 {
            Ok((EncodingModel::Standard, at))
        } else if offset == 1 {
            Ok((EncodingModel::Expert, at))
        } else {
            match parse_jump(bytes, position + offset) {
                Err(error) => Err(error),
                Ok(target) => parse_encoding(bytes, target),
            }
        },
    }
}

/// What the dictionary of a font refers to in a font set that starts at
/// `position`: the char strings, at the offset that the dictionary gives, in
/// the format that it gives or else in format 2; the char set; the
/// encoding; and the record.
pub open spec fn parse_font(bytes: Seq<u8>, position: int, dictionary: Seq<OperationModel>) -> Parsed<
    FontModel,
> {
    match required_integer(dictionary, Operator::CharStrings) {
        Err(error) => Err(error),
        Ok(offset) => match parse_jump(bytes, position + offset) {
            Err(error) => Err(error),
            Ok(target) => match integer_or(dictionary, Operator::CharStringType, 2) {
                Err(error) => Err(error),
                Ok(format) => match parse_char_strings(bytes, target, format) {
                    Err(error) => Err(error),
                    Ok((char_strings, next)) => match parse_font_char_set(
                        bytes,
                        position,
                        dictionary,
                        char_strings.index.count as nat,
                        next,
                    ) {
                        Err(error) => Err(error),
                        Ok((char_set, next)) => match parse_font_encoding(
                            bytes,
                            position,
                            dictionary,
                            next,
                        ) {
                            Err(error) => Err(error),
                            Ok((encoding, _)) => match parse_record(
                                bytes,
                                position,
                                dictionary,
                                char_strings.index.count as nat,
                            ) {
                                Err(error) => Err(error),
                                Ok((record, end)) => Ok(
                                    (FontModel { char_strings, char_set, encoding, record }, end),
                                ),
                            },
                        },
                    },
                },
            },
        },
    }
}

/// What the first `count` of the dictionaries refer to, and the position
/// after the last of it, or `at` where there is none.
pub open spec fn parse_fonts(
    bytes: Seq<u8>,
    position: int,
    dictionaries: Seq<Seq<OperationModel>>,
    at: int,
    count: nat,
) -> Parsed<Seq<FontModel>>
    decreases count,
{
    if count == 0 {
        Ok((Seq::empty(), at))
    } else {
        match parse_fonts(bytes, position, dictionaries, at, (count - 1) as nat) {
            Err(error) => Err(error),
            Ok((fonts, _)) => match parse_font(bytes, position, dictionaries[count - 1]) {
                Err(error) => Err(error),
                Ok((font, end)) => Ok((fonts.push(font), end)),
            },
        }
    }
}

/// The font set that starts at `position`: the header; where the header
/// ends by its own account, the names and the dictionaries, which have to be
/// equal in number; the strings; the subroutines; and what the dictionaries
/// refer to, font by font.
pub open spec fn parse_font_set(bytes: Seq<u8>, position: int) -> Parsed<FontSetModel> {
    match Header::parse(bytes, position) {
        Err(error) => Err(error),
        Ok((header, _)) => match parse_jump(bytes, position + header.header_size) {
            Err(error) => Err(error),
            Ok(start) => match parse_index(bytes, start) {
                Err(error) => Err(error),
                Ok((names, next)) => match parse_index(bytes, next) {
                    Err(error) => Err(error),
                    Ok((dictionaries, next)) => if names.count != dictionaries.count {
                        Err(Error::MalformedFontSet)
                    } else {
                        match parse_dictionaries(dictionaries.data, dictionaries.data.len()) {
                            Err(error) => Err(error),
                            Ok(global_operations) => match parse_index(bytes, next) {
                                Err(error) => Err(error),
                                Ok((strings, next)) => match parse_index(bytes, next) {
                                    Err(error) => Err(error),
                                    Ok((global_subroutines, next)) => match parse_fonts(
                                        bytes,
                                        position,
                                        global_operations,
                                        next,
                                        global_operations.len(),
                                    ) {
                                        Err(error) => Err(error),
                                        Ok((fonts, end)) => Ok(
                                            (
                                                FontSetModel::assemble(
                                                    header,
                                                    names,
                                                    global_operations,
                                                    strings,
                                                    global_subroutines,
                                                    fonts,
                                                ),
                                                end,
                                            ),
                                        ),
                                    },
                                },
                            },
                        }
                    },
                },
            },
        },
    }
}

/// Once what a dictionary refers to is not decoded, nothing more is.
pub proof fn lemma_fonts_fail(
    bytes: Seq<u8>,
    position: int,
    dictionaries: Seq<Seq<OperationModel>>,
    at: int,
    i: nat,
    count: nat,
)
    requires
        i <= count,
        parse_fonts(bytes, position, dictionaries, at, i) is Err,
    ensures
        parse_fonts(bytes, position, dictionaries, at, count) == parse_fonts(
            bytes,
            position,
            dictionaries,
            at,
            i,
        ),
    decreases count,
{
    if i < count {
        lemma_fonts_fail(bytes, position, dictionaries, at, i, (count - 1) as nat);
    }
}

/// In what is decoded of a font, the parts fit together.
pub proof fn lemma_parse_font(bytes: Seq<u8>, position: int, dictionary: Seq<OperationModel>)
    requires
        parse_font(bytes, position, dictionary) is Ok,
    ensures
        parse_font(bytes, position, dictionary)->Ok_0.0.wf(),
{
    let offset = required_integer(dictionary, Operator::CharStrings)->Ok_0;
    let target = parse_jump(bytes, position + offset)->Ok_0;
    let format = integer_or(dictionary, Operator::CharStringType, 2)->Ok_0;
    let (char_strings, next) = parse_char_strings(bytes, target, format)->Ok_0;
    lemma_parse_index(bytes, target);
    let chosen = integer_or(dictionary, Operator::CharSet, 0)->Ok_0;
    if chosen != 0 && chosen != 1 && chosen != 2 {
        let target = parse_jump(bytes, position + chosen)->Ok_0;
        lemma_char_set_glyphs(bytes, target, char_strings.index.count as nat);
    }
    if dictionary.len() > 0 && dictionary[0].operator == Operator::ROS {
        character_id_keyed::lemma_parse_record(
            bytes,
            position,
            dictionary,
            char_strings.index.count as nat,
        );
    } else {
        character_name_keyed::lemma_parse_record(bytes, position, dictionary);
    }
}

/// What is decoded of the fonts is as much as there are dictionaries, and in
/// each font the parts fit together.
pub proof fn lemma_parse_fonts(
    bytes: Seq<u8>,
    position: int,
    dictionaries: Seq<Seq<OperationModel>>,
    at: int,
    count: nat,
)
    requires
        parse_fonts(bytes, position, dictionaries, at, count) is Ok,
    ensures
        ({
            let fonts = parse_fonts(bytes, position, dictionaries, at, count)->Ok_0.0;
            &&& fonts.len() == count
            &&& forall|i: int| 0 <= i < count ==> (#[trigger] fonts[i]).wf()
        }),
    decreases count,
{
    if count > 0 {
        lemma_parse_fonts(bytes, position, dictionaries, at, (count - 1) as nat);
        lemma_parse_font(bytes, position, dictionaries[count - 1]);
    }
}

/// In a font set that is decoded, the parts fit together: there are as many
/// lists of operations, encodings, char sets, char strings and records as
/// there are names, and the char set of each font names the glyphs that have
/// char strings.
pub proof fn lemma_parse_font_set(bytes: Seq<u8>, position: int)
    requires
        parse_font_set(bytes, position) is Ok,
    ensures
        parse_font_set(bytes, position)->Ok_0.0.wf(),
{
    let (header, _) = Header::parse(bytes, position)->Ok_0;
    let start = parse_jump(bytes, position + header.header_size)->Ok_0;
    let (names, next) = parse_index(bytes, start)->Ok_0;
    lemma_parse_index(bytes, start);
    let (dictionaries, next2) = parse_index(bytes, next)->Ok_0;
    lemma_parse_index(bytes, next);
    let operations = parse_dictionaries(dictionaries.data, dictionaries.data.len())->Ok_0;
    lemma_dictionaries_len(dictionaries.data, dictionaries.data.len());
    let (strings, next3) = parse_index(bytes, next2)->Ok_0;
    lemma_parse_index(bytes, next2);
    let (subroutines, next4) = parse_index(bytes, next3)->Ok_0;
    lemma_parse_index(bytes, next3);
    lemma_parse_fonts(bytes, position, operations, next4, operations.len());
    let fonts = parse_fonts(bytes, position, operations, next4, operations.len())->Ok_0.0;
    let set = parse_font_set(bytes, position)->Ok_0.0;
    assert forall|i: int| 0 <= i < set.fonts() implies (#[trigger] set.font(i)).wf() by {
        assert(set.font(i) == fonts[i]);
    }
}

/// Read the char set of the dictionary of a font with `glyphs` glyphs.
fn read_char_set(tape: &mut Tape, position: u64, dictionary: &Operations, glyphs: usize) -> (result:
    Result<CharSet, Error>)
    ensures
        final(tape).bytes() == old(tape).bytes(),
        yields_view(
            final(tape).cursor() as int,
            result,
            parse_font_char_set(
                old(tape).bytes(),
                position as int,
                dictionary@,
                glyphs as nat,
                old(tape).cursor() as int,
            ),
        ),
{
    let offset: i32 = dictionary.get_integer_or(Operator::CharSet, 0)?;
    if offset == 0 {
        Ok(CharSet::ISOAdobe)
    } else if offset == 1 {
        Ok(CharSet::Expert)
    } else if offset == 2 {
        Ok(CharSet::ExpertSubset)
    } else {
        tape.jump_by(position, offset as i64)?;
        CharSet::read_given(tape, glyphs)
    }
}

/// Read the encoding of the dictionary of a font.
fn read_encoding(tape: &mut Tape, position: u64, dictionary: &Operations) -> (result: Result<
    Encoding,
    Error,
>)
    ensures
        final(tape).bytes() == old(tape).bytes(),
        yields_view(
            final(tape).cursor() as int,
            result,
            parse_font_encoding(
                old(tape).bytes(),
                position as int,
                dictionary@,
                old(tape).cursor() as int,
            ),
        ),
{
    let offset: i32 = dictionary.get_integer_or(Operator::Encoding, 0)?;
    if offset == 0 {
        Ok(Encoding::Standard)
    } else if offset == 1 {
        Ok(Encoding::Expert)
    } else {
        tape.jump_by(position, offset as i64)?;
        Encoding::read(tape)
    }
}

/// Read what the dictionary of a font refers to.
fn read_font(tape: &mut Tape, position: u64, dictionary: &Operations) -> (result: Result<
    (CharStrings, CharSet, Encoding, Record),
    Error,
>)
    ensures
        final(tape).bytes() == old(tape).bytes(),
        match parse_font(old(tape).bytes(), position as int, dictionary@) {
            Ok((font, end)) => (result matches Ok(found) && font == (FontModel {
                char_strings: found.0@,
                char_set: found.1@,
                encoding: found.2@,
                record: found.3@,
            })) && final(tape).cursor() == end,
            Err(error) => result == Err::<(CharStrings, CharSet, Encoding, Record), Error>(error),
        },
{
    let offset: i32 = dictionary.get_required_integer(Operator::CharStrings)?;
    tape.jump_by(position, offset as i64)?;
    let format: i32 = dictionary.get_integer_or(Operator::CharStringType, 2)?;
    let char_strings = CharStrings::read_given(tape, format)?;
    let char_set = read_char_set(tape, position, dictionary, char_strings.index.count as usize)?;
    let encoding = read_encoding(tape, position, dictionary)?;
    let record = Record::read_given(tape, position, dictionary, &char_strings)?;
    Ok((char_strings, char_set, encoding, record))
}

/// Read what the dictionaries of the fonts refer to.
fn read_fonts(tape: &mut Tape, position: u64, dictionaries: &Vec<Operations>) -> (result: Result<
    (Vec<Encoding>, Vec<CharSet>, Vec<CharStrings>, Vec<Record>),
    Error,
>)
    ensures
        final(tape).bytes() == old(tape).bytes(),
        match parse_fonts(
            old(tape).bytes(),
            position as int,
            views(dictionaries@),
            old(tape).cursor() as int,
            dictionaries@.len(),
        ) {
            Ok((fonts, end)) => (result matches Ok(found) && gathered(
                fonts,
                views(found.0@),
                views(found.1@),
                views(found.2@),
                views(found.3@),
            )) && final(tape).cursor() == end,
            Err(error) => result == Err::<
                (Vec<Encoding>, Vec<CharSet>, Vec<CharStrings>, Vec<Record>),
                Error,
            >(error),
        },
{
    let ghost bytes = tape.bytes();
    let ghost next = tape.cursor() as int;
    let ghost mut fonts: Seq<FontModel> = Seq::empty();
    let mut encodings: Vec<Encoding> = Vec::new();
    let mut char_sets: Vec<CharSet> = Vec::new();
    let mut char_strings: Vec<CharStrings> = Vec::new();
    let mut records: Vec<Record> = Vec::new();
    let mut i: usize = 0;
    while i < dictionaries.len()
        invariant
            i <= dictionaries@.len(),
            tape.bytes() == bytes,
            bytes == old(tape).bytes(),
            next == old(tape).cursor(),
            parse_fonts(bytes, position as int, views(dictionaries@), next, i as nat) == Ok::<
                (Seq<FontModel>, int),
                Error,
            >((fonts, tape.cursor() as int)),
            fonts.len() == i,
            gathered(
                fonts,
                views(encodings@),
                views(char_sets@),
                views(char_strings@),
                views(records@),
            ),
        decreases dictionaries@.len() - i,
    {
        let font = match read_font(tape, position, &dictionaries[i]) {
            Ok(font) => font,
            Err(error) => {
                proof {
                    lemma_fonts_fail(
                        bytes,
                        position as int,
                        views(dictionaries@),
                        next,
                        (i + 1) as nat,
                        dictionaries@.len(),
                    );
                }
                return Err(error);
            },
        };
        proof {
            fonts = fonts.push(
                FontModel {
                    char_strings: font.0@,
                    char_set: font.1@,
                    encoding: font.2@,
                    record: font.3@,
                },
            );
        }
        char_strings.push(font.0);
        char_sets.push(font.1);
        encodings.push(font.2);
        records.push(font.3);
        i = i + 1;
    }
    Ok((encodings, char_sets, char_strings, records))
}

impl Record {
    /// Read the record of the dictionary of a font with the char strings in
    /// a font set that starts at `position`.
    pub fn read_given(
        tape: &mut Tape,
        position: u64,
        dictionary: &Operations,
        char_strings: &CharStrings,
    ) -> (result: Result<Record, Error>)
        ensures
            final(tape).bytes() == old(tape).bytes(),
            yields_view(
                final(tape).cursor() as int,
                result,
                parse_record(
                    old(tape).bytes(),
                    position as int,
                    dictionary@,
                    char_strings@.index.count as nat,
                ),
            ),
    {
        if dictionary.0.len() > 0 && dictionary.0[0].0 == Operator::ROS {
            Ok(
                Record::CharacterIDKeyed(
                    character_id_keyed::Record::read_given(
                        tape,
                        position,
                        dictionary,
                        char_strings.index.count as usize,
                    )?,
                ),
            )
        } else {
            Ok(
                Record::CharacterNameKeyed(
                    character_name_keyed::Record::read_given(tape, position, dictionary)?,
                ),
            )
        }
    }
}

impl FontSet {
    /// Read a font set, which starts at the reading position.
    pub fn read(tape: &mut Tape) -> (result: Result<FontSet, Error>)
        ensures
            final(tape).bytes() == old(tape).bytes(),
            yields_view(
                final(tape).cursor() as int,
                result,
                parse_font_set(old(tape).bytes(), old(tape).cursor() as int),
            ),
            result matches Ok(set) ==> set@.wf(),
    {
        let ghost bytes = tape.bytes();
        let position: u64 = tape.position();
        let header = Header::read(tape)?;
        tape.jump_by(position, header.header_size as i64)?;
        let names = Names::read(tape)?;
        let dictionaries = Dictionaries::read(tape)?;
        if names.index.count != dictionaries.index.count {
            return Err(Error::MalformedFontSet);
        }
        let global_operations = dictionaries.operations()?;
        let strings = Strings::read(tape)?;
        let global_subroutines = Subroutines::read(tape)?;
        let (encodings, char_sets, char_strings, records) = read_fonts(
            tape,
            position,
            &global_operations,
        )?;
        let set = FontSet {
            header,
            names,
            global_operations,
            strings,
            global_subroutines,
            encodings,
            char_sets,
            char_strings,
            records,
        };
        proof {
            lemma_parse_font_set(bytes, position as int);
            let expected = parse_font_set(bytes, position as int)->Ok_0.0;
            assert(set@.encodings =~= expected.encodings);
            assert(set@.char_sets =~= expected.char_sets);
            assert(set@.char_strings =~= expected.char_strings);
            assert(set@.records =~= expected.records);
        }
        Ok(set)
    }
}

} // verus!
