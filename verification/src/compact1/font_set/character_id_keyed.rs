//! The fonts that are keyed by character identifiers.

use vstd::prelude::*;

use crate::compact1::font_set::character_name_keyed;
use crate::compact1::index::dictionaries::{parse_dictionaries, Dictionaries};
use crate::compact1::index::parse_index;
use crate::compact1::number::{Number, NumberModel};
use crate::compact1::operation::{
    integer, operands, required_integer, OperationModel, Operations,
};
use crate::compact1::operator::Operator;
use crate::compact1::{GlyphID, StringID};
use crate::error::Error;
use crate::parsing::{parse_bytes, parse_jump, parse_u16, parse_u8, views, yields_view, Parsed};
use crate::tape::Tape;

verus! {

/// What the dictionary of a font keyed by character identifiers refers to.
#[derive(Clone, Debug, PartialEq, Eq)]
pub struct Record {
    /// The string identifier of the registry.
    pub registry: StringID,
    /// The string identifier of the ordering.
    pub ordering: StringID,
    /// The supplement.
    pub supplement: Number,
    /// The number of character identifiers, where the dictionary gives it.
    pub count: Option<i32>,
    /// The font dictionary of each glyph.
    pub selection: Selection,
    /// The operations of the font dictionaries.
    pub operations: Vec<Operations>,
    /// What the font dictionaries refer to, one record for each.
    pub records: Vec<character_name_keyed::Record>,
}

/// The font dictionary of each glyph, as an index into the font dictionaries.
#[derive(Clone, Debug, PartialEq, Eq)]
pub enum Selection {
    /// The font dictionaries of the glyphs, one by one.
    Format0(Format0),
    /// The font dictionaries of the glyphs in ranges.
    Format3(Format3),
}

/// A selection of format 0.
#[derive(Clone, Debug, PartialEq, Eq)]
pub struct Format0 {
    /// The font dictionary of the glyph 0, of the glyph 1, and so on.
    pub dictionaries: Vec<u8>,
}

/// A selection of format 3.
#[derive(Clone, Debug, PartialEq, Eq)]
pub struct Format3 {
    /// The ranges. Each ends before the first glyph of the next.
    pub ranges: Vec<Range3>,
    /// The glyph before which the last range ends.
    pub sentinel: GlyphID,
}

/// A range of glyphs with one font dictionary: the first glyph, and the font
/// dictionary.
#[derive(Clone, Copy, Debug, PartialEq, Eq)]
pub struct Range3 {
    pub first: GlyphID,
    pub dictionary: u8,
}

/// What a selection holds.
pub enum SelectionModel {
    Format0(Seq<u8>),
    Format3(Seq<Range3>, GlyphID),
}

impl View for Selection {
    type V = SelectionModel;

    open spec fn view(&self) -> SelectionModel {
        match self {
            Selection::Format0(table) => SelectionModel::Format0(table.dictionaries@),
            Selection::Format3(table) => SelectionModel::Format3(table.ranges@, table.sentinel),
        }
    }
}

/// What such a record holds.
pub struct RecordModel {
    pub registry: StringID,
    pub ordering: StringID,
    pub supplement: NumberModel,
    pub count: Option<i32>,
    pub selection: SelectionModel,
    pub operations: Seq<Seq<OperationModel>>,
    pub records: Seq<character_name_keyed::RecordModel>,
}

impl RecordModel {
    /// Whether the parts fit together: there is a record for each font
    /// dictionary, and each has well-formed local subroutines.
    pub open spec fn wf(self) -> bool {
        &&& self.records.len() == self.operations.len()
        &&& forall|i: int| 0 <= i < self.records.len() ==> (#[trigger] self.records[i]).wf()
    }
}

impl View for Record {
    type V = RecordModel;

    open spec fn view(&self) -> RecordModel {
        RecordModel {
            registry: self.registry,
            ordering: self.ordering,
            supplement: self.supplement@,
            count: self.count,
            selection: self.selection@,
            operations: views(self.operations@),
            records: views(self.records@),
        }
    }
}

/// The range that the three bytes at `at` give: the first glyph with its
/// high byte first, and the font dictionary.
pub open spec fn range_at(bytes: Seq<u8>, at: int) -> Range3 {
    Range3 { first: (bytes[at] * 256 + bytes[at + 1]) as u16, dictionary: bytes[at + 2] }
}

/// The `count` ranges at `at`.
pub open spec fn parse_ranges(bytes: Seq<u8>, at: int, count: nat) -> Parsed<Seq<Range3>> {
    if 0 <= at && at + 3 * count <= bytes.len() {
        Ok((Seq::new(count, |i: int| range_at(bytes, at + 3 * i)), at + 3 * count))
    } else {
        Err(Error::Truncated)
    }
}

/// The selection at `at` for `glyphs` glyphs: the format in one byte; in
/// format 0 a font dictionary for each glyph, one byte each; in format 3 the
/// number of ranges in two bytes, the ranges, and the glyph before which the
/// last range ends in two bytes. Another format is malformed.
pub open spec fn parse_selection(bytes: Seq<u8>, at: int, glyphs: nat) -> Parsed<SelectionModel> {
    match parse_u8(bytes, at) {
        Err(error) => Err(error),
        Ok((format, next)) => if format == 0 {
            match parse_bytes(bytes, next, glyphs as int) {
                Err(error) => Err(error),
                Ok((dictionaries, end)) => Ok((SelectionModel::Format0(dictionaries), end)),
            }
        } else if format == 3 {
            match parse_u16(bytes, next) {
                Err(error) => Err(error),
                Ok((count, first)) => match parse_ranges(bytes, first, count as nat) {
                    Err(error) => Err(error),
                    Ok((ranges, rest)) => match parse_u16(bytes, rest) {
                        Err(error) => Err(error),
                        Ok((sentinel, end)) => Ok((SelectionModel::Format3(ranges, sentinel), end)),
                    },
                },
            }
        } else {
            Err(Error::MalformedSelection)
        },
    }
}

/// The font dictionary of the glyph by the ranges, the last of which ends
/// before `sentinel`: that of the first range that holds the glyph.
pub open spec fn dictionary_of(ranges: Seq<Range3>, sentinel: GlyphID, glyph: GlyphID) -> Option<u8>
    decreases ranges.len(),
{
    if ranges.len() == 0 {
        None
    } else if ranges[0].first <= glyph && glyph < (if ranges.len() > 1 {
        ranges[1].first
    } else {
        sentinel
    }) {
        Some(ranges[0].dictionary)
    } else {
        dictionary_of(ranges.drop_first(), sentinel, glyph)
    }
}

impl SelectionModel {
    /// The font dictionary of the glyph, where the selection gives one.
    pub open spec fn dictionary(self, glyph: GlyphID) -> Option<u8> {
        match self {
            SelectionModel::Format0(dictionaries) => if glyph < dictionaries.len() {
                Some(dictionaries[glyph as int])
            } else {
                None
            },
            SelectionModel::Format3(ranges, sentinel) => dictionary_of(ranges, sentinel, glyph),
        }
    }
}

/// The records of the first `count` font dictionaries, and the position after
/// the last of them, or `at` where there is none.
pub open spec fn parse_records(
    bytes: Seq<u8>,
    position: int,
    dictionaries: Seq<Seq<OperationModel>>,
    at: int,
    count: nat,
) -> Parsed<Seq<character_name_keyed::RecordModel>>
    decreases count,
{
    if count == 0 {
        Ok((Seq::empty(), at))
    } else {
        match parse_records(bytes, position, dictionaries, at, (count - 1) as nat) {
            Err(error) => Err(error),
            Ok((records, _)) => match character_name_keyed::parse_record(
                bytes,
                position,
                dictionaries[count - 1],
            ) {
                Err(error) => Err(error),
                Ok((record, end)) => Ok((records.push(record), end)),
            },
        }
    }
}

/// Once a record is not decoded, no more are.
pub proof fn lemma_records_fail(
    bytes: Seq<u8>,
    position: int,
    dictionaries: Seq<Seq<OperationModel>>,
    at: int,
    i: nat,
    count: nat,
)
    requires
        i <= count,
        parse_records(bytes, position, dictionaries, at, i) is Err,
    ensures
        parse_records(bytes, position, dictionaries, at, count) == parse_records(
            bytes,
            position,
            dictionaries,
            at,
            i,
        ),
    decreases count,
{
    if i < count {
        lemma_records_fail(bytes, position, dictionaries, at, i, (count - 1) as nat);
    }
}

/// There are as many records as font dictionaries were resolved, and each has
/// well-formed local subroutines.
pub proof fn lemma_records(
    bytes: Seq<u8>,
    position: int,
    dictionaries: Seq<Seq<OperationModel>>,
    at: int,
    count: nat,
)
    requires
        parse_records(bytes, position, dictionaries, at, count) is Ok,
    ensures
        ({
            let records = parse_records(bytes, position, dictionaries, at, count)->Ok_0.0;
            &&& records.len() == count
            &&& forall|i: int| 0 <= i < count ==> (#[trigger] records[i]).wf()
        }),
    decreases count,
{
    if count > 0 {
        lemma_records(bytes, position, dictionaries, at, (count - 1) as nat);
        character_name_keyed::lemma_parse_record(bytes, position, dictionaries[count - 1]);
    }
}

/// The registry, the ordering and the supplement of the dictionary: the
/// three operands of the operation that marks a font as keyed by character
/// identifiers, of which the first two are string identifiers. Fewer than
/// three operands are a missing operand; more, or one of the first two that
/// is no string identifier, is malformed.
pub open spec fn parse_ros(dictionary: Seq<OperationModel>) -> Result<
    (StringID, StringID, NumberModel),
    Error,
> {
    match operands(dictionary, Operator::ROS) {
        None => Err(Error::MissingOperation(Operator::ROS)),
        Some(operands) => if operands.len() < 3 {
            Err(Error::MissingOperand(Operator::ROS))
        } else if operands.len() == 3 && (operands[0] matches NumberModel::Integer(
            registry,
        ) && 0 <= registry <= u16::MAX) && (operands[1] matches NumberModel::Integer(ordering)
            && 0 <= ordering <= u16::MAX) {
            Ok(
                (
                    operands[0]->Integer_0 as u16,
                    operands[1]->Integer_0 as u16,
                    operands[2],
                ),
            )
        } else {
            Err(Error::MalformedOperation(Operator::ROS))
        },
    }
}

/// The font dictionaries at `at`, decoded into their operations.
pub open spec fn parse_font_dictionaries(bytes: Seq<u8>, at: int) -> Parsed<
    Seq<Seq<OperationModel>>,
> {
    match parse_index(bytes, at) {
        Err(error) => Err(error),
        Ok((index, end)) => match parse_dictionaries(index.data, index.data.len()) {
            Err(error) => Err(error),
            Ok(dictionaries) => Ok((dictionaries, end)),
        },
    }
}

/// The record of the dictionary of a font with `glyphs` glyphs in a font set
/// that starts at `position`. The dictionary gives the registry, the
/// ordering and the supplement, the number of character identifiers where it
/// cares to, the offset of the selection and the offset of the font
/// dictionaries, both from the start of the font set. Each font dictionary
/// is resolved in its turn.
pub open spec fn parse_record(
    bytes: Seq<u8>,
    position: int,
    dictionary: Seq<OperationModel>,
    glyphs: nat,
) -> Parsed<RecordModel> {
    match parse_ros(dictionary) {
        Err(error) => Err(error),
        Ok((registry, ordering, supplement)) => match integer(dictionary, Operator::CIDCount) {
            Err(error) => Err(error),
            Ok(count) => match required_integer(dictionary, Operator::FDSelect) {
                Err(error) => Err(error),
                Ok(offset) => match parse_jump(bytes, position + offset) {
                    Err(error) => Err(error),
                    Ok(target) => match parse_selection(bytes, target, glyphs) {
                        Err(error) => Err(error),
                        Ok((selection, _)) => match required_integer(
                            dictionary,
                            Operator::FDArray,
                        ) {
                            Err(error) => Err(error),
                            Ok(offset) => match parse_jump(bytes, position + offset) {
                                Err(error) => Err(error),
                                Ok(target) => match parse_font_dictionaries(bytes, target) {
                                    Err(error) => Err(error),
                                    Ok((operations, next)) => match parse_records(
                                        bytes,
                                        position,
                                        operations,
                                        next,
                                        operations.len(),
                                    ) {
                                        Err(error) => Err(error),
                                        Ok((records, end)) => Ok(
                                            (
                                                RecordModel {
                                                    registry,
                                                    ordering,
                                                    supplement,
                                                    count,
                                                    selection,
                                                    operations,
                                                    records,
                                                },
                                                end,
                                            ),
                                        ),
                                    },
                                },
                            },
                        },
                    },
                },
            },
        },
    }
}

/// In a record that is decoded, the parts fit together.
pub proof fn lemma_parse_record(
    bytes: Seq<u8>,
    position: int,
    dictionary: Seq<OperationModel>,
    glyphs: nat,
)
    requires
        parse_record(bytes, position, dictionary, glyphs) is Ok,
    ensures
        parse_record(bytes, position, dictionary, glyphs)->Ok_0.0.wf(),
{
    let offset = required_integer(dictionary, Operator::FDArray)->Ok_0;
    let target = parse_jump(bytes, position + offset)->Ok_0;
    let (operations, next) = parse_font_dictionaries(bytes, target)->Ok_0;
    lemma_records(bytes, position, operations, next, operations.len());
}

/// Read `count` ranges.
fn read_ranges(tape: &mut Tape, count: u16) -> (result: Result<Vec<Range3>, Error>)
    requires
        old(tape).cursor() <= old(tape).bytes().len(),
    ensures
        final(tape).bytes() == old(tape).bytes(),
        match parse_ranges(old(tape).bytes(), old(tape).cursor() as int, count as nat) {
            Ok((ranges, end)) => (result matches Ok(found) && found@ == ranges)
                && final(tape).cursor() == end,
            Err(error) => result == Err::<Vec<Range3>, Error>(error),
        },
{
    let ghost bytes = tape.bytes();
    let ghost start = tape.cursor() as int;
    let mut ranges: Vec<Range3> = Vec::new();
    let mut i: u16 = 0;
    while i < count
        invariant
            i <= count,
            tape.bytes() == bytes,
            bytes == old(tape).bytes(),
            start == old(tape).cursor(),
            tape.cursor() == start + 3 * i,
            tape.cursor() <= bytes.len(),
            ranges@ == Seq::new(i as nat, |k: int| range_at(bytes, start + 3 * k)),
        decreases count - i,
    {
        let first: u16 = tape.take_u16()?;
        let dictionary: u8 = tape.take_u8()?;
        ranges.push(Range3 { first, dictionary });
        assert(ranges@ =~= Seq::new((i + 1) as nat, |k: int| range_at(bytes, start + 3 * k)));
        i = i + 1;
    }
    Ok(ranges)
}

impl Selection {
    /// Read the selection for `glyphs` glyphs.
    pub fn read_given(tape: &mut Tape, glyphs: usize) -> (result: Result<Selection, Error>)
        ensures
            final(tape).bytes() == old(tape).bytes(),
            yields_view(
                final(tape).cursor() as int,
                result,
                parse_selection(old(tape).bytes(), old(tape).cursor() as int, glyphs as nat),
            ),
    {
        let format: u8 = tape.take_u8()?;
        if format == 0 {
            Ok(Selection::Format0(Format0 { dictionaries: tape.take_bytes(glyphs)? }))
        } else if format == 3 {
            let count: u16 = tape.take_u16()?;
            let ranges = read_ranges(tape, count)?;
            let sentinel: u16 = tape.take_u16()?;
            Ok(Selection::Format3(Format3 { ranges, sentinel }))
        } else {
            Err(Error::MalformedSelection)
        }
    }

    /// Return the font dictionary of the glyph, where the selection gives one.
    pub fn get(&self, glyph: GlyphID) -> (dictionary: Option<u8>)
        ensures
            dictionary == self@.dictionary(glyph),
    {
        match self {
            Selection::Format0(table) => if (glyph as usize) < table.dictionaries.len() {
                Some(table.dictionaries[glyph as usize])
            } else {
                None
            },
            Selection::Format3(table) => find_range(&table.ranges, table.sentinel, glyph),
        }
    }
}

/// Return the font dictionary of the first range that holds the glyph.
fn find_range(ranges: &Vec<Range3>, sentinel: GlyphID, glyph: GlyphID) -> (dictionary: Option<u8>)
    ensures
        dictionary == dictionary_of(ranges@, sentinel, glyph),
{
    let mut i: usize = 0;
    assert(ranges@.skip(0) =~= ranges@);
    while i < ranges.len()
        invariant
            i <= ranges@.len(),
            dictionary_of(ranges@, sentinel, glyph) == dictionary_of(
                ranges@.skip(i as int),
                sentinel,
                glyph,
            ),
        decreases ranges@.len() - i,
    {
        assert(ranges@.skip(i as int).drop_first() =~= ranges@.skip(i + 1));
        let end: u16 = if i + 1 < ranges.len() {
            ranges[i + 1].first
        } else {
            sentinel
        };
        if ranges[i].first <= glyph && glyph < end {
            return Some(ranges[i].dictionary);
        }
        i = i + 1;
    }
    None
}

/// Return the registry, the ordering and the supplement of the dictionary.
fn read_ros(dictionary: &Operations) -> (result: Result<(StringID, StringID, &Number), Error>)
    ensures
        match parse_ros(dictionary@) {
            Ok((registry, ordering, supplement)) => result matches Ok(found) && found.0 == registry
                && found.1 == ordering && found.2@ == supplement,
            Err(error) => result == Err::<(StringID, StringID, &Number), Error>(error),
        },
{
    match dictionary.get(Operator::ROS) {
        None => Err(Error::MissingOperation(Operator::ROS)),
        Some(operands) => {
            if operands.len() < 3 {
                return Err(Error::MissingOperand(Operator::ROS));
            }
            if operands.len() > 3 {
                return Err(Error::MalformedOperation(Operator::ROS));
            }
            match (operands[0].integer(), operands[1].integer()) {
                (Some(registry), Some(ordering)) => {
                    if 0 <= registry && registry <= 65535 && 0 <= ordering && ordering <= 65535 {
                        Ok((registry as u16, ordering as u16, &operands[2]))
                    } else {
                        Err(Error::MalformedOperation(Operator::ROS))
                    }
                },
                _ => Err(Error::MalformedOperation(Operator::ROS)),
            }
        },
    }
}

/// Read the font dictionaries and decode them into their operations.
fn read_font_dictionaries(tape: &mut Tape) -> (result: Result<Vec<Operations>, Error>)
    ensures
        final(tape).bytes() == old(tape).bytes(),
        match parse_font_dictionaries(old(tape).bytes(), old(tape).cursor() as int) {
            Ok((operations, end)) => (result matches Ok(found) && views(found@) == operations)
                && final(tape).cursor() == end,
            Err(error) => result == Err::<Vec<Operations>, Error>(error),
        },
{
    let dictionaries = Dictionaries::read(tape)?;
    dictionaries.operations()
}

impl Record {
    /// Read the record of the dictionary of a font with `glyphs` glyphs in a
    /// font set that starts at `position`.
    pub fn read_given(
        tape: &mut Tape,
        position: u64,
        dictionary: &Operations,
        glyphs: usize,
    ) -> (result: Result<Record, Error>)
        ensures
            final(tape).bytes() == old(tape).bytes(),
            yields_view(
                final(tape).cursor() as int,
                result,
                parse_record(old(tape).bytes(), position as int, dictionary@, glyphs as nat),
            ),
    {
        let ghost bytes = tape.bytes();
        let (registry, ordering, supplement) = read_ros(dictionary)?;
        let supplement = clone_number(supplement);
        let count = dictionary.get_integer(Operator::CIDCount)?;
        let offset: i32 = dictionary.get_required_integer(Operator::FDSelect)?;
        tape.jump_by(position, offset as i64)?;
        let selection = Selection::read_given(tape, glyphs)?;
        let offset: i32 = dictionary.get_required_integer(Operator::FDArray)?;
        tape.jump_by(position, offset as i64)?;
        let operations = read_font_dictionaries(tape)?;
        let ghost next = tape.cursor() as int;
        let mut records: Vec<character_name_keyed::Record> = Vec::new();
        let mut i: usize = 0;
        assert(views(records@) =~= Seq::empty());
        while i < operations.len()
            invariant
                i <= operations@.len(),
                tape.bytes() == bytes,
                bytes == old(tape).bytes(),
                parse_records(bytes, position as int, views(operations@), next, i as nat) == Ok::<
                    (Seq<character_name_keyed::RecordModel>, int),
                    Error,
                >((views(records@), tape.cursor() as int)),
                parse_record(bytes, position as int, dictionary@, glyphs as nat) == match parse_records(
                    bytes,
                    position as int,
                    views(operations@),
                    next,
                    operations@.len(),
                ) {
                    Err(error) => Err(error),
                    Ok((records, end)) => Ok(
                        (
                            RecordModel {
                                registry,
                                ordering,
                                supplement: supplement@,
                                count,
                                selection: selection@,
                                operations: views(operations@),
                                records,
                            },
                            end,
                        ),
                    ),
                },
            decreases operations@.len() - i,
        {
            let ghost done = views(records@);
            let record = match character_name_keyed::Record::read_given(
                tape,
                position,
                &operations[i],
            ) {
                Ok(record) => record,
                Err(error) => {
                    proof {
                        lemma_records_fail(
                            bytes,
                            position as int,
                            views(operations@),
                            next,
                            (i + 1) as nat,
                            operations@.len(),
                        );
                    }
                    return Err(error);
                },
            };
            records.push(record);
            assert(views(records@) =~= done.push(record@));
            i = i + 1;
        }
        Ok(Record { registry, ordering, supplement, count, selection, operations, records })
    }
}

/// Return a copy of the number.
fn clone_number(number: &Number) -> (copy: Number)
    ensures
        copy@ == number@,
{
    match number {
        Number::Integer(value) => Number::Integer(*value),
        Number::Real(value) => Number::Real(
            crate::compact1::number::Real {
                text: vstd::slice::slice_to_vec(value.text.as_slice()),
            },
        ),
    }
}

} // verus!
