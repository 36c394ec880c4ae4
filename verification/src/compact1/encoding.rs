//! The encodings.

use vstd::prelude::*;

use crate::compact1::predefined::{
    expert_encoding, get_expert_encoding, get_standard_encoding, standard_encoding,
};
use crate::compact1::{GlyphID, StringID};
use crate::error::Error;
use crate::parsing::{identifier, parse_bytes, parse_u8, yields_view, Parsed};
use crate::tape::Tape;

verus! {

/// An encoding: what the codes of a font stand for.
#[derive(Clone, Debug, PartialEq, Eq)]
pub enum Encoding {
    /// The standard encoding.
    Standard,
    /// The expert encoding.
    Expert,
    /// The codes of the glyphs, one by one.
    Format0(Format0),
    /// The codes of the glyphs in ranges.
    Format1(Format1),
}

/// An encoding of format 0.
#[derive(Clone, Debug, PartialEq, Eq)]
pub struct Format0 {
    /// The format byte; its high bit says that supplements follow.
    pub format: u8,
    /// The code of the glyph 1, of the glyph 2, and so on.
    pub codes: Vec<u8>,
    /// The supplements.
    pub supplements: Vec<Supplement>,
}

/// An encoding of format 1.
#[derive(Clone, Debug, PartialEq, Eq)]
pub struct Format1 {
    /// The format byte; its high bit says that supplements follow.
    pub format: u8,
    /// The ranges of codes. The codes of the first range belong to the glyphs
    /// from 1 on, those of each further range to the glyphs that follow.
    pub ranges: Vec<Range1>,
    /// The supplements.
    pub supplements: Vec<Supplement>,
}

/// A range of codes: `first`, and the `left` codes after it.
#[derive(Clone, Copy, Debug, PartialEq, Eq)]
pub struct Range1 {
    pub first: u8,
    pub left: u8,
}

/// A further code for the glyph with a name.
#[derive(Clone, Copy, Debug, PartialEq, Eq)]
pub struct Supplement {
    pub code: u8,
    pub sid: StringID,
}

/// What an encoding holds.
pub enum EncodingModel {
    Standard,
    Expert,
    Format0 { format: u8, codes: Seq<u8>, supplements: Seq<Supplement> },
    Format1 { format: u8, ranges: Seq<Range1>, supplements: Seq<Supplement> },
}

impl View for Encoding {
    type V = EncodingModel;

    open spec fn view(&self) -> EncodingModel {
        match self {
            Encoding::Standard => EncodingModel::Standard,
            Encoding::Expert => EncodingModel::Expert,
            Encoding::Format0(table) => EncodingModel::Format0 {
                format: table.format,
                codes: table.codes@,
                supplements: table.supplements@,
            },
            Encoding::Format1(table) => EncodingModel::Format1 {
                format: table.format,
                ranges: table.ranges@,
                supplements: table.supplements@,
            },
        }
    }
}

/// The range that the two bytes at `at` give.
pub open spec fn range_at(bytes: Seq<u8>, at: int) -> Range1 {
    Range1 { first: bytes[at], left: bytes[at + 1] }
}

/// The `count` ranges at `at`.
pub open spec fn parse_ranges(bytes: Seq<u8>, at: int, count: nat) -> Parsed<Seq<Range1>> {
    if 0 <= at && at + 2 * count <= bytes.len() {
        Ok((Seq::new(count, |i: int| range_at(bytes, at + 2 * i)), at + 2 * count))
    } else {
        Err(Error::Truncated)
    }
}

/// The supplement that the three bytes at `at` give: the code, and the
/// string identifier with its high byte first.
pub open spec fn supplement_at(bytes: Seq<u8>, at: int) -> Supplement {
    Supplement { code: bytes[at], sid: (bytes[at + 1] * 256 + bytes[at + 2]) as u16 }
}

/// The supplements at `at`: none where the high bit of the format byte is
/// clear; otherwise their number in one byte, and the supplements.
pub open spec fn parse_supplements(bytes: Seq<u8>, at: int, format: u8) -> Parsed<Seq<Supplement>> {
    if format < 128 {
        Ok((Seq::empty(), at))
    } else {
        match parse_u8(bytes, at) {
            Err(error) => Err(error),
            Ok((count, first)) => if first + 3 * count <= bytes.len() {
                Ok(
                    (
                        Seq::new(count as nat, |i: int| supplement_at(bytes, first + 3 * i)),
                        first + 3 * count,
                    ),
                )
            } else {
                Err(Error::Truncated)
            },
        }
    }
}

/// The encoding at `at`: the format byte, whose low seven bits have to be 0
/// or 1; the number of codes or of ranges in one byte; the codes or the
/// ranges; and the supplements.
pub open spec fn parse_encoding(bytes: Seq<u8>, at: int) -> Parsed<EncodingModel> {
    match parse_u8(bytes, at) {
        Err(error) => Err(error),
        Ok((format, next)) => if format % 128 == 0 {
            match parse_u8(bytes, next) {
                Err(error) => Err(error),
                Ok((count, first)) => match parse_bytes(bytes, first, count as int) {
                    Err(error) => Err(error),
                    Ok((codes, rest)) => match parse_supplements(bytes, rest, format) {
                        Err(error) => Err(error),
                        Ok((supplements, end)) => Ok(
                            (EncodingModel::Format0 { format, codes, supplements }, end),
                        ),
                    },
                },
            }
        } else if format % 128 == 1 {
            match parse_u8(bytes, next) {
                Err(error) => Err(error),
                Ok((count, first)) => match parse_ranges(bytes, first, count as nat) {
                    Err(error) => Err(error),
                    Ok((ranges, rest)) => match parse_supplements(bytes, rest, format) {
                        Err(error) => Err(error),
                        Ok((supplements, end)) => Ok(
                            (EncodingModel::Format1 { format, ranges, supplements }, end),
                        ),
                    },
                },
            }
        } else {
            Err(Error::MalformedEncoding)
        },
    }
}

/// The string identifier of the first of the supplements with the code.
pub open spec fn supplement_of(supplements: Seq<Supplement>, code: u16) -> Option<StringID>
    decreases supplements.len(),
{
    if supplements.len() == 0 {
        None
    } else if supplements[0].code == code {
        Some(supplements[0].sid)
    } else {
        supplement_of(supplements.drop_first(), code)
    }
}

/// The glyph of the code among the codes of the glyphs from `base` on: the
/// first glyph that has the code.
pub open spec fn glyph_of_code(codes: Seq<u8>, code: u16, base: int) -> Option<int>
    decreases codes.len(),
{
    if codes.len() == 0 {
        None
    } else if codes[0] == code {
        Some(base)
    } else {
        glyph_of_code(codes.drop_first(), code, base + 1)
    }
}

/// The glyph of the code among the ranges of codes of the glyphs from `base`
/// on: in the first range that holds the code, the glyph that is as far from
/// the range's first glyph as the code is from its first code.
pub open spec fn glyph_of_range(ranges: Seq<Range1>, code: u16, base: int) -> Option<int>
    decreases ranges.len(),
{
    if ranges.len() == 0 {
        None
    } else if ranges[0].first <= code <= ranges[0].first + ranges[0].left {
        Some(base + code - ranges[0].first)
    } else {
        glyph_of_range(ranges.drop_first(), code, base + ranges[0].left + 1)
    }
}

impl EncodingModel {
    /// The string identifier that the encoding gives the code. A predefined
    /// encoding gives one to every code below 256: that of `.notdef`, zero,
    /// where the code stands for no glyph. Another encoding names glyphs by
    /// its supplements only.
    pub open spec fn sid(self, code: u16) -> Option<StringID> {
        match self {
            EncodingModel::Standard => if code < 256 {
                Some(standard_encoding(code))
            } else {
                None
            },
            EncodingModel::Expert => if code < 256 {
                Some(expert_encoding(code))
            } else {
                None
            },
            EncodingModel::Format0 { supplements, .. } => supplement_of(supplements, code),
            EncodingModel::Format1 { supplements, .. } => supplement_of(supplements, code),
        }
    }

    /// The glyph that the encoding gives the code by its codes or ranges,
    /// where the glyph has an identifier. A predefined encoding gives names, no
    /// glyphs.
    pub open spec fn glyph(self, code: u16) -> Option<GlyphID> {
        match self {
            EncodingModel::Standard => None,
            EncodingModel::Expert => None,
            EncodingModel::Format0 { codes, .. } => identifier(glyph_of_code(codes, code, 1)),
            EncodingModel::Format1 { ranges, .. } => identifier(glyph_of_range(ranges, code, 1)),
        }
    }
}

/// Read `count` ranges.
fn read_ranges(tape: &mut Tape, count: u8) -> (result: Result<Vec<Range1>, Error>)
    requires
        old(tape).cursor() <= old(tape).bytes().len(),
    ensures
        final(tape).bytes() == old(tape).bytes(),
        match parse_ranges(old(tape).bytes(), old(tape).cursor() as int, count as nat) {
            Ok((ranges, end)) => (result matches Ok(found) && found@ == ranges)
                && final(tape).cursor() == end,
            Err(error) => result == Err::<Vec<Range1>, Error>(error),
        },
{
    let ghost bytes = tape.bytes();
    let ghost start = tape.cursor() as int;
    let mut ranges: Vec<Range1> = Vec::new();
    let mut i: u8 = 0;
    while i < count
        invariant
            i <= count,
            tape.bytes() == bytes,
            bytes == old(tape).bytes(),
            start == old(tape).cursor(),
            tape.cursor() == start + 2 * i,
            tape.cursor() <= bytes.len(),
            ranges@ == Seq::new(i as nat, |k: int| range_at(bytes, start + 2 * k)),
        decreases count - i,
    {
        let first: u8 = tape.take_u8()?;
        let left: u8 = tape.take_u8()?;
        ranges.push(Range1 { first, left });
        assert(ranges@ =~= Seq::new((i + 1) as nat, |k: int| range_at(bytes, start + 2 * k)));
        i = i + 1;
    }
    Ok(ranges)
}

/// Read the supplements that the format byte announces.
fn read_supplements(tape: &mut Tape, format: u8) -> (result: Result<Vec<Supplement>, Error>)
    ensures
        final(tape).bytes() == old(tape).bytes(),
        match parse_supplements(old(tape).bytes(), old(tape).cursor() as int, format) {
            Ok((supplements, end)) => (result matches Ok(found) && found@ == supplements)
                && final(tape).cursor() == end,
            Err(error) => result == Err::<Vec<Supplement>, Error>(error),
        },
{
    let ghost bytes = tape.bytes();
    let mut supplements: Vec<Supplement> = Vec::new();
    if format < 128 {
        return Ok(supplements);
    }
    let count: u8 = tape.take_u8()?;
    let ghost first = tape.cursor() as int;
    let mut i: u8 = 0;
    while i < count
        invariant
            i <= count,
            tape.bytes() == bytes,
            bytes == old(tape).bytes(),
            first == old(tape).cursor() + 1,
            first <= bytes.len(),
            parse_u8(bytes, old(tape).cursor() as int) == Ok::<(u8, int), Error>((count, first)),
            format >= 128,
            tape.cursor() == first + 3 * i,
            tape.cursor() <= bytes.len(),
            supplements@ == Seq::new(i as nat, |k: int| supplement_at(bytes, first + 3 * k)),
        decreases count - i,
    {
        let code: u8 = tape.take_u8()?;
        let sid: u16 = tape.take_u16()?;
        supplements.push(Supplement { code, sid });
        assert(supplements@ =~= Seq::new(
            (i + 1) as nat,
            |k: int| supplement_at(bytes, first + 3 * k),
        ));
        i = i + 1;
    }
    Ok(supplements)
}

impl Encoding {
    /// Read an encoding.
    pub fn read(tape: &mut Tape) -> (result: Result<Encoding, Error>)
        ensures
            final(tape).bytes() == old(tape).bytes(),
            yields_view(
                final(tape).cursor() as int,
                result,
                parse_encoding(old(tape).bytes(), old(tape).cursor() as int),
            ),
    {
        let format: u8 = tape.take_u8()?;
        if format % 128 == 0 {
            let count: u8 = tape.take_u8()?;
            let codes = tape.take_bytes(count as usize)?;
            let supplements = read_supplements(tape, format)?;
            Ok(Encoding::Format0(Format0 { format, codes, supplements }))
        } else if format % 128 == 1 {
            let count: u8 = tape.take_u8()?;
            let ranges = read_ranges(tape, count)?;
            let supplements = read_supplements(tape, format)?;
            Ok(Encoding::Format1(Format1 { format, ranges, supplements }))
        } else {
            Err(Error::MalformedEncoding)
        }
    }

    /// Return the string identifier that the encoding gives the code.
    pub fn get(&self, code: u16) -> (sid: Option<StringID>)
        ensures
            sid == self@.sid(code),
    {
        match self {
            Encoding::Standard => if code < 256 {
                Some(get_standard_encoding(code))
            } else {
                None
            },
            Encoding::Expert => if code < 256 {
                Some(get_expert_encoding(code))
            } else {
                None
            },
            Encoding::Format0(table) => find_supplement(&table.supplements, code),
            Encoding::Format1(table) => find_supplement(&table.supplements, code),
        }
    }

    /// Return the glyph that the encoding gives the code by its codes or
    /// ranges.
    pub fn glyph(&self, code: u16) -> (glyph: Option<GlyphID>)
        ensures
            glyph == self@.glyph(code),
    {
        match self {
            Encoding::Standard => None,
            Encoding::Expert => None,
            Encoding::Format0(table) => find_code(&table.codes, code),
            Encoding::Format1(table) => find_range(&table.ranges, code),
        }
    }
}

/// Return the first glyph that has the code, the codes being those of the
/// glyphs from 1 on.
fn find_code(codes: &Vec<u8>, code: u16) -> (glyph: Option<GlyphID>)
    ensures
        glyph == identifier(glyph_of_code(codes@, code, 1)),
{
    let mut i: usize = 0;
    assert(codes@.skip(0) =~= codes@);
    while i < codes.len()
        invariant
            i <= codes@.len(),
            glyph_of_code(codes@, code, 1) == glyph_of_code(codes@.skip(i as int), code, 1 + i),
        decreases codes@.len() - i,
    {
        assert(codes@.skip(i as int).drop_first() =~= codes@.skip(i + 1));
        if codes[i] as u16 == code {
            return if i < 65535 {
                Some((i + 1) as u16)
            } else {
                None
            };
        }
        i = i + 1;
    }
    None
}

/// Return the glyph of the code in the first range that holds it, the ranges
/// being those of the glyphs from 1 on.
fn find_range(ranges: &Vec<Range1>, code: u16) -> (glyph: Option<GlyphID>)
    ensures
        glyph == identifier(glyph_of_range(ranges@, code, 1)),
{
    let mut i: usize = 0;
    let mut base: usize = 1;
    assert(ranges@.skip(0) =~= ranges@);
    while i < ranges.len()
        invariant
            i <= ranges@.len(),
            1 <= base <= 65535,
            glyph_of_range(ranges@, code, 1) == glyph_of_range(
                ranges@.skip(i as int),
                code,
                base as int,
            ),
        decreases ranges@.len() - i,
    {
        assert(ranges@.skip(i as int).drop_first() =~= ranges@.skip(i + 1));
        let range = ranges[i];
        if range.first as u16 <= code && code <= range.first as u16 + range.left as u16 {
            let glyph: usize = base + (code - range.first as u16) as usize;
            return if glyph <= 65535 {
                Some(glyph as u16)
            } else {
                None
            };
        }
        base = base + range.left as usize + 1;
        i = i + 1;
        if base > 65535 {
            proof {
                lemma_glyph_of_range_grows(ranges@.skip(i as int), code, base as int);
            }
            return None;
        }
    }
    None
}

/// A glyph that is found among ranges is no earlier than the first glyph of
/// the ranges.
pub proof fn lemma_glyph_of_range_grows(ranges: Seq<Range1>, code: u16, base: int)
    ensures
        glyph_of_range(ranges, code, base) matches Some(glyph) ==> glyph >= base,
    decreases ranges.len(),
{
    if ranges.len() > 0 {
        lemma_glyph_of_range_grows(ranges.drop_first(), code, base + ranges[0].left + 1);
    }
}

/// Return the string identifier of the first of the supplements with the code.
fn find_supplement(supplements: &Vec<Supplement>, code: u16) -> (sid: Option<StringID>)
    ensures
        sid == supplement_of(supplements@, code),
{
    let mut i: usize = 0;
    assert(supplements@.skip(0) =~= supplements@);
    while i < supplements.len()
        invariant
            i <= supplements@.len(),
            supplement_of(supplements@, code) == supplement_of(supplements@.skip(i as int), code),
        decreases supplements@.len() - i,
    {
        assert(supplements@.skip(i as int).drop_first() =~= supplements@.skip(i + 1));
        if supplements[i].code as u16 == code {
            return Some(supplements[i].sid);
        }
        i = i + 1;
    }
    None
}

} // verus!
