//! The char sets.

use vstd::prelude::*;

use crate::compact1::predefined::{
    expert_char_set, expert_subset_char_set, get_expert_char_set, get_expert_subset_char_set,
    EXPERT_GLYPHS, EXPERT_SUBSET_GLYPHS, ISO_ADOBE_GLYPHS,
};
use crate::compact1::{GlyphID, StringID};
use crate::error::Error;
use crate::parsing::{identifier, parse_u16, parse_u8, prepend, yields_view, Parsed};
use crate::tape::Tape;

verus! {

/// A char set: the names of the glyphs of a font, as string identifiers.
/// The glyph 0 is `.notdef` in every font, and only a predefined char set
/// lists it.
#[derive(Clone, Debug, PartialEq, Eq)]
pub enum CharSet {
    /// The char set of the ISO Adobe characters.
    ISOAdobe,
    /// The expert char set.
    Expert,
    /// The expert-subset char set.
    ExpertSubset,
    /// The string identifiers of the glyphs, one by one.
    Format0(Format0),
    /// The string identifiers of the glyphs in ranges of up to 256.
    Format1(Format1),
    /// The string identifiers of the glyphs in ranges of up to 65536.
    Format2(Format2),
}

/// A char set of format 0.
#[derive(Clone, Debug, PartialEq, Eq)]
pub struct Format0 {
    /// The string identifier of the glyph 1, of the glyph 2, and so on.
    pub glyphs: Vec<StringID>,
}

/// A char set of format 1.
#[derive(Clone, Debug, PartialEq, Eq)]
pub struct Format1 {
    /// The ranges, the first of which starts at the glyph 1.
    pub ranges: Vec<Range>,
}

/// A char set of format 2.
#[derive(Clone, Debug, PartialEq, Eq)]
pub struct Format2 {
    /// The ranges, the first of which starts at the glyph 1.
    pub ranges: Vec<Range>,
}

/// A range of string identifiers: `first`, and the `left` ones after it.
#[derive(Clone, Copy, Debug, PartialEq, Eq)]
pub struct Range {
    pub first: StringID,
    pub left: u16,
}

/// What a char set holds.
pub enum CharSetModel {
    ISOAdobe,
    Expert,
    ExpertSubset,
    Format0(Seq<StringID>),
    Format1(Seq<Range>),
    Format2(Seq<Range>),
}

impl View for CharSet {
    type V = CharSetModel;

    open spec fn view(&self) -> CharSetModel {
        match self {
            CharSet::ISOAdobe => CharSetModel::ISOAdobe,
            CharSet::Expert => CharSetModel::Expert,
            CharSet::ExpertSubset => CharSetModel::ExpertSubset,
            CharSet::Format0(table) => CharSetModel::Format0(table.glyphs@),
            CharSet::Format1(table) => CharSetModel::Format1(table.ranges@),
            CharSet::Format2(table) => CharSetModel::Format2(table.ranges@),
        }
    }
}

/// The string identifier that the two bytes at `at` give, the high byte first.
pub open spec fn sid_at(bytes: Seq<u8>, at: int) -> StringID {
    (bytes[at] * 256 + bytes[at + 1]) as u16
}

/// The `count` string identifiers at `at`.
pub open spec fn parse_sids(bytes: Seq<u8>, at: int, count: nat) -> Parsed<Seq<StringID>> {
    if 0 <= at && at + 2 * count <= bytes.len() {
        Ok((Seq::new(count, |i: int| sid_at(bytes, at + 2 * i)), at + 2 * count))
    } else {
        Err(Error::Truncated)
    }
}

/// The range at `at`: the first string identifier in two bytes, and the
/// number of those that are left in two bytes where the range is wide, else in
/// one.
pub open spec fn parse_range(bytes: Seq<u8>, at: int, wide: bool) -> Parsed<Range> {
    match parse_u16(bytes, at) {
        Err(error) => Err(error),
        Ok((first, next)) => if wide {
            match parse_u16(bytes, next) {
                Err(error) => Err(error),
                Ok((left, end)) => Ok((Range { first, left }, end)),
            }
        } else {
            match parse_u8(bytes, next) {
                Err(error) => Err(error),
                Ok((left, end)) => Ok((Range { first, left: left as u16 }, end)),
            }
        },
    }
}

/// The number of glyphs that remain of `remaining` after a range.
pub open spec fn after_range(remaining: nat, range: Range) -> nat {
    if remaining > range.left + 1 {
        (remaining - range.left - 1) as nat
    } else {
        0
    }
}

/// The ranges at `at` that are needed for `remaining` glyphs: none where no
/// glyph remains; otherwise a range, and the ranges for the glyphs that remain
/// after it.
pub open spec fn parse_ranges(bytes: Seq<u8>, at: int, wide: bool, remaining: nat) -> Parsed<
    Seq<Range>,
>
    decreases remaining,
{
    if remaining == 0 {
        Ok((Seq::empty(), at))
    } else {
        match parse_range(bytes, at, wide) {
            Err(error) => Err(error),
            Ok((range, next)) => prepend(
                seq![range],
                parse_ranges(bytes, next, wide, after_range(remaining, range)),
            ),
        }
    }
}

/// The char set at `at` of a font with `glyphs` glyphs: the format in one
/// byte, and then, for all glyphs but the glyph 0, their string identifiers
/// in format 0, ranges in format 1, wide ranges in format 2. Another format
/// is malformed, and so is a char set for no glyph at all.
pub open spec fn parse_char_set(bytes: Seq<u8>, at: int, glyphs: nat) -> Parsed<CharSetModel> {
    if glyphs == 0 {
        Err(Error::MalformedCharSet)
    } else {
        match parse_u8(bytes, at) {
            Err(error) => Err(error),
            Ok((format, next)) => if format == 0 {
                match parse_sids(bytes, next, (glyphs - 1) as nat) {
                    Err(error) => Err(error),
                    Ok((sids, end)) => Ok((CharSetModel::Format0(sids), end)),
                }
            } else if format == 1 {
                match parse_ranges(bytes, next, false, (glyphs - 1) as nat) {
                    Err(error) => Err(error),
                    Ok((ranges, end)) => Ok((CharSetModel::Format1(ranges), end)),
                }
            } else if format == 2 {
                match parse_ranges(bytes, next, true, (glyphs - 1) as nat) {
                    Err(error) => Err(error),
                    Ok((ranges, end)) => Ok((CharSetModel::Format2(ranges), end)),
                }
            } else {
                Err(Error::MalformedCharSet)
            },
        }
    }
}

/// The number of string identifiers in the ranges.
pub open spec fn covered(ranges: Seq<Range>) -> int
    decreases ranges.len(),
{
    if ranges.len() == 0 {
        0
    } else {
        ranges[0].left + 1 + covered(ranges.drop_first())
    }
}

/// The string identifier at `k` among those of the ranges.
pub open spec fn sid_of_range(ranges: Seq<Range>, k: int) -> Option<int>
    decreases ranges.len(),
{
    if ranges.len() == 0 {
        None
    } else if k <= ranges[0].left {
        Some(ranges[0].first + k)
    } else {
        sid_of_range(ranges.drop_first(), k - ranges[0].left - 1)
    }
}

impl CharSetModel {
    /// The number of glyphs that the char set names.
    pub open spec fn glyphs(self) -> int {
        match self {
            CharSetModel::ISOAdobe => ISO_ADOBE_GLYPHS as int,
            CharSetModel::Expert => EXPERT_GLYPHS as int,
            CharSetModel::ExpertSubset => EXPERT_SUBSET_GLYPHS as int,
            CharSetModel::Format0(sids) => 1 + sids.len() as int,
            CharSetModel::Format1(ranges) => 1 + covered(ranges),
            CharSetModel::Format2(ranges) => 1 + covered(ranges),
        }
    }

    /// The string identifier of the glyph, where the char set names the
    /// glyph and the identifier is small enough to be one.
    pub open spec fn sid(self, glyph: GlyphID) -> Option<StringID> {
        match self {
            CharSetModel::ISOAdobe => if glyph < ISO_ADOBE_GLYPHS {
                Some(glyph)
            } else {
                None
            },
            CharSetModel::Expert => if glyph < EXPERT_GLYPHS {
                Some(expert_char_set(glyph))
            } else {
                None
            },
            CharSetModel::ExpertSubset => if glyph < EXPERT_SUBSET_GLYPHS {
                Some(expert_subset_char_set(glyph))
            } else {
                None
            },
            CharSetModel::Format0(sids) => if glyph == 0 {
                Some(0)
            } else if glyph - 1 < sids.len() {
                Some(sids[glyph - 1])
            } else {
                None
            },
            CharSetModel::Format1(ranges) => if glyph == 0 {
                Some(0)
            } else {
                identifier(sid_of_range(ranges, glyph - 1))
            },
            CharSetModel::Format2(ranges) => if glyph == 0 {
                Some(0)
            } else {
                identifier(sid_of_range(ranges, glyph - 1))
            },
        }
    }
}

/// The ranges have a string identifier at `k` exactly where `k` is below the
/// number of string identifiers in them.
pub proof fn lemma_sid_of_range(ranges: Seq<Range>, k: int)
    requires
        0 <= k,
    ensures
        sid_of_range(ranges, k) is Some <==> k < covered(ranges),
        sid_of_range(ranges, k) matches Some(sid) ==> sid >= 0,
        covered(ranges) >= 0,
    decreases ranges.len(),
{
    if ranges.len() > 0 {
        if k > ranges[0].left {
            lemma_sid_of_range(ranges.drop_first(), k - ranges[0].left - 1);
        } else {
            lemma_sid_of_range(ranges.drop_first(), 0);
        }
    }
}

/// A char set names no glyphs but those below its number of glyphs, and it
/// names each of these, but for a glyph whose place in a range lies beyond
/// the last string identifier.
pub proof fn lemma_names_its_glyphs(char_set: CharSetModel, glyph: GlyphID)
    ensures
        char_set.sid(glyph) is Some ==> glyph < char_set.glyphs(),
        match char_set {
            CharSetModel::Format1(ranges) => glyph < char_set.glyphs() && char_set.sid(glyph)
                is None ==> glyph > 0 && sid_of_range(ranges, glyph - 1)->Some_0 > u16::MAX,
            CharSetModel::Format2(ranges) => glyph < char_set.glyphs() && char_set.sid(glyph)
                is None ==> glyph > 0 && sid_of_range(ranges, glyph - 1)->Some_0 > u16::MAX,
            _ => glyph < char_set.glyphs() ==> char_set.sid(glyph) is Some,
        },
{
    match char_set {
        CharSetModel::Format1(ranges) => {
            lemma_sid_of_range(ranges, if glyph > 0 { glyph - 1 } else { 0 });
        },
        CharSetModel::Format2(ranges) => {
            lemma_sid_of_range(ranges, if glyph > 0 { glyph - 1 } else { 0 });
        },
        _ => {},
    }
}

/// Ranges that are decoded for `remaining` glyphs name at least as many, and
/// without the last range fewer.
pub proof fn lemma_ranges_cover(bytes: Seq<u8>, at: int, wide: bool, remaining: nat)
    requires
        parse_ranges(bytes, at, wide, remaining) is Ok,
    ensures
        ({
            let ranges = parse_ranges(bytes, at, wide, remaining)->Ok_0.0;
            &&& covered(ranges) >= remaining
            &&& remaining == 0 ==> ranges.len() == 0
            &&& ranges.len() > 0 ==> covered(ranges) - ranges.last().left - 1 < remaining
        }),
    decreases remaining,
{
    if remaining > 0 {
        let (range, next) = parse_range(bytes, at, wide)->Ok_0;
        let after = after_range(remaining, range);
        lemma_ranges_cover(bytes, next, wide, after);
        let rest = parse_ranges(bytes, next, wide, after)->Ok_0.0;
        let ranges = seq![range] + rest;
        assert(ranges.drop_first() =~= rest);
        assert(ranges[0] == range);
        if rest.len() > 0 {
            assert(ranges.last() == rest.last());
        } else {
            assert(covered(rest) == 0);
        }
    }
}

/// A char set that is decoded for a font names the glyphs of the font: in
/// format 0 it names as many glyphs as the font has; in ranges it names at
/// least as many, and without its last range fewer.
pub proof fn lemma_char_set_glyphs(bytes: Seq<u8>, at: int, glyphs: nat)
    requires
        parse_char_set(bytes, at, glyphs) is Ok,
    ensures
        ({
            let char_set = parse_char_set(bytes, at, glyphs)->Ok_0.0;
            &&& glyphs > 0
            &&& char_set.glyphs() >= glyphs
            &&& char_set matches CharSetModel::Format0(_) ==> char_set.glyphs() == glyphs
            &&& char_set matches CharSetModel::Format1(ranges) ==> ranges.len() > 0
                ==> char_set.glyphs() - ranges.last().left - 1 < glyphs
            &&& char_set matches CharSetModel::Format2(ranges) ==> ranges.len() > 0
                ==> char_set.glyphs() - ranges.last().left - 1 < glyphs
            &&& !(char_set is ISOAdobe || char_set is Expert || char_set is ExpertSubset)
        }),
{
    let (format, next) = parse_u8(bytes, at)->Ok_0;
    if format == 1 {
        lemma_ranges_cover(bytes, next, false, (glyphs - 1) as nat);
    } else if format == 2 {
        lemma_ranges_cover(bytes, next, true, (glyphs - 1) as nat);
    }
}

/// Read `count` string identifiers.
fn read_sids(tape: &mut Tape, count: usize) -> (result: Result<Vec<StringID>, Error>)
    requires
        old(tape).cursor() <= old(tape).bytes().len(),
    ensures
        final(tape).bytes() == old(tape).bytes(),
        match parse_sids(old(tape).bytes(), old(tape).cursor() as int, count as nat) {
            Ok((sids, end)) => (result matches Ok(found) && found@ == sids) && final(tape).cursor()
                == end,
            Err(error) => result == Err::<Vec<StringID>, Error>(error),
        },
{
    let ghost bytes = tape.bytes();
    let ghost start = tape.cursor() as int;
    let mut sids: Vec<StringID> = Vec::new();
    let mut i: usize = 0;
    while i < count
        invariant
            i <= count,
            tape.bytes() == bytes,
            bytes == old(tape).bytes(),
            start == old(tape).cursor(),
            tape.cursor() == start + 2 * i,
            tape.cursor() <= bytes.len(),
            sids@ == Seq::new(i as nat, |k: int| sid_at(bytes, start + 2 * k)),
        decreases count - i,
    {
        let sid: u16 = tape.take_u16()?;
        sids.push(sid);
        assert(sids@ =~= Seq::new((i + 1) as nat, |k: int| sid_at(bytes, start + 2 * k)));
        i = i + 1;
    }
    Ok(sids)
}

/// Read a range.
fn read_range(tape: &mut Tape, wide: bool) -> (result: Result<Range, Error>)
    ensures
        final(tape).bytes() == old(tape).bytes(),
        match parse_range(old(tape).bytes(), old(tape).cursor() as int, wide) {
            Ok((range, end)) => result == Ok::<Range, Error>(range) && final(tape).cursor() == end,
            Err(error) => result == Err::<Range, Error>(error),
        },
{
    let first: u16 = tape.take_u16()?;
    let left: u16 = if wide {
        tape.take_u16()?
    } else {
        tape.take_u8()? as u16
    };
    Ok(Range { first, left })
}

/// Read the ranges that are needed for `count` glyphs.
fn read_ranges(tape: &mut Tape, wide: bool, count: usize) -> (result: Result<Vec<Range>, Error>)
    ensures
        final(tape).bytes() == old(tape).bytes(),
        match parse_ranges(old(tape).bytes(), old(tape).cursor() as int, wide, count as nat) {
            Ok((ranges, end)) => (result matches Ok(found) && found@ == ranges)
                && final(tape).cursor() == end,
            Err(error) => result == Err::<Vec<Range>, Error>(error),
        },
{
    let ghost bytes = tape.bytes();
    let ghost start = tape.cursor() as int;
    let mut ranges: Vec<Range> = Vec::new();
    let mut remaining: usize = count;
    proof {
        match parse_ranges(bytes, start, wide, count as nat) {
            Ok((rest, _)) => {
                assert(ranges@ + rest =~= rest);
            },
            Err(_) => {},
        }
    }
    while remaining > 0
        invariant
            tape.bytes() == bytes,
            bytes == old(tape).bytes(),
            start == old(tape).cursor(),
            parse_ranges(bytes, start, wide, count as nat) == prepend(
                ranges@,
                parse_ranges(bytes, tape.cursor() as int, wide, remaining as nat),
            ),
        decreases remaining,
    {
        let ghost done = ranges@;
        let range = read_range(tape, wide)?;
        ranges.push(range);
        let ghost after = after_range(remaining as nat, range);
        remaining = if range.left as usize + 1 >= remaining {
            0
        } else {
            remaining - range.left as usize - 1
        };
        proof {
            assert(after == remaining);
            match parse_ranges(bytes, tape.cursor() as int, wide, after) {
                Ok((rest, _)) => {
                    assert(done + (seq![range] + rest) =~= done.push(range) + rest);
                },
                Err(_) => {},
            }
        }
    }
    assert(ranges@ + Seq::<Range>::empty() =~= ranges@);
    Ok(ranges)
}

/// Return the string identifier at `k` among those of the ranges.
fn find_range(ranges: &Vec<Range>, at: u16) -> (sid: Option<StringID>)
    ensures
        sid == identifier(sid_of_range(ranges@, at as int)),
{
    let mut i: usize = 0;
    let mut k: u16 = at;
    assert(ranges@.skip(0) =~= ranges@);
    while i < ranges.len()
        invariant
            i <= ranges@.len(),
            sid_of_range(ranges@, at as int) == sid_of_range(ranges@.skip(i as int), k as int),
        decreases ranges@.len() - i,
    {
        assert(ranges@.skip(i as int).drop_first() =~= ranges@.skip(i + 1));
        let range = ranges[i];
        if k <= range.left {
            let sid: u32 = range.first as u32 + k as u32;
            return if sid <= 65535 {
                Some(sid as u16)
            } else {
                None
            };
        }
        k = k - range.left - 1;
        i = i + 1;
    }
    None
}

impl CharSet {
    /// Read the char set of a font with `glyphs` glyphs.
    pub fn read_given(tape: &mut Tape, glyphs: usize) -> (result: Result<CharSet, Error>)
        ensures
            final(tape).bytes() == old(tape).bytes(),
            yields_view(
                final(tape).cursor() as int,
                result,
                parse_char_set(old(tape).bytes(), old(tape).cursor() as int, glyphs as nat),
            ),
    {
        if glyphs == 0 {
            return Err(Error::MalformedCharSet);
        }
        let format: u8 = tape.take_u8()?;
        if format == 0 {
            Ok(CharSet::Format0(Format0 { glyphs: read_sids(tape, glyphs - 1)? }))
        } else if format == 1 {
            Ok(CharSet::Format1(Format1 { ranges: read_ranges(tape, false, glyphs - 1)? }))
        } else if format == 2 {
            Ok(CharSet::Format2(Format2 { ranges: read_ranges(tape, true, glyphs - 1)? }))
        } else {
            Err(Error::MalformedCharSet)
        }
    }

    /// Return the string identifier of the glyph.
    pub fn get(&self, glyph: GlyphID) -> (sid: Option<StringID>)
        ensures
            sid == self@.sid(glyph),
    {
        match self {
            CharSet::ISOAdobe => if glyph < ISO_ADOBE_GLYPHS {
                Some(glyph)
            } else {
                None
            },
            CharSet::Expert => if glyph < EXPERT_GLYPHS {
                Some(get_expert_char_set(glyph))
            } else {
                None
            },
            CharSet::ExpertSubset => if glyph < EXPERT_SUBSET_GLYPHS {
                Some(get_expert_subset_char_set(glyph))
            } else {
                None
            },
            CharSet::Format0(table) => if glyph == 0 {
                Some(0)
            } else if (glyph as usize - 1) < table.glyphs.len() {
                Some(table.glyphs[glyph as usize - 1])
            } else {
                None
            },
            CharSet::Format1(table) => if glyph == 0 {
                Some(0)
            } else {
                find_range(&table.ranges, glyph - 1)
            },
            CharSet::Format2(table) => if glyph == 0 {
                Some(0)
            } else {
                find_range(&table.ranges, glyph - 1)
            },
        }
    }
}

} // verus!
