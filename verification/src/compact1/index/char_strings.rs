//! The char strings.

use vstd::prelude::*;

use crate::compact1::index::{parse_index, Index, IndexModel};
use crate::error::Error;
use crate::parsing::Parsed;
use crate::tape::Tape;

verus! {

/// The char strings of a font, one for each glyph.
#[derive(Clone, Debug, Default, PartialEq, Eq)]
pub struct CharStrings {
    pub index: Index,
    /// The format of the char strings.
    pub format: i32,
}

/// What char strings hold.
pub struct CharStringsModel {
    pub index: IndexModel,
    pub format: i32,
}

impl View for CharStrings {
    type V = CharStringsModel;

    open spec fn view(&self) -> CharStringsModel {
        CharStringsModel { index: self.index@, format: self.format }
    }
}

/// The char strings of the format at `at`: an index.
pub open spec fn parse_char_strings(bytes: Seq<u8>, at: int, format: i32) -> Parsed<
    CharStringsModel,
> {
    match parse_index(bytes, at) {
        Err(error) => Err(error),
        Ok((index, end)) => Ok((CharStringsModel { index, format }, end)),
    }
}

impl CharStrings {
    /// Read char strings of the format.
    pub fn read_given(tape: &mut Tape, format: i32) -> (result: Result<CharStrings, Error>)
        ensures
            final(tape).bytes() == old(tape).bytes(),
            match parse_char_strings(old(tape).bytes(), old(tape).cursor() as int, format) {
                Ok((value, end)) => (result matches Ok(found) && found@ == value)
                    && final(tape).cursor() == end,
                Err(error) => result == Err::<CharStrings, Error>(error),
            },
            result matches Ok(char_strings) ==> char_strings@.index.wf(),
    {
        Ok(CharStrings { index: Index::read(tape)?, format })
    }

    /// Return the number of char strings, which is the number of glyphs.
    pub fn len(&self) -> (count: usize)
        ensures
            count == self@.index.data.len(),
    {
        self.index.len()
    }
}

} // verus!
