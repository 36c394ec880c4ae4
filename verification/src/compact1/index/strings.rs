//! The strings.

use vstd::prelude::*;

use crate::compact1::index::standard::{
    get_standard_string, standard_string, NUMBER_OF_STANDARD_STRINGS,
};
use crate::compact1::index::{parse_index, Index, IndexModel};
use crate::compact1::StringID;
use crate::error::Error;
use crate::parsing::yields_view;
use crate::tape::Tape;
use crate::text::{decode, text_of};

verus! {

/// The strings of a font set. Their identifiers follow those of the
/// standard strings.
#[derive(Clone, Debug, Default, PartialEq, Eq)]
pub struct Strings {
    pub index: Index,
}

impl View for Strings {
    type V = IndexModel;

    open spec fn view(&self) -> IndexModel {
        self.index@
    }
}

/// The string with the identifier: a standard string, or the string of the
/// index at the identifier less the number of standard strings, where there is
/// one that is text.
pub open spec fn string_of(index: IndexModel, sid: StringID) -> Option<Seq<char>> {
    if sid < NUMBER_OF_STANDARD_STRINGS {
        Some(standard_string(sid))
    } else if sid - NUMBER_OF_STANDARD_STRINGS < index.data.len() {
        text_of(index.data[sid - NUMBER_OF_STANDARD_STRINGS])
    } else {
        None
    }
}

impl Strings {
    /// Read the strings.
    pub fn read(tape: &mut Tape) -> (result: Result<Strings, Error>)
        ensures
            final(tape).bytes() == old(tape).bytes(),
            yields_view(
                final(tape).cursor() as int,
                result,
                parse_index(old(tape).bytes(), old(tape).cursor() as int),
            ),
            result matches Ok(strings) ==> strings@.wf(),
    {
        Ok(Strings { index: Index::read(tape)? })
    }

    /// Return the number of strings, without the standard strings.
    pub fn len(&self) -> (count: usize)
        ensures
            count == self@.data.len(),
    {
        self.index.len()
    }

    /// Return the string with the identifier, where there is one.
    pub fn get(&self, sid: StringID) -> (string: Option<String>)
        ensures
            match string {
                Some(string) => string_of(self@, sid) == Some(string@),
                None => string_of(self@, sid) is None,
            },
    {
        match get_standard_string(sid) {
            Some(name) => Some(name.to_owned()),
            None => match self.index.get((sid - NUMBER_OF_STANDARD_STRINGS) as usize) {
                Some(chunk) => decode(chunk),
                None => None,
            },
        }
    }
}

/// The identifier zero stands for `.notdef`, whatever the index holds.
pub proof fn lemma_string_zero(index: IndexModel)
    ensures
        string_of(index, 0) == Some(".notdef"@),
{
}

/// An identifier below the number of standard strings stands for a standard
/// string, whatever the index holds.
pub proof fn lemma_string_standard(index: IndexModel, sid: StringID)
    requires
        sid < NUMBER_OF_STANDARD_STRINGS,
    ensures
        string_of(index, sid) == Some(standard_string(sid)),
{
}

/// The identifiers from the number of standard strings on stand for the
/// strings of the index in their order, as far as those are text.
pub proof fn lemma_string_custom(index: IndexModel, k: nat)
    requires
        k < index.data.len(),
        NUMBER_OF_STANDARD_STRINGS + k <= u16::MAX,
    ensures
        string_of(index, (NUMBER_OF_STANDARD_STRINGS + k) as u16) == text_of(index.data[k as int]),
{
}

} // verus!
