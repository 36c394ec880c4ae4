//! The names.

use vstd::prelude::*;

use crate::compact1::index::{parse_index, Index, IndexModel};
use crate::error::Error;
use crate::parsing::yields_view;
use crate::tape::Tape;
use crate::text::{decode, text_of};

verus! {

/// The names of the fonts of a font set.
#[derive(Clone, Debug, Default, PartialEq, Eq)]
pub struct Names {
    pub index: Index,
}

impl View for Names {
    type V = IndexModel;

    open spec fn view(&self) -> IndexModel {
        self.index@
    }
}

/// The name at `i`, where there is one that is text.
pub open spec fn name_of(index: IndexModel, i: int) -> Option<Seq<char>> {
    if 0 <= i < index.data.len() {
        text_of(index.data[i])
    } else {
        None
    }
}

impl Names {
    /// Read the names.
    pub fn read(tape: &mut Tape) -> (result: Result<Names, Error>)
        ensures
            final(tape).bytes() == old(tape).bytes(),
            yields_view(
                final(tape).cursor() as int,
                result,
                parse_index(old(tape).bytes(), old(tape).cursor() as int),
            ),
            result matches Ok(names) ==> names@.wf(),
    {
        Ok(Names { index: Index::read(tape)? })
    }

    /// Return the number of names.
    pub fn len(&self) -> (count: usize)
        ensures
            count == self@.data.len(),
    {
        self.index.len()
    }

    /// Return the name at `i`, where there is one that is text.
    pub fn get(&self, i: usize) -> (name: Option<String>)
        ensures
            match name {
                Some(name) => name_of(self@, i as int) == Some(name@),
                None => name_of(self@, i as int) is None,
            },
    {
        match self.index.get(i) {
            Some(chunk) => decode(chunk),
            None => None,
        }
    }
}

} // verus!
