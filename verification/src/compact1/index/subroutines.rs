//! The subroutines.

use vstd::prelude::*;

use crate::compact1::index::{parse_index, Index, IndexModel};
use crate::error::Error;
use crate::parsing::yields_view;
use crate::tape::Tape;

verus! {

/// Subroutines: char strings that other char strings call.
#[derive(Clone, Debug, Default, PartialEq, Eq)]
pub struct Subroutines {
    pub index: Index,
}

impl View for Subroutines {
    type V = IndexModel;

    open spec fn view(&self) -> IndexModel {
        self.index@
    }
}

impl Subroutines {
    /// Read subroutines.
    pub fn read(tape: &mut Tape) -> (result: Result<Subroutines, Error>)
        ensures
            final(tape).bytes() == old(tape).bytes(),
            yields_view(
                final(tape).cursor() as int,
                result,
                parse_index(old(tape).bytes(), old(tape).cursor() as int),
            ),
            result matches Ok(subroutines) ==> subroutines@.wf(),
    {
        Ok(Subroutines { index: Index::read(tape)? })
    }

    /// Create subroutines that hold none.
    pub fn new() -> (subroutines: Subroutines)
        ensures
            subroutines@ == IndexModel::empty(),
    {
        Subroutines { index: Index::default() }
    }

    /// Return the number of subroutines.
    pub fn len(&self) -> (count: usize)
        ensures
            count == self@.data.len(),
    {
        self.index.len()
    }
}

} // verus!
