//! The dictionaries.

use vstd::prelude::*;
use vstd::slice::slice_to_vec;

use crate::compact1::index::{parse_index, Index, IndexModel};
use crate::compact1::operation::{parse_operations, OperationModel, Operations};
use crate::error::Error;
use crate::parsing::{views, yields_view};
use crate::tape::Tape;

verus! {

/// Dictionaries, each in its encoded form.
#[derive(Clone, Debug, Default, PartialEq, Eq)]
pub struct Dictionaries {
    pub index: Index,
}

impl View for Dictionaries {
    type V = IndexModel;

    open spec fn view(&self) -> IndexModel {
        self.index@
    }
}

/// The operations of the first `count` of the dictionaries.
pub open spec fn parse_dictionaries(data: Seq<Seq<u8>>, count: nat) -> Result<
    Seq<Seq<OperationModel>>,
    Error,
>
    decreases count,
{
    if count == 0 {
        Ok(Seq::empty())
    } else {
        match parse_dictionaries(data, (count - 1) as nat) {
            Err(error) => Err(error),
            Ok(dictionaries) => match parse_operations(data[count - 1], 0, Seq::empty()) {
                Err(error) => Err(error),
                Ok((operations, _)) => Ok(dictionaries.push(operations)),
            },
        }
    }
}

/// Once a dictionary is not decoded, no more are.
pub proof fn lemma_dictionaries_fail(data: Seq<Seq<u8>>, i: nat, count: nat)
    requires
        i <= count,
        parse_dictionaries(data, i) is Err,
    ensures
        parse_dictionaries(data, count) == parse_dictionaries(data, i),
    decreases count,
{
    if i < count {
        lemma_dictionaries_fail(data, i, (count - 1) as nat);
    }
}

/// There are as many lists of operations as dictionaries were decoded.
pub proof fn lemma_dictionaries_len(data: Seq<Seq<u8>>, count: nat)
    requires
        parse_dictionaries(data, count) is Ok,
    ensures
        parse_dictionaries(data, count)->Ok_0.len() == count,
    decreases count,
{
    if count > 0 {
        lemma_dictionaries_len(data, (count - 1) as nat);
    }
}

impl Dictionaries {
    /// Read dictionaries.
    pub fn read(tape: &mut Tape) -> (result: Result<Dictionaries, Error>)
        ensures
            final(tape).bytes() == old(tape).bytes(),
            yields_view(
                final(tape).cursor() as int,
                result,
                parse_index(old(tape).bytes(), old(tape).cursor() as int),
            ),
            result matches Ok(dictionaries) ==> dictionaries@.wf(),
    {
        Ok(Dictionaries { index: Index::read(tape)? })
    }

    /// Return the number of dictionaries.
    pub fn len(&self) -> (count: usize)
        ensures
            count == self@.data.len(),
    {
        self.index.len()
    }

    /// Decode the dictionaries into their operations.
    pub fn operations(&self) -> (result: Result<Vec<Operations>, Error>)
        ensures
            match parse_dictionaries(self@.data, self@.data.len()) {
                Ok(dictionaries) => result matches Ok(found) && views(found@) == dictionaries,
                Err(error) => result == Err::<Vec<Operations>, Error>(error),
            },
    {
        let mut dictionaries: Vec<Operations> = Vec::new();
        let mut i: usize = 0;
        assert(views(dictionaries@) =~= Seq::empty());
        while i < self.index.data.len()
            invariant
                i <= self@.data.len(),
                self@.data.len() == self.index.data@.len(),
                parse_dictionaries(self@.data, i as nat) == Ok::<Seq<Seq<OperationModel>>, Error>(
                    views(dictionaries@),
                ),
            decreases self@.data.len() - i,
        {
            let ghost done = views(dictionaries@);
            let mut tape = Tape::new(slice_to_vec(self.index.data[i].as_slice()));
            let operations = match Operations::read(&mut tape) {
                Ok(operations) => operations,
                Err(error) => {
                    proof {
                        lemma_dictionaries_fail(self@.data, (i + 1) as nat, self@.data.len());
                    }
                    return Err(error);
                },
            };
            dictionaries.push(operations);
            assert(views(dictionaries@) =~= done.push(operations@));
            i = i + 1;
        }
        Ok(dictionaries)
    }
}

} // verus!
