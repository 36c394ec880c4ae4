//! The fonts that are keyed by character names.

use vstd::prelude::*;

use crate::compact1::index::{lemma_parse_index, parse_index, IndexModel, Subroutines};
use crate::compact1::operation::{
    integer, parse_operations, required_integers, OperationModel, Operations,
};
use crate::compact1::operator::Operator;
use crate::error::Error;
use crate::parsing::{parse_bytes, parse_jump, yields_view, Parsed};
use crate::tape::Tape;

verus! {

/// What a font dictionary refers to: the operations of its private
/// dictionary, and the local subroutines.
#[derive(Clone, Debug, PartialEq, Eq)]
pub struct Record {
    /// The operations of the private dictionary.
    pub operations: Operations,
    /// The local subroutines.
    pub subroutines: Subroutines,
}

/// What such a record holds.
pub struct RecordModel {
    pub operations: Seq<OperationModel>,
    pub subroutines: IndexModel,
}

impl RecordModel {
    /// Whether the local subroutines form a well-formed index.
    pub open spec fn wf(self) -> bool {
        self.subroutines.wf()
    }
}

impl View for Record {
    type V = RecordModel;

    open spec fn view(&self) -> RecordModel {
        RecordModel { operations: self.operations@, subroutines: self.subroutines@ }
    }
}

/// The local subroutines of a private dictionary that starts at `start`:
/// none where the dictionary has no operation for them; otherwise the index
/// that lies as far from the start of the dictionary as the operation says.
pub open spec fn parse_subroutines(
    bytes: Seq<u8>,
    start: int,
    operations: Seq<OperationModel>,
    at: int,
) -> Parsed<IndexModel> {
    match integer(operations, Operator::Subrs) {
        Err(error) => Err(error),
        Ok(None) => Ok((IndexModel::empty(), at)),
        Ok(Some(offset)) => match parse_jump(bytes, start + offset) {
            Err(error) => Err(error),
            Ok(target) => parse_index(bytes, target),
        },
    }
}

/// The record of the font dictionary in a font set that starts at
/// `position`. The dictionary gives the size of the private dictionary and
/// its offset from the start of the font set. The private dictionary takes
/// exactly the bytes of that size.
pub open spec fn parse_record(bytes: Seq<u8>, position: int, dictionary: Seq<OperationModel>) -> Parsed<
    RecordModel,
> {
    match required_integers(dictionary, Operator::Private) {
        Err(error) => Err(error),
        Ok((size, offset)) => match parse_jump(bytes, position + offset) {
            Err(error) => Err(error),
            Ok(start) => match parse_bytes(bytes, start, size as int) {
                Err(error) => Err(error),
                Ok((chunk, next)) => match parse_operations(chunk, 0, Seq::empty()) {
                    Err(error) => Err(error),
                    Ok((operations, _)) => match parse_subroutines(bytes, start, operations, next) {
                        Err(error) => Err(error),
                        Ok((subroutines, end)) => Ok(
                            (RecordModel { operations, subroutines }, end),
                        ),
                    },
                },
            },
        },
    }
}

/// The local subroutines of a record that is decoded form a well-formed index.
pub proof fn lemma_parse_record(bytes: Seq<u8>, position: int, dictionary: Seq<OperationModel>)
    requires
        parse_record(bytes, position, dictionary) is Ok,
    ensures
        parse_record(bytes, position, dictionary)->Ok_0.0.wf(),
{
    let (size, offset) = required_integers(dictionary, Operator::Private)->Ok_0;
    let start = parse_jump(bytes, position + offset)->Ok_0;
    let (chunk, next) = parse_bytes(bytes, start, size as int)->Ok_0;
    let (operations, _) = parse_operations(chunk, 0, Seq::empty())->Ok_0;
    match integer(operations, Operator::Subrs) {
        Ok(Some(another)) => {
            let target = parse_jump(bytes, start + another)->Ok_0;
            lemma_parse_index(bytes, target);
        },
        _ => {},
    }
}

impl Record {
    /// Read the record of the font dictionary in a font set that starts at
    /// `position`.
    pub fn read_given(tape: &mut Tape, position: u64, dictionary: &Operations) -> (result: Result<
        Record,
        Error,
    >)
        ensures
            final(tape).bytes() == old(tape).bytes(),
            yields_view(
                final(tape).cursor() as int,
                result,
                parse_record(old(tape).bytes(), position as int, dictionary@),
            ),
    {
        let (size, offset) = dictionary.get_required_integers(Operator::Private)?;
        tape.jump_by(position, offset as i64)?;
        let start: u64 = tape.position();
        if size < 0 {
            return Err(Error::Truncated);
        }
        let chunk = tape.take_bytes(size as usize)?;
        let mut inner = Tape::new(chunk);
        let operations = Operations::read(&mut inner)?;
        let subroutines = match operations.get_integer(Operator::Subrs)? {
            None => Subroutines::new(),
            Some(another) => {
                tape.jump_by(start, another as i64)?;
                Subroutines::read(tape)?
            },
        };
        Ok(Record { operations, subroutines })
    }
}

} // verus!
