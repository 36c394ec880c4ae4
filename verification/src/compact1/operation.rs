//! The operations of the dictionaries.

use vstd::prelude::*;

use crate::compact1::number::{lemma_parse_number, parse_number, Number, NumberModel};
use crate::compact1::operator::{Operator, ESCAPE};
use crate::error::Error;
use crate::parsing::{parse_u8, prepend, views, yields, yields_view, Parsed};
use crate::tape::Tape;

verus! {

/// An operation: an operator with its operands.
#[derive(Clone, Debug, PartialEq, Eq)]
pub struct Operation(pub Operator, pub Vec<Number>);

/// The operations of a dictionary in the order in which the dictionary gives
/// them. Where an operator occurs more than once, its last operation counts.
#[derive(Clone, Debug, PartialEq, Eq)]
pub struct Operations(pub Vec<Operation>);

/// What an operation holds.
pub struct OperationModel {
    pub operator: Operator,
    pub operands: Seq<NumberModel>,
}

impl View for Operation {
    type V = OperationModel;

    open spec fn view(&self) -> OperationModel {
        OperationModel { operator: self.0, operands: views(self.1@) }
    }
}

impl View for Operations {
    type V = Seq<OperationModel>;

    open spec fn view(&self) -> Seq<OperationModel> {
        views(self.0@)
    }
}

/// The operators of the operations, each as often as it occurs.
pub open spec fn ordering(operations: Seq<OperationModel>) -> Seq<Operator> {
    Seq::new(operations.len(), |i: int| operations[i].operator)
}

/// The operands of the last operation with the operator, if there is one.
pub open spec fn operands(operations: Seq<OperationModel>, operator: Operator) -> Option<
    Seq<NumberModel>,
>
    decreases operations.len(),
{
    if operations.len() == 0 {
        None
    } else if operations.last().operator == operator {
        Some(operations.last().operands)
    } else {
        operands(operations.drop_last(), operator)
    }
}

/// The operands by operator.
pub open spec fn mapping(operations: Seq<OperationModel>) -> Map<Operator, Seq<NumberModel>> {
    Map::new(
        |operator: Operator| operands(operations, operator) is Some,
        |operator: Operator| operands(operations, operator)->Some_0,
    )
}

/// The operand of the operator, where it has exactly one.
pub open spec fn single(operations: Seq<OperationModel>, operator: Operator) -> Option<
    NumberModel,
> {
    match operands(operations, operator) {
        Some(operands) => if operands.len() == 1 {
            Some(operands[0])
        } else {
            None
        },
        None => None,
    }
}

/// The first two operands of the operator, where it has at least two.
pub open spec fn double(operations: Seq<OperationModel>, operator: Operator) -> Option<
    (NumberModel, NumberModel),
> {
    match operands(operations, operator) {
        Some(operands) => if operands.len() >= 2 {
            Some((operands[0], operands[1]))
        } else {
            None
        },
        None => None,
    }
}

/// The operand of the operator, where the operator occurs: it has to be one
/// integer. No operand at all is a missing operand; more than one, or one
/// that is no integer, is malformed.
pub open spec fn integer(operations: Seq<OperationModel>, operator: Operator) -> Result<
    Option<i32>,
    Error,
> {
    match operands(operations, operator) {
        None => Ok(None),
        Some(operands) => if operands.len() == 0 {
            Err(Error::MissingOperand(operator))
        } else if operands.len() == 1 && operands[0] is Integer {
            Ok(Some(operands[0]->Integer_0))
        } else {
            Err(Error::MalformedOperation(operator))
        },
    }
}

/// The operand of the operator, which has to occur, with one integer.
pub open spec fn required_integer(operations: Seq<OperationModel>, operator: Operator) -> Result<
    i32,
    Error,
> {
    match integer(operations, operator) {
        Err(error) => Err(error),
        Ok(None) => Err(Error::MissingOperation(operator)),
        Ok(Some(value)) => Ok(value),
    }
}

/// The operand of the operator, with one integer, or `default` where the
/// operator does not occur.
pub open spec fn integer_or(
    operations: Seq<OperationModel>,
    operator: Operator,
    default: i32,
) -> Result<i32, Error> {
    match integer(operations, operator) {
        Err(error) => Err(error),
        Ok(None) => Ok(default),
        Ok(Some(value)) => Ok(value),
    }
}

/// The first two operands of the operator, which has to occur, with at least
/// two operands, of which the first two are integers. Fewer than two
/// operands are a missing operand; one of the two that is no integer is
/// malformed.
pub open spec fn required_integers(operations: Seq<OperationModel>, operator: Operator) -> Result<
    (i32, i32),
    Error,
> {
    match operands(operations, operator) {
        None => Err(Error::MissingOperation(operator)),
        Some(operands) => if operands.len() < 2 {
            Err(Error::MissingOperand(operator))
        } else if operands[0] is Integer && operands[1] is Integer {
            Ok((operands[0]->Integer_0, operands[1]->Integer_0))
        } else {
            Err(Error::MalformedOperation(operator))
        },
    }
}

/// The operator at `at`: one byte, or the escape byte and a second byte. A
/// code that is not assigned is malformed.
pub open spec fn parse_operator(bytes: Seq<u8>, at: int) -> Parsed<Operator> {
    match parse_u8(bytes, at) {
        Err(error) => Err(error),
        Ok((first, next)) => if first == 12 {
            match parse_u8(bytes, next) {
                Err(error) => Err(error),
                Ok((second, end)) => match Operator::of((ESCAPE + second) as u16) {
                    Some(operator) => Ok((operator, end)),
                    None => Err(Error::MalformedOperator),
                },
            }
        } else {
            match Operator::of(first as u16) {
                Some(operator) => Ok((operator, next)),
                None => Err(Error::MalformedOperator),
            }
        },
    }
}

/// The operations from `at` to the end of the bytes, after the operands
/// `pending` of the first of them. A byte up to 21 begins an operator, which
/// ends an operation; any other byte begins a number, one more operand.
/// Operands that no operator follows are cut short.
pub open spec fn parse_operations(bytes: Seq<u8>, at: int, pending: Seq<NumberModel>) -> Parsed<
    Seq<OperationModel>,
>
    decreases bytes.len() - at,
    via parse_operations_decreases
{
    if at < 0 || at >= bytes.len() {
        if pending.len() == 0 {
            Ok((Seq::empty(), at))
        } else {
            Err(Error::Truncated)
        }
    } else if bytes[at] <= 21 {
        match parse_operator(bytes, at) {
            Err(error) => Err(error),
            Ok((operator, next)) => prepend(
                seq![OperationModel { operator, operands: pending }],
                parse_operations(bytes, next, Seq::empty()),
            ),
        }
    } else {
        match parse_number(bytes, at) {
            Err(error) => Err(error),
            Ok((number, next)) => parse_operations(bytes, next, pending.push(number)),
        }
    }
}

#[via_fn]
proof fn parse_operations_decreases(bytes: Seq<u8>, at: int, pending: Seq<NumberModel>) {
    if 0 <= at < bytes.len() && bytes[at] > 21 && parse_number(bytes, at) is Ok {
        lemma_parse_number(bytes, at);
    }
}

/// Read an operator.
fn read_operator(tape: &mut Tape) -> (result: Result<Operator, Error>)
    ensures
        final(tape).bytes() == old(tape).bytes(),
        yields(
            final(tape).cursor() as int,
            result,
            parse_operator(old(tape).bytes(), old(tape).cursor() as int),
        ),
{
    let first: u8 = tape.take_u8()?;
    let code: u16 = if first == 12 {
        let second: u8 = tape.take_u8()?;
        ESCAPE + second as u16
    } else {
        first as u16
    };
    match Operator::get(code) {
        Some(operator) => Ok(operator),
        None => Err(Error::MalformedOperator),
    }
}

impl Operations {
    /// Read the operations that the rest of the tape holds.
    pub fn read(tape: &mut Tape) -> (result: Result<Operations, Error>)
        ensures
            final(tape).bytes() == old(tape).bytes(),
            yields_view(
                final(tape).cursor() as int,
                result,
                parse_operations(old(tape).bytes(), old(tape).cursor() as int, Seq::empty()),
            ),
            result matches Ok(operations) ==> ordering(operations@) == operators_in(
                old(tape).bytes(),
                old(tape).cursor() as int,
            ),
    {
        let ghost bytes = tape.bytes();
        let ghost start = tape.cursor() as int;
        let mut entries: Vec<Operation> = Vec::new();
        let mut pending: Vec<Number> = Vec::new();
        proof {
            assert(views(pending@) =~= Seq::empty());
            match parse_operations(bytes, start, Seq::empty()) {
                Ok((rest, _)) => {
                    assert(views(entries@) + rest =~= rest);
                },
                Err(_) => {},
            }
        }
        loop
            invariant
                tape.bytes() == bytes,
                bytes == old(tape).bytes(),
                start == old(tape).cursor(),
                parse_operations(bytes, start, Seq::empty()) == prepend(
                    views(entries@),
                    parse_operations(bytes, tape.cursor() as int, views(pending@)),
                ),
            decreases bytes.len() - tape.cursor(),
        {
            let ghost at = tape.cursor() as int;
            let ghost done = views(entries@);
            let ghost held = views(pending@);
            let first: u8 = match tape.peek_u8() {
                Ok(first) => first,
                Err(_) => {
                    if pending.len() == 0 {
                        let operations = Operations(entries);
                        assert(done + Seq::<OperationModel>::empty() =~= done);
                        proof {
                            lemma_ordering_follows_bytes(bytes, start, Seq::empty());
                        }
                        return Ok(operations);
                    } else {
                        return Err(Error::Truncated);
                    }
                },
            };
            if first <= 21 {
                let operator = read_operator(tape)?;
                let operation = Operation(operator, pending);
                entries.push(operation);
                pending = Vec::new();
                proof {
                    assert(views(pending@) =~= Seq::empty());
                    assert(views(entries@) =~= done.push(operation@));
                    match parse_operations(bytes, tape.cursor() as int, Seq::empty()) {
                        Ok((rest, _)) => {
                            assert(done + (seq![operation@] + rest) =~= done.push(operation@)
                                + rest);
                        },
                        Err(_) => {},
                    }
                }
            } else {
                let number = Number::read(tape)?;
                proof {
                    lemma_parse_number(bytes, at);
                }
                pending.push(number);
                assert(views(pending@) =~= held.push(number@));
            }
        }
    }

    /// Return the number of operations.
    pub fn len(&self) -> (count: usize)
        ensures
            count == self@.len(),
    {
        self.0.len()
    }

    /// Return the operators of the operations, each as often as it occurs.
    pub fn ordering(&self) -> (operators: Vec<Operator>)
        ensures
            operators@ == ordering(self@),
    {
        let mut operators: Vec<Operator> = Vec::new();
        let mut i: usize = 0;
        while i < self.0.len()
            invariant
                i <= self.0@.len(),
                operators@ == ordering(self@).take(i as int),
            decreases self.0@.len() - i,
        {
            operators.push(self.0[i].0);
            assert(operators@ =~= ordering(self@).take(i + 1));
            i = i + 1;
        }
        assert(operators@ =~= ordering(self@));
        operators
    }

    /// Return the operands of the operator, if it occurs.
    pub fn get(&self, operator: Operator) -> (found: Option<&Vec<Number>>)
        ensures
            match found {
                Some(found) => operands(self@, operator) == Some(views(found@)),
                None => operands(self@, operator) is None,
            },
    {
        let mut i: usize = self.0.len();
        assert(self@.take(i as int) =~= self@);
        while i > 0
            invariant
                i <= self.0@.len(),
                operands(self@, operator) == operands(self@.take(i as int), operator),
            decreases i,
        {
            assert(self@.take(i as int).drop_last() =~= self@.take(i - 1));
            if self.0[i - 1].0 == operator {
                return Some(&self.0[i - 1].1);
            }
            i = i - 1;
        }
        None
    }

    /// Return the operand of the operator, where it has exactly one.
    pub fn get_single(&self, operator: Operator) -> (found: Option<&Number>)
        ensures
            match found {
                Some(found) => single(self@, operator) == Some(found@),
                None => single(self@, operator) is None,
            },
    {
        match self.get(operator) {
            Some(operands) => if operands.len() == 1 {
                Some(&operands[0])
            } else {
                None
            },
            None => None,
        }
    }

    /// Return the first two operands of the operator, where it has at least two.
    pub fn get_double(&self, operator: Operator) -> (found: Option<(&Number, &Number)>)
        ensures
            match found {
                Some((first, second)) => double(self@, operator) == Some((first@, second@)),
                None => double(self@, operator) is None,
            },
    {
        match self.get(operator) {
            Some(operands) => if operands.len() >= 2 {
                Some((&operands[0], &operands[1]))
            } else {
                None
            },
            None => None,
        }
    }

    /// Return the operand of the operator, where the operator occurs: it has
    /// to be one integer.
    pub fn get_integer(&self, operator: Operator) -> (result: Result<Option<i32>, Error>)
        ensures
            result == integer(self@, operator),
    {
        match self.get(operator) {
            None => Ok(None),
            Some(operands) => {
                if operands.len() == 0 {
                    Err(Error::MissingOperand(operator))
                } else if operands.len() == 1 {
                    match operands[0].integer() {
                        Some(value) => Ok(Some(value)),
                        None => Err(Error::MalformedOperation(operator)),
                    }
                } else {
                    Err(Error::MalformedOperation(operator))
                }
            },
        }
    }

    /// Return the operand of the operator, which has to occur, with one integer.
    pub fn get_required_integer(&self, operator: Operator) -> (result: Result<i32, Error>)
        ensures
            result == required_integer(self@, operator),
    {
        match self.get_integer(operator)? {
            Some(value) => Ok(value),
            None => Err(Error::MissingOperation(operator)),
        }
    }

    /// Return the operand of the operator, with one integer, or `default`
    /// where the operator does not occur.
    pub fn get_integer_or(&self, operator: Operator, default: i32) -> (result: Result<i32, Error>)
        ensures
            result == integer_or(self@, operator, default),
    {
        match self.get_integer(operator)? {
            Some(value) => Ok(value),
            None => Ok(default),
        }
    }

    /// Return the first two operands of the operator, which has to occur,
    /// with at least two operands, of which the first two are integers.
    pub fn get_required_integers(&self, operator: Operator) -> (result: Result<(i32, i32), Error>)
        ensures
            result == required_integers(self@, operator),
    {
        match self.get(operator) {
            None => Err(Error::MissingOperation(operator)),
            Some(operands) => {
                if operands.len() >= 2 {
                    match (operands[0].integer(), operands[1].integer()) {
                        (Some(first), Some(second)) => Ok((first, second)),
                        _ => Err(Error::MalformedOperation(operator)),
                    }
                } else {
                    Err(Error::MissingOperand(operator))
                }
            },
        }
    }
}

/// The operators that are met from `at` on, up to the end of the bytes or to
/// what is no operator and no number.
pub open spec fn operators_in(bytes: Seq<u8>, at: int) -> Seq<Operator>
    decreases bytes.len() - at,
    via operators_in_decreases
{
    if at < 0 || at >= bytes.len() {
        Seq::empty()
    } else if bytes[at] <= 21 {
        match parse_operator(bytes, at) {
            Err(_) => Seq::empty(),
            Ok((operator, next)) => seq![operator] + operators_in(bytes, next),
        }
    } else {
        match parse_number(bytes, at) {
            Err(_) => Seq::empty(),
            Ok((_, next)) => operators_in(bytes, next),
        }
    }
}

#[via_fn]
proof fn operators_in_decreases(bytes: Seq<u8>, at: int) {
    if 0 <= at < bytes.len() && bytes[at] > 21 && parse_number(bytes, at) is Ok {
        lemma_parse_number(bytes, at);
    }
}

/// The operations that are decoded have, in their order, the operators that
/// are met in the bytes: each as often as it is met, whatever its operands.
pub proof fn lemma_ordering_follows_bytes(bytes: Seq<u8>, at: int, pending: Seq<NumberModel>)
    requires
        parse_operations(bytes, at, pending) is Ok,
    ensures
        ordering(parse_operations(bytes, at, pending)->Ok_0.0) == operators_in(bytes, at),
    decreases bytes.len() - at,
{
    let operations = parse_operations(bytes, at, pending)->Ok_0.0;
    if at < 0 || at >= bytes.len() {
        assert(ordering(operations) =~= operators_in(bytes, at));
    } else if bytes[at] <= 21 {
        let (operator, next) = parse_operator(bytes, at)->Ok_0;
        lemma_ordering_follows_bytes(bytes, next, Seq::empty());
        let rest = parse_operations(bytes, next, Seq::empty())->Ok_0.0;
        assert(ordering(operations) =~= seq![operator] + ordering(rest));
    } else {
        let (number, next) = parse_number(bytes, at)->Ok_0;
        lemma_parse_number(bytes, at);
        lemma_ordering_follows_bytes(bytes, next, pending.push(number));
    }
}

/// The operands of an operator are those of the operation after which the
/// operator does not occur again; an operator without operands of its own
/// does not occur at all.
pub proof fn lemma_operands_are_the_last(operations: Seq<OperationModel>, operator: Operator)
    ensures
        match operands(operations, operator) {
            Some(found) => exists|i: int|
                0 <= i < operations.len() && (#[trigger] operations[i]).operator == operator
                    && operations[i].operands == found && forall|j: int|
                    i < j < operations.len() ==> (#[trigger] operations[j]).operator != operator,
            None => forall|i: int|
                0 <= i < operations.len() ==> (#[trigger] operations[i]).operator != operator,
        },
    decreases operations.len(),
{
    if operations.len() > 0 {
        let last = operations.len() - 1;
        let before = operations.drop_last();
        if operations.last().operator == operator {
            assert(operations[last].operator == operator);
        } else {
            lemma_operands_are_the_last(before, operator);
            match operands(before, operator) {
                Some(found) => {
                    let i = choose|i: int|
                        0 <= i < before.len() && (#[trigger] before[i]).operator == operator
                            && before[i].operands == found && forall|j: int|
                            i < j < before.len() ==> (#[trigger] before[j]).operator != operator;
                    assert(operations[i] == before[i]);
                    assert forall|j: int| i < j < operations.len() implies (
                    #[trigger] operations[j]).operator != operator by {
                        if j < last {
                            assert(operations[j] == before[j]);
                        }
                    }
                },
                None => {
                    assert forall|i: int| 0 <= i < operations.len() implies (
                    #[trigger] operations[i]).operator != operator by {
                        if i < last {
                            assert(operations[i] == before[i]);
                        }
                    }
                },
            }
        }
    }
}

/// Where an operator occurs more than once, its last operation counts: an
/// operation that is added gives its operator its operands, and leaves the
/// other operators theirs.
pub proof fn lemma_last_operation_counts(
    operations: Seq<OperationModel>,
    operation: OperationModel,
    operator: Operator,
)
    ensures
        operands(operations.push(operation), operator) == if operator == operation.operator {
            Some(operation.operands)
        } else {
            operands(operations, operator)
        },
{
    assert(operations.push(operation).drop_last() =~= operations);
}

} // verus!
