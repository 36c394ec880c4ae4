//! The errors.

use vstd::prelude::*;

use crate::compact1::operator::Operator;

verus! {

/// An error found while decoding.
#[derive(Clone, Copy, Debug, PartialEq, Eq)]
pub enum Error {
    /// The tape ends before a value does, or a jump leads out of the tape.
    Truncated,
    /// The header states a size of less than four bytes.
    MalformedHeader,
    /// An offset size is not between one and four.
    MalformedOffsetSize,
    /// The offsets of an index do not start at one or do not increase.
    MalformedIndex,
    /// A number starts with a reserved byte, or a real number holds a
    /// reserved nibble, does not end or is no decimal number.
    MalformedNumber,
    /// An operator code is not assigned.
    MalformedOperator,
    /// The names and the dictionaries differ in number.
    MalformedFontSet,
    /// An encoding has an unknown format.
    MalformedEncoding,
    /// A char set has an unknown format or describes no glyph at all.
    MalformedCharSet,
    /// A font-dictionary selection has an unknown format or its ranges do not fit.
    MalformedSelection,
    /// A dictionary has no operation with the operator, which is required.
    MissingOperation(Operator),
    /// The operator has fewer operands than are required.
    MissingOperand(Operator),
    /// The operator has more operands than are allowed, or an operand that is
    /// no integer where one is required.
    MalformedOperation(Operator),
}

} // verus!
