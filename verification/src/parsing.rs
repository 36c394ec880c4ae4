//! The vocabulary of the decoders' specifications.

use vstd::prelude::*;

use crate::error::Error;

verus! {

/// What decoding at a position gives: the value and the position after it, or
/// the error.
pub type Parsed<T> = Result<(T, int), Error>;

/// Whether `result`, with the reading position left at `after`, is what
/// `expected` prescribes.
pub open spec fn yields<T>(after: int, result: Result<T, Error>, expected: Parsed<T>) -> bool {
    match expected {
        Ok((value, next)) => result == Ok::<T, Error>(value) && after == next,
        Err(error) => result == Err::<T, Error>(error),
    }
}

/// As `yields`, for a value that is compared by its view.
pub open spec fn yields_view<T: View>(
    after: int,
    result: Result<T, Error>,
    expected: Parsed<T::V>,
) -> bool {
    match expected {
        Ok((value, next)) => (result matches Ok(found) && found@ == value) && after == next,
        Err(error) => result == Err::<T, Error>(error),
    }
}

/// The views of the items of a sequence.
pub open spec fn views<T: View>(items: Seq<T>) -> Seq<T::V> {
    Seq::new(items.len(), |i: int| items[i]@)
}

/// What is decoded after `head`, with `head` put before it.
pub open spec fn prepend<T>(head: Seq<T>, tail: Parsed<Seq<T>>) -> Parsed<Seq<T>> {
    match tail {
        Ok((items, end)) => Ok((head + items, end)),
        Err(error) => Err(error),
    }
}

/// The byte at `at`.
pub open spec fn parse_u8(bytes: Seq<u8>, at: int) -> Parsed<u8> {
    if 0 <= at && at + 1 <= bytes.len() {
        Ok((bytes[at], at + 1))
    } else {
        Err(Error::Truncated)
    }
}

/// The unsigned number that the two bytes at `at` give, the high byte first.
pub open spec fn parse_u16(bytes: Seq<u8>, at: int) -> Parsed<u16> {
    if 0 <= at && at + 2 <= bytes.len() {
        Ok(((bytes[at] as int * 256 + bytes[at + 1] as int) as u16, at + 2))
    } else {
        Err(Error::Truncated)
    }
}

/// The unsigned number that the three bytes at `at` give, the high byte first.
pub open spec fn parse_u24(bytes: Seq<u8>, at: int) -> Parsed<u32> {
    if 0 <= at && at + 3 <= bytes.len() {
        Ok(
            (
                (bytes[at] as int * 65536 + bytes[at + 1] as int * 256 + bytes[at + 2] as int) as u32,
                at + 3,
            ),
        )
    } else {
        Err(Error::Truncated)
    }
}

/// The unsigned number that the four bytes at `at` give, the high byte first.
pub open spec fn parse_u32(bytes: Seq<u8>, at: int) -> Parsed<u32> {
    if 0 <= at && at + 4 <= bytes.len() {
        Ok(
            (
                (bytes[at] as int * 16777216 + bytes[at + 1] as int * 65536 + bytes[at + 2] as int
                    * 256 + bytes[at + 3] as int) as u32,
                at + 4,
            ),
        )
    } else {
        Err(Error::Truncated)
    }
}

/// The number that sixteen bits stand for in two's complement.
pub open spec fn signed16(value: u16) -> int {
    if value < 32768 {
        value as int
    } else {
        value as int - 65536
    }
}

/// The number that thirty-two bits stand for in two's complement.
pub open spec fn signed32(value: u32) -> int {
    if value < 2147483648 {
        value as int
    } else {
        value as int - 4294967296
    }
}

/// The number that was found as an identifier of sixteen bits, where it is
/// small enough to be one.
pub open spec fn identifier(found: Option<int>) -> Option<u16> {
    match found {
        Some(number) => if 0 <= number <= u16::MAX {
            Some(number as u16)
        } else {
            None
        },
        None => None,
    }
}

/// The `count` bytes at `at`.
pub open spec fn parse_bytes(bytes: Seq<u8>, at: int, count: int) -> Parsed<Seq<u8>> {
    if 0 <= at && 0 <= count && at + count <= bytes.len() {
        Ok((bytes.subrange(at, at + count), at + count))
    } else {
        Err(Error::Truncated)
    }
}

/// The position `target`, where it lies within the bytes.
pub open spec fn parse_jump(bytes: Seq<u8>, target: int) -> Result<int, Error> {
    if 0 <= target <= bytes.len() {
        Ok(target)
    } else {
        Err(Error::Truncated)
    }
}

} // verus!
