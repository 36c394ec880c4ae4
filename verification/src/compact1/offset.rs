//! The offsets.

use vstd::prelude::*;

use crate::error::Error;
use crate::parsing::{parse_u16, parse_u24, parse_u32, parse_u8, yields, Parsed};
use crate::tape::Tape;

verus! {

/// The number of bytes of an offset: one to four.
pub type OffsetSize = u8;

/// An offset.
#[derive(Clone, Copy, Debug, PartialEq, Eq, Structural)]
pub struct Offset(pub u32);

impl From<Offset> for u32 {
    /// Return the number that the offset holds.
    fn from(offset: Offset) -> (value: u32) {
        offset.0
    }
}

impl vstd::std_specs::convert::FromSpecImpl<Offset> for u32 {
    open spec fn obeys_from_spec() -> bool {
        true
    }

    open spec fn from_spec(offset: Offset) -> u32 {
        offset.0
    }
}

impl Offset {
    /// The offset of `size` bytes at `at`, the high byte first. A size that
    /// is not between one and four is malformed.
    pub open spec fn parse(bytes: Seq<u8>, at: int, size: OffsetSize) -> Parsed<Offset> {
        if size == 1 {
            match parse_u8(bytes, at) {
                Ok((value, next)) => Ok((Offset(value as u32), next)),
                Err(error) => Err(error),
            }
        } else if size == 2 {
            match parse_u16(bytes, at) {
                Ok((value, next)) => Ok((Offset(value as u32), next)),
                Err(error) => Err(error),
            }
        } else if size == 3 {
            match parse_u24(bytes, at) {
                Ok((value, next)) => Ok((Offset(value), next)),
                Err(error) => Err(error),
            }
        } else if size == 4 {
            match parse_u32(bytes, at) {
                Ok((value, next)) => Ok((Offset(value), next)),
                Err(error) => Err(error),
            }
        } else {
            Err(Error::MalformedOffsetSize)
        }
    }

    /// Read an offset of `size` bytes.
    pub fn read(tape: &mut Tape, size: OffsetSize) -> (result: Result<Offset, Error>)
        ensures
            final(tape).bytes() == old(tape).bytes(),
            yields(
                final(tape).cursor() as int,
                result,
                Offset::parse(old(tape).bytes(), old(tape).cursor() as int, size),
            ),
    {
        if size == 1 {
            let value: u8 = tape.take_u8()?;
            Ok(Offset(value as u32))
        } else if size == 2 {
            let value: u16 = tape.take_u16()?;
            Ok(Offset(value as u32))
        } else if size == 3 {
            let value: u32 = tape.take_u24()?;
            Ok(Offset(value))
        } else if size == 4 {
            let value: u32 = tape.take_u32()?;
            Ok(Offset(value))
        } else {
            Err(Error::MalformedOffsetSize)
        }
    }

    /// An offset that was read takes `size` bytes, and `size` is between one
    /// and four.
    pub proof fn lemma_parse(bytes: Seq<u8>, at: int, size: OffsetSize)
        requires
            Offset::parse(bytes, at, size) is Ok,
        ensures
            1 <= size <= 4,
            0 <= at,
            Offset::parse(bytes, at, size)->Ok_0.1 == at + size,
            at + size <= bytes.len(),
    {
    }
}

} // verus!
