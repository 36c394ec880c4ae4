//! The header.

use vstd::prelude::*;

use crate::compact1::offset::OffsetSize;
use crate::error::Error;
use crate::parsing::{yields, Parsed};
use crate::tape::Tape;

verus! {

/// A header.
#[derive(Clone, Copy, Debug, PartialEq, Eq)]
pub struct Header {
    /// The major version.
    pub major: u8,
    /// The minor version.
    pub minor: u8,
    /// The number of bytes from the start of the font set to the end of the
    /// header.
    pub header_size: u8,
    /// The size of the offsets that are counted from the start of the font set.
    pub offset_size: OffsetSize,
}

impl Header {
    /// The header at `at`: four bytes, which are the fields in their order. A
    /// header size below four is malformed, and so is an offset size that is
    /// not between one and four.
    pub open spec fn parse(bytes: Seq<u8>, at: int) -> Parsed<Header> {
        if 0 <= at && at + 4 <= bytes.len() {
            if bytes[at + 2] < 4 {
                Err(Error::MalformedHeader)
            } else if !(1 <= bytes[at + 3] <= 4) {
                Err(Error::MalformedOffsetSize)
            } else {
                Ok(
                    (
                        Header {
                            major: bytes[at],
                            minor: bytes[at + 1],
                            header_size: bytes[at + 2],
                            offset_size: bytes[at + 3],
                        },
                        at + 4,
                    ),
                )
            }
        } else {
            Err(Error::Truncated)
        }
    }

    /// Read a header.
    pub fn read(tape: &mut Tape) -> (result: Result<Header, Error>)
        ensures
            final(tape).bytes() == old(tape).bytes(),
            yields(
                final(tape).cursor() as int,
                result,
                Header::parse(old(tape).bytes(), old(tape).cursor() as int),
            ),
    {
        let major: u8 = tape.take_u8()?;
        let minor: u8 = tape.take_u8()?;
        let header_size: u8 = tape.take_u8()?;
        let offset_size: u8 = tape.take_u8()?;
        if header_size < 4 {
            Err(Error::MalformedHeader)
        } else if offset_size < 1 || offset_size > 4 {
            Err(Error::MalformedOffsetSize)
        } else {
            Ok(Header { major, minor, header_size, offset_size })
        }
    }
}

} // verus!
