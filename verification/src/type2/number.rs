//! The numbers of type-2 char strings.

use vstd::prelude::*;

use crate::error::Error;
use crate::parsing::{parse_u16, parse_u32, parse_u8, signed16, signed32, yields, Parsed};
use crate::tape::Tape;

verus! {

/// A number of a char string.
#[derive(Clone, Copy, Debug, PartialEq, Eq)]
pub enum Number {
    /// An integer.
    Integer(i32),
    /// A fixed-point number with sixteen fractional bits: the number is the
    /// field divided by 65536.
    Fixed(i32),
}

/// The number that is encoded at `at`. The first byte selects the form:
/// 32 to 246 stand for -107 to 107; 247 to 250 and 251 to 254 take one more
/// byte and stand for 108 to 1131 and for -108 to -1131; 28 takes two more
/// bytes, a signed integer; 255 takes four more bytes, a signed fixed-point
/// number. Any other first byte is malformed.
pub open spec fn parse_number(bytes: Seq<u8>, at: int) -> Parsed<Number> {
    match parse_u8(bytes, at) {
        Err(error) => Err(error),
        Ok((first, next)) => if 32 <= first <= 246 {
            Ok((Number::Integer((first - 139) as i32), next))
        } else if 247 <= first <= 250 {
            match parse_u8(bytes, next) {
                Err(error) => Err(error),
                Ok((second, end)) => Ok(
                    (Number::Integer(((first - 247) * 256 + second + 108) as i32), end),
                ),
            }
        } else if 251 <= first <= 254 {
            match parse_u8(bytes, next) {
                Err(error) => Err(error),
                Ok((second, end)) => Ok(
                    (Number::Integer((-(first - 251) * 256 - second - 108) as i32), end),
                ),
            }
        } else if first == 28 {
            match parse_u16(bytes, next) {
                Err(error) => Err(error),
                Ok((value, end)) => Ok((Number::Integer(signed16(value) as i32), end)),
            }
        } else if first == 255 {
            match parse_u32(bytes, next) {
                Err(error) => Err(error),
                Ok((value, end)) => Ok((Number::Fixed(signed32(value) as i32), end)),
            }
        } else {
            Err(Error::MalformedNumber)
        },
    }
}

/// Read a number.
pub fn read(tape: &mut Tape) -> (result: Result<Number, Error>)
    ensures
        final(tape).bytes() == old(tape).bytes(),
        yields(final(tape).cursor() as int, result, parse_number(old(tape).bytes(), old(tape).cursor() as int)),
{
    let first: u8 = tape.take_u8()?;
    if 32 <= first && first <= 246 {
        Ok(Number::Integer(first as i32 - 139))
    } else if 247 <= first && first <= 250 {
        let second: u8 = tape.take_u8()?;
        Ok(Number::Integer((first as i32 - 247) * 256 + second as i32 + 108))
    } else if 251 <= first && first <= 254 {
        let second: u8 = tape.take_u8()?;
        Ok(Number::Integer(-(first as i32 - 251) * 256 - second as i32 - 108))
    } else if first == 28 {
        let value: u16 = tape.take_u16()?;
        Ok(Number::Integer(to_signed16(value)))
    } else if first == 255 {
        let value: u32 = tape.take_u32()?;
        Ok(Number::Fixed(to_signed32(value)))
    } else {
        Err(Error::MalformedNumber)
    }
}

/// Return the number that sixteen bits stand for in two's complement.
pub fn to_signed16(value: u16) -> (number: i32)
    ensures
        number == signed16(value),
{
    if value < 32768 {
        value as i32
    } else {
        value as i32 - 65536
    }
}

/// Return the number that thirty-two bits stand for in two's complement.
pub fn to_signed32(value: u32) -> (number: i32)
    ensures
        number == signed32(value),
{
    if value < 2147483648 {
        value as i32
    } else {
        (value as i64 - 4294967296) as i32
    }
}

} // verus!
