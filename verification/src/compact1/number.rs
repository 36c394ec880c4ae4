//! The numbers of the dictionaries.

use vstd::prelude::*;

use crate::compact1::decimal::{
    advance, is_decimal, lemma_accepts_decimal, state_after, AT_START, END, EXPONENT,
    IN_EXPONENT, IN_FRACTION, IN_INTEGER, MINUS, NEGATIVE_EXPONENT, POINT, RESERVED,
};
use crate::error::Error;
use crate::parsing::{
    parse_u16, parse_u32, parse_u8, prepend, signed16, signed32, yields_view, Parsed,
};
use crate::tape::Tape;
use crate::type2::number::{to_signed16, to_signed32};

verus! {

/// A real number, held as it is written in decimal: a minus sign or none,
/// digits with at most one point among them, and an exponent or none, which
/// is `e`, a minus sign or none, and digits.
#[derive(Clone, Debug, PartialEq, Eq)]
pub struct Real {
    /// The characters.
    pub text: Vec<u8>,
}

/// A number.
#[derive(Clone, Debug, PartialEq, Eq)]
pub enum Number {
    /// An integer.
    Integer(i32),
    /// A real number.
    Real(Real),
}

/// What a number holds.
pub enum NumberModel {
    Integer(i32),
    Real(Seq<u8>),
}

impl View for Number {
    type V = NumberModel;

    open spec fn view(&self) -> NumberModel {
        match self {
            Number::Integer(value) => NumberModel::Integer(*value),
            Number::Real(value) => NumberModel::Real(value.text@),
        }
    }
}

/// The nibble `k` of the nibbles that start at the byte `start`: the high
/// half of a byte comes before its low half.
pub open spec fn nibble(bytes: Seq<u8>, start: int, k: nat) -> u8 {
    if k % 2 == 0 {
        bytes[start + k / 2] / 16
    } else {
        bytes[start + k / 2] % 16
    }
}

/// The nibbles from nibble `k` on up to the one that ends the number, and the
/// position after the byte that holds that one. A reserved nibble is
/// malformed, and so are nibbles that no nibble ends.
pub open spec fn parse_nibbles(bytes: Seq<u8>, start: int, k: nat) -> Parsed<Seq<u8>>
    decreases 2 * (bytes.len() - start) - k,
{
    if start < 0 || start + k / 2 >= bytes.len() {
        Err(Error::MalformedNumber)
    } else if nibble(bytes, start, k) == END {
        Ok((Seq::empty(), start + k / 2 + 1))
    } else if nibble(bytes, start, k) == RESERVED {
        Err(Error::MalformedNumber)
    } else {
        prepend(seq![nibble(bytes, start, k)], parse_nibbles(bytes, start, k + 1))
    }
}

/// The characters that a nibble stands for.
pub open spec fn characters(nibble: u8) -> Seq<u8> {
    if nibble <= 9 {
        seq![(48 + nibble) as u8]
    } else if nibble == POINT {
        seq![46u8]
    } else if nibble == EXPONENT {
        seq![101u8]
    } else if nibble == NEGATIVE_EXPONENT {
        seq![101u8, 45u8]
    } else if nibble == MINUS {
        seq![45u8]
    } else {
        Seq::empty()
    }
}

/// The characters that the nibbles stand for.
pub open spec fn decimal_text(nibbles: Seq<u8>) -> Seq<u8>
    decreases nibbles.len(),
{
    if nibbles.len() == 0 {
        Seq::empty()
    } else {
        decimal_text(nibbles.drop_last()) + characters(nibbles.last())
    }
}

/// The real number whose nibbles start at the byte `at`. Nibbles that write
/// no decimal number are malformed.
pub open spec fn parse_real(bytes: Seq<u8>, at: int) -> Parsed<NumberModel> {
    match parse_nibbles(bytes, at, 0) {
        Err(error) => Err(error),
        Ok((nibbles, end)) => if is_decimal(nibbles) {
            Ok((NumberModel::Real(decimal_text(nibbles)), end))
        } else {
            Err(Error::MalformedNumber)
        },
    }
}

/// The number that is encoded at `at`. The first byte selects the form:
/// 32 to 246 stand for -107 to 107; 247 to 250 and 251 to 254 take one more
/// byte and stand for 108 to 1131 and for -108 to -1131; 28 and 29 take two
/// and four more bytes, a signed integer; 30 is followed by the nibbles of a
/// real number. Any other first byte is malformed.
pub open spec fn parse_number(bytes: Seq<u8>, at: int) -> Parsed<NumberModel> {
    match parse_u8(bytes, at) {
        Err(error) => Err(error),
        Ok((first, next)) => if 32 <= first <= 246 {
            Ok((NumberModel::Integer((first - 139) as i32), next))
        } else if 247 <= first <= 250 {
            match parse_u8(bytes, next) {
                Err(error) => Err(error),
                Ok((second, end)) => Ok(
                    (NumberModel::Integer(((first - 247) * 256 + second + 108) as i32), end),
                ),
            }
        } else if 251 <= first <= 254 {
            match parse_u8(bytes, next) {
                Err(error) => Err(error),
                Ok((second, end)) => Ok(
                    (NumberModel::Integer((-(first - 251) * 256 - second - 108) as i32), end),
                ),
            }
        } else if first == 28 {
            match parse_u16(bytes, next) {
                Err(error) => Err(error),
                Ok((value, end)) => Ok((NumberModel::Integer(signed16(value) as i32), end)),
            }
        } else if first == 29 {
            match parse_u32(bytes, next) {
                Err(error) => Err(error),
                Ok((value, end)) => Ok((NumberModel::Integer(signed32(value) as i32), end)),
            }
        } else if first == 30 {
            parse_real(bytes, next)
        } else {
            Err(Error::MalformedNumber)
        },
    }
}

/// An integer and a real number are different numbers, whatever they hold.
pub proof fn lemma_integer_is_no_real(value: i32, text: Seq<u8>)
    ensures
        NumberModel::Integer(value) != NumberModel::Real(text),
{
}

/// A number that is decoded takes at least one byte and ends within the bytes.
pub proof fn lemma_parse_number(bytes: Seq<u8>, at: int)
    requires
        parse_number(bytes, at) is Ok,
    ensures
        at < parse_number(bytes, at)->Ok_0.1 <= bytes.len(),
{
    let (first, next) = parse_u8(bytes, at)->Ok_0;
    if first == 30 {
        lemma_parse_nibbles(bytes, next, 0);
    }
}

/// Nibbles that are decoded end after their byte `start` and within the bytes.
pub proof fn lemma_parse_nibbles(bytes: Seq<u8>, start: int, k: nat)
    requires
        parse_nibbles(bytes, start, k) is Ok,
    ensures
        start < parse_nibbles(bytes, start, k)->Ok_0.1 <= bytes.len(),
    decreases 2 * (bytes.len() - start) - k,
{
    if nibble(bytes, start, k) != END {
        lemma_parse_nibbles(bytes, start, k + 1);
    }
}

/// Append the characters that a nibble stands for.
fn write(text: &mut Vec<u8>, nibble: u8)
    ensures
        final(text)@ == old(text)@ + characters(nibble),
{
    if nibble <= 9 {
        text.push(48 + nibble);
    } else if nibble == POINT {
        text.push(46);
    } else if nibble == EXPONENT {
        text.push(101);
    } else if nibble == NEGATIVE_EXPONENT {
        text.push(101);
        text.push(45);
    } else if nibble == MINUS {
        text.push(45);
    }
    assert(text@ =~= old(text)@ + characters(nibble));
}

impl Real {
    /// Return the real number that the nibbles write, if they write a
    /// decimal number.
    pub fn from_nibbles(nibbles: &Vec<u8>) -> (number: Option<Real>)
        ensures
            match number {
                Some(number) => is_decimal(nibbles@) && number.text@ == decimal_text(nibbles@),
                None => !is_decimal(nibbles@),
            },
    {
        let mut state: u8 = AT_START;
        let mut text: Vec<u8> = Vec::new();
        let mut i: usize = 0;
        while i < nibbles.len()
            invariant
                i <= nibbles@.len(),
                state == state_after(nibbles@.take(i as int)),
                text@ == decimal_text(nibbles@.take(i as int)),
            decreases nibbles@.len() - i,
        {
            assert(nibbles@.take(i + 1).drop_last() =~= nibbles@.take(i as int));
            state = advance(state, nibbles[i]);
            write(&mut text, nibbles[i]);
            i = i + 1;
        }
        proof {
            assert(nibbles@.take(i as int) =~= nibbles@);
            lemma_accepts_decimal(nibbles@);
        }
        if state == IN_INTEGER || state == IN_FRACTION || state == IN_EXPONENT {
            Some(Real { text })
        } else {
            None
        }
    }
}

/// Read the nibbles of a real number.
fn read_nibbles(tape: &mut Tape) -> (result: Result<Vec<u8>, Error>)
    ensures
        final(tape).bytes() == old(tape).bytes(),
        match parse_nibbles(old(tape).bytes(), old(tape).cursor() as int, 0) {
            Ok((nibbles, end)) => (result matches Ok(found) && found@ == nibbles)
                && final(tape).cursor() == end,
            Err(error) => result == Err::<Vec<u8>, Error>(error),
        },
{
    let ghost bytes = tape.bytes();
    let ghost start = tape.cursor() as int;
    let mut nibbles: Vec<u8> = Vec::new();
    proof {
        match parse_nibbles(bytes, start, 0) {
            Ok((rest, _)) => {
                assert(nibbles@ + rest =~= rest);
            },
            Err(_) => {},
        }
    }
    loop
        invariant
            tape.bytes() == bytes,
            bytes == old(tape).bytes(),
            start == old(tape).cursor(),
            start <= tape.cursor(),
            parse_nibbles(bytes, start, 0) == prepend(
                nibbles@,
                parse_nibbles(bytes, start, (2 * (tape.cursor() - start)) as nat),
            ),
        decreases bytes.len() - tape.cursor(),
    {
        let ghost k = (2 * (tape.cursor() - start)) as nat;
        let ghost before = nibbles@;
        let byte: u8 = match tape.take_u8() {
            Ok(byte) => byte,
            Err(_) => {
                return Err(Error::MalformedNumber);
            },
        };
        assert(start + k / 2 == tape.cursor() - 1);
        let high: u8 = byte / 16;
        assert(high == nibble(bytes, start, k));
        if high == END {
            assert(before + Seq::<u8>::empty() =~= before);
            return Ok(nibbles);
        }
        if high == RESERVED {
            return Err(Error::MalformedNumber);
        }
        nibbles.push(high);
        let low: u8 = byte % 16;
        assert(start + (k + 1) / 2 == tape.cursor() - 1);
        assert(low == nibble(bytes, start, k + 1));
        assert(parse_nibbles(bytes, start, k) == prepend(
            seq![high],
            parse_nibbles(bytes, start, k + 1),
        ));
        proof {
            match parse_nibbles(bytes, start, k + 1) {
                Ok((rest, _)) => {
                    assert(before + (seq![high] + rest) =~= before.push(high) + rest);
                },
                Err(_) => {},
            }
        }
        if low == END {
            assert(before.push(high) + Seq::<u8>::empty() =~= before.push(high));
            return Ok(nibbles);
        }
        if low == RESERVED {
            return Err(Error::MalformedNumber);
        }
        nibbles.push(low);
        proof {
            assert(parse_nibbles(bytes, start, k + 1) == prepend(
                seq![low],
                parse_nibbles(bytes, start, k + 2),
            ));
            match parse_nibbles(bytes, start, k + 2) {
                Ok((rest, _)) => {
                    assert(before.push(high) + (seq![low] + rest) =~= before.push(high).push(low)
                        + rest);
                },
                Err(_) => {},
            }
        }
    }
}

impl Number {
    /// Read a number.
    pub fn read(tape: &mut Tape) -> (result: Result<Number, Error>)
        ensures
            final(tape).bytes() == old(tape).bytes(),
            yields_view(
                final(tape).cursor() as int,
                result,
                parse_number(old(tape).bytes(), old(tape).cursor() as int),
            ),
    {
        let first: u8 = tape.take_u8()?;
        if 32 <= first && first <= 246 {
            Ok(Number::Integer(first as i32 - 139))
        } else if 247 <= first && first <= 250 {
            let second: u8 = tape.take_u8()?;
            Ok(Number::Integer((first as i32 - 247) * 256 + second as i32 + 108))
        } else if 251 <= first && first <= 254 {
            let second: u8 = tape.take_u8()?;
            Ok(Number::Integer(-(first as i32 - 251) * 256 - second as i32 - 108))
        } else if first == 28 {
            let value: u16 = tape.take_u16()?;
            Ok(Number::Integer(to_signed16(value)))
        } else if first == 29 {
            let value: u32 = tape.take_u32()?;
            Ok(Number::Integer(to_signed32(value)))
        } else if first == 30 {
            let nibbles = read_nibbles(tape)?;
            match Real::from_nibbles(&nibbles) {
                Some(number) => Ok(Number::Real(number)),
                None => Err(Error::MalformedNumber),
            }
        } else {
            Err(Error::MalformedNumber)
        }
    }

    /// Return the number where it is an integer.
    pub fn integer(&self) -> (value: Option<i32>)
        ensures
            value == match self@ {
                NumberModel::Integer(value) => Some(value),
                NumberModel::Real(_) => None,
            },
    {
        match self {
            Number::Integer(value) => Some(*value),
            Number::Real(_) => None,
        }
    }
}

} // verus!
