//! The tape: a sequence of bytes with a reading position.

use vstd::prelude::*;
use vstd::slice::slice_subrange;
use vstd::slice::slice_to_vec;

use crate::error::Error;
use crate::parsing::{
    parse_bytes, parse_jump, parse_u16, parse_u24, parse_u32, parse_u8, yields,
};

verus! {

/// A sequence of bytes that is read from a position, which each reading
/// advances and which can be set.
#[derive(Debug)]
pub struct Tape {
    data: Vec<u8>,
    position: usize,
}

impl Tape {
    /// The reading position lies on the tape or at its end.
    #[verifier::type_invariant]
    closed spec fn within(self) -> bool {
        self.position <= self.data.len()
    }

    /// The bytes of the tape.
    pub closed spec fn bytes(&self) -> Seq<u8> {
        self.data@
    }

    /// The reading position.
    pub closed spec fn cursor(&self) -> nat {
        self.position as nat
    }

    /// Create a tape that is read from its start.
    pub fn new(data: Vec<u8>) -> (tape: Tape)
        ensures
            tape.bytes() == data@,
            tape.cursor() == 0,
    {
        Tape { data, position: 0 }
    }

    /// Return the reading position.
    pub fn position(&self) -> (position: u64)
        ensures
            position == self.cursor(),
            position <= self.bytes().len(),
    {
        proof {
            use_type_invariant(self);
        }
        self.position as u64
    }

    /// Return the number of bytes that are left to read.
    pub fn remaining(&self) -> (count: usize)
        ensures
            count == self.bytes().len() - self.cursor(),
            self.bytes().len() <= usize::MAX,
    {
        proof {
            use_type_invariant(self);
        }
        self.data.len() - self.position
    }

    /// Set the reading position. A position beyond the end of the tape is an
    /// error, and the reading position then stays.
    pub fn jump(&mut self, position: u64) -> (result: Result<(), Error>)
        ensures
            final(self).bytes() == old(self).bytes(),
            position <= old(self).bytes().len() ==> result == Ok::<(), Error>(())
                && final(self).cursor() == position,
            position > old(self).bytes().len() ==> result == Err::<(), Error>(Error::Truncated)
                && final(self).cursor() == old(self).cursor(),
    {
        if position <= self.data.len() as u64 {
            self.position = position as usize;
            Ok(())
        } else {
            Err(Error::Truncated)
        }
    }

    /// Set the reading position to `base + offset`. A position before the
    /// start or beyond the end of the tape is an error, and the reading
    /// position then stays.
    pub fn jump_by(&mut self, base: u64, offset: i64) -> (result: Result<(), Error>)
        ensures
            final(self).bytes() == old(self).bytes(),
            match parse_jump(old(self).bytes(), base + offset) {
                Ok(target) => result == Ok::<(), Error>(()) && final(self).cursor() == target,
                Err(error) => result == Err::<(), Error>(error) && final(self).cursor() == old(
                    self,
                ).cursor(),
            },
    {
        let target: i128 = base as i128 + offset as i128;
        if target < 0 || target > u64::MAX as i128 {
            proof {
                use_type_invariant(&*self);
            }
            return Err(Error::Truncated);
        }
        self.jump(target as u64)
    }

    /// Return the byte at the reading position, which stays.
    pub fn peek_u8(&self) -> (result: Result<u8, Error>)
        ensures
            match parse_u8(self.bytes(), self.cursor() as int) {
                Ok((value, _)) => result == Ok::<u8, Error>(value),
                Err(error) => result == Err::<u8, Error>(error),
            },
    {
        if self.remaining() < 1 {
            return Err(Error::Truncated);
        }
        Ok(self.data[self.position])
    }

    /// Read a byte.
    pub fn take_u8(&mut self) -> (result: Result<u8, Error>)
        ensures
            final(self).bytes() == old(self).bytes(),
            yields(final(self).cursor() as int, result, parse_u8(old(self).bytes(), old(self).cursor() as int)),
    {
        if self.remaining() < 1 {
            return Err(Error::Truncated);
        }
        let value: u8 = self.data[self.position];
        self.position = self.position + 1;
        Ok(value)
    }

    /// Read an unsigned number of two bytes, the high byte first.
    pub fn take_u16(&mut self) -> (result: Result<u16, Error>)
        ensures
            final(self).bytes() == old(self).bytes(),
            yields(final(self).cursor() as int, result, parse_u16(old(self).bytes(), old(self).cursor() as int)),
    {
        if self.remaining() < 2 {
            return Err(Error::Truncated);
        }
        let high: u16 = self.data[self.position] as u16;
        let low: u16 = self.data[self.position + 1] as u16;
        self.position = self.position + 2;
        Ok(high * 256 + low)
    }

    /// Read an unsigned number of three bytes, the high byte first.
    pub fn take_u24(&mut self) -> (result: Result<u32, Error>)
        ensures
            final(self).bytes() == old(self).bytes(),
            yields(final(self).cursor() as int, result, parse_u24(old(self).bytes(), old(self).cursor() as int)),
    {
        if self.remaining() < 3 {
            return Err(Error::Truncated);
        }
        let high: u32 = self.data[self.position] as u32;
        let middle: u32 = self.data[self.position + 1] as u32;
        let low: u32 = self.data[self.position + 2] as u32;
        self.position = self.position + 3;
        Ok(high * 65536 + middle * 256 + low)
    }

    /// Read an unsigned number of four bytes, the high byte first.
    pub fn take_u32(&mut self) -> (result: Result<u32, Error>)
        ensures
            final(self).bytes() == old(self).bytes(),
            yields(final(self).cursor() as int, result, parse_u32(old(self).bytes(), old(self).cursor() as int)),
    {
        if self.remaining() < 4 {
            return Err(Error::Truncated);
        }
        let first: u32 = self.data[self.position] as u32;
        let second: u32 = self.data[self.position + 1] as u32;
        let third: u32 = self.data[self.position + 2] as u32;
        let fourth: u32 = self.data[self.position + 3] as u32;
        self.position = self.position + 4;
        Ok(first * 16777216 + second * 65536 + third * 256 + fourth)
    }

    /// Read `count` bytes.
    pub fn take_bytes(&mut self, count: usize) -> (result: Result<Vec<u8>, Error>)
        ensures
            final(self).bytes() == old(self).bytes(),
            match parse_bytes(old(self).bytes(), old(self).cursor() as int, count as int) {
                Ok((value, next)) => (result matches Ok(found) && found@ == value)
                    && final(self).cursor() == next,
                Err(error) => result == Err::<Vec<u8>, Error>(error),
            },
    {
        if self.remaining() < count {
            return Err(Error::Truncated);
        }
        let chunk = slice_subrange(self.data.as_slice(), self.position, self.position + count);
        let value = slice_to_vec(chunk);
        self.position = self.position + count;
        Ok(value)
    }
}

} // verus!
