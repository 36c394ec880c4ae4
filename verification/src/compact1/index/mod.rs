//! The indices.

use vstd::prelude::*;

pub mod char_strings;
pub mod dictionaries;
pub mod names;
pub mod standard;
pub mod strings;
pub mod subroutines;

pub use self::char_strings::CharStrings;
pub use self::dictionaries::Dictionaries;
pub use self::names::Names;
pub use self::strings::Strings;
pub use self::subroutines::Subroutines;

use crate::compact1::offset::{Offset, OffsetSize};
use crate::error::Error;
use crate::parsing::{parse_bytes, parse_u16, parse_u8, yields_view, Parsed};
use crate::tape::Tape;

verus! {

/// An index: a list of byte strings, stored as their number, the size of the
/// offsets, the offsets and the strings, one after another.
#[derive(Clone, Debug, PartialEq, Eq)]
pub struct Index {
    /// The number of byte strings.
    pub count: u16,
    /// The size of the offsets.
    pub offset_size: OffsetSize,
    /// The offsets, one more than there are byte strings. They count from the
    /// byte before the first byte string.
    pub offsets: Vec<Offset>,
    /// The byte strings.
    pub data: Vec<Vec<u8>>,
}

/// What an index holds.
pub struct IndexModel {
    pub count: u16,
    pub offset_size: OffsetSize,
    pub offsets: Seq<Offset>,
    pub data: Seq<Seq<u8>>,
}

impl View for Index {
    type V = IndexModel;

    open spec fn view(&self) -> IndexModel {
        IndexModel {
            count: self.count,
            offset_size: self.offset_size,
            offsets: self.offsets@,
            data: Seq::new(self.data@.len(), |i: int| self.data@[i]@),
        }
    }
}

/// The number of bytes in all of the byte strings together.
pub open spec fn total_size(data: Seq<Seq<u8>>) -> int
    decreases data.len(),
{
    if data.len() == 0 {
        0
    } else {
        total_size(data.drop_last()) + data.last().len()
    }
}

impl IndexModel {
    /// The index without byte strings. It is stored as its number alone, so
    /// it has no offsets, and no size of offsets.
    pub open spec fn empty() -> IndexModel {
        IndexModel { count: 0, offset_size: 0, offsets: Seq::empty(), data: Seq::empty() }
    }

    /// Whether the parts of the index fit together: an index without byte
    /// strings is the empty one; otherwise the first offset is one, the
    /// offsets increase, and each byte string is as long as its two offsets
    /// are apart.
    pub open spec fn wf(self) -> bool {
        if self.count == 0 {
            self == IndexModel::empty()
        } else {
            &&& 1 <= self.offset_size <= 4
            &&& self.offsets.len() == self.count + 1
            &&& self.data.len() == self.count
            &&& self.offsets[0].0 == 1
            &&& forall|i: int, j: int|
                0 <= i < j <= self.count ==> self.offsets[i].0 < self.offsets[j].0
            &&& forall|i: int|
                0 <= i < self.count ==> (#[trigger] self.data[i]).len() == self.offsets[i + 1].0
                    - self.offsets[i].0
        }
    }

    /// The byte strings of a well-formed index take as many bytes as the
    /// offsets at the two ends of the string at `k - 1` and of the first one say.
    proof fn lemma_size_of_prefix(self, k: int)
        requires
            self.wf(),
            self.count > 0,
            0 <= k <= self.count,
        ensures
            total_size(self.data.take(k)) == self.offsets[k].0 - 1,
        decreases k,
    {
        if k > 0 {
            self.lemma_size_of_prefix(k - 1);
            assert(self.data.take(k).drop_last() =~= self.data.take(k - 1));
            assert(self.data.take(k).last() == self.data[k - 1]);
        }
    }

    /// In a well-formed index that holds byte strings, the first offset is
    /// one, and the last offset is one more than the number of bytes in all of
    /// the byte strings. The empty index holds no bytes.
    pub proof fn lemma_size(self)
        requires
            self.wf(),
        ensures
            self.count > 0 ==> self.offsets[0].0 == 1 && total_size(self.data)
                == self.offsets[self.count as int].0 - 1,
            self.count == 0 ==> total_size(self.data) == 0,
    {
        if self.count > 0 {
            self.lemma_size_of_prefix(self.count as int);
            assert(self.data.take(self.count as int) =~= self.data);
        }
    }
}

/// The first `count` offsets of size `size` at `at`. The first offset that
/// is not one, or that is not greater than the one before it, is malformed.
pub open spec fn parse_offsets(bytes: Seq<u8>, at: int, size: OffsetSize, count: nat) -> Parsed<
    Seq<Offset>,
>
    decreases count,
{
    if count == 0 {
        Ok((Seq::empty(), at))
    } else {
        match parse_offsets(bytes, at, size, (count - 1) as nat) {
            Err(error) => Err(error),
            Ok((offsets, next)) => match Offset::parse(bytes, next, size) {
                Err(error) => Err(error),
                Ok((offset, end)) => if (count == 1 && offset.0 != 1) || (count > 1 && offset.0
                    <= offsets.last().0) {
                    Err(Error::MalformedIndex)
                } else {
                    Ok((offsets.push(offset), end))
                },
            },
        }
    }
}

/// The byte strings that lie from `base` on as the offsets say.
pub open spec fn slices(bytes: Seq<u8>, base: int, offsets: Seq<Offset>) -> Seq<Seq<u8>> {
    Seq::new(
        (offsets.len() - 1) as nat,
        |i: int| bytes.subrange(base + offsets[i].0 - 1, base + offsets[i + 1].0 - 1),
    )
}

/// The index at `at`: the number of byte strings in two bytes; if it is
/// zero, nothing more; otherwise the size of the offsets in one byte, one more
/// offset than there are byte strings, and the byte strings.
pub open spec fn parse_index(bytes: Seq<u8>, at: int) -> Parsed<IndexModel> {
    match parse_u16(bytes, at) {
        Err(error) => Err(error),
        Ok((count, next)) => if count == 0 {
            Ok((IndexModel::empty(), next))
        } else {
            match parse_u8(bytes, next) {
                Err(error) => Err(error),
                Ok((size, first)) => match parse_offsets(bytes, first, size, (count + 1) as nat) {
                    Err(error) => Err(error),
                    Ok((offsets, base)) => match parse_bytes(
                        bytes,
                        base,
                        offsets[count as int].0 - 1,
                    ) {
                        Err(error) => Err(error),
                        Ok((_, end)) => Ok(
                            (
                                IndexModel {
                                    count,
                                    offset_size: size,
                                    offsets,
                                    data: slices(bytes, base, offsets),
                                },
                                end,
                            ),
                        ),
                    },
                },
            }
        }
    }
}

/// Once an offset is not read, no more are.
pub proof fn lemma_offsets_fail(bytes: Seq<u8>, at: int, size: OffsetSize, i: nat, count: nat)
    requires
        i <= count,
        parse_offsets(bytes, at, size, i) is Err,
    ensures
        parse_offsets(bytes, at, size, count) == parse_offsets(bytes, at, size, i),
    decreases count,
{
    if i < count {
        lemma_offsets_fail(bytes, at, size, i, (count - 1) as nat);
    }
}

/// Offsets that are read are as many as were asked for, start at one,
/// increase, and lie within the bytes.
pub proof fn lemma_offsets(bytes: Seq<u8>, at: int, size: OffsetSize, count: nat)
    requires
        parse_offsets(bytes, at, size, count) is Ok,
        0 <= at <= bytes.len(),
    ensures
        ({
            let (offsets, end) = parse_offsets(bytes, at, size, count)->Ok_0;
            &&& offsets.len() == count
            &&& at <= end <= bytes.len()
            &&& count > 0 ==> 1 <= size <= 4 && offsets[0].0 == 1
            &&& forall|i: int, j: int| 0 <= i < j < count ==> offsets[i].0 < offsets[j].0
        }),
    decreases count,
{
    if count > 0 {
        lemma_offsets(bytes, at, size, (count - 1) as nat);
        let (offsets, next) = parse_offsets(bytes, at, size, (count - 1) as nat)->Ok_0;
        Offset::lemma_parse(bytes, next, size);
    }
}

/// An index that is read is well-formed.
pub proof fn lemma_parse_index(bytes: Seq<u8>, at: int)
    requires
        parse_index(bytes, at) is Ok,
    ensures
        parse_index(bytes, at)->Ok_0.0.wf(),
        at + 2 <= parse_index(bytes, at)->Ok_0.1 <= bytes.len(),
{
    let (count, next) = parse_u16(bytes, at)->Ok_0;
    if count > 0 {
        let (size, first) = parse_u8(bytes, next)->Ok_0;
        lemma_offsets(bytes, first, size, (count + 1) as nat);
    }
}

impl Index {
    /// Read an index.
    pub fn read(tape: &mut Tape) -> (result: Result<Index, Error>)
        ensures
            final(tape).bytes() == old(tape).bytes(),
            yields_view(
                final(tape).cursor() as int,
                result,
                parse_index(old(tape).bytes(), old(tape).cursor() as int),
            ),
            result matches Ok(index) ==> index@.wf(),
    {
        let ghost bytes = tape.bytes();
        let ghost start = tape.cursor() as int;
        let count: u16 = tape.take_u16()?;
        if count == 0 {
            let index = Index { count: 0, offset_size: 0, offsets: Vec::new(), data: Vec::new() };
            assert(index@.offsets =~= Seq::empty() && index@.data =~= Seq::empty());
            return Ok(index);
        }
        let offset_size: u8 = tape.take_u8()?;
        let ghost first = tape.cursor() as int;
        let mut offsets: Vec<Offset> = Vec::new();
        let mut i: usize = 0;
        while i < count as usize + 1
            invariant
                i <= count + 1,
                tape.bytes() == bytes,
                bytes == old(tape).bytes(),
                start == old(tape).cursor(),
                parse_offsets(bytes, first, offset_size, i as nat) == Ok::<
                    (Seq<Offset>, int),
                    Error,
                >((offsets@, tape.cursor() as int)),
                offsets@.len() == i,
                parse_index(bytes, start) == match parse_offsets(
                    bytes,
                    first,
                    offset_size,
                    (count + 1) as nat,
                ) {
                    Err(error) => Err(error),
                    Ok((offsets, base)) => match parse_bytes(
                        bytes,
                        base,
                        offsets[count as int].0 - 1,
                    ) {
                        Err(error) => Err(error),
                        Ok((_, end)) => Ok(
                            (
                                IndexModel {
                                    count,
                                    offset_size,
                                    offsets,
                                    data: slices(bytes, base, offsets),
                                },
                                end,
                            ),
                        ),
                    },
                },
            decreases count + 1 - i,
        {
            let offset = match Offset::read(tape, offset_size) {
                Ok(offset) => offset,
                Err(error) => {
                    proof {
                        lemma_offsets_fail(
                            bytes,
                            first,
                            offset_size,
                            (i + 1) as nat,
                            (count + 1) as nat,
                        );
                    }
                    return Err(error);
                },
            };
            if (i == 0 && offset.0 != 1) || (i > 0 && offset.0 <= offsets[i - 1].0) {
                proof {
                    lemma_offsets_fail(
                        bytes,
                        first,
                        offset_size,
                        (i + 1) as nat,
                        (count + 1) as nat,
                    );
                }
                return Err(Error::MalformedIndex);
            }
            offsets.push(offset);
            i = i + 1;
        }
        let ghost base = tape.cursor() as int;
        proof {
            lemma_offsets(bytes, first, offset_size, (count + 1) as nat);
        }
        let mut data: Vec<Vec<u8>> = Vec::new();
        let mut k: usize = 0;
        while k < count as usize
            invariant
                k <= count,
                count > 0,
                tape.bytes() == bytes,
                bytes == old(tape).bytes(),
                start == old(tape).cursor(),
                offsets@.len() == count + 1,
                0 <= base <= bytes.len(),
                forall|i: int, j: int| 0 <= i < j <= count ==> offsets@[i].0 < offsets@[j].0,
                offsets@[0].0 == 1,
                tape.cursor() == base + offsets@[k as int].0 - 1,
                k > 0 ==> tape.cursor() <= bytes.len(),
                data@.len() == k,
                forall|i: int|
                    0 <= i < k ==> (#[trigger] data@[i])@ == bytes.subrange(
                        base + offsets@[i].0 - 1,
                        base + offsets@[i + 1].0 - 1,
                    ),
                parse_index(bytes, start) == match parse_bytes(
                    bytes,
                    base,
                    offsets@[count as int].0 - 1,
                ) {
                    Err(error) => Err::<(IndexModel, int), Error>(error),
                    Ok((_, end)) => Ok(
                        (
                            IndexModel {
                                count,
                                offset_size,
                                offsets: offsets@,
                                data: slices(bytes, base, offsets@),
                            },
                            end,
                        ),
                    ),
                },
            decreases count - k,
        {
            let size: u32 = offsets[k + 1].0 - offsets[k].0;
            let chunk = tape.take_bytes(size as usize)?;
            data.push(chunk);
            k = k + 1;
        }
        let index = Index { count, offset_size, offsets, data };
        assert(index@.data =~= slices(bytes, base, index.offsets@));
        proof {
            lemma_parse_index(bytes, start);
        }
        Ok(index)
    }

    /// Return the number of byte strings.
    pub fn len(&self) -> (count: usize)
        ensures
            count == self.data@.len(),
    {
        self.data.len()
    }

    /// Return the byte string at `i`, if there is one.
    pub fn get(&self, i: usize) -> (chunk: Option<&Vec<u8>>)
        ensures
            match chunk {
                Some(chunk) => i < self@.data.len() && chunk@ == self@.data[i as int],
                None => i >= self@.data.len(),
            },
    {
        if i < self.data.len() {
            Some(&self.data[i])
        } else {
            None
        }
    }
}

impl Default for Index {
    /// Create the index without byte strings.
    fn default() -> (index: Index)
        ensures
            index@ == IndexModel::empty(),
    {
        let index = Index { count: 0, offset_size: 0, offsets: Vec::new(), data: Vec::new() };
        assert(index@.offsets =~= Seq::empty() && index@.data =~= Seq::empty());
        index
    }
}

} // verus!
