//! The decimal numbers that nibbles write.
//!
//! A real number is stored as nibbles, which write it in decimal. What a
//! decimal number is, the grammar says. An automaton tells in one pass
//! whether nibbles write one, and it is proved to accept what the grammar
//! describes.

use vstd::prelude::*;

verus! {

/// The nibble that is the decimal point.
pub const POINT: u8 = 10;

/// The nibble that begins the exponent.
pub const EXPONENT: u8 = 11;

/// The nibble that begins the exponent and is its minus sign.
pub const NEGATIVE_EXPONENT: u8 = 12;

/// The nibble that is reserved.
pub const RESERVED: u8 = 13;

/// The nibble that is the minus sign.
pub const MINUS: u8 = 14;

/// The nibble that ends a real number.
pub const END: u8 = 15;

/// The place where the mantissa begins: after the minus sign, where the
/// nibbles begin with one.
pub open spec fn start(nibbles: Seq<u8>) -> int {
    if nibbles.len() > 0 && nibbles[0] == MINUS {
        1
    } else {
        0
    }
}

/// Whether the nibbles from `from` up to `to` are digits, and at least one.
pub open spec fn are_digits(nibbles: Seq<u8>, from: int, to: int) -> bool {
    from < to && forall|i: int| from <= i < to ==> (#[trigger] nibbles[i]) <= 9
}

/// Whether the nibbles from `from` up to `to` are a mantissa: digits, and
/// at least one, without a point or with the one point at `point` among
/// them, before them or after them.
pub open spec fn is_mantissa(nibbles: Seq<u8>, from: int, to: int, point: Option<int>) -> bool {
    match point {
        None => are_digits(nibbles, from, to),
        Some(point) => from <= point < to && to - from >= 2 && nibbles[point] == POINT
            && forall|i: int| from <= i < to && i != point ==> (#[trigger] nibbles[i]) <= 9,
    }
}

/// Whether the nibbles from `from` on are an exponent or nothing. An
/// exponent is the nibble that begins it, a minus sign or none, and digits;
/// or the nibble that begins it and is its minus sign, and digits.
pub open spec fn is_exponent(nibbles: Seq<u8>, from: int) -> bool {
    let end = nibbles.len() as int;
    ||| from == end
    ||| nibbles[from] == EXPONENT && are_digits(nibbles, from + 1, end)
    ||| nibbles[from] == EXPONENT && nibbles[from + 1] == MINUS && are_digits(
        nibbles,
        from + 2,
        end,
    )
    ||| nibbles[from] == NEGATIVE_EXPONENT && are_digits(nibbles, from + 1, end)
}

/// Whether the nibbles write a decimal number whose mantissa ends before
/// `to` and has its point, if any, at `point`.
pub open spec fn is_decimal_with(nibbles: Seq<u8>, to: int, point: Option<int>) -> bool {
    &&& to <= nibbles.len()
    &&& is_mantissa(nibbles, start(nibbles), to, point)
    &&& is_exponent(nibbles, to)
}

/// Whether the nibbles write a decimal number: a minus sign or none, a
/// mantissa, and an exponent or none.
pub open spec fn is_decimal(nibbles: Seq<u8>) -> bool {
    exists|to: int, point: Option<int>| #[trigger] is_decimal_with(nibbles, to, point)
}

/// Nothing has been seen.
pub const AT_START: u8 = 0;

/// The minus sign of the number has been seen.
pub const AFTER_SIGN: u8 = 1;

/// Digits have been seen, and no point.
pub const IN_INTEGER: u8 = 2;

/// The point has been seen, and no digit.
pub const AFTER_POINT: u8 = 3;

/// The point and at least one digit have been seen.
pub const IN_FRACTION: u8 = 4;

/// The exponent has begun.
pub const AFTER_EXPONENT: u8 = 5;

/// The minus sign of the exponent has been seen.
pub const AFTER_EXPONENT_SIGN: u8 = 6;

/// Digits of the exponent have been seen.
pub const IN_EXPONENT: u8 = 7;

/// What has been seen begins no decimal number.
pub const REJECTED: u8 = 8;

/// The state of the automaton after one more nibble.
pub open spec fn step(state: u8, nibble: u8) -> u8 {
    if nibble <= 9 {
        if state == AT_START || state == AFTER_SIGN || state == IN_INTEGER {
            IN_INTEGER
        } else if state == AFTER_POINT || state == IN_FRACTION {
            IN_FRACTION
        } else if state == AFTER_EXPONENT || state == AFTER_EXPONENT_SIGN || state == IN_EXPONENT {
            IN_EXPONENT
        } else {
            REJECTED
        }
    } else if nibble == POINT {
        if state == AT_START || state == AFTER_SIGN {
            AFTER_POINT
        } else if state == IN_INTEGER {
            IN_FRACTION
        } else {
            REJECTED
        }
    } else if nibble == EXPONENT {
        if state == IN_INTEGER || state == IN_FRACTION {
            AFTER_EXPONENT
        } else {
            REJECTED
        }
    } else if nibble == NEGATIVE_EXPONENT {
        if state == IN_INTEGER || state == IN_FRACTION {
            AFTER_EXPONENT_SIGN
        } else {
            REJECTED
        }
    } else if nibble == MINUS {
        if state == AT_START {
            AFTER_SIGN
        } else if state == AFTER_EXPONENT {
            AFTER_EXPONENT_SIGN
        } else {
            REJECTED
        }
    } else {
        REJECTED
    }
}

/// The state of the automaton after the nibbles.
pub open spec fn state_after(nibbles: Seq<u8>) -> u8
    decreases nibbles.len(),
{
    if nibbles.len() == 0 {
        AT_START
    } else {
        step(state_after(nibbles.drop_last()), nibbles.last())
    }
}

/// Whether the automaton accepts in the state.
pub open spec fn accepts(state: u8) -> bool {
    state == IN_INTEGER || state == IN_FRACTION || state == IN_EXPONENT
}

/// What the state of the automaton says of the nibbles that led to it, the
/// mantissa ending before `to` with its point, if any, at `point`.
spec fn describes(state: u8, nibbles: Seq<u8>, to: int, point: Option<int>) -> bool {
    let from = start(nibbles);
    let end = nibbles.len() as int;
    if state == AT_START {
        end == 0
    } else if state == AFTER_SIGN {
        end == 1 && nibbles[0] == MINUS
    } else if state == IN_INTEGER {
        to == end && point is None && are_digits(nibbles, from, end)
    } else if state == AFTER_POINT {
        end == from + 1 && nibbles[from] == POINT
    } else if state == IN_FRACTION {
        to == end && point is Some && is_mantissa(nibbles, from, end, point)
    } else if state == AFTER_EXPONENT {
        is_mantissa(nibbles, from, to, point) && to == end - 1 && nibbles[to] == EXPONENT
    } else if state == AFTER_EXPONENT_SIGN {
        is_mantissa(nibbles, from, to, point) && ((to == end - 1 && nibbles[to]
            == NEGATIVE_EXPONENT) || (to == end - 2 && nibbles[to] == EXPONENT && nibbles[to + 1]
            == MINUS))
    } else if state == IN_EXPONENT {
        is_mantissa(nibbles, from, to, point) && to < end && is_exponent(nibbles, to)
    } else {
        state == REJECTED
    }
}

/// The state of the automaton after the nibbles describes them.
proof fn lemma_state_describes(nibbles: Seq<u8>) -> (found: (int, Option<int>))
    ensures
        describes(state_after(nibbles), nibbles, found.0, found.1),
    decreases nibbles.len(),
{
    if nibbles.len() == 0 {
        (0, None)
    } else {
        let before = nibbles.drop_last();
        let nibble = nibbles.last();
        let end = nibbles.len() as int;
        let (to, point) = lemma_state_describes(before);
        let state = state_after(before);
        let next = step(state, nibble);
        assert(forall|i: int| 0 <= i < end - 1 ==> before[i] == nibbles[i]);
        assert(before.len() > 0 ==> start(before) == start(nibbles));
        if next == IN_INTEGER {
            (end, None)
        } else if next == IN_FRACTION {
            if state == AFTER_POINT {
                (end, Some(start(nibbles)))
            } else if state == IN_INTEGER {
                (end, Some(end - 1))
            } else {
                (end, point)
            }
        } else if next == AFTER_EXPONENT {
            (end - 1, point)
        } else if next == AFTER_EXPONENT_SIGN {
            if state == AFTER_EXPONENT {
                (to, point)
            } else {
                (end - 1, point)
            }
        } else {
            (to, point)
        }
    }
}

/// The state in which the automaton is after `k` of nibbles that write a
/// decimal number, the mantissa ending before `to` with its point, if any,
/// at `point`.
spec fn state_at(nibbles: Seq<u8>, to: int, point: Option<int>, k: int) -> u8 {
    let from = start(nibbles);
    if k == 0 {
        AT_START
    } else if k <= from {
        AFTER_SIGN
    } else if k <= to {
        if point is None || k <= point->Some_0 {
            IN_INTEGER
        } else if k == from + 1 {
            AFTER_POINT
        } else {
            IN_FRACTION
        }
    } else if nibbles[to] == NEGATIVE_EXPONENT {
        if k == to + 1 {
            AFTER_EXPONENT_SIGN
        } else {
            IN_EXPONENT
        }
    } else if k == to + 1 {
        AFTER_EXPONENT
    } else if k == to + 2 && nibbles[to + 1] == MINUS {
        AFTER_EXPONENT_SIGN
    } else {
        IN_EXPONENT
    }
}

/// The automaton runs through nibbles that write a decimal number as the
/// parts of the number say.
proof fn lemma_runs(nibbles: Seq<u8>, to: int, point: Option<int>, k: int)
    requires
        is_decimal_with(nibbles, to, point),
        0 <= k <= nibbles.len(),
    ensures
        state_after(nibbles.take(k)) == state_at(nibbles, to, point, k),
    decreases k,
{
    if k > 0 {
        lemma_runs(nibbles, to, point, k - 1);
        assert(nibbles.take(k).drop_last() =~= nibbles.take(k - 1));
        assert(nibbles.take(k).last() == nibbles[k - 1]);
    }
}

/// The automaton accepts the nibbles that write a decimal number, and no others.
pub proof fn lemma_accepts_decimal(nibbles: Seq<u8>)
    ensures
        accepts(state_after(nibbles)) <==> is_decimal(nibbles),
{
    let (to, point) = lemma_state_describes(nibbles);
    if accepts(state_after(nibbles)) {
        assert(is_decimal_with(nibbles, to, point));
    }
    if is_decimal(nibbles) {
        let (to, point) = choose|to: int, point: Option<int>| #[trigger]
            is_decimal_with(nibbles, to, point);
        lemma_runs(nibbles, to, point, nibbles.len() as int);
        assert(nibbles.take(nibbles.len() as int) =~= nibbles);
    }
}

/// Return the state of the automaton after one more nibble.
pub fn advance(state: u8, nibble: u8) -> (next: u8)
    ensures
        next == step(state, nibble),
{
    if nibble <= 9 {
        if state == AT_START || state == AFTER_SIGN || state == IN_INTEGER {
            IN_INTEGER
        } else if state == AFTER_POINT || state == IN_FRACTION {
            IN_FRACTION
        } else if state == AFTER_EXPONENT || state == AFTER_EXPONENT_SIGN || state == IN_EXPONENT {
            IN_EXPONENT
        } else {
            REJECTED
        }
    } else if nibble == POINT {
        if state == AT_START || state == AFTER_SIGN {
            AFTER_POINT
        } else if state == IN_INTEGER {
            IN_FRACTION
        } else {
            REJECTED
        }
    } else if nibble == EXPONENT {
        if state == IN_INTEGER || state == IN_FRACTION {
            AFTER_EXPONENT
        } else {
            REJECTED
        }
    } else if nibble == NEGATIVE_EXPONENT {
        if state == IN_INTEGER || state == IN_FRACTION {
            AFTER_EXPONENT_SIGN
        } else {
            REJECTED
        }
    } else if nibble == MINUS {
        if state == AT_START {
            AFTER_SIGN
        } else if state == AFTER_EXPONENT {
            AFTER_EXPONENT_SIGN
        } else {
            REJECTED
        }
    } else {
        REJECTED
    }
}

} // verus!
