//! The text payload of a callback: comma-separated fields, some of which
//! hold a decimal integer.

use vstd::prelude::*;

verus! {

/// The byte that separates two fields.
pub const FIELD_SEPARATOR: u8 = 44;

/// Whether `b` is an ASCII decimal digit.
pub open spec fn is_digit(b: u8) -> bool {
    48 <= b <= 57
}

/// Whether every byte of `text` is a decimal digit.
pub open spec fn all_digits(text: Seq<u8>) -> bool {
    forall|i: int| 0 <= i < text.len() ==> is_digit(#[trigger] text[i])
}

/// The number that a run of decimal digits writes.
pub open spec fn decimal_value(digits: Seq<u8>) -> int
    decreases digits.len(),
{
    if digits.len() == 0 {
        0
    } else {
        10 * decimal_value(digits.drop_last()) + (digits.last() - 48)
    }
}

/// The 32-bit integer that `text` writes: an optional `+` or `-`, then one
/// or more decimal digits and nothing else, with a value that fits. Any
/// other text writes no integer.
pub open spec fn parse_i32_spec(text: Seq<u8>) -> Option<i32> {
    let negative = text.len() > 0 && text[0] == 45;
    let signed = text.len() > 0 && (text[0] == 45 || text[0] == 43);
    let digits = if signed {
        text.skip(1)
    } else {
        text
    };
    let value = if negative {
        -decimal_value(digits)
    } else {
        decimal_value(digits)
    };
    if digits.len() > 0 && all_digits(digits) && i32::MIN <= value <= i32::MAX {
        Some(value as i32)
    } else {
        None
    }
}

/// Where the first field of `text` ends: the place of its first separator,
/// or its length if it holds none.
pub open spec fn first_field_len(text: Seq<u8>) -> int
    decreases text.len(),
{
    if text.len() == 0 || text[0] == FIELD_SEPARATOR {
        0
    } else {
        1 + first_field_len(text.skip(1))
    }
}

/// The field of `text` with the given index, counting from 0, when `text` is
/// cut at every separator; `None` when there are not that many fields. A
/// text without separator is one field, an empty text one empty field.
pub open spec fn field_spec(text: Seq<u8>, index: nat) -> Option<Seq<u8>>
    decreases index,
{
    let len = first_field_len(text);
    if index == 0 {
        Some(text.take(len))
    } else if len >= text.len() {
        None
    } else {
        field_spec(text.skip(len + 1), (index - 1) as nat)
    }
}

/// The integer in the field of `text` with the given index, if there is
/// such a field and it writes one.
pub open spec fn int_field_spec(text: Seq<u8>, index: nat) -> Option<i32> {
    match field_spec(text, index) {
        Some(field) => parse_i32_spec(field),
        None => None,
    }
}

/// A run of digits writes a number that is not negative, and no prefix of
/// it writes a larger one.
pub proof fn lemma_decimal_value_prefix(digits: Seq<u8>, k: int)
    requires
        all_digits(digits),
        0 <= k <= digits.len(),
    ensures
        0 <= decimal_value(digits.take(k)) <= decimal_value(digits),
    decreases digits.len(),
{
    if k == digits.len() {
        assert(digits.take(k) =~= digits);
        if digits.len() > 0 {
            lemma_decimal_value_prefix(digits.drop_last(), k - 1);
        }
    } else {
        lemma_decimal_value_prefix(digits.drop_last(), k);
        assert(digits.drop_last().take(k) =~= digits.take(k));
    }
}

/// The first field ends at `n` if no separator stands before `n` and either
/// one stands at `n` or the text ends there.
pub proof fn lemma_first_field_len(text: Seq<u8>, n: int)
    requires
        0 <= n <= text.len(),
        forall|j: int| 0 <= j < n ==> text[j] != FIELD_SEPARATOR,
        n == text.len() || text[n] == FIELD_SEPARATOR,
    ensures
        first_field_len(text) == n,
    decreases n,
{
    if n > 0 {
        let rest = text.skip(1);
        assert forall|j: int| 0 <= j < n - 1 implies rest[j] != FIELD_SEPARATOR by {
            assert(rest[j] == text[j + 1]);
        }
        lemma_first_field_len(rest, n - 1);
    }
}

/// Reads the 32-bit integer that the bytes of `text` from `start` up to
/// `end` write, as `str::parse::<i32>` reads it.
#[verifier::loop_isolation(false)]
pub fn parse_i32_range(text: &[u8], start: usize, end: usize) -> (r: Option<i32>)
    requires
        start <= end <= text@.len(),
    ensures
        r == parse_i32_spec(text@.subrange(start as int, end as int)),
{
    let ghost whole = text@.subrange(start as int, end as int);
    if start == end {
        return None;
    }
    let first: u8 = text[start];
    assert(whole[0] == first);
    let negative: bool = first == 45;
    let from: usize = if first == 45 || first == 43 {
        start + 1
    } else {
        start
    };
    let ghost digits = text@.subrange(from as int, end as int);
    assert(digits =~= if first == 45 || first == 43 {
        whole.skip(1)
    } else {
        whole
    });
    if from == end {
        return None;
    }
    let mut acc: i64 = 0;
    let mut i: usize = from;
    while i < end
        invariant
            from <= i <= end <= text@.len(),
            digits == text@.subrange(from as int, end as int),
            all_digits(digits.take(i - from)),
            acc == decimal_value(digits.take(i - from)),
            0 <= acc <= 2147483648,
        decreases end - i,
    {
        let b: u8 = text[i];
        assert(digits[i - from] == b);
        if b < 48 || b > 57 {
            return None;
        }
        let ghost next = digits.take(i - from + 1);
        assert(next.drop_last() =~= digits.take(i - from));
        assert(next.last() == b);
        assert(all_digits(next)) by {
            assert forall|j: int| 0 <= j < next.len() implies is_digit(#[trigger] next[j]) by {
                if j < i - from {
                    assert(next[j] == digits.take(i - from)[j]);
                }
            }
        }
        acc = acc * 10 + (b - 48) as i64;
        if acc > 2147483648 {
            proof {
                if all_digits(digits) {
                    lemma_decimal_value_prefix(digits, i - from + 1);
                }
            }
            return None;
        }
        i += 1;
    }
    assert(digits.take(i - from) =~= digits);
    if negative {
        Some((-acc) as i32)
    } else if acc > 2147483647 {
        None
    } else {
        Some(acc as i32)
    }
}

/// Reads the 32-bit integer that `text` writes, as `str::parse::<i32>`
/// reads it.
pub fn parse_i32(text: &[u8]) -> (r: Option<i32>)
    ensures
        r == parse_i32_spec(text@),
{
    assert(text@.subrange(0, text@.len() as int) =~= text@);
    parse_i32_range(text, 0, text.len())
}

/// Finds the field of `text` with the given index: where it starts and
/// where it ends.
pub fn field_bounds(text: &[u8], index: usize) -> (r: Option<(usize, usize)>)
    ensures
        match r {
            Some((start, end)) => start <= end <= text@.len() && field_spec(text@, index as nat)
                == Some(text@.subrange(start as int, end as int)),
            None => field_spec(text@, index as nat) is None,
        },
{
    let mut start: usize = 0;
    let mut skip: usize = index;
    let mut i: usize = 0;
    assert(text@.skip(0) =~= text@);
    while i < text.len()
        invariant
            start <= i <= text@.len(),
            forall|j: int| start <= j < i ==> text@[j] != FIELD_SEPARATOR,
            field_spec(text@, index as nat) == field_spec(text@.skip(start as int), skip as nat),
        decreases text@.len() - i,
    {
        if text[i] == FIELD_SEPARATOR {
            let ghost rest = text@.skip(start as int);
            proof {
                lemma_first_field_len(rest, i - start);
                assert(rest.take(i - start) =~= text@.subrange(start as int, i as int));
                assert(rest.skip(i - start + 1) =~= text@.skip(i + 1));
            }
            if skip == 0 {
                return Some((start, i));
            }
            skip -= 1;
            start = i + 1;
        }
        i += 1;
    }
    proof {
        let rest = text@.skip(start as int);
        lemma_first_field_len(rest, text@.len() - start);
        assert(rest.take(text@.len() - start) =~= text@.subrange(
            start as int,
            text@.len() as int,
        ));
    }
    if skip == 0 {
        Some((start, text.len()))
    } else {
        None
    }
}

/// Reads the integer in the field of `text` with the given index.
pub fn int_field(text: &[u8], index: usize) -> (r: Option<i32>)
    ensures
        r == int_field_spec(text@, index as nat),
{
    match field_bounds(text, index) {
        Some((start, end)) => parse_i32_range(text, start, end),
        None => None,
    }
}

} // verus!
