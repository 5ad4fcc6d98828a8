//! Numbers as decimal text: how a position in a list is written into a
//! menu option and read back from the answer, and how identifiers are read
//! from a list that someone typed.

use vstd::prelude::*;
use vstd::string::*;
use crate::utils::text::{chars_of, push_char, string_of};

verus! {

/// The character for a decimal digit.
pub open spec fn digit(d: nat) -> char
    recommends
        d < 10,
{
    (0x30 + d) as char
}

/// Whether `c` is one of `0` to `9`.
pub open spec fn is_digit(c: char) -> bool {
    0x30 <= c as u32 <= 0x39
}

/// The number a digit stands for.
pub open spec fn digit_value(c: char) -> nat
    recommends
        is_digit(c),
{
    (c as u32 - 0x30) as nat
}

/// Whether every character of `s` is a decimal digit.
pub open spec fn all_digits(s: Seq<char>) -> bool {
    forall|i: int| 0 <= i < s.len() ==> is_digit(#[trigger] s[i])
}

/// The decimal notation of `n`, without leading zeros.
pub open spec fn decimal(n: nat) -> Seq<char>
    decreases n,
{
    if n < 10 {
        seq![digit(n)]
    } else {
        decimal(n / 10).push(digit(n % 10))
    }
}

/// The number that a sequence of digits denotes; leading zeros count for
/// nothing.
pub open spec fn digits_value(s: Seq<char>) -> nat
    decreases s.len(),
{
    if s.len() == 0 {
        0
    } else {
        digits_value(s.drop_last()) * 10 + digit_value(s.last())
    }
}

/// The digits of an index as it is written: the text itself, without one
/// leading `+` if there is one.
pub open spec fn unsigned_part(s: Seq<char>) -> Seq<char> {
    if s.len() > 0 && s[0] == '+' {
        s.skip(1)
    } else {
        s
    }
}

/// The number that `s` denotes: an optional `+`, then one or more decimal
/// digits and nothing else, the number being small enough for `u64`.
pub open spec fn parsed_number(s: Seq<char>) -> Option<u64> {
    let digits = unsigned_part(s);
    if digits.len() > 0 && all_digits(digits) && digits_value(digits) <= u64::MAX {
        Some(digits_value(digits) as u64)
    } else {
        None
    }
}

/// The index that `s` denotes: an optional `+`, then one or more decimal
/// digits and nothing else, the number being small enough for `usize`.
pub open spec fn parsed_index(s: Seq<char>) -> Option<usize> {
    let digits = unsigned_part(s);
    if digits.len() > 0 && all_digits(digits) && digits_value(digits) <= usize::MAX {
        Some(digits_value(digits) as usize)
    } else {
        None
    }
}

/// A prefix of a digit sequence denotes no more than the whole.
pub proof fn lemma_prefix_value(s: Seq<char>, k: int)
    requires
        0 <= k <= s.len(),
    ensures
        digits_value(s.take(k)) <= digits_value(s),
    decreases s.len() - k,
{
    if k == s.len() {
        assert(s.take(k) == s);
    } else {
        lemma_prefix_value(s.drop_last(), k);
        assert(s.drop_last().take(k) == s.take(k));
    }
}

/// What `decimal` writes is read back as the same number.
pub proof fn lemma_decimal_is_digits(n: nat)
    ensures
        decimal(n).len() > 0,
        all_digits(decimal(n)),
        digits_value(decimal(n)) == n,
    decreases n,
{
    if n < 10 {
        let s = decimal(n);
        assert(s.len() == 1);
        assert(s[0] == digit(n));
        assert(s.drop_last().len() == 0);
        assert(digits_value(s) == digits_value(s.drop_last()) * 10 + digit_value(s.last()));
    } else {
        lemma_decimal_is_digits(n / 10);
        let head = decimal(n / 10);
        let s = head.push(digit(n % 10));
        assert(s.drop_last() == head);
        assert(s.last() == digit(n % 10));
        assert forall|i: int| 0 <= i < s.len() implies is_digit(#[trigger] s[i]) by {
            if i < head.len() {
                assert(s[i] == head[i]);
            }
        }
    }
}

/// Writing an index and reading it back gives the index.
pub proof fn lemma_index_round_trip(n: usize)
    ensures
        parsed_index(decimal(n as nat)) == Some(n),
{
    lemma_decimal_is_digits(n as nat);
    let s = decimal(n as nat);
    assert(is_digit(s[0]));
    assert(s[0] != '+');
}

/// The character for the decimal digit `d`.
fn digit_char(d: u8) -> (c: char)
    requires
        d < 10,
    ensures
        c == digit(d as nat),
{
    (0x30u8 + d) as char
}

/// The decimal notation of an integer, with a minus sign where it is
/// negative.
pub open spec fn signed_decimal(n: int) -> Seq<char> {
    if n < 0 {
        seq!['-'] + decimal((-n) as nat)
    } else {
        decimal(n as nat)
    }
}

/// Writes `n` in decimal notation.
pub fn number_text(n: u64) -> (r: String)
    ensures
        r@ == decimal(n as nat),
    decreases n,
{
    if n < 10 {
        let mut r = String::new();
        push_char(&mut r, digit_char(n as u8));
        r
    } else {
        let mut r = number_text(n / 10);
        push_char(&mut r, digit_char((n % 10) as u8));
        r
    }
}

/// Writes an index in decimal notation.
pub fn index_text(n: usize) -> (r: String)
    ensures
        r@ == decimal(n as nat),
{
    number_text(n as u64)
}

/// Writes `n` in decimal notation, with a minus sign where it is negative.
pub fn integer_text(n: i64) -> (r: String)
    ensures
        r@ == signed_decimal(n as int),
{
    if n < 0 {
        let magnitude: u64 = (-(n as i128)) as u64;
        let mut r = String::new();
        push_char(&mut r, '-');
        r.append(number_text(magnitude).as_str());
        r
    } else {
        number_text(n as u64)
    }
}

/// Reads a number in decimal notation. Anything that is not an optional
/// `+` followed by digits is rejected, and so is a number too large for
/// `u64`.
pub fn parse_number(text: &str) -> (r: Option<u64>)
    ensures
        r == parsed_number(text@),
{
    let chars = chars_of(text);
    let start: usize = if chars.len() > 0 && chars[0] == '+' {
        1
    } else {
        0
    };
    if start == chars.len() {
        return None;
    }
    let ghost digits = unsigned_part(text@);
    assert(digits == chars@.skip(start as int));
    let mut value: u64 = 0;
    let mut i: usize = start;
    while i < chars.len()
        invariant
            start <= i <= chars.len(),
            digits == chars@.skip(start as int),
            digits == unsigned_part(text@),
            digits.len() > 0,
            all_digits(digits.take(i - start)),
            value == digits_value(digits.take(i - start)),
        decreases chars.len() - i,
    {
        let c = chars[i];
        let ghost before = digits.take(i - start);
        let ghost after = digits.take(i - start + 1);
        proof {
            assert(after.drop_last() == before);
            assert(after.last() == c);
            lemma_prefix_value(digits, i - start + 1);
        }
        let code = c as u32;
        if code < 0x30 || code > 0x39 {
            assert(!is_digit(digits[i - start]));
            return None;
        }
        let d = (code - 0x30) as u64;
        let scaled = match value.checked_mul(10) {
            Some(scaled) => scaled,
            None => {
                return None;
            },
        };
        value = match scaled.checked_add(d) {
            Some(sum) => sum,
            None => {
                return None;
            },
        };
        proof {
            assert forall|j: int| 0 <= j < after.len() implies is_digit(#[trigger] after[j]) by {
                if j < before.len() {
                    assert(after[j] == before[j]);
                }
            }
        }
        i = i + 1;
    }
    proof {
        assert(digits.take(i - start) == digits);
    }
    Some(value)
}

/// Reads an index in decimal notation. Anything that is not an optional `+`
/// followed by digits is rejected, and so is a number too large for `usize`.
pub fn parse_index(text: &str) -> (r: Option<usize>)
    ensures
        r == parsed_index(text@),
{
    match parse_number(text) {
        Some(value) => {
            if value <= usize::MAX as u64 {
                Some(value as usize)
            } else {
                None
            }
        },
        None => None,
    }
}

/// The pieces into which `separator` parts `s`. A text without the
/// separator is one piece, and so is the empty text.
pub open spec fn split(s: Seq<char>, separator: char) -> Seq<Seq<char>>
    decreases s.len(),
{
    if s.len() == 0 {
        seq![Seq::empty()]
    } else if s.last() == separator {
        split(s.drop_last(), separator).push(Seq::empty())
    } else {
        let before = split(s.drop_last(), separator);
        before.drop_last().push(before.last().push(s.last()))
    }
}

/// What `str::trim` leaves of a text: the text without the white space at
/// its beginning and at its end.
pub uninterp spec fn trimmed(s: Seq<char>) -> Seq<char>;

/// A text without the white space around it: `str::trim` of the standard
/// library. The contract only names the result.
#[verifier::external_body]
fn trim(text: &str) -> (r: &str)
    ensures
        r@ == trimmed(text@),
{
    text.trim()
}

/// The numbers among `pieces`, in their order: of each piece what is left
/// of it without the white space around it, if that is a number.
pub open spec fn numbers_among(pieces: Seq<Seq<char>>) -> Seq<u64>
    decreases pieces.len(),
{
    if pieces.len() == 0 {
        Seq::empty()
    } else {
        match parsed_number(trimmed(pieces.last())) {
            Some(number) => numbers_among(pieces.drop_last()).push(number),
            None => numbers_among(pieces.drop_last()),
        }
    }
}

/// The number that a piece of a list stands for, if it stands for one.
fn number_in(piece: &Vec<char>) -> (r: Option<u64>)
    ensures
        r == parsed_number(trimmed(piece@)),
{
    let text = string_of(piece);
    parse_number(trim(text.as_str()))
}

/// Reads a list of identifiers that are separated by commas. White space
/// around an identifier does not count. What is no number is left out.
pub fn parse_id_list(text: &str) -> (ids: Vec<u64>)
    ensures
        ids@ == numbers_among(split(text@, ',')),
{
    let chars = chars_of(text);
    let mut ids: Vec<u64> = Vec::new();
    let mut current: Vec<char> = Vec::new();
    let ghost mut done: Seq<Seq<char>> = Seq::empty();
    let mut i: usize = 0;
    assert(chars@.take(0) == Seq::<char>::empty());
    assert(split(Seq::<char>::empty(), ',') == done.push(current@));
    while i < chars.len()
        invariant
            i <= chars.len(),
            chars@ == text@,
            split(chars@.take(i as int), ',') == done.push(current@),
            ids@ == numbers_among(done),
        decreases chars.len() - i,
    {
        let c = chars[i];
        proof {
            assert(chars@.take(i + 1).drop_last() == chars@.take(i as int));
            assert(chars@.take(i + 1).last() == c);
            assert(done.push(current@).drop_last() == done);
            assert(done.push(current@).last() == current@);
        }
        if c == ',' {
            match number_in(&current) {
                Some(id) => {
                    ids.push(id);
                },
                None => {},
            }
            proof {
                assert(done.push(current@).drop_last() == done);
                done = done.push(current@);
            }
            current = Vec::new();
        } else {
            current.push(c);
        }
        i = i + 1;
    }
    proof {
        assert(chars@.take(chars.len() as int) == chars@);
        assert(done.push(current@).drop_last() == done);
        assert(done.push(current@).last() == current@);
    }
    match number_in(&current) {
        Some(id) => {
            ids.push(id);
        },
        None => {},
    }
    ids
}

} // verus!
