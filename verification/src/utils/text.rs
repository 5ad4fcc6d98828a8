//! Characters in and out of strings, and the handful of text operations the
//! place summaries are built from.

use vstd::prelude::*;
use vstd::string::*;

verus! {

/// The views of a sequence of strings.
pub open spec fn texts(v: Seq<String>) -> Seq<Seq<char>> {
    Seq::new(v.len(), |i: int| v[i]@)
}

/// The views of a sequence of optional strings.
pub open spec fn optional_texts(s: Seq<Option<&String>>) -> Seq<Option<Seq<char>>> {
    Seq::new(
        s.len(),
        |i: int|
            match s[i] {
                Some(x) => Some(x@),
                None => None,
            },
    )
}

/// The values that are present in `s`, in order.
pub open spec fn present(s: Seq<Option<Seq<char>>>) -> Seq<Seq<char>>
    decreases s.len(),
{
    if s.len() == 0 {
        Seq::empty()
    } else {
        match s.last() {
            Some(x) => present(s.drop_last()).push(x),
            None => present(s.drop_last()),
        }
    }
}

/// `parts` written one after another with `separator` between neighbours.
pub open spec fn joined(parts: Seq<Seq<char>>, separator: Seq<char>) -> Seq<char>
    decreases parts.len(),
{
    if parts.len() == 0 {
        Seq::empty()
    } else if parts.len() == 1 {
        parts[0]
    } else {
        joined(parts.drop_last(), separator) + separator + parts.last()
    }
}

/// Whether `needle` stands in `hay` at position `at`.
pub open spec fn occurs_at(hay: Seq<char>, needle: Seq<char>, at: int) -> bool {
    &&& 0 <= at
    &&& at + needle.len() <= hay.len()
    &&& hay.subrange(at, at + needle.len()) == needle
}

/// The first position at or after `from` where `needle` stands in `hay`.
pub open spec fn first_occurrence_from(hay: Seq<char>, needle: Seq<char>, from: int) -> Option<int>
    decreases hay.len() - from + 1,
{
    if from < 0 || from + needle.len() > hay.len() {
        None
    } else if occurs_at(hay, needle, from) {
        Some(from)
    } else {
        first_occurrence_from(hay, needle, from + 1)
    }
}

/// The first position where `needle` stands in `hay`.
pub open spec fn first_occurrence(hay: Seq<char>, needle: Seq<char>) -> Option<int> {
    first_occurrence_from(hay, needle, 0)
}

/// `hay` with the first occurrence of `needle` replaced by `replacement`;
/// `hay` itself where `needle` does not occur.
pub open spec fn replaced_first(hay: Seq<char>, needle: Seq<char>, replacement: Seq<char>) -> Seq<
    char,
> {
    match first_occurrence(hay, needle) {
        Some(at) => hay.take(at) + replacement + hay.skip(at + needle.len()),
        None => hay,
    }
}

/// `first_occurrence_from` finds the least position from `from` on, and finds
/// one whenever there is one.
pub proof fn lemma_first_occurrence_from(hay: Seq<char>, needle: Seq<char>, from: int)
    requires
        0 <= from,
    ensures
        match first_occurrence_from(hay, needle, from) {
            Some(at) => from <= at && occurs_at(hay, needle, at) && forall|j: int|
                from <= j < at ==> !occurs_at(hay, needle, j),
            None => forall|j: int| from <= j ==> !occurs_at(hay, needle, j),
        },
    decreases hay.len() - from + 1,
{
    if from + needle.len() > hay.len() {
    } else if occurs_at(hay, needle, from) {
    } else {
        lemma_first_occurrence_from(hay, needle, from + 1);
    }
}

/// Appends one character to a string: `String::push` of the standard
/// library. The contract says that the string afterwards is the string
/// before with `c` at its end.
#[verifier::external_body]
pub(crate) fn push_char(s: &mut String, c: char)
    ensures
        final(s)@ == old(s)@.push(c),
{
    s.push(c);
}

/// The characters of `s`, in order.
pub fn chars_of(s: &str) -> (v: Vec<char>)
    ensures
        v@ == s@,
{
    let mut v: Vec<char> = Vec::new();
    for c in it: s.chars()
        invariant
            it.seq() == s@,
            v@ == it.seq().take(it.index() as int),
    {
        v.push(c);
    }
    v
}

/// The string made of the characters `v`.
pub fn string_of(v: &Vec<char>) -> (s: String)
    ensures
        s@ == v@,
{
    let mut s = String::new();
    let mut i: usize = 0;
    while i < v.len()
        invariant
            i <= v.len(),
            s@ == v@.take(i as int),
        decreases v.len() - i,
    {
        push_char(&mut s, v[i]);
        i = i + 1;
    }
    s
}

/// Collects the values that are present, in order; `None` if none is.
pub fn collect_somes(s: &[Option<&String>]) -> (r: Option<Vec<String>>)
    ensures
        match r {
            Some(list) => texts(list@) == present(optional_texts(s@)) && list@.len() > 0,
            None => present(optional_texts(s@)).len() == 0,
        },
{
    let mut list: Vec<String> = Vec::new();
    let mut i: usize = 0;
    while i < s.len()
        invariant
            i <= s.len(),
            texts(list@) == present(optional_texts(s@).take(i as int)),
        decreases s.len() - i,
    {
        proof {
            assert(optional_texts(s@).take(i + 1).drop_last() == optional_texts(s@).take(i as int));
        }
        if let Some(x) = s[i] {
            list.push(x.clone());
        }
        i = i + 1;
    }
    proof {
        assert(optional_texts(s@).take(s.len() as int) == optional_texts(s@));
    }
    if list.len() == 0 {
        None
    } else {
        Some(list)
    }
}

/// Writes `parts` one after another with `separator` between neighbours.
pub fn join(parts: &Vec<String>, separator: &str) -> (r: String)
    ensures
        r@ == joined(texts(parts@), separator@),
{
    let mut r = String::new();
    let mut i: usize = 0;
    while i < parts.len()
        invariant
            i <= parts.len(),
            r@ == joined(texts(parts@).take(i as int), separator@),
        decreases parts.len() - i,
    {
        proof {
            let done = texts(parts@).take(i + 1);
            assert(done.drop_last() == texts(parts@).take(i as int));
            assert(done.last() == parts@[i as int]@);
            if i == 0 {
                assert(joined(done, separator@) == parts@[0]@);
                assert(Seq::<char>::empty() + parts@[0]@ == parts@[0]@);
            }
        }
        if i > 0 {
            r.append(separator);
        }
        r.append(parts[i].as_str());
        i = i + 1;
    }
    proof {
        assert(texts(parts@).take(parts.len() as int) == texts(parts@));
    }
    r
}

/// Whether `needle` stands in `hay` at position `at`.
fn matches_at(hay: &Vec<char>, needle: &Vec<char>, at: usize) -> (r: bool)
    requires
        at + needle.len() <= hay.len(),
    ensures
        r == occurs_at(hay@, needle@, at as int),
{
    let mut k: usize = 0;
    while k < needle.len()
        invariant
            k <= needle.len(),
            at + needle.len() <= hay.len(),
            forall|j: int| 0 <= j < k ==> hay@[at + j] == needle@[j],
        decreases needle.len() - k,
    {
        if hay[at + k] != needle[k] {
            proof {
                assert(hay@.subrange(at as int, at + needle.len())[k as int] == hay@[at + k]);
            }
            return false;
        }
        k = k + 1;
    }
    proof {
        assert(hay@.subrange(at as int, at + needle.len()) =~= needle@);
    }
    true
}

/// The first position where `needle` stands in `hay`, if it stands anywhere.
pub fn find_first(hay: &Vec<char>, needle: &Vec<char>) -> (r: Option<usize>)
    ensures
        match r {
            Some(at) => first_occurrence(hay@, needle@) == Some(at as int),
            None => first_occurrence(hay@, needle@) is None,
        },
{
    if needle.len() > hay.len() {
        return None;
    }
    let last = hay.len() - needle.len();
    let mut at: usize = 0;
    loop
        invariant
            at <= last,
            last == hay.len() - needle.len(),
            needle.len() <= hay.len(),
            first_occurrence(hay@, needle@) == first_occurrence_from(hay@, needle@, at as int),
        decreases last - at,
    {
        if matches_at(hay, needle, at) {
            return Some(at);
        }
        if at == last {
            return None;
        }
        at = at + 1;
    }
}

/// Whether `needle` occurs somewhere in `hay`. The empty string occurs in
/// every string.
pub fn contains(hay: &str, needle: &str) -> (r: bool)
    ensures
        r == first_occurrence(hay@, needle@) is Some,
{
    let hay_chars = chars_of(hay);
    let needle_chars = chars_of(needle);
    find_first(&hay_chars, &needle_chars).is_some()
}

/// Replaces the first occurrence of `needle` in `hay` by `replacement`.
pub fn replace_first(hay: &str, needle: &str, replacement: &str) -> (r: String)
    ensures
        r@ == replaced_first(hay@, needle@, replacement@),
{
    let hay_chars = chars_of(hay);
    let needle_chars = chars_of(needle);
    match find_first(&hay_chars, &needle_chars) {
        None => string_of(&hay_chars),
        Some(at) => {
            proof {
                lemma_first_occurrence_from(hay@, needle@, 0);
            }
            let mut r = String::new();
            let mut i: usize = 0;
            while i < at
                invariant
                    i <= at <= hay_chars.len(),
                    r@ == hay_chars@.take(i as int),
                decreases at - i,
            {
                push_char(&mut r, hay_chars[i]);
                i = i + 1;
            }
            r.append(replacement);
            let mut k: usize = at + needle_chars.len();
            while k < hay_chars.len()
                invariant
                    at + needle_chars.len() <= k <= hay_chars.len(),
                    r@ == hay_chars@.take(at as int) + replacement@ + hay_chars@.subrange(
                        at + needle_chars.len(),
                        k as int,
                    ),
                decreases hay_chars.len() - k,
            {
                push_char(&mut r, hay_chars[k]);
                k = k + 1;
            }
            proof {
                assert(hay_chars@.subrange(at + needle_chars.len(), hay_chars.len() as int)
                    == hay_chars@.skip(at + needle_chars.len()));
            }
            r
        },
    }
}

} // verus!
