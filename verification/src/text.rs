//! Text as sequences of characters: searching, trimming and comparing.
//!
//! The functions here work on the characters of a string, never on its bytes,
//! so every index is an index into the string's view.

use vstd::prelude::*;
use vstd::string::*;

verus! {

/// The view of a string that may be missing.
pub open spec fn text_view(text: Option<String>) -> Option<Seq<char>> {
    match text {
        Some(t) => Some(t@),
        None => None,
    }
}

/// The view of a string that may be missing, handed over by reference.
pub open spec fn borrowed_text_view(text: Option<&String>) -> Option<Seq<char>> {
    match text {
        Some(t) => Some(t@),
        None => None,
    }
}

/// A copy of a string that may be missing.
pub fn copy_text(text: Option<&String>) -> (r: Option<String>)
    ensures
        text_view(r) == borrowed_text_view(text),
{
    match text {
        Some(t) => Some(t.clone()),
        None => None,
    }
}

/// White space as Unicode defines it (the property `White_Space`).
pub open spec fn is_space(c: char) -> bool {
    ||| c == ' '
    ||| ('\u{9}' <= c && c <= '\u{d}')
    ||| c == '\u{85}'
    ||| c == '\u{a0}'
    ||| c == '\u{1680}'
    ||| ('\u{2000}' <= c && c <= '\u{200a}')
    ||| c == '\u{2028}'
    ||| c == '\u{2029}'
    ||| c == '\u{202f}'
    ||| c == '\u{205f}'
    ||| c == '\u{3000}'
}

/// Whether `i` is the place of the first `c` in `s`, or the length of `s`
/// where `s` holds no `c`.
pub open spec fn is_first_index_of(s: Seq<char>, c: char, i: int) -> bool {
    &&& 0 <= i <= s.len()
    &&& forall|j: int| 0 <= j < i ==> s[j] != c
    &&& i < s.len() ==> s[i] == c
}

/// The place of the first `c` in `s`, or the length of `s` where there is none.
pub open spec fn first_index_of(s: Seq<char>, c: char) -> int
    decreases s.len(),
{
    if s.len() == 0 || s[0] == c {
        0
    } else {
        1 + first_index_of(s.drop_first(), c)
    }
}

/// The number of white-space characters at the start of `s`.
pub open spec fn leading_spaces(s: Seq<char>) -> int
    decreases s.len(),
{
    if s.len() > 0 && is_space(s[0]) {
        1 + leading_spaces(s.drop_first())
    } else {
        0
    }
}

/// The length of `s` without the white space at its end.
pub open spec fn end_of_text(s: Seq<char>) -> int
    decreases s.len(),
{
    if s.len() > 0 && is_space(s.last()) {
        end_of_text(s.drop_last())
    } else {
        s.len() as int
    }
}

/// `s` without the white space at its start and at its end.
pub open spec fn trimmed(s: Seq<char>) -> Seq<char> {
    let from = leading_spaces(s);
    let to = end_of_text(s);
    if from <= to {
        s.subrange(from, to)
    } else {
        Seq::empty()
    }
}

/// `first_index_of` is the one index that `is_first_index_of` accepts.
pub proof fn lemma_first_index_of(s: Seq<char>, c: char, i: int)
    requires
        is_first_index_of(s, c, i),
    ensures
        first_index_of(s, c) == i,
    decreases s.len(),
{
    if s.len() == 0 || s[0] == c {
        if i > 0 {
            assert(s[0] != c);
        }
    } else {
        let rest = s.drop_first();
        assert forall|j: int| 0 <= j < i - 1 implies rest[j] != c by {
            assert(rest[j] == s[j + 1]);
        }
        lemma_first_index_of(rest, c, i - 1);
    }
}

/// `first_index_of` meets its description.
pub proof fn lemma_first_index_of_is_first(s: Seq<char>, c: char)
    ensures
        is_first_index_of(s, c, first_index_of(s, c)),
    decreases s.len(),
{
    if s.len() == 0 || s[0] == c {
    } else {
        let rest = s.drop_first();
        lemma_first_index_of_is_first(rest, c);
        let i = first_index_of(rest, c);
        assert forall|j: int| 0 <= j < i + 1 implies s[j] != c by {
            if j > 0 {
                assert(rest[j - 1] == s[j]);
            }
        }
    }
}

/// Where white space fills `s` up to `i` and stops there, `i` is `leading_spaces(s)`.
pub proof fn lemma_leading_spaces(s: Seq<char>, i: int)
    requires
        0 <= i <= s.len(),
        forall|j: int| 0 <= j < i ==> is_space(s[j]),
        i < s.len() ==> !is_space(s[i]),
    ensures
        leading_spaces(s) == i,
    decreases s.len(),
{
    if s.len() > 0 && is_space(s[0]) {
        let rest = s.drop_first();
        assert forall|j: int| 0 <= j < i - 1 implies is_space(rest[j]) by {
            assert(rest[j] == s[j + 1]);
        }
        lemma_leading_spaces(rest, i - 1);
    }
}

/// Where white space fills `s` from `i` on and starts there, `i` is `end_of_text(s)`.
pub proof fn lemma_end_of_text(s: Seq<char>, i: int)
    requires
        0 <= i <= s.len(),
        forall|j: int| i <= j < s.len() ==> is_space(s[j]),
        i > 0 ==> !is_space(s[i - 1]),
    ensures
        end_of_text(s) == i,
    decreases s.len(),
{
    if s.len() > 0 && is_space(s.last()) {
        let rest = s.drop_last();
        assert(i < s.len());
        lemma_end_of_text(rest, i);
    }
}

/// Whether `c` is white space.
pub fn space(c: char) -> (r: bool)
    ensures
        r == is_space(c),
{
    c == ' ' || ('\u{9}' <= c && c <= '\u{d}') || c == '\u{85}' || c == '\u{a0}' || c
        == '\u{1680}' || ('\u{2000}' <= c && c <= '\u{200a}') || c == '\u{2028}' || c
        == '\u{2029}' || c == '\u{202f}' || c == '\u{205f}' || c == '\u{3000}'
}

/// The characters of `s`, in order.
pub fn chars_of(s: &str) -> (r: Vec<char>)
    ensures
        r@ == s@,
{
    let mut out: Vec<char> = Vec::new();
    for c in it: s.chars()
        invariant
            out@ == it.seq().take(it.index() as int),
            it.seq() == s@,
    {
        out.push(c);
    }
    out
}

/// The characters of `s` from `from` up to `to`, as a string of their own.
pub fn piece(s: &str, from: usize, to: usize) -> (r: String)
    requires
        from <= to <= s@.len(),
    ensures
        r@ == s@.subrange(from as int, to as int),
{
    let part = s.substring_char(from, to);
    part.to_owned()
}

/// Whether `a` and `b` hold the same characters.
pub fn same_text(a: &str, b: &str) -> (r: bool)
    ensures
        r == (a@ == b@),
{
    let x = chars_of(a);
    let y = chars_of(b);
    assert(x@.subrange(0, x.len() as int) =~= x@);
    same_chars(&x, 0, x.len(), &y)
}

/// Whether the characters of `a` from `from` up to `to` are those of `b`.
pub fn same_chars(a: &Vec<char>, from: usize, to: usize, b: &Vec<char>) -> (r: bool)
    requires
        from <= to <= a.len(),
    ensures
        r == (a@.subrange(from as int, to as int) == b@),
{
    if to - from != b.len() {
        return false;
    }
    let ghost part = a@.subrange(from as int, to as int);
    let mut i: usize = 0;
    while i < b.len()
        invariant
            from <= to <= a.len(),
            to - from == b.len(),
            i <= b.len(),
            part == a@.subrange(from as int, to as int),
            forall|j: int| 0 <= j < i ==> part[j] == b@[j],
        decreases b.len() - i,
    {
        if a[from + i] != b[i] {
            assert(part[i as int] != b@[i as int]);
            return false;
        }
        i += 1;
    }
    assert(part =~= b@);
    true
}

/// The place of the first `c` among the characters of `s` from `from` up to
/// `to`, or `to` where there is none.
pub fn find_char(s: &Vec<char>, from: usize, to: usize, c: char) -> (r: usize)
    requires
        from <= to <= s.len(),
    ensures
        from <= r <= to,
        r - from == first_index_of(s@.subrange(from as int, to as int), c),
{
    let ghost part = s@.subrange(from as int, to as int);
    let mut i: usize = from;
    while i < to && s[i] != c
        invariant
            from <= i <= to <= s.len(),
            part == s@.subrange(from as int, to as int),
            forall|j: int| 0 <= j < i - from ==> part[j] != c,
        decreases to - i,
    {
        i += 1;
    }
    proof {
        lemma_first_index_of(part, c, i - from);
    }
    i
}

/// The bounds of the characters of `s` from `from` up to `to` without the
/// white space at both ends.
pub fn trim_bounds(s: &Vec<char>, from: usize, to: usize) -> (r: (usize, usize))
    requires
        from <= to <= s.len(),
    ensures
        from <= r.0 <= r.1 <= to,
        s@.subrange(r.0 as int, r.1 as int) == trimmed(s@.subrange(from as int, to as int)),
{
    let ghost part = s@.subrange(from as int, to as int);
    let mut a: usize = from;
    while a < to && space(s[a])
        invariant
            from <= a <= to <= s.len(),
            part == s@.subrange(from as int, to as int),
            forall|j: int| 0 <= j < a - from ==> is_space(part[j]),
        decreases to - a,
    {
        a += 1;
    }
    let mut b: usize = to;
    while b > a && space(s[b - 1])
        invariant
            from <= a <= b <= to <= s.len(),
            part == s@.subrange(from as int, to as int),
            forall|j: int| b - from <= j < to - from ==> is_space(part[j]),
        decreases b,
    {
        b -= 1;
    }
    proof {
        lemma_leading_spaces(part, a - from);
        if b > a {
            lemma_end_of_text(part, b - from);
            assert(s@.subrange(a as int, b as int) =~= part.subrange(a - from, b - from));
        } else {
            // Only white space: a character that stopped the first loop
            // would have stopped the second one before it.
            if a < to {
                assert(is_space(part[a - from]));
            }
            lemma_all_space_trims_to_nothing(part);
            assert(s@.subrange(a as int, b as int) =~= Seq::<char>::empty());
        }
    }
    (a, b)
}

/// A text of white space alone trims to the empty text.
pub proof fn lemma_all_space_trims_to_nothing(s: Seq<char>)
    requires
        leading_spaces(s) == s.len(),
    ensures
        trimmed(s) == Seq::<char>::empty(),
{
    let to = end_of_text(s);
    lemma_end_of_text_bounds(s);
    if leading_spaces(s) <= to {
        assert(s.subrange(s.len() as int, to) =~= Seq::<char>::empty());
    }
}

/// `end_of_text` lies within the text.
pub proof fn lemma_end_of_text_bounds(s: Seq<char>)
    ensures
        0 <= end_of_text(s) <= s.len(),
    decreases s.len(),
{
    if s.len() > 0 && is_space(s.last()) {
        lemma_end_of_text_bounds(s.drop_last());
    }
}

} // verus!
