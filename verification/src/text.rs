//! Small helpers on text, by characters.

use vstd::prelude::*;

verus! {

/// The characters of `s`, in order.
pub fn chars_of(s: &str) -> (out: Vec<char>)
    ensures
        out@ == s@,
{
    broadcast use vstd::string::group_string_axioms;

    let mut out: Vec<char> = Vec::new();
    for c in it: s.chars()
        invariant
            it.seq() == s@,
            out@ == it.seq().take(it.index()),
    {
        out.push(c);
    }
    out
}

/// Whether two strings hold the same characters.
pub fn same_text(a: &str, b: &str) -> (same: bool)
    ensures
        same == (a@ == b@),
{
    let left = chars_of(a);
    let right = chars_of(b);
    if left.len() != right.len() {
        return false;
    }
    let mut i: usize = 0;
    while i < left.len()
        invariant
            i <= left.len(),
            left.len() == right.len(),
            left@ == a@,
            right@ == b@,
            forall|j: int| 0 <= j < i ==> left[j] == right[j],
        decreases left.len() - i,
    {
        if left[i] != right[i] {
            return false;
        }
        i = i + 1;
    }
    assert(a@ =~= b@);
    true
}

/// Whether `s` ends with `tail`.
pub open spec fn ends_with(s: Seq<char>, tail: Seq<char>) -> bool {
    tail.len() <= s.len() && s.skip(s.len() - tail.len()) == tail
}

/// Whether `s` ends with `tail`.
pub fn has_suffix(s: &str, tail: &str) -> (found: bool)
    ensures
        found == ends_with(s@, tail@),
{
    let whole = chars_of(s);
    let end = chars_of(tail);
    if end.len() > whole.len() {
        return false;
    }
    let offset: usize = whole.len() - end.len();
    let ghost cut = s@.skip(offset as int);
    let mut i: usize = 0;
    while i < end.len()
        invariant
            i <= end.len(),
            offset + end.len() == whole.len(),
            whole@ == s@,
            end@ == tail@,
            cut == s@.skip(offset as int),
            forall|j: int| 0 <= j < i ==> whole[offset + j] == end[j],
        decreases end.len() - i,
    {
        if whole[offset + i] != end[i] {
            return false;
        }
        i = i + 1;
    }
    assert(cut =~= tail@);
    true
}

/// How many characters of `s` stand before its first space: all of them
/// where it holds none.
pub open spec fn first_space(s: Seq<char>) -> int
    decreases s.len(),
{
    if s.len() == 0 || s[0] == ' ' {
        0
    } else {
        1 + first_space(s.drop_first())
    }
}

/// Whether `s` holds a space.
pub open spec fn has_space(s: Seq<char>) -> bool {
    first_space(s) < s.len()
}

/// `first_space` is the place of the first space: no space stands before
/// it, and a space stands at it unless the text has run out.
pub proof fn lemma_first_space(s: Seq<char>)
    ensures
        0 <= first_space(s) <= s.len(),
        forall|i: int| 0 <= i < first_space(s) ==> s[i] != ' ',
        first_space(s) < s.len() ==> s[first_space(s)] == ' ',
    decreases s.len(),
{
    if s.len() > 0 && s[0] != ' ' {
        let rest = s.drop_first();
        lemma_first_space(rest);
        assert forall|i: int| 0 <= i < first_space(s) implies s[i] != ' ' by {
            if i > 0 {
                assert(s[i] == rest[i - 1]);
            }
        }
    }
}

/// An index with a space at it and none before it is `first_space`.
pub proof fn lemma_first_space_is(s: Seq<char>, k: int)
    requires
        0 <= k <= s.len(),
        forall|i: int| 0 <= i < k ==> s[i] != ' ',
        k < s.len() ==> s[k] == ' ',
    ensures
        first_space(s) == k,
{
    lemma_first_space(s);
}

/// Splits `s` at its first space: what stands before it and what stands
/// after it, the space itself left out. `None` where `s` holds no space.
pub fn split_at_space(s: &str) -> (parts: Option<(&str, &str)>)
    ensures
        parts is Some <==> has_space(s@),
        parts matches Some((head, rest)) ==> head@ == s@.take(first_space(s@)) && rest@
            == s@.skip(first_space(s@) + 1),
{
    let chars = chars_of(s);
    let n = chars.len();
    let mut i: usize = 0;
    while i < n && chars[i] != ' '
        invariant
            i <= n,
            n == chars.len(),
            chars@ == s@,
            forall|j: int| 0 <= j < i ==> s@[j] != ' ',
        decreases n - i,
    {
        i = i + 1;
    }
    proof {
        lemma_first_space_is(s@, i as int);
    }
    if i == n {
        None
    } else {
        let head = s.substring_char(0, i);
        let rest = s.substring_char(i + 1, n);
        Some((head, rest))
    }
}

} // verus!
