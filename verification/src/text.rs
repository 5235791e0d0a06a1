//! Small helpers on text, stated over sequences of characters.

use vstd::prelude::*;

verus! {

/// Whether `s` begins with `prefix`.
pub open spec fn has_prefix(s: Seq<char>, prefix: Seq<char>) -> bool {
    prefix.len() <= s.len() && s.subrange(0, prefix.len() as int) == prefix
}

/// The characters of a string, one by one.
pub(crate) fn chars_of(s: &str) -> (chars: Vec<char>)
    ensures
        chars@ == s@,
{
    let mut chars: Vec<char> = Vec::new();
    for c in it: s.chars()
        invariant
            it.seq() == s@,
            chars@ == s@.subrange(0, it.index() as int),
    {
        chars.push(c);
    }
    chars
}

/// Whether `s` begins with `prefix`, character by character.
pub(crate) fn starts_with(s: &Vec<char>, prefix: &Vec<char>) -> (yes: bool)
    ensures
        yes == has_prefix(s@, prefix@),
{
    if prefix.len() > s.len() {
        return false;
    }
    let mut i: usize = 0;
    while i < prefix.len()
        invariant
            i <= prefix.len() <= s.len(),
            s@.subrange(0, i as int) == prefix@.subrange(0, i as int),
        decreases prefix.len() - i,
    {
        if s[i] != prefix[i] {
            return false;
        }
        i += 1;
    }
    assert(prefix@.subrange(0, i as int) =~= prefix@);
    true
}

/// Whether `s` is the very text `literal`.
pub(crate) fn same_text(s: &Vec<char>, literal: &str) -> (yes: bool)
    ensures
        yes == (s@ == literal@),
{
    let other = chars_of(literal);
    if s.len() != other.len() {
        return false;
    }
    let yes = starts_with(s, &other);
    assert(s@.subrange(0, s@.len() as int) =~= s@);
    yes
}

/// Whether `s` is one path segment: at least one character, and no slash.
pub open spec fn is_segment(s: Seq<char>) -> bool {
    s.len() > 0 && forall|i: int| 0 <= i < s.len() ==> s[i] != '/'
}

/// Where the first slash of `s` stands, or the length of `s` if it has none.
pub open spec fn first_slash(s: Seq<char>) -> int
    decreases s.len(),
{
    if s.len() == 0 || s[0] == '/' {
        0
    } else {
        1 + first_slash(s.drop_first())
    }
}

/// `first_slash` is within `s`, no slash stands before it, and one stands at
/// it unless it is the end.
pub proof fn lemma_first_slash(s: Seq<char>)
    ensures
        0 <= first_slash(s) <= s.len(),
        forall|i: int| 0 <= i < first_slash(s) ==> s[i] != '/',
        first_slash(s) < s.len() ==> s[first_slash(s)] == '/',
    decreases s.len(),
{
    if s.len() == 0 || s[0] == '/' {
    } else {
        let tail = s.drop_first();
        lemma_first_slash(tail);
        assert forall|i: int| 0 <= i < first_slash(s) implies s[i] != '/' by {
            if i > 0 {
                assert(s[i] == tail[i - 1]);
            }
        }
    }
}

/// The first index at or after `from` where `s` holds a slash, or the length
/// of `s` if none follows.
pub(crate) fn find_slash(s: &Vec<char>, from: usize) -> (at: usize)
    requires
        from <= s.len(),
    ensures
        from <= at <= s.len(),
        at - from == first_slash(s@.skip(from as int)),
        is_segment(s@.skip(from as int)) <==> from < at && at == s.len(),
{
    let mut at: usize = from;
    while at < s.len() && s[at] != '/'
        invariant
            from <= at <= s.len(),
            forall|i: int| from <= i < at ==> s@[i] != '/',
        decreases s.len() - at,
    {
        at += 1;
    }
    proof {
        let rest = s@.skip(from as int);
        lemma_first_slash(rest);
        let first = first_slash(rest);
        if first < at - from {
            assert(rest[first] == s@[from + first]);
        }
        if first > at - from {
            assert(rest[at - from] == s@[at as int]);
        }
        if is_segment(rest) && at < s.len() {
            assert(rest[at - from] == s@[at as int]);
        }
        if from < at && at == s.len() {
            assert forall|i: int| 0 <= i < rest.len() implies rest[i] != '/' by {
                assert(rest[i] == s@[from + i]);
            }
        }
    }
    at
}

} // verus!
