//! Text: comparing strings and trimming white space.

use vstd::prelude::*;

verus! {

/// Equality of two string slices, which std decides by comparing their bytes:
/// they are equal exactly when they hold the same characters.
pub assume_specification[ <str as PartialEq>::eq ](a: &str, b: &str) -> (same: bool)
    ensures
        same == (a@ == b@),
;

/// The text of a string that may be missing.
pub open spec fn text_of(text: Option<String>) -> Option<Seq<char>> {
    match text {
        Some(text) => Some(text@),
        None => None,
    }
}

/// Whether `c` has the Unicode property White_Space, as `char::is_whitespace`
/// tells it.
pub uninterp spec fn white_space(c: char) -> bool;

/// `char::is_whitespace`: the answer is the character's White_Space property,
/// and depends on nothing else.
pub assume_specification[ char::is_whitespace ](c: char) -> (white: bool)
    ensures
        white == white_space(c),
;

/// The number of white-space characters at the start of `s`.
pub open spec fn leading_white(s: Seq<char>) -> nat
    decreases s.len(),
{
    if s.len() > 0 && white_space(s[0]) {
        1 + leading_white(s.drop_first())
    } else {
        0
    }
}

/// The number of white-space characters at the end of `s`.
pub open spec fn trailing_white(s: Seq<char>) -> nat
    decreases s.len(),
{
    if s.len() > 0 && white_space(s.last()) {
        1 + trailing_white(s.drop_last())
    } else {
        0
    }
}

/// `s` without the white space at its start and at its end.
pub open spec fn trimmed(s: Seq<char>) -> Seq<char> {
    let rest = s.skip(leading_white(s) as int);
    rest.take(rest.len() - trailing_white(rest))
}

/// `leading_white(s)` is the one index up to which all is white space and at
/// which white space ends.
pub proof fn lemma_leading_white(s: Seq<char>, n: int)
    requires
        0 <= n <= s.len(),
        forall|i: int| 0 <= i < n ==> white_space(#[trigger] s[i]),
        n < s.len() ==> !white_space(s[n]),
    ensures
        leading_white(s) == n,
    decreases s.len(),
{
    if n > 0 {
        let rest = s.drop_first();
        assert forall|i: int| 0 <= i < n - 1 implies white_space(#[trigger] rest[i]) by {
            assert(rest[i] == s[i + 1]);
        }
        lemma_leading_white(rest, n - 1);
    }
}

/// `trailing_white(s)` is the one count of characters at the end that are all
/// white space and before which white space ends.
pub proof fn lemma_trailing_white(s: Seq<char>, n: int)
    requires
        0 <= n <= s.len(),
        forall|i: int| s.len() - n <= i < s.len() ==> white_space(#[trigger] s[i]),
        n < s.len() ==> !white_space(s[s.len() - n - 1]),
    ensures
        trailing_white(s) == n,
    decreases s.len(),
{
    if n > 0 {
        let rest = s.drop_last();
        assert forall|i: int| rest.len() - (n - 1) <= i < rest.len() implies white_space(
            #[trigger] rest[i],
        ) by {
            assert(rest[i] == s[i]);
        }
        lemma_trailing_white(rest, n - 1);
    }
}

/// The white space at the start of `s` does not go beyond `s`, all of it is
/// white space, and what follows it is none.
pub proof fn lemma_leading_white_ends(s: Seq<char>)
    ensures
        leading_white(s) <= s.len(),
        forall|i: int| 0 <= i < leading_white(s) ==> white_space(#[trigger] s[i]),
        leading_white(s) < s.len() ==> !white_space(s[leading_white(s) as int]),
    decreases s.len(),
{
    if s.len() > 0 && white_space(s[0]) {
        let rest = s.drop_first();
        lemma_leading_white_ends(rest);
        assert forall|i: int| 0 <= i < leading_white(s) implies white_space(#[trigger] s[i]) by {
            if i > 0 {
                assert(s[i] == rest[i - 1]);
            }
        }
        if leading_white(s) < s.len() {
            assert(s[leading_white(s) as int] == rest[leading_white(rest) as int]);
        }
    }
}

/// The white space at the end of `s` does not go beyond `s`, all of it is
/// white space, and what stands before it is none.
pub proof fn lemma_trailing_white_ends(s: Seq<char>)
    ensures
        trailing_white(s) <= s.len(),
        forall|i: int| s.len() - trailing_white(s) <= i < s.len() ==> white_space(#[trigger] s[i]),
        trailing_white(s) < s.len() ==> !white_space(s[s.len() - trailing_white(s) - 1]),
    decreases s.len(),
{
    if s.len() > 0 && white_space(s.last()) {
        let rest = s.drop_last();
        lemma_trailing_white_ends(rest);
        assert forall|i: int| s.len() - trailing_white(s) <= i < s.len() implies white_space(
            #[trigger] s[i],
        ) by {
            if i < s.len() - 1 {
                assert(s[i] == rest[i]);
            }
        }
        if trailing_white(s) < s.len() {
            assert(s[s.len() - trailing_white(s) - 1] == rest[rest.len() - trailing_white(rest)
                - 1]);
        }
    }
}

/// What trimming leaves is the part of the text between the white space at
/// its start and the white space at its end: all that is cut is white space,
/// and what is left neither starts nor ends with white space.
pub proof fn law_trimmed_is_the_core(s: Seq<char>)
    ensures
        ({
            let t = trimmed(s);
            let start = leading_white(s) as int;
            &&& 0 <= start <= start + t.len() <= s.len()
            &&& t == s.subrange(start, start + t.len())
            &&& forall|i: int| 0 <= i < start ==> white_space(#[trigger] s[i])
            &&& forall|i: int| start + t.len() <= i < s.len() ==> white_space(#[trigger] s[i])
            &&& t.len() > 0 ==> !white_space(t.first()) && !white_space(t.last())
        }),
{
    lemma_leading_white_ends(s);
    let start = leading_white(s) as int;
    let rest = s.skip(start);
    lemma_trailing_white_ends(rest);
    let t = trimmed(s);
    assert(t =~= s.subrange(start, start + t.len()));
    assert forall|i: int| start + t.len() <= i < s.len() implies white_space(#[trigger] s[i]) by {
        assert(s[i] == rest[i - start]);
    }
    if t.len() > 0 {
        assert(t.first() == s[start]);
        assert(t.last() == rest[rest.len() - trailing_white(rest) - 1]);
        if trailing_white(rest) == rest.len() - 1 {
            assert(rest[0] == s[start]);
        }
    }
}

/// Trimming a trimmed text changes nothing.
pub proof fn law_trimmed_once_is_enough(s: Seq<char>)
    ensures
        trimmed(trimmed(s)) == trimmed(s),
{
    law_trimmed_is_the_core(s);
    let t = trimmed(s);
    lemma_leading_white(t, 0);
    assert(t.skip(0) =~= t);
    lemma_trailing_white(t, 0);
    assert(t.take(t.len() as int) =~= t);
}

/// A copy of `s` without the white space at its start and at its end.
pub fn trim(s: &str) -> (t: String)
    ensures
        t@ == trimmed(s@),
{
    let len = s.unicode_len();
    let mut at: usize = 0;
    let mut start: usize = 0;
    let mut end: usize = 0;
    let mut found = false;
    for c in it: s.chars()
        invariant
            len == s@.len(),
            it.seq() == s@,
            at == it.index(),
            !found ==> forall|i: int| 0 <= i < at ==> white_space(#[trigger] s@[i]),
            found ==> start < end <= at,
            found ==> !white_space(s@[start as int]) && !white_space(s@[end - 1]),
            found ==> forall|i: int| 0 <= i < start ==> white_space(#[trigger] s@[i]),
            found ==> forall|i: int| end <= i < at ==> white_space(#[trigger] s@[i]),
    {
        if !c.is_whitespace() {
            if !found {
                start = at;
                found = true;
            }
            end = at + 1;
        }
        at = at + 1;
    }
    if !found {
        proof {
            lemma_leading_white(s@, len as int);
            lemma_trailing_white(s@.skip(len as int), 0);
        }
        return String::new();
    }
    proof {
        lemma_leading_white(s@, start as int);
        let rest = s@.skip(start as int);
        assert forall|i: int| rest.len() - (len - end) <= i < rest.len() implies white_space(
            #[trigger] rest[i],
        ) by {
            assert(rest[i] == s@[i + start]);
        }
        assert(rest[rest.len() - (len - end) - 1] == s@[end - 1]);
        lemma_trailing_white(rest, len - end);
        assert(s@.subrange(start as int, end as int) =~= rest.take(rest.len() - (len - end)));
    }
    s.substring_char(start, end).to_owned()
}

} // verus!
