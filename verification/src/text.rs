//! Text helpers: cutting a string to a number of characters, and cutting it
//! at a marker character.

use vstd::prelude::*;
use vstd::std_specs::iter::IteratorSpec;
use vstd::string::StrSliceExecFns;
use vstd::string::StringExecFns;

verus! {

/// The text that is shown for `s` under a limit of `limit` characters.
///
/// With `apply` unset, or when `s` is short enough, this is `s` itself;
/// otherwise it is the first `limit` characters of `s`, with no ellipsis.
pub open spec fn truncated(s: Seq<char>, limit: int, apply: bool) -> Seq<char>
    recommends
        0 <= limit,
{
    if apply && s.len() > limit {
        s.take(limit)
    } else {
        s
    }
}

/// Truncation never lengthens and never rewrites: the result is a prefix of
/// the input whose length is the smaller of the input's length and the limit.
/// Without `apply` the input comes back unchanged.
pub proof fn lemma_truncated_is_bounded_prefix(s: Seq<char>, limit: int, apply: bool)
    requires
        0 <= limit,
    ensures
        !apply ==> truncated(s, limit, apply) == s,
        apply ==> truncated(s, limit, apply).len() == (if s.len() <= limit {
            s.len() as int
        } else {
            limit
        }),
        truncated(s, limit, apply).is_prefix_of(s),
{
}

/// Cuts `string` to at most `length` characters when `apply` is set.
///
/// Characters are Unicode scalar values, so the cut never splits one.
pub fn truncate_string(string: String, length: usize, apply: bool) -> (shown: String)
    ensures
        shown@ == truncated(string@, length as int, apply),
        !apply ==> shown@ == string@,
        apply ==> shown@.len() == (if string@.len() <= length {
            string@.len()
        } else {
            length as nat
        }),
        shown@.is_prefix_of(string@),
{
    if apply && string.as_str().unicode_len() > length {
        String::from_str(string.as_str().substring_char(0, length))
    } else {
        string
    }
}

/// The number of characters of `s` that stand before its first `mark`; the
/// length of `s` when it holds no `mark`.
pub open spec fn first_mark(s: Seq<char>, mark: char) -> nat
    decreases s.len(),
{
    if s.len() == 0 || s[0] == mark {
        0
    } else {
        1 + first_mark(s.drop_first(), mark)
    }
}

/// The part of `s` before its first `mark`; all of `s` when it holds none.
pub open spec fn before_mark(s: Seq<char>, mark: char) -> Seq<char> {
    s.take(first_mark(s, mark) as int)
}

/// `first_mark` is the one position within `s` that has no `mark` before it
/// and either a `mark` at it or the end of `s`.
pub proof fn lemma_first_mark_unique(s: Seq<char>, mark: char, n: int)
    requires
        0 <= n <= s.len(),
        forall|j: int| 0 <= j < n ==> s[j] != mark,
        n < s.len() ==> s[n] == mark,
    ensures
        first_mark(s, mark) == n,
    decreases n,
{
    if n > 0 {
        let rest = s.drop_first();
        assert forall|j: int| 0 <= j < n - 1 implies rest[j] != mark by {}
        lemma_first_mark_unique(rest, mark, n - 1);
    }
}

/// The part before the first `mark` is a prefix that holds no `mark`, and it
/// ends at a `mark` unless it is all of `s`.
pub proof fn lemma_before_mark(s: Seq<char>, mark: char)
    ensures
        first_mark(s, mark) <= s.len(),
        before_mark(s, mark).is_prefix_of(s),
        !before_mark(s, mark).contains(mark),
        first_mark(s, mark) < s.len() ==> s[first_mark(s, mark) as int] == mark,
        !s.contains(mark) ==> before_mark(s, mark) == s,
    decreases s.len(),
{
    if s.len() != 0 && s[0] != mark {
        let rest = s.drop_first();
        lemma_before_mark(rest, mark);
        let n: int = first_mark(s, mark) as int;
        assert forall|j: int| 0 <= j < n implies s[j] != mark by {
            if j > 0 {
                assert(before_mark(rest, mark)[j - 1] == rest[j - 1]);
            }
        }
    }
}

/// Keeps the part of `s` that stands before its first `mark`.
pub fn cut_at_mark(s: &str, mark: char) -> (head: String)
    ensures
        head@ == before_mark(s@, mark),
{
    broadcast use vstd::string::group_string_axioms;

    let len: usize = s.unicode_len();
    let mut rest = s.chars();
    let mut n: usize = 0;
    loop
        invariant_except_break
            rest.obeys_prophetic_iter_laws(),
            rest.remaining() == s@.skip(n as int),
        invariant
            n <= len,
            len == s@.len(),
            forall|j: int| 0 <= j < n ==> s@[j] != mark,
        ensures
            n < len ==> s@[n as int] == mark,
        decreases len - n,
    {
        match rest.next() {
            Some(c) => {
                if c == mark {
                    break ;
                }
                n += 1;
            },
            None => {
                break ;
            },
        }
    }
    proof {
        lemma_first_mark_unique(s@, mark, n as int);
    }
    String::from_str(s.substring_char(0, n))
}

} // verus!
