//! Interpretation of the deletion prompt's answer: the answer enables
//! deletion exactly when, stripped of surrounding ASCII whitespace, it reads
//! "yes" or "y" in any casing.

use vstd::prelude::*;

use crate::text::eq_ignore_case;

verus! {

/// ASCII whitespace, as it surrounds a line read from an interactive prompt.
pub open spec fn is_ascii_space(c: char) -> bool {
    c == ' ' || c == '\t' || c == '\n' || c == '\r'
}

/// A string with its leading ASCII whitespace dropped.
pub open spec fn trim_start(s: Seq<char>) -> Seq<char>
    decreases s.len(),
{
    if s.len() > 0 && is_ascii_space(s.first()) {
        trim_start(s.drop_first())
    } else {
        s
    }
}

/// A string with its trailing ASCII whitespace dropped.
pub open spec fn trim_end(s: Seq<char>) -> Seq<char>
    decreases s.len(),
{
    if s.len() > 0 && is_ascii_space(s.last()) {
        trim_end(s.drop_last())
    } else {
        s
    }
}

/// A string with its surrounding ASCII whitespace dropped.
pub open spec fn trimmed(s: Seq<char>) -> Seq<char> {
    trim_end(trim_start(s))
}

/// An answer enables deletion when, trimmed, it reads "yes" or "y" up to
/// ASCII case.
pub open spec fn answer_is_yes(s: Seq<char>) -> bool {
    eq_ignore_case(trimmed(s), "yes"@) || eq_ignore_case(trimmed(s), "y"@)
}

/// `trim_start` drops exactly the leading run of whitespace: if the first
/// `k` characters are whitespace and the next one is not, what remains is
/// the tail from `k`.
proof fn lemma_trim_start_at(s: Seq<char>, k: int)
    requires
        0 <= k <= s.len(),
        forall|j: int| 0 <= j < k ==> is_ascii_space(s[j]),
        k < s.len() ==> !is_ascii_space(s[k]),
    ensures
        trim_start(s) == s.subrange(k, s.len() as int),
    decreases k,
{
    if k == 0 {
        assert(s.subrange(0, s.len() as int) =~= s);
    } else {
        let t = s.drop_first();
        assert(forall|j: int| 0 <= j < k - 1 ==> is_ascii_space(t[j]));
        lemma_trim_start_at(t, k - 1);
        assert(t.subrange(k - 1, t.len() as int) =~= s.subrange(k, s.len() as int));
    }
}

/// `trim_end` drops exactly the trailing run of whitespace: if everything
/// from `k` on is whitespace and the character before `k` is not, what
/// remains is the prefix up to `k`.
proof fn lemma_trim_end_at(s: Seq<char>, k: int)
    requires
        0 <= k <= s.len(),
        forall|j: int| k <= j < s.len() ==> is_ascii_space(s[j]),
        k > 0 ==> !is_ascii_space(s[k - 1]),
    ensures
        trim_end(s) == s.subrange(0, k),
    decreases s.len() - k,
{
    if k == s.len() {
        assert(s.subrange(0, k) =~= s);
    } else {
        let t = s.drop_last();
        assert(forall|j: int| k <= j < t.len() ==> is_ascii_space(t[j]));
        lemma_trim_end_at(t, k);
        assert(t.subrange(0, k) =~= s.subrange(0, k));
    }
}

/// Decides whether `c` is ASCII whitespace.
fn is_space_char(c: char) -> (r: bool)
    ensures
        r == is_ascii_space(c),
{
    c == ' ' || c == '\t' || c == '\n' || c == '\r'
}

/// Strips surrounding ASCII whitespace, as `trimmed` describes.
pub fn trim_ascii<'a>(s: &'a str) -> (r: &'a str)
    ensures
        r@ == trimmed(s@),
{
    let len = s.unicode_len();
    let mut start: usize = 0;
    while start < len && is_space_char(s.get_char(start))
        invariant
            start <= len,
            len == s@.len(),
            forall|j: int| 0 <= j < start ==> is_ascii_space(s@[j]),
        decreases len - start,
    {
        start += 1;
    }
    let mut end: usize = len;
    while end > start && is_space_char(s.get_char(end - 1))
        invariant
            start <= end <= len,
            len == s@.len(),
            forall|j: int| end <= j < len ==> is_ascii_space(s@[j]),
        decreases end,
    {
        end -= 1;
    }
    proof {
        lemma_trim_start_at(s@, start as int);
        let t = s@.subrange(start as int, len as int);
        lemma_trim_end_at(t, end - start);
        assert(t.subrange(0, end - start) =~= s@.subrange(start as int, end as int));
    }
    s.substring_char(start, end)
}

/// Decides whether an answer to the deletion prompt enables deletion, as
/// `answer_is_yes` describes.
pub fn parse_yes_answer(answer: &str) -> (r: bool)
    ensures
        r == answer_is_yes(answer@),
{
    let t = trim_ascii(answer);
    crate::text::eq_ignore_ascii_case(t, "yes") || crate::text::eq_ignore_ascii_case(t, "y")
}

} // verus!
