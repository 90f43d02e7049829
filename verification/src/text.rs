//! String helpers: equality on string slices and whitespace trimming, with
//! their mathematical statements.

use vstd::prelude::*;
use vstd::string::StrSliceExecFns;

verus! {

/// Whether `a` and `b` hold the same characters.
pub fn str_eq(a: &str, b: &str) -> (r: bool)
    ensures
        r == (a@ == b@),
{
    let x: String = a.to_owned();
    let y: String = b.to_owned();
    x == y
}

/// The whitespace characters stripped from probe responses: space, tab,
/// carriage return, line feed.
pub open spec fn is_space(c: char) -> bool {
    c == ' ' || c == '\t' || c == '\r' || c == '\n'
}

/// Executable test for `is_space`.
pub fn is_space_char(c: char) -> (r: bool)
    ensures
        r == is_space(c),
{
    c == ' ' || c == '\t' || c == '\r' || c == '\n'
}

/// `s` with its leading whitespace removed.
pub open spec fn trim_start(s: Seq<char>) -> Seq<char>
    decreases s.len(),
{
    if s.len() > 0 && is_space(s[0]) {
        trim_start(s.drop_first())
    } else {
        s
    }
}

/// `s` with its trailing whitespace removed.
pub open spec fn trim_end(s: Seq<char>) -> Seq<char>
    decreases s.len(),
{
    if s.len() > 0 && is_space(s.last()) {
        trim_end(s.drop_last())
    } else {
        s
    }
}

/// `s` with surrounding whitespace removed.
pub open spec fn spec_trim(s: Seq<char>) -> Seq<char> {
    trim_end(trim_start(s))
}

/// If the first `i` characters of `s` are whitespace and the next one (if
/// any) is not, trimming the front keeps exactly the suffix from `i`.
proof fn lemma_trim_start_at(s: Seq<char>, i: int)
    requires
        0 <= i <= s.len(),
        forall|j: int| 0 <= j < i ==> is_space(s[j]),
        i < s.len() ==> !is_space(s[i]),
    ensures
        trim_start(s) =~= s.subrange(i, s.len() as int),
    decreases i,
{
    if i == 0 {
    } else {
        assert(is_space(s[0]));
        lemma_trim_start_at(s.drop_first(), i - 1);
        assert(s.drop_first().subrange(i - 1, s.drop_first().len() as int) =~= s.subrange(
            i,
            s.len() as int,
        ));
    }
}

/// If the characters of `s` from `e` on are whitespace and the one before
/// `e` (if any) is not, trimming the back keeps exactly the prefix up to `e`.
proof fn lemma_trim_end_at(s: Seq<char>, e: int)
    requires
        0 <= e <= s.len(),
        forall|j: int| e <= j < s.len() ==> is_space(s[j]),
        e > 0 ==> !is_space(s[e - 1]),
    ensures
        trim_end(s) =~= s.subrange(0, e),
    decreases s.len() - e,
{
    if e == s.len() {
        if s.len() > 0 && is_space(s.last()) {
            assert(!is_space(s[e - 1]));
            assert(false);
        }
        assert(s.subrange(0, e) =~= s);
    } else {
        assert(is_space(s.last()));
        lemma_trim_end_at(s.drop_last(), e);
        assert(s.drop_last().subrange(0, e) =~= s.subrange(0, e));
    }
}

/// Removes surrounding whitespace from `s`.
pub fn trim(s: &str) -> (r: String)
    ensures
        r@ == spec_trim(s@),
{
    let n = s.unicode_len();
    let mut start: usize = 0;
    while start < n && is_space_char(s.get_char(start))
        invariant
            n == s@.len(),
            start <= n,
            forall|j: int| 0 <= j < start ==> is_space(s@[j]),
        decreases n - start,
    {
        start = start + 1;
    }
    let mut end: usize = n;
    while end > start && is_space_char(s.get_char(end - 1))
        invariant
            n == s@.len(),
            start <= end <= n,
            forall|j: int| 0 <= j < start ==> is_space(s@[j]),
            forall|j: int| end <= j < n ==> is_space(s@[j]),
        decreases end,
    {
        end = end - 1;
    }
    proof {
        lemma_trim_start_at(s@, start as int);
        let tail = s@.subrange(start as int, s@.len() as int);
        lemma_trim_end_at(tail, end - start);
        assert(tail.subrange(0, end - start) =~= s@.subrange(start as int, end as int));
    }
    let piece = s.substring_char(start, end);
    piece.to_owned()
}

} // verus!
