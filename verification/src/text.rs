//! Character-level helpers on string slices.

use vstd::prelude::*;
use vstd::std_specs::iter::IteratorSpec;
use vstd::string::*;

verus! {

/// Whether `a` and `b` hold the same characters.
pub fn same_text(a: &str, b: &str) -> (same: bool)
    ensures
        same == (a@ == b@),
{
    let mut rest = b.chars();
    for c in it: a.chars()
        invariant
            it.seq() == a@,
            it.index() <= b@.len(),
            rest.remaining() == b@.skip(it.index() as int),
            a@.take(it.index() as int) == b@.take(it.index() as int),
    {
        match rest.next() {
            Some(d) => {
                if c != d {
                    return false;
                }
            },
            None => {
                return false;
            },
        }
    }
    let tail = rest.next();
    proof {
        let n = a@.len() as int;
        assert(a@.take(n) =~= a@);
        if tail.is_none() {
            assert(b@.skip(n).len() == 0);
            assert(b@.take(n) =~= b@);
        }
    }
    tail.is_none()
}

/// The position of the first `needle` in `s`, or `None` where `s` holds none.
pub fn find_char(s: &str, needle: char) -> (found: Option<usize>)
    ensures
        match found {
            Some(i) => {
                &&& i < s@.len()
                &&& s@[i as int] == needle
                &&& forall|j: int| 0 <= j < i ==> s@[j] != needle
            },
            None => !s@.contains(needle),
        },
{
    let len = s.unicode_len();
    let mut idx: usize = 0;
    let mut found: Option<usize> = None;
    for c in it: s.chars()
        invariant
            it.seq() == s@,
            idx == it.index(),
            len == s@.len(),
            match found {
                Some(i) => {
                    &&& i < idx
                    &&& s@[i as int] == needle
                    &&& forall|j: int| 0 <= j < i ==> s@[j] != needle
                },
                None => forall|j: int| 0 <= j < idx ==> s@[j] != needle,
            },
    {
        if found.is_none() && c == needle {
            found = Some(idx);
        }
        idx = idx + 1;
    }
    found
}

/// `s` without the `/` characters at its end.
pub open spec fn trim_trailing_slashes(s: Seq<char>) -> Seq<char>
    decreases s.len(),
{
    if s.len() > 0 && s.last() == '/' {
        trim_trailing_slashes(s.drop_last())
    } else {
        s
    }
}

/// A prefix of `s` that is followed by nothing but `/` and does not itself end
/// in `/` is `s` trimmed.
pub proof fn lemma_trim_is_prefix(s: Seq<char>, end: int)
    requires
        0 <= end <= s.len(),
        forall|j: int| end <= j < s.len() ==> s[j] == '/',
        end > 0 ==> s[end - 1] != '/',
    ensures
        trim_trailing_slashes(s) == s.take(end),
    decreases s.len() - end,
{
    if end == s.len() {
        assert(s.take(end) =~= s);
    } else {
        assert(s.last() == '/');
        assert(s.drop_last().take(end) =~= s.take(end));
        lemma_trim_is_prefix(s.drop_last(), end);
    }
}

/// Trimming leaves no `/` at the end.
pub proof fn lemma_trimmed_has_no_trailing_slash(s: Seq<char>)
    ensures
        trim_trailing_slashes(s).len() > 0 ==> trim_trailing_slashes(s).last() != '/',
    decreases s.len(),
{
    if s.len() > 0 && s.last() == '/' {
        lemma_trimmed_has_no_trailing_slash(s.drop_last());
    }
}

/// Text that does not end in `/` is left as it is.
pub proof fn lemma_trim_keeps_unslashed(s: Seq<char>)
    requires
        s.len() == 0 || s.last() != '/',
    ensures
        trim_trailing_slashes(s) == s,
{
}

/// `s` without its trailing `/` characters, as an owned string.
pub fn without_trailing_slashes(s: &str) -> (trimmed: String)
    ensures
        trimmed@ == trim_trailing_slashes(s@),
{
    let len = s.unicode_len();
    let mut idx: usize = 0;
    let mut end: usize = 0;
    for c in it: s.chars()
        invariant
            it.seq() == s@,
            idx == it.index(),
            len == s@.len(),
            end <= idx,
            forall|j: int| end <= j < idx ==> s@[j] == '/',
            end > 0 ==> s@[end - 1] != '/',
    {
        idx = idx + 1;
        if c != '/' {
            end = idx;
        }
    }
    proof {
        lemma_trim_is_prefix(s@, end as int);
    }
    String::from_str(s.substring_char(0, end))
}

} // verus!
