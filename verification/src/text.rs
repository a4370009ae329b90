//! Text utilities shared by the generator and the scorer: character
//! extraction, verified substring search, and thin layers over std's
//! case folding and trimming.

use vstd::prelude::*;
use vstd::string::*;

verus! {

/// What `str::to_lowercase` returns: the Unicode lowercase folding of
/// the characters. The result depends on the characters alone.
pub uninterp spec fn lower_of(s: Seq<char>) -> Seq<char>;

/// What `str::trim` returns: the characters with leading and trailing
/// whitespace removed. The result depends on the characters alone.
pub uninterp spec fn trim_of(s: Seq<char>) -> Seq<char>;

/// Relies on str::to_lowercase: the Unicode lowercase equivalent of the
/// string; an empty string stays empty.
#[verifier::external_body]
pub fn lowercase(s: &str) -> (r: String)
    ensures
        r@ == lower_of(s@),
        s@.len() == 0 ==> r@.len() == 0,
{
    s.to_lowercase()
}

/// Relies on str::trim: the string without leading and trailing
/// whitespace; a slice of the input, so never longer than it.
#[verifier::external_body]
pub fn trim_str<'a>(s: &'a str) -> (r: &'a str)
    ensures
        r@ == trim_of(s@),
        r@.len() <= s@.len(),
{
    s.trim()
}

/// Relies on String::push: appends the character at the end of the
/// string.
#[verifier::external_body]
pub fn push_char(s: &mut String, c: char)
    ensures
        final(s)@ == old(s)@.push(c),
{
    s.push(c);
}

/// The characters of `s`, as a vector.
pub fn chars_vec(s: &str) -> (v: Vec<char>)
    ensures
        v@ == s@,
{
    let n = s.unicode_len();
    let mut v: Vec<char> = Vec::new();
    let mut i: usize = 0;
    while i < n
        invariant
            i <= n,
            n == s@.len(),
            v@ == s@.subrange(0, i as int),
        decreases n - i,
    {
        v.push(s.get_char(i));
        proof {
            assert(v@ =~= s@.subrange(0, i + 1 as int));
        }
        i = i + 1;
    }
    proof {
        assert(v@ =~= s@);
    }
    v
}

/// The segments of `s` between occurrences of `sep`, in order. An
/// empty string has one empty segment, and every separator opens a
/// new one.
pub open spec fn split_on(sep: char, s: Seq<char>) -> Seq<Seq<char>>
    decreases s.len(),
{
    if s.len() == 0 {
        seq![Seq::<char>::empty()]
    } else if s.last() == sep {
        split_on(sep, s.drop_last()).push(Seq::empty())
    } else {
        let parts = split_on(sep, s.drop_last());
        parts.update(parts.len() - 1, parts.last().push(s.last()))
    }
}

/// Whether `s` is free of the character `sep`.
pub open spec fn free_of(sep: char, s: Seq<char>) -> bool {
    forall|k: int| 0 <= k < s.len() ==> #[trigger] s[k] != sep
}

/// A split always yields at least one segment.
pub proof fn lemma_split_on_len(sep: char, s: Seq<char>)
    ensures
        split_on(sep, s).len() >= 1,
    decreases s.len(),
{
    if s.len() > 0 {
        lemma_split_on_len(sep, s.drop_last());
    }
}

/// Appending a separator-free run extends the last segment and
/// nothing else.
pub proof fn lemma_split_on_append_run(sep: char, s: Seq<char>, w: Seq<char>)
    requires
        free_of(sep, w),
    ensures
        split_on(sep, s + w) == split_on(sep, s).update(
            split_on(sep, s).len() - 1,
            split_on(sep, s).last() + w,
        ),
    decreases w.len(),
{
    let parts = split_on(sep, s);
    lemma_split_on_len(sep, s);
    if w.len() == 0 {
        assert(s + w =~= s);
        assert(parts.last() + w =~= parts.last());
        assert(parts.update(parts.len() - 1, parts.last() + w) =~= parts);
    } else {
        let w0 = w.drop_last();
        assert(free_of(sep, w0)) by {
            assert(forall|k: int| 0 <= k < w0.len() ==> #[trigger] w0[k] == w[k]);
        }
        lemma_split_on_append_run(sep, s, w0);
        let mid = split_on(sep, s + w0);
        assert(mid == parts.update(parts.len() - 1, parts.last() + w0));
        assert(mid.len() == parts.len());
        assert(mid.last() == parts.last() + w0);
        assert((s + w).len() > 0);
        assert((s + w).last() == w.last());
        assert(w.last() != sep);
        assert((s + w).drop_last() =~= s + w0);
        assert(split_on(sep, s + w) == mid.update(mid.len() - 1, mid.last().push(w.last())));
        assert((parts.last() + w0).push(w.last()) =~= parts.last() + w);
        assert(mid.update(mid.len() - 1, mid.last().push(w.last())) =~= parts.update(
            parts.len() - 1,
            parts.last() + w,
        ));
    }
}

/// Whether `needle` occurs in `hay` as a contiguous run.
pub open spec fn is_substring(needle: Seq<char>, hay: Seq<char>) -> bool {
    exists|k: int|
        0 <= k && k + needle.len() <= hay.len() && #[trigger] hay.subrange(k, k + needle.len())
            == needle
}

/// Whether the characters at `hay[k..]` start with `needle`.
fn matches_at(hay: &Vec<char>, needle: &Vec<char>, k: usize) -> (r: bool)
    requires
        k + needle@.len() <= hay@.len(),
    ensures
        r == (hay@.subrange(k as int, k + needle@.len()) == needle@),
{
    let n = needle.len();
    let m = hay.len();
    let mut j: usize = 0;
    while j < n
        invariant
            j <= n,
            n == needle@.len(),
            m == hay@.len(),
            k + n <= hay@.len(),
            forall|t: int| 0 <= t < j ==> hay@[k + t] == needle@[t],
        decreases n - j,
    {
        if hay[k + j] != needle[j] {
            proof {
                assert(hay@.subrange(k as int, k + needle@.len())[j as int] != needle@[j as int]);
            }
            return false;
        }
        j = j + 1;
    }
    proof {
        assert(hay@.subrange(k as int, k + needle@.len()) =~= needle@);
    }
    true
}

/// Whether `needle` occurs in `hay` as a contiguous run (executable
/// form).
pub fn contains_chars(hay: &Vec<char>, needle: &Vec<char>) -> (r: bool)
    ensures
        r == is_substring(needle@, hay@),
{
    let n = needle.len();
    let m = hay.len();
    if n > m {
        return false;
    }
    if n == 0 {
        proof {
            assert(hay@.subrange(0, 0 + needle@.len() as int) =~= needle@);
        }
        return true;
    }
    let last = m - n;
    let mut k: usize = 0;
    while k <= last
        invariant
            n == needle@.len(),
            m == hay@.len(),
            0 < n <= m,
            last == m - n,
            k <= last + 1,
            forall|t: int|
                0 <= t < k ==> #[trigger] hay@.subrange(t, t + needle@.len()) != needle@,
        decreases m - k,
    {
        if matches_at(hay, needle, k) {
            proof {
                let kk = k as int;
                assert(0 <= kk && kk + needle@.len() <= hay@.len() && hay@.subrange(
                    kk,
                    kk + needle@.len(),
                ) == needle@);
            }
            return true;
        }
        k = k + 1;
    }
    false
}

} // verus!
