//! Version handling for the self-update check: extracting a version
//! from a release tag and comparing two dotted version strings.

use crate::charset::is_digit_char;
use crate::text::{chars_vec, split_on};
use vstd::prelude::*;
use vstd::string::*;

verus! {

/// The self-update manager. The network side of updating lives with
/// the host program; the version arithmetic is here.
pub struct UpdateManager;

/// The segments of `s` between `.` separators, in order.
pub open spec fn split_dots(s: Seq<char>) -> Seq<Seq<char>> {
    split_on('.', s)
}

/// The value of a run of decimal digits, most significant first.
pub open spec fn digits_value(s: Seq<char>) -> int
    decreases s.len(),
{
    if s.len() == 0 {
        0
    } else {
        digits_value(s.drop_last()) * 10 + (s.last() as u32 - 48)
    }
}

/// Whether every character of `s` is a decimal digit.
pub open spec fn all_digits(s: Seq<char>) -> bool {
    forall|i: int| 0 <= i < s.len() ==> is_digit_char(#[trigger] s[i])
}

/// What parsing a version segment as a 32-bit number yields: the
/// digits' value when the segment is an optional `+` followed by at
/// least one digit and the value fits, and zero otherwise.
pub open spec fn parse_u32_spec(s: Seq<char>) -> int {
    let body = if s.len() > 0 && s[0] == '+' {
        s.skip(1)
    } else {
        s
    };
    if body.len() > 0 && all_digits(body) && digits_value(body) <= u32::MAX {
        digits_value(body)
    } else {
        0
    }
}

/// Compares the numeric parts from position `i` on, reading missing
/// positions as zero: 1 when the first difference favours `p1`, -1
/// when it favours `p2`, 0 when none exists.
pub open spec fn compare_at(p1: Seq<int>, p2: Seq<int>, i: int) -> int
    decreases (if p1.len() > p2.len() {
        p1.len()
    } else {
        p2.len()
    }) - i,
{
    if i >= p1.len() && i >= p2.len() {
        0
    } else {
        let h1 = if i < p1.len() {
            p1[i]
        } else {
            0
        };
        let h2 = if i < p2.len() {
            p2[i]
        } else {
            0
        };
        if h1 > h2 {
            1
        } else if h1 < h2 {
            -1
        } else {
            compare_at(p1, p2, i + 1)
        }
    }
}

/// The numeric parts of a dotted version string.
pub open spec fn version_parts(s: Seq<char>) -> Seq<int> {
    split_dots(s).map_values(|t: Seq<char>| parse_u32_spec(t))
}

/// The comparison of two dotted version strings, part by part.
pub open spec fn compare_versions_spec(v1: Seq<char>, v2: Seq<char>) -> int {
    compare_at(version_parts(v1), version_parts(v2), 0)
}

impl UpdateManager {
    /// Strips one leading `v` from a release tag, leaving the version.
    pub fn extract_version(tag: &str) -> (r: String)
        ensures
            r@ == (if tag@.len() > 0 && tag@[0] == 'v' {
                tag@.subrange(1, tag@.len() as int)
            } else {
                tag@
            }),
    {
        let n = tag.unicode_len();
        if n > 0 && tag.get_char(0) == 'v' {
            let rest = tag.substring_char(1, n);
            String::from_str(rest)
        } else {
            String::from_str(tag)
        }
    }

    /// Parses one version segment, yielding zero for anything that is
    /// not an optional `+` followed by digits whose value fits 32
    /// bits.
    fn parse_u32_segment(seg: &Vec<char>) -> (r: u32)
        ensures
            r as int == parse_u32_spec(seg@),
    {
        let n = seg.len();
        let start: usize = if n > 0 && seg[0] == '+' {
            1
        } else {
            0
        };
        let ghost body = if seg@.len() > 0 && seg@[0] == '+' {
            seg@.skip(1)
        } else {
            seg@
        };
        proof {
            assert(body =~= seg@.subrange(start as int, n as int));
        }
        if n == start {
            return 0;
        }
        let mut acc: u64 = 0;
        let mut i: usize = start;
        while i < n
            invariant
                start <= i <= n,
                start <= 1,
                n == seg@.len(),
                body == seg@.subrange(start as int, n as int),
                body == (if seg@.len() > 0 && seg@[0] == '+' {
                    seg@.skip(1)
                } else {
                    seg@
                }),
                all_digits(body.subrange(0, i - start)),
                digits_value(body.subrange(0, i - start)) >= 0,
                digits_value(body.subrange(0, i - start)) <= u32::MAX ==> acc as int
                    == digits_value(body.subrange(0, i - start)),
                digits_value(body.subrange(0, i - start)) > u32::MAX ==> acc == 0x100000000u64,
                acc <= 0x100000000u64,
            decreases n - i,
        {
            let c = seg[i];
            let u = c as u32;
            if u < 48 || u > 57 {
                proof {
                    assert(body[i - start] == seg@[i as int]);
                    assert(!is_digit_char(body[i - start]));
                    assert(!all_digits(body));
                }
                return 0;
            }
            let d = (u - 48) as u64;
            let next = acc * 10 + d;
            proof {
                let pre = body.subrange(0, i - start);
                let grown = body.subrange(0, i + 1 - start);
                assert(grown.drop_last() =~= pre);
                assert(grown.last() == seg@[i as int]);
                assert(digits_value(grown) == digits_value(pre) * 10 + (seg@[i as int] as u32
                    - 48));
                assert(all_digits(grown)) by {
                    assert(forall|k: int| 0 <= k < grown.len() ==> #[trigger] grown[k] == body[k]);
                }
                if digits_value(pre) > u32::MAX {
                    assert(digits_value(pre) * 10 >= digits_value(pre));
                    assert(digits_value(grown) > u32::MAX);
                }
            }
            if next > 0xFFFFFFFF {
                acc = 0x100000000;
            } else {
                acc = next;
            }
            i = i + 1;
        }
        proof {
            assert(body.subrange(0, n - start) =~= body);
        }
        if acc > 0xFFFFFFFF {
            return 0;
        }
        acc as u32
    }

    /// Splits a version string on `.` and parses each segment.
    fn parse_parts(s: &str) -> (parts: Vec<u32>)
        ensures
            parts@.len() == split_dots(s@).len(),
            forall|k: int|
                0 <= k < parts@.len() ==> #[trigger] parts@[k] as int == parse_u32_spec(
                    split_dots(s@)[k],
                ),
    {
        let chars = chars_vec(s);
        let n = chars.len();
        let mut parts: Vec<u32> = Vec::new();
        let mut current: Vec<char> = Vec::new();
        let ghost mut raw_done: Seq<Seq<char>> = Seq::empty();
        let mut i: usize = 0;
        proof {
            assert(split_dots(s@.subrange(0, 0)) =~= raw_done.push(current@));
        }
        while i < n
            invariant
                i <= n,
                n == s@.len(),
                chars@ == s@,
                split_dots(s@.subrange(0, i as int)) == raw_done.push(current@),
                parts@.len() == raw_done.len(),
                forall|k: int|
                    0 <= k < parts@.len() ==> #[trigger] parts@[k] as int == parse_u32_spec(
                        raw_done[k],
                    ),
            decreases n - i,
        {
            let c = chars[i];
            proof {
                assert(s@.subrange(0, i + 1).drop_last() =~= s@.subrange(0, i as int));
                assert(s@.subrange(0, i + 1).last() == s@[i as int]);
            }
            if c == '.' {
                let v = Self::parse_u32_segment(&current);
                parts.push(v);
                proof {
                    raw_done = raw_done.push(current@);
                }
                current = Vec::new();
                proof {
                    assert(split_dots(s@.subrange(0, i + 1)) =~= raw_done.push(current@));
                }
            } else {
                current.push(c);
                proof {
                    let old_parts = split_dots(s@.subrange(0, i as int));
                    assert(split_dots(s@.subrange(0, i + 1)) =~= old_parts.update(
                        old_parts.len() - 1,
                        old_parts.last().push(s@[i as int]),
                    ));
                    assert(split_dots(s@.subrange(0, i + 1)) =~= raw_done.push(current@));
                }
            }
            i = i + 1;
        }
        let v = Self::parse_u32_segment(&current);
        parts.push(v);
        proof {
            assert(s@.subrange(0, n as int) =~= s@);
            raw_done = raw_done.push(current@);
            assert(split_dots(s@) == raw_done);
        }
        parts
    }

    /// Compares two dotted version strings part by part, reading
    /// missing parts as zero: 1 when `v1` is newer, -1 when `v2` is,
    /// 0 when they are equal.
    pub fn compare_versions(v1: &str, v2: &str) -> (r: i32)
        ensures
            r == compare_versions_spec(v1@, v2@),
            -1 <= r <= 1,
    {
        let p1 = Self::parse_parts(v1);
        let p2 = Self::parse_parts(v2);
        let ghost sp1 = version_parts(v1@);
        let ghost sp2 = version_parts(v2@);
        proof {
            assert(sp1.len() == p1@.len());
            assert(sp2.len() == p2@.len());
            assert(forall|k: int| 0 <= k < sp1.len() ==> #[trigger] sp1[k] == p1@[k] as int);
            assert(forall|k: int| 0 <= k < sp2.len() ==> #[trigger] sp2[k] == p2@[k] as int);
        }
        let n1 = p1.len();
        let n2 = p2.len();
        let max_len = if n1 > n2 {
            n1
        } else {
            n2
        };
        let mut i: usize = 0;
        while i < max_len
            invariant
                i <= max_len,
                n1 == p1@.len(),
                n2 == p2@.len(),
                max_len == (if n1 > n2 {
                    n1
                } else {
                    n2
                }),
                sp1.len() == n1,
                sp2.len() == n2,
                forall|k: int| 0 <= k < sp1.len() ==> #[trigger] sp1[k] == p1@[k] as int,
                forall|k: int| 0 <= k < sp2.len() ==> #[trigger] sp2[k] == p2@[k] as int,
                compare_versions_spec(v1@, v2@) == compare_at(sp1, sp2, i as int),
            decreases max_len - i,
        {
            let h1: u32 = if i < n1 {
                p1[i]
            } else {
                0
            };
            let h2: u32 = if i < n2 {
                p2[i]
            } else {
                0
            };
            if h1 > h2 {
                return 1;
            } else if h1 < h2 {
                return -1;
            }
            i = i + 1;
        }
        0
    }
}

} // verus!
