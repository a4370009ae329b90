//! The password health check: a scorer that rates a password by
//! length, character diversity, complexity and entropy, and reports
//! class flags, warnings and suggestions as structured data.

use crate::charset::{
    char_is_digit, char_is_lowercase, char_is_special, char_is_uppercase, is_digit_char,
    is_lowercase_char, is_special_char, is_uppercase_char, seq_has_digit, seq_has_lowercase,
    seq_has_special, seq_has_uppercase,
};
use crate::errors::HealthCheckError;
use crate::text::{
    chars_vec, contains_chars, is_substring, lower_of, lowercase, trim_of, trim_str,
};
use vstd::prelude::*;
use vstd::string::*;

verus! {

/// The password health check.
pub struct HealthCheck;

/// The four named sub-scores and their total.
#[derive(Debug, Clone, PartialEq, Eq, Structural)]
pub struct PasswordScore {
    /// Sum of the four sub-scores, `0..=100`.
    pub total: u32,
    /// Length band score, `0..=25`.
    pub length_score: u32,
    /// Class diversity score, `0..=30`.
    pub diversity_score: u32,
    /// Complexity score, `0..=25`.
    pub complexity_score: u32,
    /// Entropy band score, `0..=20`.
    pub entropy_score: u32,
}

/// The rating band derived from the total score.
#[derive(Debug, Clone, Copy, PartialEq, Eq, Structural)]
pub enum Rating {
    /// Total of at most 40.
    Weak,
    /// Total of 41 to 60.
    Medium,
    /// Total of 61 to 80.
    Strong,
    /// Total above 80.
    VeryStrong,
}

/// A warning token; rendering it is the caller's concern.
#[derive(Debug, Clone, Copy, PartialEq, Eq, Structural)]
pub enum Warning {
    /// The password has fewer than eight characters.
    TooShort,
    /// No lowercase letter is present.
    NoLowercase,
    /// No uppercase letter is present.
    NoUppercase,
    /// No digit is present.
    NoDigit,
    /// No special character is present.
    NoSpecial,
    /// The password matches the known-weak corpus.
    CommonPatterns,
    /// Three identical characters stand in a row.
    Repetitions,
}

/// A suggestion token; rendering it is the caller's concern.
#[derive(Debug, Clone, Copy, PartialEq, Eq, Structural)]
pub enum Suggestion {
    /// Use at least eight characters.
    UseLongerPassword,
    /// Add lowercase letters.
    AddLowercase,
    /// Add uppercase letters.
    AddUppercase,
    /// Add digits.
    AddDigits,
    /// Add special characters.
    AddSpecial,
    /// Avoid simple, well-known sequences.
    AvoidCommonPatterns,
    /// Avoid repeated characters.
    AvoidRepetitions,
}

/// The full result of one analysis.
#[derive(Debug, Clone, PartialEq, Eq)]
pub struct PasswordAnalysis {
    /// The sub-scores and their total.
    pub score: PasswordScore,
    /// The rating band of the total.
    pub rating: Rating,
    /// Whether a lowercase letter is present.
    pub has_lowercase: bool,
    /// Whether an uppercase letter is present.
    pub has_uppercase: bool,
    /// Whether a digit is present.
    pub has_digit: bool,
    /// Whether a special character is present.
    pub has_special: bool,
    /// The password's length in characters.
    pub length: usize,
    /// Sum of the sizes of the classes present; the entropy in bits is
    /// `length * log2(charset_size)`, or zero when this is zero.
    pub charset_size: u32,
    /// One warning per failed check, in check order.
    pub warnings: Vec<Warning>,
    /// One suggestion per failed check, in check order.
    pub suggestions: Vec<Suggestion>,
}

/// The length band score: 0 up to 7 characters, 10 up to 12, 20 up to
/// 16, 25 above.
pub open spec fn length_score_spec(len: int) -> int {
    if len <= 7 {
        0
    } else if len <= 12 {
        10
    } else if len <= 16 {
        20
    } else {
        25
    }
}

/// The diversity score: five points per class present, ten more when
/// all four are.
pub open spec fn diversity_score_spec(s: Seq<char>) -> int {
    (if seq_has_lowercase(s) {
        5int
    } else {
        0int
    }) + (if seq_has_uppercase(s) {
        5int
    } else {
        0int
    }) + (if seq_has_digit(s) {
        5int
    } else {
        0int
    }) + (if seq_has_special(s) {
        5int
    } else {
        0int
    }) + (if seq_has_lowercase(s) && seq_has_uppercase(s) && seq_has_digit(s) && seq_has_special(
        s,
    ) {
        10int
    } else {
        0int
    })
}

/// Whether three identical characters stand in a row somewhere in `s`.
pub open spec fn has_repetitions_spec(s: Seq<char>) -> bool {
    exists|i: int| 0 <= i && i + 2 < s.len() && #[trigger] s[i] == s[i + 1] && s[i + 1] == s[i + 2]
}

/// Whether the lowercased password `p` matches one corpus line: the
/// line, trimmed and lowercased, is non-empty and equals `p`, occurs
/// inside `p`, or has `p` inside it.
pub open spec fn entry_matches(p: Seq<char>, line: Seq<char>) -> bool {
    let e = lower_of(trim_of(line));
    e.len() > 0 && (p == e || is_substring(e, p) || is_substring(p, e))
}

/// Whether the lowercased password `p` matches any line of the corpus.
pub open spec fn has_common_spec(p: Seq<char>, corpus: Seq<Seq<char>>) -> bool {
    exists|i: int| 0 <= i < corpus.len() && entry_matches(p, #[trigger] corpus[i])
}

/// The complexity score: fifteen points for no corpus match, ten for
/// no three-in-a-row repetition.
pub open spec fn complexity_score_spec(s: Seq<char>, corpus: Seq<Seq<char>>) -> int {
    (if !has_common_spec(lower_of(s), corpus) {
        15int
    } else {
        0int
    }) + (if !has_repetitions_spec(s) {
        10int
    } else {
        0int
    })
}

/// The effective alphabet size: the sizes of the classes present,
/// summed, each class counted once.
pub open spec fn charset_size_spec(s: Seq<char>) -> int {
    (if seq_has_lowercase(s) {
        26int
    } else {
        0int
    }) + (if seq_has_uppercase(s) {
        26int
    } else {
        0int
    }) + (if seq_has_digit(s) {
        10int
    } else {
        0int
    }) + (if seq_has_special(s) {
        14int
    } else {
        0int
    })
}

/// `b` to the power `e`.
pub open spec fn pow_nat(b: nat, e: nat) -> nat
    decreases e,
{
    if e == 0 {
        1
    } else {
        b * pow_nat(b, (e - 1) as nat)
    }
}

/// The entropy band score. The entropy of a password of length `len`
/// over an alphabet of size `cs` is `len * log2(cs)` bits, which lies
/// under a threshold of `t` bits exactly when `cs^len < 2^t`; the
/// bands are 5 under 30 bits, 10 under 40, 15 under 50, 20 above, and
/// 0 when no class is present at all.
pub open spec fn entropy_score_spec(s: Seq<char>) -> int {
    let cs = charset_size_spec(s);
    if cs == 0 {
        0
    } else if pow_nat(cs as nat, s.len()) < 0x40000000 {
        5
    } else if pow_nat(cs as nat, s.len()) < 0x10000000000 {
        10
    } else if pow_nat(cs as nat, s.len()) < 0x4000000000000 {
        15
    } else {
        20
    }
}

/// The total score: the four sub-scores summed.
pub open spec fn total_score_spec(s: Seq<char>, corpus: Seq<Seq<char>>) -> int {
    length_score_spec(s.len() as int) + diversity_score_spec(s) + complexity_score_spec(s, corpus)
        + entropy_score_spec(s)
}

/// The rating band of a total score.
pub open spec fn rating_spec(score: int) -> Rating {
    if score <= 40 {
        Rating::Weak
    } else if score <= 60 {
        Rating::Medium
    } else if score <= 80 {
        Rating::Strong
    } else {
        Rating::VeryStrong
    }
}

/// The warnings of one analysis: each failed check appends exactly one
/// warning, in check order — too short, missing classes, corpus match,
/// repetition.
pub open spec fn warnings_spec(s: Seq<char>, corpus: Seq<Seq<char>>) -> Seq<Warning> {
    let w0 = Seq::<Warning>::empty();
    let w1 = if s.len() < 8 {
        w0.push(Warning::TooShort)
    } else {
        w0
    };
    let w2 = if !seq_has_lowercase(s) {
        w1.push(Warning::NoLowercase)
    } else {
        w1
    };
    let w3 = if !seq_has_uppercase(s) {
        w2.push(Warning::NoUppercase)
    } else {
        w2
    };
    let w4 = if !seq_has_digit(s) {
        w3.push(Warning::NoDigit)
    } else {
        w3
    };
    let w5 = if !seq_has_special(s) {
        w4.push(Warning::NoSpecial)
    } else {
        w4
    };
    let w6 = if has_common_spec(lower_of(s), corpus) {
        w5.push(Warning::CommonPatterns)
    } else {
        w5
    };
    if has_repetitions_spec(s) {
        w6.push(Warning::Repetitions)
    } else {
        w6
    }
}

/// The suggestions of one analysis: each failed check appends exactly
/// one suggestion, paired one to one with the warnings.
pub open spec fn suggestions_spec(s: Seq<char>, corpus: Seq<Seq<char>>) -> Seq<Suggestion> {
    let w0 = Seq::<Suggestion>::empty();
    let w1 = if s.len() < 8 {
        w0.push(Suggestion::UseLongerPassword)
    } else {
        w0
    };
    let w2 = if !seq_has_lowercase(s) {
        w1.push(Suggestion::AddLowercase)
    } else {
        w1
    };
    let w3 = if !seq_has_uppercase(s) {
        w2.push(Suggestion::AddUppercase)
    } else {
        w2
    };
    let w4 = if !seq_has_digit(s) {
        w3.push(Suggestion::AddDigits)
    } else {
        w3
    };
    let w5 = if !seq_has_special(s) {
        w4.push(Suggestion::AddSpecial)
    } else {
        w4
    };
    let w6 = if has_common_spec(lower_of(s), corpus) {
        w5.push(Suggestion::AvoidCommonPatterns)
    } else {
        w5
    };
    if has_repetitions_spec(s) {
        w6.push(Suggestion::AvoidRepetitions)
    } else {
        w6
    }
}

/// A power of a base at least one never shrinks as the exponent grows.
proof fn lemma_pow_mono(b: nat, e1: nat, e2: nat)
    requires
        b >= 1,
        e1 <= e2,
    ensures
        pow_nat(b, e1) <= pow_nat(b, e2),
    decreases e2,
{
    if e1 < e2 {
        lemma_pow_mono(b, e1, (e2 - 1) as nat);
        assert(pow_nat(b, e2) == b * pow_nat(b, (e2 - 1) as nat));
        assert(b * pow_nat(b, (e2 - 1) as nat) >= 1 * pow_nat(b, (e2 - 1) as nat))
            by (nonlinear_arith)
            requires
                b >= 1,
        ;
    }
}

/// What a finished analysis of `s` against `corpus` holds: every field
/// is pinned by the spec functions above.
pub open spec fn analysis_ok(s: Seq<char>, corpus: Seq<Seq<char>>, a: PasswordAnalysis) -> bool {
    &&& a.length == s.len()
    &&& a.has_lowercase == seq_has_lowercase(s)
    &&& a.has_uppercase == seq_has_uppercase(s)
    &&& a.has_digit == seq_has_digit(s)
    &&& a.has_special == seq_has_special(s)
    &&& a.score.length_score == length_score_spec(s.len() as int)
    &&& a.score.diversity_score == diversity_score_spec(s)
    &&& a.score.complexity_score == complexity_score_spec(s, corpus)
    &&& a.score.entropy_score == entropy_score_spec(s)
    &&& a.score.total == total_score_spec(s, corpus)
    &&& a.rating == rating_spec(a.score.total as int)
    &&& a.charset_size == charset_size_spec(s)
    &&& a.warnings@ == warnings_spec(s, corpus)
    &&& a.suggestions@ == suggestions_spec(s, corpus)
}

impl HealthCheck {
    /// The four class-presence flags of the password.
    fn class_flags(password: &str) -> (r: (bool, bool, bool, bool))
        ensures
            r.0 == seq_has_lowercase(password@),
            r.1 == seq_has_uppercase(password@),
            r.2 == seq_has_digit(password@),
            r.3 == seq_has_special(password@),
    {
        let n = password.unicode_len();
        let mut has_lower = false;
        let mut has_upper = false;
        let mut has_digit = false;
        let mut has_special = false;
        let mut i: usize = 0;
        while i < n
            invariant
                i <= n,
                n == password@.len(),
                has_lower == exists|t: int|
                    0 <= t < i && is_lowercase_char(#[trigger] password@[t]),
                has_upper == exists|t: int|
                    0 <= t < i && is_uppercase_char(#[trigger] password@[t]),
                has_digit == exists|t: int| 0 <= t < i && is_digit_char(#[trigger] password@[t]),
                has_special == exists|t: int|
                    0 <= t < i && is_special_char(#[trigger] password@[t]),
            decreases n - i,
        {
            let c = password.get_char(i);
            if char_is_lowercase(c) {
                has_lower = true;
            } else if char_is_uppercase(c) {
                has_upper = true;
            } else if char_is_digit(c) {
                has_digit = true;
            } else if char_is_special(c) {
                has_special = true;
            }
            i = i + 1;
        }
        (has_lower, has_upper, has_digit, has_special)
    }

    /// The length band score of a password of `length` characters.
    pub fn calculate_length_score(length: usize) -> (r: u32)
        ensures
            r == length_score_spec(length as int),
    {
        if length <= 7 {
            0
        } else if length <= 12 {
            10
        } else if length <= 16 {
            20
        } else {
            25
        }
    }

    /// The diversity score of the password, along with its four
    /// class-presence flags.
    pub fn calculate_diversity_score(password: &str) -> (r: (u32, bool, bool, bool, bool))
        ensures
            r.0 == diversity_score_spec(password@),
            r.1 == seq_has_lowercase(password@),
            r.2 == seq_has_uppercase(password@),
            r.3 == seq_has_digit(password@),
            r.4 == seq_has_special(password@),
    {
        let (has_lower, has_upper, has_digit, has_special) = Self::class_flags(password);
        let mut score: u32 = 0;
        if has_lower {
            score = score + 5;
        }
        if has_upper {
            score = score + 5;
        }
        if has_digit {
            score = score + 5;
        }
        if has_special {
            score = score + 5;
        }
        if has_lower && has_upper && has_digit && has_special {
            score = score + 10;
        }
        (score, has_lower, has_upper, has_digit, has_special)
    }

    /// Whether three identical characters stand in a row somewhere in
    /// the password.
    pub fn has_repetitions(password: &str) -> (r: bool)
        ensures
            r == has_repetitions_spec(password@),
    {
        let chars = chars_vec(password);
        let n = chars.len();
        if n < 3 {
            return false;
        }
        let mut i: usize = 0;
        while i < n - 2
            invariant
                chars@ == password@,
                n == password@.len(),
                3 <= n,
                i <= n - 2,
                forall|t: int|
                    0 <= t < i ==> !(#[trigger] password@[t] == password@[t + 1] && password@[t + 1]
                        == password@[t + 2]),
            decreases n - i,
        {
            if chars[i] == chars[i + 1] && chars[i + 1] == chars[i + 2] {
                return true;
            }
            i = i + 1;
        }
        false
    }

    /// Whether the password, lowercased, matches a line of the
    /// known-weak corpus: a trimmed, lowercased, non-empty line that
    /// equals it, occurs inside it, or has it inside.
    pub fn has_common_patterns(password: &str, corpus: &Vec<String>) -> (r: bool)
        ensures
            r == has_common_spec(lower_of(password@), corpus.deep_view()),
    {
        let p = lowercase(password);
        let p_chars = chars_vec(p.as_str());
        let n = corpus.len();
        let mut i: usize = 0;
        while i < n
            invariant
                n == corpus@.len(),
                p@ == lower_of(password@),
                p_chars@ == p@,
                forall|t: int|
                    0 <= t < i ==> !entry_matches(p@, #[trigger] corpus.deep_view()[t]),
            decreases n - i,
        {
            let line = trim_str(corpus[i].as_str());
            let e = lowercase(line);
            let e_chars = chars_vec(e.as_str());
            proof {
                assert(corpus.deep_view()[i as int] == corpus@[i as int]@);
                assert(e@ == lower_of(trim_of(corpus.deep_view()[i as int])));
            }
            if e_chars.len() > 0 {
                if p == e || contains_chars(&p_chars, &e_chars) || contains_chars(
                    &e_chars,
                    &p_chars,
                ) {
                    proof {
                        assert(entry_matches(p@, corpus.deep_view()[i as int]));
                    }
                    return true;
                }
            }
            i = i + 1;
        }
        false
    }

    /// The complexity score of the password against the known-weak
    /// corpus.
    pub fn calculate_complexity_score(password: &str, corpus: &Vec<String>) -> (r: u32)
        ensures
            r == complexity_score_spec(password@, corpus.deep_view()),
    {
        let mut score: u32 = 0;
        if !Self::has_common_patterns(password, corpus) {
            score = score + 15;
        }
        if !Self::has_repetitions(password) {
            score = score + 10;
        }
        score
    }

    /// The entropy band of an alphabet of size `cs` at `len`
    /// characters: the band thresholds of 30, 40 and 50 bits,
    /// compared exactly as `cs^len` against the matching powers of
    /// two.
    fn entropy_band(cs: u32, len: usize) -> (band: u32)
        requires
            2 <= cs <= 76,
        ensures
            band == (if pow_nat(cs as nat, len as nat) < 0x40000000 {
                5int
            } else if pow_nat(cs as nat, len as nat) < 0x10000000000 {
                10int
            } else if pow_nat(cs as nat, len as nat) < 0x4000000000000 {
                15int
            } else {
                20int
            }),
    {
        let mut acc: u64 = 1;
        let mut i: usize = 0;
        while i < len
            invariant
                i <= len,
                2 <= cs <= 76,
                acc == pow_nat(cs as nat, i as nat),
                acc < 0x4000000000000,
            decreases len - i,
        {
            proof {
                assert(acc * (cs as u64) < 0x4000000000000 * 77) by (nonlinear_arith)
                    requires
                        acc < 0x4000000000000,
                        cs <= 76,
                ;
            }
            let next = acc * (cs as u64);
            proof {
                assert(pow_nat(cs as nat, (i + 1) as nat) == (cs as nat) * pow_nat(
                    cs as nat,
                    i as nat,
                ));
                assert(acc * (cs as u64) == (cs as u64) * acc) by (nonlinear_arith);
                assert(next == pow_nat(cs as nat, (i + 1) as nat));
            }
            if next >= 0x4000000000000 {
                proof {
                    lemma_pow_mono(cs as nat, (i + 1) as nat, len as nat);
                }
                return 20;
            }
            acc = next;
            i = i + 1;
        }
        if acc < 0x40000000 {
            5
        } else if acc < 0x10000000000 {
            10
        } else {
            15
        }
    }

    /// The entropy band score of the password, along with the
    /// effective alphabet size it was computed from.
    pub fn calculate_entropy_score(password: &str) -> (r: (u32, u32))
        ensures
            r.0 == entropy_score_spec(password@),
            r.1 == charset_size_spec(password@),
    {
        let (has_lower, has_upper, has_digit, has_special) = Self::class_flags(password);
        let mut cs: u32 = 0;
        if has_lower {
            cs = cs + 26;
        }
        if has_upper {
            cs = cs + 26;
        }
        if has_digit {
            cs = cs + 10;
        }
        if has_special {
            cs = cs + 14;
        }
        if cs == 0 {
            return (0, 0);
        }
        let len = password.unicode_len();
        let band = Self::entropy_band(cs, len);
        (band, cs)
    }

    /// The rating band of a total score.
    pub fn score_to_rating(score: u32) -> (r: Rating)
        ensures
            r == rating_spec(score as int),
    {
        if score <= 40 {
            Rating::Weak
        } else if score <= 60 {
            Rating::Medium
        } else if score <= 80 {
            Rating::Strong
        } else {
            Rating::VeryStrong
        }
    }

    /// The warnings and suggestions of one analysis, built from the
    /// already-evaluated checks, in check order.
    fn build_annotations(
        too_short: bool,
        has_lowercase: bool,
        has_uppercase: bool,
        has_digit: bool,
        has_special: bool,
        common: bool,
        repetitions: bool,
        Ghost(s): Ghost<Seq<char>>,
        Ghost(corp): Ghost<Seq<Seq<char>>>,
    ) -> (r: (Vec<Warning>, Vec<Suggestion>))
        requires
            too_short == (s.len() < 8),
            has_lowercase == seq_has_lowercase(s),
            has_uppercase == seq_has_uppercase(s),
            has_digit == seq_has_digit(s),
            has_special == seq_has_special(s),
            common == has_common_spec(lower_of(s), corp),
            repetitions == has_repetitions_spec(s),
        ensures
            r.0@ == warnings_spec(s, corp),
            r.1@ == suggestions_spec(s, corp),
    {
        let mut warnings: Vec<Warning> = Vec::new();
        let mut suggestions: Vec<Suggestion> = Vec::new();
        if too_short {
            warnings.push(Warning::TooShort);
            suggestions.push(Suggestion::UseLongerPassword);
        }
        if !has_lowercase {
            warnings.push(Warning::NoLowercase);
            suggestions.push(Suggestion::AddLowercase);
        }
        if !has_uppercase {
            warnings.push(Warning::NoUppercase);
            suggestions.push(Suggestion::AddUppercase);
        }
        if !has_digit {
            warnings.push(Warning::NoDigit);
            suggestions.push(Suggestion::AddDigits);
        }
        if !has_special {
            warnings.push(Warning::NoSpecial);
            suggestions.push(Suggestion::AddSpecial);
        }
        if common {
            warnings.push(Warning::CommonPatterns);
            suggestions.push(Suggestion::AvoidCommonPatterns);
        }
        if repetitions {
            warnings.push(Warning::Repetitions);
            suggestions.push(Suggestion::AvoidRepetitions);
        }
        (warnings, suggestions)
    }

    /// Analyzes a password against the known-weak corpus. Never fails:
    /// every input, the empty string included, yields a well-formed
    /// analysis whose every field the contract pins down.
    pub fn analyze_password(password: &str, corpus: &Vec<String>) -> (a: PasswordAnalysis)
        ensures
            analysis_ok(password@, corpus.deep_view(), a),
    {
        let length = password.unicode_len();
        let length_score = Self::calculate_length_score(length);
        let (diversity_score, has_lowercase, has_uppercase, has_digit, has_special) =
            Self::calculate_diversity_score(password);
        let complexity_score = Self::calculate_complexity_score(password, corpus);
        let (entropy_score, charset_size) = Self::calculate_entropy_score(password);
        let total = length_score + diversity_score + complexity_score + entropy_score;
        let rating = Self::score_to_rating(total);
        let common = Self::has_common_patterns(password, corpus);
        let repetitions = Self::has_repetitions(password);
        let (warnings, suggestions) = Self::build_annotations(
            length < 8,
            has_lowercase,
            has_uppercase,
            has_digit,
            has_special,
            common,
            repetitions,
            Ghost(password@),
            Ghost(corpus.deep_view()),
        );
        PasswordAnalysis {
            score: PasswordScore {
                total,
                length_score,
                diversity_score,
                complexity_score,
                entropy_score,
            },
            rating,
            has_lowercase,
            has_uppercase,
            has_digit,
            has_special,
            length,
            charset_size,
            warnings,
            suggestions,
        }
    }

    /// Checks a password against the known-weak corpus and returns its
    /// analysis. The check itself never fails; the `Result` mirrors
    /// the crate's calling convention.
    pub fn check_password(password: &str, corpus: &Vec<String>) -> (r: Result<
        PasswordAnalysis,
        HealthCheckError,
    >)
        ensures
            r is Ok,
            r matches Ok(a) ==> analysis_ok(password@, corpus.deep_view(), a),
    {
        Ok(Self::analyze_password(password, corpus))
    }
}

} // verus!
