//! The password generator: the class-diversity validator and the
//! uniform-random generation strategy.

use crate::charset::{
    char_is_digit, char_is_lowercase, char_is_special, char_is_uppercase, combined_charset,
    combined_vec, digit_charset, digit_vec, is_digit_char, is_lowercase_char, is_special_char,
    is_uppercase_char, lemma_charset_classes, lowercase_charset, lowercase_vec, seq_has_digit,
    seq_has_lowercase, seq_has_special, seq_has_uppercase, special_charset, special_vec,
    uppercase_charset, uppercase_vec, COMBINED_LEN,
};
use crate::errors::GeneratorError;
use crate::kdf::{be_bytes, be_bytes_u32, hkdf_derive_block, hkdf_sha256_block};
use crate::rng::next_uniform;
use crate::text::{free_of, lemma_split_on_append_run, push_char, split_on};
use vstd::prelude::*;
use vstd::string::*;
use vstd::utf8::encode_utf8;

verus! {

/// Smallest accepted length for a random password.
pub const MIN_RANDOM_LENGTH: usize = 8;

/// Largest accepted length for a random password.
pub const MAX_RANDOM_LENGTH: usize = 64;

/// Bound on the sampling attempts of the random strategy.
pub const MAX_RANDOM_RETRIES: usize = 100;

/// Smallest accepted word count for a phrase password.
pub const MIN_PHRASE_WORDS: usize = 3;

/// Largest accepted word count for a phrase password.
pub const MAX_PHRASE_WORDS: usize = 20;

/// Length of every deterministic password.
pub const DETERMINISTIC_LENGTH: usize = 20;

/// Bound on the derivation attempts of the deterministic strategy.
pub const MAX_DETERMINISTIC_RETRIES: u32 = 1000;

/// The password generator. Each strategy is a bounded retry loop over
/// a pure sampling step.
pub struct Generator;

/// The class-diversity predicate: at least one lowercase letter, one
/// uppercase letter, one digit and one special character.
pub open spec fn is_valid_spec(s: Seq<char>) -> bool {
    &&& seq_has_lowercase(s)
    &&& seq_has_uppercase(s)
    &&& seq_has_digit(s)
    &&& seq_has_special(s)
}

/// Whether every character of `s` belongs to the combined charset.
pub open spec fn all_from_combined(s: Seq<char>) -> bool {
    forall|i: int| 0 <= i < s.len() ==> combined_charset().contains(#[trigger] s[i])
}

/// Whether `t` belongs to the template alphabet of the pattern
/// strategy.
pub open spec fn pattern_char_ok(t: char) -> bool {
    t == 'U' || t == 'L' || t == 'D' || t == 'S'
}

/// Whether output character `c` belongs to the class that template
/// character `t` names.
pub open spec fn matches_pattern_char(t: char, c: char) -> bool {
    if t == 'U' {
        is_uppercase_char(c)
    } else if t == 'L' {
        is_lowercase_char(c)
    } else if t == 'D' {
        is_digit_char(c)
    } else if t == 'S' {
        is_special_char(c)
    } else {
        false
    }
}

/// Whether `idxs` is a choice of `count` positions into `words`.
pub open spec fn valid_word_indices(words: Seq<Seq<char>>, idxs: Seq<int>, count: int) -> bool {
    idxs.len() == count && forall|i: int| 0 <= i < idxs.len() ==> 0 <= #[trigger] idxs[i]
        < words.len()
}

/// The hyphen-joined phrase of the words at `idxs` in `words`.
pub open spec fn phrase_of(words: Seq<Seq<char>>, idxs: Seq<int>) -> Seq<char>
    decreases idxs.len(),
{
    if idxs.len() == 0 {
        Seq::empty()
    } else if idxs.len() == 1 {
        words[idxs[0]]
    } else {
        phrase_of(words, idxs.drop_last()) + seq!['-'] + words[idxs.last()]
    }
}

/// The views of an optional string argument.
pub open spec fn opt_view(o: Option<&str>) -> Option<Seq<char>> {
    match o {
        Some(s) => Some(s@),
        None => None,
    }
}

/// The extraction salt the deterministic strategy uses: the given one,
/// or the fixed application default.
pub open spec fn effective_salt(salt: Option<Seq<char>>) -> Seq<char> {
    match salt {
        Some(s) => s,
        None => "kdguard"@,
    }
}

/// The info label bound into one derivation: the fixed domain tag,
/// then `-` and the service name if one is given, then `-` and the
/// big-endian retry counter.
pub open spec fn det_info(service: Option<Seq<char>>, retry: u32) -> Seq<u8> {
    encode_utf8("kdguard-password"@) + (match service {
        Some(s) => seq![45u8] + encode_utf8(s),
        None => Seq::<u8>::empty(),
    }) + seq![45u8] + be_bytes_u32(retry)
}

/// The 32-byte block that one retry of the deterministic strategy
/// derives from its inputs.
pub open spec fn det_block(
    seed: Seq<char>,
    salt: Seq<char>,
    service: Option<Seq<char>>,
    retry: u32,
) -> Seq<u8> {
    hkdf_sha256_block(encode_utf8(salt), encode_utf8(seed), det_info(service, retry))
}

/// The 20-character candidate of one retry: each position reads one
/// block byte, starting at a retry-dependent offset and wrapping, and
/// reduces it modulo the combined charset size.
pub open spec fn det_candidate(
    seed: Seq<char>,
    salt: Seq<char>,
    service: Option<Seq<char>>,
    retry: u32,
) -> Seq<char> {
    Seq::new(
        20,
        |i: int|
            combined_charset()[(det_block(seed, salt, service, retry)[((retry as int) * 13 % 32 + i)
                % 32] as int) % 76],
    )
}

/// Whether `retry` is the first attempt whose candidate satisfies the
/// class-diversity predicate.
pub open spec fn det_first_valid(
    seed: Seq<char>,
    salt: Seq<char>,
    service: Option<Seq<char>>,
    retry: u32,
) -> bool {
    &&& retry < MAX_DETERMINISTIC_RETRIES
    &&& is_valid_spec(det_candidate(seed, salt, service, retry))
    &&& forall|j: u32| j < retry ==> !is_valid_spec(det_candidate(seed, salt, service, j))
}

/// Law: a phrase splits back into its words. When every word of the
/// wordlist is non-empty and free of hyphens, the phrase built from
/// any non-empty choice of indices splits on `-` into exactly one
/// token per chosen index, each token being the word chosen there.
pub proof fn lemma_phrase_splits_into_words(words: Seq<Seq<char>>, idxs: Seq<int>)
    requires
        idxs.len() > 0,
        forall|i: int| 0 <= i < idxs.len() ==> 0 <= #[trigger] idxs[i] < words.len(),
        forall|j: int| 0 <= j < words.len() ==> (#[trigger] words[j]).len() > 0,
        forall|j: int| 0 <= j < words.len() ==> free_of('-', #[trigger] words[j]),
    ensures
        split_on('-', phrase_of(words, idxs)).len() == idxs.len(),
        forall|i: int|
            0 <= i < idxs.len() ==> #[trigger] split_on('-', phrase_of(words, idxs))[i]
                == words[idxs[i]],
    decreases idxs.len(),
{
    if idxs.len() == 1 {
        let w = words[idxs[0]];
        assert(phrase_of(words, idxs) == w);
        lemma_split_on_append_run('-', Seq::empty(), w);
        assert(Seq::empty() + w =~= w);
        assert(split_on('-', Seq::<char>::empty()) == seq![Seq::<char>::empty()]);
        assert(Seq::<char>::empty() + w =~= w);
        assert(split_on('-', w) =~= seq![w]);
    } else {
        let front = idxs.drop_last();
        let w = words[idxs.last()];
        assert(forall|i: int| 0 <= i < front.len() ==> #[trigger] front[i] == idxs[i]);
        lemma_phrase_splits_into_words(words, front);
        let a = phrase_of(words, front);
        assert(phrase_of(words, idxs) == a + seq!['-'] + w);
        let with_sep = a + seq!['-'];
        assert(with_sep.drop_last() =~= a);
        assert(with_sep.last() == '-');
        assert(split_on('-', with_sep) == split_on('-', a).push(Seq::empty()));
        lemma_split_on_append_run('-', with_sep, w);
        assert(with_sep + w =~= a + seq!['-'] + w);
        let grown = split_on('-', a).push(Seq::<char>::empty());
        assert(split_on('-', a + seq!['-'] + w) == grown.update(
            grown.len() - 1,
            grown.last() + w,
        ));
        assert(grown.last() + w =~= w);
        assert(grown.update(grown.len() - 1, grown.last() + w) =~= split_on('-', a).push(w));
        assert(forall|i: int|
            0 <= i < front.len() ==> #[trigger] split_on('-', phrase_of(words, idxs))[i]
                == split_on('-', a)[i]);
    }
}

/// Law: deterministic generation is a function of `(seed, salt,
/// service)` alone. Any two passwords that satisfy the deterministic
/// strategy's success contract for the same inputs are the same
/// string, so identical calls always return the identical password.
pub proof fn lemma_deterministic_repeatable(
    seed: Seq<char>,
    salt: Seq<char>,
    service: Option<Seq<char>>,
    p1: Seq<char>,
    p2: Seq<char>,
)
    requires
        exists|k: u32|
            #[trigger] det_first_valid(seed, salt, service, k) && p1 == det_candidate(
                seed,
                salt,
                service,
                k,
            ),
        exists|k: u32|
            #[trigger] det_first_valid(seed, salt, service, k) && p2 == det_candidate(
                seed,
                salt,
                service,
                k,
            ),
    ensures
        p1 == p2,
{
    let k1 = choose|k: u32|
        #[trigger] det_first_valid(seed, salt, service, k) && p1 == det_candidate(
            seed,
            salt,
            service,
            k,
        );
    let k2 = choose|k: u32|
        #[trigger] det_first_valid(seed, salt, service, k) && p2 == det_candidate(
            seed,
            salt,
            service,
            k,
        );
    if k1 < k2 {
        assert(!is_valid_spec(det_candidate(seed, salt, service, k1)));
    }
    if k2 < k1 {
        assert(!is_valid_spec(det_candidate(seed, salt, service, k2)));
    }
    assert(k1 == k2);
}

impl Generator {
    /// Whether the candidate satisfies the class-diversity predicate:
    /// at least one character of each of the four classes.
    pub fn is_valid_password(password: &str) -> (r: bool)
        ensures
            r == is_valid_spec(password@),
    {
        let n = password.unicode_len();
        let mut has_lower = false;
        let mut has_upper = false;
        let mut has_digit = false;
        let mut has_special = false;
        let mut i: usize = 0;
        while i < n
            invariant
                i <= n,
                n == password@.len(),
                has_lower == exists|t: int|
                    0 <= t < i && is_lowercase_char(#[trigger] password@[t]),
                has_upper == exists|t: int|
                    0 <= t < i && is_uppercase_char(#[trigger] password@[t]),
                has_digit == exists|t: int| 0 <= t < i && is_digit_char(#[trigger] password@[t]),
                has_special == exists|t: int|
                    0 <= t < i && is_special_char(#[trigger] password@[t]),
            decreases n - i,
        {
            let c = password.get_char(i);
            if char_is_lowercase(c) {
                has_lower = true;
            } else if char_is_uppercase(c) {
                has_upper = true;
            } else if char_is_digit(c) {
                has_digit = true;
            } else if char_is_special(c) {
                has_special = true;
            }
            i = i + 1;
        }
        has_lower && has_upper && has_digit && has_special
    }

    /// One sampling attempt of the random strategy: `length` characters
    /// drawn independently from the combined charset.
    fn sample_random_candidate(length: usize, charset: &Vec<char>) -> (r: Result<
        String,
        GeneratorError,
    >)
        requires
            charset@ == combined_charset(),
        ensures
            r matches Ok(p) ==> p@.len() == length && all_from_combined(p@),
            r matches Err(e) ==> e is RandomBytesError,
    {
        let mut password = String::new();
        let mut j: usize = 0;
        while j < length
            invariant
                j <= length,
                charset@ == combined_charset(),
                charset@.len() == COMBINED_LEN,
                password@.len() == j,
                all_from_combined(password@),
            decreases length - j,
        {
            let idx = match next_uniform(charset.len()) {
                Ok(v) => v,
                Err(e) => {
                    return Err(e);
                },
            };
            let c = charset[idx];
            proof {
                assert(combined_charset().contains(charset@[idx as int]));
            }
            push_char(&mut password, c);
            j = j + 1;
        }
        Ok(password)
    }

    /// Generates a password from a pattern template.
    ///
    /// Each template character stands for one output position: `U` for
    /// an uppercase letter, `L` for a lowercase letter, `D` for a
    /// digit, `S` for a special character. An empty template is
    /// rejected as `EmptyPattern`; the first character outside the
    /// template alphabet is rejected as `InvalidPatternCharacter`. The
    /// output is not re-checked against the class-diversity predicate:
    /// the template already fixes its composition.
    pub fn generate_pattern_password(pattern: &str) -> (r: Result<String, GeneratorError>)
        ensures
            (pattern@.len() == 0) <==> r == Err::<String, GeneratorError>(
                GeneratorError::EmptyPattern,
            ),
            r matches Ok(p) ==> p@.len() == pattern@.len() && forall|i: int|
                0 <= i < pattern@.len() ==> matches_pattern_char(pattern@[i], #[trigger] p@[i]),
            r matches Err(e) ==> (e matches GeneratorError::InvalidPatternCharacter(c)
                ==> exists|i: int|
                0 <= i < pattern@.len() && #[trigger] pattern@[i] == c && !pattern_char_ok(c)
                    && (forall|j: int| 0 <= j < i ==> pattern_char_ok(#[trigger] pattern@[j]))),
            pattern@.len() > 0 && (forall|i: int|
                0 <= i < pattern@.len() ==> pattern_char_ok(#[trigger] pattern@[i])) ==> (
            r is Ok || (r matches Err(e) && e is RandomBytesError)),
            r matches Err(e) ==> e is EmptyPattern || e is InvalidPatternCharacter
                || e is RandomBytesError,
    {
        let n = pattern.unicode_len();
        if n == 0 {
            return Err(GeneratorError::EmptyPattern);
        }
        let upper = uppercase_vec();
        let lower = lowercase_vec();
        let digits = digit_vec();
        let special = special_vec();
        let mut password = String::new();
        let mut i: usize = 0;
        while i < n
            invariant
                i <= n,
                n == pattern@.len(),
                upper@ == uppercase_charset(),
                lower@ == lowercase_charset(),
                digits@ == digit_charset(),
                special@ == special_charset(),
                password@.len() == i,
                forall|j: int| 0 <= j < i ==> pattern_char_ok(#[trigger] pattern@[j]),
                forall|j: int|
                    0 <= j < i ==> matches_pattern_char(pattern@[j], #[trigger] password@[j]),
            decreases n - i,
        {
            let t = pattern.get_char(i);
            let class: &Vec<char> = if t == 'U' {
                &upper
            } else if t == 'L' {
                &lower
            } else if t == 'D' {
                &digits
            } else if t == 'S' {
                &special
            } else {
                return Err(GeneratorError::InvalidPatternCharacter(t));
            };
            let idx = match next_uniform(class.len()) {
                Ok(v) => v,
                Err(e) => {
                    return Err(e);
                },
            };
            let c = class[idx];
            proof {
                lemma_charset_classes(idx as int);
            }
            push_char(&mut password, c);
            i = i + 1;
        }
        Ok(password)
    }

    /// Generates a phrase of words drawn from a wordlist.
    ///
    /// `words_count` words are sampled independently and uniformly,
    /// with replacement, from `wordlist`, and joined by `-`. A count
    /// outside `[MIN_PHRASE_WORDS, MAX_PHRASE_WORDS]` is rejected as
    /// `InvalidWordCount`; an empty wordlist as `EmptyWordlist`. No
    /// class-diversity check is applied: phrases are word sequences on
    /// purpose.
    pub fn generate_phrase_password(words_count: usize, wordlist: &Vec<String>) -> (r: Result<
        String,
        GeneratorError,
    >)
        ensures
            !(MIN_PHRASE_WORDS <= words_count <= MAX_PHRASE_WORDS) <==> r == Err::<
                String,
                GeneratorError,
            >(GeneratorError::InvalidWordCount),
            (MIN_PHRASE_WORDS <= words_count <= MAX_PHRASE_WORDS && wordlist@.len() == 0) <==> r
                == Err::<String, GeneratorError>(GeneratorError::EmptyWordlist),
            r matches Ok(p) ==> exists|idxs: Seq<int>|
                #[trigger] valid_word_indices(wordlist.deep_view(), idxs, words_count as int)
                    && p@ == phrase_of(wordlist.deep_view(), idxs),
            r matches Err(e) ==> e is InvalidWordCount || e is EmptyWordlist
                || e is RandomBytesError,
    {
        if words_count < MIN_PHRASE_WORDS || words_count > MAX_PHRASE_WORDS {
            return Err(GeneratorError::InvalidWordCount);
        }
        if wordlist.len() == 0 {
            return Err(GeneratorError::EmptyWordlist);
        }
        let mut phrase = String::new();
        let ghost mut idxs: Seq<int> = Seq::empty();
        let mut i: usize = 0;
        while i < words_count
            invariant
                i <= words_count,
                MIN_PHRASE_WORDS <= words_count <= MAX_PHRASE_WORDS,
                wordlist@.len() > 0,
                idxs.len() == i,
                forall|t: int| 0 <= t < idxs.len() ==> 0 <= #[trigger] idxs[t]
                    < wordlist.deep_view().len(),
                phrase@ == phrase_of(wordlist.deep_view(), idxs),
            decreases words_count - i,
        {
            let idx = match next_uniform(wordlist.len()) {
                Ok(v) => v,
                Err(e) => {
                    return Err(e);
                },
            };
            if i > 0 {
                push_char(&mut phrase, '-');
            }
            phrase.append(wordlist[idx].as_str());
            proof {
                let ws = wordlist.deep_view();
                let grown = idxs.push(idx as int);
                assert(grown.drop_last() =~= idxs);
                assert(grown.last() == idx as int);
                assert(ws[idx as int] == wordlist@[idx as int]@);
                if idxs.len() == 0 {
                    assert(phrase@ =~= phrase_of(ws, grown));
                } else {
                    assert(phrase@ =~= phrase_of(ws, idxs) + seq!['-'] + ws[idx as int]);
                    assert(phrase@ =~= phrase_of(ws, grown));
                }
                idxs = grown;
            }
            i = i + 1;
        }
        proof {
            assert(valid_word_indices(wordlist.deep_view(), idxs, words_count as int));
        }
        Ok(phrase)
    }

    /// One derivation attempt of the deterministic strategy: derives a
    /// block for `retry` and maps it to a 20-character candidate.
    fn derive_candidate(
        salt_bytes: &Vec<u8>,
        seed_bytes: &Vec<u8>,
        service: Option<&str>,
        retry: u32,
        charset: &Vec<char>,
        Ghost(seed_view): Ghost<Seq<char>>,
        Ghost(salt_view): Ghost<Seq<char>>,
    ) -> (p: String)
        requires
            retry < MAX_DETERMINISTIC_RETRIES,
            salt_bytes@ == encode_utf8(salt_view),
            seed_bytes@ == encode_utf8(seed_view),
            charset@ == combined_charset(),
        ensures
            p@ == det_candidate(seed_view, salt_view, opt_view(service), retry),
    {
        let mut info = "kdguard-password".as_bytes_vec();
        if let Some(svc) = service {
            info.push(45u8);
            let mut service_bytes = svc.as_bytes_vec();
            info.append(&mut service_bytes);
        }
        info.push(45u8);
        let mut counter_bytes = be_bytes(retry);
        info.append(&mut counter_bytes);
        proof {
            assert(info@ =~= det_info(opt_view(service), retry));
        }
        let block = match hkdf_derive_block(salt_bytes, seed_bytes, &info) {
            Ok(b) => b,
            Err(_) => {
                // unreachable: the derivation cannot fail at this
                // output size
                return String::new();
            },
        };
        let ghost cand = det_candidate(seed_view, salt_view, opt_view(service), retry);
        let offset = (retry as usize) * 13 % 32;
        let mut password = String::new();
        let mut i: usize = 0;
        while i < DETERMINISTIC_LENGTH
            invariant
                i <= DETERMINISTIC_LENGTH,
                retry < MAX_DETERMINISTIC_RETRIES,
                offset == (retry as int) * 13 % 32,
                block@ == det_block(seed_view, salt_view, opt_view(service), retry),
                block@.len() == 32,
                charset@ == combined_charset(),
                charset@.len() == COMBINED_LEN,
                cand == det_candidate(seed_view, salt_view, opt_view(service), retry),
                password@.len() == i,
                forall|t: int| 0 <= t < i ==> #[trigger] password@[t] == cand[t],
            decreases DETERMINISTIC_LENGTH - i,
        {
            let byte_idx = (offset + i) % 32;
            let idx = (block[byte_idx] as usize) % 76;
            push_char(&mut password, charset[idx]);
            i = i + 1;
        }
        proof {
            assert(password@ =~= cand);
        }
        password
    }

    /// Generates a deterministic password from a seed.
    ///
    /// The password is a pure function of `(seed, salt, service)`: the
    /// seed is extracted against the salt (or the application default
    /// when none is given), and up to `MAX_DETERMINISTIC_RETRIES`
    /// 20-character candidates are derived by expanding the extracted
    /// key against an info label that binds the service name and the
    /// retry counter. The first candidate that satisfies the
    /// class-diversity predicate is returned; identical inputs always
    /// yield the identical password. An empty seed is rejected as
    /// `EmptySeed`.
    pub fn generate_deterministic_password(
        seed: &str,
        salt: Option<&str>,
        service: Option<&str>,
    ) -> (r: Result<String, GeneratorError>)
        ensures
            (seed@.len() == 0) <==> r == Err::<String, GeneratorError>(GeneratorError::EmptySeed),
            r matches Ok(p) ==> exists|k: u32|
                #[trigger] det_first_valid(
                    seed@,
                    effective_salt(opt_view(salt)),
                    opt_view(service),
                    k,
                ) && p@ == det_candidate(
                    seed@,
                    effective_salt(opt_view(salt)),
                    opt_view(service),
                    k,
                ),
            r == Err::<String, GeneratorError>(GeneratorError::MaxRetriesExceeded)
                ==> forall|k: u32|
                k < MAX_DETERMINISTIC_RETRIES ==> !is_valid_spec(
                    #[trigger] det_candidate(
                        seed@,
                        effective_salt(opt_view(salt)),
                        opt_view(service),
                        k,
                    ),
                ),
            seed@.len() > 0 ==> (r is Ok || r == Err::<String, GeneratorError>(
                GeneratorError::MaxRetriesExceeded,
            )),
            r matches Ok(p) ==> p@.len() == DETERMINISTIC_LENGTH && is_valid_spec(p@)
                && all_from_combined(p@),
    {
        if seed.is_empty() {
            return Err(GeneratorError::EmptySeed);
        }
        let salt_str: &str = match salt {
            Some(s) => s,
            None => "kdguard",
        };
        proof {
            assert(salt_str@ == effective_salt(opt_view(salt)));
        }
        let salt_bytes = salt_str.as_bytes_vec();
        let seed_bytes = seed.as_bytes_vec();
        let charset = combined_vec();
        let ghost salt_view = effective_salt(opt_view(salt));
        let mut retry: u32 = 0;
        while retry < MAX_DETERMINISTIC_RETRIES
            invariant
                retry <= MAX_DETERMINISTIC_RETRIES,
                seed@.len() > 0,
                salt_view == effective_salt(opt_view(salt)),
                salt_bytes@ == encode_utf8(salt_view),
                seed_bytes@ == encode_utf8(seed@),
                charset@ == combined_charset(),
                forall|j: u32|
                    j < retry ==> !is_valid_spec(
                        #[trigger] det_candidate(seed@, salt_view, opt_view(service), j),
                    ),
            decreases MAX_DETERMINISTIC_RETRIES - retry,
        {
            let password = Self::derive_candidate(
                &salt_bytes,
                &seed_bytes,
                service,
                retry,
                &charset,
                Ghost(seed@),
                Ghost(salt_view),
            );
            if Self::is_valid_password(password.as_str()) {
                proof {
                    assert(det_first_valid(seed@, salt_view, opt_view(service), retry));
                }
                return Ok(password);
            }
            retry = retry + 1;
        }
        Err(GeneratorError::MaxRetriesExceeded)
    }

    /// Generates a random password of the given length.
    ///
    /// A length outside `[MIN_RANDOM_LENGTH, MAX_RANDOM_LENGTH]` is
    /// rejected as `InvalidLength`. Otherwise up to
    /// `MAX_RANDOM_RETRIES` candidates are sampled from the combined
    /// charset, and the first one that satisfies the class-diversity
    /// predicate is returned; a returned password always has exactly
    /// the requested length, draws every character from the combined
    /// charset, and holds all four classes.
    pub fn generate_random_password(length: usize) -> (r: Result<String, GeneratorError>)
        ensures
            !(MIN_RANDOM_LENGTH <= length <= MAX_RANDOM_LENGTH) <==> r == Err::<
                String,
                GeneratorError,
            >(GeneratorError::InvalidLength(length)),
            r matches Ok(p) ==> p@.len() == length && is_valid_spec(p@) && all_from_combined(p@),
            r matches Err(e) ==> e == GeneratorError::InvalidLength(length)
                || e is MaxRetriesExceeded || e is RandomBytesError,
    {
        if length < MIN_RANDOM_LENGTH || length > MAX_RANDOM_LENGTH {
            return Err(GeneratorError::InvalidLength(length));
        }
        let charset = combined_vec();
        let mut attempt: usize = 0;
        while attempt < MAX_RANDOM_RETRIES
            invariant
                MIN_RANDOM_LENGTH <= length <= MAX_RANDOM_LENGTH,
                charset@ == combined_charset(),
            decreases MAX_RANDOM_RETRIES - attempt,
        {
            let password = match Self::sample_random_candidate(length, &charset) {
                Ok(p) => p,
                Err(e) => {
                    return Err(e);
                },
            };
            if Self::is_valid_password(password.as_str()) {
                return Ok(password);
            }
            attempt = attempt + 1;
        }
        Err(GeneratorError::MaxRetriesExceeded)
    }
}

} // verus!
