//! The character-class tables: lowercase, uppercase, digit and special
//! characters, and their union used by the random and deterministic
//! generation strategies.

use vstd::prelude::*;

verus! {

/// Number of lowercase letters.
pub const LOWERCASE_LEN: usize = 26;

/// Number of uppercase letters.
pub const UPPERCASE_LEN: usize = 26;

/// Number of digits.
pub const DIGIT_LEN: usize = 10;

/// Number of special characters.
pub const SPECIAL_LEN: usize = 14;

/// Size of the union of the four classes.
pub const COMBINED_LEN: usize = 76;

/// Whether `c` is one of the 26 lowercase letters.
pub open spec fn is_lowercase_char(c: char) -> bool {
    97 <= c as u32 <= 122
}

/// Whether `c` is one of the 26 uppercase letters.
pub open spec fn is_uppercase_char(c: char) -> bool {
    65 <= c as u32 <= 90
}

/// Whether `c` is one of the 10 decimal digits.
pub open spec fn is_digit_char(c: char) -> bool {
    48 <= c as u32 <= 57
}

/// Whether `c` is one of the 14 special characters.
pub open spec fn is_special_char(c: char) -> bool {
    c == '!' || c == '@' || c == '#' || c == '$' || c == '%' || c == '^' || c == '&' || c == '*'
        || c == '(' || c == ')' || c == '-' || c == '_' || c == '=' || c == '+'
}

/// The lowercase letters, in order.
pub open spec fn lowercase_charset() -> Seq<char> {
    seq!['a', 'b', 'c', 'd', 'e', 'f', 'g', 'h', 'i', 'j', 'k', 'l', 'm', 'n', 'o', 'p', 'q', 'r', 's', 't', 'u', 'v', 'w', 'x', 'y', 'z']
}

/// The uppercase letters, in order.
pub open spec fn uppercase_charset() -> Seq<char> {
    seq!['A', 'B', 'C', 'D', 'E', 'F', 'G', 'H', 'I', 'J', 'K', 'L', 'M', 'N', 'O', 'P', 'Q', 'R', 'S', 'T', 'U', 'V', 'W', 'X', 'Y', 'Z']
}

/// The decimal digits, in order.
pub open spec fn digit_charset() -> Seq<char> {
    seq!['0', '1', '2', '3', '4', '5', '6', '7', '8', '9']
}

/// The special characters, in order.
pub open spec fn special_charset() -> Seq<char> {
    seq!['!', '@', '#', '$', '%', '^', '&', '*', '(', ')', '-', '_', '=', '+']
}

/// The union of the four classes: lowercase, then uppercase, then
/// digits, then specials.
pub open spec fn combined_charset() -> Seq<char> {
    lowercase_charset() + uppercase_charset() + digit_charset() + special_charset()
}

/// Whether `c` is one of the lowercase letters (executable form).
pub fn char_is_lowercase(c: char) -> (r: bool)
    ensures
        r == is_lowercase_char(c),
{
    let u = c as u32;
    97 <= u && u <= 122
}

/// Whether `c` is one of the uppercase letters (executable form).
pub fn char_is_uppercase(c: char) -> (r: bool)
    ensures
        r == is_uppercase_char(c),
{
    let u = c as u32;
    65 <= u && u <= 90
}

/// Whether `c` is one of the decimal digits (executable form).
pub fn char_is_digit(c: char) -> (r: bool)
    ensures
        r == is_digit_char(c),
{
    let u = c as u32;
    48 <= u && u <= 57
}

/// Whether `c` is one of the special characters (executable form).
pub fn char_is_special(c: char) -> (r: bool)
    ensures
        r == is_special_char(c),
{
    c == '!' || c == '@' || c == '#' || c == '$' || c == '%' || c == '^' || c == '&' || c == '*'
        || c == '(' || c == ')' || c == '-' || c == '_' || c == '=' || c == '+'
}

/// Whether `s` holds a lowercase letter.
pub open spec fn seq_has_lowercase(s: Seq<char>) -> bool {
    exists|i: int| 0 <= i < s.len() && is_lowercase_char(#[trigger] s[i])
}

/// Whether `s` holds an uppercase letter.
pub open spec fn seq_has_uppercase(s: Seq<char>) -> bool {
    exists|i: int| 0 <= i < s.len() && is_uppercase_char(#[trigger] s[i])
}

/// Whether `s` holds a digit.
pub open spec fn seq_has_digit(s: Seq<char>) -> bool {
    exists|i: int| 0 <= i < s.len() && is_digit_char(#[trigger] s[i])
}

/// Whether `s` holds a special character.
pub open spec fn seq_has_special(s: Seq<char>) -> bool {
    exists|i: int| 0 <= i < s.len() && is_special_char(#[trigger] s[i])
}

/// Every character of each class table satisfies that class's
/// predicate.
pub proof fn lemma_charset_classes(i: int)
    ensures
        0 <= i < 26 ==> is_lowercase_char(lowercase_charset()[i]),
        0 <= i < 26 ==> is_uppercase_char(uppercase_charset()[i]),
        0 <= i < 10 ==> is_digit_char(digit_charset()[i]),
        0 <= i < 14 ==> is_special_char(special_charset()[i]),
{
}

/// The lowercase letters as a vector.
pub fn lowercase_vec() -> (v: Vec<char>)
    ensures
        v@ == lowercase_charset(),
{
    let v: Vec<char> = vec!['a', 'b', 'c', 'd', 'e', 'f', 'g', 'h', 'i', 'j', 'k', 'l', 'm', 'n', 'o', 'p', 'q', 'r', 's', 't', 'u', 'v', 'w', 'x', 'y', 'z'];
    proof {
        assert(v@ =~= lowercase_charset());
    }
    v
}

/// The uppercase letters as a vector.
pub fn uppercase_vec() -> (v: Vec<char>)
    ensures
        v@ == uppercase_charset(),
{
    let v: Vec<char> = vec!['A', 'B', 'C', 'D', 'E', 'F', 'G', 'H', 'I', 'J', 'K', 'L', 'M', 'N', 'O', 'P', 'Q', 'R', 'S', 'T', 'U', 'V', 'W', 'X', 'Y', 'Z'];
    proof {
        assert(v@ =~= uppercase_charset());
    }
    v
}

/// The decimal digits as a vector.
pub fn digit_vec() -> (v: Vec<char>)
    ensures
        v@ == digit_charset(),
{
    let v: Vec<char> = vec!['0', '1', '2', '3', '4', '5', '6', '7', '8', '9'];
    proof {
        assert(v@ =~= digit_charset());
    }
    v
}

/// The special characters as a vector.
pub fn special_vec() -> (v: Vec<char>)
    ensures
        v@ == special_charset(),
{
    let v: Vec<char> = vec!['!', '@', '#', '$', '%', '^', '&', '*', '(', ')', '-', '_', '=', '+'];
    proof {
        assert(v@ =~= special_charset());
    }
    v
}

/// The combined charset as a vector.
pub fn combined_vec() -> (v: Vec<char>)
    ensures
        v@ == combined_charset(),
        v@.len() == COMBINED_LEN,
{
    let mut v = lowercase_vec();
    let mut upper = uppercase_vec();
    let mut digits = digit_vec();
    let mut special = special_vec();
    v.append(&mut upper);
    v.append(&mut digits);
    v.append(&mut special);
    proof {
        assert(v@ =~= combined_charset());
    }
    v
}

} // verus!
