//! Character classes that the lexical rules are built from.
//!
//! On ASCII every class is written out here. Beyond ASCII, white space,
//! letters and numbers are what the tables of Unicode in the standard
//! library say; those three classes are named and not defined, the
//! functions of `char` that decide them are taken on trust, and every rule
//! that uses them is proved for whatever the tables hold.

use vstd::prelude::*;

verus! {

/// Whether `c` is white space in Unicode (`White_Space`).
pub uninterp spec fn unicode_whitespace(c: char) -> bool;

/// Whether `c` is alphabetic in Unicode (`Alphabetic`).
pub uninterp spec fn unicode_alphabetic(c: char) -> bool;

/// Whether `c` lies in one of the Unicode general categories for numbers
/// (`Nd`, `Nl`, `No`).
pub uninterp spec fn unicode_numeric(c: char) -> bool;

/// `char::is_whitespace` tells whether a character is white space in
/// Unicode. Trusted: the result is the named class of the argument, and
/// nothing is claimed of which characters the class holds.
pub assume_specification[ char::is_whitespace ](c: char) -> (b: bool)
    ensures
        b == unicode_whitespace(c),
;

/// `char::is_alphabetic` tells whether a character is alphabetic in
/// Unicode. Trusted: the result is the named class of the argument, and
/// nothing is claimed of which characters the class holds.
pub assume_specification[ char::is_alphabetic ](c: char) -> (b: bool)
    ensures
        b == unicode_alphabetic(c),
;

/// `char::is_numeric` tells whether a character lies in one of the number
/// categories of Unicode. Trusted: the result is the named class of the
/// argument, and nothing is claimed of which characters the class holds.
pub assume_specification[ char::is_numeric ](c: char) -> (b: bool)
    ensures
        b == unicode_numeric(c),
;

/// `char::is_alphanumeric` is documented as the disjunction of
/// `is_alphabetic` and `is_numeric`. Trusted: exactly that disjunction.
pub assume_specification[ char::is_alphanumeric ](c: char) -> (b: bool)
    ensures
        b == (unicode_alphabetic(c) || unicode_numeric(c)),
;

/// A character of ASCII.
pub open spec fn ascii(c: char) -> bool {
    c <= '\u{7f}'
}

/// White space. On ASCII that is the space and the five controls from the
/// horizontal tab to the carriage return; beyond ASCII it is what Unicode
/// calls white space.
pub open spec fn white_space(c: char) -> bool {
    if ascii(c) {
        c == ' ' || ('\t' <= c && c <= '\r')
    } else {
        unicode_whitespace(c)
    }
}

/// A letter. On ASCII that is `a` to `z` and `A` to `Z`; beyond ASCII it is
/// what Unicode calls alphabetic.
pub open spec fn alphabetic(c: char) -> bool {
    if ascii(c) {
        ('a' <= c && c <= 'z') || ('A' <= c && c <= 'Z')
    } else {
        unicode_alphabetic(c)
    }
}

/// A number. On ASCII that is a decimal digit; beyond ASCII it is what
/// Unicode calls numeric.
pub open spec fn numeric(c: char) -> bool {
    if ascii(c) {
        decimal_digit(c)
    } else {
        unicode_numeric(c)
    }
}

/// One of the ten decimal digits `0` to `9`.
pub open spec fn decimal_digit(c: char) -> bool {
    '0' <= c && c <= '9'
}

/// A punctuation character of ASCII: one of the four ranges `!` to `/`,
/// `:` to `@`, `[` to `` ` `` and `{` to `~`.
pub open spec fn ascii_punctuation(c: char) -> bool {
    ||| '!' <= c && c <= '/'
    ||| ':' <= c && c <= '@'
    ||| '[' <= c && c <= '`'
    ||| '{' <= c && c <= '~'
}

/// A character that may continue a numeral: a number or `_`. The decimal
/// point is dealt with apart, since whether it belongs to the numeral
/// depends on what surrounds it.
pub open spec fn numeral_part(c: char) -> bool {
    numeric(c) || c == '_'
}

/// A character that may start a word: a letter or `_`.
pub open spec fn word_start(c: char) -> bool {
    alphabetic(c) || c == '_'
}

/// A character that may continue a word: a letter, a number or `_`.
pub open spec fn word_part(c: char) -> bool {
    alphabetic(c) || numeric(c) || c == '_'
}

/// The value of a decimal digit, `0` for any other character.
pub open spec fn digit_value(c: char) -> nat {
    if decimal_digit(c) {
        (c as int - '0' as int) as nat
    } else {
        0
    }
}

/// Whether `c` is a character of ASCII.
pub fn is_ascii(c: char) -> (b: bool)
    ensures
        b == ascii(c),
{
    c <= '\u{7f}'
}

/// Whether `c` is white space.
pub fn is_white_space(c: char) -> (b: bool)
    ensures
        b == white_space(c),
{
    if is_ascii(c) {
        c == ' ' || ('\t' <= c && c <= '\r')
    } else {
        c.is_whitespace()
    }
}

/// Whether `c` is a letter.
pub fn is_letter(c: char) -> (b: bool)
    ensures
        b == alphabetic(c),
{
    if is_ascii(c) {
        ('a' <= c && c <= 'z') || ('A' <= c && c <= 'Z')
    } else {
        c.is_alphabetic()
    }
}

/// Whether `c` is a number.
pub fn is_number(c: char) -> (b: bool)
    ensures
        b == numeric(c),
{
    if is_ascii(c) {
        is_decimal_digit(c)
    } else {
        c.is_numeric()
    }
}

/// Whether `c` is a decimal digit.
pub fn is_decimal_digit(c: char) -> (b: bool)
    ensures
        b == decimal_digit(c),
{
    '0' <= c && c <= '9'
}

/// Whether `c` is a punctuation character of ASCII.
pub fn is_ascii_punctuation(c: char) -> (b: bool)
    ensures
        b == ascii_punctuation(c),
{
    ('!' <= c && c <= '/') || (':' <= c && c <= '@') || ('[' <= c && c <= '`') || ('{' <= c
        && c <= '~')
}

/// Whether `c` may continue a numeral.
pub fn is_numeral_part(c: char) -> (b: bool)
    ensures
        b == numeral_part(c),
{
    is_number(c) || c == '_'
}

/// Whether `c` may start a word.
pub fn is_word_start(c: char) -> (b: bool)
    ensures
        b == word_start(c),
{
    is_letter(c) || c == '_'
}

/// Whether `c` may continue a word.
pub fn is_word_part(c: char) -> (b: bool)
    ensures
        b == word_part(c),
{
    if is_ascii(c) {
        is_letter(c) || is_decimal_digit(c) || c == '_'
    } else {
        c.is_alphanumeric()
    }
}

/// The value of the decimal digit `c`.
pub fn value_of_digit(c: char) -> (v: u8)
    requires
        decimal_digit(c),
    ensures
        v as nat == digit_value(c),
        v <= 9,
{
    let code: u32 = c as u32;
    (code - 48) as u8
}

} // verus!
