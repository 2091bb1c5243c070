//! Text as sequences of characters: copying between strings and character
//! buffers, comparing a stretch of a buffer with a word, and decimal
//! numerals.

use vstd::prelude::*;
use crate::charset::{decimal_digit, digit_value, is_decimal_digit, value_of_digit};

verus! {

/// `String::push` appends one character to the string. Trusted: the text
/// afterwards is the text before with `c` at its end.
pub assume_specification[ String::push ](s: &mut String, c: char)
    ensures
        final(s)@ == old(s)@.push(c),
;

/// The characters of `s`, in order.
pub fn collect_chars(s: &String) -> (v: Vec<char>)
    ensures
        v@ == s@,
{
    let mut v: Vec<char> = Vec::new();
    let text = s.as_str();
    for c in it: text.chars()
        invariant
            v@ == it.history(),
    {
        v.push(c);
    }
    v
}

/// The text that `chars` holds from `from` up to `to`.
pub fn text_of(chars: &Vec<char>, from: usize, to: usize) -> (s: String)
    requires
        from <= to <= chars.len(),
    ensures
        s@ == chars@.subrange(from as int, to as int),
{
    let mut s = String::new();
    let mut i: usize = from;
    while i < to
        invariant
            from <= i <= to <= chars.len(),
            s@ == chars@.subrange(from as int, i as int),
        decreases to - i,
    {
        s.push(chars[i]);
        assert(chars@.subrange(from as int, i + 1) =~= chars@.subrange(from as int, i as int).push(
            chars@[i as int],
        ));
        i += 1;
    }
    s
}

/// Whether `chars` holds exactly `word` from `from` up to `to`.
pub fn spelled(chars: &Vec<char>, from: usize, to: usize, word: &str) -> (b: bool)
    requires
        from <= to <= chars.len(),
    ensures
        b == (chars@.subrange(from as int, to as int) == word@),
{
    let n = word.unicode_len();
    if to - from != n {
        return false;
    }
    let mut i: usize = 0;
    while i < n
        invariant
            from <= to <= chars.len(),
            n == to - from,
            n == word@.len(),
            i <= n,
            forall|j: int| 0 <= j < i ==> chars@[from + j] == word@[j],
        decreases n - i,
    {
        if chars[from + i] != word.get_char(i) {
            assert(chars@.subrange(from as int, to as int)[i as int] != word@[i as int]);
            return false;
        }
        i += 1;
    }
    assert(chars@.subrange(from as int, to as int) =~= word@);
    true
}

/// Whether every character of `text` is a decimal digit.
pub open spec fn all_digits(text: Seq<char>) -> bool {
    forall|i: int| 0 <= i < text.len() ==> decimal_digit(#[trigger] text[i])
}

/// The number that the digits of `text` write in base ten; the empty text
/// writes zero.
pub open spec fn decimal_value(text: Seq<char>) -> nat
    decreases text.len(),
{
    if text.len() == 0 {
        0
    } else {
        decimal_value(text.drop_last()) * 10 + digit_value(text.last())
    }
}

/// Whether `text` is a numeral that fits the integer token: at least one
/// character, decimal digits only, and a value of at most `isize::MAX`.
pub open spec fn integer_numeral(text: Seq<char>) -> bool {
    &&& text.len() > 0
    &&& all_digits(text)
    &&& decimal_value(text) <= isize::MAX
}

/// A numeral's value is at least the value of each of its beginnings.
pub proof fn decimal_value_grows(text: Seq<char>, k: int)
    requires
        0 <= k <= text.len(),
    ensures
        decimal_value(text.take(k)) <= decimal_value(text),
    decreases text.len(),
{
    if k == text.len() {
        assert(text.take(k) =~= text);
    } else {
        decimal_value_grows(text.drop_last(), k);
        assert(text.drop_last().take(k) =~= text.take(k));
    }
}

/// The value of the numeral that `chars` holds from `from` up to `to`, where
/// it is one that fits.
pub fn integer_of(chars: &Vec<char>, from: usize, to: usize) -> (r: Option<isize>)
    requires
        from <= to <= chars.len(),
    ensures
        r is Some <==> integer_numeral(chars@.subrange(from as int, to as int)),
        r matches Some(v) ==> v as int == decimal_value(chars@.subrange(from as int, to as int)),
{
    let ghost text = chars@.subrange(from as int, to as int);
    if from == to {
        return None;
    }
    let mut value: isize = 0;
    let mut i: usize = from;
    while i < to
        invariant
            from <= i <= to <= chars.len(),
            text == chars@.subrange(from as int, to as int),
            all_digits(text.take(i - from)),
            value as int == decimal_value(text.take(i - from)),
        decreases to - i,
    {
        let c = chars[i];
        assert(text[i - from] == c);
        if !is_decimal_digit(c) {
            return None;
        }
        let d = value_of_digit(c) as isize;
        proof {
            assert(text.take(i - from + 1).drop_last() =~= text.take(i - from));
            assert(text.take(i - from + 1).last() == c);
            assert forall|j: int| 0 <= j < i - from + 1 implies decimal_digit(
                #[trigger] text.take(i - from + 1)[j],
            ) by {
                if j < i - from {
                    assert(text.take(i - from)[j] == text[j]);
                }
            }
            decimal_value_grows(text, i - from + 1);
        }
        if value > (isize::MAX - d) / 10 {
            return None;
        }
        value = value * 10 + d;
        i += 1;
    }
    assert(text.take(to - from) =~= text);
    Some(value)
}

/// The character that writes the digit `d`.
pub open spec fn digit_char(d: nat) -> char {
    if d == 0 {
        '0'
    } else if d == 1 {
        '1'
    } else if d == 2 {
        '2'
    } else if d == 3 {
        '3'
    } else if d == 4 {
        '4'
    } else if d == 5 {
        '5'
    } else if d == 6 {
        '6'
    } else if d == 7 {
        '7'
    } else if d == 8 {
        '8'
    } else {
        '9'
    }
}

/// The digits that write `n` in base ten, without leading zeros; `0` is
/// written with one digit.
pub open spec fn decimal_digits(n: nat) -> Seq<char>
    decreases n,
{
    if n < 10 {
        seq![digit_char(n)]
    } else {
        decimal_digits(n / 10).push(digit_char(n % 10))
    }
}

/// The decimal numeral of `n`, with a leading `-` where `n` is negative.
pub open spec fn decimal_text(n: int) -> Seq<char> {
    if n < 0 {
        seq!['-'] + decimal_digits((-n) as nat)
    } else {
        decimal_digits(n as nat)
    }
}

fn char_of_digit(d: u8) -> (c: char)
    requires
        d < 10,
    ensures
        c == digit_char(d as nat),
        decimal_digit(c),
        digit_value(c) == d,
{
    if d == 0 {
        '0'
    } else if d == 1 {
        '1'
    } else if d == 2 {
        '2'
    } else if d == 3 {
        '3'
    } else if d == 4 {
        '4'
    } else if d == 5 {
        '5'
    } else if d == 6 {
        '6'
    } else if d == 7 {
        '7'
    } else if d == 8 {
        '8'
    } else {
        '9'
    }
}

/// The decimal numeral of `n` as a string.
pub fn render_decimal(n: isize) -> (s: String)
    ensures
        s@ == decimal_text(n as int),
{
    let magnitude: u128 = if n < 0 {
        (-(n as i128)) as u128
    } else {
        n as u128
    };
    // The digits from the lowest up.
    let mut low_first: Vec<char> = Vec::new();
    let mut rest: u128 = magnitude;
    while rest >= 10
        invariant
            decimal_digits(magnitude as nat) =~= decimal_digits(rest as nat) + low_first@.reverse(),
        decreases rest,
    {
        let d = (rest % 10) as u8;
        proof {
            let before = low_first@;
            assert(before.push(digit_char(d as nat)).reverse() =~= seq![digit_char(d as nat)]
                + before.reverse());
            assert(decimal_digits(rest as nat) =~= decimal_digits((rest / 10) as nat).push(
                digit_char(d as nat),
            ));
        }
        low_first.push(char_of_digit(d));
        rest = rest / 10;
    }
    proof {
        let before = low_first@;
        assert(before.push(digit_char(rest as nat)).reverse() =~= seq![digit_char(rest as nat)]
            + before.reverse());
    }
    low_first.push(char_of_digit(rest as u8));
    assert(decimal_digits(magnitude as nat) =~= low_first@.reverse());
    let mut s = String::new();
    if n < 0 {
        s.push('-');
    }
    let ghost sign = s@;
    let mut left: usize = low_first.len();
    while left > 0
        invariant
            left <= low_first.len(),
            s@ =~= sign + low_first@.reverse().take(low_first.len() - left),
        decreases left,
    {
        left -= 1;
        s.push(low_first[left]);
        assert(low_first@.reverse().take(low_first.len() - left) =~= low_first@.reverse().take(
            low_first.len() - left - 1,
        ).push(low_first@[left as int]));
    }
    assert(low_first@.reverse().take(low_first.len() as int) =~= low_first@.reverse());
    assert(sign =~= if n < 0 { seq!['-'] } else { Seq::<char>::empty() });
    s
}

/// Whether `chars` holds decimal digits only from `from` up to `to`.
pub fn digits_only(chars: &Vec<char>, from: usize, to: usize) -> (b: bool)
    requires
        from <= to <= chars.len(),
    ensures
        b == all_digits(chars@.subrange(from as int, to as int)),
{
    let ghost text = chars@.subrange(from as int, to as int);
    let mut i: usize = from;
    while i < to
        invariant
            from <= i <= to <= chars.len(),
            text == chars@.subrange(from as int, to as int),
            forall|j: int| 0 <= j < i - from ==> decimal_digit(#[trigger] text[j]),
        decreases to - i,
    {
        if !is_decimal_digit(chars[i]) {
            assert(!decimal_digit(text[i - from]));
            return false;
        }
        i += 1;
    }
    true
}

/// A number that is written out and read again is the same number: its
/// digits are decimal digits, at least one of them, and their value is the
/// number.
pub proof fn decimal_digits_read_back(n: nat)
    ensures
        decimal_digits(n).len() > 0,
        all_digits(decimal_digits(n)),
        decimal_value(decimal_digits(n)) == n,
    decreases n,
{
    if n < 10 {
        assert(decimal_digits(n).drop_last() =~= Seq::<char>::empty());
        assert(decimal_value(decimal_digits(n).drop_last()) == 0);
    } else {
        decimal_digits_read_back(n / 10);
        let shorter = decimal_digits(n / 10);
        assert(decimal_digits(n).drop_last() =~= shorter);
        assert forall|i: int| 0 <= i < decimal_digits(n).len() implies decimal_digit(
            #[trigger] decimal_digits(n)[i],
        ) by {
            if i < shorter.len() {
                assert(decimal_digits(n)[i] == shorter[i]);
            }
        }
    }
}

/// The numeral of an integer from zero up to `isize::MAX` is one that fits
/// the integer token, and its value is that integer.
pub proof fn decimal_text_reads_back(n: int)
    requires
        0 <= n <= isize::MAX,
    ensures
        integer_numeral(decimal_text(n)),
        decimal_value(decimal_text(n)) == n,
{
    decimal_digits_read_back(n as nat);
}

} // verus!
