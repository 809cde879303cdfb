//! The field validator: what text each kind of form field accepts.

use vstd::prelude::*;
use vstd::string::*;

verus! {

/// The kind of value a form field accepts.
#[derive(Clone, Copy, Debug, PartialEq, Eq, Structural)]
pub enum AreaType {
    /// A non-negative whole number.
    UInt,
    /// A whole number from 0 to 100.
    Percentage,
    /// A yes or a no.
    Confirm,
    /// Any text that is not blank.
    String,
}

/// The answer of a yes-or-no field.
#[derive(Clone, Copy, Debug, PartialEq, Eq, Structural)]
pub enum Confirm {
    No,
    Yes,
}

/// The largest percentage.
pub const MAX_PERCENTAGE: usize = 100;

/// Whether `c` counts as whitespace: whether it has the Unicode property
/// White_Space. These are the blank, the tab and the other controls that
/// break a line, the next-line control, the no-break spaces, and the spaces,
/// separators and fixed-width blanks of the general punctuation and beyond.
pub open spec fn is_whitespace(c: char) -> bool {
    ||| '\u{0009}' <= c <= '\u{000D}'
    ||| c == '\u{0020}'
    ||| c == '\u{0085}'
    ||| c == '\u{00A0}'
    ||| c == '\u{1680}'
    ||| '\u{2000}' <= c <= '\u{200A}'
    ||| c == '\u{2028}'
    ||| c == '\u{2029}'
    ||| c == '\u{202F}'
    ||| c == '\u{205F}'
    ||| c == '\u{3000}'
}

/// `s` without its leading whitespace.
pub open spec fn trimmed_start(s: Seq<char>) -> Seq<char>
    decreases s.len(),
{
    if s.len() > 0 && is_whitespace(s.first()) {
        trimmed_start(s.drop_first())
    } else {
        s
    }
}

/// `s` without its trailing whitespace.
pub open spec fn trimmed_end(s: Seq<char>) -> Seq<char>
    decreases s.len(),
{
    if s.len() > 0 && is_whitespace(s.last()) {
        trimmed_end(s.drop_last())
    } else {
        s
    }
}

/// `s` without its leading and trailing whitespace.
pub open spec fn trimmed(s: Seq<char>) -> Seq<char> {
    trimmed_end(trimmed_start(s))
}

/// Whether `c` is a decimal digit.
pub open spec fn is_digit(c: char) -> bool {
    '0' <= c <= '9'
}

/// The number that a string of decimal digits denotes, the empty string
/// denoting 0.
pub open spec fn digits_value(digits: Seq<char>) -> nat
    decreases digits.len(),
{
    if digits.len() == 0 {
        0
    } else {
        digits_value(digits.drop_last()) * 10 + (digits.last() as nat - '0' as nat) as nat
    }
}

/// The digits of an unsigned number: `s` without the one `+` that may lead it.
pub open spec fn unsigned_digits(s: Seq<char>) -> Seq<char> {
    if s.len() > 0 && s.first() == '+' {
        s.drop_first()
    } else {
        s
    }
}

/// Whether `s` is written as an unsigned number: at least one decimal digit
/// and nothing else, but for one `+` that may lead.
pub open spec fn is_unsigned(s: Seq<char>) -> bool {
    let digits = unsigned_digits(s);
    &&& digits.len() > 0
    &&& forall|i: int| 0 <= i < digits.len() ==> is_digit(#[trigger] digits[i])
}

/// The number that `s` denotes, where it is written as an unsigned number and
/// is at most `max`.
pub open spec fn parsed_uint(s: Seq<char>, max: nat) -> Option<nat> {
    if is_unsigned(s) && digits_value(unsigned_digits(s)) <= max {
        Some(digits_value(unsigned_digits(s)))
    } else {
        None
    }
}

/// The lower-case form of an ASCII letter; any other character is left alone.
pub open spec fn ascii_lower(c: char) -> char {
    if 'A' <= c <= 'Z' {
        ((c as u8) + 32) as char
    } else {
        c
    }
}

/// Whether `s` is `token` but for the case of its ASCII letters. `token` is
/// expected in lower case.
pub open spec fn is_token(s: Seq<char>, token: Seq<char>) -> bool {
    &&& s.len() == token.len()
    &&& forall|i: int| 0 <= i < s.len() ==> ascii_lower(#[trigger] s[i]) == token[i]
}

/// The answer that `s` gives: `y` and `yes` say yes, `n` and `no` say no, in
/// any case of the letters; nothing else is an answer.
pub open spec fn parsed_confirm(s: Seq<char>) -> Option<Confirm> {
    if is_token(s, seq!['y']) || is_token(s, seq!['y', 'e', 's']) {
        Some(Confirm::Yes)
    } else if is_token(s, seq!['n']) || is_token(s, seq!['n', 'o']) {
        Some(Confirm::No)
    } else {
        None
    }
}

/// Whether a field of kind `kind` accepts `text`.
pub open spec fn field_valid(kind: AreaType, text: Seq<char>) -> bool {
    match kind {
        AreaType::UInt => parsed_uint(text, usize::MAX as nat) is Some,
        AreaType::Percentage => parsed_uint(text, MAX_PERCENTAGE as nat) is Some,
        AreaType::Confirm => parsed_confirm(text) is Some,
        AreaType::String => trimmed(text).len() > 0,
    }
}

/// `char::is_whitespace`: tells whether `c` has the Unicode property
/// White_Space.
#[verifier::external_body]
fn is_space(c: char) -> (space: bool)
    ensures
        space == is_whitespace(c),
{
    c.is_whitespace()
}

/// `str::trim`: the slice of `s` that is left when leading and trailing
/// whitespace is removed, whitespace being what `char::is_whitespace` tells.
#[verifier::external_body]
pub(crate) fn trim<'a>(s: &'a str) -> (t: &'a str)
    ensures
        t@ == trimmed(s@),
{
    s.trim()
}

/// Whether some character of `s` is not whitespace.
pub open spec fn has_text(s: Seq<char>) -> bool {
    exists|i: int| 0 <= i < s.len() && !is_whitespace(#[trigger] s[i])
}

/// What is left of `s` without its leading whitespace is empty exactly when
/// `s` is all whitespace, and else starts with a character that is none.
proof fn lemma_trimmed_start(s: Seq<char>)
    ensures
        trimmed_start(s).len() > 0 <==> has_text(s),
        trimmed_start(s).len() > 0 ==> !is_whitespace(trimmed_start(s).first()),
    decreases s.len(),
{
    if s.len() > 0 && is_whitespace(s.first()) {
        let rest = s.drop_first();
        lemma_trimmed_start(rest);
        if has_text(rest) {
            let i = choose|i: int| 0 <= i < rest.len() && !is_whitespace(#[trigger] rest[i]);
        }
        if has_text(s) {
            let i = choose|i: int| 0 <= i < s.len() && !is_whitespace(#[trigger] s[i]);
            assert(!is_whitespace(rest[i - 1]));
        }
    }
}

/// What is left of `s` without its trailing whitespace is empty exactly when
/// `s` is all whitespace.
proof fn lemma_trimmed_end(s: Seq<char>)
    ensures
        trimmed_end(s).len() > 0 <==> has_text(s),
    decreases s.len(),
{
    if s.len() > 0 && is_whitespace(s.last()) {
        let rest = s.drop_last();
        lemma_trimmed_end(rest);
        if has_text(rest) {
            let i = choose|i: int| 0 <= i < rest.len() && !is_whitespace(#[trigger] rest[i]);
        }
        if has_text(s) {
            let i = choose|i: int| 0 <= i < s.len() && !is_whitespace(#[trigger] s[i]);
            assert(!is_whitespace(rest[i]));
        }
    }
}

/// Trimming leaves something exactly when some character is not whitespace.
pub proof fn lemma_trimmed_has_text(s: Seq<char>)
    ensures
        trimmed(s).len() > 0 <==> has_text(s),
{
    let start = trimmed_start(s);
    lemma_trimmed_start(s);
    lemma_trimmed_end(start);
}

/// Tells whether `s` holds anything besides whitespace.
pub fn is_filled(s: &str) -> (filled: bool)
    ensures
        filled == (trimmed(s@).len() > 0),
        filled == has_text(s@),
{
    proof {
        lemma_trimmed_has_text(s@);
    }
    for c in it: s.chars()
        invariant
            it.seq() == s@,
            trimmed(s@).len() > 0 <==> has_text(s@),
            forall|j: int| 0 <= j < it.index() ==> is_whitespace(#[trigger] s@[j]),
    {
        if !is_space(c) {
            return true;
        }
    }
    false
}

/// A prefix of a digit string denotes no more than the whole.
proof fn lemma_prefix_value(digits: Seq<char>, n: int)
    requires
        0 <= n <= digits.len(),
    ensures
        digits_value(digits.take(n)) <= digits_value(digits),
    decreases digits.len() - n,
{
    if n == digits.len() {
        assert(digits.take(n) =~= digits);
    } else {
        lemma_prefix_value(digits, n + 1);
        assert(digits.take(n + 1).drop_last() =~= digits.take(n));
    }
}

/// Reads `s` as an unsigned number of at most `max`.
///
/// The number is written with decimal digits, at least one, and may be led by
/// one `+`. Anything else gives `None`: the empty string, a sign alone, a
/// `-`, blanks, and a number above `max`.
pub fn parse_uint(s: &str, max: usize) -> (value: Option<usize>)
    ensures
        value is Some <==> parsed_uint(s@, max as nat) is Some,
        value matches Some(v) ==> parsed_uint(s@, max as nat) == Some(v as nat),
{
    broadcast use is_ascii_spec_bytes;

    if !s.is_ascii() {
        proof {
            let digits = unsigned_digits(s@);
            let i = choose|i: int| 0 <= i < s@.len() && !('\0' <= #[trigger] s@[i] <= '\u{7f}');
            if s@.first() == '+' {
                assert(!is_digit(digits[i - 1]));
            }
        }
        return None;
    }
    let bytes = s.as_bytes();
    let n = bytes.len();
    let start: usize = if n > 0 && bytes[0] == '+' as u8 {
        1
    } else {
        0
    };
    let ghost digits = unsigned_digits(s@);
    if start == n {
        return None;
    }
    let mut acc: usize = 0;
    let mut i: usize = start;
    while i < n
        invariant
            start <= i <= n,
            n == s@.len(),
            n == bytes@.len(),
            s.is_ascii(),
            digits == unsigned_digits(s@),
            digits == s@.subrange(start as int, n as int),
            forall|j: int| 0 <= j < n ==> bytes@[j] == #[trigger] s@[j] as u8,
            forall|j: int| 0 <= j < i - start ==> is_digit(#[trigger] digits[j]),
            acc == digits_value(digits.take(i - start)),
            acc <= max,
        decreases n - i,
    {
        let b: u8 = bytes[i];
        if b < '0' as u8 || b > '9' as u8 {
            assert(!is_digit(digits[i - start]));
            return None;
        }
        let d: usize = (b - '0' as u8) as usize;
        proof {
            assert(digits.take(i - start + 1).drop_last() =~= digits.take(i - start));
        }
        if d > max || acc > (max - d) / 10 {
            proof {
                lemma_prefix_value(digits, i - start + 1);
            }
            return None;
        }
        acc = acc * 10 + d;
        i += 1;
    }
    assert(digits.take(n - start) =~= digits);
    Some(acc)
}

/// Whether `b` is the ASCII letter `letter`, which is given in lower case, in
/// either case.
fn is_letter(b: u8, letter: u8) -> (same: bool)
    requires
        'a' <= letter as char <= 'z',
        b < 128,
    ensures
        same == (ascii_lower(b as char) == letter as char),
{
    b == letter || b == letter - 32
}

impl Confirm {
    /// Reads an answer: `y` and `yes` say yes, `n` and `no` say no, in any
    /// case of the letters. Nothing else is an answer.
    pub fn parse(s: &str) -> (answer: Option<Confirm>)
        ensures
            answer == parsed_confirm(s@),
    {
        broadcast use is_ascii_spec_bytes;

        if !s.is_ascii() {
            return None;
        }
        let bytes = s.as_bytes();
        let n = bytes.len();
        if n == 1 {
            let b0: u8 = bytes[0];
            if is_letter(b0, 'y' as u8) {
                Some(Confirm::Yes)
            } else if is_letter(b0, 'n' as u8) {
                Some(Confirm::No)
            } else {
                None
            }
        } else if n == 2 {
            let b0: u8 = bytes[0];
            let b1: u8 = bytes[1];
            if is_letter(b0, 'n' as u8) && is_letter(b1, 'o' as u8) {
                Some(Confirm::No)
            } else {
                None
            }
        } else if n == 3 {
            let b0: u8 = bytes[0];
            let b1: u8 = bytes[1];
            let b2: u8 = bytes[2];
            if is_letter(b0, 'y' as u8) && is_letter(b1, 'e' as u8) && is_letter(b2, 's' as u8) {
                Some(Confirm::Yes)
            } else {
                None
            }
        } else {
            None
        }
    }

    /// The answer that a stored flag stands for: `1` says yes, anything else no.
    pub open spec fn of_flag(flag: Seq<char>) -> Confirm {
        if flag == seq!['1'] {
            Confirm::Yes
        } else {
            Confirm::No
        }
    }

    /// The flag that is stored for an answer: `1` for yes, `0` for no.
    pub open spec fn flag(self) -> Seq<char> {
        match self {
            Confirm::Yes => seq!['1'],
            Confirm::No => seq!['0'],
        }
    }

    /// The word that is shown for an answer.
    pub open spec fn word(self) -> Seq<char> {
        match self {
            Confirm::Yes => seq!['Y', 'e', 's'],
            Confirm::No => seq!['N', 'o'],
        }
    }

    /// The flag to store for the answer that `s` gives: `1` where it says yes,
    /// `0` where it says no or is no answer.
    pub fn get_confirm_u8_str(s: &str) -> (flag: String)
        ensures
            flag@ == (match parsed_confirm(s@) {
                Some(answer) => answer.flag(),
                None => Confirm::No.flag(),
            }),
    {
        proof {
            reveal_strlit("1");
            reveal_strlit("0");
        }
        match Confirm::parse(s) {
            Some(Confirm::Yes) => String::from_str("1"),
            _ => String::from_str("0"),
        }
    }

    /// The word to show for a stored flag: `Yes` for `1`, `No` for anything else.
    pub fn get_confirm_str(flag: &str) -> (word: String)
        ensures
            word@ == Confirm::of_flag(flag@).word(),
    {
        proof {
            reveal_strlit("Yes");
            reveal_strlit("No");
        }
        if flag.unicode_len() == 1 && flag.get_char(0) == '1' {
            assert(flag@ =~= seq!['1']);
            String::from_str("Yes")
        } else {
            String::from_str("No")
        }
    }
}

/// The field validator: whether a field of kind `kind` accepts `text`.
///
/// Free text must hold something besides whitespace. A number is written with
/// decimal digits only, a percentage is a number of at most 100, and neither is
/// clamped: what is out of range is refused. An answer is `y`, `yes`, `n` or
/// `no` in any case of the letters.
pub fn validate_text(kind: AreaType, text: &str) -> (valid: bool)
    ensures
        valid == field_valid(kind, text@),
        kind == AreaType::String ==> valid == has_text(text@),
{
    match kind {
        AreaType::UInt => parse_uint(text, usize::MAX).is_some(),
        AreaType::Percentage => parse_uint(text, MAX_PERCENTAGE).is_some(),
        AreaType::Confirm => Confirm::parse(text).is_some(),
        AreaType::String => is_filled(text),
    }
}

/// The empty text is accepted by no kind of field.
pub proof fn lemma_empty_is_invalid(kind: AreaType)
    ensures
        !field_valid(kind, Seq::empty()),
{
}

/// A percentage that is accepted is accepted as a number too.
pub proof fn lemma_percentage_is_uint(text: Seq<char>)
    requires
        field_valid(AreaType::Percentage, text),
    ensures
        field_valid(AreaType::UInt, text),
{
}

/// A number is never read from a text that holds anything but digits
/// behind the sign that may lead it: no minus, no blank, no point.
pub proof fn lemma_number_is_digits(text: Seq<char>, max: nat, i: int)
    requires
        parsed_uint(text, max) is Some,
        0 <= i < text.len(),
    ensures
        is_digit(text[i]) || (i == 0 && text[i] == '+'),
{
    let digits = unsigned_digits(text);
    if text.first() == '+' && i > 0 {
        assert(is_digit(digits[i - 1]));
    }
}

/// What a percentage field accepts denotes a number of at most 100: what is
/// out of range is refused, not clamped.
pub proof fn lemma_percentage_in_range(text: Seq<char>)
    requires
        field_valid(AreaType::Percentage, text),
    ensures
        is_unsigned(text),
        digits_value(unsigned_digits(text)) <= 100,
{
}

/// What a number field or a yes-or-no field accepts has no whitespace
/// around it: trimming leaves it as it is.
pub proof fn lemma_accepted_is_trimmed(kind: AreaType, text: Seq<char>)
    requires
        kind != AreaType::String,
        field_valid(kind, text),
    ensures
        trimmed(text) == text,
{
    assert(text.len() > 0 && !is_whitespace(text.first()) && !is_whitespace(text.last())) by {
        if kind != AreaType::Confirm {
            let max = if kind == AreaType::UInt {
                usize::MAX as nat
            } else {
                MAX_PERCENTAGE as nat
            };
            lemma_number_is_digits(text, max, 0);
            lemma_number_is_digits(text, max, text.len() - 1);
        }
    }
}

} // verus!
