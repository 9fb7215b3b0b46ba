//! Random strings over four fixed sets of characters: of a given length, of a length between
//! two bounds, or of a length between 1 and 1024.
//!
//! Each character of a string is picked on its own, by a random index into the character set.
use vstd::prelude::*;
use vstd::string::*;
use crate::number::in_sampled_range;
use crate::number::some_number_between;
use crate::number::some_number_less_than;

verus! {

/// The letters of the Latin alphabet, capitals first.
pub const ALPHA_CHARSET: &'static str = "ABCDEFGHIJKLMNOPQRSTUVWXYZabcdefghijklmnopqrstuvwxyz";

/// The ten digits.
pub const NUMERIC_CHARSET: &'static str = "0123456789";

/// The letters, then the digits.
pub const ALPHANUMERIC_CHARSET: &'static str =
    "ABCDEFGHIJKLMNOPQRSTUVWXYZabcdefghijklmnopqrstuvwxyz0123456789";

/// The letters, the digits, the punctuation of ASCII and the space: every ASCII character that
/// prints.
pub const ASCII_CHARSET: &'static str =
    "ABCDEFGHIJKLMNOPQRSTUVWXYZabcdefghijklmnopqrstuvwxyz0123456789!@#$%^&*(){}[]\"<>',.?+|_/=\\-:;`~ ";

/// The least length of a string whose length was not asked for.
pub const DEFAULT_MIN_LENGTH: usize = 1;

/// The length that a string whose length was not asked for stays below.
pub const DEFAULT_MAX_LENGTH: usize = 1024;

/// Whether `c` is a letter of the Latin alphabet.
pub open spec fn is_alpha(c: char) -> bool {
    ('A' <= c && c <= 'Z') || ('a' <= c && c <= 'z')
}

/// Whether `c` is a digit.
pub open spec fn is_numeric(c: char) -> bool {
    '0' <= c && c <= '9'
}

/// Whether `c` is a letter or a digit.
pub open spec fn is_alphanumeric(c: char) -> bool {
    is_alpha(c) || is_numeric(c)
}

/// Whether `c` is an ASCII character that prints, the space among them.
pub open spec fn is_printable_ascii(c: char) -> bool {
    ' ' <= c && c <= '~'
}

/// Whether one of the bytes of `charset` is the character `c`.
pub open spec fn charset_holds(charset: Seq<u8>, c: char) -> bool {
    exists|i: int| 0 <= i < charset.len() && (#[trigger] charset[i]) as char == c
}

/// [`ALPHA_CHARSET`] is made of ASCII characters, 52 of them, and holds the letters and nothing
/// else.
pub proof fn alpha_charset_holds_the_letters()
    ensures
        is_ascii(ALPHA_CHARSET),
        ALPHA_CHARSET@.len() == 52,
        forall|c: char| ALPHA_CHARSET@.contains(c) <==> is_alpha(c),
{
    reveal_strlit("ABCDEFGHIJKLMNOPQRSTUVWXYZabcdefghijklmnopqrstuvwxyz");
    let charset = ALPHA_CHARSET@;
    assert forall|c: char| is_alpha(c) implies charset.contains(c) by {
        let i = if c <= 'Z' {
            c as int - 'A' as int
        } else {
            c as int - 'a' as int + 26
        };
        assert(charset[i] == c);
    }
}

/// [`NUMERIC_CHARSET`] is made of ASCII characters, 10 of them, and holds the digits and
/// nothing else.
pub proof fn numeric_charset_holds_the_digits()
    ensures
        is_ascii(NUMERIC_CHARSET),
        NUMERIC_CHARSET@.len() == 10,
        forall|c: char| NUMERIC_CHARSET@.contains(c) <==> is_numeric(c),
{
    reveal_strlit("0123456789");
    let charset = NUMERIC_CHARSET@;
    assert forall|c: char| is_numeric(c) implies charset.contains(c) by {
        let i = c as int - '0' as int;
        assert(charset[i] == c);
    }
}

/// [`ALPHANUMERIC_CHARSET`] is made of ASCII characters, 62 of them, and holds the letters,
/// the digits and nothing else.
pub proof fn alphanumeric_charset_holds_letters_and_digits()
    ensures
        is_ascii(ALPHANUMERIC_CHARSET),
        ALPHANUMERIC_CHARSET@.len() == 62,
        forall|c: char| ALPHANUMERIC_CHARSET@.contains(c) <==> is_alphanumeric(c),
{
    reveal_strlit("ABCDEFGHIJKLMNOPQRSTUVWXYZabcdefghijklmnopqrstuvwxyz0123456789");
    let charset = ALPHANUMERIC_CHARSET@;
    assert forall|c: char| is_alphanumeric(c) implies charset.contains(c) by {
        let i = if c <= '9' {
            c as int - '0' as int + 52
        } else if c <= 'Z' {
            c as int - 'A' as int
        } else {
            c as int - 'a' as int + 26
        };
        assert(charset[i] == c);
    }
}

/// Where [`ASCII_CHARSET`] holds the printable character `c`.
spec fn ascii_charset_position(c: char) -> int {
    if is_alpha(c) {
        if c <= 'Z' {
            c as int - 'A' as int
        } else {
            c as int - 'a' as int + 26
        }
    } else if is_numeric(c) {
        c as int - '0' as int + 52
    } else {
        match c {
            '!' => 62,
            '@' => 63,
            '#' => 64,
            '$' => 65,
            '%' => 66,
            '^' => 67,
            '&' => 68,
            '*' => 69,
            '(' => 70,
            ')' => 71,
            '{' => 72,
            '}' => 73,
            '[' => 74,
            ']' => 75,
            '"' => 76,
            '<' => 77,
            '>' => 78,
            '\'' => 79,
            ',' => 80,
            '.' => 81,
            '?' => 82,
            '+' => 83,
            '|' => 84,
            '_' => 85,
            '/' => 86,
            '=' => 87,
            '\\' => 88,
            '-' => 89,
            ':' => 90,
            ';' => 91,
            '`' => 92,
            '~' => 93,
            _ => 94,
        }
    }
}

/// [`ASCII_CHARSET`] is made of ASCII characters, 95 of them, and holds those from the space
/// to the tilde and nothing else.
pub proof fn ascii_charset_holds_the_printable()
    ensures
        is_ascii(ASCII_CHARSET),
        ASCII_CHARSET@.len() == 95,
        forall|c: char| ASCII_CHARSET@.contains(c) <==> is_printable_ascii(c),
{
    reveal_strlit(
        "ABCDEFGHIJKLMNOPQRSTUVWXYZabcdefghijklmnopqrstuvwxyz0123456789!@#$%^&*(){}[]\"<>',.?+|_/=\\-:;`~ ",
    );
    let charset = ASCII_CHARSET@;
    assert forall|c: char| is_printable_ascii(c) implies charset.contains(c) by {
        assert(charset[ascii_charset_position(c)] == c);
    }
}

/// `String::push` of std appends the character `c` to the end of the string `s`.
pub assume_specification[ String::push ](s: &mut String, c: char)
    ensures
        final(s)@ == old(s)@.push(c),
;

/// The character that `charset` holds at `index`.
pub fn character_at(charset: &[u8], index: usize) -> (c: char)
    requires
        index < charset@.len(),
    ensures
        c == charset@[index as int] as char,
        charset_holds(charset@, c),
{
    charset[index] as char
}

/// A string of `bound` characters, each a byte of `charset` picked by a random index.
///
/// An empty `charset` gives only the empty string.
pub fn string_for_charset(bound: usize, charset: &[u8]) -> (text: String)
    requires
        bound > 0 ==> charset@.len() > 0,
    ensures
        text@.len() == bound,
        forall|i: int| 0 <= i < text@.len() ==> charset_holds(charset@, #[trigger] text@[i]),
{
    let mut text = String::new();
    let mut drawn: usize = 0;
    while drawn < bound
        invariant
            drawn <= bound,
            bound > 0 ==> charset@.len() > 0,
            text@.len() == drawn,
            forall|i: int| 0 <= i < text@.len() ==> charset_holds(charset@, #[trigger] text@[i]),
        decreases bound - drawn,
    {
        let index: usize = some_number_less_than(charset.len());
        text.push(character_at(charset, index));
        drawn = drawn + 1;
    }
    text
}

/// A string of `bound` characters, each picked by a random index into `charset`, a set made of
/// ASCII characters.
fn string_over(bound: usize, charset: &'static str) -> (text: String)
    requires
        is_ascii(charset),
        charset@.len() > 0,
    ensures
        text@.len() == bound,
        forall|i: int| 0 <= i < text@.len() ==> charset@.contains(#[trigger] text@[i]),
{
    broadcast use is_ascii_spec_bytes;

    let bytes = charset.as_bytes();
    let text = string_for_charset(bound, bytes);
    proof {
        assert forall|i: int| 0 <= i < text@.len() implies charset@.contains(
            #[trigger] text@[i],
        ) by {
            let c = text@[i];
            assert(charset_holds(bytes@, c));
            let j = choose|j: int| 0 <= j < bytes@.len() && (#[trigger] bytes@[j]) as char == c;
            assert(charset@[j] == c);
        }
    }
    text
}

/// A string of printable ASCII characters, of a random length from [`DEFAULT_MIN_LENGTH`] up
/// to, but not including, [`DEFAULT_MAX_LENGTH`].
pub fn some_string() -> (text: String)
    ensures
        DEFAULT_MIN_LENGTH <= text@.len() < DEFAULT_MAX_LENGTH,
        forall|i: int| 0 <= i < text@.len() ==> is_printable_ascii(#[trigger] text@[i]),
{
    some_string_of_length_between(DEFAULT_MIN_LENGTH, DEFAULT_MAX_LENGTH)
}

/// A string of exactly `to_bound` printable ASCII characters.
pub fn some_string_of_length(to_bound: usize) -> (text: String)
    ensures
        text@.len() == to_bound,
        forall|i: int| 0 <= i < text@.len() ==> is_printable_ascii(#[trigger] text@[i]),
{
    some_string_of_length_between(to_bound, to_bound)
}

/// A string of printable ASCII characters, of a random length from `from_bound` up to, but
/// not including, `to_bound`; of exactly that length where the two are equal.
pub fn some_string_of_length_between(from_bound: usize, to_bound: usize) -> (text: String)
    requires
        from_bound <= to_bound,
    ensures
        in_sampled_range(from_bound as int, to_bound as int, text@.len() as int),
        from_bound <= text@.len() <= to_bound,
        forall|i: int| 0 <= i < text@.len() ==> is_printable_ascii(#[trigger] text@[i]),
{
    let bound: usize = some_number_between(from_bound, to_bound);
    proof {
        ascii_charset_holds_the_printable();
    }
    string_over(bound, ASCII_CHARSET)
}

/// A string of letters and digits, of a random length from [`DEFAULT_MIN_LENGTH`] up to, but
/// not including, [`DEFAULT_MAX_LENGTH`].
pub fn some_alphanumeric_string() -> (text: String)
    ensures
        DEFAULT_MIN_LENGTH <= text@.len() < DEFAULT_MAX_LENGTH,
        forall|i: int| 0 <= i < text@.len() ==> is_alphanumeric(#[trigger] text@[i]),
{
    some_alphanumeric_string_of_length_between(DEFAULT_MIN_LENGTH, DEFAULT_MAX_LENGTH)
}

/// A string of exactly `to_bound` letters and digits.
pub fn some_alphanumeric_string_of_length(to_bound: usize) -> (text: String)
    ensures
        text@.len() == to_bound,
        forall|i: int| 0 <= i < text@.len() ==> is_alphanumeric(#[trigger] text@[i]),
{
    some_alphanumeric_string_of_length_between(to_bound, to_bound)
}

/// A string of letters and digits, of a random length from `from_bound` up to, but not
/// including, `to_bound`; of exactly that length where the two are equal.
pub fn some_alphanumeric_string_of_length_between(from_bound: usize, to_bound: usize) -> (text:
    String)
    requires
        from_bound <= to_bound,
    ensures
        in_sampled_range(from_bound as int, to_bound as int, text@.len() as int),
        from_bound <= text@.len() <= to_bound,
        forall|i: int| 0 <= i < text@.len() ==> is_alphanumeric(#[trigger] text@[i]),
{
    let bound: usize = some_number_between(from_bound, to_bound);
    proof {
        alphanumeric_charset_holds_letters_and_digits();
    }
    string_over(bound, ALPHANUMERIC_CHARSET)
}

/// A string of digits, of a random length from [`DEFAULT_MIN_LENGTH`] up to, but not
/// including, [`DEFAULT_MAX_LENGTH`].
pub fn some_numeric_string() -> (text: String)
    ensures
        DEFAULT_MIN_LENGTH <= text@.len() < DEFAULT_MAX_LENGTH,
        forall|i: int| 0 <= i < text@.len() ==> is_numeric(#[trigger] text@[i]),
{
    some_numeric_string_of_length_between(DEFAULT_MIN_LENGTH, DEFAULT_MAX_LENGTH)
}

/// A string of exactly `to_bound` digits.
pub fn some_numeric_string_of_length(to_bound: usize) -> (text: String)
    ensures
        text@.len() == to_bound,
        forall|i: int| 0 <= i < text@.len() ==> is_numeric(#[trigger] text@[i]),
{
    some_numeric_string_of_length_between(to_bound, to_bound)
}

/// A string of digits, of a random length from `from_bound` up to, but not including,
/// `to_bound`; of exactly that length where the two are equal.
pub fn some_numeric_string_of_length_between(from_bound: usize, to_bound: usize) -> (text: String)
    requires
        from_bound <= to_bound,
    ensures
        in_sampled_range(from_bound as int, to_bound as int, text@.len() as int),
        from_bound <= text@.len() <= to_bound,
        forall|i: int| 0 <= i < text@.len() ==> is_numeric(#[trigger] text@[i]),
{
    let bound: usize = some_number_between(from_bound, to_bound);
    proof {
        numeric_charset_holds_the_digits();
    }
    string_over(bound, NUMERIC_CHARSET)
}

/// A string of letters, of a random length from [`DEFAULT_MIN_LENGTH`] up to, but not
/// including, [`DEFAULT_MAX_LENGTH`].
pub fn some_alpha_string() -> (text: String)
    ensures
        DEFAULT_MIN_LENGTH <= text@.len() < DEFAULT_MAX_LENGTH,
        forall|i: int| 0 <= i < text@.len() ==> is_alpha(#[trigger] text@[i]),
{
    some_alpha_string_of_length_between(DEFAULT_MIN_LENGTH, DEFAULT_MAX_LENGTH)
}

/// A string of exactly `to_bound` letters.
pub fn some_alpha_string_of_length(to_bound: usize) -> (text: String)
    ensures
        text@.len() == to_bound,
        forall|i: int| 0 <= i < text@.len() ==> is_alpha(#[trigger] text@[i]),
{
    some_alpha_string_of_length_between(to_bound, to_bound)
}

/// A string of letters, of a random length from `from_bound` up to, but not including,
/// `to_bound`; of exactly that length where the two are equal.
pub fn some_alpha_string_of_length_between(from_bound: usize, to_bound: usize) -> (text: String)
    requires
        from_bound <= to_bound,
    ensures
        in_sampled_range(from_bound as int, to_bound as int, text@.len() as int),
        from_bound <= text@.len() <= to_bound,
        forall|i: int| 0 <= i < text@.len() ==> is_alpha(#[trigger] text@[i]),
{
    let bound: usize = some_number_between(from_bound, to_bound);
    proof {
        alpha_charset_holds_the_letters();
    }
    string_over(bound, ALPHA_CHARSET)
}

} // verus!
