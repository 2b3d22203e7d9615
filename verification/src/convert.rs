//! The character encoder: which code the board shows for which character.
//!
//! The board knows the blank, the lower-case letters, the digits and a short
//! list of punctuation marks. Every other character is shown as a blank, so
//! encoding never fails.

use vstd::prelude::*;

verus! {

/// The code of an empty cell.
pub const BLANK: i32 = 0;

/// The largest code that the encoder gives out.
pub const MAX_CODE: i32 = 62;

/// The code of a punctuation mark, `BLANK` for any other character.
pub open spec fn punctuation_code(c: char) -> int {
    if c == '!' {
        37
    } else if c == '@' {
        38
    } else if c == '#' {
        39
    } else if c == '$' {
        40
    } else if c == '(' {
        41
    } else if c == ')' {
        42
    } else if c == '-' {
        44
    } else if c == '+' {
        46
    } else if c == '&' {
        47
    } else if c == '=' {
        48
    } else if c == ';' {
        49
    } else if c == ':' {
        50
    } else if c == '\'' {
        52
    } else if c == '"' {
        53
    } else if c == '%' {
        54
    } else if c == ',' {
        55
    } else if c == '.' {
        56
    } else if c == '/' {
        59
    } else if c == '?' {
        60
    } else if c == '°' {
        62
    } else {
        0
    }
}

/// The code that the board shows for `c`: letters `a` to `z` are 1 to 26,
/// digits `1` to `9` are 27 to 35, `0` is 36, punctuation follows, and every
/// other character (the space among them) is `BLANK`.
pub open spec fn code_of(c: char) -> int {
    if 'a' <= c <= 'z' {
        c as int - 'a' as int + 1
    } else if '1' <= c <= '9' {
        c as int - '1' as int + 27
    } else if c == '0' {
        36
    } else {
        punctuation_code(c)
    }
}

/// Whether `v` is a code that the encoder can give out.
pub open spec fn is_code(v: int) -> bool {
    0 <= v <= 62 && v != 43 && v != 45 && v != 51 && v != 57 && v != 58 && v != 61
}

/// A character that is shown as code `v`; the space for a `v` that is no code.
pub open spec fn glyph_of(v: int) -> char {
    if 1 <= v <= 26 {
        (v - 1 + 'a' as int) as char
    } else if 27 <= v <= 35 {
        (v - 27 + '1' as int) as char
    } else if v == 36 {
        '0'
    } else if v == 37 {
        '!'
    } else if v == 38 {
        '@'
    } else if v == 39 {
        '#'
    } else if v == 40 {
        '$'
    } else if v == 41 {
        '('
    } else if v == 42 {
        ')'
    } else if v == 44 {
        '-'
    } else if v == 46 {
        '+'
    } else if v == 47 {
        '&'
    } else if v == 48 {
        '='
    } else if v == 49 {
        ';'
    } else if v == 50 {
        ':'
    } else if v == 52 {
        '\''
    } else if v == 53 {
        '"'
    } else if v == 54 {
        '%'
    } else if v == 55 {
        ','
    } else if v == 56 {
        '.'
    } else if v == 59 {
        '/'
    } else if v == 60 {
        '?'
    } else if v == 62 {
        '°'
    } else {
        ' '
    }
}

/// Maps a character to its code on the board. Characters that the board
/// cannot show come out as `BLANK`.
pub fn char_to_int(character: char) -> (code: i32)
    ensures
        code == code_of(character),
        is_code(code as int),
{
    match character {
        ' ' => 0,
        'a' => 1,
        'b' => 2,
        'c' => 3,
        'd' => 4,
        'e' => 5,
        'f' => 6,
        'g' => 7,
        'h' => 8,
        'i' => 9,
        'j' => 10,
        'k' => 11,
        'l' => 12,
        'm' => 13,
        'n' => 14,
        'o' => 15,
        'p' => 16,
        'q' => 17,
        'r' => 18,
        's' => 19,
        't' => 20,
        'u' => 21,
        'v' => 22,
        'w' => 23,
        'x' => 24,
        'y' => 25,
        'z' => 26,
        '1' => 27,
        '2' => 28,
        '3' => 29,
        '4' => 30,
        '5' => 31,
        '6' => 32,
        '7' => 33,
        '8' => 34,
        '9' => 35,
        '0' => 36,
        '!' => 37,
        '@' => 38,
        '#' => 39,
        '$' => 40,
        '(' => 41,
        ')' => 42,
        '-' => 44,
        '+' => 46,
        '&' => 47,
        '=' => 48,
        ';' => 49,
        ':' => 50,
        '\'' => 52,
        '"' => 53,
        '%' => 54,
        ',' => 55,
        '.' => 56,
        '/' => 59,
        '?' => 60,
        '°' => 62,
        _ => 0,
    }
}

/// Whether `code` is one that the encoder can give out.
pub fn is_valid_code(code: i32) -> (valid: bool)
    ensures
        valid == is_code(code as int),
{
    0 <= code && code <= MAX_CODE && code != 43 && code != 45 && code != 51 && code != 57
        && code != 58 && code != 61
}

/// Every character is encoded, and to a code of the board.
pub proof fn lemma_code_of_is_code(c: char)
    ensures
        is_code(code_of(c)),
{
}

/// The codes of the board are exactly the values that the encoder reaches:
/// each code is the code of some character, and nothing else is.
pub proof fn lemma_codes_are_the_encoder_range(v: int)
    ensures
        is_code(v) <==> exists|c: char| code_of(c) == v,
{
    if is_code(v) {
        assert(code_of(glyph_of(v)) == v);
    }
}

} // verus!
