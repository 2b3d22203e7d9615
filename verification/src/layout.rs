//! The line layout engine: text in, a row of codes of a fixed width out.
//!
//! Text that is too long for the row is cut to its first `width` characters,
//! whatever the alignment; shorter text is padded with blanks. Laying out a
//! line never fails.

use vstd::prelude::*;
use crate::convert::{char_to_int, code_of, is_code, BLANK};

verus! {

/// Where text stands in a row that is wider than the text.
#[derive(Clone, Copy, Debug, PartialEq, Eq, Structural)]
pub enum Align {
    /// The text starts in the first column.
    Left,
    /// The text stands in the middle; an odd blank goes to the right.
    Center,
}

/// `c` with the letters `A` to `Z` turned to lower case.
pub open spec fn lower(c: char) -> char {
    if 'A' <= c <= 'Z' {
        (c as int + 32) as char
    } else {
        c
    }
}

/// The code shown for `c` in running text, where capitals count as small letters.
pub open spec fn shown_code(c: char) -> i32 {
    code_of(lower(c)) as i32
}

/// The codes of the characters of `text`, one for one.
pub open spec fn text_codes(text: Seq<char>) -> Seq<i32> {
    Seq::new(text.len(), |i: int| shown_code(text[i]))
}

/// What is left of `text` in a row of `width` columns: its first `width` characters.
pub open spec fn clipped(text: Seq<char>, width: nat) -> Seq<char> {
    if text.len() <= width {
        text
    } else {
        text.take(width as int)
    }
}

/// The column in which text of `len` characters starts in a row of `width`
/// columns. Meant for `len <= width`.
pub open spec fn start_column(len: nat, width: nat, align: Align) -> nat {
    match align {
        Align::Left => 0,
        Align::Center => if len <= width {
            ((width - len) / 2) as nat
        } else {
            0
        },
    }
}

/// The row of `width` codes that shows `text`.
pub open spec fn laid_out(text: Seq<char>, width: nat, align: Align) -> Seq<i32> {
    let shown = clipped(text, width);
    let start = start_column(shown.len(), width, align);
    Seq::new(
        width,
        |j: int|
            if start <= j < start + shown.len() {
                shown_code(shown[j - start])
            } else {
                BLANK
            },
    )
}

/// Turns the letters `A` to `Z` to lower case and leaves every other character.
pub fn to_lower(c: char) -> (l: char)
    ensures
        l == lower(c),
{
    if 'A' <= c && c <= 'Z' {
        ((c as u8) + 32) as char
    } else {
        c
    }
}

/// The code shown for `c` in running text.
pub fn encode(c: char) -> (code: i32)
    ensures
        code == shown_code(c),
        is_code(code as int),
{
    char_to_int(to_lower(c))
}

/// The characters of `text`, in order.
pub fn chars_of(text: &str) -> (chars: Vec<char>)
    ensures
        chars@ == text@,
{
    let mut chars: Vec<char> = Vec::new();
    for c in it: text.chars()
        invariant
            chars@ == it.seq().take(it.index() as int),
            it.seq() == text@,
    {
        chars.push(c);
    }
    chars
}

/// Lays `text` out in a row of `width` codes.
pub fn layout(text: &str, width: usize, align: Align) -> (line: Vec<i32>)
    ensures
        line@ == laid_out(text@, width as nat, align),
        line@.len() == width,
{
    let chars = chars_of(text);
    let shown: usize = if chars.len() <= width {
        chars.len()
    } else {
        width
    };
    let start: usize = match align {
        Align::Left => 0,
        Align::Center => (width - shown) / 2,
    };
    let ghost goal = laid_out(text@, width as nat, align);
    let mut line: Vec<i32> = Vec::new();
    let mut j: usize = 0;
    while j < width
        invariant
            j <= width,
            line@.len() == j,
            chars@ == text@,
            shown == clipped(text@, width as nat).len(),
            shown <= width,
            start == start_column(shown as nat, width as nat, align),
            goal == laid_out(text@, width as nat, align),
            forall|k: int| 0 <= k < j ==> line@[k] == goal[k],
        decreases width - j,
    {
        let code: i32 = if start <= j && j - start < shown {
            encode(chars[j - start])
        } else {
            BLANK
        };
        line.push(code);
        j += 1;
    }
    line
}

/// A row always has the width that was asked for.
pub proof fn lemma_layout_width(text: Seq<char>, width: nat, align: Align)
    ensures
        laid_out(text, width, align).len() == width,
{
}

/// Every cell of a row holds a code of the board.
pub proof fn lemma_layout_codes(text: Seq<char>, width: nat, align: Align)
    ensures
        forall|j: int|
            0 <= j < width ==> is_code(#[trigger] laid_out(text, width, align)[j] as int),
{
}

/// Centred text that fits starts in column `(width - len) / 2`, rounded down,
/// fills `len` columns with its codes, and has blanks everywhere else.
pub proof fn lemma_layout_centered(text: Seq<char>, width: nat)
    requires
        text.len() <= width,
    ensures
        ({
            let line = laid_out(text, width, Align::Center);
            let start = (width - text.len()) / 2;
            &&& 0 <= start
            &&& start + text.len() <= width
            &&& line.subrange(start, start + text.len()) == text_codes(text)
            &&& forall|j: int|
                0 <= j < width && !(start <= j < start + text.len()) ==> #[trigger] line[j]
                    == BLANK
        }),
{
}

/// Left-aligned text that fits starts in the first column and is followed by blanks.
pub proof fn lemma_layout_left(text: Seq<char>, width: nat)
    requires
        text.len() <= width,
    ensures
        laid_out(text, width, Align::Left).take(text.len() as int) == text_codes(text),
        forall|j: int|
            text.len() <= j < width ==> #[trigger] laid_out(text, width, Align::Left)[j]
                == BLANK,
{
}

/// Text that is at least as long as the row is cut: the row holds the codes of
/// its first `width` characters and no padding.
pub proof fn lemma_layout_truncates(text: Seq<char>, width: nat, align: Align)
    requires
        text.len() >= width,
    ensures
        laid_out(text, width, align) == text_codes(text.take(width as int)),
{
}

/// Empty text gives a row of blanks.
pub proof fn lemma_layout_empty(width: nat, align: Align)
    ensures
        laid_out(Seq::<char>::empty(), width, align) == Seq::new(width, |j: int| BLANK),
{
}

} // verus!
