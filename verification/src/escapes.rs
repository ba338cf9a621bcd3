//! The ANSI control sequences the updater emits, as mathematical byte
//! sequences, and the newline counting rule that decides how many lines a
//! render occupies.

use vstd::prelude::*;
use vstd::string::StringSliceAdditionalSpecFns;

verus! {

/// The escape byte that introduces every control sequence.
pub open spec fn esc() -> u8 {
    0x1b
}

/// `\x1B[?25l`: hide the cursor.
pub open spec fn cursor_hide_seq() -> Seq<u8> {
    seq![esc(), 0x5b, 0x3f, 0x32, 0x35, 0x6c]
}

/// `\x1B[?25h`: show the cursor.
pub open spec fn cursor_show_seq() -> Seq<u8> {
    seq![esc(), 0x5b, 0x3f, 0x32, 0x35, 0x68]
}

/// `\x1B[1000D\x1B[K`: move the cursor to column 0 and erase the current
/// line's content.
pub open spec fn erase_line_seq() -> Seq<u8> {
    seq![esc(), 0x5b, 0x31, 0x30, 0x30, 0x30, 0x44, esc(), 0x5b, 0x4b]
}

/// `\x1B[1A`: move the cursor up one line.
pub open spec fn cursor_up_seq() -> Seq<u8> {
    seq![esc(), 0x5b, 0x31, 0x41]
}

/// The sequence that erases the last `n` written lines: nothing for `n == 0`;
/// otherwise erase the current line, then for each of the remaining `n - 1`
/// lines move up one line and erase it.
pub open spec fn erase_lines_seq(n: nat) -> Seq<u8>
    decreases n,
{
    if n == 0 {
        Seq::empty()
    } else if n == 1 {
        erase_line_seq()
    } else {
        erase_lines_seq((n - 1) as nat) + cursor_up_seq() + erase_line_seq()
    }
}

/// The single byte a trailing newline writes.
pub open spec fn newline_seq() -> Seq<u8> {
    seq![0x0au8]
}

/// How many newline bytes a text contains.  The text is UTF-8, where the
/// byte 0x0A occurs exactly at the newline characters, so this also counts
/// the newline characters of the text.
pub open spec fn newline_count(s: Seq<u8>) -> nat
    decreases s.len(),
{
    if s.len() == 0 {
        0
    } else {
        newline_count(s.drop_last()) + if s.last() == 0x0au8 {
            1nat
        } else {
            0nat
        }
    }
}

/// A text never contains more newlines than bytes.
pub proof fn lemma_newline_count_le_len(s: Seq<u8>)
    ensures
        newline_count(s) <= s.len(),
    decreases s.len(),
{
    if s.len() > 0 {
        lemma_newline_count_le_len(s.drop_last());
    }
}

/// Relies on ansi_escapes::CursorHide, which displays as `\x1B[?25l`.
#[verifier::external_body]
pub(crate) fn cursor_hide_bytes() -> (r: Vec<u8>)
    ensures
        r@ == cursor_hide_seq(),
{
    format!("{}", ansi_escapes::CursorHide).into_bytes()
}

/// Relies on ansi_escapes::CursorShow, which displays as `\x1B[?25h`.
#[verifier::external_body]
pub(crate) fn cursor_show_bytes() -> (r: Vec<u8>)
    ensures
        r@ == cursor_show_seq(),
{
    format!("{}", ansi_escapes::CursorShow).into_bytes()
}

/// Relies on ansi_escapes::EraseLines(n), which displays as nothing for
/// `n == 0` and otherwise as `\x1B[1000D\x1B[K` followed by `n - 1`
/// repetitions of `\x1B[1A\x1B[1000D\x1B[K`.
#[verifier::external_body]
pub(crate) fn erase_lines_bytes(n: u16) -> (r: Vec<u8>)
    ensures
        r@ == erase_lines_seq(n as nat),
{
    format!("{}", ansi_escapes::EraseLines(n)).into_bytes()
}

/// Count the newline characters of a text.
pub fn count_newlines(text: &str) -> (n: usize)
    ensures
        n == newline_count(text.spec_bytes()),
{
    let bytes = text.as_bytes();
    let mut n: usize = 0;
    let mut i: usize = 0;
    proof {
        assert(bytes@.subrange(0, 0) =~= Seq::<u8>::empty());
    }
    while i < bytes.len()
        invariant
            i <= bytes@.len(),
            bytes@ == text.spec_bytes(),
            n == newline_count(bytes@.subrange(0, i as int)),
        decreases bytes@.len() - i,
    {
        proof {
            let pre = bytes@.subrange(0, i as int);
            let post = bytes@.subrange(0, i as int + 1);
            assert(post.drop_last() =~= pre);
            assert(post.last() == bytes@[i as int]);
            lemma_newline_count_le_len(pre);
        }
        if bytes[i] == 0x0au8 {
            n = n + 1;
        }
        i = i + 1;
    }
    proof {
        assert(bytes@.subrange(0, bytes@.len() as int) =~= bytes@);
    }
    n
}

} // verus!
