//! Cursor movement: the escape sequences that move the terminal's cursor.
use vstd::prelude::*;
use crate::text::{dec, push_str, u64_dec};

verus! {

/// The escape sequence `ESC [ <n> <c>`.
pub open spec fn csi(n: nat, c: char) -> Seq<char> {
    seq!['\x1b', '['] + dec(n) + seq![c]
}

/// `ESC [ <n> <c>`.
fn csi_seq(n: u32, c: char) -> (r: String)
    ensures
        r@ == csi(n as nat, c),
{
    let mut r = String::new();
    crate::text::push_char(&mut r, '\x1b');
    crate::text::push_char(&mut r, '[');
    let d = u64_dec(n as u64);
    push_str(&mut r, d.as_str());
    crate::text::push_char(&mut r, c);
    assert(r@ =~= csi(n as nat, c));
    r
}

/// Moves the cursor `n` columns right.
pub fn right(n: u32) -> (r: String)
    ensures
        r@ == csi(n as nat, 'C'),
{
    csi_seq(n, 'C')
}

/// Moves the cursor `n` columns left.
pub fn left(n: u32) -> (r: String)
    ensures
        r@ == csi(n as nat, 'D'),
{
    csi_seq(n, 'D')
}

/// Moves the cursor `n` lines up.
pub fn up(n: u32) -> (r: String)
    ensures
        r@ == csi(n as nat, 'A'),
{
    csi_seq(n, 'A')
}

/// Moves the cursor `n` lines down.
pub fn down(n: u32) -> (r: String)
    ensures
        r@ == csi(n as nat, 'B'),
{
    csi_seq(n, 'B')
}

/// Moves the cursor to line `line`, column `col`: `ESC [ <line> ; <col> f`.
pub fn to(line: u32, col: u32) -> (r: String)
    ensures
        r@ == seq!['\x1b', '['] + dec(line as nat) + seq![';'] + dec(col as nat) + seq!['f'],
{
    let mut r = String::new();
    crate::text::push_char(&mut r, '\x1b');
    crate::text::push_char(&mut r, '[');
    let a = u64_dec(line as u64);
    push_str(&mut r, a.as_str());
    crate::text::push_char(&mut r, ';');
    let b = u64_dec(col as u64);
    push_str(&mut r, b.as_str());
    crate::text::push_char(&mut r, 'f');
    assert(r@ =~= seq!['\x1b', '['] + dec(line as nat) + seq![';'] + dec(col as nat) + seq!['f']);
    r
}

/// Saves the cursor position.
pub const save: &'static str = "\x1b[s";

/// Restores the saved cursor position.
pub const restore: &'static str = "\x1b[u";

} // verus!
