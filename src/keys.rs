//! Key events and the byte patterns that stand for them.
use vstd::prelude::*;

verus! {

/// Size of the window that one terminal read fills.
pub const BYTES: usize = 3;

/// One decoded input event.
#[derive(PartialEq, Eq, Structural, Clone, Copy, Debug)]
pub enum Keys {
    Up,
    Down,
    Left,
    Right,
    Enter,
    Home,
    Tab,
    Backtab,
    Space,
    Delete,
    Escape,
    End,
    /// Insert. Its escape sequence is longer than the window, so no pattern
    /// of the table gives it.
    Insert,
    /// A printable character: a letter or a punctuation sign.
    Char(char),
    /// A digit, with its value from 0 to 9.
    Digit(u8),
    /// A function key, numbered 1 to 12.
    F(u8),
    /// A key pressed together with Ctrl, given as the unmodified character.
    Ctrl(char),
    /// A key pressed together with Alt.
    Alt(char),
    /// A key pressed together with AltGr.
    AltGr(char),
    /// The window matched no pattern.
    Null,
}

/// A byte pattern of the window's size and the key it stands for.
#[derive(Clone, Copy, Debug)]
pub struct PatternEntry {
    pub pattern: [u8; BYTES],
    pub key: Keys,
}

/// The entry for the pattern `[b0, b1, b2]`.
pub open spec fn entry(b0: u8, b1: u8, b2: u8, key: Keys) -> PatternEntry {
    PatternEntry { pattern: [b0, b1, b2], key }
}

/// The window of a read that delivered no byte.
pub open spec fn empty_window() -> [u8; BYTES] {
    [0, 0, 0]
}

/// Appends the entry for `[b0, b1, b2]` to `v`.
pub(crate) fn push_entry(v: &mut Vec<PatternEntry>, b0: u8, b1: u8, b2: u8, key: Keys)
    ensures
        final(v)@ == old(v)@.push(entry(b0, b1, b2, key)),
{
    v.push(PatternEntry { pattern: [b0, b1, b2], key });
}

/// Whether two windows hold the same bytes.
pub fn same_window(a: &[u8; BYTES], b: &[u8; BYTES]) -> (r: bool)
    ensures
        r == (*a == *b),
{
    let r = a[0] == b[0] && a[1] == b[1] && a[2] == b[2];
    proof {
        if r {
            assert(*a =~= *b);
        }
    }
    r
}

} // verus!
