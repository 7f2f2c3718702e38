//! What comes in from the keyboard and what a tick reports back.

use vstd::prelude::*;
use vstd::string::StrSliceExecFns;

verus! {

/// A key press as the game reads it.
#[derive(Clone, Copy, Debug, PartialEq, Eq, Structural)]
pub enum Key {
    Up,
    Down,
    Left,
    Right,
    /// Any key that steers nothing.
    Other,
}

/// What one tick did to a game.
#[derive(Clone, Copy, Debug, PartialEq, Eq, Structural)]
pub enum Tick {
    /// The game was over already; nothing changed.
    Idle,
    /// The snake ran into itself: the game is over now, and the front end
    /// should offer a restart.
    Crashed,
    /// The snake moved by one cell.
    Moved,
    /// The snake ate the food, grew by one cell and scored.
    Ate,
}

/// The key that a key name stands for.
pub open spec fn key_of(name: Seq<char>) -> Key {
    if name == "ArrowUp"@ {
        Key::Up
    } else if name == "ArrowDown"@ {
        Key::Down
    } else if name == "ArrowLeft"@ {
        Key::Left
    } else if name == "ArrowRight"@ {
        Key::Right
    } else {
        Key::Other
    }
}

/// Whether two strings hold the same characters.
pub fn same_text(a: &str, b: &str) -> (r: bool)
    ensures
        r == (a@ == b@),
{
    let n = a.unicode_len();
    if n != b.unicode_len() {
        return false;
    }
    let mut i: usize = 0;
    while i < n
        invariant
            i <= n,
            n == a@.len(),
            n == b@.len(),
            forall|j: int| 0 <= j < i ==> a@[j] == b@[j],
        decreases n - i,
    {
        if a.get_char(i) != b.get_char(i) {
            return false;
        }
        i += 1;
    }
    proof {
        assert(a@ =~= b@);
    }
    true
}

/// Reads a key name as the browser gives it.
pub fn parse_key(key: &str) -> (k: Key)
    ensures
        k == key_of(key@),
{
    if same_text(key, "ArrowUp") {
        Key::Up
    } else if same_text(key, "ArrowDown") {
        Key::Down
    } else if same_text(key, "ArrowLeft") {
        Key::Left
    } else if same_text(key, "ArrowRight") {
        Key::Right
    } else {
        Key::Other
    }
}

} // verus!
