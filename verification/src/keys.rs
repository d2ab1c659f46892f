//! The three key sensors and how a reading of their lines names a position.

use vstd::prelude::*;

verus! {

/// The level a key line reads while its key is pressed.
pub const ACTIVE: u8 = 1;

/// How many positions the panel has.
pub const POSITIONS: usize = 3;

/// A response position of the panel, in scan order, or no position at all.
#[derive(Clone, Copy, Debug, PartialEq, Eq, Structural)]
pub enum KeyPosition {
    Right,
    Center,
    Left,
    /// No key line read active.
    NoKey,
}

impl KeyPosition {
    /// The place of a position in scan order; `NoKey` has none.
    pub open spec fn ordinal(self) -> Option<int> {
        match self {
            KeyPosition::Right => Some(0int),
            KeyPosition::Center => Some(1int),
            KeyPosition::Left => Some(2int),
            KeyPosition::NoKey => None,
        }
    }

    /// The position at place `i` of the scan order; `NoKey` past the last.
    pub open spec fn at(i: int) -> KeyPosition {
        if i == 0 {
            KeyPosition::Right
        } else if i == 1 {
            KeyPosition::Center
        } else if i == 2 {
            KeyPosition::Left
        } else {
            KeyPosition::NoKey
        }
    }

    /// The place of this position in scan order.
    pub fn index(&self) -> (i: Option<usize>)
        ensures
            match i {
                Some(place) => self.ordinal() == Some(place as int) && place < POSITIONS,
                None => self.ordinal().is_none(),
            },
    {
        match self {
            KeyPosition::Right => Some(0),
            KeyPosition::Center => Some(1),
            KeyPosition::Left => Some(2),
            KeyPosition::NoKey => None,
        }
    }

    /// The position at place `i` of the scan order, `NoKey` for any `i`
    /// past the last position.
    pub fn from_index(i: usize) -> (position: KeyPosition)
        ensures
            position == KeyPosition::at(i as int),
            i < POSITIONS ==> position.ordinal() == Some(i as int),
            i >= POSITIONS ==> position == KeyPosition::NoKey,
    {
        if i == 0 {
            KeyPosition::Right
        } else if i == 1 {
            KeyPosition::Center
        } else if i == 2 {
            KeyPosition::Left
        } else {
            KeyPosition::NoKey
        }
    }
}

/// Whether place `i` of a reading belongs to a key and reads active.
pub open spec fn pressed(levels: Seq<u8>, i: int) -> bool {
    0 <= i < POSITIONS && i < levels.len() && levels[i] == ACTIVE
}

/// The position a reading resolves to: the first key in scan order whose
/// line reads active, `NoKey` when none does. Levels past the third line
/// belong to no key and are not looked at.
pub open spec fn resolved(levels: Seq<u8>) -> KeyPosition {
    if pressed(levels, 0) {
        KeyPosition::Right
    } else if pressed(levels, 1) {
        KeyPosition::Center
    } else if pressed(levels, 2) {
        KeyPosition::Left
    } else {
        KeyPosition::NoKey
    }
}

/// The bank of key sensors: the lines they are read from and the lines that
/// power their break-beam emitters.
#[derive(Clone, Copy, Debug, PartialEq, Eq)]
pub struct PeckKeys {
    pub lines: [u32; 3],
    pub ir: [u32; 3],
}

impl PeckKeys {
    /// Offsets of the key lines, in scan order.
    pub const KEY_LINES: [u32; 3] = [13, 14, 15];

    /// Offsets of the emitter lines, in scan order.
    pub const IR: [u32; 3] = [9, 10, 11];

    /// The key bank of the panel, on its wired lines.
    pub fn new() -> (keys: PeckKeys)
        ensures
            keys.lines == PeckKeys::KEY_LINES,
            keys.ir == PeckKeys::IR,
    {
        PeckKeys { lines: PeckKeys::KEY_LINES, ir: PeckKeys::IR }
    }

    /// Names the position that a reading of the key lines stands for.
    ///
    /// When several keys read active at once, the first in scan order wins.
    pub fn resolve(&self, levels: &[u8]) -> (position: KeyPosition)
        ensures
            position == resolved(levels@),
            match position.ordinal() {
                Some(i) => pressed(levels@, i) && forall|j: int| 0 <= j < i ==> !pressed(levels@, j),
                None => forall|j: int| !pressed(levels@, j),
            },
    {
        let mut i: usize = 0;
        while i < POSITIONS && i < levels.len()
            invariant
                i <= POSITIONS,
                forall|j: int| 0 <= j < i ==> !pressed(levels@, j),
            decreases POSITIONS - i,
        {
            if levels[i] == ACTIVE {
                return KeyPosition::from_index(i);
            }
            i += 1;
        }
        KeyPosition::NoKey
    }
}

} // verus!
