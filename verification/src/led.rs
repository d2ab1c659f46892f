//! The colour cycle of one indicator light, the three lights of the panel,
//! and the line levels that show them.

use vstd::prelude::*;
use crate::keys::KeyPosition;

verus! {

/// What one position's tri-colour light currently shows.
#[derive(Clone, Copy, Debug, PartialEq, Eq, Structural)]
pub enum LedState {
    Off,
    Blue,
    Red,
    Green,
    All,
}

impl LedState {
    /// The state that follows `self` in the cycle
    /// Off, Blue, Red, Green, All, and back to Off.
    pub open spec fn successor(self) -> LedState {
        match self {
            LedState::Off => LedState::Blue,
            LedState::Blue => LedState::Red,
            LedState::Red => LedState::Green,
            LedState::Green => LedState::All,
            LedState::All => LedState::Off,
        }
    }

    /// The state reached from `self` by `n` steps of the cycle.
    pub open spec fn after(self, n: nat) -> LedState
        decreases n,
    {
        if n == 0 {
            self
        } else {
            self.successor().after((n - 1) as nat)
        }
    }

    /// The levels of the three output lines of a light, in the order in
    /// which the lines of a group are wired: red, blue, green. One line is
    /// active for a single colour, none for `Off`, all three for `All`.
    pub open spec fn levels(self) -> [u8; 3] {
        match self {
            LedState::Off => [0u8, 0u8, 0u8],
            LedState::Red => [1u8, 0u8, 0u8],
            LedState::Blue => [0u8, 1u8, 0u8],
            LedState::Green => [0u8, 0u8, 1u8],
            LedState::All => [1u8, 1u8, 1u8],
        }
    }

    /// Moves the light one step along the cycle and hands the light back.
    pub fn next(&mut self) -> (r: &mut Self)
        ensures
            *r == old(self).successor(),
            *final(self) == *final(r),
    {
        match self {
            LedState::Off => { *self = LedState::Blue }
            LedState::Blue => { *self = LedState::Red }
            LedState::Red => { *self = LedState::Green }
            LedState::Green => { *self = LedState::All }
            LedState::All => { *self = LedState::Off }
        };
        self
    }

    /// The line levels that show this state.
    pub fn as_value(&self) -> (values: [u8; 3])
        ensures
            values == self.levels(),
    {
        match self {
            LedState::Off => [0, 0, 0],
            LedState::Red => [1, 0, 0],
            LedState::Blue => [0, 1, 0],
            LedState::Green => [0, 0, 1],
            LedState::All => [1, 1, 1],
        }
    }
}

/// The cycle closes after five steps and not before: from any state, five
/// steps lead back to it, and fewer (but at least one) lead elsewhere.
pub proof fn lemma_cycle_closes(state: LedState)
    ensures
        state.after(5) == state,
        forall|n: nat| 0 < n < 5 ==> #[trigger] state.after(n) != state,
{
    reveal_with_fuel(LedState::after, 6);
}

/// The levels of a light are 0 or 1, and the number of active lines is
/// none for `Off`, three for `All`, and one for a single colour.
pub proof fn lemma_one_line_per_colour(state: LedState)
    ensures
        forall|i: int| 0 <= i < 3 ==> state.levels()@[i] == 0 || state.levels()@[i] == 1,
        state.levels()@[0] + state.levels()@[1] + state.levels()@[2] == match state {
            LedState::Off => 0int,
            LedState::All => 3int,
            _ => 1int,
        },
{
}

/// The line levels tell the states apart: two states that show the same
/// levels are the same state.
pub proof fn lemma_levels_tell_states_apart(a: LedState, b: LedState)
    requires
        a.levels() == b.levels(),
    ensures
        a == b,
{
}

/// One write to the output lines of a single position's light.
#[derive(Clone, Copy, Debug, PartialEq, Eq)]
pub struct LedWrite {
    /// The position whose light is written.
    pub position: KeyPosition,
    /// Offsets of the lines written, in wiring order.
    pub lines: [u32; 3],
    /// The level for each of `lines`.
    pub values: [u8; 3],
}

/// The three lights of the panel, one state per position in scan order.
#[derive(Clone, Copy, Debug, PartialEq, Eq)]
pub struct PeckLEDs {
    pub peck_position: [LedState; 3],
}

impl View for PeckLEDs {
    type V = Seq<LedState>;

    open spec fn view(&self) -> Seq<LedState> {
        self.peck_position@
    }
}

impl PeckLEDs {
    /// Offsets of the right light's lines.
    pub const RIGHT_LINES: [u32; 3] = [0, 3, 6];

    /// Offsets of the center light's lines.
    pub const CENTER_LINES: [u32; 3] = [1, 4, 7];

    /// Offsets of the left light's lines.
    pub const LEFT_LINES: [u32; 3] = [2, 5, 8];

    /// The lines of the light at `position`.
    pub open spec fn group(position: KeyPosition) -> Option<[u32; 3]> {
        match position {
            KeyPosition::Right => Some(PeckLEDs::RIGHT_LINES),
            KeyPosition::Center => Some(PeckLEDs::CENTER_LINES),
            KeyPosition::Left => Some(PeckLEDs::LEFT_LINES),
            KeyPosition::NoKey => None,
        }
    }

    /// The lights after a peck at `position`: that position's light moves
    /// one step along the cycle, the others stay; `NoKey` moves none.
    pub open spec fn advanced(states: Seq<LedState>, position: KeyPosition) -> Seq<LedState> {
        match position.ordinal() {
            Some(i) => states.update(i, states[i].successor()),
            None => states,
        }
    }

    /// The lights after `n` pecks at `position`.
    pub open spec fn advanced_by(states: Seq<LedState>, position: KeyPosition, n: nat) -> Seq<
        LedState,
    >
        decreases n,
    {
        if n == 0 {
            states
        } else {
            PeckLEDs::advanced_by(PeckLEDs::advanced(states, position), position, (n - 1) as nat)
        }
    }

    /// The write that shows the light at `position` as `states` has it;
    /// none for `NoKey`.
    pub open spec fn rendering(states: Seq<LedState>, position: KeyPosition) -> Option<LedWrite> {
        match position.ordinal() {
            Some(i) => Some(
                LedWrite {
                    position,
                    lines: PeckLEDs::group(position).unwrap(),
                    values: states[i].levels(),
                },
            ),
            None => None,
        }
    }

    /// The lights of a panel that has not been pecked: all off.
    pub fn new() -> (leds: PeckLEDs)
        ensures
            leds@ == seq![LedState::Off, LedState::Off, LedState::Off],
    {
        PeckLEDs { peck_position: [LedState::Off, LedState::Off, LedState::Off] }
    }

    /// The lines of the light at `position`; none for `NoKey`.
    pub fn lines(position: KeyPosition) -> (lines: Option<[u32; 3]>)
        ensures
            lines == PeckLEDs::group(position),
    {
        match position {
            KeyPosition::Right => Some(PeckLEDs::RIGHT_LINES),
            KeyPosition::Center => Some(PeckLEDs::CENTER_LINES),
            KeyPosition::Left => Some(PeckLEDs::LEFT_LINES),
            KeyPosition::NoKey => None,
        }
    }

    /// What the light at `position` shows; none for `NoKey`.
    pub fn current_state(&self, position: KeyPosition) -> (state: Option<LedState>)
        ensures
            state == match position.ordinal() {
                Some(i) => Some(self@[i]),
                None => None,
            },
    {
        match position.index() {
            Some(i) => Some(self.peck_position[i]),
            None => None,
        }
    }

    /// Registers a peck at `position`: moves that position's light one step
    /// along the cycle and returns the write that shows its new state.
    ///
    /// A peck at `NoKey` changes nothing and asks for no write.
    pub fn pecked(&mut self, position: KeyPosition) -> (write: Option<LedWrite>)
        ensures
            final(self)@ == PeckLEDs::advanced(old(self)@, position),
            write == PeckLEDs::rendering(final(self)@, position),
            position == KeyPosition::NoKey ==> *final(self) == *old(self) && write.is_none(),
            forall|j: int|
                0 <= j < 3 && position.ordinal() != Some(j) ==> final(self)@[j] == old(self)@[j],
    {
        match (position.index(), PeckLEDs::lines(position)) {
            (Some(i), Some(lines)) => {
                self.peck_position[i].next();
                let values = self.peck_position[i].as_value();
                Some(LedWrite { position, lines, values })
            },
            _ => None,
        }
    }
}

/// Five pecks at one position bring every light back to what it showed.
pub proof fn lemma_five_pecks_restore(states: Seq<LedState>, position: KeyPosition)
    requires
        states.len() == 3,
    ensures
        PeckLEDs::advanced_by(states, position, 5) == states,
{
    reveal_with_fuel(PeckLEDs::advanced_by, 6);
    assert(PeckLEDs::advanced_by(states, position, 5) =~= states);
}

} // verus!
