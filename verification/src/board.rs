//! The monitor of the panel as a step function: from what the hardware
//! reported to what is asked of it next.

use vstd::prelude::*;
use crate::error::{ChipNumber, Error};
use crate::keys::{pressed, resolved, KeyPosition, PeckKeys};
use crate::led::{lemma_five_pecks_restore, LedState, LedWrite, PeckLEDs};
use crate::source::{Edge, EventSource};

verus! {

/// What the hardware reported in answer to the last action.
#[derive(Debug, PartialEq, Eq)]
pub enum Event {
    /// The wait ended: the interrupt line has an edge pending.
    Ready,
    /// The wait ended on an exceptional condition of the interrupt line,
    /// which is no key event.
    Urgent,
    /// The wait ended because its time ran out.
    TimedOut,
    /// The wait ended because the monitor was told to stop.
    Cancelled,
    /// The wait ended because the interrupt line will report no more.
    Closed,
    /// The pending edge was taken off the interrupt line.
    Drained(Edge),
    /// The levels of the key lines, in scan order.
    Snapshot(Vec<u8>),
    /// The write to a light's lines went through.
    Written,
    /// The action failed.
    Failed,
}

/// What the monitor asks of the hardware.
#[derive(Clone, Copy, Debug, PartialEq, Eq)]
pub enum Action {
    /// Block until the interrupt line is ready or the monitor is cancelled.
    Wait,
    /// Take the pending edge off the interrupt line.
    Drain,
    /// Read the levels of the key lines.
    ReadKeys,
    /// Set the lines of one light.
    Write(LedWrite),
    /// Leave the loop, with its outcome.
    Stop(Result<(), Error>),
}

/// Where the monitor stands in its cycle.
#[derive(Clone, Copy, Debug, PartialEq, Eq, Structural)]
pub enum Phase {
    /// Blocked in the wait.
    Idle,
    Draining,
    Resolving,
    Advancing,
    /// The loop has ended.
    Stopped,
}

impl Phase {
    /// Whether the cycle allows `self` right after `before`. From the wait
    /// the way leads to draining, from there to resolving, from there to
    /// advancing, and from there back to the wait; draining and resolving
    /// may also lead straight back to the wait, any phase may last, and any
    /// may end in `Stopped`, which nothing follows.
    pub open spec fn may_follow(self, before: Phase) -> bool {
        self == before || match before {
            Phase::Idle => self == Phase::Draining || self == Phase::Stopped,
            Phase::Draining => self == Phase::Resolving || self == Phase::Idle || self
                == Phase::Stopped,
            Phase::Resolving => self == Phase::Advancing || self == Phase::Idle || self
                == Phase::Stopped,
            Phase::Advancing => self == Phase::Idle || self == Phase::Stopped,
            Phase::Stopped => false,
        }
    }
}

impl Action {
    /// The phase in which this action is pending.
    pub open spec fn phase(self) -> Phase {
        match self {
            Action::Wait => Phase::Idle,
            Action::Drain => Phase::Draining,
            Action::ReadKeys => Phase::Resolving,
            Action::Write(_) => Phase::Advancing,
            Action::Stop(_) => Phase::Stopped,
        }
    }
}

/// The panel under monitoring: its lights, its keys, its interrupt source,
/// and the action whose answer it awaits.
#[derive(Clone, Copy, Debug, PartialEq, Eq)]
pub struct PeckBoard {
    pub leds: PeckLEDs,
    pub keys: PeckKeys,
    pub source: EventSource,
    pub pending: Action,
}

/// A monitored panel as the contracts see it: as the panel itself, with the
/// lights as a sequence of states in scan order.
pub struct BoardView {
    pub leds: Seq<LedState>,
    pub keys: PeckKeys,
    pub source: EventSource,
    pub pending: Action,
}

impl View for PeckBoard {
    type V = BoardView;

    open spec fn view(&self) -> BoardView {
        BoardView {
            leds: self.leds@,
            keys: self.keys,
            source: self.source,
            pending: self.pending,
        }
    }
}

impl BoardView {
    /// The action that answers `event`.
    ///
    /// A wake-up is drained before the keys are read; an edge that the
    /// source's trigger does not name, and a reading with no active key,
    /// lead back to the wait; a failure ends the loop with the error of the
    /// action that failed. An event that does not answer the pending action
    /// changes nothing: the action is asked again.
    pub open spec fn answer(self, event: Event) -> Action {
        match (self.pending, event) {
            (Action::Wait, Event::Ready) => Action::Drain,
            (Action::Wait, Event::Cancelled) => Action::Stop(Ok(())),
            (Action::Wait, Event::Closed) => Action::Stop(Ok(())),
            (Action::Wait, Event::Failed) => Action::Stop(
                Err(Error::WaitError { line: self.source.line.identifier }),
            ),
            (Action::Drain, Event::Drained(edge)) => if self.source.trigger.fires_on(edge) {
                Action::ReadKeys
            } else {
                Action::Wait
            },
            (Action::Drain, Event::Failed) => Action::Stop(
                Err(Error::LineReadError { line: self.source.line.identifier }),
            ),
            (Action::ReadKeys, Event::Snapshot(levels)) => {
                let position = resolved(levels@);
                match PeckLEDs::rendering(PeckLEDs::advanced(self.leds, position), position) {
                    Some(write) => Action::Write(write),
                    None => Action::Wait,
                }
            },
            (Action::ReadKeys, Event::Failed) => Action::Stop(
                Err(Error::LinesReadError { lines: self.keys.lines }),
            ),
            (Action::Write(_), Event::Written) => Action::Wait,
            (Action::Write(write), Event::Failed) => Action::Stop(
                Err(Error::LinesSetError { lines: write.lines }),
            ),
            _ => self.pending,
        }
    }

    /// The lights after `event`: a reading of the keys, taken when the
    /// monitor asked for one, pecks the position it resolves to; nothing
    /// else touches the lights.
    pub open spec fn lights_after(self, event: Event) -> Seq<LedState> {
        match (self.pending, event) {
            (Action::ReadKeys, Event::Snapshot(levels)) => PeckLEDs::advanced(
                self.leds,
                resolved(levels@),
            ),
            _ => self.leds,
        }
    }

    /// The panel after `event`, with the answer to it pending.
    pub open spec fn step(self, event: Event) -> BoardView {
        BoardView { leds: self.lights_after(event), pending: self.answer(event), ..self }
    }

    /// The panel after each of `events` in turn.
    pub open spec fn run(self, events: Seq<Event>) -> BoardView
        decreases events.len(),
    {
        if events.len() == 0 {
            self
        } else {
            self.run(events.drop_last()).step(events.last())
        }
    }

    /// The panel after one round of the cycle in which nothing fails: a
    /// wake-up, the drain of `edge`, then, if the keys are asked for, a
    /// reading that gives `levels`, and, if a write is asked for, the write
    /// going through.
    pub open spec fn round(self, edge: Edge, levels: Vec<u8>) -> BoardView {
        let drained = self.step(Event::Ready).step(Event::Drained(edge));
        if drained.pending != Action::ReadKeys {
            drained
        } else {
            let read = drained.step(Event::Snapshot(levels));
            if read.pending is Write {
                read.step(Event::Written)
            } else {
                read
            }
        }
    }

    /// The panel after `n` rounds that all drain `edge` and read `levels`.
    pub open spec fn rounds(self, edge: Edge, levels: Vec<u8>, n: nat) -> BoardView
        decreases n,
    {
        if n == 0 {
            self
        } else {
            self.round(edge, levels).rounds(edge, levels, (n - 1) as nat)
        }
    }

    /// Where the monitor stands in its cycle.
    pub open spec fn phase(self) -> Phase {
        self.pending.phase()
    }

    /// Whether there is a light for each position, and a pending write is
    /// the one that shows a light as it now stands.
    pub open spec fn consistent(self) -> bool {
        &&& self.leds.len() == 3
        &&& match self.pending {
            Action::Write(write) => PeckLEDs::rendering(self.leds, write.position) == Some(write),
            _ => true,
        }
    }
}

impl PeckBoard {
    /// The controller that carries the panel's keys and lights.
    pub const PANEL_CHIP: ChipNumber = ChipNumber::Chip4;

    /// A panel with all lights off, about to wait on `source`.
    pub fn new(source: EventSource) -> (board: PeckBoard)
        ensures
            board@ == (BoardView {
                leds: seq![LedState::Off, LedState::Off, LedState::Off],
                keys: PeckKeys { lines: PeckKeys::KEY_LINES, ir: PeckKeys::IR },
                source,
                pending: Action::Wait,
            }),
            board@.consistent(),
    {
        PeckBoard { leds: PeckLEDs::new(), keys: PeckKeys::new(), source, pending: Action::Wait }
    }

    /// Takes what the hardware reported in answer to the pending action,
    /// and returns the action to perform next, which is then pending.
    pub fn monitor(&mut self, event: Event) -> (action: Action)
        ensures
            final(self)@ == old(self)@.step(event),
            action == final(self)@.pending,
            old(self)@.consistent() ==> final(self)@.consistent(),
    {
        let action = match self.pending {
            Action::Wait => match event {
                Event::Ready => Action::Drain,
                Event::Cancelled => Action::Stop(Ok(())),
                Event::Closed => Action::Stop(Ok(())),
                Event::Failed => Action::Stop(
                    Err(Error::WaitError { line: self.source.line.identifier }),
                ),
                _ => Action::Wait,
            },
            Action::Drain => match event {
                Event::Drained(edge) => if self.source.trigger.accepts(edge) {
                    Action::ReadKeys
                } else {
                    Action::Wait
                },
                Event::Failed => Action::Stop(
                    Err(Error::LineReadError { line: self.source.line.identifier }),
                ),
                _ => Action::Drain,
            },
            Action::ReadKeys => match event {
                Event::Snapshot(levels) => {
                    let position = self.keys.resolve(levels.as_slice());
                    match self.leds.pecked(position) {
                        Some(write) => Action::Write(write),
                        None => Action::Wait,
                    }
                },
                Event::Failed => Action::Stop(
                    Err(Error::LinesReadError { lines: self.keys.lines }),
                ),
                _ => Action::ReadKeys,
            },
            Action::Write(write) => match event {
                Event::Written => Action::Wait,
                Event::Failed => Action::Stop(Err(Error::LinesSetError { lines: write.lines })),
                _ => Action::Write(write),
            },
            Action::Stop(outcome) => Action::Stop(outcome),
        };
        self.pending = action;
        action
    }

    /// Where the monitor stands in its cycle.
    pub fn phase(&self) -> (phase: Phase)
        ensures
            phase == self@.phase(),
    {
        match self.pending {
            Action::Wait => Phase::Idle,
            Action::Drain => Phase::Draining,
            Action::ReadKeys => Phase::Resolving,
            Action::Write(_) => Phase::Advancing,
            Action::Stop(_) => Phase::Stopped,
        }
    }

    /// What the light at `position` shows; none for `NoKey`.
    pub fn current_state(&self, position: KeyPosition) -> (state: Option<LedState>)
        ensures
            state == match position.ordinal() {
                Some(i) => Some(self@.leds[i]),
                None => None,
            },
    {
        self.leds.current_state(position)
    }
}

/// Cancelling a waiting monitor ends the loop without an error and leaves
/// every light as it was.
pub proof fn lemma_cancel_stops_cleanly(board: BoardView)
    requires
        board.pending == Action::Wait,
    ensures
        board.step(Event::Cancelled) == (BoardView { pending: Action::Stop(Ok(())), ..board }),
{
}

/// A reading with no active key is no peck: the monitor goes back to the
/// wait, asks for no write, and leaves every light as it was.
pub proof fn lemma_idle_keys_write_nothing(board: BoardView, levels: Vec<u8>)
    requires
        board.pending == Action::ReadKeys,
        forall|j: int| !pressed(levels@, j),
    ensures
        board.step(Event::Snapshot(levels)) == (BoardView { pending: Action::Wait, ..board }),
{
}

/// A reading with an active key, taken when the monitor asked for one,
/// moves the light of the first active key one step along the cycle, leaves
/// the other lights alone, and asks for one write: the new state's levels on
/// that light's lines.
pub proof fn lemma_peck_writes_one_light(board: BoardView, levels: Vec<u8>, i: int)
    requires
        board.leds.len() == 3,
        board.pending == Action::ReadKeys,
        pressed(levels@, i),
        forall|j: int| 0 <= j < i ==> !pressed(levels@, j),
    ensures
        resolved(levels@) == KeyPosition::at(i),
        board.step(Event::Snapshot(levels)).leds == board.leds.update(
            i,
            board.leds[i].successor(),
        ),
        board.step(Event::Snapshot(levels)).pending == Action::Write(
            LedWrite {
                position: KeyPosition::at(i),
                lines: PeckLEDs::group(KeyPosition::at(i)).unwrap(),
                values: board.leds[i].successor().levels(),
            },
        ),
{
}

/// Nothing but a reading of the keys that the monitor asked for changes a
/// light, and such a reading changes one light at most.
pub proof fn lemma_lights_change_only_on_a_peck(board: BoardView, event: Event)
    requires
        board.leds.len() == 3,
    ensures
        board.step(event).leds != board.leds ==> board.pending == Action::ReadKeys
            && event is Snapshot && board.step(event).pending is Write,
        forall|j: int, k: int|
            #![trigger board.step(event).leds[j], board.step(event).leds[k]]
            0 <= j < k < 3 ==> board.step(event).leds[j] == board.leds[j] || board.step(
                event,
            ).leds[k] == board.leds[k],
{
}

/// A failure of the pending action ends the loop with an error and leaves
/// the lights as they were; the loop ends with an error on a failure only,
/// and without one only when the wait was cancelled or its source closed.
pub proof fn lemma_failure_ends_the_loop(board: BoardView, event: Event)
    requires
        !(board.pending is Stop),
    ensures
        event is Failed ==> board.step(event).pending matches Action::Stop(Err(_)),
        event is Failed ==> board.step(event).leds == board.leds,
        board.step(event).pending matches Action::Stop(Err(_)) ==> event is Failed,
        board.step(event).pending matches Action::Stop(Ok(_)) ==> board.pending == Action::Wait
            && (event is Cancelled || event is Closed),
{
}

/// Each step keeps to the order of the cycle: wait, drain, resolve, advance.
/// In particular the keys are read only after the wake-up was drained.
pub proof fn lemma_steps_follow_the_cycle(board: BoardView, event: Event)
    ensures
        board.step(event).phase().may_follow(board.phase()),
        board.step(event).pending == Action::ReadKeys ==> board.pending == Action::ReadKeys || (
        board.pending == Action::Drain && event is Drained),
{
}

/// One wake-up is drained once: the monitor asks for a drain only in answer
/// to a wake-up, and once the edge is drained it asks for none before it
/// has waited again.
pub proof fn lemma_one_drain_per_wake_up(board: BoardView, event: Event)
    ensures
        board.step(event).pending == Action::Drain ==> (board.pending == Action::Wait
            && event is Ready) || (board.pending == Action::Drain && !(event is Drained) && !(
        event is Failed)),
        event is Drained ==> board.step(event).pending != Action::Drain,
{
}

/// Whatever the events, a panel that started consistent stays so, with its
/// keys and its source as they were.
pub proof fn lemma_run_keeps_consistent(board: BoardView, events: Seq<Event>)
    requires
        board.consistent(),
    ensures
        board.run(events).consistent(),
        board.run(events).keys == board.keys,
        board.run(events).source == board.source,
    decreases events.len(),
{
    if events.len() > 0 {
        lemma_run_keeps_consistent(board, events.drop_last());
    }
}

/// A monitor that has stopped stays stopped, with the same outcome and the
/// same lights, whatever it is told.
pub proof fn lemma_stopped_is_final(board: BoardView, events: Seq<Event>)
    requires
        board.pending is Stop,
    ensures
        board.run(events) == board,
    decreases events.len(),
{
    if events.len() > 0 {
        lemma_stopped_is_final(board, events.drop_last());
    }
}

/// One round of the cycle, begun in the wait with an edge that the source's
/// trigger names, pecks the position that the reading resolves to and ends
/// in the wait again; with an edge that the trigger does not name it
/// changes nothing.
pub proof fn lemma_round_pecks_once(board: BoardView, edge: Edge, levels: Vec<u8>)
    requires
        board.pending == Action::Wait,
    ensures
        board.source.trigger.fires_on(edge) ==> board.round(edge, levels) == (BoardView {
            leds: PeckLEDs::advanced(board.leds, resolved(levels@)),
            ..board
        }),
        !board.source.trigger.fires_on(edge) ==> board.round(edge, levels) == board,
{
}

/// Five rounds that read the same levels bring every light back to what it
/// showed before them.
pub proof fn lemma_five_rounds_restore(board: BoardView, edge: Edge, levels: Vec<u8>)
    requires
        board.pending == Action::Wait,
        board.leds.len() == 3,
    ensures
        board.rounds(edge, levels, 5) == board,
{
    reveal_with_fuel(BoardView::rounds, 6);
    reveal_with_fuel(PeckLEDs::advanced_by, 6);
    let position = resolved(levels@);
    let b1 = board.round(edge, levels);
    lemma_round_pecks_once(board, edge, levels);
    let b2 = b1.round(edge, levels);
    lemma_round_pecks_once(b1, edge, levels);
    let b3 = b2.round(edge, levels);
    lemma_round_pecks_once(b2, edge, levels);
    let b4 = b3.round(edge, levels);
    lemma_round_pecks_once(b3, edge, levels);
    lemma_round_pecks_once(b4, edge, levels);
    if board.source.trigger.fires_on(edge) {
        lemma_five_pecks_restore(board.leds, position);
    }
}

} // verus!
