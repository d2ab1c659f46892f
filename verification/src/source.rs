//! The interrupt line as a source of edge events.

use vstd::prelude::*;
use crate::error::{ChipNumber, Error};

verus! {

/// A transition of a line's level.
#[derive(Clone, Copy, Debug, PartialEq, Eq, Structural)]
pub enum Edge {
    Rising,
    Falling,
}

/// The transitions an event source reports.
#[derive(Clone, Copy, Debug, PartialEq, Eq, Structural)]
pub enum Trigger {
    Rising,
    Falling,
    Both,
}

impl Trigger {
    /// Whether a source with this trigger reports `edge`.
    pub open spec fn fires_on(self, edge: Edge) -> bool {
        match self {
            Trigger::Both => true,
            Trigger::Rising => edge == Edge::Rising,
            Trigger::Falling => edge == Edge::Falling,
        }
    }

    /// Whether a source with this trigger reports `edge`.
    pub fn accepts(&self, edge: Edge) -> (r: bool)
        ensures
            r == self.fires_on(edge),
    {
        match (self, edge) {
            (Trigger::Both, _) => true,
            (Trigger::Rising, Edge::Rising) => true,
            (Trigger::Falling, Edge::Falling) => true,
            _ => false,
        }
    }
}

/// Which way a line is used.
#[derive(Clone, Copy, Debug, PartialEq, Eq, Structural)]
pub enum Direction {
    Input,
    Output,
}

/// One digital line of a controller.
#[derive(Clone, Copy, Debug, PartialEq, Eq, Structural)]
pub struct DigitalLine {
    /// Offset of the line on its controller.
    pub identifier: u32,
    pub direction: Direction,
    /// The level at which the line counts as active.
    pub active_level: u8,
}

/// An input line that reports edges.
#[derive(Clone, Copy, Debug, PartialEq, Eq, Structural)]
pub struct EventSource {
    pub line: DigitalLine,
    pub trigger: Trigger,
}

impl EventSource {
    /// The controller that carries the panel's interrupt line.
    pub const INTERRUPT_CHIP: ChipNumber = ChipNumber::Chip2;

    /// Offset of the panel's interrupt line.
    pub const INTERRUPT_LINE: u32 = 24;

    /// Makes `line` an event source that reports the edges `trigger` names.
    ///
    /// Only an input line can report edges: an output line is refused as
    /// one that cannot be requested.
    pub fn new(line: DigitalLine, trigger: Trigger) -> (source: Result<EventSource, Error>)
        ensures
            line.direction == Direction::Input ==> source == Ok::<EventSource, Error>(
                EventSource { line, trigger },
            ),
            line.direction == Direction::Output ==> source == Err::<EventSource, Error>(
                Error::LineReqError { line: line.identifier },
            ),
    {
        match line.direction {
            Direction::Input => Ok(EventSource { line, trigger }),
            Direction::Output => Err(Error::LineReqError { line: line.identifier }),
        }
    }
}

} // verus!
