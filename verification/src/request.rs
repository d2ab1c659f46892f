//! What setting the panel up asks of its controllers, and the error that
//! stands for each request that fails.

use vstd::prelude::*;
use crate::board::PeckBoard;
use crate::error::{ChipNumber, Error};
use crate::keys::{KeyPosition, PeckKeys, ACTIVE};
use crate::led::{LedState, PeckLEDs};
use crate::source::{DigitalLine, Direction, EventSource};

verus! {

/// The step at which lines are taken into use.
#[derive(Clone, Copy, Debug, PartialEq, Eq, Structural)]
pub enum Stage {
    /// Getting the lines from their controller.
    Get,
    /// Requesting the lines for use.
    Request,
}

/// A request for one line of a controller.
#[derive(Clone, Copy, Debug, PartialEq, Eq, Structural)]
pub struct LineRequest {
    pub chip: ChipNumber,
    pub line: DigitalLine,
    /// The level an output line is driven to at first; 0 for an input line.
    pub initial: u8,
}

/// A request for a group of three lines of a controller.
#[derive(Clone, Copy, Debug, PartialEq, Eq)]
pub struct LinesRequest {
    pub chip: ChipNumber,
    pub lines: [u32; 3],
    pub direction: Direction,
    /// The levels output lines are driven to at first; 0 for input lines.
    pub initial: [u8; 3],
}

impl ChipNumber {
    /// The error that stands for this controller not opening.
    pub fn failure(&self) -> (error: Error)
        ensures
            error == (Error::ChipError { chip: *self }),
    {
        Error::ChipError { chip: *self }
    }
}

impl LineRequest {
    /// The error that stands for this request failing at `stage`.
    pub fn failure(&self, stage: Stage) -> (error: Error)
        ensures
            error == match stage {
                Stage::Get => Error::LineGetError { line: self.line.identifier },
                Stage::Request => Error::LineReqError { line: self.line.identifier },
            },
    {
        match stage {
            Stage::Get => Error::LineGetError { line: self.line.identifier },
            Stage::Request => Error::LineReqError { line: self.line.identifier },
        }
    }
}

impl LinesRequest {
    /// The error that stands for this request failing at `stage`.
    pub fn failure(&self, stage: Stage) -> (error: Error)
        ensures
            error == match stage {
                Stage::Get => Error::LinesGetError { lines: self.lines },
                Stage::Request => Error::LinesReqError { lines: self.lines },
            },
    {
        match stage {
            Stage::Get => Error::LinesGetError { lines: self.lines },
            Stage::Request => Error::LinesReqError { lines: self.lines },
        }
    }
}

impl PeckLEDs {
    /// The request for the light at `position`: its lines as outputs on the
    /// panel's controller, showing `Off`. None for `NoKey`.
    pub open spec fn light_request(position: KeyPosition) -> Option<LinesRequest> {
        match PeckLEDs::group(position) {
            Some(lines) => Some(
                LinesRequest {
                    chip: PeckBoard::PANEL_CHIP,
                    lines,
                    direction: Direction::Output,
                    initial: LedState::Off.levels(),
                },
            ),
            None => None,
        }
    }

    /// The request for the light at `position`: its lines as outputs on the
    /// panel's controller, showing `Off`. None for `NoKey`.
    pub fn light(position: KeyPosition) -> (request: Option<LinesRequest>)
        ensures
            request == PeckLEDs::light_request(position),
    {
        match PeckLEDs::lines(position) {
            Some(lines) => Some(
                LinesRequest {
                    chip: PeckBoard::PANEL_CHIP,
                    lines,
                    direction: Direction::Output,
                    initial: LedState::Off.as_value(),
                },
            ),
            None => None,
        }
    }
}

impl PeckKeys {
    /// The request for the key lines: inputs on the panel's controller.
    pub fn sensors(&self) -> (request: LinesRequest)
        ensures
            request == (LinesRequest {
                chip: PeckBoard::PANEL_CHIP,
                lines: self.lines,
                direction: Direction::Input,
                initial: [0u8, 0u8, 0u8],
            }),
    {
        LinesRequest {
            chip: PeckBoard::PANEL_CHIP,
            lines: self.lines,
            direction: Direction::Input,
            initial: [0, 0, 0],
        }
    }

    /// The request for the emitter of the key at `position`: its line as an
    /// output on the panel's controller, switched on. None for `NoKey`.
    pub fn emitter(&self, position: KeyPosition) -> (request: Option<LineRequest>)
        ensures
            request == match position.ordinal() {
                Some(i) => Some(
                    LineRequest {
                        chip: PeckBoard::PANEL_CHIP,
                        line: DigitalLine {
                            identifier: self.ir@[i],
                            direction: Direction::Output,
                            active_level: ACTIVE,
                        },
                        initial: ACTIVE,
                    },
                ),
                None => None,
            },
    {
        match position.index() {
            Some(i) => Some(
                LineRequest {
                    chip: PeckBoard::PANEL_CHIP,
                    line: DigitalLine {
                        identifier: self.ir[i],
                        direction: Direction::Output,
                        active_level: ACTIVE,
                    },
                    initial: ACTIVE,
                },
            ),
            None => None,
        }
    }
}

impl EventSource {
    /// The request for the panel's interrupt line: an input on its own
    /// controller.
    pub fn interrupt() -> (request: LineRequest)
        ensures
            request == (LineRequest {
                chip: EventSource::INTERRUPT_CHIP,
                line: DigitalLine {
                    identifier: EventSource::INTERRUPT_LINE,
                    direction: Direction::Input,
                    active_level: ACTIVE,
                },
                initial: 0,
            }),
    {
        LineRequest {
            chip: EventSource::INTERRUPT_CHIP,
            line: DigitalLine {
                identifier: EventSource::INTERRUPT_LINE,
                direction: Direction::Input,
                active_level: ACTIVE,
            },
            initial: 0,
        }
    }
}

} // verus!
