//! What can go wrong with the panel's hardware, by the line or chip it
//! went wrong on.

use vstd::prelude::*;

verus! {

/// A GPIO controller of the host.
#[derive(Clone, Copy, Debug, PartialEq, Eq, Structural)]
pub enum ChipNumber {
    Chip1,
    Chip2,
    Chip3,
    Chip4,
}

impl ChipNumber {
    /// The path of the controller's character device.
    pub open spec fn path(self) -> Seq<char> {
        match self {
            ChipNumber::Chip1 => "/dev/gpiochip1"@,
            ChipNumber::Chip2 => "/dev/gpiochip2"@,
            ChipNumber::Chip3 => "/dev/gpiochip3"@,
            ChipNumber::Chip4 => "/dev/gpiochip4"@,
        }
    }

    /// The path of the controller's character device.
    pub fn device_path(&self) -> (path: &'static str)
        ensures
            path@ == self.path(),
    {
        match self {
            ChipNumber::Chip1 => "/dev/gpiochip1",
            ChipNumber::Chip2 => "/dev/gpiochip2",
            ChipNumber::Chip3 => "/dev/gpiochip3",
            ChipNumber::Chip4 => "/dev/gpiochip4",
        }
    }
}

/// A failed hardware operation.
///
/// The first five variants arise while the panel is set up, the others
/// while it is monitored.
#[derive(Clone, Copy, Debug, PartialEq, Eq)]
pub enum Error {
    /// A controller could not be opened.
    ChipError { chip: ChipNumber },
    /// A line could not be got from its controller.
    LineGetError { line: u32 },
    /// A line could not be requested for use.
    LineReqError { line: u32 },
    /// A group of lines could not be got from its controller.
    LinesGetError { lines: [u32; 3] },
    /// A group of lines could not be requested for use.
    LinesReqError { lines: [u32; 3] },
    /// The levels of a group of output lines could not be set.
    LinesSetError { lines: [u32; 3] },
    /// Waiting for an edge on a line failed.
    WaitError { line: u32 },
    /// The pending edge of a line could not be read.
    LineReadError { line: u32 },
    /// The levels of a group of input lines could not be read.
    LinesReadError { lines: [u32; 3] },
}

impl Error {
    /// Whether the error stems from setting the panel up, as opposed to
    /// monitoring it.
    pub open spec fn at_setup(self) -> bool {
        self is ChipError || self is LineGetError || self is LineReqError || self is LinesGetError
            || self is LinesReqError
    }

    /// Whether the error stems from setting the panel up, as opposed to
    /// monitoring it. A setup error keeps the monitor from starting.
    pub fn is_configuration(&self) -> (r: bool)
        ensures
            r == self.at_setup(),
    {
        match self {
            Error::ChipError { .. } => true,
            Error::LineGetError { .. } => true,
            Error::LineReqError { .. } => true,
            Error::LinesGetError { .. } => true,
            Error::LinesReqError { .. } => true,
            Error::LinesSetError { .. } => false,
            Error::WaitError { .. } => false,
            Error::LineReadError { .. } => false,
            Error::LinesReadError { .. } => false,
        }
    }
}

} // verus!
