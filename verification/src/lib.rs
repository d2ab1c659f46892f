//! Decision logic of a three-position peckboard: key resolution, the
//! per-position light cycle, and the monitor's step function.

pub mod board;
pub mod error;
pub mod keys;
pub mod led;
pub mod request;
pub mod source;

pub use board::{Action, BoardView, Event, PeckBoard, Phase};
pub use error::{ChipNumber, Error};
pub use keys::{KeyPosition, PeckKeys};
pub use led::{LedState, LedWrite, PeckLEDs};
pub use request::{LineRequest, LinesRequest, Stage};
pub use source::{DigitalLine, Direction, Edge, EventSource, Trigger};
