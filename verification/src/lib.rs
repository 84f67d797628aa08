//! Change file timestamps the way `touch` does, as a verified decision core.
//!
//! The crate decides *what* has to happen to each file operand and in which
//! order; the caller performs the file-system work and reports back what came
//! of it.

pub mod args;
pub mod consistency;
pub mod date;
pub mod error;
pub mod laws;
pub mod model;
pub mod run;
pub mod timestamp;

pub use crate::args::{Args, ArgsView, DateOperand, DateView};
pub use crate::date::{has_oversized_offset, resolve_timestamp, timestamp_of_parse};
pub use crate::error::{Outcome, TouchError};
pub use crate::run::{run, Action, Event, Phase, Run, RunState};
pub use crate::timestamp::{TimeUpdate, Timestamp};
