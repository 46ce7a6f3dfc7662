//! Classification and rendering of structured log lines, with a bounded
//! history of raw lines that can be rendered again on request.

pub mod buffer;
pub mod command;
pub mod fields;
pub mod json;
pub mod logs;
pub mod state;
pub mod text;
pub mod time;

pub use crate::buffer::{CircularBuffer, LOG_REPLAY_CAPACITY};
pub use crate::command::{decode, Command};
pub use crate::logs::{try_parse_known_log, Color, FormattedLog, ParsableLog, ParsedLog};
pub use crate::state::{handle_line, replay, CliState, FormatType, Rendered};
pub use crate::time::LogTime;
