//! Decides whether a command-line program should color its output.
//!
//! The decision follows the `NO_COLOR` convention: color is on by default and
//! is switched off when the output stream is not a terminal, when the terminal
//! kind cannot show color, or when `NO_COLOR` is set. An explicit [`Force`]
//! overrides all of these.
//!
//! See [`ColorNope`] for the entry points.

pub mod args;
pub mod decision;
pub mod force;
pub mod laws;
pub mod stream;
pub mod term;

pub use crate::args::force_from_args;
pub use crate::decision::{ColorNope, Signals};
pub use crate::force::Force;
pub use crate::stream::Stream;
pub use crate::term::{term_allows_color, Platform};
