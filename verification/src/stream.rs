//! Output streams, and the question whether one is a terminal.

use vstd::prelude::*;

verus! {

/// Output streams.
#[derive(Clone, Copy, Debug, PartialEq, Eq, Structural)]
pub enum Stream {
    /// The standard output of the process.
    Stdout,
    /// The standard error of the process.
    Stderr,
}

/// Asks `atty::is` whether `stream` is attached to a terminal.
///
/// The answer depends on how the process was started, so nothing is claimed
/// about it: callers are verified for either answer.
#[verifier::external_body]
pub(crate) fn is_tty(stream: Stream) -> (tty: bool) {
    atty::is(
        match stream {
            Stream::Stdout => atty::Stream::Stdout,
            Stream::Stderr => atty::Stream::Stderr,
        },
    )
}

} // verus!
