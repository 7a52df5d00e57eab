//! The terminal-kind policy: which values of `TERM` allow color.

use vstd::prelude::*;

verus! {

/// The platform whose conventions the terminal-kind policy follows.
///
/// The two differ only in how a missing `TERM` is read. The library never
/// guesses the platform: the caller names it with each question.
#[derive(Clone, Copy, Debug, PartialEq, Eq, Structural)]
pub enum Platform {
    /// Unix-like platforms, and every platform that is not Windows: `TERM` is
    /// expected to be set, so a missing `TERM` means no color.
    Unix,
    /// Windows: `TERM` is usually not set, so a missing `TERM` does not rule
    /// color out.
    Windows,
}

/// The terminal kind that cannot show color: the characters of `dumb`.
pub open spec fn dumb_term() -> Seq<char> {
    seq!['d', 'u', 'm', 'b']
}

/// Whether the terminal kind `term` allows color on `platform`.
///
/// A terminal kind that is set allows color unless it is exactly `dumb`.
/// A terminal kind that is not set allows color on Windows only.
pub open spec fn spec_term_allows_color(platform: Platform, term: Option<Seq<char>>) -> bool {
    match term {
        Some(kind) => kind != dumb_term(),
        None => platform == Platform::Windows,
    }
}

/// Decides whether the terminal kind `term`, the value of `TERM` if it is
/// set, allows color on `platform`.
pub fn term_allows_color(platform: Platform, term: Option<&String>) -> (allowed: bool)
    ensures
        allowed == spec_term_allows_color(platform, term.deep_view()),
{
    match term {
        Some(kind) => {
            let dumb = "dumb".to_owned();
            proof {
                reveal_strlit("dumb");
                assert(dumb@ =~= dumb_term());
            }
            *kind != dumb
        },
        None => platform == Platform::Windows,
    }
}

} // verus!
