//! The color decision: the signals it is made from, and the rule.

use vstd::prelude::*;

use crate::args::{force_from_args, spec_force_from_args};
use crate::force::Force;
use crate::stream::{is_tty, Stream};
use crate::term::{spec_term_allows_color, term_allows_color, Platform};

verus! {

/// What a [`ColorNope`] holds, as mathematical values.
pub struct Signals {
    /// The value of `TERM`, if it is set.
    pub term: Option<Seq<char>>,
    /// The value of `NO_COLOR`, if it is set. Only its presence counts.
    pub no_color: Option<Seq<char>>,
    /// The explicit override, if there is one.
    pub force: Option<Force>,
}

/// The rule: whether output is colored, given the signals, the platform and
/// whether the target stream is a terminal.
///
/// An override decides alone. Without one, color is enabled exactly when the
/// stream is a terminal, the terminal kind allows color and `NO_COLOR` is not
/// set, whatever its value.
pub open spec fn color_enabled(signals: Signals, platform: Platform, tty: bool) -> bool {
    match signals.force {
        Some(force) => force.spec_enable_color(),
        None => {
            &&& tty
            &&& spec_term_allows_color(platform, signals.term)
            &&& signals.no_color is None
        },
    }
}

/// Decides whether color should be enabled, based on the environment and the
/// target stream.
///
/// Assumes color is enabled by default, unless indicated otherwise.
#[derive(Debug)]
pub struct ColorNope {
    term_env: Option<String>,
    no_color_env: Option<String>,
    force_color: Option<Force>,
}

impl View for ColorNope {
    type V = Signals;

    closed spec fn view(&self) -> Signals {
        Signals {
            term: self.term_env.deep_view(),
            no_color: self.no_color_env.deep_view(),
            force: self.force_color,
        }
    }
}

impl Clone for ColorNope {
    /// A copy that holds the same signals, and so gives the same answers.
    fn clone(&self) -> (copy: ColorNope)
        ensures
            copy@ == self@,
    {
        ColorNope {
            term_env: self.term_env.clone(),
            no_color_env: self.no_color_env.clone(),
            force_color: self.force_color,
        }
    }
}

impl ColorNope {
    /// Create a new instance without touching the environment.
    ///
    /// [`ColorNope`] considers the `TERM` and `NO_COLOR` environmental
    /// variables (`term_env` and `no_color_env` respectively). Any value is
    /// accepted and kept as it is; an empty string is a value that is set.
    ///
    /// These values can be overridden by using `force_color`.
    pub fn new(
        term_env: Option<String>,
        no_color_env: Option<String>,
        force_color: Option<Force>,
    ) -> (decision: ColorNope)
        ensures
            decision@ == (Signals {
                term: term_env.deep_view(),
                no_color: no_color_env.deep_view(),
                force: force_color,
            }),
    {
        ColorNope { term_env, no_color_env, force_color }
    }

    /// Builds the decision from a snapshot of the process environment: the
    /// values of `TERM` and `NO_COLOR`, and the argument list.
    ///
    /// The override is [`Force::Off`] if `--no-color` is among the arguments,
    /// and absent otherwise. The snapshot is taken by the caller, once; the
    /// decision never looks at the environment again.
    pub fn from_env(
        term_env: Option<String>,
        no_color_env: Option<String>,
        args: &[String],
    ) -> (decision: ColorNope)
        ensures
            decision@ == (Signals {
                term: term_env.deep_view(),
                no_color: no_color_env.deep_view(),
                force: spec_force_from_args(args.deep_view()),
            }),
    {
        let force_color = force_from_args(args);
        ColorNope { term_env, no_color_env, force_color }
    }

    /// Should color be enabled for a stream of which it is known whether it is
    /// a terminal?
    ///
    /// This is the whole rule, free of any look at the process: `tty` says
    /// whether the target stream is attached to a terminal.
    pub fn enable_color_when(&self, platform: Platform, tty: bool) -> (enabled: bool)
        ensures
            enabled == color_enabled(self@, platform, tty),
    {
        match self.force_color {
            Some(force) => force.enable_color(),
            None => tty && term_allows_color(platform, self.term_env.as_ref())
                && self.no_color_env.is_none(),
        }
    }

    /// Should color be enabled for the target stream?
    ///
    /// With an override the answer is the override's, and the stream is not
    /// looked at. Without one, the stream is asked whether it is a terminal,
    /// and the answer is that of [`ColorNope::enable_color_when`].
    ///
    /// Whether the stream is a terminal is known only when the program runs.
    /// The contract therefore bounds the answer from both sides: color is
    /// enabled only if it would be for a terminal, and disabled only if it
    /// would be for a stream that is none. Where the two agree, the answer is
    /// fixed.
    pub fn enable_color_for(&self, platform: Platform, stream: Stream) -> (enabled: bool)
        ensures
            enabled ==> color_enabled(self@, platform, true),
            !enabled ==> !color_enabled(self@, platform, false),
            self@.force == Some(Force::On) ==> enabled,
            self@.force == Some(Force::Off) ==> !enabled,
            self@.force is None && !(spec_term_allows_color(platform, self@.term)
                && self@.no_color is None) ==> !enabled,
    {
        match self.force_color {
            Some(force) => force.enable_color(),
            None => {
                let tty = is_tty(stream);
                self.enable_color_when(platform, tty)
            },
        }
    }
}

} // verus!
