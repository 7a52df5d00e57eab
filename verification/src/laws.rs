//! What holds of the color decision for every input.

use vstd::prelude::*;

use crate::decision::{color_enabled, ColorNope, Signals};
use crate::force::Force;
use crate::stream::Stream;
use crate::term::{dumb_term, spec_term_allows_color, Platform};

verus! {

/// With the override [`Force::On`] color is enabled, whatever the terminal
/// kind, `NO_COLOR`, the platform and the stream are.
pub proof fn lemma_force_on_enables(signals: Signals, platform: Platform, tty: bool)
    requires
        signals.force == Some(Force::On),
    ensures
        color_enabled(signals, platform, tty),
{
}

/// With the override [`Force::Off`] color is disabled, whatever the terminal
/// kind, `NO_COLOR`, the platform and the stream are.
pub proof fn lemma_force_off_disables(signals: Signals, platform: Platform, tty: bool)
    requires
        signals.force == Some(Force::Off),
    ensures
        !color_enabled(signals, platform, tty),
{
}

/// With an override, nothing else is consulted: two sets of signals with the
/// same override get the same answer on any platform and any stream.
pub proof fn lemma_override_decides_alone(
    a: Signals,
    b: Signals,
    platform_a: Platform,
    platform_b: Platform,
    tty_a: bool,
    tty_b: bool,
)
    requires
        a.force is Some,
        a.force == b.force,
    ensures
        color_enabled(a, platform_a, tty_a) == color_enabled(b, platform_b, tty_b),
{
}

/// Without an override color is enabled if and only if the stream is a
/// terminal, the terminal kind allows color and `NO_COLOR` is not set.
pub proof fn lemma_without_override(signals: Signals, platform: Platform, tty: bool)
    requires
        signals.force is None,
    ensures
        color_enabled(signals, platform, tty) <==> (tty && spec_term_allows_color(
            platform,
            signals.term,
        ) && signals.no_color is None),
{
}

/// `NO_COLOR` disables color by being set: with any value, the empty one
/// included, and without an override, color is disabled.
pub proof fn lemma_no_color_set_disables(signals: Signals, platform: Platform, tty: bool)
    requires
        signals.force is None,
        signals.no_color is Some,
    ensures
        !color_enabled(signals, platform, tty),
{
}

/// The value of `NO_COLOR` is never inspected: replacing it by any other
/// value leaves the answer as it was.
pub proof fn lemma_no_color_value_is_ignored(
    signals: Signals,
    value: Seq<char>,
    platform: Platform,
    tty: bool,
)
    requires
        signals.no_color is Some,
    ensures
        color_enabled(Signals { no_color: Some(value), ..signals }, platform, tty)
            == color_enabled(signals, platform, tty),
{
}

/// A terminal kind that is not set rules color out on Unix and allows it on
/// Windows.
pub proof fn lemma_missing_term(platform: Platform)
    ensures
        spec_term_allows_color(platform, None) <==> platform == Platform::Windows,
        !spec_term_allows_color(Platform::Unix, None),
        spec_term_allows_color(Platform::Windows, None),
{
}

/// With no terminal kind, no `NO_COLOR` and no override, a terminal gets
/// color on Windows and none on Unix.
pub proof fn lemma_missing_term_decision(signals: Signals, platform: Platform)
    requires
        signals.term is None,
        signals.no_color is None,
        signals.force is None,
    ensures
        color_enabled(signals, platform, true) <==> platform == Platform::Windows,
{
}

/// The terminal kind `dumb` allows no color on either platform, and every
/// other terminal kind that is set allows it on both.
pub proof fn lemma_set_term(platform: Platform, kind: Seq<char>)
    ensures
        !spec_term_allows_color(platform, Some(dumb_term())),
        spec_term_allows_color(platform, Some(kind)) <==> kind != dumb_term(),
{
}

/// On a `dumb` terminal color is disabled unless [`Force::On`] asks for it,
/// even where the stream is a terminal and `NO_COLOR` is not set.
pub proof fn lemma_dumb_term_decision(signals: Signals, platform: Platform, tty: bool)
    requires
        signals.term == Some(dumb_term()),
        signals.force != Some(Force::On),
    ensures
        !color_enabled(signals, platform, tty),
{
}

/// Asking again gives the same answer: any two results of
/// [`ColorNope::enable_color_when`] for the same decision, platform and
/// terminal state are equal.
pub proof fn lemma_enable_color_when_repeats(
    decision: &ColorNope,
    platform: Platform,
    tty: bool,
    first: bool,
    second: bool,
)
    requires
        call_ensures(ColorNope::enable_color_when, (decision, platform, tty), first),
        call_ensures(ColorNope::enable_color_when, (decision, platform, tty), second),
    ensures
        first == second,
{
}

/// Asking again gives the same answer wherever the terminal state cannot
/// matter: with an override, with `NO_COLOR` set, or with a terminal kind that
/// allows no color, any two results of [`ColorNope::enable_color_for`] for
/// the same decision and platform are equal, whichever streams were asked.
pub proof fn lemma_enable_color_for_repeats(
    decision: &ColorNope,
    platform: Platform,
    stream_a: Stream,
    stream_b: Stream,
    first: bool,
    second: bool,
)
    requires
        decision@.force is Some || decision@.no_color is Some || !spec_term_allows_color(
            platform,
            decision@.term,
        ),
        call_ensures(ColorNope::enable_color_for, (decision, platform, stream_a), first),
        call_ensures(ColorNope::enable_color_for, (decision, platform, stream_b), second),
    ensures
        first == second,
{
}

} // verus!
