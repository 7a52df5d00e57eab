//! The command-line flag that switches color off.

use vstd::prelude::*;

use crate::force::Force;

verus! {

/// The flag that switches color off: the characters of `--no-color`.
pub open spec fn no_color_flag() -> Seq<char> {
    seq!['-', '-', 'n', 'o', '-', 'c', 'o', 'l', 'o', 'r']
}

/// The override that the argument list `args` asks for: [`Force::Off`] if one
/// of the arguments is exactly `--no-color`, and none otherwise.
pub open spec fn spec_force_from_args(args: Seq<Seq<char>>) -> Option<Force> {
    if args.contains(no_color_flag()) {
        Some(Force::Off)
    } else {
        None
    }
}

/// Scans the argument list of the process for `--no-color`.
///
/// Only a whole argument counts: `--no-color=always` or `--no-colors` is not
/// the flag. The arguments are compared as they are, the program name among
/// them.
pub fn force_from_args(args: &[String]) -> (force: Option<Force>)
    ensures
        force == spec_force_from_args(args.deep_view()),
{
    let flag = "--no-color".to_owned();
    proof {
        reveal_strlit("--no-color");
        assert(flag@ =~= no_color_flag());
    }
    let mut i: usize = 0;
    while i < args.len()
        invariant
            i <= args.len(),
            flag@ == no_color_flag(),
            forall|j: int| 0 <= j < i ==> args.deep_view()[j] != no_color_flag(),
        decreases args.len() - i,
    {
        if args[i] == flag {
            assert(args.deep_view()[i as int] == no_color_flag());
            return Some(Force::Off);
        }
        i += 1;
    }
    None
}

} // verus!
