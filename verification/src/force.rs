//! The explicit override.

use vstd::prelude::*;

verus! {

/// Override other settings to force colors on or off.
#[derive(Clone, Copy, Debug, PartialEq, Eq, Structural)]
pub enum Force {
    /// Color is enabled whatever the environment says.
    On,
    /// Color is disabled whatever the environment says.
    Off,
}

impl Force {
    /// Whether this override switches color on.
    pub open spec fn spec_enable_color(&self) -> bool {
        *self == Force::On
    }

    /// The answer this override dictates: `true` for [`Force::On`], `false`
    /// for [`Force::Off`].
    #[verifier::when_used_as_spec(spec_enable_color)]
    pub fn enable_color(&self) -> (enabled: bool)
        ensures
            enabled == self.spec_enable_color(),
    {
        match self {
            Force::On => true,
            Force::Off => false,
        }
    }
}

} // verus!
