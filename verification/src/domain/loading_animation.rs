use vstd::prelude::*;

verus! {

/// The loading animation shown while a song buffers. Only the pulse
/// animation exists; every configured name maps to it.
#[derive(Clone, Copy, Debug, PartialEq, Eq, Structural)]
pub struct LoadingAnimation;

impl LoadingAnimation {
    pub fn from_str(_s: &str) -> (r: LoadingAnimation)
        ensures
            r == LoadingAnimation,
    {
        LoadingAnimation
    }

    pub fn as_str(&self) -> (s: &'static str)
        ensures
            s@ == "pulse"@,
    {
        "pulse"
    }

    pub fn display_name(&self) -> (s: &'static str)
        ensures
            s@ == "Pulse"@,
    {
        "Pulse"
    }

    pub fn next(&self) -> (r: LoadingAnimation)
        ensures
            r == LoadingAnimation,
    {
        LoadingAnimation
    }
}

} // verus!
