//! Shape of the audio spectrum shown by the player.
use vstd::prelude::*;

verus! {

/// Number of frequency bands of a spectrum frame.
pub const BANDS: usize = 32;

} // verus!
