use vstd::prelude::*;

verus! {

/// What the audio backend is doing.
#[derive(Clone, Copy, Debug, PartialEq, Eq, Structural)]
pub enum PlayerState {
    Idle,
    Loading,
    Playing,
    Paused,
    Stopped,
}

} // verus!
