//! The in-game camera.
use vstd::prelude::*;

verus! {

/// Marks the camera that follows the bike.
#[derive(Clone, Copy, Debug, PartialEq, Eq, Default)]
pub struct InGameCamera;

} // verus!
