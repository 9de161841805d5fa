//! The set of logical input actions held during a frame.

use vstd::prelude::*;

verus! {

/// Which logical actions the player holds this frame. The input collaborator
/// translates keys to these before each update.
#[derive(Clone, Copy, Debug, PartialEq, Eq, Structural)]
pub struct Input {
    pub up: bool,
    pub down: bool,
    pub left: bool,
    pub right: bool,
    pub fire: bool,
    pub pause: bool,
    pub restart: bool,
}

} // verus!
