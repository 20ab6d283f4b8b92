//! The controller input of one simulation step.

use crate::scalar::Scalar;
use vstd::prelude::*;

verus! {

/// What a player's controller holds during one step. The five axes are
/// carried as they come; nothing here confines them to a range.
#[derive(Clone, Copy, Debug)]
pub struct Input {
    pub steer: Scalar,
    pub roll: Scalar,
    pub pitch: Scalar,
    pub yaw: Scalar,
    pub throttle: Scalar,
    pub jump: bool,
    pub boost: bool,
    pub handbrake: bool,
    pub use_item: bool,
}

impl Input {
    /// The input at rest: every axis `0.0`, every button released.
    pub open spec fn spec_new() -> Input {
        Input {
            steer: Scalar::zero(),
            roll: Scalar::zero(),
            pitch: Scalar::zero(),
            yaw: Scalar::zero(),
            throttle: Scalar::zero(),
            jump: false,
            boost: false,
            handbrake: false,
            use_item: false,
        }
    }

    #[verifier::when_used_as_spec(spec_new)]
    pub fn new() -> (r: Input)
        ensures
            r == Input::spec_new(),
    {
        Input {
            steer: Scalar::zero(),
            roll: Scalar::zero(),
            pitch: Scalar::zero(),
            yaw: Scalar::zero(),
            throttle: Scalar::zero(),
            jump: false,
            boost: false,
            handbrake: false,
            use_item: false,
        }
    }
}

impl Default for Input {
    fn default() -> (r: Input)
        ensures
            r == Input::spec_new(),
    {
        Input::new()
    }
}

} // verus!
