//! The static geometry of the field: boost pads and goals.

use crate::math::Vec3;
use crate::scalar::Scalar;
use vstd::prelude::*;

verus! {

/// Whether a pad gives the small or the full amount of boost.
#[derive(Clone, Copy, Debug, PartialEq, Eq, Structural)]
pub enum BoostPadType {
    Partial,
    Full,
}

impl BoostPadType {
    /// `Full` for a pad flagged as full boost, `Partial` otherwise.
    pub open spec fn spec_from_full(is_full_boost: bool) -> BoostPadType {
        if is_full_boost {
            BoostPadType::Full
        } else {
            BoostPadType::Partial
        }
    }

    #[verifier::when_used_as_spec(spec_from_full)]
    pub fn from_full(is_full_boost: bool) -> (r: BoostPadType)
        ensures
            r == BoostPadType::spec_from_full(is_full_boost),
    {
        if is_full_boost {
            BoostPadType::Full
        } else {
            BoostPadType::Partial
        }
    }
}

/// Whether a pad can be picked up right now.
#[derive(Clone, Copy, Debug, PartialEq, Eq, Structural)]
pub enum BoostPadState {
    Unavailable,
    Available,
}

impl BoostPadState {
    /// `Available` for a pad reported active, `Unavailable` otherwise.
    pub open spec fn spec_from_active(is_active: bool) -> BoostPadState {
        if is_active {
            BoostPadState::Available
        } else {
            BoostPadState::Unavailable
        }
    }

    #[verifier::when_used_as_spec(spec_from_active)]
    pub fn from_active(is_active: bool) -> (r: BoostPadState)
        ensures
            r == BoostPadState::spec_from_active(is_active),
    {
        if is_active {
            BoostPadState::Available
        } else {
            BoostPadState::Unavailable
        }
    }
}

/// A boost pad of the field.
#[derive(Clone, Copy, Debug)]
pub struct BoostPad {
    pub position: Vec3,
    pub type_: BoostPadType,
    pub state: BoostPadState,
    pub timer: Scalar,
    pub actor_id: u16,
}

/// The state of a goal. Geometry alone tells nothing of it, so a goal taken
/// from a field description is `Unknown`.
#[derive(Clone, Copy, Debug, PartialEq, Eq, Structural)]
pub enum GoalState {
    Unknown,
    /// Another state, under the engine's own number.
    Other(u8),
}

/// A goal of the field.
#[derive(Clone, Copy, Debug)]
pub struct Goal {
    pub team: u8,
    pub position: Vec3,
    pub direction: Vec3,
    pub width: Scalar,
    pub height: Scalar,
    pub state: GoalState,
    pub actor_id: u16,
}

/// Stands for the field as a whole. It holds nothing yet.
#[derive(Clone, Copy, Debug, PartialEq, Eq, Structural)]
pub struct Field {}

impl Field {
    pub fn new() -> (r: Field)
        ensures
            r == (Field {  }),
    {
        Field {  }
    }
}

} // verus!
