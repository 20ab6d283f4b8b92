//! The records of the two telemetry packets: the field description that
//! comes once, and the tick that comes every frame.
//!
//! Both packets carry lists of a fixed capacity beside a count of the
//! entries that are live. Only the live entries are ever read.

use crate::field::BoostPad;
use crate::field::BoostPadState;
use crate::field::BoostPadType;
use crate::field::Goal;
use crate::field::GoalState;
use crate::math::Vec3;
use crate::scalar::Scalar;
use vstd::prelude::*;
use vstd::slice::slice_subrange;

verus! {

/// A vector as telemetry spells it, by named components.
#[derive(Clone, Copy, Debug, Default)]
pub struct Vector3 {
    pub x: Scalar,
    pub y: Scalar,
    pub z: Scalar,
}

impl Vector3 {
    /// The vector `(x, y, z)`.
    pub open spec fn spec_vec3(self) -> Vec3 {
        Vec3::xyz(self.x, self.y, self.z)
    }

    #[verifier::when_used_as_spec(spec_vec3)]
    pub fn vec3(self) -> (r: Vec3)
        ensures
            r == self.spec_vec3(),
    {
        Vec3::xyz(self.x, self.y, self.z)
    }
}

impl vstd::std_specs::convert::FromSpecImpl<Vector3> for Vec3 {
    open spec fn obeys_from_spec() -> bool {
        true
    }

    open spec fn from_spec(value: Vector3) -> Vec3 {
        value.spec_vec3()
    }
}

impl From<Vector3> for Vec3 {
    fn from(value: Vector3) -> (r: Vec3) {
        value.vec3()
    }
}

/// The extents of a car's hitbox.
#[derive(Clone, Copy, Debug, Default)]
pub struct Hitbox {
    pub length: Scalar,
    pub width: Scalar,
    pub height: Scalar,
}

impl Hitbox {
    /// The vector `(length, width, height)`.
    pub open spec fn spec_vec3(self) -> Vec3 {
        Vec3::xyz(self.length, self.width, self.height)
    }

    #[verifier::when_used_as_spec(spec_vec3)]
    pub fn vec3(self) -> (r: Vec3)
        ensures
            r == self.spec_vec3(),
    {
        Vec3::xyz(self.length, self.width, self.height)
    }
}

impl vstd::std_specs::convert::FromSpecImpl<Hitbox> for Vec3 {
    open spec fn obeys_from_spec() -> bool {
        true
    }

    open spec fn from_spec(value: Hitbox) -> Vec3 {
        value.spec_vec3()
    }
}

impl From<Hitbox> for Vec3 {
    fn from(value: Hitbox) -> (r: Vec3) {
        value.vec3()
    }
}

/// An orientation as three Euler angles. It becomes a matrix only when it
/// is applied to a car.
#[derive(Clone, Copy, Debug, Default)]
pub struct Rotator {
    pub pitch: Scalar,
    pub yaw: Scalar,
    pub roll: Scalar,
}

impl Rotator {
    /// The vector `(pitch, yaw, roll)`.
    pub open spec fn spec_vec3(self) -> Vec3 {
        Vec3::xyz(self.pitch, self.yaw, self.roll)
    }

    #[verifier::when_used_as_spec(spec_vec3)]
    pub fn vec3(self) -> (r: Vec3)
        ensures
            r == self.spec_vec3(),
    {
        Vec3::xyz(self.pitch, self.yaw, self.roll)
    }
}

impl vstd::std_specs::convert::FromSpecImpl<Rotator> for Vec3 {
    open spec fn obeys_from_spec() -> bool {
        true
    }

    open spec fn from_spec(value: Rotator) -> Vec3 {
        value.spec_vec3()
    }
}

impl From<Rotator> for Vec3 {
    fn from(value: Rotator) -> (r: Vec3) {
        value.vec3()
    }
}

/// One boost pad of a field description.
#[derive(Clone, Copy, Debug, Default)]
pub struct FieldBoostPad {
    pub location: Vector3,
    pub is_full_boost: bool,
}

impl FieldBoostPad {
    /// The pad that the description stands for: available, its timer at
    /// zero, not yet bound to an actor.
    pub open spec fn spec_pad(self) -> BoostPad {
        BoostPad {
            position: self.location.vec3(),
            type_: BoostPadType::from_full(self.is_full_boost),
            state: BoostPadState::Available,
            timer: Scalar::zero(),
            actor_id: 0,
        }
    }

    #[verifier::when_used_as_spec(spec_pad)]
    pub fn pad(self) -> (r: BoostPad)
        ensures
            r == self.spec_pad(),
    {
        BoostPad {
            position: self.location.vec3(),
            type_: BoostPadType::from_full(self.is_full_boost),
            state: BoostPadState::Available,
            timer: Scalar::zero(),
            actor_id: 0,
        }
    }
}

/// One goal of a field description.
#[derive(Clone, Copy, Debug, Default)]
pub struct FieldGoalInfo {
    pub team_num: u8,
    pub location: Vector3,
    pub direction: Vector3,
    pub width: Scalar,
    pub height: Scalar,
}

impl FieldGoalInfo {
    /// The goal that the description stands for: its state unknown, not yet
    /// bound to an actor.
    pub open spec fn spec_goal(self) -> Goal {
        Goal {
            team: self.team_num,
            position: self.location.vec3(),
            direction: self.direction.vec3(),
            width: self.width,
            height: self.height,
            state: GoalState::Unknown,
            actor_id: 0,
        }
    }

    #[verifier::when_used_as_spec(spec_goal)]
    pub fn goal(self) -> (r: Goal)
        ensures
            r == self.spec_goal(),
    {
        Goal {
            team: self.team_num,
            position: self.location.vec3(),
            direction: self.direction.vec3(),
            width: self.width,
            height: self.height,
            state: GoalState::Unknown,
            actor_id: 0,
        }
    }
}

/// The description of the field.
#[derive(Clone, Debug, Default)]
pub struct FieldInfoPacket {
    pub num_boosts: usize,
    pub boost_pads: Vec<FieldBoostPad>,
    pub num_goals: usize,
    pub goals: Vec<FieldGoalInfo>,
}

impl FieldInfoPacket {
    pub fn new(
        num_boosts: usize,
        boost_pads: Vec<FieldBoostPad>,
        num_goals: usize,
        goals: Vec<FieldGoalInfo>,
    ) -> (r: FieldInfoPacket)
        ensures
            r.num_boosts == num_boosts,
            r.boost_pads == boost_pads,
            r.num_goals == num_goals,
            r.goals == goals,
    {
        FieldInfoPacket { num_boosts, boost_pads, num_goals, goals }
    }

    /// Whether each list holds as many entries as its count declares live.
    pub open spec fn spec_counts_fit(&self) -> bool {
        self.num_boosts <= self.boost_pads@.len() && self.num_goals <= self.goals@.len()
    }

    #[verifier::when_used_as_spec(spec_counts_fit)]
    pub fn counts_fit(&self) -> (r: bool)
        ensures
            r == self.spec_counts_fit(),
    {
        self.num_boosts <= self.boost_pads.len() && self.num_goals <= self.goals.len()
    }

    /// The pads of the live descriptions, in order.
    pub open spec fn spec_cpads(&self) -> Seq<BoostPad> {
        Seq::new(self.num_boosts as nat, |i: int| self.boost_pads@[i].spec_pad())
    }

    /// The goals of the live descriptions, in order.
    pub open spec fn spec_cgoals(&self) -> Seq<Goal> {
        Seq::new(self.num_goals as nat, |i: int| self.goals@[i].spec_goal())
    }

    /// The live pad descriptions, each as a pad. Entries past the count are
    /// not read.
    pub fn cpads(&self) -> (r: Vec<BoostPad>)
        requires
            self.num_boosts <= self.boost_pads@.len(),
        ensures
            r@ == self.spec_cpads(),
    {
        let mut out: Vec<BoostPad> = Vec::new();
        let mut i: usize = 0;
        while i < self.num_boosts
            invariant
                i <= self.num_boosts <= self.boost_pads@.len(),
                out@.len() == i,
                forall|j: int| 0 <= j < i ==> out@[j] == self.boost_pads@[j].spec_pad(),
            decreases self.num_boosts - i,
        {
            out.push(self.boost_pads[i].pad());
            i += 1;
        }
        assert(out@ =~= self.spec_cpads());
        out
    }

    /// The live goal descriptions, each as a goal. Entries past the count
    /// are not read.
    pub fn cgoals(&self) -> (r: Vec<Goal>)
        requires
            self.num_goals <= self.goals@.len(),
        ensures
            r@ == self.spec_cgoals(),
    {
        let mut out: Vec<Goal> = Vec::new();
        let mut i: usize = 0;
        while i < self.num_goals
            invariant
                i <= self.num_goals <= self.goals@.len(),
                out@.len() == i,
                forall|j: int| 0 <= j < i ==> out@[j] == self.goals@[j].spec_goal(),
            decreases self.num_goals - i,
        {
            out.push(self.goals[i].goal());
            i += 1;
        }
        assert(out@ =~= self.spec_cgoals());
        out
    }
}

/// Location, motion and orientation of a body.
#[derive(Clone, Copy, Debug, Default)]
pub struct Physics {
    pub location: Vector3,
    pub velocity: Vector3,
    pub angular_velocity: Vector3,
    pub rotation: Rotator,
}

/// The ball of a tick.
#[derive(Clone, Copy, Debug, Default)]
pub struct GameBall {
    pub physics: Physics,
}

/// Clock, gravity and match flags of a tick.
#[derive(Clone, Copy, Debug, Default)]
pub struct GameInfo {
    pub seconds_elapsed: Scalar,
    pub game_time_remaining: Scalar,
    pub world_gravity_z: Scalar,
    pub is_match_ended: bool,
    pub is_round_active: bool,
    pub is_kickoff_pause: bool,
}

/// One car of a tick.
#[derive(Clone, Copy, Debug, Default)]
pub struct GameCar {
    pub physics: Physics,
    pub is_demolished: bool,
    pub has_wheel_contact: bool,
    pub is_super_sonic: bool,
    pub jumped: bool,
    pub double_jumped: bool,
    pub team: i32,
    pub boost: i32,
    pub hitbox: Hitbox,
    pub hitbox_offset: Vector3,
    pub spawn_id: i32,
}

/// The changing part of one boost pad in a tick.
#[derive(Clone, Copy, Debug, Default)]
pub struct GameBoost {
    pub is_active: bool,
    pub timer: Scalar,
}

/// The telemetry of one frame.
#[derive(Clone, Debug, Default)]
pub struct GameTickPacket {
    pub game_info: GameInfo,
    pub game_ball: GameBall,
    pub game_cars: Vec<GameCar>,
    pub num_cars: usize,
    pub game_boosts: Vec<GameBoost>,
    pub num_boost: usize,
}

impl GameTickPacket {
    pub fn new(
        game_info: GameInfo,
        game_ball: GameBall,
        game_cars: Vec<GameCar>,
        num_cars: usize,
        game_boosts: Vec<GameBoost>,
        num_boost: usize,
    ) -> (r: GameTickPacket)
        ensures
            r.game_info == game_info,
            r.game_ball == game_ball,
            r.game_cars == game_cars,
            r.num_cars == num_cars,
            r.game_boosts == game_boosts,
            r.num_boost == num_boost,
    {
        GameTickPacket { game_info, game_ball, game_cars, num_cars, game_boosts, num_boost }
    }

    /// Whether each list holds as many entries as its count declares live.
    pub open spec fn spec_counts_fit(&self) -> bool {
        self.num_cars <= self.game_cars@.len() && self.num_boost <= self.game_boosts@.len()
    }

    #[verifier::when_used_as_spec(spec_counts_fit)]
    pub fn counts_fit(&self) -> (r: bool)
        ensures
            r == self.spec_counts_fit(),
    {
        self.num_cars <= self.game_cars.len() && self.num_boost <= self.game_boosts.len()
    }

    /// The live pad records, in order.
    pub open spec fn spec_boostpads(&self) -> Seq<GameBoost> {
        self.game_boosts@.subrange(0, self.num_boost as int)
    }

    /// The live car records, in order.
    pub open spec fn spec_cars(&self) -> Seq<GameCar> {
        self.game_cars@.subrange(0, self.num_cars as int)
    }

    /// The live pad records, borrowed from the packet.
    pub fn boostpads(&self) -> (r: &[GameBoost])
        requires
            self.num_boost <= self.game_boosts@.len(),
        ensures
            r@ == self.spec_boostpads(),
    {
        slice_subrange(self.game_boosts.as_slice(), 0, self.num_boost)
    }

    /// The live car records, borrowed from the packet.
    pub fn cars(&self) -> (r: &[GameCar])
        requires
            self.num_cars <= self.game_cars@.len(),
        ensures
            r@ == self.spec_cars(),
    {
        slice_subrange(self.game_cars.as_slice(), 0, self.num_cars)
    }
}

} // verus!
