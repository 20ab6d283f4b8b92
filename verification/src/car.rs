//! The car: its kinematic state, its gameplay state and its identity.

use crate::input::Input;
use crate::math::Mat3;
use crate::math::Vec3;
use crate::scalar::Scalar;
use vstd::prelude::*;

verus! {

/// The hitbox preset of a car body. The engine numbers its presets; the one
/// that a fresh car has carries a name here.
#[derive(Clone, Copy, Debug, PartialEq, Eq, Structural)]
pub enum CarBody {
    Octane,
    /// Another preset, under the engine's own number.
    Other(u8),
}

/// The discrete physical state of a car, numbered by the engine like the
/// body presets.
#[derive(Clone, Copy, Debug, PartialEq, Eq, Structural)]
pub enum CarState {
    OnGround,
    /// Another state, under the engine's own number.
    Other(u8),
}

/// A car as plain values. Team and id are meaningful only once telemetry has
/// set them.
#[derive(Clone, Copy, Debug)]
pub struct Car {
    pub position: Vec3,
    pub velocity: Vec3,
    pub angular_velocity: Vec3,
    pub orientation: Mat3,
    pub supersonic: bool,
    pub jumped: bool,
    pub double_jumped: bool,
    pub on_ground: bool,
    pub demolished: bool,
    pub boost: i32,
    pub jump_timer: Scalar,
    pub dodge_timer: Scalar,
    pub boost_timer: Scalar,
    pub enable_jump_acceleration: bool,
    pub dodge_torque: Vec3,
    pub frame: i32,
    pub time: Scalar,
    pub body: CarBody,
    pub state: CarState,
    pub hitbox_widths: Vec3,
    pub hitbox_offset: Vec3,
    pub team: i32,
    pub id: i32,
    pub controls: Input,
    pub inertia: Mat3,
    pub inv_inertia: Mat3,
}

impl Car {
    /// The car that construction yields: vectors, orientation and timers
    /// zero, flags false, no boost, an Octane on the ground, controls at
    /// rest, and the identity for the inertia tensor and its inverse.
    pub open spec fn spec_new() -> Car {
        Car {
            position: Vec3::zero(),
            velocity: Vec3::zero(),
            angular_velocity: Vec3::zero(),
            orientation: Mat3::zero(),
            supersonic: false,
            jumped: false,
            double_jumped: false,
            on_ground: false,
            demolished: false,
            boost: 0,
            jump_timer: Scalar::zero(),
            dodge_timer: Scalar::zero(),
            boost_timer: Scalar::zero(),
            enable_jump_acceleration: false,
            dodge_torque: Vec3::zero(),
            frame: 0,
            time: Scalar::zero(),
            body: CarBody::Octane,
            state: CarState::OnGround,
            hitbox_widths: Vec3::zero(),
            hitbox_offset: Vec3::zero(),
            team: 0,
            id: 0,
            controls: Input::new(),
            inertia: Mat3::identity(),
            inv_inertia: Mat3::identity(),
        }
    }

    #[verifier::when_used_as_spec(spec_new)]
    pub fn new() -> (r: Car)
        ensures
            r == Car::spec_new(),
    {
        Car {
            position: Vec3::zero(),
            velocity: Vec3::zero(),
            angular_velocity: Vec3::zero(),
            orientation: Mat3::zero(),
            supersonic: false,
            jumped: false,
            double_jumped: false,
            on_ground: false,
            demolished: false,
            boost: 0,
            jump_timer: Scalar::zero(),
            dodge_timer: Scalar::zero(),
            boost_timer: Scalar::zero(),
            enable_jump_acceleration: false,
            dodge_torque: Vec3::zero(),
            frame: 0,
            time: Scalar::zero(),
            body: CarBody::Octane,
            state: CarState::OnGround,
            hitbox_widths: Vec3::zero(),
            hitbox_offset: Vec3::zero(),
            team: 0,
            id: 0,
            controls: Input::new(),
            inertia: Mat3::identity(),
            inv_inertia: Mat3::identity(),
        }
    }

    /// Advances the car by `dt` under `input`. The physics is the engine's:
    /// `advance` gets the car as it is, the input and the time step, and
    /// what it hands back becomes the car.
    pub fn step<F>(&mut self, input: Input, dt: Scalar, advance: F) where
        F: FnOnce(Car, Input, Scalar) -> Car,

        requires
            advance.requires((*old(self), input, dt)),
        ensures
            advance.ensures((*old(self), input, dt), *final(self)),
    {
        let next = advance(*self, input, dt);
        *self = next;
    }

    pub fn get_position(&self) -> (r: Vec3)
        ensures
            r == self.position,
    {
        self.position
    }

    pub fn set_position(&mut self, position: Vec3)
        ensures
            *final(self) == (Car { position, ..*old(self) }),
    {
        self.position = position;
    }
}

impl Default for Car {
    fn default() -> (r: Car)
        ensures
            r == Car::spec_new(),
    {
        Car::new()
    }
}

} // verus!
