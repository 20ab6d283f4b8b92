//! The drive assist: steering a car towards a point on the ground.

use crate::car::Car;
use crate::input::Input;
use crate::math::Vec3;
use crate::scalar::Scalar;
use vstd::prelude::*;

verus! {

/// What one step of the assist yields: the speed it now aims at, the
/// controls it asks for, and whether it is done.
#[derive(Clone, Copy, Debug)]
pub struct DriveOutcome {
    pub speed: Scalar,
    pub controls: Input,
    pub finished: bool,
}

/// The drive assist as a mathematical value.
pub struct DriveView {
    pub car: Car,
    pub speed: Scalar,
    pub target: Vec3,
    pub controls: Input,
    pub finished: bool,
}

/// The drive assist of one car. The controls and the finished flag are the
/// assist's own to write: they can be read and are changed by a step alone.
#[derive(Clone, Copy, Debug)]
pub struct Drive {
    car: Car,
    speed: Scalar,
    target: Vec3,
    controls: Input,
    finished: bool,
}

impl View for Drive {
    type V = DriveView;

    closed spec fn view(&self) -> DriveView {
        DriveView {
            car: self.car,
            speed: self.speed,
            target: self.target,
            controls: self.controls,
            finished: self.finished,
        }
    }
}

impl Drive {
    /// An assist for `car` that has not run yet: speed zero, the target at
    /// the origin, controls at rest, not finished.
    pub fn new(car: Car) -> (r: Drive)
        ensures
            r@ == (DriveView {
                car: car,
                speed: Scalar::zero(),
                target: Vec3::zero(),
                controls: Input::new(),
                finished: false,
            }),
    {
        Drive {
            car,
            speed: Scalar::zero(),
            target: Vec3::zero(),
            controls: Input::new(),
            finished: false,
        }
    }

    /// Runs the assist for `dt`. The algorithm is the engine's: `assist`
    /// gets the car, the speed, the target and the time step, and what it
    /// hands back becomes the assist's speed, controls and finished flag.
    /// The car is read and never written; the target stays.
    pub fn step<F>(&mut self, dt: Scalar, assist: F) where
        F: FnOnce(Car, Scalar, Vec3, Scalar) -> DriveOutcome,

        requires
            assist.requires((old(self)@.car, old(self)@.speed, old(self)@.target, dt)),
        ensures
            final(self)@.car == old(self)@.car,
            final(self)@.target == old(self)@.target,
            assist.ensures(
                (old(self)@.car, old(self)@.speed, old(self)@.target, dt),
                (DriveOutcome {
                    speed: final(self)@.speed,
                    controls: final(self)@.controls,
                    finished: final(self)@.finished,
                }),
            ),
    {
        let outcome = assist(self.car, self.speed, self.target, dt);
        self.speed = outcome.speed;
        self.controls = outcome.controls;
        self.finished = outcome.finished;
    }

    pub fn get_car(&self) -> (r: Car)
        ensures
            r == self@.car,
    {
        self.car
    }

    pub fn set_car(&mut self, car: Car)
        ensures
            final(self)@ == (DriveView { car: car, ..old(self)@ }),
    {
        self.car = car;
    }

    pub fn get_speed(&self) -> (r: Scalar)
        ensures
            r == self@.speed,
    {
        self.speed
    }

    pub fn set_speed(&mut self, speed: Scalar)
        ensures
            final(self)@ == (DriveView { speed: speed, ..old(self)@ }),
    {
        self.speed = speed;
    }

    pub fn get_target(&self) -> (r: Vec3)
        ensures
            r == self@.target,
    {
        self.target
    }

    pub fn set_target(&mut self, target: Vec3)
        ensures
            final(self)@ == (DriveView { target: target, ..old(self)@ }),
    {
        self.target = target;
    }

    pub fn get_controls(&self) -> (r: Input)
        ensures
            r == self@.controls,
    {
        self.controls
    }

    pub fn get_finished(&self) -> (r: bool)
        ensures
            r == self@.finished,
    {
        self.finished
    }
}

} // verus!
