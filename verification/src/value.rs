//! Host values as the flexible constructors see them.
//!
//! The host language passes arguments of any kind, by position and by name.
//! A constructor reads from each argument only what it can use and passes
//! over the rest, so an argument is held here by what it can be read as.

use crate::ball::Ball;
use crate::math::Mat3;
use crate::math::Vec3;
use crate::scalar::Scalar;
use vstd::prelude::*;

verus! {

/// One argument of a constructor call.
#[derive(Debug)]
pub enum Value {
    /// A number.
    Number(Scalar),
    /// A host sequence all of whose items are numbers.
    Numbers(Vec<Scalar>),
    /// A vector.
    Vector(Vec3),
    /// A matrix.
    Matrix(Mat3),
    /// A ball.
    Ball(Ball),
    /// Anything else. No constructor reads it.
    Other,
}

impl Value {
    /// The number that the value is, if it is one.
    pub open spec fn spec_number(&self) -> Option<Scalar> {
        match *self {
            Value::Number(s) => Some(s),
            _ => None,
        }
    }

    #[verifier::when_used_as_spec(spec_number)]
    pub fn number(&self) -> (r: Option<Scalar>)
        ensures
            r == self.spec_number(),
    {
        match self {
            Value::Number(s) => Some(*s),
            _ => None,
        }
    }

    /// The vector that the value can be read as: a vector itself, or a host
    /// sequence of exactly three numbers, taken as x, y and z. A sequence of
    /// any other length is no vector.
    pub open spec fn spec_vector(&self) -> Option<Vec3> {
        match *self {
            Value::Vector(v) => Some(v),
            Value::Numbers(list) => if list@.len() == 3 {
                Some(Vec3::xyz(list@[0], list@[1], list@[2]))
            } else {
                None
            },
            _ => None,
        }
    }

    #[verifier::when_used_as_spec(spec_vector)]
    pub fn vector(&self) -> (r: Option<Vec3>)
        ensures
            r == self.spec_vector(),
    {
        match self {
            Value::Vector(v) => Some(*v),
            Value::Numbers(list) => if list.len() == 3 {
                Some(Vec3::xyz(list[0], list[1], list[2]))
            } else {
                None
            },
            _ => None,
        }
    }
}

/// The number that a named argument supplies: none where the name was not
/// given, and none where it was given with something that is no number.
pub open spec fn spec_named_number(value: &Option<Value>) -> Option<Scalar> {
    match *value {
        Some(v) => v.spec_number(),
        None => None,
    }
}

#[verifier::when_used_as_spec(spec_named_number)]
pub fn named_number(value: &Option<Value>) -> (r: Option<Scalar>)
    ensures
        r == spec_named_number(value),
{
    match value {
        Some(v) => v.number(),
        None => None,
    }
}

/// The vector that a named argument supplies: none where the name was not
/// given, and none where it was given with something that cannot be read as
/// a vector.
pub open spec fn spec_named_vector(value: &Option<Value>) -> Option<Vec3> {
    match *value {
        Some(v) => v.spec_vector(),
        None => None,
    }
}

#[verifier::when_used_as_spec(spec_named_vector)]
pub fn named_vector(value: &Option<Value>) -> (r: Option<Vec3>)
    ensures
        r == spec_named_vector(value),
{
    match value {
        Some(v) => v.vector(),
        None => None,
    }
}

/// The arguments that a vector's constructor takes by name.
#[derive(Debug)]
pub struct VectorKeywords {
    pub x: Option<Value>,
    pub y: Option<Value>,
    pub z: Option<Value>,
}

/// The arguments that a ball's constructor takes by name.
#[derive(Debug)]
pub struct BallKeywords {
    pub time: Option<Value>,
    pub position: Option<Value>,
    pub velocity: Option<Value>,
    pub angular_velocity: Option<Value>,
}

} // verus!
