//! The ball.

use crate::math::Vec3;
use crate::scalar::Scalar;
use crate::value::named_number;
use crate::value::named_vector;
use crate::value::BallKeywords;
use crate::value::Value;
use vstd::string::StringExecFns;
use vstd::prelude::*;

verus! {

/// The state of the ball at one moment of the match clock.
#[derive(Clone, Copy, Debug)]
pub struct Ball {
    pub time: Scalar,
    pub position: Vec3,
    pub velocity: Vec3,
    pub angular_velocity: Vec3,
}

impl Ball {
    /// The height at which the ball rests on the ground: the number `110.0`.
    pub open spec fn spec_rest_height() -> Scalar {
        Scalar { bits: 0x42dc_0000 }
    }

    #[verifier::when_used_as_spec(spec_rest_height)]
    pub fn rest_height() -> (r: Scalar)
        ensures
            r == Ball::spec_rest_height(),
    {
        Scalar::from_bits(0x42dc_0000)
    }

    /// The ball at rest in the middle of the field at time zero.
    pub open spec fn spec_default() -> Ball {
        Ball {
            time: Scalar::zero(),
            position: Vec3::xyz(Scalar::zero(), Scalar::zero(), Ball::rest_height()),
            velocity: Vec3::zero(),
            angular_velocity: Vec3::zero(),
        }
    }

    /// The time that a constructor call supplies: the named one, else a
    /// number in the first place.
    pub open spec fn supplied_time(args: Seq<Value>, kwargs: &Option<BallKeywords>) -> Option<
        Scalar,
    > {
        let named = match *kwargs {
            Some(k) => named_number(&k.time),
            None => None,
        };
        if named is Some {
            named
        } else if args.len() > 0 {
            args[0].number()
        } else {
            None
        }
    }

    /// The vector that a constructor call supplies for the field `index`
    /// (0 position, 1 velocity, 2 angular velocity): the named one, else
    /// what stands in the place after the field's own, the first place
    /// being that of the time. Either is read as [`Value::vector`] says: a
    /// vector, or a host sequence of exactly three numbers.
    pub open spec fn supplied_vector(
        args: Seq<Value>,
        kwargs: &Option<BallKeywords>,
        index: int,
    ) -> Option<Vec3> {
        let named = match *kwargs {
            Some(k) => if index == 0 {
                named_vector(&k.position)
            } else if index == 1 {
                named_vector(&k.velocity)
            } else {
                named_vector(&k.angular_velocity)
            },
            None => None,
        };
        if named is Some {
            named
        } else if index + 1 < args.len() {
            args[index + 1].vector()
        } else {
            None
        }
    }

    /// The ball that a constructor call yields. A leading ball is copied and
    /// nothing else is read. Otherwise each field is taken by itself, and
    /// what cannot be read for it is passed over: where no field is
    /// supplied at all the result is the ball at rest, else every field
    /// that is not supplied is zero.
    pub open spec fn spec_new(args: Seq<Value>, kwargs: &Option<BallKeywords>) -> Ball {
        if args.len() > 0 && args[0] is Ball {
            args[0]->Ball_0
        } else {
            let time = Ball::supplied_time(args, kwargs);
            let position = Ball::supplied_vector(args, kwargs, 0);
            let velocity = Ball::supplied_vector(args, kwargs, 1);
            let angular_velocity = Ball::supplied_vector(args, kwargs, 2);
            if time is None && position is None && velocity is None && angular_velocity is None {
                Ball::spec_default()
            } else {
                Ball {
                    time: match time {
                        Some(t) => t,
                        None => Scalar::zero(),
                    },
                    position: match position {
                        Some(v) => v,
                        None => Vec3::zero(),
                    },
                    velocity: match velocity {
                        Some(v) => v,
                        None => Vec3::zero(),
                    },
                    angular_velocity: match angular_velocity {
                        Some(v) => v,
                        None => Vec3::zero(),
                    },
                }
            }
        }
    }

    fn named_at(kwargs: &Option<BallKeywords>, index: usize) -> (r: Option<Vec3>)
        ensures
            r == match *kwargs {
                Some(k) => if index == 0 {
                    named_vector(&k.position)
                } else if index == 1 {
                    named_vector(&k.velocity)
                } else {
                    named_vector(&k.angular_velocity)
                },
                None => None,
            },
    {
        match kwargs {
            Some(k) => if index == 0 {
                named_vector(&k.position)
            } else if index == 1 {
                named_vector(&k.velocity)
            } else {
                named_vector(&k.angular_velocity)
            },
            None => None,
        }
    }

    /// Builds a ball from the arguments of a constructor call, by position
    /// in `args` and by name in `kwargs`. No argument makes it fail.
    pub fn new(args: &[Value], kwargs: &Option<BallKeywords>) -> (r: Ball)
        ensures
            r == Ball::spec_new(args@, kwargs),
    {
        if args.len() > 0 {
            if let Value::Ball(b) = &args[0] {
                return *b;
            }
        }
        let mut time: Option<Scalar> = if args.len() > 0 {
            args[0].number()
        } else {
            None
        };
        let mut fields: [Option<Vec3>; 3] = [None, None, None];
        let mut i: usize = 0;
        while i < 3 && i + 1 < args.len()
            invariant
                i <= 3,
                i == 0 || i < args@.len(),
                fields@.len() == 3,
                forall|j: int| 0 <= j < i ==> fields@[j] == args@[j + 1].vector(),
                forall|j: int| i <= j < 3 ==> fields@[j] is None,
            decreases 3 - i,
        {
            fields[i] = args[i + 1].vector();
            i += 1;
        }
        if let Some(k) = kwargs {
            if let Some(t) = named_number(&k.time) {
                time = Some(t);
            }
        }
        let ghost positional = fields@;
        let mut n: usize = 0;
        while n < 3
            invariant
                n <= 3,
                fields@.len() == 3,
                positional.len() == 3,
                forall|j: int| 0 <= j < n ==> fields@[j] == Ball::supplied_vector(args@, kwargs, j),
                forall|j: int| n <= j < 3 ==> fields@[j] == positional[j],
                forall|j: int|
                    0 <= j < 3 ==> positional[j] == if j + 1 < args@.len() {
                        args@[j + 1].vector()
                    } else {
                        None
                    },
            decreases 3 - n,
        {
            assert(fields@[n as int] == positional[n as int]);
            if let Some(v) = Ball::named_at(kwargs, n) {
                fields[n] = Some(v);
            }
            n += 1;
        }
        if time.is_none() && fields[0].is_none() && fields[1].is_none() && fields[2].is_none() {
            Ball::default()
        } else {
            Ball {
                time: time.unwrap_or(Scalar::zero()),
                position: fields[0].unwrap_or(Vec3::zero()),
                velocity: fields[1].unwrap_or(Vec3::zero()),
                angular_velocity: fields[2].unwrap_or(Vec3::zero()),
            }
        }
    }

    /// The canonical text of a ball, from the texts of its four fields: the
    /// text of the time as the host prints a number, and the canonical text
    /// of each vector.
    pub open spec fn spec_repr_of(
        time: Seq<char>,
        position: Seq<char>,
        velocity: Seq<char>,
        angular_velocity: Seq<char>,
    ) -> Seq<char> {
        "Ball(time="@ + time + ", position="@ + position + ", velocity="@ + velocity
            + ", angular_velocity="@ + angular_velocity + ")"@
    }

    /// Puts the canonical text of a ball together from the texts of its
    /// fields.
    pub fn repr_of(time: &str, position: &str, velocity: &str, angular_velocity: &str) -> (r:
        String)
        ensures
            r@ == Ball::spec_repr_of(time@, position@, velocity@, angular_velocity@),
    {
        let mut out = String::from_str("Ball(time=");
        out.append(time);
        out.append(", position=");
        out.append(position);
        out.append(", velocity=");
        out.append(velocity);
        out.append(", angular_velocity=");
        out.append(angular_velocity);
        out.append(")");
        out
    }

    /// Advances the ball by `dt`. The physics is the engine's: `integrate`
    /// gets the four fields as they are and the time step, and the four
    /// fields that it hands back become the ball.
    pub fn step<F>(&mut self, dt: Scalar, integrate: F) where F: FnOnce(Ball, Scalar) -> Ball
        requires
            integrate.requires((*old(self), dt)),
        ensures
            integrate.ensures((*old(self), dt), *final(self)),
    {
        let next = integrate(*self, dt);
        *self = next;
    }
}

impl Default for Ball {
    fn default() -> (r: Ball)
        ensures
            r == Ball::spec_default(),
    {
        Ball {
            time: Scalar::zero(),
            position: Vec3::xyz(Scalar::zero(), Scalar::zero(), Ball::rest_height()),
            velocity: Vec3::zero(),
            angular_velocity: Vec3::zero(),
        }
    }
}

/// A constructor call whose first argument is a ball yields that ball, field
/// for field, whatever else is passed by position or by name.
pub proof fn lemma_ball_copy(args: Seq<Value>, kwargs: &Option<BallKeywords>)
    requires
        args.len() > 0,
        args[0] is Ball,
    ensures
        Ball::spec_new(args, kwargs) == args[0]->Ball_0,
{
}

/// A constructor call without arguments yields the ball at rest.
pub proof fn lemma_ball_without_arguments()
    ensures
        Ball::spec_new(Seq::empty(), &None) == Ball::spec_default(),
{
}

/// A time passed by name is the time of the ball, whatever number stands
/// in the first place.
pub proof fn lemma_ball_named_time_wins(args: Seq<Value>, kwargs: BallKeywords, time: Scalar)
    requires
        !(args.len() > 0 && args[0] is Ball),
        kwargs.time == Some(Value::Number(time)),
    ensures
        Ball::spec_new(args, &Some(kwargs)).time == time,
{
}

} // verus!
