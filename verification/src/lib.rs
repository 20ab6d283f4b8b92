//! Host-facing value model of a vehicular-soccer physics engine: vectors,
//! matrices, controller input, ball, car, drive assist and the match
//! aggregate, together with the ingestion of telemetry packets.
//!
//! Every number that the engine holds in single precision is carried here as
//! its IEEE 754 bit pattern ([`Scalar`]). The library compares such numbers
//! and moves them about; the arithmetic on them is the engine's, and where
//! an operation needs it the caller hands it in as a function.

pub mod ball;
pub mod base;
pub mod car;
pub mod compare;
pub mod drive;
pub mod field;
pub mod game;
pub mod input;
pub mod math;
pub mod packet;
pub mod scalar;
pub mod value;

pub use crate::ball::Ball;
pub use crate::base::repr_bool;
pub use crate::car::Car;
pub use crate::car::CarBody;
pub use crate::car::CarState;
pub use crate::compare::CompareOp;
pub use crate::drive::Drive;
pub use crate::drive::DriveOutcome;
pub use crate::field::BoostPad;
pub use crate::field::BoostPadState;
pub use crate::field::BoostPadType;
pub use crate::field::Field;
pub use crate::field::Goal;
pub use crate::field::GoalState;
pub use crate::game::Game;
pub use crate::game::GameState;
pub use crate::input::Input;
pub use crate::math::IndexError;
pub use crate::math::Mat3;
pub use crate::math::Vec3;
pub use crate::packet::FieldBoostPad;
pub use crate::packet::FieldGoalInfo;
pub use crate::packet::FieldInfoPacket;
pub use crate::packet::GameBall;
pub use crate::packet::GameBoost;
pub use crate::packet::GameCar;
pub use crate::packet::GameInfo;
pub use crate::packet::GameTickPacket;
pub use crate::packet::Hitbox;
pub use crate::packet::Physics;
pub use crate::packet::Rotator;
pub use crate::packet::Vector3;
pub use crate::scalar::Scalar;
pub use crate::value::BallKeywords;
pub use crate::value::Value;
pub use crate::value::VectorKeywords;
