//! The match aggregate and the ingestion of telemetry into it.

use crate::ball::Ball;
use crate::car::Car;
use crate::field::BoostPad;
use crate::field::BoostPadState;
use crate::field::Goal;
use crate::math::Mat3;
use crate::math::Vec3;
use crate::packet::FieldInfoPacket;
use crate::packet::GameBall;
use crate::packet::GameBoost;
use crate::packet::GameCar;
use crate::packet::GameInfo;
use crate::packet::GameTickPacket;
use crate::scalar::Scalar;
use vstd::prelude::*;

verus! {

/// Where a match stands.
#[derive(Clone, Copy, Debug, PartialEq, Eq, Structural)]
pub enum GameState {
    Inactive,
    Kickoff,
    Active,
    Ended,
}

impl GameState {
    /// The state that the three flags of a tick give: an ended match is
    /// `Ended` whatever else is set; an active round is `Kickoff` during the
    /// kickoff pause and `Active` after it; anything else is `Inactive`.
    pub open spec fn spec_of_flags(
        is_match_ended: bool,
        is_round_active: bool,
        is_kickoff_pause: bool,
    ) -> GameState {
        if is_match_ended {
            GameState::Ended
        } else if is_round_active {
            if is_kickoff_pause {
                GameState::Kickoff
            } else {
                GameState::Active
            }
        } else {
            GameState::Inactive
        }
    }

    #[verifier::when_used_as_spec(spec_of_flags)]
    pub fn of_flags(is_match_ended: bool, is_round_active: bool, is_kickoff_pause: bool) -> (r:
        GameState)
        ensures
            r == GameState::spec_of_flags(is_match_ended, is_round_active, is_kickoff_pause),
    {
        if is_match_ended {
            GameState::Ended
        } else if is_round_active {
            if is_kickoff_pause {
                GameState::Kickoff
            } else {
                GameState::Active
            }
        } else {
            GameState::Inactive
        }
    }
}

/// The ball that a tick reports at time `elapsed`.
pub open spec fn tick_ball(record: GameBall, elapsed: Scalar) -> Ball {
    Ball {
        time: elapsed,
        position: record.physics.location.vec3(),
        velocity: record.physics.velocity.vec3(),
        angular_velocity: record.physics.angular_velocity.vec3(),
    }
}

/// The car `prev` after a tick's record of it: clock, motion, orientation,
/// flags, team, boost, hitbox and id come from the tick, the rest stays.
pub open spec fn tick_car(prev: Car, record: GameCar, elapsed: Scalar, orientation: Mat3) -> Car {
    Car {
        time: elapsed,
        position: record.physics.location.vec3(),
        velocity: record.physics.velocity.vec3(),
        angular_velocity: record.physics.angular_velocity.vec3(),
        orientation: orientation,
        demolished: record.is_demolished,
        on_ground: record.has_wheel_contact,
        supersonic: record.is_super_sonic,
        jumped: record.jumped,
        double_jumped: record.double_jumped,
        team: record.team,
        boost: record.boost,
        hitbox_widths: record.hitbox.vec3(),
        hitbox_offset: record.hitbox_offset.vec3(),
        id: record.spawn_id,
        ..prev
    }
}

/// The pad `prev` after a tick's record of it: availability and timer come
/// from the tick, the rest stays.
pub open spec fn tick_pad(prev: BoostPad, record: GameBoost) -> BoostPad {
    BoostPad { state: BoostPadState::from_active(record.is_active), timer: record.timer, ..prev }
}

/// The cars after a tick with the live records `records`: as many as there
/// are records, the car at each place being the one that stood there, or a
/// fresh one where none did, overwritten by the record of that place.
pub open spec fn tick_cars(
    prev: Seq<Car>,
    records: Seq<GameCar>,
    elapsed: Scalar,
    orientations: Seq<Mat3>,
) -> Seq<Car> {
    Seq::new(
        records.len(),
        |i: int|
            tick_car(
                if i < prev.len() {
                    prev[i]
                } else {
                    Car::new()
                },
                records[i],
                elapsed,
                orientations[i],
            ),
    )
}

/// The pads after a tick with the live records `records`: as many as
/// before, each overwritten by the record of its place where there is one.
pub open spec fn tick_pads(prev: Seq<BoostPad>, records: Seq<GameBoost>) -> Seq<BoostPad> {
    Seq::new(
        prev.len(),
        |i: int|
            if i < records.len() {
                tick_pad(prev[i], records[i])
            } else {
                prev[i]
            },
    )
}

/// A list after the values of `fresh` have been written over it place by
/// place: its length stays, and places past the end of `fresh` keep what
/// they held.
pub open spec fn overwritten<T>(prev: Seq<T>, fresh: Seq<T>) -> Seq<T> {
    Seq::new(
        prev.len(),
        |i: int|
            if i < fresh.len() {
                fresh[i]
            } else {
                prev[i]
            },
    )
}

/// The aggregate of one match: ball, cars, boost pads, goals, gravity, the
/// match clock and the match state.
#[derive(Debug)]
pub struct Game {
    pub ball: Ball,
    pub cars: Vec<Car>,
    pub pads: Vec<BoostPad>,
    pub goals: Vec<Goal>,
    pub gravity: Vec3,
    pub time: Scalar,
    pub time_delta: Scalar,
    pub time_remaining: Scalar,
    pub state: GameState,
}

/// The aggregate as a mathematical value.
#[verifier::ext_equal]
pub struct GameView {
    pub ball: Ball,
    pub cars: Seq<Car>,
    pub pads: Seq<BoostPad>,
    pub goals: Seq<Goal>,
    pub gravity: Vec3,
    pub time: Scalar,
    pub time_delta: Scalar,
    pub time_remaining: Scalar,
    pub state: GameState,
}

impl View for Game {
    type V = GameView;

    open spec fn view(&self) -> GameView {
        GameView {
            ball: self.ball,
            cars: self.cars@,
            pads: self.pads@,
            goals: self.goals@,
            gravity: self.gravity,
            time: self.time,
            time_delta: self.time_delta,
            time_remaining: self.time_remaining,
            state: self.state,
        }
    }
}

impl GameView {
    /// The aggregate after a field description whose live entries are
    /// `pads` and `goals`: both lists keep their lengths and are overwritten
    /// place by place; nothing else changes.
    pub open spec fn after_field_info(self, pads: Seq<BoostPad>, goals: Seq<Goal>) -> GameView {
        GameView {
            pads: overwritten(self.pads, pads),
            goals: overwritten(self.goals, goals),
            ..self
        }
    }

    /// The aggregate after a tick. `cars` and `boosts` are the live records
    /// of the tick; `time_delta` is the time since the tick before, and
    /// `orientations` holds the orientation matrix of each live car, both as
    /// the engine computed them.
    pub open spec fn after_tick(
        self,
        info: GameInfo,
        ball: GameBall,
        cars: Seq<GameCar>,
        boosts: Seq<GameBoost>,
        time_delta: Scalar,
        orientations: Seq<Mat3>,
    ) -> GameView {
        GameView {
            ball: tick_ball(ball, info.seconds_elapsed),
            cars: tick_cars(self.cars, cars, info.seconds_elapsed, orientations),
            pads: tick_pads(self.pads, boosts),
            goals: self.goals,
            gravity: Vec3::xyz(self.gravity@[0], self.gravity@[1], info.world_gravity_z),
            time: info.seconds_elapsed,
            time_delta: time_delta,
            time_remaining: info.game_time_remaining,
            state: GameState::of_flags(
                info.is_match_ended,
                info.is_round_active,
                info.is_kickoff_pause,
            ),
        }
    }
}

/// The match state of a tick, flag by flag: an ended match is `Ended`
/// whatever the other two flags say; otherwise a round that is not active is
/// `Inactive` whatever the pause flag says; an active round is `Kickoff`
/// during the kickoff pause and `Active` after it.
pub proof fn lemma_match_state(is_round_active: bool, is_kickoff_pause: bool)
    ensures
        GameState::spec_of_flags(true, is_round_active, is_kickoff_pause) == GameState::Ended,
        GameState::spec_of_flags(false, false, is_kickoff_pause) == GameState::Inactive,
        GameState::spec_of_flags(false, true, true) == GameState::Kickoff,
        GameState::spec_of_flags(false, true, false) == GameState::Active,
{
}

/// After a field description both lists are as long as before. Each place
/// that the description reaches holds the description's entry, and each
/// place past it holds what it held; so where the aggregate has fewer
/// places than the description has live entries, only those places are
/// written and the list does not grow.
pub proof fn lemma_field_info_is_positional(game: GameView, pads: Seq<BoostPad>, goals: Seq<Goal>)
    ensures
        game.after_field_info(pads, goals).pads.len() == game.pads.len(),
        game.after_field_info(pads, goals).goals.len() == game.goals.len(),
        forall|i: int|
            0 <= i < game.pads.len() ==> #[trigger] game.after_field_info(pads, goals).pads[i] == (
            if i < pads.len() {
                pads[i]
            } else {
                game.pads[i]
            }),
        forall|i: int|
            0 <= i < game.goals.len() ==> #[trigger] game.after_field_info(pads, goals).goals[i]
                == (if i < goals.len() {
                goals[i]
            } else {
                game.goals[i]
            }),
{
}

/// After a tick there are exactly as many cars as the tick has live
/// records. A car that stood at a place before is the same car overwritten
/// by the record of that place; a place that is new holds a fresh car
/// overwritten likewise; cars past the tick's count are gone. Pads and
/// goals keep their number, and the goals are untouched.
pub proof fn lemma_tick_resynchronizes(
    game: GameView,
    info: GameInfo,
    ball: GameBall,
    cars: Seq<GameCar>,
    boosts: Seq<GameBoost>,
    time_delta: Scalar,
    orientations: Seq<Mat3>,
)
    ensures
        ({
            let after = game.after_tick(info, ball, cars, boosts, time_delta, orientations);
            &&& after.cars.len() == cars.len()
            &&& forall|i: int|
                0 <= i < cars.len() && i < game.cars.len() ==> #[trigger] after.cars[i] == tick_car(
                    game.cars[i],
                    cars[i],
                    info.seconds_elapsed,
                    orientations[i],
                )
            &&& forall|i: int|
                game.cars.len() <= i < cars.len() ==> #[trigger] after.cars[i] == tick_car(
                    Car::new(),
                    cars[i],
                    info.seconds_elapsed,
                    orientations[i],
                )
            &&& after.pads.len() == game.pads.len()
            &&& after.goals == game.goals
            &&& after.time_delta == time_delta
            &&& after.state == GameState::spec_of_flags(
                info.is_match_ended,
                info.is_round_active,
                info.is_kickoff_pause,
            )
        }),
{
}

impl Game {
    /// An aggregate with the given field and gravity: the ball at rest, no
    /// cars, the clock at zero, the match inactive.
    pub fn new(pads: Vec<BoostPad>, goals: Vec<Goal>, gravity: Vec3) -> (r: Game)
        ensures
            r@ == (GameView {
                ball: Ball::spec_default(),
                cars: Seq::<Car>::empty(),
                pads: pads@,
                goals: goals@,
                gravity: gravity,
                time: Scalar::zero(),
                time_delta: Scalar::zero(),
                time_remaining: Scalar::zero(),
                state: GameState::Inactive,
            }),
    {
        Game {
            ball: Ball::default(),
            cars: Vec::new(),
            pads,
            goals,
            gravity,
            time: Scalar::zero(),
            time_delta: Scalar::zero(),
            time_remaining: Scalar::zero(),
            state: GameState::Inactive,
        }
    }

    /// Takes the static geometry from a field description: the pads and
    /// goals that the aggregate holds are overwritten place by place by the
    /// live entries of the description. Neither list grows or shrinks.
    pub fn read_field_info(&mut self, field_info: &FieldInfoPacket)
        requires
            field_info.counts_fit(),
        ensures
            final(self)@ == old(self)@.after_field_info(
                field_info.spec_cpads(),
                field_info.spec_cgoals(),
            ),
    {
        let new_pads = field_info.cpads();
        let mut i: usize = 0;
        while i < self.pads.len() && i < new_pads.len()
            invariant
                self.pads@.len() == old(self).pads@.len(),
                i <= self.pads@.len(),
                i <= new_pads@.len(),
                forall|j: int| 0 <= j < i ==> self.pads@[j] == new_pads@[j],
                forall|j: int| i <= j < self.pads@.len() ==> self.pads@[j] == old(self).pads@[j],
                self.goals == old(self).goals,
                self.ball == old(self).ball,
                self.cars == old(self).cars,
                self.gravity == old(self).gravity,
                self.time == old(self).time,
                self.time_delta == old(self).time_delta,
                self.time_remaining == old(self).time_remaining,
                self.state == old(self).state,
            decreases self.pads@.len() - i,
        {
            let pad = new_pads[i];
            self.pads[i] = pad;
            i += 1;
        }
        let new_goals = field_info.cgoals();
        let mut k: usize = 0;
        while k < self.goals.len() && k < new_goals.len()
            invariant
                self.goals@.len() == old(self).goals@.len(),
                k <= self.goals@.len(),
                k <= new_goals@.len(),
                forall|j: int| 0 <= j < k ==> self.goals@[j] == new_goals@[j],
                forall|j: int|
                    k <= j < self.goals@.len() ==> self.goals@[j] == old(self).goals@[j],
                self.pads@ == overwritten(old(self).pads@, new_pads@),
                self.ball == old(self).ball,
                self.cars == old(self).cars,
                self.gravity == old(self).gravity,
                self.time == old(self).time,
                self.time_delta == old(self).time_delta,
                self.time_remaining == old(self).time_remaining,
                self.state == old(self).state,
            decreases self.goals@.len() - k,
        {
            let goal = new_goals[k];
            self.goals[k] = goal;
            k += 1;
        }
        assert(self.goals@ =~= overwritten(old(self).goals@, new_goals@));
        assert(self@ =~= old(self)@.after_field_info(
            field_info.spec_cpads(),
            field_info.spec_cgoals(),
        ));
    }

    /// Brings the car list to the length `count`: fresh cars are appended
    /// where it is shorter, cars leave from the tail where it is longer.
    fn resize_cars(&mut self, count: usize)
        ensures
            final(self).cars@ == Seq::new(
                count as nat,
                |i: int|
                    if i < old(self).cars@.len() {
                        old(self).cars@[i]
                    } else {
                        Car::new()
                    },
            ),
            final(self).ball == old(self).ball,
            final(self).pads == old(self).pads,
            final(self).goals == old(self).goals,
            final(self).gravity == old(self).gravity,
            final(self).time == old(self).time,
            final(self).time_delta == old(self).time_delta,
            final(self).time_remaining == old(self).time_remaining,
            final(self).state == old(self).state,
    {
        while self.cars.len() < count
            invariant
                self.cars@.len() >= old(self).cars@.len(),
                forall|j: int| 0 <= j < old(self).cars@.len() ==> self.cars@[j] == old(self).cars@[j],
                forall|j: int|
                    old(self).cars@.len() <= j < self.cars@.len() ==> self.cars@[j] == Car::new(),
                self.ball == old(self).ball,
                self.pads == old(self).pads,
                self.goals == old(self).goals,
                self.gravity == old(self).gravity,
                self.time == old(self).time,
                self.time_delta == old(self).time_delta,
                self.time_remaining == old(self).time_remaining,
                self.state == old(self).state,
            decreases count - self.cars@.len(),
        {
            self.cars.push(Car::new());
        }
        while self.cars.len() > count
            invariant
                forall|j: int|
                    0 <= j < self.cars@.len() && j < old(self).cars@.len() ==> self.cars@[j] == old(
                        self,
                    ).cars@[j],
                forall|j: int|
                    old(self).cars@.len() <= j < self.cars@.len() ==> self.cars@[j] == Car::new(),
                self.cars@.len() >= count,
                self.ball == old(self).ball,
                self.pads == old(self).pads,
                self.goals == old(self).goals,
                self.gravity == old(self).gravity,
                self.time == old(self).time,
                self.time_delta == old(self).time_delta,
                self.time_remaining == old(self).time_remaining,
                self.state == old(self).state,
            decreases self.cars@.len(),
        {
            self.cars.pop();
        }
        assert(self.cars@ =~= Seq::new(
            count as nat,
            |i: int|
                if i < old(self).cars@.len() {
                    old(self).cars@[i]
                } else {
                    Car::new()
                },
        ));
    }

    /// Applies one tick, given what the engine computed for it: the time
    /// since the tick before, and the orientation matrix of each live car.
    /// In this order: clock and gravity, match state, boost pads, the length
    /// of the car list, the cars, the ball.
    pub fn apply_tick(&mut self, packet: &GameTickPacket, time_delta: Scalar, orientations: &Vec<
        Mat3,
    >)
        requires
            packet.counts_fit(),
            orientations@.len() == packet.num_cars,
        ensures
            final(self)@ == old(self)@.after_tick(
                packet.game_info,
                packet.game_ball,
                packet.spec_cars(),
                packet.spec_boostpads(),
                time_delta,
                orientations@,
            ),
    {
        let elapsed = packet.game_info.seconds_elapsed;
        self.time_delta = time_delta;
        self.time = elapsed;
        self.time_remaining = packet.game_info.game_time_remaining;
        self.gravity.set_z(packet.game_info.world_gravity_z);
        assert(self.gravity.data =~= Vec3::xyz(
            old(self).gravity@[0],
            old(self).gravity@[1],
            packet.game_info.world_gravity_z,
        ).data);

        self.state = GameState::of_flags(
            packet.game_info.is_match_ended,
            packet.game_info.is_round_active,
            packet.game_info.is_kickoff_pause,
        );

        let ghost gravity = self.gravity;
        let ghost state = self.state;
        let boosts = packet.boostpads();
        let mut i: usize = 0;
        while i < self.pads.len() && i < boosts.len()
            invariant
                boosts@ == packet.spec_boostpads(),
                self.pads@.len() == old(self).pads@.len(),
                i <= self.pads@.len(),
                i <= boosts@.len(),
                forall|j: int|
                    0 <= j < i ==> self.pads@[j] == tick_pad(old(self).pads@[j], boosts@[j]),
                forall|j: int| i <= j < self.pads@.len() ==> self.pads@[j] == old(self).pads@[j],
                self.cars == old(self).cars,
                self.goals == old(self).goals,
                self.ball == old(self).ball,
                self.gravity == gravity,
                self.time == elapsed,
                self.time_delta == time_delta,
                self.time_remaining == packet.game_info.game_time_remaining,
                self.state == state,
            decreases self.pads@.len() - i,
        {
            let mut pad = self.pads[i];
            pad.state = BoostPadState::from_active(boosts[i].is_active);
            pad.timer = boosts[i].timer;
            self.pads[i] = pad;
            i += 1;
        }
        assert(self.pads@ =~= tick_pads(old(self).pads@, packet.spec_boostpads()));

        let records = packet.cars();
        self.resize_cars(records.len());
        let ghost resized = self.cars@;
        let mut k: usize = 0;
        while k < records.len()
            invariant
                records@ == packet.spec_cars(),
                orientations@.len() == records@.len(),
                self.cars@.len() == records@.len(),
                k <= records@.len(),
                resized.len() == records@.len(),
                forall|j: int|
                    0 <= j < k ==> self.cars@[j] == tick_car(
                        resized[j],
                        records@[j],
                        elapsed,
                        orientations@[j],
                    ),
                forall|j: int| k <= j < self.cars@.len() ==> self.cars@[j] == resized[j],
                self.pads@ == tick_pads(old(self).pads@, packet.spec_boostpads()),
                self.goals == old(self).goals,
                self.ball == old(self).ball,
                self.gravity == gravity,
                self.time == elapsed,
                self.time_delta == time_delta,
                self.time_remaining == packet.game_info.game_time_remaining,
                self.state == state,
            decreases records@.len() - k,
        {
            let record = records[k];
            let mut car = self.cars[k];
            car.time = elapsed;
            car.position = record.physics.location.vec3();
            car.velocity = record.physics.velocity.vec3();
            car.angular_velocity = record.physics.angular_velocity.vec3();
            car.orientation = orientations[k];
            car.demolished = record.is_demolished;
            car.on_ground = record.has_wheel_contact;
            car.supersonic = record.is_super_sonic;
            car.jumped = record.jumped;
            car.double_jumped = record.double_jumped;
            car.team = record.team;
            car.boost = record.boost;
            car.hitbox_widths = record.hitbox.vec3();
            car.hitbox_offset = record.hitbox_offset.vec3();
            car.id = record.spawn_id;
            self.cars[k] = car;
            k += 1;
        }
        assert(self.cars@ =~= tick_cars(
            old(self).cars@,
            packet.spec_cars(),
            elapsed,
            orientations@,
        ));

        self.ball.time = elapsed;
        self.ball.position = packet.game_ball.physics.location.vec3();
        self.ball.velocity = packet.game_ball.physics.velocity.vec3();
        self.ball.angular_velocity = packet.game_ball.physics.angular_velocity.vec3();
        assert(self@ =~= old(self)@.after_tick(
            packet.game_info,
            packet.game_ball,
            packet.spec_cars(),
            packet.spec_boostpads(),
            time_delta,
            orientations@,
        ));
    }

    /// Reads one tick. Two things are the engine's to compute and come in
    /// as functions: `elapsed_since(now, before)`, the difference of two
    /// clock readings, and `euler_to_rotation(angles)`, the orientation
    /// matrix of the angles `(pitch, yaw, roll)`. The first is called once,
    /// on the tick's clock and the aggregate's; the second once for each
    /// live car, in order, on that car's rotation. What they return is
    /// applied as [`Game::apply_tick`] says.
    pub fn read_packet<D, R>(
        &mut self,
        packet: &GameTickPacket,
        elapsed_since: D,
        euler_to_rotation: R,
    ) where D: FnOnce(Scalar, Scalar) -> Scalar, R: Fn(Vec3) -> Mat3
        requires
            packet.counts_fit(),
            elapsed_since.requires((packet.game_info.seconds_elapsed, old(self).time)),
            forall|i: int|
                0 <= i < packet.num_cars ==> euler_to_rotation.requires(
                    (#[trigger] packet.game_cars@[i].physics.rotation.vec3(),),
                ),
        ensures
            elapsed_since.ensures(
                (packet.game_info.seconds_elapsed, old(self).time),
                final(self)@.time_delta,
            ),
            final(self)@.cars.len() == packet.num_cars,
            forall|i: int|
                0 <= i < packet.num_cars ==> euler_to_rotation.ensures(
                    (packet.game_cars@[i].physics.rotation.vec3(),),
                    #[trigger] final(self)@.cars[i].orientation,
                ),
            final(self)@ == old(self)@.after_tick(
                packet.game_info,
                packet.game_ball,
                packet.spec_cars(),
                packet.spec_boostpads(),
                final(self)@.time_delta,
                final(self)@.cars.map_values(|car: Car| car.orientation),
            ),
    {
        let time_delta = elapsed_since(packet.game_info.seconds_elapsed, self.time);
        let records = packet.cars();
        let mut orientations: Vec<Mat3> = Vec::new();
        let mut i: usize = 0;
        while i < records.len()
            invariant
                records@ == packet.spec_cars(),
                packet.num_cars <= packet.game_cars@.len(),
                i <= records@.len(),
                orientations@.len() == i,
                forall|j: int|
                    0 <= j < packet.num_cars ==> euler_to_rotation.requires(
                        (#[trigger] packet.game_cars@[j].physics.rotation.vec3(),),
                    ),
                forall|j: int|
                    0 <= j < i ==> euler_to_rotation.ensures(
                        (packet.game_cars@[j].physics.rotation.vec3(),),
                        #[trigger] orientations@[j],
                    ),
            decreases records@.len() - i,
        {
            assert(records@[i as int] == packet.game_cars@[i as int]);
            let angles = records[i].physics.rotation.vec3();
            orientations.push(euler_to_rotation(angles));
            i += 1;
        }
        self.apply_tick(packet, time_delta, &orientations);
        assert(self@.cars.map_values(|car: Car| car.orientation) =~= orientations@);
    }

    pub fn get_ball(&self) -> (r: Ball)
        ensures
            r == self@.ball,
    {
        self.ball
    }

    pub fn set_ball(&mut self, ball: Ball)
        ensures
            final(self)@ == (GameView { ball: ball, ..old(self)@ }),
    {
        self.ball = ball;
    }

    /// A copy of the cars: what is done to it leaves the aggregate alone.
    pub fn get_cars(&self) -> (r: Vec<Car>)
        ensures
            r@ == self@.cars,
    {
        let mut out: Vec<Car> = Vec::new();
        let mut i: usize = 0;
        while i < self.cars.len()
            invariant
                i <= self.cars@.len(),
                out@ == self.cars@.subrange(0, i as int),
            decreases self.cars@.len() - i,
        {
            out.push(self.cars[i]);
            assert(out@ =~= self.cars@.subrange(0, i + 1));
            i += 1;
        }
        assert(out@ =~= self.cars@);
        out
    }

    pub fn get_time_delta(&self) -> (r: Scalar)
        ensures
            r == self@.time_delta,
    {
        self.time_delta
    }
}

} // verus!
