use rlutilities::Ball;
use rlutilities::BoostPad;
use rlutilities::BoostPadState;
use rlutilities::BoostPadType;
use rlutilities::Car;
use rlutilities::CarBody;
use rlutilities::FieldBoostPad;
use rlutilities::FieldGoalInfo;
use rlutilities::FieldInfoPacket;
use rlutilities::Game;
use rlutilities::GameBall;
use rlutilities::GameBoost;
use rlutilities::GameCar;
use rlutilities::GameInfo;
use rlutilities::GameState;
use rlutilities::GameTickPacket;
use rlutilities::Goal;
use rlutilities::GoalState;
use rlutilities::Hitbox;
use rlutilities::Mat3;
use rlutilities::Physics;
use rlutilities::Rotator;
use rlutilities::Scalar;
use rlutilities::Vec3;
use rlutilities::Vector3;

fn s(x: f32) -> Scalar {
    Scalar::from_bits(x.to_bits())
}

fn f(x: Scalar) -> f32 {
    f32::from_bits(x.bits)
}

fn v(x: f32, y: f32, z: f32) -> Vec3 {
    Vec3::xyz(s(x), s(y), s(z))
}

fn w(x: f32, y: f32, z: f32) -> Vector3 {
    Vector3 { x: s(x), y: s(y), z: s(z) }
}

fn floats(v: &Vec3) -> [f32; 3] {
    [f(v.data[0]), f(v.data[1]), f(v.data[2])]
}

fn minus(now: Scalar, before: Scalar) -> Scalar {
    s(f(now) - f(before))
}

/// Stands in for the engine's conversion: a matrix that shows which angles
/// it was made from.
fn rotation(angles: Vec3) -> Mat3 {
    let [p, y, r] = angles.data;
    let o = s(0.0);
    Mat3::from([p, y, r, o, s(1.0), o, o, o, s(1.0)])
}

fn pad(x: f32, state: BoostPadState) -> BoostPad {
    BoostPad {
        position: v(x, 0.0, 70.0),
        type_: BoostPadType::Partial,
        state,
        timer: s(1.0),
        actor_id: 7,
    }
}

fn goal(team: u8) -> Goal {
    Goal {
        team,
        position: v(0.0, 5120.0, 0.0),
        direction: v(0.0, -1.0, 0.0),
        width: s(1786.0),
        height: s(642.0),
        state: GoalState::Other(2),
        actor_id: 3,
    }
}

fn game_with(pads: usize, goals: usize, cars: usize) -> Game {
    let mut game = Game::new(
        (0..pads).map(|i| pad(i as f32, BoostPadState::Available)).collect(),
        (0..goals).map(|i| goal(i as u8)).collect(),
        v(0.0, 0.0, -650.0),
    );
    for i in 0..cars {
        let mut car = Car::new();
        car.id = 100 + i as i32;
        car.frame = 40 + i as i32;
        car.body = CarBody::Other(3);
        car.dodge_timer = s(0.5);
        game.cars.push(car);
    }
    game
}

fn info(elapsed: f32, ended: bool, active: bool, kickoff: bool) -> GameInfo {
    GameInfo {
        seconds_elapsed: s(elapsed),
        game_time_remaining: s(300.0 - elapsed),
        world_gravity_z: s(-650.0),
        is_match_ended: ended,
        is_round_active: active,
        is_kickoff_pause: kickoff,
    }
}

fn car_record(n: i32) -> GameCar {
    let base = n as f32;
    GameCar {
        physics: Physics {
            location: w(base, base + 1.0, base + 2.0),
            velocity: w(base * 10.0, 0.0, 0.0),
            angular_velocity: w(0.0, 0.0, base),
            rotation: Rotator { pitch: s(0.1 * base), yaw: s(0.2 * base), roll: s(0.3 * base) },
        },
        is_demolished: n % 2 == 0,
        has_wheel_contact: true,
        is_super_sonic: n % 3 == 0,
        jumped: n % 2 == 1,
        double_jumped: false,
        team: n % 2,
        boost: 10 * n,
        hitbox: Hitbox { length: s(118.0), width: s(84.2), height: s(36.16) },
        hitbox_offset: w(13.88, 0.0, 20.75),
        spawn_id: 1000 + n,
    }
}

fn tick(info: GameInfo, cars: Vec<GameCar>, num_cars: usize) -> GameTickPacket {
    let ball = GameBall {
        physics: Physics {
            location: w(1.0, 2.0, 93.0),
            velocity: w(4.0, 5.0, 6.0),
            angular_velocity: w(7.0, 8.0, 9.0),
            rotation: Rotator::default(),
        },
    };
    GameTickPacket::new(info, ball, cars, num_cars, Vec::new(), 0)
}

#[test]
fn new_game_is_inactive_and_empty() {
    let game = game_with(3, 2, 0);
    assert_eq!(game.state, GameState::Inactive);
    assert_eq!(game.cars.len(), 0);
    assert_eq!(game.pads.len(), 3);
    assert_eq!(game.goals.len(), 2);
    assert_eq!(f(game.time), 0.0);
    assert_eq!(f(game.get_time_delta()), 0.0);
    assert_eq!(f(game.time_remaining), 0.0);
    assert_eq!(floats(&game.gravity), [0.0, 0.0, -650.0]);
    assert_eq!(floats(&game.get_ball().position), [0.0, 0.0, 110.0]);
}

#[test]
fn match_state_follows_the_flags() {
    let mut game = game_with(0, 0, 0);
    let mut clock = 0.0;
    let mut state_after = |ended: bool, active: bool, kickoff: bool| {
        clock += 1.0;
        game.read_packet(&tick(info(clock, ended, active, kickoff), Vec::new(), 0), minus, rotation);
        game.state
    };
    assert_eq!(state_after(false, true, true), GameState::Kickoff);
    assert_eq!(state_after(false, true, false), GameState::Active);
    assert_eq!(state_after(false, true, true), GameState::Kickoff);
    assert_eq!(state_after(false, false, false), GameState::Inactive);
    assert_eq!(state_after(false, false, true), GameState::Inactive);
    assert_eq!(state_after(true, false, false), GameState::Ended);
    assert_eq!(state_after(true, false, true), GameState::Ended);
    assert_eq!(state_after(true, true, false), GameState::Ended);
    assert_eq!(state_after(true, true, true), GameState::Ended);
    assert_eq!(state_after(false, true, false), GameState::Active);
}

#[test]
fn match_state_of_flags() {
    assert_eq!(GameState::of_flags(false, true, true), GameState::Kickoff);
    assert_eq!(GameState::of_flags(false, true, false), GameState::Active);
    assert_eq!(GameState::of_flags(false, false, true), GameState::Inactive);
    assert_eq!(GameState::of_flags(false, false, false), GameState::Inactive);
    assert_eq!(GameState::of_flags(true, true, false), GameState::Ended);
    assert_eq!(GameState::of_flags(true, false, true), GameState::Ended);
}

#[test]
fn car_list_follows_the_tick() {
    let mut game = game_with(0, 0, 2);
    let four = (1..=4).map(car_record).collect();
    game.read_packet(&tick(info(1.0, false, true, false), four, 4), minus, rotation);
    assert_eq!(game.cars.len(), 4);
    for (i, car) in game.cars.iter().enumerate() {
        let n = i as i32 + 1;
        assert_eq!(car.id, 1000 + n);
        assert_eq!(car.boost, 10 * n);
        assert_eq!(f(car.time), 1.0);
    }
    // the two that stood there keep what no tick reports
    assert_eq!(game.cars[0].frame, 40);
    assert_eq!(game.cars[1].frame, 41);
    assert_eq!(game.cars[0].body, CarBody::Other(3));
    assert_eq!(f(game.cars[1].dodge_timer), 0.5);
    // the two that came are fresh cars but for what the tick reports
    for car in &game.cars[2..] {
        assert_eq!(car.frame, 0);
        assert_eq!(car.body, CarBody::Octane);
        assert_eq!(f(car.dodge_timer), 0.0);
        assert!(car.inertia == Mat3::identity());
    }

    let one = vec![car_record(9), car_record(8), car_record(7)];
    game.read_packet(&tick(info(2.0, false, true, false), one, 1), minus, rotation);
    assert_eq!(game.cars.len(), 1);
    let car = &game.cars[0];
    assert_eq!(f(car.time), 2.0);
    assert_eq!(floats(&car.position), [9.0, 10.0, 11.0]);
    assert_eq!(floats(&car.velocity), [90.0, 0.0, 0.0]);
    assert_eq!(floats(&car.angular_velocity), [0.0, 0.0, 9.0]);
    assert!(car.orientation == rotation(v(0.1 * 9.0, 0.2 * 9.0, 0.3 * 9.0)));
    assert!(!car.demolished);
    assert!(car.on_ground);
    assert!(car.supersonic);
    assert!(car.jumped);
    assert!(!car.double_jumped);
    assert_eq!(car.team, 1);
    assert_eq!(car.boost, 90);
    assert_eq!(floats(&car.hitbox_widths), [118.0, 84.2, 36.16]);
    assert_eq!(floats(&car.hitbox_offset), [13.88, 0.0, 20.75]);
    assert_eq!(car.id, 1009);
    assert_eq!(car.frame, 40);
    assert_eq!(car.body, CarBody::Other(3));
}

#[test]
fn equal_car_counts_keep_the_list() {
    let mut game = game_with(0, 0, 2);
    let two = vec![car_record(1), car_record(2)];
    game.read_packet(&tick(info(1.0, false, true, false), two, 2), minus, rotation);
    assert_eq!(game.cars.len(), 2);
    assert_eq!(game.cars[0].frame, 40);
    assert_eq!(game.cars[1].frame, 41);
    assert_eq!(game.cars[1].id, 1002);
    game.read_packet(&tick(info(2.0, false, true, false), Vec::new(), 0), minus, rotation);
    assert_eq!(game.cars.len(), 0);
}

#[test]
fn cars_are_handed_out_as_a_copy() {
    let mut game = game_with(0, 0, 2);
    let mut copy = game.get_cars();
    assert_eq!(copy.len(), 2);
    assert_eq!(copy[1].id, 101);
    copy[0].id = -5;
    copy.pop();
    copy.push(Car::new());
    copy.push(Car::new());
    assert_eq!(game.cars.len(), 2);
    assert_eq!(game.cars[0].id, 100);
    game.cars[1].boost = 50;
    assert_eq!(copy[1].boost, 0);
}

#[test]
fn time_delta_is_the_difference_of_the_clocks() {
    let mut game = game_with(0, 0, 0);
    game.read_packet(&tick(info(10.0, false, true, false), Vec::new(), 0), minus, rotation);
    assert_eq!(f(game.time), 10.0);
    assert_eq!(f(game.get_time_delta()), 10.0);
    game.read_packet(&tick(info(10.016, false, true, false), Vec::new(), 0), minus, rotation);
    assert_eq!(f(game.time), 10.016);
    assert_eq!(f(game.get_time_delta()), 10.016f32 - 10.0f32);
    assert!((f(game.get_time_delta()) - 0.016).abs() < 1.0e-5);
    assert_eq!(f(game.time_remaining), 300.0 - 10.016);
}

#[test]
fn apply_tick_takes_the_engine_values_as_given() {
    let mut game = game_with(0, 0, 1);
    let packet = tick(info(3.0, false, true, true), vec![car_record(1), car_record(2)], 2);
    let orientations = vec![Mat3::identity(), rotation(v(1.0, 2.0, 3.0))];
    game.apply_tick(&packet, s(0.25), &orientations);
    assert_eq!(f(game.get_time_delta()), 0.25);
    assert_eq!(f(game.time), 3.0);
    assert_eq!(game.state, GameState::Kickoff);
    assert_eq!(game.cars.len(), 2);
    assert!(game.cars[0].orientation == Mat3::identity());
    assert!(game.cars[1].orientation == rotation(v(1.0, 2.0, 3.0)));
}

#[test]
fn tick_overwrites_ball_and_gravity() {
    let mut game = game_with(0, 0, 0);
    game.gravity = v(1.0, 2.0, 3.0);
    let mut i = info(4.0, false, false, false);
    i.world_gravity_z = s(-325.0);
    game.read_packet(&tick(i, Vec::new(), 0), minus, rotation);
    assert_eq!(floats(&game.gravity), [1.0, 2.0, -325.0]);
    let ball = game.get_ball();
    assert_eq!(f(ball.time), 4.0);
    assert_eq!(floats(&ball.position), [1.0, 2.0, 93.0]);
    assert_eq!(floats(&ball.velocity), [4.0, 5.0, 6.0]);
    assert_eq!(floats(&ball.angular_velocity), [7.0, 8.0, 9.0]);
}

#[test]
fn tick_overwrites_pads_by_position() {
    let mut game = game_with(3, 1, 0);
    let boosts = vec![
        GameBoost { is_active: false, timer: s(4.0) },
        GameBoost { is_active: true, timer: s(0.0) },
        GameBoost { is_active: false, timer: s(9.0) },
    ];
    let packet = GameTickPacket::new(
        info(1.0, false, true, false),
        GameBall::default(),
        Vec::new(),
        0,
        boosts,
        2,
    );
    game.read_packet(&packet, minus, rotation);
    assert_eq!(game.pads.len(), 3);
    assert_eq!(game.pads[0].state, BoostPadState::Unavailable);
    assert_eq!(f(game.pads[0].timer), 4.0);
    assert_eq!(game.pads[1].state, BoostPadState::Available);
    assert_eq!(f(game.pads[1].timer), 0.0);
    assert_eq!(game.pads[2].state, BoostPadState::Available);
    assert_eq!(f(game.pads[2].timer), 1.0);
    for (i, pad) in game.pads.iter().enumerate() {
        assert_eq!(floats(&pad.position), [i as f32, 0.0, 70.0]);
        assert_eq!(pad.type_, BoostPadType::Partial);
        assert_eq!(pad.actor_id, 7);
    }
    assert_eq!(game.goals.len(), 1);
    assert_eq!(game.goals[0].state, GoalState::Other(2));
}

#[test]
fn tick_with_more_pads_than_the_field_has() {
    let mut game = game_with(1, 0, 0);
    let boosts = vec![
        GameBoost { is_active: false, timer: s(4.0) },
        GameBoost { is_active: false, timer: s(5.0) },
    ];
    let packet = GameTickPacket::new(
        info(1.0, false, true, false),
        GameBall::default(),
        Vec::new(),
        0,
        boosts,
        2,
    );
    game.read_packet(&packet, minus, rotation);
    assert_eq!(game.pads.len(), 1);
    assert_eq!(game.pads[0].state, BoostPadState::Unavailable);
    assert_eq!(f(game.pads[0].timer), 4.0);
}

fn field_info(num_boosts: usize, listed: usize) -> FieldInfoPacket {
    let pads = (0..listed)
        .map(|i| FieldBoostPad { location: w(100.0 + i as f32, 1.0, 2.0), is_full_boost: i % 2 == 0 })
        .collect();
    let goals = vec![
        FieldGoalInfo {
            team_num: 0,
            location: w(0.0, -5120.0, 321.0),
            direction: w(0.0, 1.0, 0.0),
            width: s(1786.0),
            height: s(642.0),
        },
        FieldGoalInfo {
            team_num: 1,
            location: w(0.0, 5120.0, 321.0),
            direction: w(0.0, -1.0, 0.0),
            width: s(1786.0),
            height: s(642.0),
        },
    ];
    FieldInfoPacket::new(num_boosts, pads, 2, goals)
}

#[test]
fn field_info_is_positional_and_capped() {
    let mut game = game_with(4, 3, 1);
    game.read_field_info(&field_info(3, 5));
    assert_eq!(game.pads.len(), 4);
    for i in 0..3 {
        assert_eq!(floats(&game.pads[i].position), [100.0 + i as f32, 1.0, 2.0]);
        let kind = if i % 2 == 0 { BoostPadType::Full } else { BoostPadType::Partial };
        assert_eq!(game.pads[i].type_, kind);
        assert_eq!(game.pads[i].state, BoostPadState::Available);
        assert_eq!(f(game.pads[i].timer), 0.0);
        assert_eq!(game.pads[i].actor_id, 0);
    }
    assert_eq!(floats(&game.pads[3].position), [3.0, 0.0, 70.0]);
    assert_eq!(game.pads[3].actor_id, 7);
    assert_eq!(f(game.pads[3].timer), 1.0);

    assert_eq!(game.goals.len(), 3);
    assert_eq!(game.goals[0].team, 0);
    assert_eq!(floats(&game.goals[0].position), [0.0, -5120.0, 321.0]);
    assert_eq!(floats(&game.goals[0].direction), [0.0, 1.0, 0.0]);
    assert_eq!(f(game.goals[0].width), 1786.0);
    assert_eq!(f(game.goals[0].height), 642.0);
    assert_eq!(game.goals[0].state, GoalState::Unknown);
    assert_eq!(game.goals[0].actor_id, 0);
    assert_eq!(game.goals[1].team, 1);
    assert_eq!(game.goals[1].state, GoalState::Unknown);
    assert_eq!(game.goals[2].team, 2);
    assert_eq!(game.goals[2].state, GoalState::Other(2));
    assert_eq!(game.goals[2].actor_id, 3);
    assert_eq!(game.cars.len(), 1);
    assert_eq!(game.state, GameState::Inactive);
}

#[test]
fn field_info_does_not_grow_a_short_list() {
    let mut game = game_with(2, 1, 0);
    game.read_field_info(&field_info(3, 5));
    assert_eq!(game.pads.len(), 2);
    assert_eq!(floats(&game.pads[0].position), [100.0, 1.0, 2.0]);
    assert_eq!(floats(&game.pads[1].position), [101.0, 1.0, 2.0]);
    assert_eq!(game.goals.len(), 1);
    assert_eq!(floats(&game.goals[0].position), [0.0, -5120.0, 321.0]);
    let mut empty = game_with(0, 0, 0);
    empty.read_field_info(&field_info(3, 5));
    assert_eq!(empty.pads.len(), 0);
    assert_eq!(empty.goals.len(), 0);
}

#[test]
fn game_ball_accessors() {
    let mut game = game_with(0, 0, 1);
    let ball = Ball {
        time: s(2.0),
        position: v(1.0, 1.0, 1.0),
        velocity: v(2.0, 2.0, 2.0),
        angular_velocity: v(3.0, 3.0, 3.0),
    };
    game.set_ball(ball);
    let mut read = game.get_ball();
    assert_eq!(f(read.time), 2.0);
    assert_eq!(floats(&read.velocity), [2.0, 2.0, 2.0]);
    read.time = s(8.0);
    assert_eq!(f(game.get_ball().time), 2.0);
    assert_eq!(game.cars.len(), 1);
    assert_eq!(game.state, GameState::Inactive);
    assert_eq!(f(game.time), 0.0);
}
