use lightcycle::direction::Direction;
use lightcycle::player::{CameraMode, Player, TurnDirection};
use lightcycle::point::Point3;

#[test]
fn turn_table_matches_spec() {
    assert_eq!(Direction::Left.turn_left(), Direction::Backward);
    assert_eq!(Direction::Right.turn_left(), Direction::Forward);
    assert_eq!(Direction::Forward.turn_left(), Direction::Left);
    assert_eq!(Direction::Backward.turn_left(), Direction::Right);

    assert_eq!(Direction::Left.turn_right(), Direction::Forward);
    assert_eq!(Direction::Right.turn_right(), Direction::Backward);
    assert_eq!(Direction::Forward.turn_right(), Direction::Right);
    assert_eq!(Direction::Backward.turn_right(), Direction::Left);
}

#[test]
fn four_turns_return_to_start() {
    let all = [
        Direction::Left,
        Direction::Right,
        Direction::Forward,
        Direction::Backward,
    ];
    for d in all {
        assert_eq!(d.turn_left().turn_left().turn_left().turn_left(), d);
        assert_eq!(d.turn_right().turn_right().turn_right().turn_right(), d);
        assert_eq!(d.turn_left().turn_right(), d);
        assert_eq!(d.turn_right().turn_left(), d);
    }
}

#[test]
fn default_direction_is_forward() {
    assert_eq!(Direction::default(), Direction::Forward);
}

#[test]
fn default_player_state() {
    let p = Player::default();
    assert_eq!(p.speed, 3_000);
    assert_eq!(
        p.pos,
        Point3 {
            x: 1_000_000,
            y: 300,
            z: 1_000_000
        }
    );
    assert_eq!(p.direction, Direction::Forward);
    assert!(!p.boost);
    assert_eq!(p.camera_mode, CameraMode::Follow);
    assert_eq!(p.turn_points.len(), 1);
    assert_eq!(p.turn_points[0].pos, p.pos);
    assert_eq!(p.turn_points[0].direction, Direction::Forward);
    assert_eq!(p.turn_points[0].turn_direction, TurnDirection::Left);
    assert!(p.lines.is_empty());
}

#[test]
fn ledger_grows_by_one_per_command_and_keeps_earlier_records() {
    let mut p = Player::default();
    let mut snapshots = vec![p.turn_points.clone()];
    let commands = [true, false, false, true, true];
    for (k, left) in commands.iter().enumerate() {
        if *left {
            p.turn_left();
        } else {
            p.turn_right();
        }
        assert_eq!(p.turn_points.len(), 1 + k + 1);
        // no element at an index below the previous length changed value
        let prev = snapshots.last().unwrap();
        for i in 0..prev.len() {
            assert_eq!(p.turn_points[i].pos, prev[i].pos);
            assert_eq!(p.turn_points[i].direction, prev[i].direction);
            assert_eq!(p.turn_points[i].turn_direction, prev[i].turn_direction);
        }
        snapshots.push(p.turn_points.clone());
    }
    assert_eq!(p.turn_points.len(), 1 + commands.len());
}

#[test]
fn turn_records_hold_position_and_new_facing() {
    let mut p = Player::default();
    p.turn_left();
    assert_eq!(p.direction, Direction::Left);
    let rec = p.turn_points[1];
    assert_eq!(rec.pos, p.pos);
    assert_eq!(rec.direction, Direction::Left);
    assert_eq!(rec.turn_direction, TurnDirection::Left);

    p.turn_right();
    assert_eq!(p.direction, Direction::Forward);
    let rec = p.turn_points[2];
    assert_eq!(rec.direction, Direction::Forward);
    assert_eq!(rec.turn_direction, TurnDirection::Right);
}

#[test]
fn drive_moves_along_the_facing() {
    let mut p = Player::default();
    p.pos = Point3 { x: 0, y: 0, z: 0 };
    p.speed = 3_000;

    p.direction = Direction::Forward;
    p.drive(100);
    assert_eq!(p.pos, Point3 { x: 0, y: 0, z: -300 });

    p.direction = Direction::Right;
    p.drive(100);
    assert_eq!(p.pos, Point3 { x: 300, y: 0, z: -300 });

    p.direction = Direction::Backward;
    p.drive(100);
    assert_eq!(p.pos, Point3 { x: 300, y: 0, z: 0 });

    p.direction = Direction::Left;
    p.drive(100);
    assert_eq!(p.pos, Point3 { x: 0, y: 0, z: 0 });
}

#[test]
fn boost_doubles_the_step() {
    let mut p = Player::default();
    p.pos = Point3 { x: 0, y: 0, z: 0 };
    p.speed = 3_000;
    p.direction = Direction::Backward;

    p.boost();
    assert!(p.boost);
    p.drive(100);
    assert_eq!(p.pos.z, 600);

    p.stop_boost();
    assert!(!p.boost);
    p.drive(100);
    assert_eq!(p.pos.z, 900);
}

#[test]
fn camera_mode_toggles() {
    let mut p = Player::default();
    assert_eq!(p.camera_mode, CameraMode::Follow);
    p.switch_camera_mode();
    assert_eq!(p.camera_mode, CameraMode::Top);
    p.switch_camera_mode();
    assert_eq!(p.camera_mode, CameraMode::Follow);
}
