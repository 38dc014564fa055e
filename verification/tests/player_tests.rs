use pig_farm::geometry::Position;
use pig_farm::player::MovementKeys;
use pig_farm::player::Player;
use pig_farm::player::character_movement;
use pig_farm::player::move_camera;
use pig_farm::player::spawn_player;
use pig_farm::player::PLAYER_SPEED;
use pig_farm::player::PLAYER_START_X;
use pig_farm::player::PLAYER_START_Y;
use pig_farm::FacingDirection;

fn keys(up: bool, down: bool, left: bool, right: bool) -> MovementKeys {
    MovementKeys { up, down, left, right }
}

#[test]
fn up_only_moves_vertically() {
    let mut player = Player {
        speed: 100,
        current_direction: FacingDirection::Down,
        is_moving: false,
    };
    let mut pos = Position { x: 10, y: 20 };
    character_movement(&mut player, &mut pos, keys(true, false, false, false), 250);
    // exactly speed * dt up the vertical axis: 100 * 250 thousandths
    assert_eq!(pos.y, 20 + 25_000);
    assert_eq!(pos.x, 10);
    assert!(matches!(player.current_direction, FacingDirection::Up));
    assert!(player.is_moving);
}

#[test]
fn facing_precedence_up_right() {
    let mut player = Player {
        speed: 100,
        current_direction: FacingDirection::Down,
        is_moving: false,
    };
    let mut pos = Position { x: 0, y: 0 };
    character_movement(&mut player, &mut pos, keys(true, false, false, true), 100);
    // the last-evaluated held key wins the facing, both axes move
    assert!(matches!(player.current_direction, FacingDirection::Right));
    assert_eq!(pos.x, 10_000);
    assert_eq!(pos.y, 10_000);
    assert!(player.is_moving);
}

#[test]
fn no_keys_is_a_no_op() {
    let mut player = Player {
        speed: 100,
        current_direction: FacingDirection::Left,
        is_moving: true,
    };
    let mut pos = Position { x: 5, y: -7 };
    character_movement(&mut player, &mut pos, keys(false, false, false, false), 1000);
    assert_eq!(pos.x, 5);
    assert_eq!(pos.y, -7);
    assert!(matches!(player.current_direction, FacingDirection::Left));
    assert!(!player.is_moving);
}

#[test]
fn opposite_keys_cancel_but_count_as_moving() {
    let mut player = Player {
        speed: 60,
        current_direction: FacingDirection::Up,
        is_moving: false,
    };
    let mut pos = Position { x: 100, y: 200 };
    character_movement(&mut player, &mut pos, keys(false, false, true, true), 500);
    assert_eq!(pos.x, 100);
    assert_eq!(pos.y, 200);
    assert!(matches!(player.current_direction, FacingDirection::Right));
    assert!(player.is_moving);
}

#[test]
fn zero_elapsed_time_moves_nothing() {
    let mut player = Player {
        speed: 100,
        current_direction: FacingDirection::Down,
        is_moving: false,
    };
    let mut pos = Position { x: 1, y: 2 };
    character_movement(&mut player, &mut pos, keys(true, false, false, false), 0);
    assert_eq!(pos.x, 1);
    assert_eq!(pos.y, 2);
    assert!(matches!(player.current_direction, FacingDirection::Up));
    assert!(player.is_moving);
}

#[test]
fn spawn_player_initial_bundle() {
    let (player, sprite, pos) = spawn_player();
    assert_eq!(player.speed, PLAYER_SPEED);
    assert!(matches!(player.current_direction, FacingDirection::Down));
    assert!(!player.is_moving);
    assert_eq!(sprite.current_frame, 0);
    assert_eq!(sprite.timer.elapsed_ms, 0);
    assert_eq!(sprite.timer.interval_ms, 200);
    assert_eq!(pos.x, PLAYER_START_X);
    assert_eq!(pos.y, PLAYER_START_Y);
}

#[test]
fn camera_snaps_to_player() {
    let mut camera = Position { x: 0, y: 0 };
    let player_pos = Position { x: 12_345, y: -6_789 };
    move_camera(&mut camera, &player_pos);
    assert_eq!(camera.x, 12_345);
    assert_eq!(camera.y, -6_789);
}
