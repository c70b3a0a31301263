use pong::game::{apply_key, tick, KeyInput};
use pong::{Ball, Direction, Paddle, Vector2};

const FIELD_WIDTH: i64 = 800;
const FIELD_HEIGHT: i64 = 600;

fn paddles() -> (Paddle, Paddle) {
    let left = Paddle {
        position: Vector2::new(25, 300),
        sprite_width: 25,
        sprite_height: 100,
        last_input_direction: Direction::Idle,
        movement_speed: 3,
    };
    let right = Paddle {
        position: Vector2::new(775, 300),
        ..left
    };
    (left, right)
}

#[test]
fn quit_and_escape_end_the_game() {
    let (mut left, mut right) = paddles();
    assert!(apply_key(&mut left, &mut right, KeyInput::Quit));
    assert!(apply_key(&mut left, &mut right, KeyInput::Escape));
    assert_eq!(left.last_input_direction, Direction::Idle);
    assert_eq!(right.last_input_direction, Direction::Idle);
}

#[test]
fn arrows_steer_the_right_paddle() {
    let (mut left, mut right) = paddles();
    assert!(!apply_key(&mut left, &mut right, KeyInput::Up));
    assert_eq!(right.last_input_direction, Direction::Up);
    assert_eq!(left.last_input_direction, Direction::Idle);
    assert!(!apply_key(&mut left, &mut right, KeyInput::Down));
    assert_eq!(right.last_input_direction, Direction::Down);
}

#[test]
fn letters_steer_the_left_paddle() {
    let (mut left, mut right) = paddles();
    assert!(!apply_key(&mut left, &mut right, KeyInput::W));
    assert_eq!(left.last_input_direction, Direction::Up);
    assert_eq!(right.last_input_direction, Direction::Idle);
    assert!(!apply_key(&mut left, &mut right, KeyInput::S));
    assert_eq!(left.last_input_direction, Direction::Down);
}

#[test]
fn other_keys_keep_the_recorded_intent() {
    let (mut left, mut right) = paddles();
    apply_key(&mut left, &mut right, KeyInput::W);
    assert!(!apply_key(&mut left, &mut right, KeyInput::Other));
    assert_eq!(left.last_input_direction, Direction::Up);
    assert_eq!(right.last_input_direction, Direction::Idle);
}

#[test]
fn tick_updates_paddles_then_ball() {
    let (mut left, mut right) = paddles();
    left.last_input_direction = Direction::Up;
    right.last_input_direction = Direction::Down;
    let mut ball = Ball {
        position: Vector2::new(400, 200),
        radius: 32,
        movement_speed: 3,
        movement_direction: Vector2::new(1, 0),
    };
    tick(&mut left, &mut right, &mut ball, FIELD_WIDTH, FIELD_HEIGHT);
    assert_eq!(left.position.y, 297);
    assert_eq!(right.position.y, 303);
    assert_eq!(ball.position, Vector2::new(403, 200));
}

#[test]
fn tick_tests_the_ball_against_the_moved_paddle() {
    // The left paddle moves up by 45 this frame, bringing the ball's center
    // into its span only after the move; the ball reflects, which shows the
    // paddles update before the ball does.
    let (mut left, mut right) = paddles();
    left.last_input_direction = Direction::Up;
    left.movement_speed = 45;
    let mut ball = Ball {
        position: Vector2::new(50, 248),
        radius: 32,
        movement_speed: 3,
        movement_direction: Vector2::new(-1, 0),
    };
    tick(&mut left, &mut right, &mut ball, FIELD_WIDTH, FIELD_HEIGHT);
    assert_eq!(left.position.y, 255);
    assert_eq!(ball.movement_direction.x, 1);
    assert_eq!(ball.position.x, 53);
}
