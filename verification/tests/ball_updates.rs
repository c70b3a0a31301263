use pong::{Ball, Direction, Paddle, Vector2};

const FIELD_WIDTH: i64 = 800;
const FIELD_HEIGHT: i64 = 600;

fn left_paddle() -> Paddle {
    Paddle {
        position: Vector2::new(25, 300),
        sprite_width: 25,
        sprite_height: 100,
        last_input_direction: Direction::Idle,
        movement_speed: 3,
    }
}

fn right_paddle() -> Paddle {
    Paddle {
        position: Vector2::new(775, 300),
        ..left_paddle()
    }
}

fn ball(x: i64, y: i64, dir_x: i64, dir_y: i64) -> Ball {
    Ball {
        position: Vector2::new(x, y),
        radius: 32,
        movement_speed: 3,
        movement_direction: Vector2::new(dir_x, dir_y),
    }
}

#[test]
fn right_edge_flips_rightward_ball() {
    let mut b = ball(FIELD_WIDTH, 300, 1, 0);
    b.update(&left_paddle(), &right_paddle(), FIELD_WIDTH, FIELD_HEIGHT);
    assert_eq!(b.movement_direction.x, -1);
    assert_eq!(b.position.x, 797);
}

#[test]
fn left_edge_keeps_leftward_ball() {
    // The horizontal edge guard is one-directional: a ball already moving
    // left keeps its direction at the left edge (y chosen outside either
    // paddle's span).
    let mut b = ball(31, 500, -1, 0);
    b.update(&left_paddle(), &right_paddle(), FIELD_WIDTH, FIELD_HEIGHT);
    assert_eq!(b.movement_direction.x, -1);
    assert_eq!(b.position.x, 28);
}

#[test]
fn top_edge_flips_vertical_direction() {
    let mut b = ball(400, 31, 0, -1);
    b.update(&left_paddle(), &right_paddle(), FIELD_WIDTH, FIELD_HEIGHT);
    assert_eq!(b.movement_direction.y, 1);
    assert_eq!(b.position.y, 34);
}

#[test]
fn bottom_edge_flips_vertical_direction_whatever_its_sign() {
    let mut down = ball(400, 600, 0, 1);
    down.update(&left_paddle(), &right_paddle(), FIELD_WIDTH, FIELD_HEIGHT);
    assert_eq!(down.movement_direction.y, -1);

    let mut up = ball(400, 600, 0, -1);
    up.update(&left_paddle(), &right_paddle(), FIELD_WIDTH, FIELD_HEIGHT);
    assert_eq!(up.movement_direction.y, 1);
}

#[test]
fn left_paddle_reflects_approaching_ball() {
    let mut b = ball(50, 300, -1, 0);
    b.update(&left_paddle(), &right_paddle(), FIELD_WIDTH, FIELD_HEIGHT);
    assert_eq!(b.movement_direction.x, 1);
    assert_eq!(b.position.x, 53);
    assert_eq!(b.position.y, 300);
}

#[test]
fn ball_outside_paddle_span_passes_by() {
    let mut b = ball(50, 500, -1, 0);
    b.update(&left_paddle(), &right_paddle(), FIELD_WIDTH, FIELD_HEIGHT);
    assert_eq!(b.movement_direction.x, -1);
    assert_eq!(b.position.x, 47);
}

#[test]
fn right_paddle_reflects_approaching_ball() {
    let mut b = ball(770, 300, 1, 0);
    b.update(&left_paddle(), &right_paddle(), FIELD_WIDTH, FIELD_HEIGHT);
    assert_eq!(b.movement_direction.x, -1);
    assert_eq!(b.position.x, 767);
}

#[test]
fn zero_speed_ball_stays_put() {
    let mut b = Ball {
        movement_speed: 0,
        ..ball(200, 200, -1, 1)
    };
    for _ in 0..50 {
        b.update(&left_paddle(), &right_paddle(), FIELD_WIDTH, FIELD_HEIGHT);
        assert_eq!(b.position, Vector2::new(200, 200));
    }
}

#[test]
fn reflections_keep_direction_magnitude() {
    // In a corner both axes reflect at once; only the signs change.
    let mut b = ball(31, 600, 2, 5);
    b.update(&left_paddle(), &right_paddle(), FIELD_WIDTH, FIELD_HEIGHT);
    assert_eq!(b.movement_direction.x.abs(), 2);
    assert_eq!(b.movement_direction.y.abs(), 5);
}

#[test]
fn dest_rect_is_centered_on_the_ball() {
    let b = ball(400, 300, 1, 0);
    let (x, y, w, h) = b.dest_rect();
    assert_eq!(x, 368);
    assert_eq!(y, 268);
    assert_eq!(w, 64);
    assert_eq!(h, 64);
    assert_eq!(x + w / 2, b.position.x);
    assert_eq!(y + h / 2, b.position.y);
}
