//! The per-frame decisions of the game loop: turning key events into paddle
//! intents or a quit signal, and advancing both paddles and the ball by one
//! frame. The event polling, rendering and frame pacing around these live
//! outside the crate.

use vstd::prelude::*;

verus! {

use crate::ball::Ball;
use crate::paddle::{Direction, Paddle};
use crate::vector::COORD_LIMIT;

/// A key event the game reacts to, as delivered by the input layer.
#[derive(Debug, Clone, Copy, PartialEq, Eq, Structural)]
pub enum KeyInput {
    /// The window was asked to close.
    Quit,
    /// The escape key: ends the game like `Quit`.
    Escape,
    /// The up arrow: the right paddle moves up.
    Up,
    /// The down arrow: the right paddle moves down.
    Down,
    /// The `W` key: the left paddle moves up.
    W,
    /// The `S` key: the left paddle moves down.
    S,
    /// Any other key: ignored.
    Other,
}

/// Records one key event in the paddles' movement intents and says whether
/// the game should end. Arrow keys steer the right paddle, `W` and `S` the
/// left one; any other key changes nothing.
pub fn apply_key(left: &mut Paddle, right: &mut Paddle, key: KeyInput) -> (quit: bool)
    ensures
        quit == (key == KeyInput::Quit || key == KeyInput::Escape),
        final(left).last_input_direction == (if key == KeyInput::W {
            Direction::Up
        } else if key == KeyInput::S {
            Direction::Down
        } else {
            old(left).last_input_direction
        }),
        final(right).last_input_direction == (if key == KeyInput::Up {
            Direction::Up
        } else if key == KeyInput::Down {
            Direction::Down
        } else {
            old(right).last_input_direction
        }),
        final(left).position == old(left).position,
        final(left).sprite_width == old(left).sprite_width,
        final(left).sprite_height == old(left).sprite_height,
        final(left).movement_speed == old(left).movement_speed,
        final(right).position == old(right).position,
        final(right).sprite_width == old(right).sprite_width,
        final(right).sprite_height == old(right).sprite_height,
        final(right).movement_speed == old(right).movement_speed,
{
    match key {
        KeyInput::Quit => true,
        KeyInput::Escape => true,
        KeyInput::Up => {
            right.last_input_direction = Direction::Up;
            false
        },
        KeyInput::Down => {
            right.last_input_direction = Direction::Down;
            false
        },
        KeyInput::W => {
            left.last_input_direction = Direction::Up;
            false
        },
        KeyInput::S => {
            left.last_input_direction = Direction::Down;
            false
        },
        KeyInput::Other => false,
    }
}

/// Advances the game by one frame: first each paddle applies its intent and
/// clamps to the field, then the ball reflects and advances against the
/// updated paddles.
pub fn tick(
    left: &mut Paddle,
    right: &mut Paddle,
    ball: &mut Ball,
    field_width: i64,
    field_height: i64,
)
    requires
        old(left).wf(),
        old(right).wf(),
        old(ball).wf(),
        0 <= field_width <= COORD_LIMIT,
        0 <= field_height <= COORD_LIMIT,
    ensures
        *final(left) == old(left).stepped(field_height as int),
        *final(right) == old(right).stepped(field_height as int),
        *final(ball) == old(ball).stepped(
            old(left).stepped(field_height as int),
            old(right).stepped(field_height as int),
            field_width as int,
            field_height as int,
        ),
        final(left).wf(),
        final(right).wf(),
{
    left.update(field_height);
    right.update(field_height);
    ball.update(left, right, field_width, field_height);
}

} // verus!
