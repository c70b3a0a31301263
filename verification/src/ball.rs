//! The ball: each frame it reflects off the top and bottom field edges, off
//! the horizontal edges when moving rightward, and off either paddle's face
//! when approaching it within the paddle's vertical span; then it advances
//! by its direction times its speed.
//!
//! Paddle faces sit at half a sprite width from the paddle's center, so the
//! face and span tests compare doubled coordinates, which keeps them exact
//! in integers.

use vstd::prelude::*;

verus! {

use crate::paddle::Paddle;
use crate::vector::{fits_i64, Vector2, COORD_LIMIT};

/// The ball. `position` is its center; `movement_direction` is scaled by
/// `movement_speed` each frame to advance it.
#[derive(Debug, Clone, Copy, PartialEq, Eq, Structural)]
pub struct Ball {
    pub position: Vector2,
    pub radius: i64,
    pub movement_speed: i64,
    pub movement_direction: Vector2,
}

impl Ball {
    /// All fields lie within the coordinate bound, so one update never
    /// overflows.
    pub open spec fn wf(self) -> bool {
        &&& -COORD_LIMIT <= self.position.x <= COORD_LIMIT
        &&& -COORD_LIMIT <= self.position.y <= COORD_LIMIT
        &&& -COORD_LIMIT <= self.radius <= COORD_LIMIT
        &&& -COORD_LIMIT <= self.movement_speed <= COORD_LIMIT
        &&& -COORD_LIMIT <= self.movement_direction.x <= COORD_LIMIT
        &&& -COORD_LIMIT <= self.movement_direction.y <= COORD_LIMIT
    }

    /// The ball's left edge has crossed the left field edge, or its center
    /// has reached the right one.
    pub open spec fn at_horizontal_edge(self, field_w: int) -> bool {
        self.position.x - self.radius < 0 || self.position.x >= field_w
    }

    /// The ball's top edge has crossed the top field edge, or its center has
    /// reached the bottom one.
    pub open spec fn at_vertical_edge(self, field_h: int) -> bool {
        self.position.y - self.radius < 0 || self.position.y >= field_h
    }

    /// The horizontal direction after the field-edge guard. The guard is
    /// one-directional: it flips the direction only when it points right.
    pub open spec fn dir_x_after_edge(self, field_w: int) -> int {
        if self.at_horizontal_edge(field_w) && self.movement_direction.x > 0 {
            -(self.movement_direction.x as int)
        } else {
            self.movement_direction.x as int
        }
    }

    /// The vertical direction after one update: flipped at the top or bottom
    /// edge, whichever way it points.
    pub open spec fn dir_y_stepped(self, field_h: int) -> int {
        if self.at_vertical_edge(field_h) {
            -(self.movement_direction.y as int)
        } else {
            self.movement_direction.y as int
        }
    }

    /// The ball's center lies strictly within the paddle's vertical span
    /// (paddle center plus or minus half the sprite height).
    pub open spec fn within_vertical_span(self, p: Paddle) -> bool {
        &&& 2 * self.position.y < 2 * p.position.y + p.sprite_height
        &&& 2 * self.position.y > 2 * p.position.y - p.sprite_height
    }

    /// The ball's left edge has crossed the left paddle's right face
    /// (paddle center plus half the sprite width).
    pub open spec fn past_left_paddle_face(self, p: Paddle) -> bool {
        2 * (self.position.x - self.radius) < 2 * p.position.x + p.sprite_width
    }

    /// The ball's right edge has crossed the right paddle's left face
    /// (paddle center minus half the sprite width).
    pub open spec fn past_right_paddle_face(self, p: Paddle) -> bool {
        2 * (self.position.x + self.radius) > 2 * p.position.x - p.sprite_width
    }

    /// The horizontal direction after one update: the edge guard, then the
    /// left-paddle test while moving left, then the right-paddle test while
    /// moving right.
    pub open spec fn dir_x_stepped(self, left: Paddle, right: Paddle, field_w: int) -> int {
        let dx1 = self.dir_x_after_edge(field_w);
        let dx2 = if dx1 < 0 && self.past_left_paddle_face(left) && self.within_vertical_span(
            left,
        ) {
            -dx1
        } else {
            dx1
        };
        if dx2 > 0 && self.past_right_paddle_face(right) && self.within_vertical_span(right) {
            -dx2
        } else {
            dx2
        }
    }

    /// The whole ball one update produces: reflected direction, position
    /// advanced by direction times speed; radius and speed carry over.
    pub open spec fn stepped(self, left: Paddle, right: Paddle, field_w: int, field_h: int) -> Ball {
        let dx = self.dir_x_stepped(left, right, field_w);
        let dy = self.dir_y_stepped(field_h);
        Ball {
            position: Vector2 {
                x: (self.position.x + dx * self.movement_speed) as i64,
                y: (self.position.y + dy * self.movement_speed) as i64,
            },
            movement_direction: Vector2 { x: dx as i64, y: dy as i64 },
            ..self
        }
    }

    /// The ball after `n` updates against the same paddles and field.
    pub open spec fn stepped_n(
        self,
        left: Paddle,
        right: Paddle,
        field_w: int,
        field_h: int,
        n: nat,
    ) -> Ball
        decreases n,
    {
        if n == 0 {
            self
        } else {
            self.stepped_n(left, right, field_w, field_h, (n - 1) as nat).stepped(
                left,
                right,
                field_w,
                field_h,
            )
        }
    }

    /// Runtime test of `wf`, for callers outside the crate that must check
    /// it before updating.
    pub fn is_well_formed(&self) -> (r: bool)
        ensures
            r == self.wf(),
    {
        -COORD_LIMIT <= self.position.x && self.position.x <= COORD_LIMIT && -COORD_LIMIT
            <= self.position.y && self.position.y <= COORD_LIMIT && -COORD_LIMIT <= self.radius
            && self.radius <= COORD_LIMIT && -COORD_LIMIT <= self.movement_speed
            && self.movement_speed <= COORD_LIMIT && -COORD_LIMIT <= self.movement_direction.x
            && self.movement_direction.x <= COORD_LIMIT && -COORD_LIMIT
            <= self.movement_direction.y && self.movement_direction.y <= COORD_LIMIT
    }

    /// Applies one frame: reflects off the field edges and the paddles, then
    /// advances by `movement_direction` times `movement_speed`.
    pub fn update(
        &mut self,
        left_paddle: &Paddle,
        right_paddle: &Paddle,
        field_width: i64,
        field_height: i64,
    )
        requires
            old(self).wf(),
            left_paddle.wf(),
            right_paddle.wf(),
            0 <= field_width <= COORD_LIMIT,
            0 <= field_height <= COORD_LIMIT,
        ensures
            *final(self) == old(self).stepped(
                *left_paddle,
                *right_paddle,
                field_width as int,
                field_height as int,
            ),
            final(self).movement_direction.x == old(self).dir_x_stepped(
                *left_paddle,
                *right_paddle,
                field_width as int,
            ),
            final(self).movement_direction.y == old(self).dir_y_stepped(field_height as int),
            final(self).position.x == old(self).position.x + final(self).movement_direction.x
                * old(self).movement_speed,
            final(self).position.y == old(self).position.y + final(self).movement_direction.y
                * old(self).movement_speed,
            final(self).radius == old(self).radius,
            final(self).movement_speed == old(self).movement_speed,
    {
        if self.position.x - self.radius < 0 || self.position.x >= field_width {
            if self.movement_direction.x > 0 {
                self.movement_direction.x = -self.movement_direction.x;
            }
        }
        if self.position.y - self.radius < 0 || self.position.y >= field_height {
            self.movement_direction.y = -self.movement_direction.y;
        }
        if self.movement_direction.x < 0 {
            if 2 * (self.position.x - self.radius) < 2 * left_paddle.position.x
                + left_paddle.sprite_width as i64 {
                if 2 * self.position.y < 2 * left_paddle.position.y
                    + left_paddle.sprite_height as i64 && 2 * self.position.y > 2
                    * left_paddle.position.y - left_paddle.sprite_height as i64 {
                    self.movement_direction.x = -self.movement_direction.x;
                }
            }
        }
        if self.movement_direction.x > 0 {
            if 2 * (self.position.x + self.radius) > 2 * right_paddle.position.x
                - right_paddle.sprite_width as i64 {
                if 2 * self.position.y < 2 * right_paddle.position.y
                    + right_paddle.sprite_height as i64 && 2 * self.position.y > 2
                    * right_paddle.position.y - right_paddle.sprite_height as i64 {
                    self.movement_direction.x = -self.movement_direction.x;
                }
            }
        }
        proof {
            let dx = self.movement_direction.x as int;
            let dy = self.movement_direction.y as int;
            let sp = self.movement_speed as int;
            assert(fits_i64(dx * sp) && fits_i64(dy * sp) && -(COORD_LIMIT as int) * COORD_LIMIT
                <= dx * sp <= (COORD_LIMIT as int) * COORD_LIMIT && -(COORD_LIMIT as int)
                * COORD_LIMIT <= dy * sp <= (COORD_LIMIT as int) * COORD_LIMIT)
                by (nonlinear_arith)
                requires
                    -COORD_LIMIT <= dx <= COORD_LIMIT,
                    -COORD_LIMIT <= dy <= COORD_LIMIT,
                    -COORD_LIMIT <= sp <= COORD_LIMIT,
            ;
        }
        let step = self.movement_direction.mul(self.movement_speed);
        self.position.add_assign(step);
    }

    /// The destination rectangle for drawing: top-left corner plus extent,
    /// centered on the ball's position.
    pub fn dest_rect(&self) -> (r: (i64, i64, i64, i64))
        requires
            self.wf(),
        ensures
            r.0 == self.position.x - self.radius,
            r.1 == self.position.y - self.radius,
            r.2 == 2 * self.radius,
            r.3 == 2 * self.radius,
    {
        (
            self.position.x - self.radius,
            self.position.y - self.radius,
            2 * self.radius,
            2 * self.radius,
        )
    }
}

/// The horizontal field-edge guard is one-directional: a ball moving left
/// (or not moving horizontally) keeps its horizontal direction there; only a
/// ball moving right has it flipped.
pub proof fn lemma_edge_guard_one_directional(b: Ball, field_w: int)
    ensures
        b.movement_direction.x <= 0 ==> b.dir_x_after_edge(field_w) == b.movement_direction.x,
        b.at_horizontal_edge(field_w) && b.movement_direction.x > 0 ==> b.dir_x_after_edge(field_w)
            == -b.movement_direction.x,
{
}

/// Reflections only flip signs: one update never changes the magnitude of
/// either component of the movement direction, so the direction's length is
/// invariant across any number of reflections.
pub proof fn lemma_step_keeps_direction_magnitude(
    b: Ball,
    left: Paddle,
    right: Paddle,
    field_w: int,
    field_h: int,
)
    requires
        b.wf(),
    ensures
        vstd::math::abs(b.stepped(left, right, field_w, field_h).movement_direction.x as int)
            == vstd::math::abs(b.movement_direction.x as int),
        vstd::math::abs(b.stepped(left, right, field_w, field_h).movement_direction.y as int)
            == vstd::math::abs(b.movement_direction.y as int),
{
}

/// With zero speed, updates leave the ball's position unchanged forever:
/// the direction may flip, but the ball does not move.
pub proof fn lemma_zero_speed_keeps_position(
    b: Ball,
    left: Paddle,
    right: Paddle,
    field_w: int,
    field_h: int,
    n: nat,
)
    requires
        b.movement_speed == 0,
    ensures
        b.stepped_n(left, right, field_w, field_h, n).position == b.position,
        b.stepped_n(left, right, field_w, field_h, n).movement_speed == 0,
    decreases n,
{
    if n > 0 {
        lemma_zero_speed_keeps_position(b, left, right, field_w, field_h, (n - 1) as nat);
        let q = b.stepped_n(left, right, field_w, field_h, (n - 1) as nat);
        assert(q.dir_x_stepped(left, right, field_w) * q.movement_speed == 0) by (nonlinear_arith)
            requires
                q.movement_speed == 0,
        ;
        assert(q.dir_y_stepped(field_h) * q.movement_speed == 0) by (nonlinear_arith)
            requires
                q.movement_speed == 0,
        ;
    }
}

} // verus!
