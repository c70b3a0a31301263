//! A paddle: a fixed-width sprite that moves vertically by one speed step
//! per frame according to the last seen input intent, clamped so that its
//! vertical extent stays inside the play field.

use vstd::prelude::*;

verus! {

use crate::vector::{Vector2, COORD_LIMIT};

/// The last movement intent seen for a paddle. It is sticky: it stays until
/// another directional key overwrites it.
#[derive(Debug, Clone, Copy, PartialEq, Eq, Structural)]
pub enum Direction {
    /// No intent recorded yet: the paddle holds still.
    Idle,
    /// Move toward the top of the field (decreasing `y`).
    Up,
    /// Move toward the bottom of the field (increasing `y`).
    Down,
}

/// A paddle. `position` is the center of its sprite; the sprite's extent is
/// `sprite_width` by `sprite_height` logical units.
#[derive(Debug, Clone, Copy, PartialEq, Eq, Structural)]
pub struct Paddle {
    pub position: Vector2,
    pub sprite_width: u32,
    pub sprite_height: u32,
    pub last_input_direction: Direction,
    pub movement_speed: i64,
}

impl Paddle {
    /// All fields lie within the coordinate bound, so one update never
    /// overflows.
    pub open spec fn wf(self) -> bool {
        &&& -COORD_LIMIT <= self.position.x <= COORD_LIMIT
        &&& -COORD_LIMIT <= self.position.y <= COORD_LIMIT
        &&& self.sprite_width <= COORD_LIMIT
        &&& self.sprite_height <= COORD_LIMIT
        &&& -COORD_LIMIT <= self.movement_speed <= COORD_LIMIT
    }

    /// Half the sprite height: the distance from the paddle's center to its
    /// top or bottom edge.
    pub open spec fn half_height(self) -> int {
        self.sprite_height as int / 2
    }

    /// The vertical position after applying the recorded intent, before
    /// clamping.
    pub open spec fn moved_y(self) -> int {
        match self.last_input_direction {
            Direction::Idle => self.position.y as int,
            Direction::Up => self.position.y - self.movement_speed,
            Direction::Down => self.position.y + self.movement_speed,
        }
    }

    /// Clamps `y` so the span `[y - half, y + half]` stays inside
    /// `[0, field_h]`: first lifted to at least `half`, then lowered to at
    /// most `field_h - half`.
    pub open spec fn clamped_y(y: int, half: int, field_h: int) -> int {
        let lifted = if y <= half {
            half
        } else {
            y
        };
        if lifted >= field_h - half {
            field_h - half
        } else {
            lifted
        }
    }

    /// The vertical position one update produces.
    pub open spec fn step_y(self, field_h: int) -> int {
        Paddle::clamped_y(self.moved_y(), self.half_height(), field_h)
    }

    /// The whole paddle one update produces: only the vertical position
    /// changes.
    pub open spec fn stepped(self, field_h: int) -> Paddle {
        Paddle {
            position: Vector2 { x: self.position.x, y: self.step_y(field_h) as i64 },
            ..self
        }
    }

    /// The paddle after `n` updates against the same field height.
    pub open spec fn stepped_n(self, field_h: int, n: nat) -> Paddle
        decreases n,
    {
        if n == 0 {
            self
        } else {
            self.stepped_n(field_h, (n - 1) as nat).stepped(field_h)
        }
    }

    /// Runtime test of `wf`, for callers outside the crate that must check
    /// it before updating.
    pub fn is_well_formed(&self) -> (r: bool)
        ensures
            r == self.wf(),
    {
        -COORD_LIMIT <= self.position.x && self.position.x <= COORD_LIMIT && -COORD_LIMIT
            <= self.position.y && self.position.y <= COORD_LIMIT && self.sprite_width
            <= 0x4000_0000u32 && self.sprite_height <= 0x4000_0000u32 && -COORD_LIMIT
            <= self.movement_speed && self.movement_speed <= COORD_LIMIT
    }

    /// Applies one frame of movement: moves by `movement_speed` in the
    /// recorded direction, then clamps the vertical extent to the field.
    pub fn update(&mut self, field_height: i64)
        requires
            old(self).wf(),
            0 <= field_height <= COORD_LIMIT,
        ensures
            *final(self) == old(self).stepped(field_height as int),
            final(self).position.y == old(self).step_y(field_height as int),
            final(self).wf(),
    {
        match self.last_input_direction {
            Direction::Idle => {},
            Direction::Up => {
                self.position.add_assign(Vector2::new(0, -self.movement_speed));
            },
            Direction::Down => {
                self.position.add_assign(Vector2::new(0, self.movement_speed));
            },
        }
        let half: i64 = (self.sprite_height / 2) as i64;
        if self.position.y <= half {
            self.position.y = half;
        }
        if self.position.y >= field_height - half {
            self.position.y = field_height - half;
        }
    }

    /// The destination rectangle for drawing: top-left corner plus extent,
    /// centered on the paddle's position.
    pub fn dest_rect(&self) -> (r: (i64, i64, u32, u32))
        requires
            self.wf(),
        ensures
            r.0 == self.position.x - self.sprite_width as int / 2,
            r.1 == self.position.y - self.half_height(),
            r.2 == self.sprite_width,
            r.3 == self.sprite_height,
    {
        (
            self.position.x - (self.sprite_width / 2) as i64,
            self.position.y - (self.sprite_height / 2) as i64,
            self.sprite_width,
            self.sprite_height,
        )
    }
}

/// Wherever the paddle starts, one update puts its vertical extent inside
/// the field: `half_height <= y <= field_h - half_height` (as long as the
/// sprite fits in the field at all).
pub proof fn lemma_step_in_field(p: Paddle, field_h: int)
    requires
        2 * p.half_height() <= field_h,
    ensures
        p.half_height() <= p.step_y(field_h) <= field_h - p.half_height(),
{
}

/// Any number of updates (at least one) keeps the paddle's vertical extent
/// inside the field, whatever its speed and intent.
pub proof fn lemma_steps_stay_in_field(p: Paddle, field_h: int, n: nat)
    requires
        2 * p.half_height() <= field_h,
        field_h <= i64::MAX,
        n >= 1,
    ensures
        p.half_height() <= p.stepped_n(field_h, n).position.y <= field_h - p.half_height(),
        p.stepped_n(field_h, n).sprite_height == p.sprite_height,
    decreases n,
{
    let q = p.stepped_n(field_h, (n - 1) as nat);
    if n > 1 {
        lemma_steps_stay_in_field(p, field_h, (n - 1) as nat);
    }
    lemma_step_in_field(q, field_h);
}

/// With no movement intent and the paddle already inside the field, an
/// update is a no-op.
pub proof fn lemma_idle_step_noop(p: Paddle, field_h: int)
    requires
        p.last_input_direction is Idle,
        p.half_height() <= p.position.y <= field_h - p.half_height(),
    ensures
        p.stepped(field_h) == p,
{
}

/// With no movement intent, updating is idempotent: a second update does
/// nothing more than the first.
pub proof fn lemma_idle_step_idempotent(p: Paddle, field_h: int)
    requires
        p.last_input_direction is Idle,
        2 * p.half_height() <= field_h,
        field_h <= i64::MAX,
    ensures
        p.stepped(field_h).stepped(field_h) == p.stepped(field_h),
{
    lemma_step_in_field(p, field_h);
    lemma_idle_step_noop(p.stepped(field_h), field_h);
}

} // verus!
