//! A verified core for a two-paddle ball game: 2D vector arithmetic,
//! paddle movement with clamping to the play field, and ball reflection
//! against the field edges and the paddles.
//!
//! All geometry is carried in integer logical units, so every update is
//! stated and proved exactly. The windowing, texture and event layers
//! live outside this crate and exchange plain values with it.

pub mod ball;
pub mod game;
pub mod paddle;
pub mod vector;

pub use ball::Ball;
pub use game::KeyInput;
pub use paddle::Direction;
pub use paddle::Paddle;
pub use vector::Vector2;
