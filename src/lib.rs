//! A two-player Pong simulation core: paddles that move vertically, a ball that
//! travels in a straight line and reflects off the walls and the paddles, and a
//! score that changes when the ball leaves the arena on the left or the right.
//!
//! Lengths are integers in a unit the host chooses, time steps are whole
//! milliseconds and speeds are length units per second. `Config::standard`
//! measures in thousandths of a pixel, so that rounding stays invisible.
//!
//! Conventions:
//! - Every boundary test is strict: a ball exactly on a wall, a goal line or
//!   a paddle edge does not bounce or score, and boxes that only share an edge
//!   do not overlap.
//! - A direction is an integer vector scaled to unit length by its largest
//!   component, so `(1, 1)` at speed 150 covers 150 units on each axis per
//!   second; movements are rounded toward zero.
//! - One tick moves both paddles, moves the ball, checks it against the top
//!   and bottom walls, then against each paddle, then against the goal lines;
//!   at most one goal is scored per tick, after which the ball is served from
//!   the origin.
//! - The serve direction's vertical part is an input of the tick, so that a
//!   match is a function of its inputs; `Match::advance_with_rng` draws it
//!   from a seedable generator when a goal is scored.

pub mod ball;
pub mod collision;
pub mod game;
pub mod geometry;
pub mod paddle;
pub mod serve;

pub use ball::Ball;
pub use collision::{ball_same_height, ball_touches_x, detect_goal, resolve_paddle, resolve_walls};
pub use game::{Config, ConfigError, Match, Score, Tick, SERVE_SCALE};
pub use geometry::{aabb_intersects, overlaps_x, overlaps_y, Aabb, Arena};
pub use paddle::{Intent, Paddle, Player};
