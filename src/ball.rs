use vstd::prelude::*;

use crate::geometry::Aabb;
use crate::paddle::{lemma_u32_product_fits, Player};

verus! {

pub open spec fn abs(v: int) -> int {
    if v < 0 {
        -v
    } else {
        v
    }
}

/// The length of a direction vector, taken as its largest component. The
/// serve and start directions (`(±k, y)` with `|y| <= k`, and `(1, 1)`) have
/// this length on their first component, so they need no scaling.
pub open spec fn norm(dx: int, dy: int) -> int {
    if abs(dx) >= abs(dy) {
        abs(dx)
    } else {
        abs(dy)
    }
}

/// The movement along one axis in `dt_ms` milliseconds, for the direction
/// component `d` of a vector of length `len`, at `speed` units per second.
/// It is `d / len * speed * dt_ms / 1000`, rounded toward zero, so that a
/// direction and its mirror image move by the same amount.
pub open spec fn displacement(d: int, len: int, speed: int, dt_ms: int) -> int {
    if d >= 0 {
        d * speed * dt_ms / (len * 1000)
    } else {
        -((-d) * speed * dt_ms / (len * 1000))
    }
}

/// The ball: its centre, its direction of travel, its speed, its size and, for
/// each paddle, whether a bounce off that paddle is still in progress.
#[derive(Clone, Copy, Debug, PartialEq, Eq, Structural)]
pub struct Ball {
    pub x: i64,
    pub y: i64,
    pub dir_x: i64,
    pub dir_y: i64,
    pub speed: u32,
    pub half_size: i64,
    pub in_collision_one: bool,
    pub in_collision_two: bool,
}

impl Ball {
    /// The direction is non-zero and can be negated; the ball has a size.
    pub open spec fn wf(&self) -> bool {
        &&& (self.dir_x != 0 || self.dir_y != 0)
        &&& self.dir_x != i64::MIN
        &&& self.dir_y != i64::MIN
        &&& self.half_size > 0
    }

    pub open spec fn dir_len(&self) -> int {
        norm(self.dir_x as int, self.dir_y as int)
    }

    pub open spec fn next_x(&self, dt_ms: u32) -> int {
        self.x + displacement(self.dir_x as int, self.dir_len(), self.speed as int, dt_ms as int)
    }

    pub open spec fn next_y(&self, dt_ms: u32) -> int {
        self.y + displacement(self.dir_y as int, self.dir_len(), self.speed as int, dt_ms as int)
    }

    /// The position after the step still fits the coordinate type.
    pub open spec fn can_move(&self, dt_ms: u32) -> bool {
        &&& i64::MIN <= self.next_x(dt_ms) <= i64::MAX
        &&& i64::MIN <= self.next_y(dt_ms) <= i64::MAX
    }

    pub open spec fn integrated(self, dt_ms: u32) -> Ball {
        Ball { x: self.next_x(dt_ms) as i64, y: self.next_y(dt_ms) as i64, ..self }
    }

    pub open spec fn collision_flag(&self, side: Player) -> bool {
        match side {
            Player::PlayerOne => self.in_collision_one,
            Player::PlayerTwo => self.in_collision_two,
        }
    }

    pub open spec fn with_collision_flag(self, side: Player, v: bool) -> Ball {
        match side {
            Player::PlayerOne => Ball { in_collision_one: v, ..self },
            Player::PlayerTwo => Ball { in_collision_two: v, ..self },
        }
    }

    /// Whether the ball satisfies its invariant.
    pub fn is_valid(&self) -> (r: bool)
        ensures
            r == self.wf(),
    {
        (self.dir_x != 0 || self.dir_y != 0) && self.dir_x != i64::MIN && self.dir_y != i64::MIN
            && self.half_size > 0
    }

    /// The new coordinate along one axis, or `None` where it would not fit.
    fn moved_coord(&self, pos: i64, d: i64, dt_ms: u32) -> (r: Option<i64>)
        requires
            self.wf(),
            d == self.dir_x || d == self.dir_y,
        ensures
            r == (if i64::MIN <= pos + displacement(d as int, self.dir_len(), self.speed as int, dt_ms as int) <= i64::MAX {
                Some((pos + displacement(d as int, self.dir_len(), self.speed as int, dt_ms as int)) as i64)
            } else {
                None::<i64>
            }),
    {
        let ax: u64 = if self.dir_x < 0 { (-self.dir_x) as u64 } else { self.dir_x as u64 };
        let ay: u64 = if self.dir_y < 0 { (-self.dir_y) as u64 } else { self.dir_y as u64 };
        let len: u64 = if ax >= ay { ax } else { ay };
        let ad: u64 = if d < 0 { (-d) as u64 } else { d as u64 };
        proof {
            lemma_u32_product_fits(self.speed, dt_ms);
        }
        let sd = (self.speed as u64) * (dt_ms as u64);
        proof {
            assert(0 <= (ad as int) * (sd as int) <= 0x7fff_ffff_ffff_ffffint * 0xffff_ffff_ffff_ffffint) by (nonlinear_arith)
                requires
                    0 <= ad <= 0x7fff_ffff_ffff_ffffint,
                    0 <= sd <= 0xffff_ffff_ffff_ffffint,
            ;
            assert((ad as int) * (sd as int) == (ad as int) * (self.speed as int) * (dt_ms as int)) by (nonlinear_arith)
                requires
                    sd == (self.speed as int) * (dt_ms as int),
            ;
            assert((ad as int) * (sd as int) / ((len as int) * 1000) <= (ad as int) * (sd as int)) by (nonlinear_arith)
                requires
                    len >= 1,
                    (ad as int) * (sd as int) >= 0,
            ;
        }
        let q = (ad as u128) * (sd as u128) / ((len as u128) * 1000);
        let next = if d >= 0 { pos as i128 + q as i128 } else { pos as i128 - q as i128 };
        if next < i64::MIN as i128 || next > i64::MAX as i128 {
            None
        } else {
            Some(next as i64)
        }
    }

    /// Whether one step of `dt_ms` milliseconds keeps the position in range.
    pub fn can_integrate(&self, dt_ms: u32) -> (r: bool)
        requires
            self.wf(),
        ensures
            r == self.can_move(dt_ms),
    {
        self.moved_coord(self.x, self.dir_x, dt_ms).is_some()
            && self.moved_coord(self.y, self.dir_y, dt_ms).is_some()
    }

    /// Moves the ball along its direction, scaled to unit length, at its speed
    /// for `dt_ms` milliseconds.
    pub fn integrate(&mut self, dt_ms: u32)
        requires
            old(self).wf(),
            old(self).can_move(dt_ms),
        ensures
            *final(self) == old(self).integrated(dt_ms),
    {
        let nx = self.moved_coord(self.x, self.dir_x, dt_ms);
        let ny = self.moved_coord(self.y, self.dir_y, dt_ms);
        match (nx, ny) {
            (Some(x), Some(y)) => {
                self.x = x;
                self.y = y;
            },
            _ => {},
        }
    }

    /// The ball's collision box.
    pub fn bounds(&self) -> (r: Aabb)
        ensures
            r == (Aabb {
                center_x: self.x,
                center_y: self.y,
                half_width: self.half_size,
                half_height: self.half_size,
            }),
    {
        Aabb { center_x: self.x, center_y: self.y, half_width: self.half_size, half_height: self.half_size }
    }
}

/// Moving the ball changes its position only, to exactly the position plus
/// the scaled direction times speed and time: its direction, speed, size and
/// bounce marks are kept, and the result depends on nothing but these.
pub proof fn lemma_integrate_moves_only_position(b: Ball, dt_ms: u32)
    ensures
        b.integrated(dt_ms).dir_x == b.dir_x,
        b.integrated(dt_ms).dir_y == b.dir_y,
        b.integrated(dt_ms).speed == b.speed,
        b.integrated(dt_ms).half_size == b.half_size,
        b.integrated(dt_ms).in_collision_one == b.in_collision_one,
        b.integrated(dt_ms).in_collision_two == b.in_collision_two,
        b.can_move(dt_ms) ==> b.integrated(dt_ms).x == b.x + displacement(
            b.dir_x as int,
            b.dir_len(),
            b.speed as int,
            dt_ms as int,
        ),
        b.can_move(dt_ms) ==> b.integrated(dt_ms).y == b.y + displacement(
            b.dir_y as int,
            b.dir_len(),
            b.speed as int,
            dt_ms as int,
        ),
{
}

} // verus!
