use vstd::prelude::*;

use crate::geometry::{Aabb, Arena};

verus! {

/// The two sides of a match.
#[derive(Clone, Copy, Debug, PartialEq, Eq, Structural)]
pub enum Player {
    PlayerOne,
    PlayerTwo,
}

/// What the input layer asks of one paddle for one tick.
#[derive(Clone, Copy, Debug, PartialEq, Eq, Structural)]
pub enum Intent {
    MoveUp,
    MoveDown,
    Stay,
}

impl Intent {
    /// Combines the two movement keys of one paddle: one key alone moves the
    /// paddle that way; both keys, or neither, keep it where it is.
    pub fn from_keys(up: bool, down: bool) -> (r: Intent)
        ensures
            r == (if up && !down {
                Intent::MoveUp
            } else if down && !up {
                Intent::MoveDown
            } else {
                Intent::Stay
            }),
    {
        if up && !down {
            Intent::MoveUp
        } else if down && !up {
            Intent::MoveDown
        } else {
            Intent::Stay
        }
    }
}

/// The distance covered in `dt_ms` milliseconds at `speed` units per second,
/// rounded down.
pub open spec fn travel(speed: u32, dt_ms: u32) -> int {
    (speed as int) * (dt_ms as int) / 1000
}

pub open spec fn clamp(v: int, lo: int, hi: int) -> int {
    if v < lo {
        lo
    } else if v > hi {
        hi
    } else {
        v
    }
}

/// The distance covered in `dt_ms` milliseconds at `speed` units per second.
pub fn travel_exec(speed: u32, dt_ms: u32) -> (r: u64)
    ensures
        r == travel(speed, dt_ms),
{
    proof {
        lemma_u32_product_fits(speed, dt_ms);
    }
    (speed as u64) * (dt_ms as u64) / 1000
}

pub proof fn lemma_u32_product_fits(a: u32, b: u32)
    ensures
        0 <= (a as int) * (b as int) <= u64::MAX,
{
    assert(0 <= (a as int) * (b as int) <= 0xffff_ffffint * 0xffff_ffffint) by (nonlinear_arith)
        requires
            0 <= a <= 0xffff_ffffint,
            0 <= b <= 0xffff_ffffint,
    ;
}

/// A paddle: a box at a fixed `x` that moves only vertically.
#[derive(Clone, Copy, Debug, PartialEq, Eq, Structural)]
pub struct Paddle {
    pub owner: Player,
    pub x: i64,
    pub center_y: i64,
    pub half_width: i64,
    pub half_height: i64,
    pub speed: u32,
}

impl Paddle {
    /// The lowest centre that keeps the whole paddle inside the arena.
    pub open spec fn lowest(&self, arena: Arena) -> int {
        arena.bottom + self.half_height
    }

    /// The highest centre that keeps the whole paddle inside the arena.
    pub open spec fn highest(&self, arena: Arena) -> int {
        arena.top - self.half_height
    }

    pub open spec fn wf(&self, arena: Arena) -> bool {
        &&& self.half_width > 0
        &&& self.half_height > 0
        &&& self.lowest(arena) <= self.center_y <= self.highest(arena)
    }

    /// The centre after one tick of `intent`: the candidate position is
    /// clamped into the arena, never rejected.
    pub open spec fn moved_center(&self, arena: Arena, intent: Intent, dt_ms: u32) -> int {
        match intent {
            Intent::MoveUp => clamp(
                self.center_y + travel(self.speed, dt_ms),
                self.lowest(arena),
                self.highest(arena),
            ),
            Intent::MoveDown => clamp(
                self.center_y - travel(self.speed, dt_ms),
                self.lowest(arena),
                self.highest(arena),
            ),
            Intent::Stay => self.center_y as int,
        }
    }

    pub open spec fn moved(self, arena: Arena, intent: Intent, dt_ms: u32) -> Paddle {
        Paddle { center_y: self.moved_center(arena, intent, dt_ms) as i64, ..self }
    }

    /// Moves the paddle for one tick of `intent` lasting `dt_ms` milliseconds.
    pub fn apply_intent(&mut self, arena: &Arena, intent: Intent, dt_ms: u32)
        requires
            old(self).wf(*arena),
        ensures
            *final(self) == old(self).moved(*arena, intent, dt_ms),
            final(self).wf(*arena),
    {
        let lo = arena.bottom as i128 + self.half_height as i128;
        let hi = arena.top as i128 - self.half_height as i128;
        let step = (travel_exec(self.speed, dt_ms)) as i128;
        let candidate = match intent {
            Intent::MoveUp => self.center_y as i128 + step,
            Intent::MoveDown => self.center_y as i128 - step,
            Intent::Stay => self.center_y as i128,
        };
        let next = if candidate < lo {
            lo
        } else if candidate > hi {
            hi
        } else {
            candidate
        };
        self.center_y = next as i64;
    }

    /// The paddle's collision box.
    pub fn bounds(&self) -> (r: Aabb)
        ensures
            r == (Aabb {
                center_x: self.x,
                center_y: self.center_y,
                half_width: self.half_width,
                half_height: self.half_height,
            }),
    {
        Aabb {
            center_x: self.x,
            center_y: self.center_y,
            half_width: self.half_width,
            half_height: self.half_height,
        }
    }
}

/// The centre of a paddle after it was asked to move up once for each step in
/// `dts`.
pub open spec fn center_after_moving_up(p: Paddle, arena: Arena, dts: Seq<u32>) -> int
    decreases dts.len(),
{
    if dts.len() == 0 {
        p.center_y as int
    } else {
        center_after_moving_up(
            p.moved(arena, Intent::MoveUp, dts[0]),
            arena,
            dts.drop_first(),
        )
    }
}

/// A paddle held against the top wall stays exactly there, however many more
/// upward moves it receives and however long each lasts: no overshoot and no
/// oscillation.
pub proof fn lemma_pinned_at_top(p: Paddle, arena: Arena, dts: Seq<u32>)
    requires
        p.wf(arena),
        p.center_y == p.highest(arena),
    ensures
        center_after_moving_up(p, arena, dts) == p.highest(arena),
    decreases dts.len(),
{
    if dts.len() > 0 {
        let q = p.moved(arena, Intent::MoveUp, dts[0]);
        assert(q.center_y == p.highest(arena));
        lemma_pinned_at_top(q, arena, dts.drop_first());
    }
}

/// The distance a paddle of `speed` is asked to cover over the steps `dts`:
/// the sum of each step's travel.
pub open spec fn total_travel(speed: u32, dts: Seq<u32>) -> int
    decreases dts.len(),
{
    if dts.len() == 0 {
        0
    } else {
        travel(speed, dts[0]) + total_travel(speed, dts.drop_first())
    }
}

/// Upward moves add up until the paddle meets the top wall: after any run of
/// them the centre is the start plus the total travel, or the highest centre
/// if that is lower. The centre therefore never decreases, never passes the
/// top, and once there stays there.
pub proof fn lemma_moving_up_total(p: Paddle, arena: Arena, dts: Seq<u32>)
    requires
        p.wf(arena),
    ensures
        center_after_moving_up(p, arena, dts) == if p.center_y + total_travel(p.speed, dts) <= p.highest(arena) {
            p.center_y + total_travel(p.speed, dts)
        } else {
            p.highest(arena)
        },
    decreases dts.len(),
{
    if dts.len() > 0 {
        let q = p.moved(arena, Intent::MoveUp, dts[0]);
        assert(travel(p.speed, dts[0]) >= 0) by (nonlinear_arith)
            requires
                p.speed >= 0,
                dts[0] >= 0,
                travel(p.speed, dts[0]) == (p.speed as int) * (dts[0] as int) / 1000,
        ;
        lemma_total_travel_nonneg(p.speed, dts.drop_first());
        assert(q.wf(arena));
        lemma_moving_up_total(q, arena, dts.drop_first());
    }
}

pub proof fn lemma_total_travel_nonneg(speed: u32, dts: Seq<u32>)
    ensures
        total_travel(speed, dts) >= 0,
    decreases dts.len(),
{
    if dts.len() > 0 {
        assert(travel(speed, dts[0]) >= 0) by (nonlinear_arith)
            requires
                travel(speed, dts[0]) == (speed as int) * (dts[0] as int) / 1000,
                speed >= 0,
                dts[0] >= 0,
        ;
        lemma_total_travel_nonneg(speed, dts.drop_first());
    }
}

} // verus!
