use vstd::prelude::*;

use crate::ball::Ball;
use crate::geometry::{overlaps_y, spans_overlap, Aabb, Arena};
use crate::paddle::{Paddle, Player};

verus! {

/// The vertical direction after the wall checks: it is negated when the
/// ball's centre is strictly above the top, and negated when it is strictly
/// below the bottom. Both checks run; a ball exactly on a wall does not bounce.
pub open spec fn wall_dir_y(b: Ball, arena: Arena) -> int {
    let d = if b.y > arena.top {
        -b.dir_y
    } else {
        b.dir_y as int
    };
    if b.y < arena.bottom {
        -d
    } else {
        d
    }
}

pub open spec fn after_walls(b: Ball, arena: Arena) -> Ball {
    Ball { dir_y: wall_dir_y(b, arena) as i64, ..b }
}

/// Reflects the ball's vertical direction off the top and bottom walls. The
/// position, the horizontal direction and the speed are left alone.
pub fn resolve_walls(ball: &mut Ball, arena: &Arena)
    requires
        old(ball).wf(),
    ensures
        *final(ball) == after_walls(*old(ball), *arena),
        final(ball).wf(),
{
    if ball.y > arena.top {
        ball.dir_y = -ball.dir_y;
    }
    if ball.y < arena.bottom {
        ball.dir_y = -ball.dir_y;
    }
}

/// The ball's edge that faces the paddle: its left edge for the paddle of the
/// first player, its right edge for the other.
pub open spec fn facing_edge(b: Ball, side: Player) -> int {
    match side {
        Player::PlayerOne => b.x - b.half_size,
        Player::PlayerTwo => b.x + b.half_size,
    }
}

/// The ball's facing edge lies strictly between the paddle's two x-edges.
pub open spec fn touches_x(b: Ball, p: Paddle) -> bool {
    spans_overlap(facing_edge(b, p.owner), 0, p.x as int, p.half_width as int)
}

/// The ball's centre lies strictly between the paddle's bottom and top.
pub open spec fn same_height(b: Ball, p: Paddle) -> bool {
    spans_overlap(b.y as int, 0, p.center_y as int, p.half_height as int)
}

/// The ball after the check against one paddle. A bounce negates both
/// components of the direction and marks the bounce as in progress for that
/// paddle; while it is in progress the paddle does not bounce the ball again.
/// Once the ball no longer touches the paddle along x, the mark is cleared.
pub open spec fn after_paddle(b: Ball, p: Paddle) -> Ball {
    if touches_x(b, p) {
        if same_height(b, p) && !b.collision_flag(p.owner) {
            Ball { dir_x: -b.dir_x as i64, dir_y: -b.dir_y as i64, ..b }.with_collision_flag(
                p.owner,
                true,
            )
        } else {
            b
        }
    } else {
        b.with_collision_flag(p.owner, false)
    }
}

/// Whether the ball's facing edge lies strictly between the paddle's x-edges.
pub fn ball_touches_x(ball: &Ball, paddle: &Paddle) -> (r: bool)
    ensures
        r == touches_x(*ball, *paddle),
{
    let edge = match paddle.owner {
        Player::PlayerOne => ball.x as i128 - ball.half_size as i128,
        Player::PlayerTwo => ball.x as i128 + ball.half_size as i128,
    };
    let px = paddle.x as i128;
    let pw = paddle.half_width as i128;
    px - pw < edge && edge < px + pw
}

/// Whether the ball's centre lies strictly between the paddle's bottom and top.
pub fn ball_same_height(ball: &Ball, paddle: &Paddle) -> (r: bool)
    ensures
        r == same_height(*ball, *paddle),
{
    let centre = Aabb { center_x: ball.x, center_y: ball.y, half_width: 0, half_height: 0 };
    overlaps_y(&centre, &paddle.bounds())
}

/// Bounces the ball off one paddle, at most once per approach.
pub fn resolve_paddle(ball: &mut Ball, paddle: &Paddle)
    requires
        old(ball).wf(),
    ensures
        *final(ball) == after_paddle(*old(ball), *paddle),
        final(ball).wf(),
{
    let in_collision = match paddle.owner {
        Player::PlayerOne => ball.in_collision_one,
        Player::PlayerTwo => ball.in_collision_two,
    };
    let touching = ball_touches_x(ball, paddle);
    if touching {
        if ball_same_height(ball, paddle) && !in_collision {
            ball.dir_x = -ball.dir_x;
            ball.dir_y = -ball.dir_y;
            match paddle.owner {
                Player::PlayerOne => ball.in_collision_one = true,
                Player::PlayerTwo => ball.in_collision_two = true,
            }
        }
    } else {
        match paddle.owner {
            Player::PlayerOne => ball.in_collision_one = false,
            Player::PlayerTwo => ball.in_collision_two = false,
        }
    }
}

/// Who scores when the ball is where it is: the second player when its centre
/// is strictly left of the arena, the first when strictly right of it.
pub open spec fn scorer(b: Ball, arena: Arena) -> Option<Player> {
    if b.x < arena.left {
        Some(Player::PlayerTwo)
    } else if b.x > arena.right {
        Some(Player::PlayerOne)
    } else {
        None
    }
}

/// Reports the player who scores, if the ball has left the arena sideways.
pub fn detect_goal(ball: &Ball, arena: &Arena) -> (r: Option<Player>)
    ensures
        r == scorer(*ball, *arena),
{
    if ball.x < arena.left {
        Some(Player::PlayerTwo)
    } else if ball.x > arena.right {
        Some(Player::PlayerOne)
    } else {
        None
    }
}

/// A ball beyond the top wall has its vertical direction negated and nothing
/// else changed: not its horizontal direction, its speed or its position.
pub proof fn lemma_top_wall_bounce(b: Ball, arena: Arena)
    requires
        arena.wf(),
        b.wf(),
        b.y > arena.top,
    ensures
        after_walls(b, arena).dir_y == -b.dir_y,
        after_walls(b, arena).dir_x == b.dir_x,
        after_walls(b, arena).speed == b.speed,
        after_walls(b, arena).x == b.x,
        after_walls(b, arena).y == b.y,
{
}

/// A ball beyond the bottom wall has its vertical direction negated and
/// nothing else changed.
pub proof fn lemma_bottom_wall_bounce(b: Ball, arena: Arena)
    requires
        arena.wf(),
        b.wf(),
        b.y < arena.bottom,
    ensures
        after_walls(b, arena).dir_y == -b.dir_y,
        after_walls(b, arena).dir_x == b.dir_x,
        after_walls(b, arena).speed == b.speed,
        after_walls(b, arena).x == b.x,
        after_walls(b, arena).y == b.y,
{
}

/// The ball after `n` consecutive paddle checks in which it does not move.
pub open spec fn after_paddle_times(b: Ball, p: Paddle, n: nat) -> Ball
    decreases n,
{
    if n == 0 {
        b
    } else {
        after_paddle_times(after_paddle(b, p), p, (n - 1) as nat)
    }
}

/// While a bounce off a paddle is in progress and the ball still touches it,
/// further checks change nothing.
pub proof fn lemma_no_bounce_while_in_progress(b: Ball, p: Paddle, n: nat)
    requires
        touches_x(b, p),
        b.collision_flag(p.owner),
    ensures
        after_paddle_times(b, p, n) == b,
    decreases n,
{
    if n > 0 {
        lemma_no_bounce_while_in_progress(b, p, (n - 1) as nat);
    }
}

/// A stationary ball that overlaps a paddle for `n >= 1` consecutive checks is
/// reflected exactly once, by the first check, and never again while the
/// overlap lasts.
pub proof fn lemma_paddle_debounce(b: Ball, p: Paddle, n: nat)
    requires
        b.wf(),
        touches_x(b, p),
        same_height(b, p),
        !b.collision_flag(p.owner),
        n >= 1,
    ensures
        after_paddle_times(b, p, n) == after_paddle(b, p),
        after_paddle(b, p).dir_x == -b.dir_x,
        after_paddle(b, p).dir_y == -b.dir_y,
        after_paddle(b, p).x == b.x,
        after_paddle(b, p).y == b.y,
        after_paddle(b, p).collision_flag(p.owner),
{
    let b1 = after_paddle(b, p);
    assert(touches_x(b1, p));
    lemma_no_bounce_while_in_progress(b1, p, (n - 1) as nat);
}

/// Once the ball stops touching a paddle along x the bounce is re-armed: the
/// next overlap at the paddle's height reflects the ball again.
pub proof fn lemma_paddle_rearms(b: Ball, away: Ball, p: Paddle)
    requires
        b.wf(),
        !touches_x(away, p),
        touches_x(b, p),
        same_height(b, p),
        b == (Ball { x: b.x, y: b.y, ..after_paddle(away, p) }),
    ensures
        !after_paddle(away, p).collision_flag(p.owner),
        after_paddle(b, p).dir_x == -b.dir_x,
        after_paddle(b, p).dir_y == -b.dir_y,
{
}

} // verus!
