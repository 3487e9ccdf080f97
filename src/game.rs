use vstd::prelude::*;

use rand::rngs::StdRng;

use crate::ball::Ball;
use crate::collision::{
    after_paddle, after_walls, detect_goal, resolve_paddle, resolve_walls, same_height, scorer,
    touches_x,
};
use crate::geometry::Arena;
use crate::paddle::{clamp, Intent, Paddle, Player};
use crate::serve::draw_in_range;

verus! {

/// A served ball heads along `(±SERVE_SCALE, y)` with `y` drawn from
/// `[-SERVE_SCALE, SERVE_SCALE)`: a horizontal unit and a vertical slope in
/// `[-1, 1)`.
pub const SERVE_SCALE: i64 = 1000;

/// The points of both players.
#[derive(Clone, Copy, Debug, PartialEq, Eq, Structural)]
pub struct Score {
    pub player_one_points: u64,
    pub player_two_points: u64,
}

impl Score {
    pub open spec fn points_of(&self, p: Player) -> u64 {
        match p {
            Player::PlayerOne => self.player_one_points,
            Player::PlayerTwo => self.player_two_points,
        }
    }

    pub open spec fn scored(self, p: Player) -> Score {
        match p {
            Player::PlayerOne => Score { player_one_points: (self.player_one_points + 1) as u64, ..self },
            Player::PlayerTwo => Score { player_two_points: (self.player_two_points + 1) as u64, ..self },
        }
    }

    /// Gives one point to `p`.
    pub fn score_for(&mut self, p: Player)
        requires
            old(self).points_of(p) < u64::MAX,
        ensures
            *final(self) == old(self).scored(p),
    {
        match p {
            Player::PlayerOne => self.player_one_points = self.player_one_points + 1,
            Player::PlayerTwo => self.player_two_points = self.player_two_points + 1,
        }
    }
}

/// The settings of a match.
#[derive(Clone, Copy, Debug, PartialEq, Eq, Structural)]
pub struct Config {
    pub top: i64,
    pub bottom: i64,
    pub left: i64,
    pub right: i64,
    pub paddle_speed: u32,
    pub ball_serve_speed: u32,
    pub paddle_half_width: i64,
    pub paddle_half_height: i64,
    pub ball_half_size: i64,
    pub paddle_one_x: i64,
    pub paddle_two_x: i64,
}

/// Why a configuration, or a state to resume from, was refused.
#[derive(Clone, Copy, Debug, PartialEq, Eq, Structural)]
pub enum ConfigError {
    /// `top <= bottom` or `right <= left`.
    InvalidArena,
    /// A paddle or ball half extent is zero or negative.
    NonPositiveExtent,
    /// The paddle is taller than the arena.
    PaddleTooTall,
    /// The ball's direction is zero or cannot be negated, or its size is not
    /// positive.
    InvalidBall,
}

impl Config {
    /// The standard table, in thousandths of a pixel: a 1000 by 400 pixel
    /// arena centred on the origin, paddles of 50 by 50 pixels at x = ±250
    /// moving at 300 pixels per second, and a ball of 50 by 50 pixels served
    /// at 150 pixels per second. The fine unit keeps the rounding of each
    /// tick's movement below a thousandth of a pixel.
    pub fn standard() -> (r: Config)
        ensures
            r == (Config {
                top: 200_000,
                bottom: -200_000i64,
                left: -500_000i64,
                right: 500_000,
                paddle_speed: 300_000,
                ball_serve_speed: 150_000,
                paddle_half_width: 25_000,
                paddle_half_height: 25_000,
                ball_half_size: 25_000,
                paddle_one_x: -250_000i64,
                paddle_two_x: 250_000,
            }),
    {
        Config {
            top: 200_000,
            bottom: -200_000,
            left: -500_000,
            right: 500_000,
            paddle_speed: 300_000,
            ball_serve_speed: 150_000,
            paddle_half_width: 25_000,
            paddle_half_height: 25_000,
            ball_half_size: 25_000,
            paddle_one_x: -250_000,
            paddle_two_x: 250_000,
        }
    }

    pub open spec fn arena(&self) -> Arena {
        Arena { top: self.top, bottom: self.bottom, left: self.left, right: self.right }
    }

    /// The first reason to refuse the configuration, in the order checked.
    pub open spec fn error(&self) -> Option<ConfigError> {
        if !(self.bottom < self.top && self.left < self.right) {
            Some(ConfigError::InvalidArena)
        } else if self.paddle_half_width <= 0 || self.paddle_half_height <= 0 || self.ball_half_size <= 0 {
            Some(ConfigError::NonPositiveExtent)
        } else if self.bottom + self.paddle_half_height > self.top - self.paddle_half_height {
            Some(ConfigError::PaddleTooTall)
        } else {
            None
        }
    }

    /// A paddle of this configuration, centred as close to `y = 0` as the
    /// arena allows.
    pub open spec fn paddle(&self, owner: Player) -> Paddle {
        Paddle {
            owner,
            x: match owner {
                Player::PlayerOne => self.paddle_one_x,
                Player::PlayerTwo => self.paddle_two_x,
            },
            center_y: clamp(
                0,
                self.bottom + self.paddle_half_height,
                self.top - self.paddle_half_height,
            ) as i64,
            half_width: self.paddle_half_width,
            half_height: self.paddle_half_height,
            speed: self.paddle_speed,
        }
    }

    /// The ball at kick-off: at the origin, heading up and right at the serve
    /// speed.
    pub open spec fn first_ball(&self) -> Ball {
        Ball {
            x: 0,
            y: 0,
            dir_x: 1,
            dir_y: 1,
            speed: self.ball_serve_speed,
            half_size: self.ball_half_size,
            in_collision_one: false,
            in_collision_two: false,
        }
    }

    fn check(&self) -> (r: Option<ConfigError>)
        ensures
            r == self.error(),
    {
        if !(self.bottom < self.top && self.left < self.right) {
            Some(ConfigError::InvalidArena)
        } else if self.paddle_half_width <= 0 || self.paddle_half_height <= 0 || self.ball_half_size <= 0 {
            Some(ConfigError::NonPositiveExtent)
        } else if self.bottom as i128 + self.paddle_half_height as i128 > self.top as i128
            - self.paddle_half_height as i128 {
            Some(ConfigError::PaddleTooTall)
        } else {
            None
        }
    }

    fn make_paddle(&self, owner: Player) -> (r: Paddle)
        requires
            self.error().is_none(),
        ensures
            r == self.paddle(owner),
            r.wf(self.arena()),
    {
        let lo = self.bottom + self.paddle_half_height;
        let hi = self.top - self.paddle_half_height;
        let y = if 0 < lo {
            lo
        } else if 0 > hi {
            hi
        } else {
            0
        };
        Paddle {
            owner,
            x: match owner {
                Player::PlayerOne => self.paddle_one_x,
                Player::PlayerTwo => self.paddle_two_x,
            },
            center_y: y,
            half_width: self.paddle_half_width,
            half_height: self.paddle_half_height,
            speed: self.paddle_speed,
        }
    }
}

/// The ball after a tick's movement and its wall and paddle checks, before
/// the goal check.
pub open spec fn resolved_ball(arena: Arena, one: Paddle, two: Paddle, b: Ball, dt_ms: u32) -> Ball {
    after_paddle(after_paddle(after_walls(b.integrated(dt_ms), arena), one), two)
}

/// The ball served after `scorer` scored: back at the origin with no bounce
/// in progress, heading toward the scorer's side along `(±SERVE_SCALE,
/// serve_y)` at the serve speed.
pub open spec fn respawned(b: Ball, scorer: Player, serve_y: i64, speed: u32) -> Ball {
    Ball {
        x: 0,
        y: 0,
        dir_x: match scorer {
            Player::PlayerOne => (-SERVE_SCALE) as i64,
            Player::PlayerTwo => SERVE_SCALE,
        },
        dir_y: serve_y,
        speed,
        half_size: b.half_size,
        in_collision_one: false,
        in_collision_two: false,
    }
}

/// One tick's input.
#[derive(Clone, Copy, Debug, PartialEq, Eq, Structural)]
pub struct Tick {
    pub one: Intent,
    pub two: Intent,
    pub dt_ms: u32,
    pub serve_y: i64,
}

/// A running match: the arena, both paddles, the ball and the score.
#[derive(Clone, Copy, Debug, PartialEq, Eq, Structural)]
pub struct Match {
    arena: Arena,
    paddle_one: Paddle,
    paddle_two: Paddle,
    ball: Ball,
    score: Score,
    serve_speed: u32,
}

impl Match {
    pub closed spec fn arena_state(&self) -> Arena {
        self.arena
    }

    pub closed spec fn paddle_one_state(&self) -> Paddle {
        self.paddle_one
    }

    pub closed spec fn paddle_two_state(&self) -> Paddle {
        self.paddle_two
    }

    pub closed spec fn ball_state(&self) -> Ball {
        self.ball
    }

    pub closed spec fn score_state(&self) -> Score {
        self.score
    }

    pub closed spec fn serve_speed_state(&self) -> u32 {
        self.serve_speed
    }

    pub closed spec fn wf(&self) -> bool {
        &&& self.arena.wf()
        &&& self.paddle_one.wf(self.arena)
        &&& self.paddle_one.owner == Player::PlayerOne
        &&& self.paddle_two.wf(self.arena)
        &&& self.paddle_two.owner == Player::PlayerTwo
        &&& self.ball.wf()
    }

    /// A tick of `dt_ms` keeps the ball's position in range and leaves room
    /// for one more point on either side.
    pub closed spec fn can_tick(&self, dt_ms: u32) -> bool {
        &&& self.ball.can_move(dt_ms)
        &&& self.score.player_one_points < u64::MAX
        &&& self.score.player_two_points < u64::MAX
    }

    /// The match at the start of play for `c`, with the given ball and score.
    pub closed spec fn started(c: Config, ball: Ball, score: Score) -> Match {
        Match {
            arena: c.arena(),
            paddle_one: c.paddle(Player::PlayerOne),
            paddle_two: c.paddle(Player::PlayerTwo),
            ball,
            score,
            serve_speed: c.ball_serve_speed,
        }
    }

    /// The match after the paddles moved and the ball moved and was checked
    /// against the walls and the paddles, with the score updated if the ball
    /// left the arena; the ball is not served yet.
    pub closed spec fn played(self, one: Intent, two: Intent, dt_ms: u32) -> Match {
        let p1 = self.paddle_one.moved(self.arena, one, dt_ms);
        let p2 = self.paddle_two.moved(self.arena, two, dt_ms);
        let b = resolved_ball(self.arena, p1, p2, self.ball, dt_ms);
        Match {
            paddle_one: p1,
            paddle_two: p2,
            ball: b,
            score: match scorer(b, self.arena) {
                Some(s) => self.score.scored(s),
                None => self.score,
            },
            ..self
        }
    }

    /// The match after one full tick: the ball is served again when a goal
    /// was scored, with vertical direction `serve_y`.
    pub closed spec fn ticked(self, one: Intent, two: Intent, dt_ms: u32, serve_y: i64) -> Match {
        let m = self.played(one, two, dt_ms);
        match scorer(m.ball, self.arena) {
            Some(s) => Match { ball: respawned(m.ball, s, serve_y, self.serve_speed), ..m },
            None => m,
        }
    }

    /// The match after the given ticks, in order.
    pub closed spec fn replayed(self, ticks: Seq<Tick>) -> Match
        decreases ticks.len(),
    {
        if ticks.len() == 0 {
            self
        } else {
            self.ticked(ticks[0].one, ticks[0].two, ticks[0].dt_ms, ticks[0].serve_y).replayed(
                ticks.drop_first(),
            )
        }
    }

    fn start(config: &Config, ball: Ball, score: Score) -> (r: Result<Match, ConfigError>)
        ensures
            match r {
                Ok(m) => config.error().is_none() && ball.wf() && m == Match::started(*config, ball, score) && m.wf(),
                Err(e) => config.error() == Some(e) || (config.error().is_none() && !ball.wf()
                    && e == ConfigError::InvalidBall),
            },
    {
        match config.check() {
            Some(e) => Err(e),
            None => {
                if !ball.is_valid() {
                    Err(ConfigError::InvalidBall)
                } else {
                    Ok(
                        Match {
                            arena: Arena {
                                top: config.top,
                                bottom: config.bottom,
                                left: config.left,
                                right: config.right,
                            },
                            paddle_one: config.make_paddle(Player::PlayerOne),
                            paddle_two: config.make_paddle(Player::PlayerTwo),
                            ball,
                            score,
                            serve_speed: config.ball_serve_speed,
                        },
                    )
                }
            },
        }
    }

    /// A new match for `config`: paddles centred, ball at the origin heading
    /// along `(1, 1)` at the serve speed, no points.
    pub fn new(config: &Config) -> (r: Result<Match, ConfigError>)
        ensures
            match r {
                Ok(m) => {
                    &&& config.error().is_none()
                    &&& m.wf()
                    &&& m == Match::started(
                        *config,
                        config.first_ball(),
                        Score { player_one_points: 0, player_two_points: 0 },
                    )
                    &&& m.arena_state() == config.arena()
                    &&& m.paddle_one_state() == config.paddle(Player::PlayerOne)
                    &&& m.paddle_two_state() == config.paddle(Player::PlayerTwo)
                    &&& m.ball_state() == config.first_ball()
                    &&& m.score_state() == (Score { player_one_points: 0, player_two_points: 0 })
                    &&& m.serve_speed_state() == config.ball_serve_speed
                },
                Err(e) => config.error() == Some(e),
            },
    {
        let ball = Ball {
            x: 0,
            y: 0,
            dir_x: 1,
            dir_y: 1,
            speed: config.ball_serve_speed,
            half_size: config.ball_half_size,
            in_collision_one: false,
            in_collision_two: false,
        };
        Match::start(config, ball, Score { player_one_points: 0, player_two_points: 0 })
    }

    /// A match for `config` with paddles centred and the given ball and score,
    /// as when play resumes from a saved position.
    pub fn resume(config: &Config, ball: Ball, score: Score) -> (r: Result<Match, ConfigError>)
        ensures
            match r {
                Ok(m) => {
                    &&& config.error().is_none()
                    &&& ball.wf()
                    &&& m.wf()
                    &&& m == Match::started(*config, ball, score)
                    &&& m.arena_state() == config.arena()
                    &&& m.paddle_one_state() == config.paddle(Player::PlayerOne)
                    &&& m.paddle_two_state() == config.paddle(Player::PlayerTwo)
                    &&& m.ball_state() == ball
                    &&& m.score_state() == score
                    &&& m.serve_speed_state() == config.ball_serve_speed
                },
                Err(e) => if config.error().is_some() {
                    config.error() == Some(e)
                } else {
                    !ball.wf() && e == ConfigError::InvalidBall
                },
            },
    {
        Match::start(config, ball, score)
    }

    pub fn arena(&self) -> (r: Arena)
        ensures
            r == self.arena_state(),
    {
        self.arena
    }

    pub fn paddle_one(&self) -> (r: Paddle)
        ensures
            r == self.paddle_one_state(),
    {
        self.paddle_one
    }

    pub fn paddle_two(&self) -> (r: Paddle)
        ensures
            r == self.paddle_two_state(),
    {
        self.paddle_two
    }

    pub fn ball(&self) -> (r: Ball)
        ensures
            r == self.ball_state(),
    {
        self.ball
    }

    pub fn score(&self) -> (r: Score)
        ensures
            r == self.score_state(),
    {
        self.score
    }

    /// Whether a tick of `dt_ms` may be played: the ball's next position fits
    /// and neither score is at its maximum.
    pub fn can_advance(&self, dt_ms: u32) -> (r: bool)
        requires
            self.wf(),
        ensures
            r == self.can_tick(dt_ms),
    {
        self.ball.can_integrate(dt_ms) && self.score.player_one_points < u64::MAX
            && self.score.player_two_points < u64::MAX
    }

    /// Plays one tick up to and including the goal check and the score, and
    /// reports who scored. The ball is left where it ended.
    fn play(&mut self, one: Intent, two: Intent, dt_ms: u32) -> (r: Option<Player>)
        requires
            old(self).wf(),
            old(self).can_tick(dt_ms),
        ensures
            *final(self) == old(self).played(one, two, dt_ms),
            r == scorer(final(self).ball, final(self).arena),
            final(self).wf(),
    {
        let arena = self.arena;
        self.paddle_one.apply_intent(&arena, one, dt_ms);
        self.paddle_two.apply_intent(&arena, two, dt_ms);
        self.ball.integrate(dt_ms);
        resolve_walls(&mut self.ball, &arena);
        let p1 = self.paddle_one;
        let p2 = self.paddle_two;
        resolve_paddle(&mut self.ball, &p1);
        resolve_paddle(&mut self.ball, &p2);
        let goal = detect_goal(&self.ball, &arena);
        match goal {
            Some(s) => self.score.score_for(s),
            None => {},
        }
        goal
    }

    /// Puts the ball back at the origin after `scorer` scored.
    fn serve(&mut self, scorer: Player, serve_y: i64)
        requires
            old(self).wf(),
            -SERVE_SCALE <= serve_y < SERVE_SCALE,
        ensures
            *final(self) == (Match {
                ball: respawned(old(self).ball, scorer, serve_y, old(self).serve_speed),
                ..*old(self)
            }),
            final(self).wf(),
    {
        self.ball = Ball {
            x: 0,
            y: 0,
            dir_x: match scorer {
                Player::PlayerOne => -SERVE_SCALE,
                Player::PlayerTwo => SERVE_SCALE,
            },
            dir_y: serve_y,
            speed: self.serve_speed,
            half_size: self.ball.half_size,
            in_collision_one: false,
            in_collision_two: false,
        };
    }

    /// Plays one tick of `dt_ms` milliseconds: moves both paddles, moves the
    /// ball, reflects it off the walls and the paddles, and on a goal scores
    /// it and serves the ball with vertical direction `serve_y`.
    pub fn advance(&mut self, one: Intent, two: Intent, dt_ms: u32, serve_y: i64)
        requires
            old(self).wf(),
            old(self).can_tick(dt_ms),
            -SERVE_SCALE <= serve_y < SERVE_SCALE,
        ensures
            *final(self) == old(self).ticked(one, two, dt_ms, serve_y),
            final(self).wf(),
    {
        let goal = self.play(one, two, dt_ms);
        match goal {
            Some(s) => self.serve(s, serve_y),
            None => {},
        }
    }

    /// Plays one tick like `advance`, drawing the serve direction from `rng`
    /// only when a goal is scored.
    pub fn advance_with_rng(&mut self, one: Intent, two: Intent, dt_ms: u32, rng: &mut StdRng)
        requires
            old(self).wf(),
            old(self).can_tick(dt_ms),
        ensures
            exists|y: i64|
                -SERVE_SCALE <= y < SERVE_SCALE && *final(self) == old(self).ticked(
                    one,
                    two,
                    dt_ms,
                    y,
                ),
            final(self).wf(),
    {
        let goal = self.play(one, two, dt_ms);
        match goal {
            Some(s) => {
                let y = draw_in_range(rng, -SERVE_SCALE, SERVE_SCALE);
                self.serve(s, y);
                assert(*self == old(self).ticked(one, two, dt_ms, y));
            },
            None => {
                assert(*self == old(self).ticked(one, two, dt_ms, 0));
            },
        }
    }
}

/// In this tick the moved ball `b` meets neither wall, bounces off neither
/// paddle and stays between the goal lines.
pub open spec fn quiet(arena: Arena, one: Paddle, two: Paddle, b: Ball) -> bool {
    &&& arena.bottom <= b.y <= arena.top
    &&& !(touches_x(b, one) && same_height(b, one) && !b.collision_flag(one.owner))
    &&& !(touches_x(b, two) && same_height(b, two) && !b.collision_flag(two.owner))
    &&& arena.left <= b.x <= arena.right
}

/// In a tick without a bounce or a goal the ball moves by exactly its
/// direction, scaled to unit length, times its speed and the time step, and
/// its direction and speed do not change.
pub proof fn lemma_free_flight(m: Match, one: Intent, two: Intent, dt_ms: u32, serve_y: i64)
    requires
        m.wf(),
        m.can_tick(dt_ms),
        quiet(
            m.arena_state(),
            m.paddle_one_state().moved(m.arena_state(), one, dt_ms),
            m.paddle_two_state().moved(m.arena_state(), two, dt_ms),
            m.ball_state().integrated(dt_ms),
        ),
    ensures
        m.ticked(one, two, dt_ms, serve_y).ball_state().x == m.ball_state().next_x(dt_ms),
        m.ticked(one, two, dt_ms, serve_y).ball_state().y == m.ball_state().next_y(dt_ms),
        m.ticked(one, two, dt_ms, serve_y).ball_state().dir_x == m.ball_state().dir_x,
        m.ticked(one, two, dt_ms, serve_y).ball_state().dir_y == m.ball_state().dir_y,
        m.ticked(one, two, dt_ms, serve_y).ball_state().speed == m.ball_state().speed,
        m.ticked(one, two, dt_ms, serve_y).score_state() == m.score_state(),
{
}

/// A ball that ends a tick left of the arena gives the second player exactly
/// one point, the first player none, and is served again from the origin.
pub proof fn lemma_goal_on_left(m: Match, one: Intent, two: Intent, dt_ms: u32, serve_y: i64)
    requires
        m.wf(),
        m.can_tick(dt_ms),
        resolved_ball(
            m.arena_state(),
            m.paddle_one_state().moved(m.arena_state(), one, dt_ms),
            m.paddle_two_state().moved(m.arena_state(), two, dt_ms),
            m.ball_state(),
            dt_ms,
        ).x < m.arena_state().left,
    ensures
        m.ticked(one, two, dt_ms, serve_y).score_state().player_two_points == m.score_state().player_two_points + 1,
        m.ticked(one, two, dt_ms, serve_y).score_state().player_one_points == m.score_state().player_one_points,
        m.ticked(one, two, dt_ms, serve_y).ball_state().x == 0,
        m.ticked(one, two, dt_ms, serve_y).ball_state().y == 0,
{
}

/// A ball that ends a tick right of the arena gives the first player exactly
/// one point, the second player none, and is served again from the origin.
pub proof fn lemma_goal_on_right(m: Match, one: Intent, two: Intent, dt_ms: u32, serve_y: i64)
    requires
        m.wf(),
        m.can_tick(dt_ms),
        resolved_ball(
            m.arena_state(),
            m.paddle_one_state().moved(m.arena_state(), one, dt_ms),
            m.paddle_two_state().moved(m.arena_state(), two, dt_ms),
            m.ball_state(),
            dt_ms,
        ).x > m.arena_state().right,
    ensures
        m.ticked(one, two, dt_ms, serve_y).score_state().player_one_points == m.score_state().player_one_points + 1,
        m.ticked(one, two, dt_ms, serve_y).score_state().player_two_points == m.score_state().player_two_points,
        m.ticked(one, two, dt_ms, serve_y).ball_state().x == 0,
        m.ticked(one, two, dt_ms, serve_y).ball_state().y == 0,
{
}

/// Two matches in the same state that receive the same ticks, serve
/// directions included, pass through the same states and end with the same
/// score.
pub proof fn lemma_replay_deterministic(m1: Match, m2: Match, ticks: Seq<Tick>)
    requires
        m1 == m2,
    ensures
        m1.replayed(ticks) == m2.replayed(ticks),
        forall|i: int|
            0 <= i <= ticks.len() ==> #[trigger] m1.replayed(ticks.take(i)) == m2.replayed(ticks.take(i)),
{
}

/// A match started from a configuration has the configuration's arena and
/// paddles, the given ball and score, and the configuration's serve speed.
pub proof fn lemma_started_parts(c: Config, ball: Ball, score: Score)
    ensures
        Match::started(c, ball, score).arena_state() == c.arena(),
        Match::started(c, ball, score).paddle_one_state() == c.paddle(Player::PlayerOne),
        Match::started(c, ball, score).paddle_two_state() == c.paddle(Player::PlayerTwo),
        Match::started(c, ball, score).ball_state() == ball,
        Match::started(c, ball, score).score_state() == score,
        Match::started(c, ball, score).serve_speed_state() == c.ball_serve_speed,
{
}

/// One tick, part by part: the arena and serve speed stay; each paddle moves
/// by its intent; the ball is moved and checked against the walls and the
/// paddles; if it then lies beyond a goal line the scorer gains a point and
/// the ball is served from the origin toward the scorer's side along
/// `(±SERVE_SCALE, serve_y)` at the serve speed, and otherwise it stays as
/// resolved with the score unchanged.
pub proof fn lemma_ticked_parts(m: Match, one: Intent, two: Intent, dt_ms: u32, serve_y: i64)
    ensures
        ({
            let t = m.ticked(one, two, dt_ms, serve_y);
            let arena = m.arena_state();
            let p1 = m.paddle_one_state().moved(arena, one, dt_ms);
            let p2 = m.paddle_two_state().moved(arena, two, dt_ms);
            let b = resolved_ball(arena, p1, p2, m.ball_state(), dt_ms);
            &&& t.arena_state() == arena
            &&& t.serve_speed_state() == m.serve_speed_state()
            &&& t.paddle_one_state() == p1
            &&& t.paddle_two_state() == p2
            &&& t.ball_state() == match scorer(b, arena) {
                Some(s) => respawned(b, s, serve_y, m.serve_speed_state()),
                None => b,
            }
            &&& t.score_state() == match scorer(b, arena) {
                Some(s) => m.score_state().scored(s),
                None => m.score_state(),
            }
        }),
{
}

/// Each tick adds exactly one point to the two scores together when the ball
/// ends it beyond a goal line, and none otherwise.
pub proof fn lemma_one_point_per_goal(m: Match, one: Intent, two: Intent, dt_ms: u32, serve_y: i64)
    requires
        m.wf(),
        m.can_tick(dt_ms),
    ensures
        ({
            let t = m.ticked(one, two, dt_ms, serve_y);
            let arena = m.arena_state();
            let b = resolved_ball(
                arena,
                m.paddle_one_state().moved(arena, one, dt_ms),
                m.paddle_two_state().moved(arena, two, dt_ms),
                m.ball_state(),
                dt_ms,
            );
            t.score_state().player_one_points + t.score_state().player_two_points
                == m.score_state().player_one_points + m.score_state().player_two_points + if scorer(
                b,
                arena,
            ).is_some() {
                1int
            } else {
                0int
            }
        }),
{
}

} // verus!
