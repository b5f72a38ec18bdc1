use vstd::prelude::*;
use crate::ball::{lemma_fly_bounds, Ball};
use crate::config::{
    spec_clamp, spec_max, spec_min, Config, DIR_SCALE, MAX_DIM, MAX_DT, MAX_STEP,
};
use crate::geom::Rect;
use crate::racket::Racket;
use crate::rng::Rng;
use crate::side::Side;

verus! {

/// An abstract intent handed to the tick; an input collaborator outside this
/// crate maps raw key and touch events onto these.
#[derive(Clone, Copy, Debug, PartialEq, Eq, Structural)]
pub enum Input {
    /// Move the named side's racket up during this tick.
    Up(Side),
    /// Move the named side's racket down during this tick.
    Down(Side),
    /// Leave the game.
    Quit,
    /// A raw event with no meaning here; tolerated and ignored.
    Unknown,
}

/// What the match is doing this tick. `WallBounce`, `RacketBounce` and
/// `Point` each last exactly one tick, so a collaborator that watches the
/// state sees every cue exactly once.
#[derive(Clone, Copy, Debug, PartialEq, Eq, Structural)]
pub enum PongState {
    /// A serve is due; the named side conceded the last point.
    NewRound(Side),
    /// The ball is live.
    Playing,
    /// The ball just rebounded off the top or bottom wall.
    WallBounce,
    /// The ball just rebounded off a racket.
    RacketBounce,
    /// The named side just scored.
    Point(Side),
    /// The named side won, at the recorded match clock.
    Winner(Side, i64),
    /// The match is over and the host loop should stop; terminal.
    Exit,
}

/// The whole match: both rackets, the ball, the scores, the current state,
/// the accumulated match clock, and the serve-direction generator. An
/// explicit value, so several matches can run independently.
#[derive(Clone, Copy, Debug, PartialEq, Eq, Structural)]
pub struct Pong {
    pub cfg: Config,
    pub left: Racket,
    pub right: Racket,
    pub ball: Ball,
    pub score_left: u32,
    pub score_right: u32,
    pub state: PongState,
    /// Time-units accumulated over all ticks so far.
    pub now: i64,
    pub rng: Rng,
}

/// Whether the intent occurs anywhere in the tick's set. Duplicates add
/// nothing; conflicting intents are both applied and cancel.
pub open spec fn has_input(inputs: Seq<Input>, target: Input) -> bool {
    exists|i: int| 0 <= i < inputs.len() && inputs[i] == target
}

/// The match clock after a tick of `dt`, saturating rather than wrapping.
pub open spec fn spec_advance_now(now: i64, dt: i64) -> i64 {
    if now + dt <= i64::MAX {
        (now + dt) as i64
    } else {
        i64::MAX
    }
}

/// Net vertical velocity the tick's intents give a side's racket: down and up
/// are applied together, so a conflicting pair cancels out.
pub open spec fn spec_net_velocity(cfg: Config, inputs: Seq<Input>, side: Side) -> int {
    (if has_input(inputs, Input::Down(side)) {
        cfg.racket_speed as int
    } else {
        0
    }) - (if has_input(inputs, Input::Up(side)) {
        cfg.racket_speed as int
    } else {
        0
    })
}

/// The states in which the ball is live on the court.
pub open spec fn spec_playing_state(s: PongState) -> bool {
    s is Playing || s is WallBounce || s is RacketBounce
}

/// The thin contact slab flush with the left racket's inner (right) edge.
/// Testing this slab instead of the full racket keeps a ball that overlaps
/// the racket from rebounding twice off it.
pub open spec fn spec_left_slab(cfg: Config, r: Racket) -> Rect {
    Rect {
        x: (r.x + cfg.racket_w - cfg.slab_half) as i64,
        y: r.y,
        w: (2 * cfg.slab_half) as i64,
        h: cfg.racket_h,
    }
}

/// The thin contact slab flush with the right racket's inner (left) edge.
pub open spec fn spec_right_slab(cfg: Config, r: Racket) -> Rect {
    Rect { x: (r.x - cfg.slab_half) as i64, y: r.y, w: (2 * cfg.slab_half) as i64, h: cfg.racket_h }
}

/// The ball's bounding square.
pub open spec fn spec_ball_rect(cfg: Config, b: Ball) -> Rect {
    Rect { x: b.x, y: b.y, w: cfg.ball_size, h: cfg.ball_size }
}

/// The scaled vertical direction a racket strike gives the ball. `offset2` is
/// twice the contact point's offset from the racket's center, so a center
/// strike gives 0 (a horizontal exit) and a strike at the very edge,
/// `offset2 == racket_h`, gives the full `DIR_SCALE` (the steepest rebound).
pub open spec fn spec_rebound_dir(offset2: int, racket_h: int) -> int {
    if offset2 >= 0 {
        offset2 * DIR_SCALE / racket_h
    } else {
        -((-offset2) * DIR_SCALE / racket_h)
    }
}

/// The ball after rebounding off a racket's slab: position and speed kept,
/// horizontal direction forced away from the racket, vertical direction
/// proportional to where on the slab the ball struck.
pub open spec fn spec_rebound(cfg: Config, racket: Racket, b: Ball, off_left: bool) -> Ball {
    let slab = if off_left {
        spec_left_slab(cfg, racket)
    } else {
        spec_right_slab(cfg, racket)
    };
    let rect = spec_ball_rect(cfg, b);
    let top = spec_max(slab.y as int, rect.y as int);
    let bottom = spec_min(slab.y + slab.h, rect.y + rect.h);
    let offset2 = top + bottom - (2 * racket.y + cfg.racket_h);
    Ball {
        dir_x: if off_left {
            1i64
        } else {
            -1i64
        },
        dir_y: spec_rebound_dir(offset2, cfg.racket_h as int) as i64,
        ..b
    }
}

/// Collision resolution for a ball that just flew: scoring is tested first,
/// then the walls, then the racket slabs, so a ball that left the court is
/// never also rebounded in the same tick. A slab is only tested when the
/// ball moves toward it. The second component is the state the match enters:
/// `Playing` where nothing was hit.
pub open spec fn spec_resolve(cfg: Config, left: Racket, right: Racket, b: Ball) -> (
    Ball,
    PongState,
) {
    if b.x < 0 {
        (b, PongState::Point(Side::Right))
    } else if b.x + cfg.ball_size > cfg.court_w {
        (b, PongState::Point(Side::Left))
    } else if b.y < 0 {
        (
            (Ball {
                y: 0,
                dir_y: if b.dir_y >= 0 {
                    b.dir_y
                } else {
                    (-b.dir_y) as i64
                },
                ..b
            }),
            PongState::WallBounce,
        )
    } else if b.y + cfg.ball_size > cfg.court_h {
        (
            (Ball {
                y: (cfg.court_h - cfg.ball_size) as i64,
                dir_y: if b.dir_y >= 0 {
                    (-b.dir_y) as i64
                } else {
                    b.dir_y
                },
                ..b
            }),
            PongState::WallBounce,
        )
    } else {
        let rect = spec_ball_rect(cfg, b);
        let hit_left = b.dir_x == -1 && spec_left_slab(cfg, left).spec_overlaps(rect);
        let b1 = if hit_left {
            spec_rebound(cfg, left, b, true)
        } else {
            b
        };
        let hit_right = b1.dir_x == 1 && spec_right_slab(cfg, right).spec_overlaps(
            spec_ball_rect(cfg, b1),
        );
        let b2 = if hit_right {
            spec_rebound(cfg, right, b1, false)
        } else {
            b1
        };
        if hit_left || hit_right {
            (b2, PongState::RacketBounce)
        } else {
            (b2, PongState::Playing)
        }
    }
}

/// A fresh match body: rackets centered, scores zeroed, a kickoff ball drawn
/// from `rng`, state `Playing`. The clock and the generator continue.
pub open spec fn spec_fresh(cfg: Config, rng: Rng, now: i64) -> Pong {
    let (ball, rng2) = Ball::spec_new(cfg, None, rng);
    Pong {
        cfg,
        left: Racket::spec_new(cfg, Side::Left),
        right: Racket::spec_new(cfg, Side::Right),
        ball,
        score_left: 0,
        score_right: 0,
        state: PongState::Playing,
        now,
        rng: rng2,
    }
}

/// The match a construction with this configuration and seed yields.
pub open spec fn spec_init(cfg: Config, seed: u64) -> Pong {
    spec_fresh(cfg, Rng { state: seed }, 0)
}

/// The tick of the `Playing` state: intents move the rackets, the rackets are
/// clamped onto their tracks, the ball integrates one step, and collisions
/// are resolved.
pub open spec fn spec_play(p: Pong, dt: i64, inputs: Seq<Input>) -> Pong {
    let cfg = p.cfg;
    let hi = cfg.court_h - cfg.racket_h;
    let lv = spec_net_velocity(cfg, inputs, Side::Left);
    let rv = spec_net_velocity(cfg, inputs, Side::Right);
    let left2 = Racket { y: spec_clamp(p.left.y + lv * dt, 0, hi) as i64, ..p.left };
    let right2 = Racket { y: spec_clamp(p.right.y + rv * dt, 0, hi) as i64, ..p.right };
    let flown = p.ball.spec_fly(cfg, dt);
    let (ball2, state2) = spec_resolve(cfg, left2, right2, flown);
    Pong { left: left2, right: right2, ball: ball2, state: state2, ..p }
}

/// The tick of the `Point` state: the scorer's score rises by exactly one;
/// reaching the winning score ends the match, anything less starts a new
/// round with the scorer's opponent conceding the serve.
pub open spec fn spec_score_tick(p: Pong, scorer: Side) -> Pong {
    let nl = if scorer == Side::Left {
        p.score_left + 1
    } else {
        p.score_left as int
    };
    let nr = if scorer == Side::Right {
        p.score_right + 1
    } else {
        p.score_right as int
    };
    let reached = if scorer == Side::Left {
        nl
    } else {
        nr
    };
    Pong {
        score_left: nl as u32,
        score_right: nr as u32,
        state: if reached >= p.cfg.win_score {
            PongState::Winner(scorer, p.now)
        } else {
            PongState::NewRound(scorer.spec_toggle())
        },
        ..p
    }
}

/// One tick of the whole match: a total function of the previous match
/// value, the elapsed time and the tick's intents. A quit intent, observed
/// in any state, preempts everything else and yields `Exit`.
pub open spec fn spec_tick(p: Pong, dt: i64, inputs: Seq<Input>) -> Pong {
    let p1 = Pong { now: spec_advance_now(p.now, dt), ..p };
    if has_input(inputs, Input::Quit) {
        Pong { state: PongState::Exit, ..p1 }
    } else {
        match p1.state {
            PongState::NewRound(side) => {
                let (ball, rng2) = Ball::spec_new(p1.cfg, Some(side), p1.rng);
                Pong { ball, rng: rng2, state: PongState::Playing, ..p1 }
            },
            PongState::Playing => spec_play(p1, dt, inputs),
            PongState::WallBounce => Pong { state: PongState::Playing, ..p1 },
            PongState::RacketBounce => Pong { state: PongState::Playing, ..p1 },
            PongState::Point(side) => spec_score_tick(p1, side),
            PongState::Winner(side, at) => {
                if p1.now - at > p1.cfg.winner_hold && inputs.len() > 0 {
                    spec_fresh(p1.cfg, p1.rng, p1.now)
                } else {
                    p1
                }
            },
            PongState::Exit => p1,
        }
    }
}

/// Whether the intent occurs in the tick's set.
pub fn contains_input(inputs: &Vec<Input>, target: Input) -> (r: bool)
    ensures
        r == has_input(inputs@, target),
{
    let mut i: usize = 0;
    while i < inputs.len()
        invariant
            0 <= i <= inputs.len(),
            forall|j: int| 0 <= j < i ==> inputs@[j] != target,
        decreases inputs.len() - i,
    {
        if inputs[i] == target {
            return true;
        }
        i += 1;
    }
    false
}

/// The scaled vertical direction of a racket strike at `offset2`.
fn rebound_dir(offset2: i64, racket_h: i64) -> (d: i64)
    requires
        0 < racket_h <= MAX_DIM,
        -4 * MAX_DIM <= offset2 <= 4 * MAX_DIM,
    ensures
        d == spec_rebound_dir(offset2 as int, racket_h as int),
{
    if offset2 >= 0 {
        proof {
            assert((offset2 as int) * (DIR_SCALE as int) <= 4 * MAX_DIM * DIR_SCALE)
                by (nonlinear_arith)
                requires
                    0 <= offset2 <= 4 * MAX_DIM,
            ;
        }
        (((offset2 as u64) * (DIR_SCALE as u64)) / (racket_h as u64)) as i64
    } else {
        let mag: i64 = -offset2;
        proof {
            assert((mag as int) * (DIR_SCALE as int) <= 4 * MAX_DIM * DIR_SCALE)
                by (nonlinear_arith)
                requires
                    0 <= mag <= 4 * MAX_DIM,
            ;
        }
        let scaled: i64 = (((mag as u64) * (DIR_SCALE as u64)) / (racket_h as u64)) as i64;
        -scaled
    }
}

impl Pong {
    /// The score of one side.
    pub open spec fn spec_score(self, side: Side) -> u32 {
        if side == Side::Left {
            self.score_left
        } else {
            self.score_right
        }
    }

    /// Everything the tick preserves: a valid configuration, each racket on
    /// its own side's track, a well-formed ball that never strays more than
    /// one tick's flight from the court (and is inside it whenever it is
    /// live), scores that never pass the winning score and are below it
    /// while play goes on, and a winner whose score froze at the winning
    /// score when the clock recorded the win.
    pub open spec fn wf(self) -> bool {
        &&& self.cfg.wf()
        &&& self.left.side == Side::Left
        &&& self.right.side == Side::Right
        &&& self.left.wf(self.cfg)
        &&& self.right.wf(self.cfg)
        &&& self.ball.wf(self.cfg)
        &&& self.ball.near_court(self.cfg)
        &&& self.score_left <= self.cfg.win_score
        &&& self.score_right <= self.cfg.win_score
        &&& 0 <= self.now
        &&& (spec_playing_state(self.state) ==> self.ball.in_court(self.cfg))
        &&& match self.state {
            PongState::NewRound(_) | PongState::Playing | PongState::WallBounce
                | PongState::RacketBounce | PongState::Point(_) => {
                &&& self.score_left < self.cfg.win_score
                &&& self.score_right < self.cfg.win_score
            },
            PongState::Winner(side, at) => {
                &&& 0 <= at <= self.now
                &&& self.spec_score(side) == self.cfg.win_score
            },
            PongState::Exit => true,
        }
    }

    /// Builds a match: rackets centered, scores zero, a kickoff ball whose
    /// directions are drawn from the seeded generator, state `Playing`.
    pub fn new(cfg: &Config, seed: u64) -> (p: Pong)
        requires
            cfg.wf(),
        ensures
            p == spec_init(*cfg, seed),
            p.wf(),
    {
        let mut rng = Rng::new(seed);
        let ball = Ball::new(cfg, None, &mut rng);
        Pong {
            cfg: *cfg,
            left: Racket::new(cfg, Side::Left),
            right: Racket::new(cfg, Side::Right),
            ball,
            score_left: 0,
            score_right: 0,
            state: PongState::Playing,
            now: 0,
            rng,
        }
    }

    /// Starts the match over: rackets re-centered, ball respawned, scores
    /// zeroed, state `Playing`. The clock and the generator carry on.
    pub fn reset(&mut self)
        requires
            old(self).cfg.wf(),
        ensures
            *final(self) == spec_fresh(old(self).cfg, old(self).rng, old(self).now),
            old(self).now >= 0 ==> final(self).wf(),
    {
        self.left = Racket::new(&self.cfg, Side::Left);
        self.right = Racket::new(&self.cfg, Side::Right);
        self.ball = Ball::new(&self.cfg, None, &mut self.rng);
        self.score_left = 0;
        self.score_right = 0;
        self.state = PongState::Playing;
    }

    /// Clamps both rackets back onto their vertical tracks.
    pub fn update_racket_collisions(&mut self)
        requires
            old(self).cfg.wf(),
        ensures
            *final(self) == (Pong {
                left: (Racket {
                    y: spec_clamp(
                        old(self).left.y as int,
                        0,
                        old(self).cfg.court_h - old(self).cfg.racket_h,
                    ) as i64,
                    ..old(self).left
                }),
                right: (Racket {
                    y: spec_clamp(
                        old(self).right.y as int,
                        0,
                        old(self).cfg.court_h - old(self).cfg.racket_h,
                    ) as i64,
                    ..old(self).right
                }),
                ..*old(self)
            }),
    {
        self.left.clamp_y(&self.cfg);
        self.right.clamp_y(&self.cfg);
    }

    /// Resolves the flown ball against the court edges, the walls and the
    /// racket slabs, leaving every other part of the match alone.
    pub fn update_ball_collisions(&mut self)
        requires
            old(self).cfg.wf(),
            old(self).state == PongState::Playing,
            old(self).ball.wf(old(self).cfg),
            -2 * MAX_STEP <= old(self).ball.x <= old(self).cfg.court_w + 2 * MAX_STEP,
            -2 * MAX_STEP <= old(self).ball.y <= old(self).cfg.court_h + 2 * MAX_STEP,
            old(self).left.wf(old(self).cfg),
            old(self).right.wf(old(self).cfg),
        ensures
            *final(self) == ({
                let (ball2, state2) = spec_resolve(
                    old(self).cfg,
                    old(self).left,
                    old(self).right,
                    old(self).ball,
                );
                Pong { ball: ball2, state: state2, ..*old(self) }
            }),
    {
        if self.ball.x < 0 {
            self.state = PongState::Point(Side::Right);
            return;
        }
        if self.ball.x + self.cfg.ball_size > self.cfg.court_w {
            self.state = PongState::Point(Side::Left);
            return;
        }
        if self.ball.y < 0 {
            self.ball.y = 0;
            self.ball.dir_y = if self.ball.dir_y >= 0 {
                self.ball.dir_y
            } else {
                -self.ball.dir_y
            };
            self.state = PongState::WallBounce;
            return;
        }
        if self.ball.y + self.cfg.ball_size > self.cfg.court_h {
            self.ball.y = self.cfg.court_h - self.cfg.ball_size;
            self.ball.dir_y = if self.ball.dir_y >= 0 {
                -self.ball.dir_y
            } else {
                self.ball.dir_y
            };
            self.state = PongState::WallBounce;
            return;
        }
        let ball_rect = Rect { x: self.ball.x, y: self.ball.y, w: self.cfg.ball_size, h: self.cfg.ball_size };
        if self.ball.dir_x < 0 {
            let slab = Rect {
                x: self.left.x + self.cfg.racket_w - self.cfg.slab_half,
                y: self.left.y,
                w: 2 * self.cfg.slab_half,
                h: self.cfg.racket_h,
            };
            if let Some(contact) = slab.intersect(ball_rect) {
                self.ball.dir_x = 1;
                self.ball.dir_y = rebound_dir(
                    2 * contact.y + contact.h - (2 * self.left.y + self.cfg.racket_h),
                    self.cfg.racket_h,
                );
                self.state = PongState::RacketBounce;
            }
        }
        if self.ball.dir_x > 0 {
            let slab = Rect {
                x: self.right.x - self.cfg.slab_half,
                y: self.right.y,
                w: 2 * self.cfg.slab_half,
                h: self.cfg.racket_h,
            };
            if let Some(contact) = slab.intersect(ball_rect) {
                self.ball.dir_x = -1;
                self.ball.dir_y = rebound_dir(
                    2 * contact.y + contact.h - (2 * self.right.y + self.cfg.racket_h),
                    self.cfg.racket_h,
                );
                self.state = PongState::RacketBounce;
            }
        }
    }

    /// Scores a point for `scorer` and decides what follows: a win at the
    /// winning score, a new round (served toward the scorer) below it.
    pub fn update_score(&mut self, scorer: Side)
        requires
            old(self).cfg.wf(),
            old(self).score_left < old(self).cfg.win_score,
            old(self).score_right < old(self).cfg.win_score,
        ensures
            *final(self) == spec_score_tick(*old(self), scorer),
    {
        match scorer {
            Side::Left => {
                self.score_left = self.score_left + 1;
                self.state = if self.score_left >= self.cfg.win_score {
                    PongState::Winner(Side::Left, self.now)
                } else {
                    PongState::NewRound(Side::Right)
                };
            },
            Side::Right => {
                self.score_right = self.score_right + 1;
                self.state = if self.score_right >= self.cfg.win_score {
                    PongState::Winner(Side::Right, self.now)
                } else {
                    PongState::NewRound(Side::Left)
                };
            },
        }
    }

    /// One tick of the match: advances the clock by `dt`, observes the
    /// intents, and runs the current state's behavior. The result is exactly
    /// `spec_tick` of the previous value, and every invariant of `wf` holds
    /// again afterwards — in particular, whenever the ball is live it sits
    /// inside the court in the snapshot a renderer reads.
    pub fn update(&mut self, dt: i64, inputs: &Vec<Input>)
        requires
            old(self).wf(),
            0 <= dt <= MAX_DT,
        ensures
            *final(self) == spec_tick(*old(self), dt, inputs@),
            final(self).wf(),
    {
        proof {
            lemma_tick_wf(*old(self), dt, inputs@);
        }
        if self.now <= i64::MAX - dt {
            self.now = self.now + dt;
        } else {
            self.now = i64::MAX;
        }
        if contains_input(inputs, Input::Quit) {
            self.state = PongState::Exit;
            return;
        }
        match self.state {
            PongState::NewRound(side) => {
                self.ball = Ball::new(&self.cfg, Some(side), &mut self.rng);
                self.state = PongState::Playing;
            },
            PongState::Playing => {
                let up_left = contains_input(inputs, Input::Up(Side::Left));
                let down_left = contains_input(inputs, Input::Down(Side::Left));
                let up_right = contains_input(inputs, Input::Up(Side::Right));
                let down_right = contains_input(inputs, Input::Down(Side::Right));
                let lv: i64 = (if down_left {
                    self.cfg.racket_speed
                } else {
                    0
                }) - (if up_left {
                    self.cfg.racket_speed
                } else {
                    0
                });
                let rv: i64 = (if down_right {
                    self.cfg.racket_speed
                } else {
                    0
                }) - (if up_right {
                    self.cfg.racket_speed
                } else {
                    0
                });
                self.left.slide(lv, dt);
                self.right.slide(rv, dt);
                self.update_racket_collisions();
                self.ball.fly(&self.cfg, dt);
                proof {
                    lemma_fly_bounds(old(self).ball, old(self).cfg, dt);
                }
                self.update_ball_collisions();
            },
            PongState::WallBounce => {
                self.state = PongState::Playing;
            },
            PongState::RacketBounce => {
                self.state = PongState::Playing;
            },
            PongState::Point(side) => {
                self.update_score(side);
            },
            PongState::Winner(_, at) => {
                if self.now - at > self.cfg.winner_hold && inputs.len() > 0 {
                    self.reset();
                }
            },
            PongState::Exit => {},
        }
    }

    /// The current state, for collaborators that render or cue on it.
    pub fn state(&self) -> (s: PongState)
        ensures
            s == self.state,
    {
        self.state
    }
}

/// One tick keeps every invariant of `wf`.
pub proof fn lemma_tick_wf(p: Pong, dt: i64, inputs: Seq<Input>)
    requires
        p.wf(),
        0 <= dt <= MAX_DT,
    ensures
        spec_tick(p, dt, inputs).wf(),
{
    let p1 = Pong { now: spec_advance_now(p.now, dt), ..p };
    assert(p1.now >= p.now);
    if has_input(inputs, Input::Quit) {
    } else {
        match p1.state {
            PongState::NewRound(side) => {
                lemma_spawn_in_court(p1.cfg, Some(side), p1.rng);
            },
            PongState::Playing => {
                lemma_play_wf(p1, dt, inputs);
            },
            PongState::Winner(_, at) => {
                if p1.now - at > p1.cfg.winner_hold && inputs.len() > 0 {
                    lemma_spawn_in_court(p1.cfg, None, p1.rng);
                    lemma_center_div(p1.cfg.court_h - p1.cfg.racket_h);
                }
            },
            _ => {},
        }
    }
}

/// A spawned ball is well-formed and sits inside the court.
proof fn lemma_spawn_in_court(cfg: Config, conceding: Option<Side>, rng: Rng)
    requires
        cfg.wf(),
    ensures
        ({
            let (b, _) = Ball::spec_new(cfg, conceding, rng);
            &&& b.wf(cfg)
            &&& b.in_court(cfg)
        }),
{
    lemma_center_div(cfg.court_w - cfg.ball_size);
    lemma_center_div(cfg.court_h - cfg.ball_size);
}

/// Halving a nonnegative span keeps it nonnegative and no larger.
proof fn lemma_center_div(d: int)
    requires
        0 <= d,
    ensures
        0 <= d / 2 <= d,
{
    assert(0 <= d / 2 <= d) by (nonlinear_arith)
        requires
            0 <= d,
    ;
}

/// The rebound direction of a contact inside the slab never exceeds the
/// steepest direction.
proof fn lemma_rebound_dir_bounds(offset2: int, racket_h: int)
    requires
        0 < racket_h,
        -racket_h <= offset2 <= racket_h,
    ensures
        -DIR_SCALE <= spec_rebound_dir(offset2, racket_h) <= DIR_SCALE,
{
    if offset2 >= 0 {
        assert(0 <= offset2 * DIR_SCALE / racket_h <= DIR_SCALE) by (nonlinear_arith)
            requires
                0 < racket_h,
                0 <= offset2 <= racket_h,
        ;
    } else {
        assert(0 <= (-offset2) * DIR_SCALE / racket_h <= DIR_SCALE) by (nonlinear_arith)
            requires
                0 < racket_h,
                0 < -offset2 <= racket_h,
        ;
    }
}

/// A rebound keeps the ball well-formed and in place.
proof fn lemma_rebound_wf(cfg: Config, racket: Racket, b: Ball, off_left: bool)
    requires
        cfg.wf(),
        racket.wf(cfg),
        b.wf(cfg),
        ({
            let slab = if off_left {
                spec_left_slab(cfg, racket)
            } else {
                spec_right_slab(cfg, racket)
            };
            slab.spec_overlaps(spec_ball_rect(cfg, b))
        }),
    ensures
        ({
            let b2 = spec_rebound(cfg, racket, b, off_left);
            &&& b2.wf(cfg)
            &&& b2.x == b.x
            &&& b2.y == b.y
            &&& b2.speed == b.speed
        }),
{
    let slab = if off_left {
        spec_left_slab(cfg, racket)
    } else {
        spec_right_slab(cfg, racket)
    };
    let rect = spec_ball_rect(cfg, b);
    let top = spec_max(slab.y as int, rect.y as int);
    let bottom = spec_min(slab.y + slab.h, rect.y + rect.h);
    let offset2 = top + bottom - (2 * racket.y + cfg.racket_h);
    assert(-cfg.racket_h <= offset2 <= cfg.racket_h);
    lemma_rebound_dir_bounds(offset2, cfg.racket_h as int);
}

/// The `Playing` tick keeps every invariant of `wf`.
proof fn lemma_play_wf(p1: Pong, dt: i64, inputs: Seq<Input>)
    requires
        p1.wf(),
        p1.state is Playing,
        0 <= dt <= MAX_DT,
    ensures
        spec_play(p1, dt, inputs).wf(),
{
    let cfg = p1.cfg;
    let hi = cfg.court_h - cfg.racket_h;
    let lv = spec_net_velocity(cfg, inputs, Side::Left);
    let rv = spec_net_velocity(cfg, inputs, Side::Right);
    assert(-MAX_STEP <= lv * dt <= MAX_STEP) by (nonlinear_arith)
        requires
            -MAX_DIM <= lv <= MAX_DIM,
            0 <= dt <= MAX_DT,
    ;
    assert(-MAX_STEP <= rv * dt <= MAX_STEP) by (nonlinear_arith)
        requires
            -MAX_DIM <= rv <= MAX_DIM,
            0 <= dt <= MAX_DT,
    ;
    let left2 = Racket { y: spec_clamp(p1.left.y + lv * dt, 0, hi) as i64, ..p1.left };
    let right2 = Racket { y: spec_clamp(p1.right.y + rv * dt, 0, hi) as i64, ..p1.right };
    lemma_fly_bounds(p1.ball, cfg, dt);
    let flown = p1.ball.spec_fly(cfg, dt);
    let rect = spec_ball_rect(cfg, flown);
    if !(flown.x < 0) && !(flown.x + cfg.ball_size > cfg.court_w) && !(flown.y < 0) && !(flown.y
        + cfg.ball_size > cfg.court_h) {
        let hit_left = flown.dir_x == -1 && spec_left_slab(cfg, left2).spec_overlaps(rect);
        if hit_left {
            lemma_rebound_wf(cfg, left2, flown, true);
        }
        let b1 = if hit_left {
            spec_rebound(cfg, left2, flown, true)
        } else {
            flown
        };
        let hit_right = b1.dir_x == 1 && spec_right_slab(cfg, right2).spec_overlaps(
            spec_ball_rect(cfg, b1),
        );
        if hit_right {
            lemma_rebound_wf(cfg, right2, b1, false);
        }
    }
}

} // verus!
