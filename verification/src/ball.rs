use vstd::prelude::*;
use crate::config::{spec_min, Config, DIR_SCALE, MAX_DIM, MAX_DT, MAX_STEP, SPEED_CAP};
use crate::geom::GEOM_LIMIT;
use crate::rng::{lcg_bit, lcg_next, Rng};
use crate::side::Side;

verus! {

/// The ball: an integer position, a unit-ish direction (a horizontal sign and
/// a vertical component scaled by `DIR_SCALE`), and a scalar speed.
#[derive(Clone, Copy, Debug, PartialEq, Eq, Structural)]
pub struct Ball {
    /// Horizontal position (left edge).
    pub x: i64,
    /// Vertical position (top edge).
    pub y: i64,
    /// Horizontal direction: `1` flies right, `-1` flies left.
    pub dir_x: i64,
    /// Vertical direction, scaled: `DIR_SCALE` stands for 1, the steepest
    /// rebound; `0` for a horizontal flight. Positive flies down.
    pub dir_y: i64,
    /// Displacement per time-unit along the flight.
    pub speed: i64,
}

/// Vertical displacement of a flight of length `delta` whose scaled vertical
/// direction is `dir_y`: `dir_y / DIR_SCALE * delta`, rounded toward zero.
pub open spec fn spec_scaled_dy(dir_y: int, delta: int) -> int {
    if dir_y >= 0 {
        dir_y * delta / (DIR_SCALE as int)
    } else {
        -((-dir_y) * delta / (DIR_SCALE as int))
    }
}

impl Ball {
    /// Direction components in range and speed between zero and the cap.
    pub open spec fn wf(self, cfg: Config) -> bool {
        &&& self.dir_x == 1 || self.dir_x == -1
        &&& -DIR_SCALE <= self.dir_y <= DIR_SCALE
        &&& 0 <= self.speed <= SPEED_CAP
    }

    /// Entirely inside the court.
    pub open spec fn in_court(self, cfg: Config) -> bool {
        &&& 0 <= self.x <= cfg.court_w - cfg.ball_size
        &&& 0 <= self.y <= cfg.court_h - cfg.ball_size
    }

    /// Inside the court or at most one tick's flight away from it.
    pub open spec fn near_court(self, cfg: Config) -> bool {
        &&& -MAX_STEP <= self.x <= cfg.court_w + MAX_STEP
        &&& -MAX_STEP <= self.y <= cfg.court_h + MAX_STEP
    }

    /// A fresh ball at the court's center. `conceding` is the side that just
    /// lost the point, if any: the serve flies away from it, toward the side
    /// that scored. With no conceding side (a kickoff) the horizontal
    /// direction is drawn from the generator. The vertical direction is
    /// always drawn, at full magnitude.
    pub open spec fn spec_new(cfg: Config, conceding: Option<Side>, rng: Rng) -> (Ball, Rng) {
        let (dir_x, rng1): (int, Rng) = match conceding {
            Some(Side::Left) => (1int, rng),
            Some(Side::Right) => (-1int, rng),
            None => {
                let s1 = lcg_next(rng.state);
                ((if lcg_bit(s1) {
                    1int
                } else {
                    -1int
                }), Rng { state: s1 })
            },
        };
        let s2 = lcg_next(rng1.state);
        let dir_y: int = if lcg_bit(s2) {
            DIR_SCALE as int
        } else {
            -DIR_SCALE as int
        };
        (
            (Ball {
                x: ((cfg.court_w - cfg.ball_size) / 2) as i64,
                y: ((cfg.court_h - cfg.ball_size) / 2) as i64,
                dir_x: dir_x as i64,
                dir_y: dir_y as i64,
                speed: cfg.ball_speed,
            }),
            (Rng { state: s2 }),
        )
    }

    /// Spawns a ball for a new round, drawing directions from `rng`.
    pub fn new(cfg: &Config, conceding: Option<Side>, rng: &mut Rng) -> (b: Ball)
        requires
            cfg.wf(),
        ensures
            (b, *final(rng)) == Self::spec_new(*cfg, conceding, *old(rng)),
            b.wf(*cfg),
            b.in_court(*cfg),
    {
        let x: i64 = (((cfg.court_w - cfg.ball_size) as u64) / 2) as i64;
        let y: i64 = (((cfg.court_h - cfg.ball_size) as u64) / 2) as i64;
        let dir_x: i64 = match conceding {
            Some(Side::Left) => 1,
            Some(Side::Right) => -1,
            None => if rng.next_bit() {
                1
            } else {
                -1
            },
        };
        let dir_y: i64 = if rng.next_bit() {
            DIR_SCALE
        } else {
            -DIR_SCALE
        };
        Ball { x, y, dir_x, dir_y, speed: cfg.ball_speed }
    }

    /// Where one step of integration takes the ball: the position advances by
    /// `direction * speed * dt`, and the speed grows by `accel * dt` until it
    /// saturates at `SPEED_CAP` (the guard this implementation chose against
    /// unbounded growth in long rallies).
    pub open spec fn spec_fly(self, cfg: Config, dt: i64) -> Ball {
        let delta = self.speed * dt;
        Ball {
            x: (self.x + self.dir_x * delta) as i64,
            y: (self.y + spec_scaled_dy(self.dir_y as int, delta)) as i64,
            dir_x: self.dir_x,
            dir_y: self.dir_y,
            speed: spec_min(self.speed + cfg.ball_accel * dt, SPEED_CAP as int) as i64,
        }
    }

    /// Advances the ball by one step of integration.
    pub fn fly(&mut self, cfg: &Config, dt: i64)
        requires
            cfg.wf(),
            0 <= dt <= MAX_DT,
            old(self).wf(*cfg),
            -GEOM_LIMIT <= old(self).x <= GEOM_LIMIT,
            -GEOM_LIMIT <= old(self).y <= GEOM_LIMIT,
        ensures
            *final(self) == old(self).spec_fly(*cfg, dt),
    {
        let ghost sp: i64 = self.speed;
        let ghost dx: i64 = self.dir_x;
        proof {
            assert(0 <= sp * dt <= MAX_STEP) by (nonlinear_arith)
                requires
                    0 <= sp <= SPEED_CAP,
                    0 <= dt <= MAX_DT,
            ;
            assert(0 <= cfg.ball_accel * dt <= MAX_STEP) by (nonlinear_arith)
                requires
                    0 <= cfg.ball_accel <= MAX_DIM,
                    0 <= dt <= MAX_DT,
            ;
        }
        let delta: i64 = self.speed * dt;
        if self.dir_x >= 0 {
            proof {
                assert(dx * (sp * dt) == delta) by (nonlinear_arith)
                    requires
                        dx == 1,
                        delta == sp * dt,
                ;
            }
            self.x = self.x + delta;
        } else {
            proof {
                assert(dx * (sp * dt) == -delta) by (nonlinear_arith)
                    requires
                        dx == -1,
                        delta == sp * dt,
                ;
            }
            self.x = self.x - delta;
        }
        let mag: i64 = if self.dir_y >= 0 {
            self.dir_y
        } else {
            -self.dir_y
        };
        proof {
            assert(0 <= (mag as int) * (delta as int) <= DIR_SCALE * MAX_STEP) by (nonlinear_arith)
                requires
                    0 <= mag <= DIR_SCALE,
                    0 <= delta <= MAX_STEP,
            ;
            assert((mag as int) * (delta as int) / (DIR_SCALE as int) <= MAX_STEP) by (nonlinear_arith)
                requires
                    0 <= mag <= DIR_SCALE,
                    0 <= delta <= MAX_STEP,
            ;
        }
        let dy: i64 = (((mag as u64) * (delta as u64)) / (DIR_SCALE as u64)) as i64;
        if self.dir_y >= 0 {
            self.y = self.y + dy;
        } else {
            self.y = self.y - dy;
        }
        let inc: i64 = cfg.ball_accel * dt;
        let grown: i64 = self.speed + inc;
        self.speed = if grown > SPEED_CAP {
            SPEED_CAP
        } else {
            grown
        };
    }
}

/// A flight's vertical displacement never exceeds its length: the scaled
/// vertical direction has magnitude at most `DIR_SCALE`, which stands for 1.
pub proof fn lemma_scaled_dy_bounds(dir_y: int, delta: int)
    requires
        -DIR_SCALE <= dir_y <= DIR_SCALE,
        0 <= delta,
    ensures
        -delta <= spec_scaled_dy(dir_y, delta) <= delta,
        dir_y >= 0 ==> spec_scaled_dy(dir_y, delta) >= 0,
        dir_y < 0 ==> spec_scaled_dy(dir_y, delta) <= 0,
{
    if dir_y >= 0 {
        assert(0 <= dir_y * delta / (DIR_SCALE as int) <= delta) by (nonlinear_arith)
            requires
                0 <= dir_y <= DIR_SCALE,
                0 <= delta,
        ;
    } else {
        assert(0 <= (-dir_y) * delta / (DIR_SCALE as int) <= delta) by (nonlinear_arith)
            requires
                0 < -dir_y <= DIR_SCALE,
                0 <= delta,
        ;
    }
}

/// One integration step keeps the direction and the speed well-formed and
/// moves each coordinate by at most one `MAX_STEP`.
pub proof fn lemma_fly_bounds(b: Ball, cfg: Config, dt: i64)
    requires
        cfg.wf(),
        0 <= dt <= MAX_DT,
        b.wf(cfg),
        -GEOM_LIMIT <= b.x <= GEOM_LIMIT,
        -GEOM_LIMIT <= b.y <= GEOM_LIMIT,
    ensures
        ({
            let f = b.spec_fly(cfg, dt);
            &&& f.wf(cfg)
            &&& f.dir_x == b.dir_x
            &&& f.dir_y == b.dir_y
            &&& b.x - MAX_STEP <= f.x <= b.x + MAX_STEP
            &&& b.y - MAX_STEP <= f.y <= b.y + MAX_STEP
            &&& f.speed >= b.speed || f.speed == SPEED_CAP
        }),
{
    let delta = b.speed * dt;
    assert(0 <= delta <= MAX_STEP) by (nonlinear_arith)
        requires
            0 <= b.speed <= SPEED_CAP,
            0 <= dt <= MAX_DT,
            delta == b.speed * dt,
    ;
    assert(-delta <= b.dir_x * delta <= delta) by (nonlinear_arith)
        requires
            b.dir_x == 1 || b.dir_x == -1,
            0 <= delta,
    ;
    lemma_scaled_dy_bounds(b.dir_y as int, delta);
    assert(0 <= cfg.ball_accel * dt) by (nonlinear_arith)
        requires
            0 <= cfg.ball_accel,
            0 <= dt,
    ;
}

} // verus!
