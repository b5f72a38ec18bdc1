use vstd::prelude::*;
use crate::config::{Config, spec_clamp, MAX_DIM, MAX_DT, MAX_STEP};
use crate::geom::GEOM_LIMIT;
use crate::side::Side;

verus! {

/// One player's racket: a rectangle of the configured size that never leaves
/// its vertical track.
#[derive(Clone, Copy, Debug, PartialEq, Eq, Structural)]
pub struct Racket {
    /// Which player the racket belongs to; never reassigned.
    pub side: Side,
    /// Horizontal position (left edge), fixed at the side's margin.
    pub x: i64,
    /// Vertical position (top edge); the only coordinate that moves.
    pub y: i64,
}

impl Racket {
    /// The horizontal position a side's racket is fixed at.
    pub open spec fn spec_home_x(cfg: Config, side: Side) -> int {
        match side {
            Side::Left => cfg.racket_margin as int,
            Side::Right => cfg.court_w - cfg.racket_margin - cfg.racket_w,
        }
    }

    /// The vertical position that centers a racket in the court.
    pub open spec fn spec_center_y(cfg: Config) -> int {
        (cfg.court_h - cfg.racket_h) / 2
    }

    /// A freshly placed racket: at its margin, centered vertically.
    pub open spec fn spec_new(cfg: Config, side: Side) -> Racket {
        Racket {
            side,
            x: Self::spec_home_x(cfg, side) as i64,
            y: Self::spec_center_y(cfg) as i64,
        }
    }

    /// At its home position horizontally and fully inside the court
    /// vertically. Sliding may leave the vertical bound within a tick; the
    /// per-tick clamp restores it before the tick ends.
    pub open spec fn wf(self, cfg: Config) -> bool {
        &&& self.x == Self::spec_home_x(cfg, self.side)
        &&& 0 <= self.y <= cfg.court_h - cfg.racket_h
    }

    /// Builds the racket for `side`, centered on its track.
    pub fn new(cfg: &Config, side: Side) -> (r: Racket)
        requires
            cfg.wf(),
        ensures
            r == Self::spec_new(*cfg, side),
            r.wf(*cfg),
    {
        let x: i64 = match side {
            Side::Left => cfg.racket_margin,
            Side::Right => cfg.court_w - cfg.racket_margin - cfg.racket_w,
        };
        let span: i64 = cfg.court_h - cfg.racket_h;
        let y: i64 = ((span as u64) / 2) as i64;
        proof {
            assert(y == Self::spec_center_y(*cfg));
        }
        Racket { side, x, y }
    }

    /// Moves the racket vertically by `velocity * dt`, unclamped. The
    /// per-tick bounds pass (`clamp_y`) pulls it back inside the court once
    /// all of the tick's intents have been applied.
    pub fn slide(&mut self, velocity: i64, dt: i64)
        requires
            -MAX_DIM <= velocity <= MAX_DIM,
            0 <= dt <= MAX_DT,
            -GEOM_LIMIT <= old(self).y <= GEOM_LIMIT,
        ensures
            final(self).y == old(self).y + velocity * dt,
            final(self).x == old(self).x,
            final(self).side == old(self).side,
    {
        proof {
            assert(-MAX_STEP <= velocity * dt <= MAX_STEP) by (nonlinear_arith)
                requires
                    -MAX_DIM <= velocity <= MAX_DIM,
                    0 <= dt <= MAX_DT,
            ;
        }
        self.y = self.y + velocity * dt;
    }

    /// Clamps the racket back onto its track, the court's vertical extent.
    pub fn clamp_y(&mut self, cfg: &Config)
        requires
            cfg.wf(),
        ensures
            final(self).y == spec_clamp(old(self).y as int, 0, cfg.court_h - cfg.racket_h),
            final(self).x == old(self).x,
            final(self).side == old(self).side,
    {
        let hi: i64 = cfg.court_h - cfg.racket_h;
        if self.y < 0 {
            self.y = 0;
        } else if self.y > hi {
            self.y = hi;
        }
    }
}

} // verus!
