use vstd::prelude::*;

verus! {

// All positions, sizes and speeds in this crate are integers in a fixed-point
// unit chosen by the caller: a position is in "sub-units", a speed in
// sub-units per time-unit, an acceleration in sub-units per time-unit squared,
// and every duration handed to the tick is in time-units. The standard
// configuration uses micro-pixels and milliseconds. Integer physics keeps
// every tick a total, deterministic function of its inputs.

/// Largest size, speed or acceleration a configuration may hold.
pub const MAX_DIM: i64 = 1_000_000_000;

/// Largest elapsed time a single tick may be handed.
pub const MAX_DT: i64 = 1_000_000;

/// The ball's speed saturates here instead of growing without bound, so that
/// one tick's displacement stays bounded and free of overflow.
pub const SPEED_CAP: i64 = 1_000_000_000;

/// Scale of the ball's vertical direction component: a component of
/// `DIR_SCALE` stands for the unit value 1 (the steepest rebound), and 0 for a
/// horizontal flight.
pub const DIR_SCALE: i64 = 1000;

/// Largest displacement one tick can produce: `SPEED_CAP * MAX_DT`.
pub const MAX_STEP: i64 = 1_000_000_000_000_000;

/// Clamp of an integer to a closed interval.
pub open spec fn spec_clamp(v: int, lo: int, hi: int) -> int {
    if v < lo {
        lo
    } else if v > hi {
        hi
    } else {
        v
    }
}

/// The smaller of two integers.
pub open spec fn spec_min(a: int, b: int) -> int {
    if a <= b {
        a
    } else {
        b
    }
}

/// The larger of two integers.
pub open spec fn spec_max(a: int, b: int) -> int {
    if a >= b {
        a
    } else {
        b
    }
}

/// The rules and dimensions of a match, injected at construction and never
/// changed afterwards.
#[derive(Clone, Copy, Debug, PartialEq, Eq, Structural)]
pub struct Config {
    /// Horizontal extent of the court.
    pub court_w: i64,
    /// Vertical extent of the court.
    pub court_h: i64,
    /// Width of each racket.
    pub racket_w: i64,
    /// Height of each racket.
    pub racket_h: i64,
    /// Gap between a court edge and its racket.
    pub racket_margin: i64,
    /// Vertical speed of a racket while an intent moves it.
    pub racket_speed: i64,
    /// Side length of the (square) ball.
    pub ball_size: i64,
    /// The ball's speed at each spawn.
    pub ball_speed: i64,
    /// Linear growth of the ball's speed per time-unit.
    pub ball_accel: i64,
    /// Half-width of the thin contact slab at a racket's inner edge.
    pub slab_half: i64,
    /// A side wins the match on reaching this score.
    pub win_score: u32,
    /// How long the winner screen holds before an input may restart.
    pub winner_hold: i64,
}

impl Config {
    /// A configuration the match logic can run on without overflow.
    pub open spec fn wf(self) -> bool {
        &&& 0 < self.court_w <= MAX_DIM
        &&& 0 < self.court_h <= MAX_DIM
        &&& 0 < self.racket_w <= MAX_DIM
        &&& 0 < self.racket_h <= self.court_h
        &&& 0 <= self.racket_margin
        &&& self.racket_margin + self.racket_w <= self.court_w
        &&& 0 <= self.racket_speed <= MAX_DIM
        &&& 0 < self.ball_size <= self.court_h
        &&& self.ball_size <= self.court_w
        &&& 0 < self.ball_speed <= SPEED_CAP
        &&& 0 <= self.ball_accel <= MAX_DIM
        &&& 0 < self.slab_half <= MAX_DIM
        &&& 1 <= self.win_score < u32::MAX
        &&& 0 <= self.winner_hold <= MAX_DIM
    }

    /// The classic court, in micro-pixels and milliseconds: an 800 by 600
    /// pixel court, 20 by 100 pixel rackets 40 pixels in from the edges
    /// moving 500 pixels a second, a 20 pixel ball starting at 150 pixels a
    /// second and gaining 10 a second every second, contact slabs a tenth of
    /// a pixel to each side, five points to win, and a winner screen held
    /// for one second.
    pub open spec fn spec_standard() -> Config {
        Config {
            court_w: 800_000_000,
            court_h: 600_000_000,
            racket_w: 20_000_000,
            racket_h: 100_000_000,
            racket_margin: 40_000_000,
            racket_speed: 500_000,
            ball_size: 20_000_000,
            ball_speed: 150_000,
            ball_accel: 10,
            slab_half: 100_000,
            win_score: 5,
            winner_hold: 1000,
        }
    }

    /// Builds the classic configuration.
    pub fn standard() -> (c: Config)
        ensures
            c == Self::spec_standard(),
            c.wf(),
    {
        Config {
            court_w: 800_000_000,
            court_h: 600_000_000,
            racket_w: 20_000_000,
            racket_h: 100_000_000,
            racket_margin: 40_000_000,
            racket_speed: 500_000,
            ball_size: 20_000_000,
            ball_speed: 150_000,
            ball_accel: 10,
            slab_half: 100_000,
            win_score: 5,
            winner_hold: 1000,
        }
    }
}

} // verus!
