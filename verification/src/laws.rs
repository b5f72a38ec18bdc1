use vstd::prelude::*;
use crate::ball::spec_scaled_dy;
use crate::config::{DIR_SCALE, MAX_DT};
use crate::pong::{
    has_input, lemma_tick_wf, spec_advance_now, spec_net_velocity, spec_playing_state,
    spec_rebound_dir, spec_tick, Input, Pong, PongState,
};
use crate::side::Side;

verus! {

/// Neither score ever decreases over a tick; the one exception is the full
/// match reset, which is reachable only from the winner screen and returns
/// both scores to zero together.
pub proof fn lemma_scores_monotonic(p: Pong, dt: i64, inputs: Seq<Input>)
    requires
        p.wf(),
        0 <= dt <= MAX_DT,
    ensures
        ({
            let q = spec_tick(p, dt, inputs);
            ||| (q.score_left >= p.score_left && q.score_right >= p.score_right)
            ||| (p.state is Winner && q.score_left == 0 && q.score_right == 0)
        }),
{
}

/// Whenever a tick leaves the ball live (`Playing` or a one-tick bounce cue),
/// the snapshot it exposes has the ball inside the court — in particular
/// inside the vertical bounds, clamped back after any wall contact.
pub proof fn lemma_ball_in_court(p: Pong, dt: i64, inputs: Seq<Input>)
    requires
        p.wf(),
        0 <= dt <= MAX_DT,
    ensures
        ({
            let q = spec_tick(p, dt, inputs);
            spec_playing_state(q.state) ==> q.ball.in_court(q.cfg)
        }),
{
    lemma_tick_wf(p, dt, inputs);
}

/// A new round serves away from the side that conceded it: ticking a
/// `NewRound(side)` match without a quit intent enters `Playing` with the
/// ball flying toward the conceder's opponent — for `NewRound(Left)` the
/// horizontal direction is positive.
pub proof fn lemma_serve_direction(p: Pong, dt: i64, inputs: Seq<Input>, side: Side)
    requires
        p.wf(),
        0 <= dt <= MAX_DT,
        p.state == PongState::NewRound(side),
        !has_input(inputs, Input::Quit),
    ensures
        ({
            let q = spec_tick(p, dt, inputs);
            &&& q.state == PongState::Playing
            &&& q.ball.dir_x == (if side == Side::Left {
                1int
            } else {
                -1int
            })
        }),
{
}

/// A strike at the racket's exact vertical center rebounds horizontally,
/// with a vertical direction of zero; a strike at the very top or bottom
/// edge rebounds at the steepest direction, magnitude `DIR_SCALE` (the
/// scaled unit).
pub proof fn lemma_rebound_angles(racket_h: int)
    requires
        0 < racket_h,
    ensures
        spec_rebound_dir(0, racket_h) == 0,
        spec_rebound_dir(racket_h, racket_h) == DIR_SCALE,
        spec_rebound_dir(-racket_h, racket_h) == -DIR_SCALE,
{
    assert(0 * DIR_SCALE / racket_h == 0) by (nonlinear_arith)
        requires
            0 < racket_h,
    ;
    assert(racket_h * DIR_SCALE / racket_h == DIR_SCALE) by (nonlinear_arith)
        requires
            0 < racket_h,
    ;
}

/// A tick with no intents and no elapsed time, while playing, changes no
/// observable quantity: ball position, racket positions, scores, ball speed
/// and the clock all stay put.
pub proof fn lemma_idle_tick(p: Pong)
    requires
        p.wf(),
        p.state is Playing,
    ensures
        ({
            let q = spec_tick(p, 0, Seq::<Input>::empty());
            &&& q.ball.x == p.ball.x
            &&& q.ball.y == p.ball.y
            &&& q.ball.speed == p.ball.speed
            &&& q.left.y == p.left.y
            &&& q.right.y == p.right.y
            &&& q.score_left == p.score_left
            &&& q.score_right == p.score_right
            &&& q.now == p.now
        }),
{
    let empty = Seq::<Input>::empty();
    let cfg = p.cfg;
    assert(!has_input(empty, Input::Quit));
    assert(spec_net_velocity(cfg, empty, Side::Left) == 0);
    assert(spec_net_velocity(cfg, empty, Side::Right) == 0);
    vstd::arithmetic::div_mod::lemma_div_of0(DIR_SCALE as int);
    assert(spec_scaled_dy(p.ball.dir_y as int, 0) == 0);
}

/// Scoring a point raises exactly the scorer's score, by exactly one. Below
/// the winning score the match goes on with the scorer's opponent conceding
/// the serve; the point that reaches it ends the match with the winner and
/// the clock recorded.
pub proof fn lemma_point_transition(p: Pong, dt: i64, inputs: Seq<Input>, scorer: Side)
    requires
        p.wf(),
        0 <= dt <= MAX_DT,
        p.state == PongState::Point(scorer),
        !has_input(inputs, Input::Quit),
    ensures
        ({
            let q = spec_tick(p, dt, inputs);
            &&& q.spec_score(scorer) == p.spec_score(scorer) + 1
            &&& q.spec_score(scorer.spec_toggle()) == p.spec_score(scorer.spec_toggle())
            &&& (p.spec_score(scorer) + 1 < p.cfg.win_score ==> q.state == PongState::NewRound(
                scorer.spec_toggle(),
            ))
            &&& (p.spec_score(scorer) + 1 == p.cfg.win_score ==> q.state == PongState::Winner(
                scorer,
                q.now,
            ))
        }),
{
}

/// On the winner screen the scores stay frozen at the winning score until
/// the hold time has passed and some intent arrives; such an intent starts a
/// fresh match, back at zero all, playing again.
pub proof fn lemma_winner_hold(p: Pong, dt: i64, inputs: Seq<Input>, side: Side, at: i64)
    requires
        p.wf(),
        0 <= dt <= MAX_DT,
        p.state == PongState::Winner(side, at),
        !has_input(inputs, Input::Quit),
    ensures
        ({
            let q = spec_tick(p, dt, inputs);
            let restart = spec_advance_now(p.now, dt) - at > p.cfg.winner_hold && inputs.len()
                > 0;
            &&& restart ==> q.score_left == 0 && q.score_right == 0 && q.state is Playing
            &&& !restart ==> {
                &&& q.score_left == p.score_left
                &&& q.score_right == p.score_right
                &&& q.state == PongState::Winner(side, at)
                &&& q.spec_score(side) == p.cfg.win_score
            }
        }),
{
}

/// A quit intent, observed in any state, makes the very next tick `Exit`,
/// whatever other intents arrived in the same set.
pub proof fn lemma_quit_preempts(p: Pong, dt: i64, inputs: Seq<Input>)
    requires
        has_input(inputs, Input::Quit),
    ensures
        spec_tick(p, dt, inputs).state == PongState::Exit,
{
}

} // verus!
