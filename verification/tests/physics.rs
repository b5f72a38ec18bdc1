use pong::ball::Ball;
use pong::config::Config;
use pong::geom::Rect;
use pong::pong::{Pong, PongState};
use pong::racket::Racket;
use pong::rng::Rng;
use pong::side::Side;

fn fresh() -> Pong {
    let cfg = Config::standard();
    Pong::new(&cfg, 42)
}

#[test]
fn side_toggle_flips() {
    assert!(matches!(Side::Left.toggle(), Side::Right));
    assert!(matches!(Side::Right.toggle(), Side::Left));
}

#[test]
fn side_labels() {
    assert_eq!(Side::Left.label(), "LEFT");
    assert_eq!(Side::Right.label(), "RIGHT");
}

#[test]
fn rng_is_deterministic_per_seed() {
    let mut a = Rng::new(99);
    let mut b = Rng::new(99);
    for _ in 0..32u32 {
        assert_eq!(a.next_bit(), b.next_bit());
    }
    assert_eq!(a.state, b.state);
}

#[test]
fn rng_follows_the_linear_congruential_formula() {
    let mut r = Rng::new(0);
    let bit = r.next_bit();
    assert_eq!(r.state, 1442695040888963407);
    assert!(!bit);
    r.next_bit();
    assert_eq!(
        r.state,
        1442695040888963407u64
            .wrapping_mul(6364136223846793005)
            .wrapping_add(1442695040888963407)
    );
}

#[test]
fn rect_intersection_of_overlap() {
    let a = Rect { x: 0, y: 0, w: 10, h: 10 };
    let b = Rect { x: 5, y: 5, w: 10, h: 10 };
    assert_eq!(a.intersect(b), Some(Rect { x: 5, y: 5, w: 5, h: 5 }));
}

#[test]
fn rect_intersection_of_touch_is_empty_but_present() {
    let a = Rect { x: 0, y: 0, w: 10, h: 10 };
    let b = Rect { x: 10, y: 2, w: 5, h: 5 };
    assert_eq!(a.intersect(b), Some(Rect { x: 10, y: 2, w: 0, h: 5 }));
}

#[test]
fn rect_intersection_of_disjoint_is_none() {
    let a = Rect { x: 0, y: 0, w: 10, h: 10 };
    let b = Rect { x: 11, y: 0, w: 5, h: 5 };
    assert_eq!(a.intersect(b), None);
}

#[test]
fn fly_integrates_position_and_speed() {
    let cfg = Config::standard();
    let mut b = Ball { x: 390_000_000, y: 290_000_000, dir_x: 1, dir_y: 500, speed: 150_000 };
    b.fly(&cfg, 16);
    assert_eq!(b.x, 392_400_000);
    assert_eq!(b.y, 291_200_000);
    assert_eq!(b.speed, 150_160);
    assert_eq!((b.dir_x, b.dir_y), (1, 500));
}

#[test]
fn fly_moves_left_and_up_on_negative_directions() {
    let cfg = Config::standard();
    let mut b = Ball { x: 390_000_000, y: 290_000_000, dir_x: -1, dir_y: -1000, speed: 150_000 };
    b.fly(&cfg, 16);
    assert_eq!(b.x, 387_600_000);
    assert_eq!(b.y, 287_600_000);
}

#[test]
fn fly_saturates_speed_at_the_cap() {
    let cfg = Config::standard();
    let mut b = Ball { x: 0, y: 0, dir_x: 1, dir_y: 0, speed: 999_999_995 };
    b.fly(&cfg, 16);
    assert_eq!(b.speed, 1_000_000_000);
}

#[test]
fn spawn_without_conceder_draws_directions_from_the_seed() {
    let cfg = Config::standard();
    let mut rng_a = Rng::new(3);
    let mut rng_b = Rng::new(3);
    let a = Ball::new(&cfg, None, &mut rng_a);
    let b = Ball::new(&cfg, None, &mut rng_b);
    assert_eq!(a, b);
    assert_eq!(rng_a.state, rng_b.state);
    assert_eq!((a.x, a.y), (390_000_000, 290_000_000));
}

#[test]
fn racket_new_sits_centered_at_its_margin() {
    let cfg = Config::standard();
    let l = Racket::new(&cfg, Side::Left);
    let r = Racket::new(&cfg, Side::Right);
    assert_eq!((l.x, l.y), (40_000_000, 250_000_000));
    assert_eq!((r.x, r.y), (740_000_000, 250_000_000));
}

#[test]
fn racket_slide_and_clamp() {
    let cfg = Config::standard();
    let mut r = Racket::new(&cfg, Side::Left);
    r.slide(-500_000, 16);
    assert_eq!(r.y, 242_000_000);
    r.slide(-500_000, 600);
    assert_eq!(r.y, -58_000_000);
    r.clamp_y(&cfg);
    assert_eq!(r.y, 0);
    r.slide(500_000, 2000);
    r.clamp_y(&cfg);
    assert_eq!(r.y, 500_000_000);
}

#[test]
fn center_strike_rebounds_horizontally() {
    let mut p = fresh();
    p.ball = Ball { x: 50_000_000, y: 290_000_000, dir_x: -1, dir_y: -700, speed: 150_000 };
    p.update(0, &vec![]);
    assert!(matches!(p.state, PongState::RacketBounce));
    assert_eq!(p.ball.dir_x, 1);
    assert_eq!(p.ball.dir_y, 0);
    assert_eq!((p.ball.x, p.ball.y), (50_000_000, 290_000_000));
    p.update(0, &vec![]);
    assert!(matches!(p.state, PongState::Playing));
}

#[test]
fn top_edge_strike_rebounds_steepest_upward() {
    let mut p = fresh();
    p.ball = Ball { x: 50_000_000, y: 230_000_000, dir_x: -1, dir_y: 0, speed: 150_000 };
    p.update(0, &vec![]);
    assert!(matches!(p.state, PongState::RacketBounce));
    assert_eq!(p.ball.dir_y, -1000);
}

#[test]
fn bottom_edge_strike_rebounds_steepest_downward() {
    let mut p = fresh();
    p.ball = Ball { x: 50_000_000, y: 350_000_000, dir_x: -1, dir_y: 0, speed: 150_000 };
    p.update(0, &vec![]);
    assert!(matches!(p.state, PongState::RacketBounce));
    assert_eq!(p.ball.dir_y, 1000);
}

#[test]
fn off_center_strike_rebounds_proportionally() {
    let mut p = fresh();
    p.ball = Ball { x: 50_000_000, y: 240_000_000, dir_x: -1, dir_y: 0, speed: 150_000 };
    p.update(0, &vec![]);
    assert!(matches!(p.state, PongState::RacketBounce));
    assert_eq!(p.ball.dir_y, -900);
}

#[test]
fn right_racket_rebounds_leftward() {
    let mut p = fresh();
    p.ball = Ball { x: 730_000_000, y: 290_000_000, dir_x: 1, dir_y: 400, speed: 150_000 };
    p.update(0, &vec![]);
    assert!(matches!(p.state, PongState::RacketBounce));
    assert_eq!(p.ball.dir_x, -1);
    assert_eq!(p.ball.dir_y, 0);
}

#[test]
fn ball_moving_away_passes_through_a_slab() {
    let mut p = fresh();
    p.ball = Ball { x: 50_000_000, y: 290_000_000, dir_x: 1, dir_y: 0, speed: 150_000 };
    p.update(0, &vec![]);
    assert!(matches!(p.state, PongState::Playing));
    assert_eq!(p.ball.dir_x, 1);
}

#[test]
fn top_wall_bounce_clamps_and_reflects() {
    let mut p = fresh();
    p.ball = Ball { x: 390_000_000, y: 1_000_000, dir_x: 1, dir_y: -1000, speed: 150_000 };
    p.update(16, &vec![]);
    assert!(matches!(p.state, PongState::WallBounce));
    assert_eq!(p.ball.y, 0);
    assert_eq!(p.ball.dir_y, 1000);
    p.update(0, &vec![]);
    assert!(matches!(p.state, PongState::Playing));
}

#[test]
fn bottom_wall_bounce_clamps_and_reflects() {
    let mut p = fresh();
    p.ball = Ball { x: 390_000_000, y: 579_000_000, dir_x: 1, dir_y: 1000, speed: 150_000 };
    p.update(16, &vec![]);
    assert!(matches!(p.state, PongState::WallBounce));
    assert_eq!(p.ball.y, 580_000_000);
    assert_eq!(p.ball.dir_y, -1000);
}
