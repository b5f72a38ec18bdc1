use pong::config::Config;
use pong::pong::{Input, Pong, PongState};
use pong::side::Side;

fn fresh() -> Pong {
    let cfg = Config::standard();
    Pong::new(&cfg, 42)
}

#[test]
fn new_match_is_centered_and_playing() {
    let p = fresh();
    assert!(matches!(p.state, PongState::Playing));
    assert_eq!(p.score_left, 0);
    assert_eq!(p.score_right, 0);
    assert_eq!(p.now, 0);
    assert_eq!((p.left.x, p.left.y), (40_000_000, 250_000_000));
    assert_eq!((p.right.x, p.right.y), (740_000_000, 250_000_000));
    assert!(matches!(p.left.side, Side::Left));
    assert!(matches!(p.right.side, Side::Right));
    assert_eq!((p.ball.x, p.ball.y), (390_000_000, 290_000_000));
    assert!(p.ball.dir_x == 1 || p.ball.dir_x == -1);
    assert!(p.ball.dir_y == 1000 || p.ball.dir_y == -1000);
    assert_eq!(p.ball.speed, 150_000);
}

#[test]
fn same_seed_same_match() {
    let cfg = Config::standard();
    let a = Pong::new(&cfg, 7);
    let b = Pong::new(&cfg, 7);
    assert_eq!(a, b);
}

#[test]
fn idle_tick_changes_nothing() {
    let mut p = fresh();
    let before = p;
    p.update(0, &vec![]);
    assert_eq!(p, before);
}

#[test]
fn serve_flies_away_from_conceder() {
    let mut p = fresh();
    p.state = PongState::NewRound(Side::Left);
    p.update(16, &vec![]);
    assert!(matches!(p.state, PongState::Playing));
    assert_eq!(p.ball.dir_x, 1);
    assert_eq!((p.ball.x, p.ball.y), (390_000_000, 290_000_000));

    let mut q = fresh();
    q.state = PongState::NewRound(Side::Right);
    q.update(16, &vec![]);
    assert!(matches!(q.state, PongState::Playing));
    assert_eq!(q.ball.dir_x, -1);
}

#[test]
fn ball_past_left_edge_scores_for_right() {
    let mut p = fresh();
    p.ball.x = 1_000_000;
    p.ball.dir_x = -1;
    p.ball.dir_y = 0;
    p.update(16, &vec![]);
    assert!(matches!(p.state, PongState::Point(Side::Right)));
    let held = p.ball;
    p.update(0, &vec![]);
    assert_eq!(p.score_right, 1);
    assert_eq!(p.score_left, 0);
    assert!(matches!(p.state, PongState::NewRound(Side::Left)));
    assert_eq!(p.ball, held);
    p.update(0, &vec![]);
    assert!(matches!(p.state, PongState::Playing));
    assert_eq!(p.ball.dir_x, 1);
}

#[test]
fn ball_past_right_edge_scores_for_left() {
    let mut p = fresh();
    p.ball.x = 779_500_000;
    p.ball.dir_x = 1;
    p.ball.dir_y = 0;
    p.update(16, &vec![]);
    assert!(matches!(p.state, PongState::Point(Side::Left)));
    p.update(0, &vec![]);
    assert_eq!(p.score_left, 1);
    assert!(matches!(p.state, PongState::NewRound(Side::Right)));
}

#[test]
fn five_points_win_the_match_and_an_input_restarts_it() {
    let mut p = fresh();
    for round in 0..4u32 {
        p.state = PongState::Point(Side::Left);
        p.update(0, &vec![]);
        assert_eq!(p.score_left, round + 1);
        assert_eq!(p.score_right, 0);
        assert!(matches!(p.state, PongState::NewRound(Side::Right)));
    }
    p.state = PongState::Point(Side::Left);
    p.update(0, &vec![]);
    assert_eq!(p.score_left, 5);
    assert!(matches!(p.state, PongState::Winner(Side::Left, 0)));

    p.update(500, &vec![Input::Unknown]);
    assert_eq!(p.score_left, 5);
    assert!(matches!(p.state, PongState::Winner(Side::Left, 0)));

    p.update(501, &vec![]);
    assert_eq!(p.score_left, 5);
    assert!(matches!(p.state, PongState::Winner(Side::Left, 0)));

    p.update(0, &vec![Input::Unknown]);
    assert_eq!(p.score_left, 0);
    assert_eq!(p.score_right, 0);
    assert!(matches!(p.state, PongState::Playing));
    assert_eq!((p.ball.x, p.ball.y), (390_000_000, 290_000_000));
    assert_eq!(p.left.y, 250_000_000);
    assert_eq!(p.right.y, 250_000_000);
}

#[test]
fn update_score_records_winner_timestamp() {
    let mut p = fresh();
    p.now = 1234;
    p.score_right = 4;
    p.update_score(Side::Right);
    assert_eq!(p.score_right, 5);
    assert!(matches!(p.state, PongState::Winner(Side::Right, 1234)));
}

#[test]
fn quit_preempts_playing() {
    let mut p = fresh();
    p.update(16, &vec![Input::Up(Side::Left), Input::Quit, Input::Down(Side::Right)]);
    assert!(matches!(p.state, PongState::Exit));
}

#[test]
fn quit_preempts_winner() {
    let mut p = fresh();
    p.score_left = 5;
    p.state = PongState::Winner(Side::Left, 0);
    p.update(0, &vec![Input::Unknown, Input::Quit]);
    assert!(matches!(p.state, PongState::Exit));
}

#[test]
fn exit_is_terminal() {
    let mut p = fresh();
    p.update(16, &vec![Input::Quit]);
    p.update(16, &vec![Input::Up(Side::Left)]);
    assert!(matches!(p.state, PongState::Exit));
}

#[test]
fn rackets_follow_intents() {
    let mut p = fresh();
    p.update(16, &vec![Input::Down(Side::Left), Input::Up(Side::Right)]);
    assert_eq!(p.left.y, 258_000_000);
    assert_eq!(p.right.y, 242_000_000);
}

#[test]
fn conflicting_intents_cancel() {
    let mut p = fresh();
    p.update(16, &vec![Input::Up(Side::Left), Input::Down(Side::Left)]);
    assert_eq!(p.left.y, 250_000_000);
}

#[test]
fn duplicate_intents_apply_once() {
    let mut p = fresh();
    p.update(16, &vec![Input::Up(Side::Left), Input::Up(Side::Left)]);
    assert_eq!(p.left.y, 242_000_000);
}

#[test]
fn rackets_stay_on_their_tracks() {
    let mut p = fresh();
    for _ in 0..200u32 {
        p.update(16, &vec![Input::Up(Side::Left), Input::Down(Side::Right)]);
    }
    assert_eq!(p.left.y, 0);
    assert_eq!(p.right.y, 500_000_000);
}

#[test]
fn scores_never_decrease_over_a_rally() {
    let mut p = fresh();
    let mut last = (0u32, 0u32);
    for step in 0..2000u32 {
        let intents = match step % 3 {
            0 => vec![Input::Up(Side::Left)],
            1 => vec![Input::Down(Side::Right), Input::Unknown],
            _ => vec![],
        };
        p.update(16, &intents);
        assert!(p.score_left >= last.0);
        assert!(p.score_right >= last.1);
        last = (p.score_left, p.score_right);
        if matches!(p.state, PongState::Winner(_, _)) {
            break;
        }
    }
}

#[test]
fn live_ball_stays_inside_the_court() {
    let mut p = fresh();
    for _ in 0..5000u32 {
        p.update(16, &vec![]);
        match p.state {
            PongState::Playing | PongState::WallBounce | PongState::RacketBounce => {
                assert!(p.ball.y >= 0);
                assert!(p.ball.y + 20_000_000 <= 600_000_000);
                assert!(p.ball.x >= 0);
                assert!(p.ball.x + 20_000_000 <= 800_000_000);
            }
            _ => {}
        }
    }
}

#[test]
fn clock_saturates_instead_of_wrapping() {
    let mut p = fresh();
    p.now = i64::MAX - 5;
    p.update(16, &vec![]);
    assert_eq!(p.now, i64::MAX);
}

#[test]
fn state_getter_reports_current_state() {
    let mut p = fresh();
    assert!(matches!(p.state(), PongState::Playing));
    p.update(16, &vec![Input::Quit]);
    assert!(matches!(p.state(), PongState::Exit));
}
