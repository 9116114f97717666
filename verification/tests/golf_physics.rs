//! Exercises the golf physics simulator on concrete scenarios.
use financial_golf::Ball;
use financial_golf::CircleHazard;
use financial_golf::GameState;
use financial_golf::GolfError;
use financial_golf::GolfSession;

fn abs64(v: i64) -> i64 {
    if v >= 0 {
        v
    } else {
        -v
    }
}

#[test]
fn default_session_geometry() {
    let g = GolfSession::default();
    assert_eq!(g.ball.x, 5000);
    assert_eq!(g.ball.y, 20000);
    assert_eq!(g.ball.r, 800);
    assert_eq!(g.ball.vx, 0);
    assert_eq!(g.ball.vy, 0);
    assert_eq!(g.hole_x, 50000);
    assert_eq!(g.hole_y, 20000);
    assert_eq!(g.hole_r, 1500);
    assert_eq!(g.canvas_w, 60000);
    assert_eq!(g.canvas_h, 40000);
    assert!(!g.heavy_ball_unlocked);
    assert!(g.allow_redirect);
    assert!(g.sand_traps.is_empty());
    assert!(g.water_hazards.is_empty());
}

#[test]
fn init_regenerates_the_fixed_layout() {
    let mut g = GolfSession::default();
    g.ball = Ball { x: 30000, y: 10000, r: 800, vx: 300, vy: -200 };
    let snap = g.init();
    assert_eq!(snap.game_state, GameState::Ready);
    assert_eq!(snap.ball.x, 5000);
    assert_eq!(snap.ball.y, 20000);
    assert_eq!(snap.ball.vx, 0);
    assert_eq!(snap.ball.vy, 0);
    assert_eq!(g.sand_traps.len(), 1);
    assert_eq!(g.sand_traps[0], CircleHazard { x: 25000, y: 20000, r: 4000 });
    assert_eq!(g.water_hazards.len(), 2);
    assert_eq!(g.water_hazards[0], CircleHazard { x: 40000, y: 8000, r: 5000 });
    assert_eq!(g.water_hazards[1], CircleHazard { x: 40000, y: 32000, r: 5000 });
}

#[test]
fn tick_at_rest_is_idempotent_and_ready() {
    let mut g = GolfSession::default();
    for _ in 0..5 {
        let snap = g.tick();
        assert_eq!(snap.game_state, GameState::Ready);
        assert_eq!(g.ball.x, 5000);
        assert_eq!(g.ball.y, 20000);
        assert_eq!(g.ball.vx, 0);
        assert_eq!(g.ball.vy, 0);
    }
}

#[test]
fn shot_converts_drag_to_recoil_velocity() {
    let mut g = GolfSession::default();
    let res = g.shoot(-30000, 0);
    assert!(res.is_ok());
    assert_eq!(g.ball.vx, 4500);
    assert_eq!(g.ball.vy, 0);
}

#[test]
fn friction_applies_and_position_integrates() {
    let mut g = GolfSession::default();
    g.ball.vx = 1000;
    let snap = g.tick();
    assert_eq!(snap.ball.x, 6000);
    assert_eq!(snap.ball.y, 20000);
    assert_eq!(snap.ball.vx, 980);
    assert_eq!(snap.game_state, GameState::Moving);
}

#[test]
fn heavy_ball_keeps_more_momentum() {
    let mut g = GolfSession::default();
    g.set_heavy_ball(true);
    g.ball.vx = 1000;
    let snap = g.tick();
    assert_eq!(snap.ball.vx, 990);
    assert_eq!(snap.game_state, GameState::Moving);
}

#[test]
fn sand_trap_damps_velocity() {
    let mut g = GolfSession::default();
    g.ball.vx = 1000;
    g.sand_traps.push(CircleHazard { x: 6000, y: 20000, r: 4000 });
    let snap = g.tick();
    assert_eq!(snap.ball.x, 6000);
    assert_eq!(snap.ball.vx, 833);
    assert_eq!(snap.game_state, GameState::Moving);
}

#[test]
fn water_loses_with_zero_velocity() {
    let mut g = GolfSession::default();
    g.ball.vx = 1000;
    g.water_hazards.push(CircleHazard { x: 6000, y: 20000, r: 1000 });
    let snap = g.tick();
    assert_eq!(snap.game_state, GameState::Lose);
    assert_eq!(snap.ball.vx, 0);
    assert_eq!(snap.ball.vy, 0);
}

#[test]
fn water_preempts_the_hole() {
    let mut g = GolfSession::default();
    g.ball.x = 49000;
    g.ball.vx = 1000;
    g.water_hazards.push(CircleHazard { x: 50000, y: 20000, r: 1000 });
    let snap = g.tick();
    assert_eq!(snap.game_state, GameState::Lose);
    assert_eq!(snap.ball.vx, 0);
    assert_eq!(snap.ball.vy, 0);
}

#[test]
fn hole_wins_even_over_a_sand_trap() {
    let mut g = GolfSession::default();
    g.ball.x = 49000;
    g.ball.vx = 1000;
    g.sand_traps.push(CircleHazard { x: 50000, y: 20000, r: 4000 });
    let snap = g.tick();
    assert_eq!(snap.game_state, GameState::Win);
    assert_eq!(snap.ball.x, 50000);
    assert_eq!(snap.ball.vx, 0);
    assert_eq!(snap.ball.vy, 0);
}

#[test]
fn wall_reflects_and_clamps() {
    let mut g = GolfSession::default();
    g.ball.x = 59000;
    g.ball.vx = 2000;
    let snap = g.tick();
    assert_eq!(snap.ball.x, 59200);
    assert_eq!(snap.ball.vx, -1568);
    assert_eq!(snap.game_state, GameState::Moving);
}

#[test]
fn slow_ball_stops_and_loses() {
    let mut g = GolfSession::default();
    g.ball.vx = 9;
    g.ball.vy = 9;
    let snap = g.tick();
    assert_eq!(snap.ball.x, 5009);
    assert_eq!(snap.ball.y, 20009);
    assert_eq!(snap.ball.vx, 0);
    assert_eq!(snap.ball.vy, 0);
    assert_eq!(snap.game_state, GameState::Lose);
}

#[test]
fn redirect_policy_rejects_shots_in_motion() {
    let mut g = GolfSession::default();
    g.allow_redirect = false;
    g.ball.vx = 500;
    assert_eq!(g.shoot(-1000, 0), Err(GolfError::ShotWhileMoving));
    assert_eq!(g.ball.vx, 500);
    g.ball.vx = 0;
    assert!(g.shoot(-1000, 0).is_ok());
    assert_eq!(g.ball.vx, 150);
}

#[test]
fn oversized_drag_is_rejected() {
    let mut g = GolfSession::default();
    assert_eq!(g.shoot(-6_000_000_001, 0), Err(GolfError::DragOutOfRange));
    assert_eq!(g.ball.vx, 0);
    assert_eq!(g.ball.vy, 0);
}

#[test]
fn missed_shot_decays_monotonically_to_a_loss() {
    let mut g = GolfSession::default();
    // No hazards; move the hole off the ball's line so nothing is hit.
    g.hole_y = 10000;
    assert!(g.shoot(-30000, 0).is_ok());
    assert_eq!(g.ball.vx, 4500);
    let mut last_vx = abs64(g.ball.vx);
    let mut last_vy = abs64(g.ball.vy);
    let mut state = GameState::Moving;
    let mut ticks = 0;
    while state == GameState::Moving && ticks < 2000 {
        let snap = g.tick();
        state = snap.game_state;
        assert!(snap.ball.x >= snap.ball.r && snap.ball.x <= g.canvas_w - snap.ball.r);
        assert!(snap.ball.y >= snap.ball.r && snap.ball.y <= g.canvas_h - snap.ball.r);
        assert!(abs64(snap.ball.vx) <= last_vx);
        assert!(abs64(snap.ball.vy) <= last_vy);
        last_vx = abs64(snap.ball.vx);
        last_vy = abs64(snap.ball.vy);
        ticks += 1;
    }
    assert_eq!(state, GameState::Lose);
    assert_eq!(g.ball.vx, 0);
    assert_eq!(g.ball.vy, 0);
}

#[test]
fn trajectory_through_water_loses_before_the_hole() {
    let mut g = GolfSession::default();
    g.init();
    // Velocity (35, -12) pixels per tick: the line from the tee
    // through the upper water hazard's center at (400, 80).
    assert!(g.shoot(-23334, 8000).is_ok());
    assert_eq!(g.ball.vx, 3500);
    assert_eq!(g.ball.vy, -1200);
    let mut state = GameState::Moving;
    let mut ticks = 0;
    while state == GameState::Moving && ticks < 2000 {
        let snap = g.tick();
        state = snap.game_state;
        assert_ne!(state, GameState::Win);
        ticks += 1;
    }
    assert_eq!(state, GameState::Lose);
    assert_eq!(g.ball.vx, 0);
    assert_eq!(g.ball.vy, 0);
    // The loss came from the water hazard, not from stopping: the
    // ball rests overlapping the upper hazard.
    let dx = g.ball.x - 40000;
    let dy = g.ball.y - 8000;
    let rs = 5000 + g.ball.r;
    assert!(dx * dx + dy * dy < rs * rs);
}
