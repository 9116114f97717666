//! Golf physics simulator.
//!
//! All geometry is fixed-point: coordinates, radii and velocities are
//! `i64` values carrying two decimal digits of fraction, so `100`
//! units are one pixel of the canvas. The damping factors of the
//! design (friction 0.98 or 0.99, sand 0.85, wall -0.8, shot
//! sensitivity 0.15, stop threshold 0.1) are expressed as integer
//! numerators over 100, applied with truncation toward zero.
use vstd::prelude::*;

verus! {

/// Fixed-point scale: this many units make one pixel.
pub const SCALE: i64 = 100;

/// Per-tick friction numerator (over 100) for the normal ball.
pub const FRICTION_NORMAL: i64 = 98;

/// Per-tick friction numerator (over 100) once the heavy ball is unlocked.
pub const FRICTION_HEAVY: i64 = 99;

/// Extra damping numerator (over 100) applied per overlapping sand trap.
pub const SAND_DAMPING: i64 = 85;

/// Damping numerator (over 100) applied when reflecting off a wall.
pub const WALL_DAMPING: i64 = 80;

/// Shot sensitivity numerator (over 100): velocity is -drag * 15/100.
pub const SHOT_SENSITIVITY: i64 = 15;

/// Below this speed (0.1 pixel per tick) on both axes a moving ball stops.
pub const STOP_THRESHOLD: i64 = 10;

/// Upper bound on coordinates and radii (one million pixels).
pub const COORD_LIMIT: i64 = 100_000_000;

/// Upper bound on the magnitude of a velocity component.
pub const SPEED_LIMIT: i64 = 1_000_000_000;

/// Upper bound on the magnitude of an accepted drag component.
pub const DRAG_LIMIT: i64 = 6_000_000_000;

/// Mathematical model of a ball: position, radius and velocity.
#[verifier::ext_equal]
pub ghost struct BallV {
    pub x: int,
    pub y: int,
    pub r: int,
    pub vx: int,
    pub vy: int,
}

/// Mathematical model of a circular hazard.
#[verifier::ext_equal]
pub ghost struct HazardV {
    pub x: int,
    pub y: int,
    pub r: int,
}

/// The ball of the simulation, in fixed-point units.
#[derive(Clone, Copy, PartialEq, Eq, Structural, Debug)]
pub struct Ball {
    pub x: i64,
    pub y: i64,
    pub r: i64,
    pub vx: i64,
    pub vy: i64,
}

impl View for Ball {
    type V = BallV;

    open spec fn view(&self) -> BallV {
        BallV { x: self.x as int, y: self.y as int, r: self.r as int, vx: self.vx as int, vy: self.vy as int }
    }
}

/// A circular sand trap or water hazard, in fixed-point units.
#[derive(Clone, Copy, PartialEq, Eq, Structural, Debug)]
pub struct CircleHazard {
    pub x: i64,
    pub y: i64,
    pub r: i64,
}

impl View for CircleHazard {
    type V = HazardV;

    open spec fn view(&self) -> HazardV {
        HazardV { x: self.x as int, y: self.y as int, r: self.r as int }
    }
}

/// The state a tick reports: idle, in motion, or one of the two
/// terminal outcomes.
#[derive(Clone, Copy, PartialEq, Eq, Structural, Debug)]
pub enum GameState {
    Ready,
    Moving,
    Win,
    Lose,
}

/// Magnitude of an integer.
pub open spec fn abs_val(v: int) -> int {
    if v >= 0 {
        v
    } else {
        -v
    }
}

/// Damping in fixed point: `v * num / 100`, rounding toward zero.
pub open spec fn damp_spec(v: int, num: int) -> int {
    if v >= 0 {
        (v * num) / 100
    } else {
        -(((-v) * num) / 100)
    }
}

/// Damping never grows a velocity component and never flips its sign.
pub proof fn lemma_damp_bounds(v: int, num: int)
    requires
        0 <= num <= 100,
    ensures
        abs_val(damp_spec(v, num)) <= abs_val(v),
        v >= 0 ==> 0 <= damp_spec(v, num) <= v,
        v < 0 ==> v <= damp_spec(v, num) <= 0,
{
    let m = abs_val(v);
    assert(m >= 0);
    assert(m * num <= m * 100) by (nonlinear_arith)
        requires
            m >= 0,
            num <= 100,
    ;
    assert(m * num >= 0) by (nonlinear_arith)
        requires
            m >= 0,
            num >= 0,
    ;
    assert((m * num) / 100 <= (m * 100) / 100) by {
        vstd::arithmetic::div_mod::lemma_div_is_ordered(m * num, m * 100, 100);
    }
    assert((m * 100) / 100 == m) by {
        vstd::arithmetic::div_mod::lemma_div_multiples_vanish(m, 100);
    }
    assert((m * num) / 100 >= 0) by {
        vstd::arithmetic::div_mod::lemma_div_pos_is_pos(m * num, 100);
    }
}

/// Fixed-point damping, the executable counterpart of `damp_spec`.
fn damp(v: i64, num: i64) -> (r: i64)
    requires
        -DRAG_LIMIT <= v <= DRAG_LIMIT,
        0 <= num <= 100,
    ensures
        r == damp_spec(v as int, num as int),
        abs_val(r as int) <= abs_val(v as int),
{
    proof {
        lemma_damp_bounds(v as int, num as int);
    }
    if v >= 0 {
        (v * num) / 100
    } else {
        -((-v * num) / 100)
    }
}

/// Friction numerator for a tick: the heavy ball keeps more momentum.
pub open spec fn friction_num(heavy: bool) -> int {
    if heavy {
        FRICTION_HEAVY as int
    } else {
        FRICTION_NORMAL as int
    }
}

/// Whether a ball of radius `br` centered at `(px, py)` overlaps the
/// hazard: the center distance is below the sum of the radii.
pub open spec fn hazard_overlaps(px: int, py: int, br: int, h: HazardV) -> bool {
    (px - h.x) * (px - h.x) + (py - h.y) * (py - h.y) < (h.r + br) * (h.r + br)
}

/// Velocity component after the first `n` sand traps, in encounter
/// order, have each applied their damping when overlapping the ball.
pub open spec fn sand_damped_upto(
    v0: int,
    px: int,
    py: int,
    br: int,
    traps: Seq<HazardV>,
    n: int,
) -> int
    decreases n,
{
    if n <= 0 {
        v0
    } else {
        let prev = sand_damped_upto(v0, px, py, br, traps, n - 1);
        if hazard_overlaps(px, py, br, traps[n - 1]) {
            damp_spec(prev, SAND_DAMPING as int)
        } else {
            prev
        }
    }
}

/// Velocity component after every sand trap had its turn.
pub open spec fn sand_damped(v0: int, px: int, py: int, br: int, traps: Seq<HazardV>) -> int {
    sand_damped_upto(v0, px, py, br, traps, traps.len() as int)
}

/// Sand damping never grows a velocity component and never flips its sign.
pub proof fn lemma_sand_damped_bounds(v0: int, px: int, py: int, br: int, traps: Seq<HazardV>, n: int)
    ensures
        abs_val(sand_damped_upto(v0, px, py, br, traps, n)) <= abs_val(v0),
        v0 >= 0 ==> 0 <= sand_damped_upto(v0, px, py, br, traps, n) <= v0,
        v0 < 0 ==> v0 <= sand_damped_upto(v0, px, py, br, traps, n) <= 0,
        v0 == 0 ==> sand_damped_upto(v0, px, py, br, traps, n) == 0,
    decreases n,
{
    if n > 0 {
        lemma_sand_damped_bounds(v0, px, py, br, traps, n - 1);
        let prev = sand_damped_upto(v0, px, py, br, traps, n - 1);
        lemma_damp_bounds(prev, SAND_DAMPING as int);
    }
}

/// Whether the ball at `(px, py)` overlaps any of the water hazards.
pub open spec fn in_any_water(px: int, py: int, br: int, water: Seq<HazardV>) -> bool {
    exists|i: int| 0 <= i < water.len() && hazard_overlaps(px, py, br, water[i])
}

/// Position of a ball after wall containment on one axis: a leading
/// edge past a boundary is clamped back to it.
pub open spec fn wall_resolve_pos(p: int, r: int, limit: int) -> int {
    if p - r < 0 {
        r
    } else if p + r > limit {
        limit - r
    } else {
        p
    }
}

/// Velocity of a ball after wall containment on one axis: crossing
/// either boundary inverts and damps the component.
pub open spec fn wall_resolve_vel(p: int, r: int, limit: int, v: int) -> int {
    if p - r < 0 || p + r > limit {
        -damp_spec(v, WALL_DAMPING as int)
    } else {
        v
    }
}

/// Whether a ball centered at `(x, y)` has sunk: its center is within
/// the hole radius of the hole center.
pub open spec fn hole_hit(x: int, y: int, hole_x: int, hole_y: int, hole_r: int) -> bool {
    (x - hole_x) * (x - hole_x) + (y - hole_y) * (y - hole_y) < hole_r * hole_r
}

/// Mathematical model of a whole golf session.
#[verifier::ext_equal]
pub ghost struct GolfV {
    pub ball: BallV,
    pub hole_x: int,
    pub hole_y: int,
    pub hole_r: int,
    pub canvas_w: int,
    pub canvas_h: int,
    pub sand: Seq<HazardV>,
    pub water: Seq<HazardV>,
    pub heavy: bool,
    pub allow_redirect: bool,
}

/// One golf session: ball, hole, hazards, canvas bounds and the two
/// configuration flags. The heavy-ball flag lowers friction; the
/// redirect flag is the explicit policy choice whether a shot is
/// accepted while the ball is still moving (the default accepts it,
/// a mid-flight redirect).
pub struct GolfSession {
    pub ball: Ball,
    pub hole_x: i64,
    pub hole_y: i64,
    pub hole_r: i64,
    pub canvas_w: i64,
    pub canvas_h: i64,
    pub sand_traps: Vec<CircleHazard>,
    pub water_hazards: Vec<CircleHazard>,
    pub heavy_ball_unlocked: bool,
    pub allow_redirect: bool,
}

impl View for GolfSession {
    type V = GolfV;

    open spec fn view(&self) -> GolfV {
        GolfV {
            ball: self.ball@,
            hole_x: self.hole_x as int,
            hole_y: self.hole_y as int,
            hole_r: self.hole_r as int,
            canvas_w: self.canvas_w as int,
            canvas_h: self.canvas_h as int,
            sand: self.sand_traps@.map_values(|h: CircleHazard| h@),
            water: self.water_hazards@.map_values(|h: CircleHazard| h@),
            heavy: self.heavy_ball_unlocked,
            allow_redirect: self.allow_redirect,
        }
    }
}

/// A hazard lies within the canvas and within the coordinate limit.
pub open spec fn hazard_wf(h: HazardV, w: int, hgt: int) -> bool {
    &&& 0 <= h.x <= w
    &&& 0 <= h.y <= hgt
    &&& 0 <= h.r <= COORD_LIMIT as int
}

/// Well-formedness of a session: positive ball radius, a canvas that
/// can contain the ball, the ball inside the canvas with bounded
/// velocity, and the hole and every hazard inside the canvas.
pub open spec fn golf_wf(s: GolfV) -> bool {
    &&& 0 < s.ball.r
    &&& 2 * s.ball.r <= s.canvas_w <= COORD_LIMIT as int
    &&& 2 * s.ball.r <= s.canvas_h <= COORD_LIMIT as int
    &&& s.ball.r <= s.ball.x <= s.canvas_w - s.ball.r
    &&& s.ball.r <= s.ball.y <= s.canvas_h - s.ball.r
    &&& -SPEED_LIMIT as int <= s.ball.vx <= SPEED_LIMIT as int
    &&& -SPEED_LIMIT as int <= s.ball.vy <= SPEED_LIMIT as int
    &&& 0 <= s.hole_x <= s.canvas_w
    &&& 0 <= s.hole_y <= s.canvas_h
    &&& 0 <= s.hole_r <= COORD_LIMIT as int
    &&& forall|i: int| 0 <= i < s.sand.len() ==> hazard_wf(#[trigger] s.sand[i], s.canvas_w, s.canvas_h)
    &&& forall|i: int| 0 <= i < s.water.len() ==> hazard_wf(#[trigger] s.water[i], s.canvas_w, s.canvas_h)
}

/// The ball center on the x axis after position integration.
pub open spec fn tick_px(s: GolfV) -> int {
    s.ball.x + s.ball.vx
}

/// The ball center on the y axis after position integration.
pub open spec fn tick_py(s: GolfV) -> int {
    s.ball.y + s.ball.vy
}

/// The x velocity after this tick's friction.
pub open spec fn tick_fvx(s: GolfV) -> int {
    damp_spec(s.ball.vx, friction_num(s.heavy))
}

/// The y velocity after this tick's friction.
pub open spec fn tick_fvy(s: GolfV) -> int {
    damp_spec(s.ball.vy, friction_num(s.heavy))
}

/// The x velocity after friction and sand damping.
pub open spec fn tick_svx(s: GolfV) -> int {
    sand_damped(tick_fvx(s), tick_px(s), tick_py(s), s.ball.r, s.sand)
}

/// The y velocity after friction and sand damping.
pub open spec fn tick_svy(s: GolfV) -> int {
    sand_damped(tick_fvy(s), tick_px(s), tick_py(s), s.ball.r, s.sand)
}

/// Whether the ball lands in water this tick, which zeroes the
/// velocity at once and makes the tick a loss whatever else holds.
pub open spec fn tick_water(s: GolfV) -> bool {
    in_any_water(tick_px(s), tick_py(s), s.ball.r, s.water)
}

/// The x velocity after water zeroing and wall reflection.
pub open spec fn tick_wvx(s: GolfV) -> int {
    wall_resolve_vel(tick_px(s), s.ball.r, s.canvas_w, if tick_water(s) { 0 } else { tick_svx(s) })
}

/// The y velocity after water zeroing and wall reflection.
pub open spec fn tick_wvy(s: GolfV) -> int {
    wall_resolve_vel(tick_py(s), s.ball.r, s.canvas_h, if tick_water(s) { 0 } else { tick_svy(s) })
}

/// The ball x position after wall containment.
pub open spec fn tick_x(s: GolfV) -> int {
    wall_resolve_pos(tick_px(s), s.ball.r, s.canvas_w)
}

/// The ball y position after wall containment.
pub open spec fn tick_y(s: GolfV) -> int {
    wall_resolve_pos(tick_py(s), s.ball.r, s.canvas_h)
}

/// Whether the ball, at its contained position, is in the hole.
pub open spec fn tick_hole(s: GolfV) -> bool {
    hole_hit(tick_x(s), tick_y(s), s.hole_x, s.hole_y, s.hole_r)
}

/// Whether both post-wall velocity components are below the stop
/// threshold, the ball not being exactly at rest.
pub open spec fn tick_stops(s: GolfV) -> bool {
    &&& abs_val(tick_wvx(s)) < STOP_THRESHOLD as int
    &&& abs_val(tick_wvy(s)) < STOP_THRESHOLD as int
    &&& !(tick_wvx(s) == 0 && tick_wvy(s) == 0)
}

/// The state a tick reports. The checks run in the fixed order
/// water, hole, rest, stop: a water encounter preempts a win, a win
/// preempts the rest tests, a ball that was exactly at rest is ready
/// for the next shot, and a ball that merely slowed below the
/// threshold has stopped short of the hole, a loss.
pub open spec fn tick_state(s: GolfV) -> GameState {
    if tick_water(s) {
        GameState::Lose
    } else if tick_hole(s) {
        GameState::Win
    } else if tick_wvx(s) == 0 && tick_wvy(s) == 0 {
        GameState::Ready
    } else if tick_stops(s) {
        GameState::Lose
    } else {
        GameState::Moving
    }
}

/// The x velocity a tick leaves behind: zero on water, win or stop.
pub open spec fn tick_vx_final(s: GolfV) -> int {
    if tick_water(s) || tick_hole(s) || tick_stops(s) {
        0
    } else {
        tick_wvx(s)
    }
}

/// The y velocity a tick leaves behind: zero on water, win or stop.
pub open spec fn tick_vy_final(s: GolfV) -> int {
    if tick_water(s) || tick_hole(s) || tick_stops(s) {
        0
    } else {
        tick_wvy(s)
    }
}

/// The ball a tick leaves behind.
pub open spec fn tick_ball(s: GolfV) -> BallV {
    BallV {
        x: tick_x(s),
        y: tick_y(s),
        r: s.ball.r,
        vx: tick_vx_final(s),
        vy: tick_vy_final(s),
    }
}

/// The whole session a tick leaves behind: only the ball moves.
pub open spec fn session_after_tick(s: GolfV) -> GolfV {
    GolfV { ball: tick_ball(s), ..s }
}

/// Containment law: whatever a tick does, it leaves the ball inside
/// the canvas, a full radius away from every boundary.
pub proof fn lemma_tick_containment(s: GolfV)
    requires
        golf_wf(s),
    ensures
        s.ball.r <= tick_ball(s).x <= s.canvas_w - s.ball.r,
        s.ball.r <= tick_ball(s).y <= s.canvas_h - s.ball.r,
{
}

/// Decay law: no tick ever increases the magnitude of a velocity
/// component; friction, sand, walls and every terminal state only
/// shrink or zero it.
pub proof fn lemma_tick_velocity_decay(s: GolfV)
    ensures
        abs_val(tick_ball(s).vx) <= abs_val(s.ball.vx),
        abs_val(tick_ball(s).vy) <= abs_val(s.ball.vy),
{
    let fr = friction_num(s.heavy);
    lemma_damp_bounds(s.ball.vx, fr);
    lemma_damp_bounds(s.ball.vy, fr);
    lemma_sand_damped_bounds(tick_fvx(s), tick_px(s), tick_py(s), s.ball.r, s.sand, s.sand.len() as int);
    lemma_sand_damped_bounds(tick_fvy(s), tick_px(s), tick_py(s), s.ball.r, s.sand, s.sand.len() as int);
    lemma_damp_bounds(if tick_water(s) { 0 } else { tick_svx(s) }, WALL_DAMPING as int);
    lemma_damp_bounds(if tick_water(s) { 0 } else { tick_svy(s) }, WALL_DAMPING as int);
}

/// Water law: a ball overlapping any water hazard after integration
/// loses this tick with velocity exactly zero, whatever its prior
/// speed and whatever else it overlaps.
pub proof fn lemma_water_preempts(s: GolfV)
    requires
        tick_water(s),
    ensures
        tick_state(s) == GameState::Lose,
        tick_ball(s).vx == 0,
        tick_ball(s).vy == 0,
{
}

/// Hole law: a ball whose contained position lies within the hole
/// radius of the hole center wins the tick, with velocity zeroed,
/// unless a water encounter preempts it; overlapping sand traps do
/// not affect the outcome.
pub proof fn lemma_hole_wins(s: GolfV)
    requires
        !tick_water(s),
        tick_hole(s),
    ensures
        tick_state(s) == GameState::Win,
        tick_ball(s).vx == 0,
        tick_ball(s).vy == 0,
{
}

/// Rest law: a tick of a ball at rest that reports `Ready` changes
/// nothing, so every later tick reports `Ready` again and leaves the
/// ball's position and velocity untouched.
pub proof fn lemma_tick_idempotent_at_rest(s: GolfV)
    requires
        golf_wf(s),
        s.ball.vx == 0,
        s.ball.vy == 0,
        tick_state(s) == GameState::Ready,
    ensures
        tick_ball(s) == s.ball,
        session_after_tick(s) == s,
        tick_state(session_after_tick(s)) == GameState::Ready,
{
    lemma_sand_damped_bounds(tick_fvx(s), tick_px(s), tick_py(s), s.ball.r, s.sand, s.sand.len() as int);
    lemma_sand_damped_bounds(tick_fvy(s), tick_px(s), tick_py(s), s.ball.r, s.sand, s.sand.len() as int);
    assert(tick_ball(s) =~= s.ball);
    assert(session_after_tick(s) =~= s);
}

/// Rejection of a golf operation; the session is left unchanged.
#[derive(Clone, Copy, PartialEq, Eq, Structural, Debug)]
pub enum GolfError {
    /// A shot arrived while the ball was still moving and the
    /// redirect policy is off.
    ShotWhileMoving,
    /// A drag component exceeds the magnitude the geometry can take.
    DragOutOfRange,
}

/// Default ball start position and radius, in fixed-point units.
pub const BALL_START_X: i64 = 5000;

/// Default ball start position on the y axis.
pub const BALL_START_Y: i64 = 20000;

/// Default ball radius.
pub const BALL_START_R: i64 = 800;

/// The ball every initialization places on the tee.
pub open spec fn start_ball_v() -> BallV {
    BallV { x: BALL_START_X as int, y: BALL_START_Y as int, r: BALL_START_R as int, vx: 0, vy: 0 }
}

/// The deterministic hazard layout: one sand trap near the horizontal
/// midline of the canvas.
pub open spec fn layout_sand(w: int, h: int) -> Seq<HazardV> {
    seq![HazardV { x: 5 * w / 12, y: h / 2, r: 4000 }]
}

/// The deterministic hazard layout: two water hazards flanking the
/// line from tee to hole, symmetric about the horizontal midline.
pub open spec fn layout_water(w: int, h: int) -> Seq<HazardV> {
    seq![
        HazardV { x: 2 * w / 3, y: h / 5, r: 5000 },
        HazardV { x: 2 * w / 3, y: h - h / 5, r: 5000 },
    ]
}

/// The default session: tee at (50, 200), hole at (500, 200) with
/// radius 15, a 600 x 400 canvas, no hazards until initialization,
/// heavy ball locked, and mid-flight redirects allowed.
pub open spec fn default_golf_v() -> GolfV {
    GolfV {
        ball: start_ball_v(),
        hole_x: 50000,
        hole_y: 20000,
        hole_r: 1500,
        canvas_w: 60000,
        canvas_h: 40000,
        sand: Seq::empty(),
        water: Seq::empty(),
        heavy: false,
        allow_redirect: true,
    }
}

/// Whether the ball of the session is exactly at rest.
pub open spec fn at_rest(s: GolfV) -> bool {
    s.ball.vx == 0 && s.ball.vy == 0
}

/// The session a successful shot leaves behind: the drag vector,
/// inverted and scaled by the sensitivity, becomes the velocity.
pub open spec fn shot_spec(s: GolfV, dx: int, dy: int) -> GolfV {
    GolfV {
        ball: BallV {
            vx: damp_spec(-dx, SHOT_SENSITIVITY as int),
            vy: damp_spec(-dy, SHOT_SENSITIVITY as int),
            ..s.ball
        },
        ..s
    }
}

/// Whether a shot with this drag vector is accepted.
pub open spec fn shot_allowed(s: GolfV, dx: int, dy: int) -> bool {
    &&& s.allow_redirect || at_rest(s)
    &&& abs_val(dx) <= DRAG_LIMIT as int
    &&& abs_val(dy) <= DRAG_LIMIT as int
}

/// The immutable snapshot a golf operation returns: the ball, the
/// state derived this tick, and the hazard layout.
pub struct GolfRenderState {
    pub ball: Ball,
    pub game_state: GameState,
    pub sand_traps: Vec<CircleHazard>,
    pub water_hazards: Vec<CircleHazard>,
}

/// Square of a bounded value, shown free of overflow.
fn sq(v: i64) -> (r: i64)
    requires
        -2_000_000_000 <= v <= 2_000_000_000,
    ensures
        r == v as int * v as int,
        0 <= r <= 4_000_000_000_000_000_000,
{
    proof {
        assert(0 <= v as int * v as int <= 4_000_000_000_000_000_000) by (nonlinear_arith)
            requires
                -2_000_000_000 <= v as int <= 2_000_000_000,
        ;
    }
    v * v
}

/// Squared-distance overlap test against a hazard.
fn hazard_overlap_check(px: i64, py: i64, br: i64, h: &CircleHazard) -> (r: bool)
    requires
        -1_200_000_000 <= px <= 1_200_000_000,
        -1_200_000_000 <= py <= 1_200_000_000,
        0 <= h.x <= COORD_LIMIT,
        0 <= h.y <= COORD_LIMIT,
        0 <= h.r <= COORD_LIMIT,
        0 < br <= COORD_LIMIT,
    ensures
        r == hazard_overlaps(px as int, py as int, br as int, h@),
{
    let dx = px - h.x;
    let dy = py - h.y;
    let rs = h.r + br;
    sq(dx) + sq(dy) < sq(rs)
}

/// Wall containment on one axis: returns the contained position and
/// the possibly reflected velocity.
fn wall_resolve(p: i64, r: i64, limit: i64, v: i64) -> (res: (i64, i64))
    requires
        -1_200_000_000 <= p <= 1_200_000_000,
        0 < r,
        2 * r <= limit <= COORD_LIMIT,
        -SPEED_LIMIT <= v <= SPEED_LIMIT,
    ensures
        res.0 == wall_resolve_pos(p as int, r as int, limit as int),
        res.1 == wall_resolve_vel(p as int, r as int, limit as int, v as int),
{
    if p - r < 0 || p + r > limit {
        let nv = -damp(v, WALL_DAMPING);
        let np = if p - r < 0 {
            r
        } else {
            limit - r
        };
        (np, nv)
    } else {
        (p, v)
    }
}

impl GolfSession {
    /// Well-formedness of the session state; every operation
    /// preserves it.
    pub open spec fn wf(&self) -> bool {
        golf_wf(self@)
    }

    /// Advance the simulation one discrete step: integrate the
    /// position, apply friction, damp through overlapping sand traps
    /// in encounter order, lose in water, contain at the walls, win
    /// in the hole, and classify rest. The returned snapshot carries
    /// the ball and the state derived this tick.
    pub fn tick(&mut self) -> (snap: GolfRenderState)
        requires
            old(self).wf(),
        ensures
            final(self).wf(),
            final(self)@ == session_after_tick(old(self)@),
            snap.ball@ == tick_ball(old(self)@),
            snap.game_state == tick_state(old(self)@),
            snap.sand_traps@.map_values(|h: CircleHazard| h@) == old(self)@.sand,
            snap.water_hazards@.map_values(|h: CircleHazard| h@) == old(self)@.water,
            old(self)@.ball.r <= final(self)@.ball.x <= old(self)@.canvas_w - old(self)@.ball.r,
            old(self)@.ball.r <= final(self)@.ball.y <= old(self)@.canvas_h - old(self)@.ball.r,
            abs_val(final(self)@.ball.vx) <= abs_val(old(self)@.ball.vx),
            abs_val(final(self)@.ball.vy) <= abs_val(old(self)@.ball.vy),
    {
        let ghost s0 = self@;
        let friction = if self.heavy_ball_unlocked {
            FRICTION_HEAVY
        } else {
            FRICTION_NORMAL
        };
        let px = self.ball.x + self.ball.vx;
        let py = self.ball.y + self.ball.vy;
        let mut vx = damp(self.ball.vx, friction);
        let mut vy = damp(self.ball.vy, friction);
        proof {
            lemma_damp_bounds(s0.ball.vx, friction as int);
            lemma_damp_bounds(s0.ball.vy, friction as int);
        }

        let ghost fvx = vx as int;
        let ghost fvy = vy as int;
        let mut i: usize = 0;
        while i < self.sand_traps.len()
            invariant
                self == old(self),
                s0 == self@,
                old(self).wf(),
                px == tick_px(s0),
                py == tick_py(s0),
                fvx == tick_fvx(s0),
                fvy == tick_fvy(s0),
                0 <= i <= self.sand_traps.len(),
                vx == sand_damped_upto(fvx, px as int, py as int, s0.ball.r, s0.sand, i as int),
                vy == sand_damped_upto(fvy, px as int, py as int, s0.ball.r, s0.sand, i as int),
                abs_val(vx as int) <= abs_val(fvx),
                abs_val(vy as int) <= abs_val(fvy),
                abs_val(fvx) <= SPEED_LIMIT,
                abs_val(fvy) <= SPEED_LIMIT,
            decreases self.sand_traps.len() - i,
        {
            proof {
                lemma_sand_damped_bounds(fvx, px as int, py as int, s0.ball.r, s0.sand, i as int);
                lemma_sand_damped_bounds(fvy, px as int, py as int, s0.ball.r, s0.sand, i as int);
            }
            let t = self.sand_traps[i];
            assert(t@ == s0.sand[i as int]);
            if hazard_overlap_check(px, py, self.ball.r, &t) {
                vx = damp(vx, SAND_DAMPING);
                vy = damp(vy, SAND_DAMPING);
            }
            i += 1;
        }
        proof {
            lemma_sand_damped_bounds(fvx, px as int, py as int, s0.ball.r, s0.sand, s0.sand.len() as int);
            lemma_sand_damped_bounds(fvy, px as int, py as int, s0.ball.r, s0.sand, s0.sand.len() as int);
        }
        assert(vx == tick_svx(s0));
        assert(vy == tick_svy(s0));

        let mut in_water = false;
        let mut j: usize = 0;
        while j < self.water_hazards.len()
            invariant
                self == old(self),
                s0 == self@,
                old(self).wf(),
                px == tick_px(s0),
                py == tick_py(s0),
                0 <= j <= self.water_hazards.len(),
                in_water == exists|k: int|
                    0 <= k < j && hazard_overlaps(px as int, py as int, s0.ball.r, s0.water[k]),
            decreases self.water_hazards.len() - j,
        {
            let w = self.water_hazards[j];
            assert(w@ == s0.water[j as int]);
            if hazard_overlap_check(px, py, self.ball.r, &w) {
                in_water = true;
            }
            j += 1;
        }
        assert(in_water == tick_water(s0));
        if in_water {
            vx = 0;
            vy = 0;
        }

        let (nx, wvx) = wall_resolve(px, self.ball.r, self.canvas_w, vx);
        let (ny, wvy) = wall_resolve(py, self.ball.r, self.canvas_h, vy);
        assert(nx == tick_x(s0) && ny == tick_y(s0));
        assert(wvx == tick_wvx(s0) && wvy == tick_wvy(s0));
        proof {
            lemma_damp_bounds(if tick_water(s0) { 0int } else { tick_svx(s0) }, WALL_DAMPING as int);
            lemma_damp_bounds(if tick_water(s0) { 0int } else { tick_svy(s0) }, WALL_DAMPING as int);
        }

        let dhx = nx - self.hole_x;
        let dhy = ny - self.hole_y;
        let at_hole = sq(dhx) + sq(dhy) < sq(self.hole_r);
        assert(at_hole == tick_hole(s0));

        let mut state = GameState::Moving;
        let mut out_vx = wvx;
        let mut out_vy = wvy;
        if in_water {
            state = GameState::Lose;
            out_vx = 0;
            out_vy = 0;
        } else if at_hole {
            state = GameState::Win;
            out_vx = 0;
            out_vy = 0;
        } else if wvx == 0 && wvy == 0 {
            state = GameState::Ready;
        } else if -STOP_THRESHOLD < wvx && wvx < STOP_THRESHOLD && -STOP_THRESHOLD < wvy && wvy
            < STOP_THRESHOLD {
            state = GameState::Lose;
            out_vx = 0;
            out_vy = 0;
        }
        assert(state == tick_state(s0));
        assert(out_vx == tick_vx_final(s0) && out_vy == tick_vy_final(s0));

        self.ball.x = nx;
        self.ball.y = ny;
        self.ball.vx = out_vx;
        self.ball.vy = out_vy;
        proof {
            lemma_tick_containment(s0);
            lemma_tick_velocity_decay(s0);
            assert(self@ =~= session_after_tick(s0));
        }

        let snap_sand = self.sand_traps.clone();
        let snap_water = self.water_hazards.clone();
        proof {
            assert(snap_sand@ =~= self.sand_traps@);
            assert(snap_water@ =~= self.water_hazards@);
            assert(snap_sand@.map_values(|h: CircleHazard| h@) =~= s0.sand);
            assert(snap_water@.map_values(|h: CircleHazard| h@) =~= s0.water);
        }
        GolfRenderState {
            ball: self.ball,
            game_state: state,
            sand_traps: snap_sand,
            water_hazards: snap_water,
        }
    }

    /// Put the ball back on the tee and regenerate the deterministic
    /// hazard layout for this canvas; the hole, the canvas and the
    /// flags are kept. The returned snapshot reports `Ready`.
    pub fn init(&mut self) -> (snap: GolfRenderState)
        requires
            old(self).wf(),
            old(self)@.canvas_w >= BALL_START_X + BALL_START_R,
            old(self)@.canvas_h >= BALL_START_Y + BALL_START_R,
        ensures
            final(self).wf(),
            final(self)@ == (GolfV {
                ball: start_ball_v(),
                sand: layout_sand(old(self)@.canvas_w, old(self)@.canvas_h),
                water: layout_water(old(self)@.canvas_w, old(self)@.canvas_h),
                ..old(self)@
            }),
            snap.ball@ == start_ball_v(),
            snap.game_state == GameState::Ready,
            snap.sand_traps@.map_values(|h: CircleHazard| h@) == final(self)@.sand,
            snap.water_hazards@.map_values(|h: CircleHazard| h@) == final(self)@.water,
    {
        let ghost s0 = self@;
        self.ball = Ball { x: BALL_START_X, y: BALL_START_Y, r: BALL_START_R, vx: 0, vy: 0 };

        let w = self.canvas_w;
        let h = self.canvas_h;
        let sand_x = 5 * w / 12;
        let water_x = 2 * w / 3;
        let water_y_upper = h / 5;
        let water_y_lower = h - h / 5;
        let sand = vec![CircleHazard { x: sand_x, y: h / 2, r: 4000 }];
        let water = vec![
            CircleHazard { x: water_x, y: water_y_upper, r: 5000 },
            CircleHazard { x: water_x, y: water_y_lower, r: 5000 },
        ];
        proof {
            vstd::arithmetic::div_mod::lemma_div_pos_is_pos(5 * s0.canvas_w, 12);
            vstd::arithmetic::div_mod::lemma_div_is_ordered(5 * s0.canvas_w, 12 * s0.canvas_w, 12);
            vstd::arithmetic::div_mod::lemma_div_multiples_vanish(s0.canvas_w, 12);
            vstd::arithmetic::div_mod::lemma_div_pos_is_pos(2 * s0.canvas_w, 3);
            vstd::arithmetic::div_mod::lemma_div_is_ordered(2 * s0.canvas_w, 3 * s0.canvas_w, 3);
            vstd::arithmetic::div_mod::lemma_div_multiples_vanish(s0.canvas_w, 3);
            vstd::arithmetic::div_mod::lemma_div_pos_is_pos(s0.canvas_h, 2);
            vstd::arithmetic::div_mod::lemma_div_is_ordered(s0.canvas_h, 2 * s0.canvas_h, 2);
            vstd::arithmetic::div_mod::lemma_div_multiples_vanish(s0.canvas_h, 2);
            vstd::arithmetic::div_mod::lemma_div_pos_is_pos(s0.canvas_h, 5);
            vstd::arithmetic::div_mod::lemma_div_is_ordered(s0.canvas_h, 5 * s0.canvas_h, 5);
            vstd::arithmetic::div_mod::lemma_div_multiples_vanish(s0.canvas_h, 5);
            assert(sand@.map_values(|hz: CircleHazard| hz@) =~= layout_sand(s0.canvas_w, s0.canvas_h));
            assert(water@.map_values(|hz: CircleHazard| hz@) =~= layout_water(s0.canvas_w, s0.canvas_h));
        }
        self.sand_traps = sand;
        self.water_hazards = water;
        proof {
            assert(self@ =~= (GolfV {
                ball: start_ball_v(),
                sand: layout_sand(s0.canvas_w, s0.canvas_h),
                water: layout_water(s0.canvas_w, s0.canvas_h),
                ..s0
            }));
        }

        let snap_sand = self.sand_traps.clone();
        let snap_water = self.water_hazards.clone();
        proof {
            assert(snap_sand@ =~= self.sand_traps@);
            assert(snap_water@ =~= self.water_hazards@);
            assert(snap_sand@.map_values(|hz: CircleHazard| hz@) =~= self@.sand);
            assert(snap_water@.map_values(|hz: CircleHazard| hz@) =~= self@.water);
        }
        GolfRenderState {
            ball: self.ball,
            game_state: GameState::Ready,
            sand_traps: snap_sand,
            water_hazards: snap_water,
        }
    }

    /// Convert a drag gesture into a velocity impulse: a slingshot,
    /// so the velocity is the drag inverted, scaled by the
    /// sensitivity. A drag out of range, or a shot while moving when
    /// redirecting is off, is rejected and changes nothing.
    pub fn shoot(&mut self, dx: i64, dy: i64) -> (res: Result<(), GolfError>)
        requires
            old(self).wf(),
        ensures
            final(self).wf(),
            res is Ok <==> shot_allowed(old(self)@, dx as int, dy as int),
            res is Ok ==> final(self)@ == shot_spec(old(self)@, dx as int, dy as int),
            res is Err ==> *final(self) == *old(self),
            res == Err::<(), GolfError>(GolfError::ShotWhileMoving) <==> !old(self)@.allow_redirect
                && !at_rest(old(self)@),
            res == Err::<(), GolfError>(GolfError::DragOutOfRange) <==> (old(self)@.allow_redirect
                || at_rest(old(self)@)) && (abs_val(dx as int) > DRAG_LIMIT as int || abs_val(
                dy as int,
            ) > DRAG_LIMIT as int),
    {
        if !self.allow_redirect && !(self.ball.vx == 0 && self.ball.vy == 0) {
            return Err(GolfError::ShotWhileMoving);
        }
        if dx < -DRAG_LIMIT || dx > DRAG_LIMIT || dy < -DRAG_LIMIT || dy > DRAG_LIMIT {
            return Err(GolfError::DragOutOfRange);
        }
        let vx = damp(-dx, SHOT_SENSITIVITY);
        let vy = damp(-dy, SHOT_SENSITIVITY);
        proof {
            lemma_shot_speed_bound(dx as int);
            lemma_shot_speed_bound(dy as int);
        }
        self.ball.vx = vx;
        self.ball.vy = vy;
        proof {
            assert(self@ =~= shot_spec(old(self)@, dx as int, dy as int));
        }
        Ok(())
    }

    /// Record whether the heavy-ball modifier is unlocked, which
    /// lowers the friction applied each tick.
    pub fn set_heavy_ball(&mut self, unlocked: bool)
        requires
            old(self).wf(),
        ensures
            final(self).wf(),
            final(self)@ == (GolfV { heavy: unlocked, ..old(self)@ }),
    {
        self.heavy_ball_unlocked = unlocked;
        proof {
            assert(self@ =~= (GolfV { heavy: unlocked, ..old(self)@ }));
        }
    }
}

/// A drag within the accepted range yields a velocity within the
/// speed bound the session invariant keeps.
proof fn lemma_shot_speed_bound(d: int)
    requires
        abs_val(d) <= DRAG_LIMIT as int,
    ensures
        abs_val(damp_spec(-d, SHOT_SENSITIVITY as int)) <= SPEED_LIMIT as int,
{
    let m = abs_val(d);
    assert(m * 15 <= 90_000_000_000);
    vstd::arithmetic::div_mod::lemma_div_is_ordered(m * 15, 90_000_000_000, 100);
    vstd::arithmetic::div_mod::lemma_div_pos_is_pos(m * 15, 100);
}

impl Default for GolfSession {
    /// The session the process starts with: default ball and hole on
    /// a 600 x 400 canvas, no hazards until initialization.
    fn default() -> (s: Self)
        ensures
            s@ == default_golf_v(),
            s.wf(),
    {
        let s = GolfSession {
            ball: Ball { x: BALL_START_X, y: BALL_START_Y, r: BALL_START_R, vx: 0, vy: 0 },
            hole_x: 50000,
            hole_y: 20000,
            hole_r: 1500,
            canvas_w: 60000,
            canvas_h: 40000,
            sand_traps: Vec::new(),
            water_hazards: Vec::new(),
            heavy_ball_unlocked: false,
            allow_redirect: true,
        };
        proof {
            assert(s@ =~= default_golf_v());
        }
        s
    }
}

} // verus!
