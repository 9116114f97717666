//! Session coordinator.
//!
//! The coordinator owns one golf session and one quiz session, each
//! under its own lock, so an operation on one never waits on
//! contention over the other. Every operation acquires exclusive
//! access, mutates, and returns a fully materialized snapshot before
//! releasing. Each lock carries the session's well-formedness as its
//! invariant, so whoever releases it must restore a sound session;
//! the locks here cannot be poisoned, so the integrity fault of the
//! error taxonomy is never actually raised by this coordinator.
use vstd::prelude::*;

verus! {

use vstd::rwlock::RwLock;

use crate::golf::BALL_START_R;
use crate::golf::BALL_START_X;
use crate::golf::BALL_START_Y;
use crate::golf::DRAG_LIMIT;
use crate::golf::GameState;
use crate::golf::GolfError;
use crate::golf::GolfRenderState;
use crate::golf::GolfSession;
use crate::golf::GolfV;
use crate::golf::abs_val;
use crate::golf::golf_wf;
use crate::golf::start_ball_v;
use crate::golf::tick_ball;
use crate::golf::tick_state;
use crate::profile::ProfileError;
use crate::profile::UserDB;
use crate::quiz::QuizError;
use crate::quiz::QuizResponse;
use crate::quiz::QuizSession;

/// A failed engine operation, per the error taxonomy: an integrity
/// fault when a session guard cannot be acquired cleanly, or the
/// precondition violation a session reported. State is unchanged on
/// every failure.
#[derive(Clone, Copy, PartialEq, Eq, Structural, Debug)]
pub enum EngineError {
    /// The session state guard could not be acquired cleanly; the
    /// session should be recreated, not trusted.
    IntegrityFault,
    /// A golf precondition violation.
    Golf(GolfError),
    /// A quiz precondition violation.
    Quiz(QuizError),
    /// A profile precondition violation.
    Profile(ProfileError),
}

/// Cost of the heavy-ball upgrade, in coins.
pub const PRO_SHOP_COST: u32 = 500;

/// What the golf lock guarantees of every session stored in it:
/// well-formed, with a canvas that can hold the tee position.
pub open spec fn golf_session_ok(g: GolfSession) -> bool {
    &&& g.wf()
    &&& g@.canvas_w >= BALL_START_X + BALL_START_R
    &&& g@.canvas_h >= BALL_START_Y + BALL_START_R
}

/// The golf lock's invariant.
pub open spec fn golf_pred() -> spec_fn(GolfSession) -> bool {
    |g: GolfSession| golf_session_ok(g)
}

/// The quiz lock's invariant.
pub open spec fn quiz_pred() -> spec_fn(QuizSession) -> bool {
    |q: QuizSession| q.wf()
}

/// The coordinator: both sessions, independently locked.
pub struct Coordinator {
    golf: RwLock<GolfSession, spec_fn(GolfSession) -> bool>,
    quiz: RwLock<QuizSession, spec_fn(QuizSession) -> bool>,
}

impl Coordinator {
    /// Both locks carry their session invariant.
    pub closed spec fn wf(&self) -> bool {
        &&& self.golf.pred() == golf_pred()
        &&& self.quiz.pred() == quiz_pred()
    }

    /// Take ownership of the two sessions. A degenerate golf
    /// configuration is rejected here by precondition, never ticked.
    pub fn new(golf: GolfSession, quiz: QuizSession) -> (c: Self)
        requires
            golf_session_ok(golf),
            quiz.wf(),
        ensures
            c.wf(),
    {
        Coordinator {
            golf: RwLock::new(golf, Ghost(golf_pred())),
            quiz: RwLock::new(quiz, Ghost(quiz_pred())),
        }
    }

    /// The coordinator the process starts with: default sessions.
    pub fn start() -> (c: Self)
        ensures
            c.wf(),
    {
        Coordinator::new(GolfSession::default(), QuizSession::default())
    }

    /// Reset the ball to the tee and regenerate the hazard layout.
    pub fn init_golf(&self) -> (snap: GolfRenderState)
        requires
            self.wf(),
        ensures
            snap.game_state == GameState::Ready,
            snap.ball@ == start_ball_v(),
    {
        let (mut g, handle) = self.golf.acquire_write();
        let snap = g.init();
        handle.release_write(g);
        snap
    }

    /// Convert a drag gesture into the ball's velocity. A rejected
    /// shot reports which golf precondition failed and changes
    /// nothing.
    pub fn shoot_golf(&self, dx: i64, dy: i64) -> (res: Result<(), EngineError>)
        requires
            self.wf(),
        ensures
            res is Ok ==> abs_val(dx as int) <= DRAG_LIMIT && abs_val(dy as int) <= DRAG_LIMIT,
            res is Err ==> res == Err::<(), EngineError>(EngineError::Golf(
                GolfError::ShotWhileMoving,
            )) || res == Err::<(), EngineError>(EngineError::Golf(GolfError::DragOutOfRange)),
    {
        let (mut g, handle) = self.golf.acquire_write();
        let res = g.shoot(dx, dy);
        handle.release_write(g);
        match res {
            Ok(()) => Ok(()),
            Err(e) => Err(EngineError::Golf(e)),
        }
    }

    /// Advance the simulation one step and return the snapshot. The
    /// snapshot is what one tick of some well-formed session yields,
    /// so every tick law holds of it; in particular the ball stays
    /// within its session's canvas.
    pub fn tick_golf(&self) -> (snap: GolfRenderState)
        requires
            self.wf(),
        ensures
            exists|s: GolfV|
                {
                    &&& golf_wf(s)
                    &&& snap.ball@ == tick_ball(s)
                    &&& snap.game_state == tick_state(s)
                    &&& s.ball.r <= snap.ball@.x <= s.canvas_w - s.ball.r
                    &&& s.ball.r <= snap.ball@.y <= s.canvas_h - s.ball.r
                },
    {
        let (mut g, handle) = self.golf.acquire_write();
        let ghost s0 = g@;
        let snap = g.tick();
        proof {
            crate::golf::lemma_tick_containment(s0);
        }
        handle.release_write(g);
        proof {
            assert(golf_wf(s0) && snap.ball@ == tick_ball(s0) && snap.game_state == tick_state(s0)
                && s0.ball.r <= snap.ball@.x <= s0.canvas_w - s0.ball.r && s0.ball.r
                <= snap.ball@.y <= s0.canvas_h - s0.ball.r);
        }
        snap
    }

    /// Record whether the heavy-ball modifier is unlocked. A corrupt
    /// or missing progression store maps to `false` on the caller's
    /// side, never to a failure here.
    pub fn set_heavy_ball(&self, unlocked: bool)
        requires
            self.wf(),
    {
        let (mut g, handle) = self.golf.acquire_write();
        g.set_heavy_ball(unlocked);
        handle.release_write(g);
    }

    /// Spend coins on the heavy-ball upgrade and unlock it; with too
    /// few coins the purchase is rejected and nothing changes.
    pub fn buy_pro_shop_upgrade(&self, db: &mut UserDB) -> (res: Result<(), EngineError>)
        requires
            self.wf(),
            old(db).wf(),
        ensures
            final(db).wf(),
            old(db).coins < PRO_SHOP_COST ==> res == Err::<(), EngineError>(EngineError::Profile(
                ProfileError::InsufficientCoins,
            )) && *final(db) == *old(db),
            old(db).coins >= PRO_SHOP_COST ==> {
                &&& res is Ok
                &&& final(db).coins == old(db).coins - PRO_SHOP_COST
                &&& final(db).same_identity(old(db))
                &&& final(db).portfolio == old(db).portfolio
            },
    {
        if db.coins < PRO_SHOP_COST {
            return Err(EngineError::Profile(ProfileError::InsufficientCoins));
        }
        db.coins = db.coins - PRO_SHOP_COST;
        let (mut g, handle) = self.golf.acquire_write();
        g.set_heavy_ball(true);
        handle.release_write(g);
        Ok(())
    }

    /// Serve the question at the cursor, or the completion signal.
    pub fn get_quiz(&self) -> (r: QuizResponse)
        requires
            self.wf(),
        ensures
            r.current_number <= r.total,
            r.is_complete <==> r.question is None,
    {
        let (q, handle) = self.quiz.acquire_write();
        let r = q.current();
        handle.release_write(q);
        r
    }

    /// Grade a submitted option index and advance the cursor; an
    /// index that is no option of the current question is rejected
    /// and changes nothing.
    pub fn check_answer(&self, selected: usize) -> (res: Result<bool, EngineError>)
        requires
            self.wf(),
        ensures
            res is Err ==> res == Err::<bool, EngineError>(EngineError::Quiz(
                QuizError::OptionOutOfRange,
            )),
    {
        let (mut q, handle) = self.quiz.acquire_write();
        let res = q.submit(selected);
        handle.release_write(q);
        match res {
            Ok(correct) => Ok(correct),
            Err(e) => Err(EngineError::Quiz(e)),
        }
    }

    /// Put the quiz cursor back at the first question.
    pub fn reset_quiz(&self)
        requires
            self.wf(),
    {
        let (mut q, handle) = self.quiz.acquire_write();
        q.reset();
        handle.release_write(q);
    }
}

/// The static security posture string shown in the settings screen.
pub fn get_security_status() -> (r: Result<String, String>)
    ensures
        r matches Ok(s) && s@
            == "Ransomware Protection: Active. App is sandboxed. All OS hooks restricted."@,
{
    Ok("Ransomware Protection: Active. App is sandboxed. All OS hooks restricted.".to_owned())
}

/// Centralized error message mapping: every surfaced error carries
/// the same prefix before its own rendering.
pub fn format_err(err: &str) -> (r: String)
    ensures
        r@ == "[Enterprise Error]: "@ + err@,
{
    let mut s = "[Enterprise Error]: ".to_owned();
    s.append(err);
    s
}

} // verus!
