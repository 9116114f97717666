//! Simulation and progression engine for an educational mini-golf and
//! finance-quiz application: a fixed-point physics simulator, a quiz
//! engine with one-way answer commitments, and a session coordinator
//! that guards both under independent locks.
pub mod commit;
pub mod coordinator;
pub mod finance;
pub mod golf;
pub mod leaderboard;
pub mod profile;
pub mod quiz;

pub use commit::compute_hash;
pub use coordinator::Coordinator;
pub use coordinator::EngineError;
pub use golf::GolfError;
pub use golf::GolfRenderState;
pub use golf::GolfSession;
pub use leaderboard::leaderboard_standings;
pub use leaderboard::net_worth;
pub use coordinator::format_err;
pub use coordinator::get_security_status;
pub use finance::BuyVsRentResult;
pub use finance::buy_vs_rent_result;
pub use leaderboard::LeaderboardEntry;
pub use profile::ProfileError;
pub use profile::UserDB;
pub use profile::anon_uuid;
pub use quiz::Question;
pub use quiz::QuizError;
pub use quiz::QuizQuestion;
pub use quiz::QuizResponse;
pub use quiz::QuizSession;

pub use golf::Ball;
pub use golf::CircleHazard;
pub use golf::GameState;
