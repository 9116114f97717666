//! Exercises the session coordinator's command surface.
use financial_golf::Coordinator;
use financial_golf::EngineError;
use financial_golf::GameState;
use financial_golf::GolfError;
use financial_golf::ProfileError;
use financial_golf::QuizError;
use financial_golf::UserDB;
use financial_golf::buy_vs_rent_result;
use financial_golf::format_err;
use financial_golf::get_security_status;

#[test]
fn golf_commands_run_through_the_coordinator() {
    let c = Coordinator::start();
    let snap = c.init_golf();
    assert_eq!(snap.game_state, GameState::Ready);
    assert_eq!(snap.ball.x, 5000);
    assert_eq!(snap.sand_traps.len(), 1);
    assert_eq!(snap.water_hazards.len(), 2);
    assert!(c.shoot_golf(-2000, 0).is_ok());
    let after = c.tick_golf();
    assert_eq!(after.game_state, GameState::Moving);
    assert_eq!(after.ball.x, 5300);
    assert_eq!(after.ball.vx, 294);
}

#[test]
fn oversized_drag_is_reported_through_the_coordinator() {
    let c = Coordinator::start();
    assert_eq!(
        c.shoot_golf(0, 6_000_000_001),
        Err(EngineError::Golf(GolfError::DragOutOfRange))
    );
}

#[test]
fn quiz_commands_run_through_the_coordinator() {
    let c = Coordinator::start();
    let r = c.get_quiz();
    assert!(!r.is_complete);
    assert_eq!(r.current_number, 1);
    assert_eq!(r.total, 10);
    assert_eq!(c.check_answer(1), Ok(true));
    assert_eq!(c.check_answer(0), Ok(false));
    assert_eq!(
        c.check_answer(9),
        Err(EngineError::Quiz(QuizError::OptionOutOfRange))
    );
    c.reset_quiz();
    let back = c.get_quiz();
    assert_eq!(back.current_number, 1);
}

#[test]
fn pro_shop_upgrade_needs_five_hundred_coins() {
    let c = Coordinator::start();
    let mut db = UserDB::default();
    db.add_golf_coins(499);
    assert_eq!(
        c.buy_pro_shop_upgrade(&mut db),
        Err(EngineError::Profile(ProfileError::InsufficientCoins))
    );
    assert_eq!(db.coins, 499);
    db.add_golf_coins(101);
    assert_eq!(c.buy_pro_shop_upgrade(&mut db), Ok(()));
    assert_eq!(db.coins, 100);
    // The heavy ball now keeps more momentum per tick.
    c.init_golf();
    assert!(c.shoot_golf(-2000, 0).is_ok());
    let after = c.tick_golf();
    assert_eq!(after.ball.vx, 297);
}

#[test]
fn security_status_is_the_fixed_notice() {
    assert_eq!(
        get_security_status(),
        Ok("Ransomware Protection: Active. App is sandboxed. All OS hooks restricted.".to_owned())
    );
}

#[test]
fn error_formatting_keeps_the_prefix() {
    let msg = format_err("disk on fire");
    assert_eq!(msg, "[Enterprise Error]: disk on fire");
    assert!(msg.starts_with("[Enterprise Error]: "));
}

#[test]
fn buy_vs_rent_applies_the_breakeven_rule() {
    let buy = buy_vs_rent_result(2, true);
    assert_eq!(buy.years_to_breakeven, 7);
    assert_eq!(buy.recommendation, "Buy");
    let rent = buy_vs_rent_result(0, false);
    assert_eq!(rent.years_to_breakeven, 5);
    assert_eq!(rent.recommendation, "Rent");
}
