//! Exercises the profile bookkeeping.
use financial_golf::ProfileError;
use financial_golf::UserDB;
use financial_golf::anon_uuid;

#[test]
fn fresh_profile_is_empty() {
    let db = UserDB::default();
    assert_eq!(db.uuid, "");
    assert_eq!(db.coins, 0);
    assert_eq!(db.high_score, 0);
    assert_eq!(db.quiz_streak, 0);
    assert_eq!(db.gemini_api_key, "");
    assert!(db.portfolio.is_empty());
}

#[test]
fn coins_and_streak_accumulate() {
    let mut db = UserDB::default();
    db.add_golf_coins(600);
    db.add_golf_coins(40);
    assert_eq!(db.coins, 640);
    db.increment_quiz_streak();
    db.increment_quiz_streak();
    assert_eq!(db.quiz_streak, 2);
    db.set_api_key("SECRET-REDACTED".to_owned());
    assert_eq!(db.gemini_api_key, "SECRET-REDACTED");
}

#[test]
fn buying_shares_records_them_and_spends_coins() {
    let mut db = UserDB::default();
    db.add_golf_coins(1000);
    assert_eq!(db.buy_shares("ACME".to_owned(), 3, 400), Ok(()));
    assert_eq!(db.coins, 600);
    assert_eq!(db.portfolio.len(), 1);
    assert_eq!(db.portfolio[0].0, "ACME");
    assert_eq!(db.portfolio[0].1, 3);
    assert_eq!(db.buy_shares("ACME".to_owned(), 2, 300), Ok(()));
    assert_eq!(db.coins, 300);
    assert_eq!(db.portfolio.len(), 1);
    assert_eq!(db.portfolio[0].1, 5);
}

#[test]
fn buying_without_coins_is_rejected_unchanged() {
    let mut db = UserDB::default();
    db.add_golf_coins(100);
    assert_eq!(db.buy_shares("ACME".to_owned(), 1, 101), Err(ProfileError::InsufficientCoins));
    assert_eq!(db.coins, 100);
    assert!(db.portfolio.is_empty());
}

#[test]
fn selling_part_of_a_position_keeps_the_entry() {
    let mut db = UserDB::default();
    db.add_golf_coins(1000);
    db.buy_shares("ACME".to_owned(), 5, 500).expect("funded");
    assert_eq!(db.sell_shares("ACME".to_owned(), 2, 250), Ok(()));
    assert_eq!(db.coins, 750);
    assert_eq!(db.portfolio.len(), 1);
    assert_eq!(db.portfolio[0].1, 3);
}

#[test]
fn selling_everything_removes_the_entry() {
    let mut db = UserDB::default();
    db.add_golf_coins(1000);
    db.buy_shares("ACME".to_owned(), 5, 500).expect("funded");
    db.buy_shares("GLOBEX".to_owned(), 2, 100).expect("funded");
    assert_eq!(db.sell_shares("ACME".to_owned(), 5, 600), Ok(()));
    assert_eq!(db.coins, 1000);
    assert_eq!(db.portfolio.len(), 1);
    assert_eq!(db.portfolio[0].0, "GLOBEX");
    assert_eq!(db.portfolio[0].1, 2);
}

#[test]
fn overselling_is_rejected_unchanged() {
    let mut db = UserDB::default();
    db.add_golf_coins(1000);
    db.buy_shares("ACME".to_owned(), 2, 100).expect("funded");
    assert_eq!(db.sell_shares("ACME".to_owned(), 3, 300), Err(ProfileError::InsufficientShares));
    assert_eq!(db.coins, 900);
    assert_eq!(db.portfolio[0].1, 2);
    assert_eq!(
        db.sell_shares("GLOBEX".to_owned(), 1, 100),
        Err(ProfileError::InsufficientShares)
    );
}

#[test]
fn uuid_is_minted_once_in_uppercase_hex() {
    assert_eq!(anon_uuid(255), "anon-FF");
    assert_eq!(anon_uuid(0), "anon-0");
    assert_eq!(anon_uuid(0x1A2B3C), "anon-1A2B3C");
    let mut db = UserDB::default();
    assert!(db.ensure_uuid(0x2AFF));
    assert_eq!(db.uuid, "anon-2AFF");
    assert!(!db.ensure_uuid(7));
    assert_eq!(db.uuid, "anon-2AFF");
}
