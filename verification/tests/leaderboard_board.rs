//! Exercises net-worth valuation and leaderboard assembly.
use financial_golf::UserDB;
use financial_golf::leaderboard_standings;
use financial_golf::net_worth;

#[test]
fn net_worth_values_every_share_at_a_flat_rate() {
    let mut db = UserDB::default();
    db.add_golf_coins(100);
    db.buy_shares("ACME".to_owned(), 2, 50).expect("funded");
    db.buy_shares("GLOBEX".to_owned(), 1, 50).expect("funded");
    // 0 coins left, 3 shares at 150 each.
    assert_eq!(net_worth(&db), Some(450));
}

#[test]
fn net_worth_overflow_is_reported() {
    let mut db = UserDB::default();
    db.add_golf_coins(u32::MAX);
    db.portfolio.push(("ACME".to_owned(), 1));
    assert_eq!(net_worth(&db), None);
}

#[test]
fn standings_rank_the_user_in_descending_order() {
    let board = leaderboard_standings("anon-ME".to_owned(), 42690);
    assert_eq!(board.len(), 6);
    let worths: Vec<u32> = board.iter().map(|e| e.net_worth).collect();
    assert_eq!(worths, vec![9999999, 8500000, 420690, 42690, 42000, 15500]);
    assert_eq!(board[3].uuid, "anon-ME");
    for w in board.windows(2) {
        assert!(w[0].net_worth >= w[1].net_worth);
    }
}

#[test]
fn standings_break_ties_in_favor_of_the_showcase() {
    let board = leaderboard_standings("anon-ME".to_owned(), 42000);
    assert_eq!(board[3].uuid, "anon-LDR322");
    assert_eq!(board[4].uuid, "anon-ME");
    assert_eq!(board[4].net_worth, 42000);
}

#[test]
fn standings_can_put_the_user_first_or_last() {
    let top = leaderboard_standings("anon-ME".to_owned(), 10000000);
    assert_eq!(top[0].uuid, "anon-ME");
    let bottom = leaderboard_standings("anon-ME".to_owned(), 3);
    assert_eq!(bottom[5].uuid, "anon-ME");
}
