//! Leaderboard assembly.
//!
//! The outside sync posts the profile's net worth and shows a board;
//! the verified part is the arithmetic and the ordering: the net
//! worth of a profile values every share at a flat 150 coins, and the
//! board ranks the user's entry among the fixed showcase entries in
//! descending net worth, ties resolved in favor of the earlier entry.
use vstd::prelude::*;

verus! {

use crate::profile::UserDB;

/// One leaderboard row.
pub struct LeaderboardEntry {
    pub uuid: String,
    pub net_worth: u32,
}

/// Flat per-share valuation used for the fast sync.
pub const SHARE_VALUE: u32 = 150;

/// The value of the first `n` portfolio entries at the flat rate.
pub open spec fn portfolio_value_upto(p: Seq<(String, u32)>, n: int) -> int
    decreases n,
{
    if n <= 0 {
        0
    } else {
        portfolio_value_upto(p, n - 1) + (SHARE_VALUE as int) * p[n - 1].1
    }
}

/// The value of a whole portfolio at the flat rate.
pub open spec fn portfolio_value(p: Seq<(String, u32)>) -> int {
    portfolio_value_upto(p, p.len() as int)
}

/// A profile's net worth: coins plus the flat portfolio valuation.
pub open spec fn net_worth_of(db: &UserDB) -> int {
    db.coins + portfolio_value(db.portfolio@)
}

/// Prefix valuations only grow with the prefix.
proof fn lemma_portfolio_value_monotone(p: Seq<(String, u32)>, m: int, n: int)
    requires
        0 <= m <= n,
    ensures
        portfolio_value_upto(p, m) <= portfolio_value_upto(p, n),
    decreases n - m,
{
    if m < n {
        lemma_portfolio_value_monotone(p, m, n - 1);
    }
}

/// Compute a profile's net worth, or nothing when it does not fit a
/// `u32`.
pub fn net_worth(db: &UserDB) -> (r: Option<u32>)
    ensures
        r matches Some(v) ==> v == net_worth_of(db) && net_worth_of(db) <= u32::MAX,
        r is None ==> net_worth_of(db) > u32::MAX,
{
    let mut acc: u64 = db.coins as u64;
    let mut i: usize = 0;
    while i < db.portfolio.len()
        invariant
            0 <= i <= db.portfolio@.len(),
            acc == db.coins + portfolio_value_upto(db.portfolio@, i as int),
            acc <= u32::MAX,
        decreases db.portfolio@.len() - i,
    {
        let shares = db.portfolio[i].1;
        let next = acc + (SHARE_VALUE as u64) * (shares as u64);
        if next > u32::MAX as u64 {
            proof {
                lemma_portfolio_value_monotone(db.portfolio@, i + 1, db.portfolio@.len() as int);
            }
            return None;
        }
        acc = next;
        i += 1;
    }
    Some(acc as u32)
}

/// The view of a board row: identifier and net worth.
pub open spec fn row_view(e: LeaderboardEntry) -> (Seq<char>, u32) {
    (e.uuid@, e.net_worth)
}

/// The fixed showcase entries, already in descending net worth.
pub open spec fn showcase_rows() -> Seq<(Seq<char>, u32)> {
    seq![
        ("anon-SATOSHI"@, 9999999u32),
        ("anon-BUFFETT"@, 8500000u32),
        ("anon-DIAMOND_HANDS"@, 420690u32),
        ("anon-LDR322"@, 42000u32),
        ("anon-RUSTACEAN"@, 15500u32),
    ]
}

/// Where the user's entry ranks among the showcase entries: after
/// every entry with at least its net worth, as a stable descending
/// sort of the user-last list would place it.
pub open spec fn user_rank(nw: u32) -> int {
    if nw > 9999999 {
        0
    } else if nw > 8500000 {
        1
    } else if nw > 420690 {
        2
    } else if nw > 42000 {
        3
    } else if nw > 15500 {
        4
    } else {
        5
    }
}

/// The rows of the board for a user entry.
pub open spec fn standings_spec(uuid_v: Seq<char>, nw: u32) -> Seq<(Seq<char>, u32)> {
    showcase_rows().insert(user_rank(nw), (uuid_v, nw))
}

/// Assemble the board shown after a sync: the five showcase entries
/// and the user's own, in descending net worth.
pub fn leaderboard_standings(uuid: String, net_worth: u32) -> (r: Vec<LeaderboardEntry>)
    ensures
        r@.map_values(|e: LeaderboardEntry| row_view(e)) == standings_spec(uuid@, net_worth),
        r@.len() == 6,
        forall|i: int, j: int| 0 <= i < j < r@.len() ==> r@[i].net_worth >= r@[j].net_worth,
{
    let mut board: Vec<LeaderboardEntry> = Vec::new();
    board.push(LeaderboardEntry { uuid: "anon-SATOSHI".to_owned(), net_worth: 9999999 });
    board.push(LeaderboardEntry { uuid: "anon-BUFFETT".to_owned(), net_worth: 8500000 });
    board.push(LeaderboardEntry { uuid: "anon-DIAMOND_HANDS".to_owned(), net_worth: 420690 });
    board.push(LeaderboardEntry { uuid: "anon-LDR322".to_owned(), net_worth: 42000 });
    board.push(LeaderboardEntry { uuid: "anon-RUSTACEAN".to_owned(), net_worth: 15500 });
    let pos: usize = if net_worth > 9999999 {
        0
    } else if net_worth > 8500000 {
        1
    } else if net_worth > 420690 {
        2
    } else if net_worth > 42000 {
        3
    } else if net_worth > 15500 {
        4
    } else {
        5
    };
    board.insert(pos, LeaderboardEntry { uuid, net_worth });
    proof {
        assert(board@.map_values(|e: LeaderboardEntry| row_view(e)) =~= standings_spec(
            uuid@,
            net_worth,
        ));
    }
    board
}

} // verus!
