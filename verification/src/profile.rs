//! The user profile as the engine reads and writes it.
//!
//! The profile is persisted by an outside store; this module holds
//! the verified bookkeeping on the in-memory value: coins, streaks,
//! the API key, the identifier, and the stock portfolio. The
//! portfolio is a list of ticker and share-count pairs whose tickers
//! stay pairwise distinct.
use vstd::prelude::*;

verus! {

/// Rejection of a profile operation; the profile is left unchanged.
#[derive(Clone, Copy, PartialEq, Eq, Structural, Debug)]
pub enum ProfileError {
    /// The purchase costs more coins than the profile holds.
    InsufficientCoins,
    /// The sale asks for more shares than the profile owns.
    InsufficientShares,
}

/// The persisted user profile.
pub struct UserDB {
    pub uuid: String,
    pub coins: u32,
    pub high_score: u32,
    pub quiz_streak: u32,
    pub gemini_api_key: String,
    pub portfolio: Vec<(String, u32)>,
}

/// Tickers in a portfolio are pairwise distinct.
pub open spec fn unique_tickers(p: Seq<(String, u32)>) -> bool {
    forall|a: int, b: int| 0 <= a < b < p.len() ==> (#[trigger] p[a]).0@ != (#[trigger] p[b]).0@
}

/// The share count a portfolio holds for a ticker, zero when absent.
pub open spec fn shares_of(p: Seq<(String, u32)>, t: Seq<char>) -> u32
    decreases p.len(),
{
    if p.len() == 0 {
        0u32
    } else if p[0].0@ == t {
        p[0].1
    } else {
        shares_of(p.drop_first(), t)
    }
}

/// Whether a portfolio has an entry for a ticker.
pub open spec fn has_ticker(p: Seq<(String, u32)>, t: Seq<char>) -> bool {
    exists|k: int| 0 <= k < p.len() && (#[trigger] p[k]).0@ == t
}

/// A prefix free of a ticker does not affect its share count.
proof fn lemma_shares_of_skip(p: Seq<(String, u32)>, t: Seq<char>, i: int)
    requires
        0 <= i <= p.len(),
        forall|k: int| 0 <= k < i ==> (#[trigger] p[k]).0@ != t,
    ensures
        shares_of(p, t) == shares_of(p.skip(i), t),
    decreases i,
{
    if i == 0 {
        assert(p.skip(0) =~= p);
    } else {
        assert(p.drop_first() =~= p.skip(1));
        lemma_shares_of_skip(p.drop_first(), t, i - 1);
        assert(p.drop_first().skip(i - 1) =~= p.skip(i));
    }
}

/// A ticker absent from a portfolio has share count zero.
proof fn lemma_shares_of_absent(p: Seq<(String, u32)>, t: Seq<char>)
    requires
        forall|k: int| 0 <= k < p.len() ==> (#[trigger] p[k]).0@ != t,
    ensures
        shares_of(p, t) == 0,
{
    lemma_shares_of_skip(p, t, p.len() as int);
}

/// Replacing an entry whose ticker is not `t` leaves `t`'s count alone.
proof fn lemma_shares_of_update_other(
    p: Seq<(String, u32)>,
    i: int,
    x: (String, u32),
    t: Seq<char>,
)
    requires
        0 <= i < p.len(),
        p[i].0@ != t,
        x.0@ != t,
    ensures
        shares_of(p.update(i, x), t) == shares_of(p, t),
    decreases i,
{
    let q = p.update(i, x);
    if i == 0 {
        assert(q.drop_first() =~= p.drop_first());
    } else {
        assert(q.drop_first() =~= p.drop_first().update(i - 1, x));
        lemma_shares_of_update_other(p.drop_first(), i - 1, x, t);
    }
}

/// Appending an entry whose ticker is not `t` leaves `t`'s count alone.
proof fn lemma_shares_of_push_other(p: Seq<(String, u32)>, x: (String, u32), t: Seq<char>)
    requires
        x.0@ != t,
    ensures
        shares_of(p.push(x), t) == shares_of(p, t),
    decreases p.len(),
{
    if p.len() == 0 {
        reveal_with_fuel(shares_of, 2);
        assert(p.push(x)[0] == x);
        assert(p.push(x).drop_first() =~= Seq::<(String, u32)>::empty());
    } else {
        assert(p.push(x)[0] == p[0]);
        assert(p.push(x).drop_first() =~= p.drop_first().push(x));
        lemma_shares_of_push_other(p.drop_first(), x, t);
    }
}

/// Removing an entry whose ticker is not `t` leaves `t`'s count alone.
proof fn lemma_shares_of_remove_other(p: Seq<(String, u32)>, i: int, t: Seq<char>)
    requires
        0 <= i < p.len(),
        p[i].0@ != t,
    ensures
        shares_of(p.remove(i), t) == shares_of(p, t),
    decreases i,
{
    let q = p.remove(i);
    if i == 0 {
        assert(q =~= p.drop_first());
    } else {
        assert(q.drop_first() =~= p.drop_first().remove(i - 1));
        lemma_shares_of_remove_other(p.drop_first(), i - 1, t);
    }
}

impl UserDB {
    /// Portfolio tickers are pairwise distinct.
    pub open spec fn wf(&self) -> bool {
        unique_tickers(self.portfolio@)
    }

    /// The share count this profile holds for a ticker.
    pub open spec fn shares_spec(&self, t: Seq<char>) -> u32 {
        shares_of(self.portfolio@, t)
    }

    /// All fields but coins and portfolio, unchanged.
    pub open spec fn same_identity(&self, other: &UserDB) -> bool {
        &&& self.uuid == other.uuid
        &&& self.high_score == other.high_score
        &&& self.quiz_streak == other.quiz_streak
        &&& self.gemini_api_key == other.gemini_api_key
    }

    /// The index of a ticker's entry, scanning from the front.
    fn find_ticker(&self, ticker: &String) -> (r: Option<usize>)
        ensures
            match r {
                Some(i) => {
                    &&& i < self.portfolio@.len()
                    &&& self.portfolio@[i as int].0@ == ticker@
                    &&& forall|k: int|
                        0 <= k < i ==> (#[trigger] self.portfolio@[k]).0@ != ticker@
                },
                None => forall|k: int|
                    0 <= k < self.portfolio@.len() ==> (#[trigger] self.portfolio@[k]).0@
                        != ticker@,
            },
    {
        let mut i: usize = 0;
        while i < self.portfolio.len()
            invariant
                0 <= i <= self.portfolio@.len(),
                forall|k: int| 0 <= k < i ==> (#[trigger] self.portfolio@[k]).0@ != ticker@,
            decreases self.portfolio@.len() - i,
        {
            if self.portfolio[i].0 == *ticker {
                return Some(i);
            }
            i += 1;
        }
        None
    }

    /// Add bought shares of a ticker to the portfolio and deduct the
    /// already-computed total cost, or reject the purchase when the
    /// coins do not cover it.
    pub fn buy_shares(&mut self, ticker: String, shares: u32, total_cost: u32) -> (res: Result<
        (),
        ProfileError,
    >)
        requires
            old(self).wf(),
            old(self).shares_spec(ticker@) + shares <= u32::MAX,
        ensures
            final(self).wf(),
            old(self).coins < total_cost ==> res == Err::<(), ProfileError>(
                ProfileError::InsufficientCoins,
            ) && *final(self) == *old(self),
            old(self).coins >= total_cost ==> {
                &&& res is Ok
                &&& final(self).coins == old(self).coins - total_cost
                &&& final(self).same_identity(old(self))
                &&& final(self).shares_spec(ticker@) == old(self).shares_spec(ticker@) + shares
                &&& forall|t2: Seq<char>|
                    t2 != ticker@ ==> #[trigger] final(self).shares_spec(t2) == old(
                        self,
                    ).shares_spec(t2)
            },
    {
        if self.coins < total_cost {
            return Err(ProfileError::InsufficientCoins);
        }
        self.coins = self.coins - total_cost;
        let ghost p0 = self.portfolio@;
        match self.find_ticker(&ticker) {
            Some(i) => {
                proof {
                    lemma_shares_of_skip(p0, ticker@, i as int);
                }
                let owned = self.portfolio[i].1;
                assert(owned == shares_of(p0, ticker@));
                let updated = (ticker, owned + shares);
                self.portfolio.set(i, updated);
                proof {
                    let p1 = self.portfolio@;
                    lemma_shares_of_skip(p1, ticker@, i as int);
                    assert(p1.skip(i as int)[0] == p1[i as int]);
                    assert(shares_of(p1, ticker@) == p1[i as int].1);
                    assert forall|t2: Seq<char>| t2 != ticker@ implies #[trigger] shares_of(
                        p1,
                        t2,
                    ) == shares_of(p0, t2) by {
                        lemma_shares_of_update_other(p0, i as int, p1[i as int], t2);
                    }
                }
            },
            None => {
                proof {
                    lemma_shares_of_absent(p0, ticker@);
                }
                self.portfolio.push((ticker, shares));
                proof {
                    let p1 = self.portfolio@;
                    lemma_shares_of_skip(p1, ticker@, p0.len() as int);
                    assert(p1.skip(p0.len() as int) =~= seq![p1[p0.len() as int]]);
                    assert(shares_of(p1, ticker@) == p1[p0.len() as int].1);
                    assert forall|t2: Seq<char>| t2 != ticker@ implies #[trigger] shares_of(
                        p1,
                        t2,
                    ) == shares_of(p0, t2) by {
                        lemma_shares_of_push_other(p0, p1[p0.len() as int], t2);
                    }
                }
            },
        }
        Ok(())
    }

    /// Remove sold shares of a ticker from the portfolio, dropping
    /// the entry when all of them go, and credit the already-computed
    /// total value; a sale of more shares than owned is rejected.
    pub fn sell_shares(&mut self, ticker: String, shares: u32, total_value: u32) -> (res: Result<
        (),
        ProfileError,
    >)
        requires
            old(self).wf(),
            old(self).coins + total_value <= u32::MAX,
        ensures
            final(self).wf(),
            old(self).shares_spec(ticker@) < shares ==> res == Err::<(), ProfileError>(
                ProfileError::InsufficientShares,
            ) && *final(self) == *old(self),
            old(self).shares_spec(ticker@) >= shares ==> {
                &&& res is Ok
                &&& final(self).coins == old(self).coins + total_value
                &&& final(self).same_identity(old(self))
                &&& final(self).shares_spec(ticker@) == old(self).shares_spec(ticker@) - shares
                &&& forall|t2: Seq<char>|
                    t2 != ticker@ ==> #[trigger] final(self).shares_spec(t2) == old(
                        self,
                    ).shares_spec(t2)
                &&& old(self).shares_spec(ticker@) == shares ==> !has_ticker(
                    final(self).portfolio@,
                    ticker@,
                )
            },
    {
        let ghost p0 = self.portfolio@;
        let found = self.find_ticker(&ticker);
        let owned: u32 = match found {
            Some(i) => {
                proof {
                    lemma_shares_of_skip(p0, ticker@, i as int);
                }
                self.portfolio[i].1
            },
            None => {
                proof {
                    lemma_shares_of_absent(p0, ticker@);
                }
                0
            },
        };
        assert(owned == shares_of(p0, ticker@));
        if owned < shares {
            return Err(ProfileError::InsufficientShares);
        }
        self.coins = self.coins + total_value;
        match found {
            Some(i) => {
                if owned == shares {
                    self.portfolio.remove(i);
                    proof {
                        let p1 = self.portfolio@;
                        assert forall|k: int|
                            0 <= k < p1.len() implies (#[trigger] p1[k]).0@ != ticker@ by {
                            if k >= i {
                                assert(p1[k] == p0[k + 1]);
                            }
                        }
                        lemma_shares_of_absent(p1, ticker@);
                        assert forall|t2: Seq<char>| t2 != ticker@ implies #[trigger] shares_of(
                            p1,
                            t2,
                        ) == shares_of(p0, t2) by {
                            lemma_shares_of_remove_other(p0, i as int, t2);
                        }
                        assert(unique_tickers(p1)) by {
                            assert forall|a: int, b: int|
                                0 <= a < b < p1.len() implies (#[trigger] p1[a]).0@ != (
                            #[trigger] p1[b]).0@ by {
                                assert(p1[a] == if a < i {
                                    p0[a]
                                } else {
                                    p0[a + 1]
                                });
                                assert(p1[b] == if b < i {
                                    p0[b]
                                } else {
                                    p0[b + 1]
                                });
                            }
                        }
                    }
                } else {
                    let updated = (ticker, owned - shares);
                    self.portfolio.set(i, updated);
                    proof {
                        let p1 = self.portfolio@;
                        lemma_shares_of_skip(p1, ticker@, i as int);
                        assert(p1.skip(i as int)[0] == p1[i as int]);
                        assert(shares_of(p1, ticker@) == p1[i as int].1);
                        assert forall|t2: Seq<char>| t2 != ticker@ implies #[trigger] shares_of(
                            p1,
                            t2,
                        ) == shares_of(p0, t2) by {
                            lemma_shares_of_update_other(p0, i as int, p1[i as int], t2);
                        }
                    }
                }
            },
            None => {
                proof {
                    assert(shares == 0);
                }
            },
        }
        Ok(())
    }

    /// Credit coins won at golf.
    pub fn add_golf_coins(&mut self, amount: u32)
        requires
            old(self).wf(),
            old(self).coins + amount <= u32::MAX,
        ensures
            final(self).wf(),
            final(self).coins == old(self).coins + amount,
            final(self).same_identity(old(self)),
            final(self).portfolio == old(self).portfolio,
    {
        self.coins = self.coins + amount;
    }

    /// Extend the quiz streak by one.
    pub fn increment_quiz_streak(&mut self)
        requires
            old(self).wf(),
            old(self).quiz_streak < u32::MAX,
        ensures
            final(self).wf(),
            final(self).quiz_streak == old(self).quiz_streak + 1,
            final(self).coins == old(self).coins,
            final(self).uuid == old(self).uuid,
            final(self).high_score == old(self).high_score,
            final(self).gemini_api_key == old(self).gemini_api_key,
            final(self).portfolio == old(self).portfolio,
    {
        self.quiz_streak = self.quiz_streak + 1;
    }

    /// Store the tutor API key.
    pub fn set_api_key(&mut self, api_key: String)
        requires
            old(self).wf(),
        ensures
            final(self).wf(),
            final(self).gemini_api_key == api_key,
            final(self).coins == old(self).coins,
            final(self).uuid == old(self).uuid,
            final(self).high_score == old(self).high_score,
            final(self).quiz_streak == old(self).quiz_streak,
            final(self).portfolio == old(self).portfolio,
    {
        self.gemini_api_key = api_key;
    }
}

/// The uppercase hex digit for a value below sixteen.
pub open spec fn hex_char_upper(n: u8) -> char {
    if n == 0 {
        '0'
    } else if n == 1 {
        '1'
    } else if n == 2 {
        '2'
    } else if n == 3 {
        '3'
    } else if n == 4 {
        '4'
    } else if n == 5 {
        '5'
    } else if n == 6 {
        '6'
    } else if n == 7 {
        '7'
    } else if n == 8 {
        '8'
    } else if n == 9 {
        '9'
    } else if n == 10 {
        'A'
    } else if n == 11 {
        'B'
    } else if n == 12 {
        'C'
    } else if n == 13 {
        'D'
    } else if n == 14 {
        'E'
    } else {
        'F'
    }
}

/// The uppercase hex digits of a number, most significant first.
pub open spec fn uhex_chars(n: nat) -> Seq<char>
    decreases n,
{
    if n < 16 {
        seq![hex_char_upper(n as u8)]
    } else {
        uhex_chars(n / 16) + seq![hex_char_upper((n % 16) as u8)]
    }
}

/// The anonymous identifier minted from a creation timestamp in
/// milliseconds: `anon-` followed by the uppercase hex of the time.
pub open spec fn uuid_of(millis: nat) -> Seq<char> {
    "anon-"@ + uhex_chars(millis)
}

/// One uppercase hex digit as a string slice.
fn hex_digit_upper_str(n: u8) -> (r: &'static str)
    requires
        n < 16,
    ensures
        r@ == seq![hex_char_upper(n)],
{
    proof {
        reveal_strlit("0");
        reveal_strlit("1");
        reveal_strlit("2");
        reveal_strlit("3");
        reveal_strlit("4");
        reveal_strlit("5");
        reveal_strlit("6");
        reveal_strlit("7");
        reveal_strlit("8");
        reveal_strlit("9");
        reveal_strlit("A");
        reveal_strlit("B");
        reveal_strlit("C");
        reveal_strlit("D");
        reveal_strlit("E");
        reveal_strlit("F");
    }
    let r: &'static str = if n == 0 {
        "0"
    } else if n == 1 {
        "1"
    } else if n == 2 {
        "2"
    } else if n == 3 {
        "3"
    } else if n == 4 {
        "4"
    } else if n == 5 {
        "5"
    } else if n == 6 {
        "6"
    } else if n == 7 {
        "7"
    } else if n == 8 {
        "8"
    } else if n == 9 {
        "9"
    } else if n == 10 {
        "A"
    } else if n == 11 {
        "B"
    } else if n == 12 {
        "C"
    } else if n == 13 {
        "D"
    } else if n == 14 {
        "E"
    } else {
        "F"
    };
    proof {
        assert(r@ =~= seq![hex_char_upper(n)]);
    }
    r
}

/// Append the uppercase hex digits of a number to a string.
fn push_uhex(s: &mut String, n: u64)
    ensures
        final(s)@ == old(s)@ + uhex_chars(n as nat),
    decreases n,
{
    if n < 16 {
        s.append(hex_digit_upper_str(n as u8));
    } else {
        push_uhex(s, n / 16);
        s.append(hex_digit_upper_str((n % 16) as u8));
        proof {
            assert(old(s)@ + uhex_chars((n / 16) as nat) + seq![
                hex_char_upper((n % 16) as u8),
            ] =~= old(s)@ + uhex_chars(n as nat));
        }
    }
}

/// Mint the anonymous identifier for a creation timestamp.
pub fn anon_uuid(millis: u64) -> (r: String)
    ensures
        r@ == uuid_of(millis as nat),
{
    let mut s = "anon-".to_owned();
    push_uhex(&mut s, millis);
    s
}

impl UserDB {
    /// Give a profile without an identifier one minted from the
    /// timestamp; a profile that has one is left alone. Returns
    /// whether the profile changed.
    pub fn ensure_uuid(&mut self, millis: u64) -> (changed: bool)
        requires
            old(self).wf(),
        ensures
            final(self).wf(),
            changed == (old(self).uuid@.len() == 0),
            changed ==> final(self).uuid@ == uuid_of(millis as nat),
            !changed ==> *final(self) == *old(self),
            final(self).coins == old(self).coins,
            final(self).high_score == old(self).high_score,
            final(self).quiz_streak == old(self).quiz_streak,
            final(self).gemini_api_key == old(self).gemini_api_key,
            final(self).portfolio == old(self).portfolio,
    {
        if self.uuid.as_str().is_empty() {
            self.uuid = anon_uuid(millis);
            true
        } else {
            false
        }
    }
}

impl Default for UserDB {
    /// A fresh profile: everything empty or zero.
    fn default() -> (db: Self)
        ensures
            db.wf(),
            db.uuid@ == Seq::<char>::empty(),
            db.coins == 0,
            db.high_score == 0,
            db.quiz_streak == 0,
            db.gemini_api_key@ == Seq::<char>::empty(),
            db.portfolio@ == Seq::<(String, u32)>::empty(),
    {
        UserDB {
            uuid: String::new(),
            coins: 0,
            high_score: 0,
            quiz_streak: 0,
            gemini_api_key: String::new(),
            portfolio: Vec::new(),
        }
    }
}

} // verus!
