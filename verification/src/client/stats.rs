//! The player's statistics: the running session, the lifetime totals and the
//! numbers rolled of late. Averages, rates and temperatures are ratios of
//! these counts and are left to the caller.
use vstd::prelude::*;
use std::collections::HashMap;
use crate::client::game::{GameState, shown_total};
use vstd::std_specs::hash::spec_hash_map_iter;
use vstd::std_specs::iter::IteratorSpec;

verus! {

broadcast use vstd::std_specs::hash::group_hash_axioms;

/// A `u64` read as the `i64` with the same bits.
pub open spec fn wrap_i64(x: u64) -> int {
    if x <= i64::MAX {
        x as int
    } else {
        x - 0x1_0000_0000_0000_0000
    }
}

/// Reads a `u64` as the `i64` with the same bits.
pub fn to_i64(x: u64) -> (r: i64)
    ensures
        r == wrap_i64(x),
{
    if x <= 0x7fff_ffff_ffff_ffff {
        x as i64
    } else {
        ((x - 0x8000_0000_0000_0000u64) as i64) + i64::MIN
    }
}

/// One playing session.
#[derive(Debug, Clone, Copy)]
pub struct Session {
    pub starting_balance: u64,
    pub ending_balance: Option<u64>,
    pub bets_placed: u32,
    pub bets_won: u32,
    pub total_wagered: u64,
    pub total_won: u64,
    pub largest_bet: u64,
    pub largest_win: u64,
    pub longest_win_streak: u32,
    pub longest_loss_streak: u32,
    /// Positive for a run of wins, negative for a run of losses.
    pub current_streak: i32,
}

/// A session that starts with the given balance and nothing played.
pub open spec fn fresh_session(starting_balance: u64) -> Session {
    Session {
        starting_balance,
        ending_balance: None,
        bets_placed: 0,
        bets_won: 0,
        total_wagered: 0,
        total_won: 0,
        largest_bet: 0,
        largest_win: 0,
        longest_win_streak: 0,
        longest_loss_streak: 0,
        current_streak: 0,
    }
}

impl Session {
    /// A session that starts with the given balance.
    pub fn new(starting_balance: u64) -> (r: Self)
        ensures
            r == fresh_session(starting_balance),
    {
        Session {
            starting_balance,
            ending_balance: None,
            bets_placed: 0,
            bets_won: 0,
            total_wagered: 0,
            total_won: 0,
            largest_bet: 0,
            largest_win: 0,
            longest_win_streak: 0,
            longest_loss_streak: 0,
            current_streak: 0,
        }
    }
}

/// The totals over all sessions.
#[derive(Debug, Clone, Copy)]
pub struct LifetimeStats {
    pub total_sessions: u32,
    pub total_bets: u64,
    pub total_wins: u64,
    pub total_wagered: u64,
    pub total_profit: i64,
    pub best_session_profit: i64,
    pub worst_session_loss: i64,
}

/// Lifetime totals with nothing played.
pub open spec fn empty_lifetime() -> LifetimeStats {
    LifetimeStats {
        total_sessions: 0,
        total_bets: 0,
        total_wins: 0,
        total_wagered: 0,
        total_profit: 0,
        best_session_profit: 0,
        worst_session_loss: 0,
    }
}

impl Default for LifetimeStats {
    fn default() -> (r: Self)
        ensures
            r == empty_lifetime(),
    {
        LifetimeStats {
            total_sessions: 0,
            total_bets: 0,
            total_wins: 0,
            total_wagered: 0,
            total_profit: 0,
            best_session_profit: 0,
            worst_session_loss: 0,
        }
    }
}

/// How often a number has come up of late, against how often it should.
#[derive(Debug, Clone, Copy, PartialEq, Eq, Structural)]
pub enum Temperature {
    Cold,
    Cool,
    Neutral,
    Warm,
    Hot,
}

/// The numbers rolled: counts by total, the last 100 totals, and each total's temperature.
#[derive(Debug)]
pub struct HotNumbers {
    pub rolls: HashMap<u8, u32>,
    pub last_100: Vec<u8>,
    pub current_temperature: HashMap<u8, Temperature>,
}

impl Default for HotNumbers {
    fn default() -> (r: Self)
        ensures
            r.rolls@ == Map::<u8, u32>::empty(),
            r.last_100@ == Seq::<u8>::empty(),
            r.current_temperature@ == Map::<u8, Temperature>::empty(),
    {
        HotNumbers { rolls: HashMap::new(), last_100: Vec::new(), current_temperature: HashMap::new() }
    }
}

/// How many rolls the window of recent totals keeps.
pub const RECENT_ROLLS: usize = 100;

/// The window of recent totals after one more roll: the total is appended and,
/// past the window's size, the oldest dropped.
pub open spec fn window_after(last: Seq<u8>, total: u8) -> Seq<u8> {
    let pushed = last.push(total);
    if pushed.len() > RECENT_ROLLS {
        pushed.subrange(1, pushed.len() as int)
    } else {
        pushed
    }
}

/// Whether total `k` is listed in `r`.
pub open spec fn listed(r: Seq<(u8, u32)>, k: u8) -> bool {
    exists|i: int| 0 <= i < r.len() && #[trigger] r[i].0 == k
}

/// Whether `r` lists the totals counted in `m`, most frequent first: `count`
/// of them (all, when fewer were counted), each with its count and none twice,
/// and none left out that came up more often than one listed.
pub open spec fn lists_top_counts(m: Map<u8, u32>, r: Seq<(u8, u32)>, count: nat) -> bool {
    &&& r.len() == (if count < m.dom().len() { count } else { m.dom().len() })
    &&& forall|i: int| 0 <= i < r.len() ==> m.contains_key(#[trigger] r[i].0) && m[r[i].0] == r[i].1
    &&& forall|i: int, j: int| 0 <= i < j < r.len() ==> #[trigger] r[i].0 != #[trigger] r[j].0 && r[i].1 >= r[j].1
    &&& forall|k: u8, i: int|
        m.contains_key(k) && !listed(r, k) && 0 <= i < r.len() ==> #[trigger] m[k] <= #[trigger] r[i].1
}


/// The window of recent totals never grows past its size, always ends with the
/// latest total, and otherwise keeps the most recent of the earlier ones in order.
pub proof fn lemma_window_keeps_latest(last: Seq<u8>, total: u8)
    requires
        last.len() <= RECENT_ROLLS,
    ensures
        window_after(last, total).len() <= RECENT_ROLLS,
        window_after(last, total).len() == (if last.len() < RECENT_ROLLS { last.len() + 1 } else { RECENT_ROLLS as nat }),
        window_after(last, total).last() == total,
        window_after(last, total) == last.push(total).subrange(
            last.len() + 1 - window_after(last, total).len(),
            last.len() + 1int,
        ),
{
    let w = window_after(last, total);
    if last.len() < RECENT_ROLLS {
        assert(w =~= last.push(total).subrange(0, last.len() + 1int));
    } else {
        assert(w =~= last.push(total).subrange(1, last.len() + 1int));
    }
}

/// A player's statistics.
#[derive(Debug)]
pub struct Statistics {
    pub player: [u8; 32],
    pub sessions: Vec<Session>,
    pub lifetime: LifetimeStats,
    pub current_session: Session,
    pub hot_numbers: HotNumbers,
    pub current_balance: u64,
}

/// What the lifetime profit is: the balance now against the first session's
/// starting balance, each read as an `i64`.
pub open spec fn lifetime_profit(st: Statistics) -> int {
    wrap_i64(st.current_balance) - if st.sessions@.len() > 0 {
        wrap_i64(st.sessions@[0].starting_balance)
    } else {
        0
    }
}

/// Whether the lifetime profit fits an `i64`.
pub open spec fn profit_fits(st: Statistics) -> bool {
    i64::MIN <= lifetime_profit(st) <= i64::MAX
}

/// The larger of two amounts.
pub open spec fn larger(a: u64, b: u64) -> u64 {
    if a > b { a } else { b }
}

/// The session after a bet of `amount`.
pub open spec fn session_after_bet(s: Session, amount: u64) -> Session {
    Session {
        bets_placed: (s.bets_placed + 1) as u32,
        total_wagered: (s.total_wagered + amount) as u64,
        largest_bet: larger(s.largest_bet, amount),
        ..s
    }
}

/// The session after a win of `amount`: a run of wins grows (and may set the
/// longest), a run of losses gives way to a run of one win.
pub open spec fn session_after_win(s: Session, amount: u64) -> Session {
    let streak: int = if s.current_streak >= 0 { s.current_streak + 1 } else { 1 };
    Session {
        bets_won: (s.bets_won + 1) as u32,
        total_won: (s.total_won + amount) as u64,
        largest_win: larger(s.largest_win, amount),
        current_streak: streak as i32,
        longest_win_streak: if s.current_streak >= 0 && streak > s.longest_win_streak {
            streak as u32
        } else {
            s.longest_win_streak
        },
        ..s
    }
}

/// The session after a loss: a run of losses grows (and may set the longest),
/// a run of wins gives way to a run of one loss.
pub open spec fn session_after_loss(s: Session) -> Session {
    let streak: int = if s.current_streak <= 0 { s.current_streak - 1 } else { -1 };
    Session {
        current_streak: streak as i32,
        longest_loss_streak: if s.current_streak <= 0 && -streak > s.longest_loss_streak {
            (-streak) as u32
        } else {
            s.longest_loss_streak
        },
        ..s
    }
}

impl Statistics {
    /// Statistics of a player with nothing played and a zero balance.
    pub fn new(player: [u8; 32]) -> (r: Self)
        ensures
            r.player == player,
            r.sessions@ == Seq::<Session>::empty(),
            r.lifetime == empty_lifetime(),
            r.current_session == fresh_session(0),
            r.hot_numbers.rolls@ == Map::<u8, u32>::empty(),
            r.hot_numbers.last_100@ == Seq::<u8>::empty(),
            r.hot_numbers.current_temperature@ == Map::<u8, Temperature>::empty(),
            r.current_balance == 0,
    {
        Statistics {
            player,
            sessions: Vec::new(),
            lifetime: LifetimeStats::default(),
            current_session: Session::new(0),
            hot_numbers: HotNumbers::default(),
            current_balance: 0,
        }
    }

    /// Recomputes the lifetime profit.
    fn update_profit(&mut self)
        requires
            profit_fits(*old(self)),
        ensures
            final(self).lifetime == (LifetimeStats { total_profit: lifetime_profit(*old(self)) as i64, ..old(self).lifetime }),
            final(self).player == old(self).player,
            final(self).sessions == old(self).sessions,
            final(self).current_session == old(self).current_session,
            final(self).hot_numbers == old(self).hot_numbers,
            final(self).current_balance == old(self).current_balance,
    {
        let basis: i64 = if self.sessions.len() > 0 {
            to_i64(self.sessions[0].starting_balance)
        } else {
            0
        };
        self.lifetime.total_profit = to_i64(self.current_balance) - basis;
    }

    /// Counts a bet of `amount` in the session and the lifetime totals.
    pub fn record_bet(&mut self, amount: u64)
        requires
            old(self).current_session.bets_placed < u32::MAX,
            old(self).current_session.total_wagered + amount <= u64::MAX,
            old(self).lifetime.total_bets < u64::MAX,
            old(self).lifetime.total_wagered + amount <= u64::MAX,
            profit_fits(*old(self)),
        ensures
            final(self).current_session == session_after_bet(old(self).current_session, amount),
            final(self).lifetime == (LifetimeStats {
                total_bets: (old(self).lifetime.total_bets + 1) as u64,
                total_wagered: (old(self).lifetime.total_wagered + amount) as u64,
                total_profit: lifetime_profit(*old(self)) as i64,
                ..old(self).lifetime
            }),
            final(self).player == old(self).player,
            final(self).sessions == old(self).sessions,
            final(self).hot_numbers == old(self).hot_numbers,
            final(self).current_balance == old(self).current_balance,
    {
        self.current_session.bets_placed += 1;
        self.current_session.total_wagered += amount;
        if amount > self.current_session.largest_bet {
            self.current_session.largest_bet = amount;
        }
        self.lifetime.total_bets += 1;
        self.lifetime.total_wagered += amount;
        self.update_profit();
    }

    /// Counts a win of `amount`.
    pub fn record_win(&mut self, amount: u64)
        requires
            old(self).current_session.bets_won < u32::MAX,
            old(self).current_session.total_won + amount <= u64::MAX,
            old(self).current_session.current_streak < i32::MAX,
            old(self).lifetime.total_wins < u64::MAX,
            profit_fits(*old(self)),
        ensures
            final(self).current_session == session_after_win(old(self).current_session, amount),
            final(self).lifetime == (LifetimeStats {
                total_wins: (old(self).lifetime.total_wins + 1) as u64,
                total_profit: lifetime_profit(*old(self)) as i64,
                ..old(self).lifetime
            }),
            final(self).player == old(self).player,
            final(self).sessions == old(self).sessions,
            final(self).hot_numbers == old(self).hot_numbers,
            final(self).current_balance == old(self).current_balance,
    {
        self.current_session.bets_won += 1;
        self.current_session.total_won += amount;
        if amount > self.current_session.largest_win {
            self.current_session.largest_win = amount;
        }
        if self.current_session.current_streak >= 0 {
            self.current_session.current_streak += 1;
            if self.current_session.current_streak as u32 > self.current_session.longest_win_streak {
                self.current_session.longest_win_streak = self.current_session.current_streak as u32;
            }
        } else {
            self.current_session.current_streak = 1;
        }
        self.lifetime.total_wins += 1;
        self.update_profit();
    }

    /// Counts a loss.
    pub fn record_loss(&mut self)
        requires
            old(self).current_session.current_streak <= 0 ==> old(self).current_session.current_streak > i32::MIN + 1,
            profit_fits(*old(self)),
        ensures
            final(self).current_session == session_after_loss(old(self).current_session),
            final(self).lifetime == (LifetimeStats {
                total_profit: lifetime_profit(*old(self)) as i64,
                ..old(self).lifetime
            }),
            final(self).player == old(self).player,
            final(self).sessions == old(self).sessions,
            final(self).hot_numbers == old(self).hot_numbers,
            final(self).current_balance == old(self).current_balance,
    {
        if self.current_session.current_streak <= 0 {
            self.current_session.current_streak -= 1;
            if (-self.current_session.current_streak) as u32 > self.current_session.longest_loss_streak {
                self.current_session.longest_loss_streak = (-self.current_session.current_streak) as u32;
            }
        } else {
            self.current_session.current_streak = -1;
        }
        self.update_profit();
    }

    /// Takes a withdrawal off the balance, stopping at zero.
    pub fn record_withdrawal(&mut self, amount: u64)
        ensures
            final(self).current_balance == (if old(self).current_balance >= amount {
                old(self).current_balance - amount
            } else {
                0
            }),
            final(self).player == old(self).player,
            final(self).sessions == old(self).sessions,
            final(self).lifetime == old(self).lifetime,
            final(self).current_session == old(self).current_session,
            final(self).hot_numbers == old(self).hot_numbers,
    {
        self.current_balance = self.current_balance.saturating_sub(amount);
    }

    /// The session's winnings less its wagers, each read as an `i64`.
    pub fn get_profit(&self) -> (r: i64)
        requires
            i64::MIN <= wrap_i64(self.current_session.total_won) - wrap_i64(self.current_session.total_wagered) <= i64::MAX,
        ensures
            r == wrap_i64(self.current_session.total_won) - wrap_i64(self.current_session.total_wagered),
    {
        to_i64(self.current_session.total_won) - to_i64(self.current_session.total_wagered)
    }
    /// Counts a roll of `total` and keeps it in the window of recent totals.
    pub fn record_roll(&mut self, total: u8)
        requires
            old(self).hot_numbers.rolls@.contains_key(total) ==> old(self).hot_numbers.rolls@[total] < u32::MAX,
        ensures
            final(self).hot_numbers.rolls@ == old(self).hot_numbers.rolls@.insert(
                total,
                (if old(self).hot_numbers.rolls@.contains_key(total) {
                    old(self).hot_numbers.rolls@[total] + 1
                } else {
                    1
                }) as u32,
            ),
            final(self).hot_numbers.last_100@ == window_after(old(self).hot_numbers.last_100@, total),
            final(self).hot_numbers.current_temperature == old(self).hot_numbers.current_temperature,
            final(self).player == old(self).player,
            final(self).sessions == old(self).sessions,
            final(self).lifetime == old(self).lifetime,
            final(self).current_session == old(self).current_session,
            final(self).current_balance == old(self).current_balance,
    {
        let count: u32 = match self.hot_numbers.rolls.get(&total) {
            Some(c) => *c,
            None => 0,
        };
        self.hot_numbers.rolls.insert(total, count + 1);
        self.hot_numbers.last_100.push(total);
        if self.hot_numbers.last_100.len() > RECENT_ROLLS {
            let ghost pushed = self.hot_numbers.last_100@;
            self.hot_numbers.last_100.remove(0);
            assert(self.hot_numbers.last_100@ =~= pushed.subrange(1, pushed.len() as int));
        }
    }

    /// Closes the running session at the current balance, counts it in the
    /// lifetime totals, and starts a new one from the same balance.
    pub fn end_session(&mut self)
        requires
            i64::MIN <= wrap_i64(old(self).current_balance) - wrap_i64(old(self).current_session.starting_balance) <= i64::MAX,
            old(self).lifetime.total_sessions < u32::MAX,
        ensures
            ({
                let profit = wrap_i64(old(self).current_balance) - wrap_i64(old(self).current_session.starting_balance);
                &&& final(self).sessions@ == old(self).sessions@.push(
                    Session { ending_balance: Some(old(self).current_balance), ..old(self).current_session },
                )
                &&& final(self).lifetime == (LifetimeStats {
                    total_sessions: (old(self).lifetime.total_sessions + 1) as u32,
                    best_session_profit: if profit > old(self).lifetime.best_session_profit {
                        profit as i64
                    } else {
                        old(self).lifetime.best_session_profit
                    },
                    worst_session_loss: if profit < old(self).lifetime.worst_session_loss {
                        profit as i64
                    } else {
                        old(self).lifetime.worst_session_loss
                    },
                    ..old(self).lifetime
                })
            }),
            final(self).current_session == fresh_session(old(self).current_balance),
            final(self).player == old(self).player,
            final(self).hot_numbers == old(self).hot_numbers,
            final(self).current_balance == old(self).current_balance,
    {
        self.current_session.ending_balance = Some(self.current_balance);
        let session_profit: i64 = to_i64(self.current_balance) - to_i64(self.current_session.starting_balance);
        if session_profit > self.lifetime.best_session_profit {
            self.lifetime.best_session_profit = session_profit;
        }
        if session_profit < self.lifetime.worst_session_loss {
            self.lifetime.worst_session_loss = session_profit;
        }
        self.sessions.push(self.current_session);
        self.lifetime.total_sessions += 1;
        self.current_session = Session::new(self.current_balance);
    }

    /// Counts the roll the game shows, when it shows both dice.
    pub fn refresh(&mut self, game_state: &GameState)
        requires
            shown_total(*game_state) matches Some(t) ==> t <= u8::MAX,
            shown_total(*game_state) matches Some(t) ==> (old(self).hot_numbers.rolls@.contains_key(t as u8)
                ==> old(self).hot_numbers.rolls@[t as u8] < u32::MAX),
        ensures
            match shown_total(*game_state) {
                Some(t) => {
                    &&& final(self).hot_numbers.rolls@ == old(self).hot_numbers.rolls@.insert(
                        t as u8,
                        (if old(self).hot_numbers.rolls@.contains_key(t as u8) {
                            old(self).hot_numbers.rolls@[t as u8] + 1
                        } else {
                            1
                        }) as u32,
                    )
                    &&& final(self).hot_numbers.last_100@ == window_after(old(self).hot_numbers.last_100@, t as u8)
                    &&& final(self).hot_numbers.current_temperature == old(self).hot_numbers.current_temperature
                },
                None => final(self).hot_numbers == old(self).hot_numbers,
            },
            final(self).player == old(self).player,
            final(self).sessions == old(self).sessions,
            final(self).lifetime == old(self).lifetime,
            final(self).current_session == old(self).current_session,
            final(self).current_balance == old(self).current_balance,
    {
        if let Some(total) = game_state.dice_total() {
            self.record_roll(total);
        }
    }
    /// The `count` totals rolled most often, with their counts, most frequent
    /// first. Totals with equal counts come in the order the map is walked.
    pub fn get_hot_numbers(&self, count: usize) -> (r: Vec<(u8, u32)>)
        ensures
            lists_top_counts(self.hot_numbers.rolls@, r@, count as nat),
    {
        let ghost m = self.hot_numbers.rolls@;
        let mut rest: Vec<(u8, u32)> = Vec::new();
        let ghost v = spec_hash_map_iter(&self.hot_numbers.rolls).remaining();
        for (k, c) in it: self.hot_numbers.rolls.iter()
            invariant
                it.seq() == v,
                rest@.len() == it.index(),
                forall|i: int| 0 <= i < it.index() ==> #[trigger] rest@[i] == (*v[i].0, *v[i].1),
        {
            rest.push((*k, *c));
        }
        proof {
            assert(rest@.len() == v.len());
            assert(rest@.len() == m.dom().len());
            assert forall|i: int| 0 <= i < rest@.len() implies m.contains_key(#[trigger] rest@[i].0) && m[rest@[i].0] == rest@[i].1 by {
                assert(m.contains_key(*v[i].0));
            }
            assert forall|i: int, j: int| 0 <= i < j < rest@.len() implies #[trigger] rest@[i].0 != #[trigger] rest@[j].0 by {
                if rest@[i].0 == rest@[j].0 {
                    assert(m.contains_key(*v[i].0));
                    assert(m.contains_key(*v[j].0));
                    assert(v[i] == v[j]);
                }
            }
            assert forall|k: u8| m.contains_key(k) implies listed(rest@, k) by {
                assert(v.contains((&k, &m[k])));
                let i = choose|i: int| 0 <= i < v.len() && v[i] == (&k, &m[k]);
                assert(rest@[i].0 == k);
            }
        }
        let n: usize = rest.len();
        let target: usize = if count < n { count } else { n };
        let mut result: Vec<(u8, u32)> = Vec::new();
        while result.len() < target
            invariant
                n == m.dom().len(),
                target == (if count < n { count } else { n }),
                result@.len() + rest@.len() == n,
                result@.len() <= target,
                forall|i: int| 0 <= i < result@.len() ==> m.contains_key(#[trigger] result@[i].0) && m[result@[i].0] == result@[i].1,
                forall|i: int| 0 <= i < rest@.len() ==> m.contains_key(#[trigger] rest@[i].0) && m[rest@[i].0] == rest@[i].1,
                forall|i: int, j: int| 0 <= i < j < result@.len() ==> #[trigger] result@[i].0 != #[trigger] result@[j].0 && result@[i].1 >= result@[j].1,
                forall|i: int, j: int| 0 <= i < j < rest@.len() ==> #[trigger] rest@[i].0 != #[trigger] rest@[j].0,
                forall|i: int, j: int| 0 <= i < result@.len() && 0 <= j < rest@.len() ==> #[trigger] result@[i].0 != #[trigger] rest@[j].0 && rest@[j].1 <= result@[i].1,
                forall|k: u8| m.contains_key(k) ==> listed(result@, k) || listed(rest@, k),
            decreases target - result@.len(),
        {
            let mut best: usize = 0;
            let mut j: usize = 1;
            while j < rest.len()
                invariant
                    0 < rest@.len(),
                    best < j <= rest@.len(),
                    forall|i: int| 0 <= i < j ==> #[trigger] rest@[i].1 <= rest@[best as int].1,
                decreases rest@.len() - j,
            {
                if rest[j].1 > rest[best].1 {
                    best = j;
                }
                j += 1;
            }
            let ghost old_rest = rest@;
            let ghost old_result = result@;
            let chosen = rest.remove(best);
            result.push(chosen);
            proof {
                assert forall|k: u8| m.contains_key(k) implies listed(result@, k) || listed(rest@, k) by {
                    if listed(old_result, k) {
                        let i = choose|i: int| 0 <= i < old_result.len() && #[trigger] old_result[i].0 == k;
                        assert(result@[i].0 == k);
                    } else {
                        let i = choose|i: int| 0 <= i < old_rest.len() && #[trigger] old_rest[i].0 == k;
                        if i == best {
                            assert(result@[old_result.len() as int].0 == k);
                        } else if i < best {
                            assert(rest@[i].0 == k);
                        } else {
                            assert(rest@[i - 1].0 == k);
                        }
                    }
                }
            }
        }
        proof {
            assert forall|k: u8, i: int|
                m.contains_key(k) && !listed(result@, k) && 0 <= i < result@.len() implies #[trigger] m[k] <= #[trigger] result@[i].1 by {
                let j = choose|j: int| 0 <= j < rest@.len() && #[trigger] rest@[j].0 == k;
                assert(result@[i].0 != rest@[j].0);
            }
        }
        result
    }
}

} // verus!
