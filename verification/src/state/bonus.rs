//! Tracking for the bets that span many rolls: numbers hit, doubles, points won.
use vstd::prelude::*;

verus! {

/// Bonus tracking state for the multi-roll bets.
#[derive(Clone, Copy)]
pub struct BonusState {
    /// Bits 0..=4: totals 2..=6 rolled.
    pub small_rolled: u8,
    /// Bits 0..=4: totals 8..=12 rolled.
    pub tall_rolled: u8,
    /// Bits 0..=5: doubles 1-1 ..= 6-6 rolled.
    pub doubles_rolled: u8,
    /// Unique pass line points won (Fire bet): the points with a pass win.
    pub fire_points: u8,
    /// Unique point combinations hit (Hot Roller bet): the pairs of dice, in either
    /// order, whose total is a point number.
    pub hot_roller_count: u8,
    /// Pass line wins in a row (Ride Line bet).
    pub ride_line_streak: u8,
    /// Hit counts of the totals 2..=12 (Repeater bets).
    pub hits: [u8; 11],
    /// Pass wins on the points 4, 5, 6, 8, 9, 10 (Replay bet).
    pub pass_wins: [u8; 6],
    /// Count of each double (Twice Hard bet).
    pub doubles: [u8; 6],
    /// Bits 0..=13: the point combinations hit (see `point_combo_bit`).
    pub hot_roller_combos: [u8; 2],
    /// Reserved.
    pub _reserved: [u8; 6],
}

/// Whether bit `i` of a byte is set.
pub open spec fn byte_bit(b: u8, i: int) -> bool {
    0 <= i < 8 && (b & (1u8 << (i as u8))) != 0
}

/// A byte with bit `i` set.
pub open spec fn with_bit(b: u8, i: int) -> u8 {
    b | (1u8 << (i as u8))
}

/// One more, stopping at 255.
pub open spec fn sat_inc(x: u8) -> u8 {
    if x == 255 { 255 } else { (x + 1) as u8 }
}

/// The number of set bits among the lowest `i` bits of a byte.
pub open spec fn ones_below(b: u8, i: nat) -> nat
    decreases i,
{
    if i == 0 {
        0
    } else {
        ones_below(b, (i - 1) as nat) + (if byte_bit(b, i - 1) { 1nat } else { 0nat })
    }
}

/// The slot of a point among the pass-win counters, or -1 for a non-point.
pub open spec fn pass_win_slot(point: int) -> int {
    if point == 4 {
        0
    } else if point == 5 {
        1
    } else if point == 6 {
        2
    } else if point == 8 {
        3
    } else if point == 9 {
        4
    } else if point == 10 {
        5
    } else {
        -1
    }
}

/// `s` with the counter at `i` incremented (saturating), when `i` is in range.
pub open spec fn bump_at(s: Seq<u8>, i: int) -> Seq<u8> {
    if 0 <= i < s.len() { s.update(i, sat_inc(s[i])) } else { s }
}

/// The number of a point combination: the pair of dice, taken in either order, whose
/// total is a point number; 0..=13 in the order 1-3, 2-2, 1-4, 2-3, 1-5, 2-4, 3-3,
/// 2-6, 3-5, 4-4, 3-6, 4-5, 4-6, 5-5. Any other roll has -1.
pub open spec fn point_combo_bit(d1: u8, d2: u8) -> int {
    let lo = if d1 <= d2 { d1 } else { d2 };
    let hi = if d1 <= d2 { d2 } else { d1 };
    if lo == 1 && hi == 3 {
        0
    } else if lo == 2 && hi == 2 {
        1
    } else if lo == 1 && hi == 4 {
        2
    } else if lo == 2 && hi == 3 {
        3
    } else if lo == 1 && hi == 5 {
        4
    } else if lo == 2 && hi == 4 {
        5
    } else if lo == 3 && hi == 3 {
        6
    } else if lo == 2 && hi == 6 {
        7
    } else if lo == 3 && hi == 5 {
        8
    } else if lo == 4 && hi == 4 {
        9
    } else if lo == 3 && hi == 6 {
        10
    } else if lo == 4 && hi == 5 {
        11
    } else if lo == 4 && hi == 6 {
        12
    } else if lo == 5 && hi == 5 {
        13
    } else {
        -1
    }
}

/// Whether point combination `i` is marked in a two-byte mask.
pub open spec fn combo_hit(mask: Seq<u8>, i: int) -> bool {
    byte_bit(mask[i / 8], i % 8)
}

/// A two-byte mask with point combination `i` marked.
pub open spec fn with_combo(mask: Seq<u8>, i: int) -> Seq<u8> {
    mask.update(i / 8, with_bit(mask[i / 8], i % 8))
}

/// Whether `new` is `old` updated for a roll of `dice1` and `dice2` with total `dice_total`,
/// when the point before the roll was `prev_point`.
pub open spec fn bonus_after_roll(old: BonusState, new: BonusState, dice1: u8, dice2: u8, dice_total: u8, prev_point: u8) -> bool {
    &&& new.small_rolled == old.after_roll(dice1, dice2, dice_total, prev_point).small_rolled
    &&& new.tall_rolled == old.after_roll(dice1, dice2, dice_total, prev_point).tall_rolled
    &&& new.doubles_rolled == old.after_roll(dice1, dice2, dice_total, prev_point).doubles_rolled
    &&& new.fire_points == old.after_roll(dice1, dice2, dice_total, prev_point).fire_points
    &&& new.ride_line_streak == old.after_roll(dice1, dice2, dice_total, prev_point).ride_line_streak
    &&& new.hot_roller_count == old.after_roll(dice1, dice2, dice_total, prev_point).hot_roller_count
    &&& new._reserved == old._reserved
    &&& new.hot_roller_combos@ == (if point_combo_bit(dice1, dice2) >= 0 {
        with_combo(old.hot_roller_combos@, point_combo_bit(dice1, dice2))
    } else {
        old.hot_roller_combos@
    })
    &&& new.hits@ == (if 2 <= dice_total <= 12 {
        bump_at(old.hits@, dice_total - 2)
    } else {
        old.hits@
    })
    &&& new.doubles@ == (if dice1 == dice2 && 1 <= dice1 <= 6 {
        bump_at(old.doubles@, dice1 - 1)
    } else {
        old.doubles@
    })
    &&& new.pass_wins@ == (if prev_point != 0 && dice_total == prev_point {
        bump_at(old.pass_wins@, pass_win_slot(prev_point as int))
    } else {
        old.pass_wins@
    })
}

proof fn lemma_set_bit_keeps_bits(b: u8, i: u8, j: u8)
    requires
        i < 8,
        j < 8,
    ensures
        (b & (1u8 << i)) != 0 ==> ((b | (1u8 << j)) & (1u8 << i)) != 0,
        ((b | (1u8 << j)) & (1u8 << j)) != 0,
{
    assert((b & (1u8 << i)) != 0 ==> ((b | (1u8 << j)) & (1u8 << i)) != 0) by (bit_vector)
        requires
            i < 8,
            j < 8,
    ;
    assert(((b | (1u8 << j)) & (1u8 << j)) != 0) by (bit_vector)
        requires
            j < 8,
    ;
}

/// Marking a bit keeps every bit already marked and marks the new one.
pub proof fn lemma_with_bit_keeps_marks(b: u8, j: int)
    requires
        0 <= j < 8,
    ensures
        byte_bit(with_bit(b, j), j),
        forall|i: int| #[trigger] byte_bit(b, i) ==> byte_bit(with_bit(b, j), i),
{
    lemma_set_bit_keeps_bits(b, 0, j as u8);
    assert forall|i: int| #[trigger] byte_bit(b, i) implies byte_bit(with_bit(b, j), i) by {
        lemma_set_bit_keeps_bits(b, i as u8, j as u8);
    }
}

/// What a roll has marked stays marked, and nothing counted goes down, until
/// the seven-out clears it all: a roll marks its total among the small or tall
/// numbers and a double among the doubles, and keeps every earlier mark.
pub proof fn lemma_roll_keeps_marks(s: BonusState, dice1: u8, dice2: u8, dice_total: u8, prev_point: u8)
    ensures
        ({
            let a = s.after_roll(dice1, dice2, dice_total, prev_point);
            &&& forall|i: int| #[trigger] byte_bit(s.small_rolled, i) ==> byte_bit(a.small_rolled, i)
            &&& forall|i: int| #[trigger] byte_bit(s.tall_rolled, i) ==> byte_bit(a.tall_rolled, i)
            &&& forall|i: int| #[trigger] byte_bit(s.doubles_rolled, i) ==> byte_bit(a.doubles_rolled, i)
            &&& 2 <= dice_total <= 6 ==> byte_bit(a.small_rolled, dice_total - 2)
            &&& 8 <= dice_total <= 12 ==> byte_bit(a.tall_rolled, dice_total - 8)
            &&& dice1 == dice2 && 1 <= dice1 <= 6 ==> byte_bit(a.doubles_rolled, dice1 - 1)
            &&& a.fire_points >= s.fire_points
            &&& a.ride_line_streak >= s.ride_line_streak
            &&& a.hot_roller_count >= s.hot_roller_count
        }),
{
    let t = dice_total as int;
    if 2 <= t <= 6 {
        lemma_with_bit_keeps_marks(s.small_rolled, t - 2);
    }
    if 8 <= t <= 12 {
        lemma_with_bit_keeps_marks(s.tall_rolled, t - 8);
    }
    if dice1 == dice2 && 1 <= dice1 <= 6 {
        lemma_with_bit_keeps_marks(s.doubles_rolled, dice1 - 1);
    }
}

/// How many of the first `n` pass-win counters are not zero: the points won.
pub open spec fn points_won(w: Seq<u8>, n: nat) -> nat
    decreases n,
{
    if n == 0 {
        0
    } else {
        points_won(w, (n - 1) as nat) + if w[n - 1] != 0 { 1nat } else { 0nat }
    }
}

/// How many of the point combinations below `n` a mask marks.
pub open spec fn combos_hit(m: Seq<u8>, n: nat) -> nat
    decreases n,
{
    if n == 0 {
        0
    } else {
        combos_hit(m, (n - 1) as nat) + if combo_hit(m, n - 1) { 1nat } else { 0nat }
    }
}

proof fn lemma_points_won_bump(w: Seq<u8>, j: int, n: nat)
    requires
        n <= w.len(),
    ensures
        points_won(bump_at(w, j), n) == points_won(w, n) + if 0 <= j < n && w[j] == 0 { 1nat } else { 0nat },
        points_won(w, n) <= n,
    decreases n,
{
    if n > 0 {
        lemma_points_won_bump(w, j, (n - 1) as nat);
    }
}

proof fn lemma_with_bit_exact(b: u8, i: u8, j: u8)
    requires
        i < 8,
        j < 8,
    ensures
        ((b | (1u8 << j)) & (1u8 << i) != 0) <==> ((b & (1u8 << i) != 0) || i == j),
{
    assert(((b | (1u8 << j)) & (1u8 << i) != 0) <==> ((b & (1u8 << i) != 0) || i == j)) by (bit_vector)
        requires
            i < 8,
            j < 8,
    ;
}

proof fn lemma_combos_hit_mark(m: Seq<u8>, c: int, n: nat)
    requires
        m.len() == 2,
        0 <= c < 14,
        n <= 14,
    ensures
        combos_hit(with_combo(m, c), n) == combos_hit(m, n) + if c < n && !combo_hit(m, c) { 1nat } else { 0nat },
        combos_hit(m, n) <= n,
    decreases n,
{
    if n > 0 {
        lemma_combos_hit_mark(m, c, (n - 1) as nat);
        let i = n - 1;
        lemma_with_bit_exact(m[c / 8], (i % 8) as u8, (c % 8) as u8);
        assert(combo_hit(with_combo(m, c), i) <==> combo_hit(m, i) || i == c);
    }
}

/// The Fire count counts unique points won, and the Hot Roller count unique point
/// combinations hit: where each count matches its marks before a roll, it matches them
/// after it, for the marks grow by at most the one point and the one combination of
/// the roll, and each count grows only when its mark is new.
pub proof fn lemma_counts_are_unique(s: BonusState, new: BonusState, dice1: u8, dice2: u8, dice_total: u8, prev_point: u8)
    requires
        bonus_after_roll(s, new, dice1, dice2, dice_total, prev_point),
        s.fire_points == points_won(s.pass_wins@, 6),
        s.hot_roller_count == combos_hit(s.hot_roller_combos@, 14),
    ensures
        new.fire_points == points_won(new.pass_wins@, 6),
        new.hot_roller_count == combos_hit(new.hot_roller_combos@, 14),
{
    let slot = pass_win_slot(prev_point as int);
    lemma_points_won_bump(s.pass_wins@, slot, 6);
    let c = point_combo_bit(dice1, dice2);
    if c >= 0 {
        lemma_combos_hit_mark(s.hot_roller_combos@, c, 14);
    }
}

proof fn lemma_no_combos(m: Seq<u8>, n: nat)
    requires
        m.len() == 2,
        m[0] == 0,
        m[1] == 0,
        n <= 14,
    ensures
        combos_hit(m, n) == 0,
    decreases n,
{
    if n > 0 {
        lemma_no_combos(m, (n - 1) as nat);
        let i = n - 1;
        let k = (i % 8) as u8;
        assert((0u8 & (1u8 << k)) == 0) by (bit_vector);
    }
}

/// A cleared state, as a fresh one or one after a seven-out, starts both unique counts
/// matched to their marks: none.
pub proof fn lemma_cleared_counts_match(s: BonusState)
    requires
        s.is_cleared(),
    ensures
        s.fire_points == points_won(s.pass_wins@, 6),
        s.hot_roller_count == combos_hit(s.hot_roller_combos@, 14),
{
    reveal_with_fuel(points_won, 7);
    lemma_no_combos(s.hot_roller_combos@, 14);
}

/// The fresh bonus state is one value: any two states that are new are equal.
pub proof fn lemma_new_is_one_state(a: BonusState, b: BonusState)
    requires
        a.is_new(),
        b.is_new(),
    ensures
        a == b,
{
    broadcast use vstd::array::axiom_array_ext_equal;
    assert(a.hits =~= b.hits);
    assert(a.pass_wins =~= b.pass_wins);
    assert(a.doubles =~= b.doubles);
    assert(a.hot_roller_combos =~= b.hot_roller_combos);
    assert(a._reserved =~= b._reserved);
}

/// The Ride Line streak counts pass line wins in a row: a roll that makes the point set
/// before it raises the streak by one, stopping at 255, and any other roll leaves it.
pub proof fn lemma_ride_line_counts_pass_wins(s: BonusState, new: BonusState, dice1: u8, dice2: u8, dice_total: u8, prev_point: u8)
    requires
        bonus_after_roll(s, new, dice1, dice2, dice_total, prev_point),
    ensures
        prev_point != 0 && dice_total == prev_point && s.ride_line_streak < 255 ==> new.ride_line_streak == s.ride_line_streak + 1,
        prev_point != 0 && dice_total == prev_point && s.ride_line_streak == 255 ==> new.ride_line_streak == 255,
        !(prev_point != 0 && dice_total == prev_point) ==> new.ride_line_streak == s.ride_line_streak,
{
}

/// The number of a point combination, or 14 for any other roll.
fn point_combo_index(d1: u8, d2: u8) -> (r: usize)
    ensures
        point_combo_bit(d1, d2) >= 0 ==> r == point_combo_bit(d1, d2),
        point_combo_bit(d1, d2) < 0 ==> r == 14,
{
    let lo = if d1 <= d2 { d1 } else { d2 };
    let hi = if d1 <= d2 { d2 } else { d1 };
    if lo == 1 && hi == 3 {
        0
    } else if lo == 2 && hi == 2 {
        1
    } else if lo == 1 && hi == 4 {
        2
    } else if lo == 2 && hi == 3 {
        3
    } else if lo == 1 && hi == 5 {
        4
    } else if lo == 2 && hi == 4 {
        5
    } else if lo == 3 && hi == 3 {
        6
    } else if lo == 2 && hi == 6 {
        7
    } else if lo == 3 && hi == 5 {
        8
    } else if lo == 4 && hi == 4 {
        9
    } else if lo == 3 && hi == 6 {
        10
    } else if lo == 4 && hi == 5 {
        11
    } else if lo == 4 && hi == 6 {
        12
    } else if lo == 5 && hi == 5 {
        13
    } else {
        14
    }
}

impl BonusState {
    /// Size of the account in bytes.
    pub const LEN: usize = 37;

    /// Whether nothing is tracked: every counter and every mask zero (the reserved bytes aside).
    pub open spec fn is_cleared(self) -> bool {
        &&& self.small_rolled == 0
        &&& self.tall_rolled == 0
        &&& self.doubles_rolled == 0
        &&& self.fire_points == 0
        &&& self.hot_roller_count == 0
        &&& self.ride_line_streak == 0
        &&& forall|i: int| 0 <= i < 11 ==> #[trigger] self.hits@[i] == 0
        &&& forall|i: int| 0 <= i < 6 ==> #[trigger] self.pass_wins@[i] == 0
        &&& forall|i: int| 0 <= i < 6 ==> #[trigger] self.doubles@[i] == 0
        &&& self.hot_roller_combos@[0] == 0
        &&& self.hot_roller_combos@[1] == 0
    }

    /// Whether this is the fresh state: cleared, and the reserved bytes zero too; this
    /// fixes every byte of the state.
    pub open spec fn is_new(self) -> bool {
        &&& self.is_cleared()
        &&& forall|i: int| 0 <= i < 6 ==> #[trigger] self._reserved@[i] == 0
    }

    /// A fresh state with everything zero.
    pub fn new() -> (r: Self)
        ensures
            r.is_new(),
            r.is_cleared(),
            forall|i: int| 0 <= i < 6 ==> #[trigger] r._reserved@[i] == 0,
    {
        BonusState {
            small_rolled: 0,
            tall_rolled: 0,
            doubles_rolled: 0,
            fire_points: 0,
            hot_roller_count: 0,
            ride_line_streak: 0,
            hits: [0u8; 11],
            pass_wins: [0u8; 6],
            doubles: [0u8; 6],
            hot_roller_combos: [0u8; 2],
            _reserved: [0u8; 6],
        }
    }

    /// Whether a small total (2..=6) has been rolled.
    pub fn is_small_rolled(&self, num: u8) -> (r: bool)
        ensures
            r <==> 2 <= num <= 6 && byte_bit(self.small_rolled, num - 2),
    {
        if num < 2 || num > 6 {
            return false;
        }
        let bit = num - 2;
        (self.small_rolled & (1u8 << bit)) != 0
    }

    /// Marks a small total (2..=6) as rolled; other numbers change nothing.
    pub fn mark_small_rolled(&mut self, num: u8)
        ensures
            2 <= num <= 6 ==> *final(self) == (BonusState {
                small_rolled: with_bit(old(self).small_rolled, num - 2),
                ..*old(self)
            }),
            !(2 <= num <= 6) ==> *final(self) == *old(self),
    {
        if num >= 2 && num <= 6 {
            let bit = num - 2;
            self.small_rolled = self.small_rolled | (1u8 << bit);
        }
    }

    /// Whether a tall total (8..=12) has been rolled.
    pub fn is_tall_rolled(&self, num: u8) -> (r: bool)
        ensures
            r <==> 8 <= num <= 12 && byte_bit(self.tall_rolled, num - 8),
    {
        if num < 8 || num > 12 {
            return false;
        }
        let bit = num - 8;
        (self.tall_rolled & (1u8 << bit)) != 0
    }

    /// Marks a tall total (8..=12) as rolled; other numbers change nothing.
    pub fn mark_tall_rolled(&mut self, num: u8)
        ensures
            8 <= num <= 12 ==> *final(self) == (BonusState {
                tall_rolled: with_bit(old(self).tall_rolled, num - 8),
                ..*old(self)
            }),
            !(8 <= num <= 12) ==> *final(self) == *old(self),
    {
        if num >= 8 && num <= 12 {
            let bit = num - 8;
            self.tall_rolled = self.tall_rolled | (1u8 << bit);
        }
    }

    /// Whether the double of a die value (1..=6) has been rolled.
    pub fn is_double_rolled(&self, die_value: u8) -> (r: bool)
        ensures
            r <==> 1 <= die_value <= 6 && byte_bit(self.doubles_rolled, die_value - 1),
    {
        if die_value < 1 || die_value > 6 {
            return false;
        }
        let bit = die_value - 1;
        (self.doubles_rolled & (1u8 << bit)) != 0
    }

    /// Marks the double of a die value (1..=6) as rolled; other values change nothing.
    pub fn mark_double_rolled(&mut self, die_value: u8)
        ensures
            1 <= die_value <= 6 ==> *final(self) == (BonusState {
                doubles_rolled: with_bit(old(self).doubles_rolled, die_value - 1),
                ..*old(self)
            }),
            !(1 <= die_value <= 6) ==> *final(self) == *old(self),
    {
        if die_value >= 1 && die_value <= 6 {
            let bit = die_value - 1;
            self.doubles_rolled = self.doubles_rolled | (1u8 << bit);
        }
    }

    /// Whether all small totals have been rolled: the five low bits set and no other.
    pub fn all_small_rolled(&self) -> (r: bool)
        ensures
            r <==> self.small_rolled == 0x1f,
    {
        self.small_rolled == 0b11111
    }

    /// Whether all tall totals have been rolled: the five low bits set and no other.
    pub fn all_tall_rolled(&self) -> (r: bool)
        ensures
            r <==> self.tall_rolled == 0x1f,
    {
        self.tall_rolled == 0b11111
    }

    /// The number of set bits of the doubles mask.
    pub fn count_doubles_rolled(&self) -> (r: u8)
        ensures
            r == ones_below(self.doubles_rolled, 8),
    {
        let b = self.doubles_rolled;
        let mut count: u8 = 0;
        let mut i: u8 = 0;
        while i < 8
            invariant
                i <= 8,
                count == ones_below(b, i as nat),
                count <= i,
            decreases 8 - i,
        {
            let set = (b & (1u8 << i)) != 0;
            if set {
                count = count + 1;
            }
            i = i + 1;
        }
        count
    }

    /// The state after a roll of `dice1` and `dice2` with total `dice_total`, when the point
    /// before the roll was `prev_point` (0 on the come-out). The Fire count grows on the
    /// first pass win of a point, the Hot Roller count on the first hit of a point
    /// combination.
    pub open spec fn after_roll(self, dice1: u8, dice2: u8, dice_total: u8, prev_point: u8) -> BonusState {
        let t = dice_total as int;
        let pass_win = prev_point != 0 && dice_total == prev_point;
        let double = dice1 == dice2 && 1 <= dice1 <= 6;
        BonusState {
            small_rolled: if 2 <= t <= 6 { with_bit(self.small_rolled, t - 2) } else { self.small_rolled },
            tall_rolled: if 8 <= t <= 12 { with_bit(self.tall_rolled, t - 8) } else { self.tall_rolled },
            doubles_rolled: if double { with_bit(self.doubles_rolled, dice1 - 1) } else { self.doubles_rolled },
            fire_points: if pass_win && pass_win_slot(prev_point as int) >= 0
                && self.pass_wins@[pass_win_slot(prev_point as int)] == 0 {
                sat_inc(self.fire_points)
            } else {
                self.fire_points
            },
            ride_line_streak: if pass_win { sat_inc(self.ride_line_streak) } else { self.ride_line_streak },
            hot_roller_count: if point_combo_bit(dice1, dice2) >= 0 && !combo_hit(
                self.hot_roller_combos@,
                point_combo_bit(dice1, dice2),
            ) {
                sat_inc(self.hot_roller_count)
            } else {
                self.hot_roller_count
            },
            ..self
        }
    }

    /// Updates the tracking after a roll: the hit count of the total, the small and tall totals,
    /// doubles, pass wins when the roll makes the previous point (and the points won), and
    /// the point combinations hit.
    pub fn update_for_roll(&mut self, dice1: u8, dice2: u8, dice_total: u8, prev_point: u8)
        ensures
            bonus_after_roll(*old(self), *final(self), dice1, dice2, dice_total, prev_point),
    {
        if dice_total >= 2 && dice_total <= 12 {
            let idx = (dice_total - 2) as usize;
            self.hits[idx] = self.hits[idx].saturating_add(1);
        }
        if dice_total >= 2 && dice_total <= 6 {
            self.mark_small_rolled(dice_total);
        } else if dice_total >= 8 && dice_total <= 12 {
            self.mark_tall_rolled(dice_total);
        }
        if dice1 == dice2 {
            self.mark_double_rolled(dice1);
            if dice1 >= 1 && dice1 <= 6 {
                let idx = (dice1 as usize) - 1;
                self.doubles[idx] = self.doubles[idx].saturating_add(1);
            }
        }
        if prev_point != 0 && dice_total == prev_point {
            let slot: usize = if prev_point == 4 {
                0
            } else if prev_point == 5 {
                1
            } else if prev_point == 6 {
                2
            } else if prev_point == 8 {
                3
            } else if prev_point == 9 {
                4
            } else if prev_point == 10 {
                5
            } else {
                6
            };
            if slot < 6 {
                if self.pass_wins[slot] == 0 {
                    self.fire_points = self.fire_points.saturating_add(1);
                }
                self.pass_wins[slot] = self.pass_wins[slot].saturating_add(1);
            }
            self.ride_line_streak = self.ride_line_streak.saturating_add(1);
        }
        let combo = point_combo_index(dice1, dice2);
        if combo < 14 {
            let byte = combo / 8;
            let bit = (combo % 8) as u8;
            let mask: u8 = 1u8 << bit;
            if self.hot_roller_combos[byte] & mask == 0 {
                self.hot_roller_count = self.hot_roller_count.saturating_add(1);
            }
            self.hot_roller_combos[byte] = self.hot_roller_combos[byte] | mask;
        }
    }

    /// Clears all tracking after a seven-out; only the reserved bytes stay.
    pub fn reset_on_seven_out(&mut self)
        ensures
            final(self).is_cleared(),
            final(self)._reserved == old(self)._reserved,
    {
        self.hits = [0u8; 11];
        self.pass_wins = [0u8; 6];
        self.doubles = [0u8; 6];
        self.small_rolled = 0;
        self.tall_rolled = 0;
        self.doubles_rolled = 0;
        self.fire_points = 0;
        self.hot_roller_count = 0;
        self.ride_line_streak = 0;
        self.hot_roller_combos = [0u8; 2];
    }

    /// The hit count of a total (2..=12), 0 for other numbers.
    pub fn get_hit_count(&self, num: u8) -> (r: u8)
        ensures
            r == (if 2 <= num <= 12 { self.hits@[num - 2] } else { 0u8 }),
    {
        if num >= 2 && num <= 12 {
            self.hits[(num - 2) as usize]
        } else {
            0
        }
    }

    /// The pass-win count of a point, 0 for a non-point.
    pub fn get_pass_win_count(&self, point: u8) -> (r: u8)
        ensures
            r == (if pass_win_slot(point as int) >= 0 {
                self.pass_wins@[pass_win_slot(point as int)]
            } else {
                0u8
            }),
    {
        match point {
            4 => self.pass_wins[0],
            5 => self.pass_wins[1],
            6 => self.pass_wins[2],
            8 => self.pass_wins[3],
            9 => self.pass_wins[4],
            10 => self.pass_wins[5],
            _ => 0,
        }
    }

    /// The count of the double of a die value (1..=6), 0 for other values.
    pub fn get_double_count(&self, die_value: u8) -> (r: u8)
        ensures
            r == (if 1 <= die_value <= 6 { self.doubles@[die_value - 1] } else { 0u8 }),
    {
        if die_value >= 1 && die_value <= 6 {
            self.doubles[(die_value - 1) as usize]
        } else {
            0
        }
    }

    /// Whether some double has been rolled at least twice.
    pub fn has_twice_hard(&self) -> (r: bool)
        ensures
            r <==> exists|i: int| 0 <= i < 6 && #[trigger] self.doubles@[i] >= 2,
    {
        let mut i: usize = 0;
        while i < 6
            invariant
                i <= 6,
                forall|j: int| 0 <= j < i ==> #[trigger] self.doubles@[j] < 2,
            decreases 6 - i,
        {
            if self.doubles[i] >= 2 {
                return true;
            }
            i = i + 1;
        }
        false
    }
}

impl Default for BonusState {
    fn default() -> (r: Self)
        ensures
            r.is_cleared(),
            forall|i: int| 0 <= i < 6 ==> #[trigger] r._reserved@[i] == 0,
    {
        Self::new()
    }
}

} // verus!
