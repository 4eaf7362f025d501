use vstd::prelude::*;
use vstd::string::*;

use crate::decimal::{decimal_of, decimal_text};
use crate::rank::{lemma_rank_monotone, level_of, rank_name, rank_of, Rank};

verus! {

/// A player's current run of results: its length, or `Neither` where the
/// player has neither a winning nor a losing run.
#[derive(Clone, Copy, Debug, PartialEq, Eq, Structural)]
pub enum Streak {
    Amount(u16),
    Neither,
}

/// Points at or below which a loss costs nothing more: the player is set to
/// exactly this total instead.
pub const LOSS_FLOOR: u16 = 750;

/// The bonus that a streak adds to a win and to a loss.
pub open spec fn bonus_of(streak: Streak) -> int {
    match streak {
        Streak::Neither => 0,
        Streak::Amount(n) => if n == 2 {
            5
        } else {
            10
        },
    }
}

/// The streak of a player whose winning run is `win_streak` games long and
/// whose losing run is `lose_streak` games long.
pub open spec fn streak_of(win_streak: u16, lose_streak: u16) -> Streak {
    if win_streak == 0 && lose_streak == 0 {
        Streak::Neither
    } else if win_streak >= lose_streak {
        Streak::Amount(win_streak)
    } else {
        Streak::Amount(lose_streak)
    }
}

/// Points after a win worth `gain` with streak bonus `bonus`.
pub open spec fn points_after_win(points: int, gain: int, bonus: int) -> int {
    points + gain + bonus
}

/// Points after a loss worth `loss` with streak bonus `bonus`.
pub open spec fn points_after_loss(points: int, loss: int, bonus: int) -> int {
    if points <= LOSS_FLOOR {
        LOSS_FLOOR as int
    } else {
        points - (loss + bonus)
    }
}

impl Streak {
    /// The streak of a player with the given winning and losing runs: the
    /// longer run, or `Neither` where both are empty.
    pub fn from_counts(win_streak: u16, lose_streak: u16) -> (s: Streak)
        ensures
            s == streak_of(win_streak, lose_streak),
    {
        let amount = if win_streak >= lose_streak {
            win_streak
        } else {
            lose_streak
        };
        if win_streak == 0 && lose_streak == 0 {
            Streak::Neither
        } else {
            Streak::Amount(amount)
        }
    }
}

/// A ranked player: who they are, their tier and their points.
pub struct Player {
    pub user_id: u64,
    pub name: String,
    pub rank: Rank,
    pub points: u16,
}

impl Player {
    /// A player with `points` points, ranked by them.
    pub fn new(user_id: u64, name: String, points: u16) -> (p: Player)
        ensures
            p.user_id == user_id,
            p.name@ == name@,
            p.points == points,
            p.rank == rank_of(points as int),
    {
        let rank = Rank::from(points);
        Player { user_id, name, rank, points }
    }

    /// The player's display name.
    pub fn name(&self) -> (n: String)
        ensures
            n@ == self.name@,
    {
        self.name.clone()
    }

    /// The player's user id as decimal text, the key under which the player
    /// is stored.
    pub fn id(&self) -> (s: String)
        ensures
            s@ == decimal_of(self.user_id as nat),
    {
        decimal_text(self.user_id)
    }

    /// The bonus that `streak` adds to a win or a loss: none without a
    /// streak, 5 for a run of exactly two games, 10 otherwise.
    pub fn streak_bonus(streak: &Streak) -> (b: u16)
        ensures
            b == bonus_of(*streak),
    {
        match streak {
            Streak::Neither => 0,
            Streak::Amount(n) => if *n == 2 {
                5
            } else {
                10
            },
        }
    }

    /// Sets the tier earned by `points`; tells whether it changed, in which
    /// case the stored tier must be updated.
    pub fn update_rank(&mut self, points: u16) -> (changed: bool)
        ensures
            final(self).rank == rank_of(points as int),
            changed == (old(self).rank != rank_of(points as int)),
            final(self).points == old(self).points,
            final(self).user_id == old(self).user_id,
            final(self).name@ == old(self).name@,
    {
        let new_rank = Rank::from(points);
        if self.rank == new_rank {
            return false;
        }
        self.rank = new_rank;
        true
    }

    /// Records a win worth `points`, plus the bonus of `streak`; returns the
    /// new total and whether the tier changed.
    pub fn add(&mut self, points: u16, streak: &Streak) -> (r: (u16, bool))
        requires
            old(self).points + points + bonus_of(*streak) <= u16::MAX,
        ensures
            final(self).points == points_after_win(
                old(self).points as int,
                points as int,
                bonus_of(*streak),
            ),
            final(self).rank == rank_of(final(self).points as int),
            r.0 == final(self).points,
            r.1 == (old(self).rank != final(self).rank),
            final(self).user_id == old(self).user_id,
            final(self).name@ == old(self).name@,
    {
        let bonus = Player::streak_bonus(streak);
        self.points = self.points + (points + bonus);
        let total = self.points;
        let changed = self.update_rank(total);
        (self.points, changed)
    }

    /// Whether a loss for this player depends on their streak: only above the
    /// loss floor.
    pub fn loss_uses_streak(&self) -> (b: bool)
        ensures
            b == (self.points > LOSS_FLOOR),
    {
        self.points > LOSS_FLOOR
    }

    /// Records a loss worth `points`, plus the bonus of `streak`; a player at
    /// or below the loss floor is set to exactly the floor instead. Returns the
    /// new total and whether the tier changed.
    pub fn minus(&mut self, points: u16, streak: &Streak) -> (r: (u16, bool))
        requires
            old(self).points <= LOSS_FLOOR || old(self).points >= points + bonus_of(*streak),
        ensures
            final(self).points == points_after_loss(
                old(self).points as int,
                points as int,
                bonus_of(*streak),
            ),
            final(self).rank == rank_of(final(self).points as int),
            r.0 == final(self).points,
            r.1 == (old(self).rank != final(self).rank),
            final(self).user_id == old(self).user_id,
            final(self).name@ == old(self).name@,
    {
        if self.points <= LOSS_FLOOR {
            self.points = LOSS_FLOOR;
        } else {
            let bonus = Player::streak_bonus(streak);
            self.points = self.points - (points + bonus);
        }
        let total = self.points;
        let changed = self.update_rank(total);
        (self.points, changed)
    }

    /// A description of the player:
    /// `Name: <name> (<id>)\nRank: <rank>\nPoints: <points>`.
    pub fn to_string(&self) -> (s: String)
        ensures
            s@ == "Name: "@ + self.name@ + " ("@ + decimal_of(self.user_id as nat)
                + ")\nRank: "@ + rank_name(self.rank) + "\nPoints: "@ + decimal_of(
                self.points as nat,
            ),
    {
        let mut s = String::from_str("Name: ");
        s.append(self.name.as_str());
        s.append(" (");
        let id = decimal_text(self.user_id);
        s.append(id.as_str());
        s.append(")\nRank: ");
        let rank = self.rank.to_string();
        s.append(rank.as_str());
        s.append("\nPoints: ");
        let points = decimal_text(self.points as u64);
        s.append(points.as_str());
        s
    }
}

/// A win never lowers a player's tier and a loss never raises it: the tier
/// earned after a win is at least, and after a loss at most, the tier earned
/// before.
pub proof fn lemma_results_move_tier_one_way(points: int, change: int, bonus: int)
    requires
        0 <= points,
        0 <= change,
        0 <= bonus,
    ensures
        level_of(rank_of(points_after_win(points, change, bonus))) >= level_of(rank_of(points)),
        level_of(rank_of(points_after_loss(points, change, bonus))) <= level_of(rank_of(points)),
{
    lemma_rank_monotone(points, points_after_win(points, change, bonus));
    if points > LOSS_FLOOR {
        lemma_rank_monotone(points_after_loss(points, change, bonus), points);
    }
}

/// A streak bonus is 0, 5 or 10, and it is 0 exactly when the player has
/// neither a winning nor a losing run.
pub proof fn lemma_streak_bonus_values(win_streak: u16, lose_streak: u16)
    ensures
        bonus_of(streak_of(win_streak, lose_streak)) == 0 || bonus_of(
            streak_of(win_streak, lose_streak),
        ) == 5 || bonus_of(streak_of(win_streak, lose_streak)) == 10,
        (bonus_of(streak_of(win_streak, lose_streak)) == 0) == (win_streak == 0 && lose_streak
            == 0),
{
}

/// The streak bonus is 0 without a streak, 5 for a run of exactly two games
/// and 10 for a run of any other length.
pub proof fn lemma_streak_bonus_table(n: u16)
    ensures
        bonus_of(Streak::Neither) == 0,
        bonus_of(Streak::Amount(n)) == (if n == 2 {
            5int
        } else {
            10int
        }),
{
}

/// A win raises the total by exactly the match points plus the streak bonus,
/// whatever the starting total: two players with different totals gain the
/// same amount from the same win.
pub proof fn lemma_win_gains_points_and_bonus(p: int, q: int, gain: int, streak: Streak)
    ensures
        points_after_win(p, gain, bonus_of(streak)) - p == gain + bonus_of(streak),
        points_after_win(p, gain, bonus_of(streak)) - p == points_after_win(
            q,
            gain,
            bonus_of(streak),
        ) - q,
        gain > 0 ==> points_after_win(p, gain, bonus_of(streak)) > p,
{
}

/// Above the floor a loss lowers the total by exactly the match points plus
/// the streak bonus, whatever the starting total, so a loss worth something
/// always costs points, streak or not; at or below the floor the total
/// becomes exactly the floor.
pub proof fn lemma_loss_costs_points_and_bonus(p: int, q: int, loss: int, streak: Streak)
    ensures
        p > LOSS_FLOOR ==> p - points_after_loss(p, loss, bonus_of(streak)) == loss + bonus_of(
            streak,
        ),
        p > LOSS_FLOOR && q > LOSS_FLOOR ==> p - points_after_loss(p, loss, bonus_of(streak)) == q
            - points_after_loss(q, loss, bonus_of(streak)),
        p > LOSS_FLOOR && loss > 0 ==> points_after_loss(p, loss, bonus_of(streak)) < p,
        p > LOSS_FLOOR && streak == Streak::Neither ==> points_after_loss(
            p,
            loss,
            bonus_of(streak),
        ) == p - loss,
        p <= LOSS_FLOOR ==> points_after_loss(p, loss, bonus_of(streak)) == 750,
{
    assert(bonus_of(streak) >= 0);
}

impl PartialEq for Player {
    /// Two players are the same player when their user ids are equal.
    fn eq(&self, other: &Player) -> (r: bool) {
        self.user_id == other.user_id
    }
}

impl vstd::std_specs::cmp::PartialEqSpecImpl for Player {
    open spec fn obeys_eq_spec() -> bool {
        true
    }

    open spec fn eq_spec(&self, other: &Player) -> bool {
        self.user_id == other.user_id
    }
}

} // verus!
