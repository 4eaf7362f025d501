use vstd::prelude::*;
use vstd::string::*;

use crate::decimal::{decimal_of, decimal_text, lemma_decimal_injective, parse_decimal, parsed_u64};
use crate::rank::{level_of, Rank};
use crate::text::text_eq;

verus! {

/// Points that the winner gains and the loser loses: 25 each between equal
/// tiers, 10 and 15 when the winner holds the higher tier, 25 and 30 when the
/// winner holds the lower tier.
pub open spec fn point_changes_spec(winner: Rank, loser: Rank) -> (int, int) {
    if winner == loser {
        (25, 25)
    } else if level_of(winner) > level_of(loser) {
        (10, 15)
    } else {
        (25, 30)
    }
}

/// The points that the winner of a match gains and that the loser loses,
/// from their tiers.
pub fn point_changes(winner: Rank, loser: Rank) -> (r: (u16, u16))
    ensures
        (r.0 as int, r.1 as int) == point_changes_spec(winner, loser),
{
    if winner == loser {
        (25, 25)
    } else if winner > loser {
        (10, 15)
    } else {
        (25, 30)
    }
}

/// In every match the loser gives up at least as many points as the winner
/// gains, and the winner gains between 10 and 25.
pub proof fn lemma_loser_pays_at_least_winner_gain(winner: Rank, loser: Rank)
    ensures
        point_changes_spec(winner, loser).1 >= point_changes_spec(winner, loser).0,
        10 <= point_changes_spec(winner, loser).0 <= 25,
{
}

/// Beating a higher tier is worth at least as much as beating an equal one,
/// which is worth more than beating a lower one.
pub proof fn lemma_upsets_pay_more(winner: Rank, loser: Rank)
    ensures
        level_of(winner) < level_of(loser) ==> point_changes_spec(winner, loser).0 == 25,
        level_of(winner) > level_of(loser) ==> point_changes_spec(winner, loser).0 == 10,
{
}

/// The points a match moves depend only on how the two tiers compare, never
/// on how far apart they are: equal tiers move 25 and 25, a winner in any
/// higher tier gains 10 while the loser loses 15, and a winner in any lower
/// tier gains 25 while the loser loses 30.
pub proof fn lemma_point_changes_by_tier_order(winner: Rank, loser: Rank, w2: Rank, l2: Rank)
    ensures
        level_of(winner) == level_of(loser) ==> point_changes_spec(winner, loser) == (25int, 25int),
        level_of(winner) > level_of(loser) ==> point_changes_spec(winner, loser) == (10int, 15int),
        level_of(winner) < level_of(loser) ==> point_changes_spec(winner, loser) == (25int, 30int),
        (level_of(winner) > level_of(loser) && level_of(w2) > level_of(l2)) ==> point_changes_spec(
            winner,
            loser,
        ) == point_changes_spec(w2, l2),
        (level_of(winner) < level_of(loser) && level_of(w2) < level_of(l2)) ==> point_changes_spec(
            winner,
            loser,
        ) == point_changes_spec(w2, l2),
{
}

/// The loser of a match started by `caller` against `other`, given the
/// winner: `other` where the winner is the caller, the caller otherwise.
pub fn match_loser(winner_id: u64, caller_id: u64, other_id: u64) -> (loser: u64)
    ensures
        loser == (if winner_id == caller_id {
            other_id
        } else {
            caller_id
        }),
{
    let winner_text = decimal_text(winner_id);
    let caller_text = decimal_text(caller_id);
    let same = text_eq(winner_text.as_str(), caller_text.as_str());
    proof {
        if same {
            lemma_decimal_injective(winner_id, caller_id);
        }
    }
    if same {
        other_id
    } else {
        caller_id
    }
}

/// The winner and loser of a match started by `caller` against `other`, read
/// from the id of the button pressed (the winner's user id in decimal); `None`
/// where the button id is not a number or names neither player of the match.
pub fn match_result(button_id: &str, caller_id: u64, other_id: u64) -> (r: Option<(u64, u64)>)
    ensures
        match parsed_u64(button_id@) {
            Some(w) => if w == caller_id {
                r == Some((w, other_id))
            } else if w == other_id {
                r == Some((w, caller_id))
            } else {
                r is None
            },
            None => r is None,
        },
{
    match parse_decimal(button_id) {
        Some(winner) => {
            if winner == caller_id || winner == other_id {
                Some((winner, match_loser(winner, caller_id, other_id)))
            } else {
                None
            }
        },
        None => None,
    }
}

/// The other side of a pending match between `challenger` and `challenged`,
/// seen from `caller`: the challenger where the caller is the challenged
/// player, the challenged player otherwise.
pub fn other_participant(caller: &str, challenger: &str, challenged: &str) -> (other: String)
    ensures
        other@ == (if caller@ == challenged@ {
            challenger@
        } else {
            challenged@
        }),
{
    if text_eq(caller, challenged) {
        String::from_str(challenger)
    } else {
        String::from_str(challenged)
    }
}

/// The answer that a pressed button gives to a challenge.
#[derive(Clone, Copy, Debug, PartialEq, Eq, Structural)]
pub enum Reply {
    /// The accept button, whose id is the accept id.
    Accept,
    /// The reject button, whose id is the accept id plus one.
    Reject,
    /// Any other button.
    Neither,
}

/// The answer that the button with id `custom_id` gives to a challenge whose
/// accept button has id `accept_id` and whose reject button has the next id.
pub open spec fn reply_of(custom_id: Seq<char>, accept_id: u64) -> Reply {
    if custom_id == decimal_of(accept_id as nat) {
        Reply::Accept
    } else if custom_id == decimal_of((accept_id + 1) as nat) {
        Reply::Reject
    } else {
        Reply::Neither
    }
}

/// Reads which answer a pressed button gives to a challenge; the reject
/// button's id is the accept id plus one, so the accept id must leave room
/// for it.
pub fn reply_choice(custom_id: &str, accept_id: u64) -> (r: Reply)
    requires
        accept_id < u64::MAX,
    ensures
        r == reply_of(custom_id@, accept_id),
{
    let accept = decimal_text(accept_id);
    let reject = decimal_text(accept_id + 1);
    if text_eq(custom_id, accept.as_str()) {
        Reply::Accept
    } else if text_eq(custom_id, reject.as_str()) {
        Reply::Reject
    } else {
        Reply::Neither
    }
}

/// No button both accepts and rejects: the accept and reject ids differ, and
/// so do their decimal texts.
pub proof fn lemma_accept_and_reject_differ(accept_id: u64)
    requires
        accept_id < u64::MAX,
    ensures
        decimal_of(accept_id as nat) != decimal_of((accept_id + 1) as nat),
{
    if decimal_of(accept_id as nat) == decimal_of((accept_id + 1) as nat) {
        lemma_decimal_injective(accept_id, (accept_id + 1) as u64);
    }
}

/// For every accept id that leaves room for the reject id, whatever its size,
/// the button whose id is the decimal text of the accept id accepts, the button
/// whose id is the decimal text of the accept id plus one rejects, and a
/// button with any other id does neither.
pub proof fn lemma_reply_buttons(accept_id: u64, other: Seq<char>)
    requires
        accept_id < u64::MAX,
    ensures
        reply_of(decimal_of(accept_id as nat), accept_id) == Reply::Accept,
        reply_of(decimal_of((accept_id + 1) as nat), accept_id) == Reply::Reject,
        other != decimal_of(accept_id as nat) && other != decimal_of((accept_id + 1) as nat)
            ==> reply_of(other, accept_id) == Reply::Neither,
{
    lemma_accept_and_reject_differ(accept_id);
}

/// Whether a player is challenging themselves, which is refused.
pub fn is_self_challenge(caller_id: u64, challenged_id: u64) -> (b: bool)
    ensures
        b == (caller_id == challenged_id),
{
    caller_id == challenged_id
}

/// The line that lists one pending match: `Vs. <name> on <time>`.
pub fn pending_label(name: &str, time: &str) -> (s: String)
    ensures
        s@ == "Vs. "@ + name@ + " on "@ + time@,
{
    let mut s = String::from_str("Vs. ");
    s.append(name);
    s.append(" on ");
    s.append(time);
    s
}

} // verus!
