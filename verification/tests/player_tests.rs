use tews_circuit::player::{Player, Streak, LOSS_FLOOR};
use tews_circuit::rank::Rank;

#[test]
fn new_player_is_ranked_by_points() {
    let p = Player::new(42, "alice".to_string(), 1300);
    assert_eq!(p.rank, Rank::Emerald);
    assert_eq!(p.points, 1300);
    assert_eq!(p.name(), "alice");
    assert_eq!(p.id(), "42");
}

#[test]
fn streak_from_counts() {
    assert_eq!(Streak::from_counts(0, 0), Streak::Neither);
    assert_eq!(Streak::from_counts(3, 0), Streak::Amount(3));
    assert_eq!(Streak::from_counts(0, 4), Streak::Amount(4));
    assert_eq!(Streak::from_counts(2, 5), Streak::Amount(5));
}

#[test]
fn streak_bonus_values() {
    assert_eq!(Player::streak_bonus(&Streak::Neither), 0);
    assert_eq!(Player::streak_bonus(&Streak::Amount(1)), 10);
    assert_eq!(Player::streak_bonus(&Streak::Amount(2)), 5);
    assert_eq!(Player::streak_bonus(&Streak::Amount(3)), 10);
}

#[test]
fn win_adds_points_and_bonus() {
    let mut p = Player::new(1, "a".to_string(), 1000);
    assert_eq!(p.add(25, &Streak::Neither), (1025, false));
    assert_eq!(p.add(25, &Streak::Amount(2)), (1055, false));
    assert_eq!(p.add(25, &Streak::Amount(4)), (1090, false));
    assert_eq!(p.add(10, &Streak::Amount(4)), (1110, true));
    assert_eq!(p.rank, Rank::Gold);
}

#[test]
fn loss_above_floor_subtracts_points_and_bonus() {
    let mut p = Player::new(1, "a".to_string(), 1120);
    assert_eq!(p.minus(15, &Streak::Amount(2)), (1100, false));
    assert_eq!(p.rank, Rank::Gold);
    assert_eq!(p.minus(30, &Streak::Amount(7)), (1060, true));
    assert_eq!(p.rank, Rank::Unrated);
}

#[test]
fn loss_at_or_below_floor_sets_floor() {
    let mut p = Player::new(1, "a".to_string(), 700);
    assert!(!p.loss_uses_streak());
    assert_eq!(p.minus(25, &Streak::Amount(9)), (LOSS_FLOOR, false));
    assert_eq!(p.minus(30, &Streak::Neither), (750, false));
    let q = Player::new(2, "b".to_string(), 751);
    assert!(q.loss_uses_streak());
}

#[test]
fn update_rank_reports_changes() {
    let mut p = Player::new(1, "a".to_string(), 1000);
    assert!(!p.update_rank(1050));
    assert!(p.update_rank(1600));
    assert_eq!(p.rank, Rank::Diamond);
    assert_eq!(p.points, 1000);
}

#[test]
fn players_are_equal_by_id() {
    let a = Player::new(9, "x".to_string(), 900);
    let b = Player::new(9, "y".to_string(), 1500);
    let c = Player::new(10, "x".to_string(), 900);
    assert!(a == b);
    assert!(a != c);
}

#[test]
fn player_description() {
    let p = Player::new(123, "bob".to_string(), 1310);
    assert_eq!(p.to_string(), "Name: bob (123)\nRank: Emerald\nPoints: 1310");
}

#[test]
fn win_never_demotes_and_loss_never_promotes() {
    for start in (0u16..2000).step_by(13) {
        let mut w = Player::new(1, "w".to_string(), start);
        let before = w.rank.level();
        w.add(10, &Streak::Amount(2));
        assert!(w.rank.level() >= before);
        let mut l = Player::new(2, "l".to_string(), start);
        if l.loss_uses_streak() && l.points < 30 + 10 {
            continue;
        }
        l.minus(30, &Streak::Amount(5));
        assert!(l.rank.level() <= before);
    }
}
