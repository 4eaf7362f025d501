use tews_circuit::rank::Rank;

#[test]
fn rank_thresholds() {
    assert_eq!(Rank::from(0u16), Rank::Unrated);
    assert_eq!(Rank::from(1099u16), Rank::Unrated);
    assert_eq!(Rank::from(1100u16), Rank::Gold);
    assert_eq!(Rank::from(1299u16), Rank::Gold);
    assert_eq!(Rank::from(1300u16), Rank::Emerald);
    assert_eq!(Rank::from(1499u16), Rank::Emerald);
    assert_eq!(Rank::from(1500u16), Rank::Diamond);
    assert_eq!(Rank::from(u16::MAX), Rank::Diamond);
}

#[test]
fn rank_names() {
    assert_eq!(Rank::Unrated.to_string(), "Unrated");
    assert_eq!(Rank::Gold.to_string(), "Gold");
    assert_eq!(Rank::Emerald.to_string(), "Emerald");
    assert_eq!(Rank::Diamond.to_string(), "Diamond");
}

#[test]
fn rank_order() {
    assert!(Rank::Diamond.outranks(&Rank::Emerald));
    assert!(Rank::Emerald.outranks(&Rank::Gold));
    assert!(Rank::Gold.outranks(&Rank::Unrated));
    assert!(!Rank::Gold.outranks(&Rank::Gold));
    assert!(!Rank::Unrated.outranks(&Rank::Diamond));
    assert_eq!(Rank::Unrated.level(), 0);
    assert_eq!(Rank::Diamond.level(), 3);
}

#[test]
fn rank_is_monotone_in_points() {
    let mut previous = Rank::from(0u16).level();
    for p in (0..=u16::MAX).step_by(7) {
        let level = Rank::from(p).level();
        assert!(level >= previous);
        previous = level;
    }
}

#[test]
fn rank_comparison_operators() {
    assert!(Rank::Diamond > Rank::Gold);
    assert!(Rank::Unrated < Rank::Gold);
    assert!(Rank::Emerald >= Rank::Emerald);
    assert!(!(Rank::Gold > Rank::Emerald));
    assert_eq!(Rank::Gold.partial_cmp(&Rank::Gold), Some(std::cmp::Ordering::Equal));
}
