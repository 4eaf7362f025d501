use chrono::NaiveDateTime;
use tews_circuit::errors::TewsError;
use tews_circuit::schedule::{
    after_insert, check_booking, iso_date_text, plan_challenge, plan_for_parsed_date, ChallengePlan,
    InsertFollowUp, MatchDate, MATCH_DATE_FORMAT,
};

fn date(year: i32, month: u32, day: u32, hour: u32, minute: u32) -> MatchDate {
    MatchDate { year, month, day, hour, minute }
}

#[test]
fn plan_inserts_iso_date() {
    match plan_challenge("8 Jul 2021 15:00", None) {
        Ok(ChallengePlan::Insert(d)) => assert_eq!(d, "2021-07-08 15:00"),
        _ => panic!("expected an insert"),
    }
    match plan_challenge("1 Jan 2024 18:30", None) {
        Ok(ChallengePlan::Insert(d)) => assert_eq!(d, "2024-01-01 18:30"),
        _ => panic!("expected an insert"),
    }
    match plan_challenge("9 Apr 2023 20:00", None) {
        Ok(ChallengePlan::Insert(d)) => assert_eq!(d, "2023-04-09 20:00"),
        _ => panic!("expected an insert"),
    }
}

#[test]
fn plan_finishes_when_success_given() {
    assert!(matches!(plan_challenge("8 Jul 2021 15:00", Some(true)), Ok(ChallengePlan::Finish(true))));
    assert!(matches!(plan_challenge("8 Jul 2021 15:00", Some(false)), Ok(ChallengePlan::Finish(false))));
}

#[test]
fn plan_rejects_bad_dates_with_chrono_message() {
    for text in ["tomorrow", "31 Feb 2023 10:00", "8 Jul 2021 25:00", "", "8 Jul 2021", "8 Jul 2021 15:00 extra"] {
        let expected = NaiveDateTime::parse_from_str(text, MATCH_DATE_FORMAT).unwrap_err().to_string();
        match plan_challenge(text, Some(true)) {
            Err(msg) => assert_eq!(msg, expected),
            _ => panic!("expected an error for {:?}", text),
        }
    }
}

#[test]
fn iso_text_matches_chrono_format() {
    for text in ["8 Jul 2021 15:00", "29 Feb 2024 00:05", "1 Jan 0005 09:09", "31 Dec 9999 23:59", "1 Jan +10000 01:02", "1 Jan -0001 01:02"] {
        let dt = NaiveDateTime::parse_from_str(text, MATCH_DATE_FORMAT).unwrap();
        let expected = dt.format("%Y-%m-%d %H:%M").to_string();
        match plan_challenge(text, None) {
            Ok(ChallengePlan::Insert(d)) => assert_eq!(d, expected, "{}", text),
            _ => panic!("expected an insert for {:?}", text),
        }
    }
}

#[test]
fn iso_date_text_pads_fields() {
    assert_eq!(iso_date_text(&date(2021, 7, 8, 15, 0)), "2021-07-08 15:00");
    assert_eq!(iso_date_text(&date(5, 1, 2, 3, 4)), "0005-01-02 03:04");
    assert_eq!(iso_date_text(&date(10000, 12, 31, 23, 59)), "+10000-12-31 23:59");
    assert_eq!(iso_date_text(&date(-1, 1, 1, 0, 0)), "-0001-01-01 00:00");
    assert_eq!(iso_date_text(&date(-12345, 1, 1, 0, 0)), "-12345-01-01 00:00");
}

#[test]
fn plan_for_parsed_date_cases() {
    assert!(matches!(
        plan_for_parsed_date(Err("bad".to_string()), Some(true)),
        Err(m) if m == "bad"
    ));
    assert!(matches!(
        plan_for_parsed_date(Ok(date(2023, 4, 9, 20, 0)), None),
        Ok(ChallengePlan::Insert(d)) if d == "2023-04-09 20:00"
    ));
}

#[test]
fn after_insert_decisions() {
    assert!(matches!(after_insert(Ok(()), false), InsertFollowUp::Added));
    assert!(matches!(after_insert(Ok(()), true), InsertFollowUp::Added));
    assert!(matches!(
        after_insert(Err(TewsError::ForeignKeyConstraintNotMet), false),
        InsertFollowUp::RegisterPlayersAndRetry
    ));
    assert!(matches!(
        after_insert(Err(TewsError::ForeignKeyConstraintNotMet), true),
        InsertFollowUp::Fail(m) if m == "Unregistered player(s) could not be added to the database."
    ));
    assert!(matches!(
        after_insert(Err(TewsError::Locked), false),
        InsertFollowUp::Fail(m) if m == "Database is busy with another operation, please try again."
    ));
    assert!(matches!(after_insert(Err(TewsError::NoError), false), InsertFollowUp::Added));
    assert!(matches!(
        after_insert(Err(TewsError::Unknown("boom".to_string())), false),
        InsertFollowUp::Fail(m) if m == "boom"
    ));
    assert!(matches!(
        after_insert(Err(TewsError::Other("no rows returned".to_string())), false),
        InsertFollowUp::Fail(m) if m == "no rows returned"
    ));
}

#[test]
fn retry_happens_at_most_once() {
    let outcomes = || {
        vec![
            Ok(()),
            Err(TewsError::NoError),
            Err(TewsError::ForeignKeyConstraintNotMet),
            Err(TewsError::Locked),
            Err(TewsError::Unknown("u".to_string())),
            Err(TewsError::Other("o".to_string())),
        ]
    };
    for outcome in outcomes() {
        assert!(!matches!(after_insert(outcome, true), InsertFollowUp::RegisterPlayersAndRetry));
    }
}

#[test]
fn booking_refuses_a_taken_date() {
    let booked = vec!["2024-01-01 18:30".to_string(), "2024-02-02 10:00".to_string()];
    assert!(check_booking("2024-03-03 12:00", &booked).is_ok());
    assert_eq!(
        check_booking("2024-02-02 10:00", &booked),
        Err("One of the players already has a match at that time.".to_string())
    );
    assert!(check_booking("2024-02-02 10:00", &vec![]).is_ok());
}
