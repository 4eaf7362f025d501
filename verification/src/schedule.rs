use vstd::prelude::*;
use vstd::string::*;
use chrono::{Datelike, Timelike};

use crate::decimal::{decimal_of, decimal_text, digit_char};
use crate::errors::TewsError;
use crate::text::text_eq;

verus! {

/// The format in which a challenged player writes the date and time of a
/// match, such as `8 Jul 2021 15:00`.
pub const MATCH_DATE_FORMAT: &'static str = "%e %b %Y %H:%M";

/// A calendar date and time of day, to the minute.
#[derive(Clone, Copy, Debug, PartialEq, Eq, Structural)]
pub struct MatchDate {
    pub year: i32,
    pub month: u32,
    pub day: u32,
    pub hour: u32,
    pub minute: u32,
}

/// What `chrono::NaiveDateTime::parse_from_str` gives for `text` in the format
/// `format`: the year, month, day, hour and minute it reads, or the text of
/// the parse error.
pub uninterp spec fn chrono_parse(text: Seq<char>, format: Seq<char>) -> Result<(int, int, int, int, int), Seq<char>>;

/// Parses `text` in the format `format` with
/// `chrono::NaiveDateTime::parse_from_str`. Claims that the result is the one
/// named by `chrono_parse`, and, as chrono documents of any date and time it
/// gives, that the month is 1 to 12, the day 1 to 31, the hour 0 to 23 and the
/// minute 0 to 59.
#[verifier::external_body]
fn parse_match_date(text: &str, format: &str) -> (r: Result<MatchDate, String>)
    ensures
        match r {
            Ok(d) => {
                &&& chrono_parse(text@, format@) == Ok::<(int, int, int, int, int), Seq<char>>(
                    date_parts(d),
                )
                &&& 1 <= d.month <= 12
                &&& 1 <= d.day <= 31
                &&& d.hour <= 23
                &&& d.minute <= 59
            },
            Err(e) => chrono_parse(text@, format@) == Err::<(int, int, int, int, int), Seq<char>>(e@),
        },
{
    match chrono::NaiveDateTime::parse_from_str(text, format) {
        Ok(dt) => Ok(
            MatchDate {
                year: dt.year(),
                month: dt.month(),
                day: dt.day(),
                hour: dt.hour(),
                minute: dt.minute(),
            },
        ),
        Err(e) => Err(e.to_string()),
    }
}

/// `n` as exactly two digits, with a leading zero below ten.
pub open spec fn two_digits(n: int) -> Seq<char> {
    seq![digit_char(n / 10), digit_char(n % 10)]
}

/// `s` padded on the left with zeros to at least four characters.
pub open spec fn zero_pad4(s: Seq<char>) -> Seq<char> {
    if s.len() < 4 {
        Seq::new((4 - s.len()) as nat, |i: int| '0') + s
    } else {
        s
    }
}

/// A year as `%Y` writes it: at least four digits, zero-padded, with a sign in
/// front of years outside 0 to 9999.
pub open spec fn year_text(y: int) -> Seq<char> {
    if 0 <= y <= 9999 {
        zero_pad4(decimal_of(y as nat))
    } else if y > 9999 {
        seq!['+'] + zero_pad4(decimal_of(y as nat))
    } else {
        seq!['-'] + zero_pad4(decimal_of((-y) as nat))
    }
}

/// The year, month, day, hour and minute of `d`.
pub open spec fn date_parts(d: MatchDate) -> (int, int, int, int, int) {
    (d.year as int, d.month as int, d.day as int, d.hour as int, d.minute as int)
}

/// A date and time given by its parts in the format `%Y-%m-%d %H:%M`, the
/// ISO 8601 text in which dates are stored.
pub open spec fn iso_of(parts: (int, int, int, int, int)) -> Seq<char> {
    let (year, month, day, hour, minute) = parts;
    year_text(year) + seq!['-'] + two_digits(month) + seq!['-'] + two_digits(day) + seq![' ']
        + two_digits(hour) + seq![':'] + two_digits(minute)
}

/// `d` in the format `%Y-%m-%d %H:%M`.
pub open spec fn iso_text(d: MatchDate) -> Seq<char> {
    iso_of(date_parts(d))
}

/// Appends `n` to `s` as exactly two digits.
fn push_two_digits(s: &mut String, n: u32)
    requires
        n < 100,
    ensures
        final(s)@ == old(s)@ + two_digits(n as int),
{
    let tens = decimal_text((n / 10) as u64);
    let ones = decimal_text((n % 10) as u64);
    s.append(tens.as_str());
    s.append(ones.as_str());
    proof {
        assert(two_digits(n as int) =~= decimal_of((n / 10) as nat) + decimal_of((n % 10) as nat));
    }
}

/// `y` as `%Y` writes it.
fn year_string(y: i32) -> (s: String)
    ensures
        s@ == year_text(y as int),
{
    let mut s = String::new();
    let magnitude: u64 = if y < 0 {
        (-(y as i64)) as u64
    } else {
        y as u64
    };
    if y > 9999 {
        s.append("+");
    } else if y < 0 {
        s.append("-");
    }
    let digits = decimal_text(magnitude);
    let len = digits.unicode_len();
    let mut k: usize = len;
    while k < 4
        invariant
            len <= k,
            k <= 4 || k == len,
            len == digits@.len(),
            s@ == (if y > 9999 {
                "+"@
            } else if y < 0 {
                "-"@
            } else {
                Seq::<char>::empty()
            }) + Seq::new((k - len) as nat, |i: int| '0'),
        decreases 4 - k,
    {
        s.append("0");
        proof {
            reveal_strlit("0");
        }
        k = k + 1;
    }
    s.append(digits.as_str());
    proof {
        reveal_strlit("+");
        reveal_strlit("-");
        lemma_decimal_nonempty(magnitude as nat);
        if len < 4 {
            assert(Seq::new((4 - len) as nat, |i: int| '0') =~= Seq::new((k - len) as nat, |i: int| '0'));
        } else {
            assert(Seq::new((k - len) as nat, |i: int| '0') =~= Seq::<char>::empty());
        }
        assert(s@ =~= year_text(y as int));
    }
    s
}

proof fn lemma_decimal_nonempty(n: nat)
    ensures
        decimal_of(n).len() >= 1,
    decreases n,
{
    if n >= 10 {
        lemma_decimal_nonempty(n / 10);
    }
}

/// `d` in the format `%Y-%m-%d %H:%M`.
pub fn iso_date_text(d: &MatchDate) -> (s: String)
    requires
        d.month < 100,
        d.day < 100,
        d.hour < 100,
        d.minute < 100,
    ensures
        s@ == iso_text(*d),
{
    let mut s = year_string(d.year);
    s.append("-");
    push_two_digits(&mut s, d.month);
    s.append("-");
    push_two_digits(&mut s, d.day);
    s.append(" ");
    push_two_digits(&mut s, d.hour);
    s.append(":");
    push_two_digits(&mut s, d.minute);
    proof {
        reveal_strlit("-");
        reveal_strlit(" ");
        reveal_strlit(":");
        assert(s@ =~= iso_text(*d));
    }
    s
}

/// What storing a new challenge does once its date has been read.
pub enum ChallengePlan {
    /// Store a new pending challenge dated at this ISO 8601 text.
    Insert(String),
    /// Report this outcome and touch nothing: the guard that ends a retry.
    Finish(bool),
}

/// The plan for a challenge whose date reads as `parsed` (the parts, or the
/// text of the parse error), given the outcome `success` of an earlier attempt:
/// the error text where the date was rejected, else `success` where it is
/// given, else an insert at the ISO 8601 form of the date.
pub open spec fn plan_spec(
    parsed: Result<(int, int, int, int, int), Seq<char>>,
    success: Option<bool>,
    r: Result<ChallengePlan, String>,
) -> bool {
    match parsed {
        Err(text) => r matches Err(e) && e@ == text,
        Ok(parts) => match success {
            Some(b) => r matches Ok(ChallengePlan::Finish(f)) && f == b,
            None => r matches Ok(ChallengePlan::Insert(date)) && date@ == iso_of(parts),
        },
    }
}

/// The parts of a parse result, or its error text.
pub open spec fn parsed_view(parsed: Result<MatchDate, String>) -> Result<
    (int, int, int, int, int),
    Seq<char>,
> {
    match parsed {
        Ok(d) => Ok(date_parts(d)),
        Err(e) => Err(e@),
    }
}

/// Plans storing a challenge from the result of reading its date.
pub fn plan_for_parsed_date(parsed: Result<MatchDate, String>, success: Option<bool>) -> (r: Result<
    ChallengePlan,
    String,
>)
    requires
        parsed matches Ok(d) ==> d.month < 100 && d.day < 100 && d.hour < 100 && d.minute < 100,
    ensures
        plan_spec(parsed_view(parsed), success, r),
{
    match parsed {
        Err(e) => Err(e),
        Ok(d) => match success {
            Some(b) => Ok(ChallengePlan::Finish(b)),
            None => Ok(ChallengePlan::Insert(iso_date_text(&d))),
        },
    }
}

/// Plans storing a challenge whose date the challenged player wrote as
/// `written_date` (format `%e %b %Y %H:%M`): the date is read first, so an
/// unreadable date is an error even where `success` ends the attempt.
pub fn plan_challenge(written_date: &str, success: Option<bool>) -> (r: Result<ChallengePlan, String>)
    ensures
        plan_spec(chrono_parse(written_date@, "%e %b %Y %H:%M"@), success, r),
{
    let parsed = parse_match_date(written_date, MATCH_DATE_FORMAT);
    plan_for_parsed_date(parsed, success)
}

/// What follows an attempt to store a new challenge.
pub enum InsertFollowUp {
    /// The challenge was stored.
    Added,
    /// A player is not registered: register both players, then try once more.
    RegisterPlayersAndRetry,
    /// Give up, reporting this text.
    Fail(String),
}

/// Text of the failure when the database is busy.
pub open spec fn busy_text() -> Seq<char> {
    "Database is busy with another operation, please try again."@
}

/// Text of the failure when registering the players did not let the challenge
/// be stored.
pub open spec fn unregistered_text() -> Seq<char> {
    "Unregistered player(s) could not be added to the database."@
}

/// Whether an attempt with outcome `outcome` leads to registering the players
/// and trying again: only a missing player, and only on the first attempt.
pub open spec fn requests_retry(outcome: Result<(), TewsError>, already_retried: bool) -> bool {
    !already_retried && (outcome matches Err(TewsError::ForeignKeyConstraintNotMet))
}

/// Decides what follows an attempt to store a challenge, from its outcome
/// (`Err` with the classified failure) and whether this attempt was already
/// the retry: a missing player leads to registering both players and one
/// retry; every other failure, and a missing player on the retry, ends in
/// failure; only success (or an outcome that records no error) counts as
/// stored.
pub fn after_insert(outcome: Result<(), TewsError>, already_retried: bool) -> (f: InsertFollowUp)
    ensures
        (f is RegisterPlayersAndRetry) == requests_retry(outcome, already_retried),
        match outcome {
            Ok(()) => f is Added,
            Err(TewsError::NoError) => f is Added,
            Err(TewsError::ForeignKeyConstraintNotMet) => if already_retried {
                f matches InsertFollowUp::Fail(m) && m@ == unregistered_text()
            } else {
                f is RegisterPlayersAndRetry
            },
            Err(TewsError::Unknown(text)) => f matches InsertFollowUp::Fail(m) && m@ == text@,
            Err(TewsError::Locked) => f matches InsertFollowUp::Fail(m) && m@ == busy_text(),
            Err(TewsError::Other(text)) => f matches InsertFollowUp::Fail(m) && m@ == text@,
        },
{
    match outcome {
        Ok(()) => InsertFollowUp::Added,
        Err(TewsError::NoError) => InsertFollowUp::Added,
        Err(TewsError::ForeignKeyConstraintNotMet) => {
            if already_retried {
                InsertFollowUp::Fail(
                    String::from_str("Unregistered player(s) could not be added to the database."),
                )
            } else {
                InsertFollowUp::RegisterPlayersAndRetry
            }
        },
        Err(TewsError::Unknown(text)) => InsertFollowUp::Fail(text),
        Err(TewsError::Locked) => InsertFollowUp::Fail(
            String::from_str("Database is busy with another operation, please try again."),
        ),
        Err(TewsError::Other(text)) => InsertFollowUp::Fail(text),
    }
}

/// Storing a challenge retries at most once: on the retry no outcome asks
/// for another.
pub proof fn lemma_at_most_one_retry(outcome: Result<(), TewsError>)
    ensures
        !requests_retry(outcome, true),
{
}

/// Text of the refusal of a challenge that would double book a player.
pub open spec fn double_booked_text() -> Seq<char> {
    "One of the players already has a match at that time."@
}

/// Whether `date` is one of the dates in `booked`.
pub open spec fn clashes(date: Seq<char>, booked: Seq<String>) -> bool {
    exists|i: int| 0 <= i < booked.len() && #[trigger] booked[i]@ == date
}

/// Checks that a challenge at `date` books no player twice, given the dates
/// of the unfinished matches of both players: refused exactly where one of
/// those dates is `date`.
pub fn check_booking(date: &str, booked: &Vec<String>) -> (r: Result<(), String>)
    ensures
        r is Ok <==> !clashes(date@, booked@),
        r matches Err(m) ==> m@ == double_booked_text(),
{
    let mut i: usize = 0;
    while i < booked.len()
        invariant
            i <= booked.len(),
            forall|k: int| 0 <= k < i ==> booked@[k]@ != date@,
        decreases booked.len() - i,
    {
        if text_eq(booked[i].as_str(), date) {
            return Err(String::from_str("One of the players already has a match at that time."));
        }
        i = i + 1;
    }
    Ok(())
}

} // verus!
