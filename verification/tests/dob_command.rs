use bouncer::commands::dob::{compute_age, dob_reply, Command, Date};

fn date(year: i32, month: u32, day: u32) -> Date {
    Date { year, month, day }
}

#[test]
fn the_age_counts_completed_years() {
    assert_eq!(compute_age(date(2020, 6, 15), date(2000, 6, 15)), 20);
    assert_eq!(compute_age(date(2020, 6, 15), date(2000, 6, 16)), 19);
    assert_eq!(compute_age(date(2020, 6, 15), date(2000, 7, 1)), 19);
    assert_eq!(compute_age(date(2020, 6, 15), date(2000, 5, 31)), 20);
    assert_eq!(compute_age(date(2020, 1, 1), date(2020, 1, 1)), 0);
}

#[test]
fn a_birth_date_in_the_future_gives_a_negative_age() {
    assert_eq!(compute_age(date(2020, 1, 1), date(2030, 1, 1)), -10);
}

#[test]
fn the_reply_carries_the_age_in_decimal() {
    let r = dob_reply(Some("2000-01-02"), date(2020, 1, 1));
    assert_eq!(r, "19");
    let r = dob_reply(Some("2000-01-02"), date(2020, 1, 2));
    assert_eq!(r, "20");
}

#[test]
fn a_missing_date_asks_for_one() {
    assert_eq!(dob_reply(None, date(2020, 1, 1)), "Please enter a date.");
}

#[test]
fn executing_against_the_clock_asks_for_a_date_when_none_is_given() {
    assert_eq!(Command::execute(None), "Please enter a date.");
}

#[test]
fn executing_against_the_clock_answers_a_valid_date_with_a_number() {
    let r = Command::execute(Some("2000-01-02"));
    assert!(r.parse::<i64>().is_ok(), "expected a decimal age, got `{r}`");
}

#[test]
fn an_incomplete_date_is_reported_as_incomplete() {
    assert_eq!(
        dob_reply(Some("2000-01"), date(2020, 1, 1)),
        "The date is incomplete. Please fill in the missing fields."
    );
    assert_eq!(
        dob_reply(Some(""), date(2020, 1, 1)),
        "The date is incomplete. Please fill in the missing fields."
    );
}

#[test]
fn a_nonexistent_calendar_day_is_reported_as_out_of_range() {
    assert_eq!(
        dob_reply(Some("2000-02-30"), date(2020, 1, 1)),
        "Ensure the month is between 1 and 12, and the day is valid for the given month."
    );
    assert_eq!(
        dob_reply(Some("2000-13-01"), date(2020, 1, 1)),
        "Ensure the month is between 1 and 12, and the day is valid for the given month."
    );
}
