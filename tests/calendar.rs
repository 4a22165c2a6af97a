use the_anarchist_workshop::date::{Date, Month};
use the_anarchist_workshop::the_calendar::{CalendarPost, TheCalendar};
use time::{Duration, OffsetDateTime};

const YEAR: i32 = 2000;
const MONTH: Month = Month::March;
const DAY: u8 = 8;
const POST_TEXT: &str = "Don't forget!";
const POST_EXPECTED_DISPLAY: &str = "2000-03-08: Don't forget!";

fn date_of(d: time::Date) -> Date {
    let month = Month::from_number(u8::from(d.month())).unwrap();
    Date::from_calendar_date(d.year(), month, d.day()).unwrap()
}

#[test]
fn the_calendar_should_implement_default_n_debug_n_partial_eq() {
    assert_eq!(
        TheCalendar::<(), ()>::default(),
        TheCalendar::<(), ()>::default()
    );
}

#[test]
fn the_calendar_has_empty_count_of_things_by_default() {
    let calendar: TheCalendar<(), ()> = Default::default();
    assert_eq!(calendar.total_things(), 0);
}

#[test]
fn a_new_calendar_contains_no_key() {
    let calendar: TheCalendar<u64, String> = Default::default();
    assert_eq!(calendar.total_things(), 0);
    assert!(!calendar.contains(&0));
    assert!(!calendar.contains(&42));
    assert_eq!(calendar.get(&42), None);
}

#[test]
fn a_calendar_post_should_implement_default_n_debug_n_partial_eq() {
    assert_eq!(CalendarPost::default(), CalendarPost::default());
}

#[test]
fn a_new_calendar_post_has_todays_date() {
    let post = CalendarPost::new("Remember to improve the calendar");
    assert_eq!(post.date, date_of(OffsetDateTime::now_utc().date()));
    assert_eq!(post.text, "Remember to improve the calendar");
}

#[test]
fn a_new_calendar_post_can_set_its_date() {
    let some_date = Date::from_calendar_date(YEAR, MONTH, DAY).unwrap();
    let post = CalendarPost::new_with_date(POST_TEXT, some_date);
    assert_eq!(post.date, some_date);
}

#[test]
fn a_new_calendar_post_can_be_created_with_year_month_day() {
    let post = CalendarPost::new_with_ymd(POST_TEXT, YEAR, MONTH, DAY).unwrap();
    assert_eq!(post.date.year(), YEAR);
    assert_eq!(post.date.month(), MONTH);
    assert_eq!(post.date.day(), DAY);
}

#[test]
fn a_calendar_post_implements_fmt_display() {
    // for our constant post info, we compare with the
    // constant that has the expected display output
    let post = CalendarPost::new_with_ymd(POST_TEXT, YEAR, MONTH, DAY).unwrap();
    assert_eq!(post.render(), POST_EXPECTED_DISPLAY);

    // for a date that is 5 days from today, we build the expected
    // output by hand
    let five_days_from_now = OffsetDateTime::now_utc().date() + Duration::days(5);
    let (year, month, day) = (
        five_days_from_now.year(),
        five_days_from_now.month(),
        five_days_from_now.day(),
    );
    let post = CalendarPost::new_with_date("Calendar continues", date_of(five_days_from_now));
    let expected = format!("{}-{:0>2}-{:0>2}: {}", year, month as u8, day, post.text);
    assert_eq!(post.render(), expected);
}

#[test]
fn a_hash_map_of_calendar_posts() {
    const POST_TITLE: &str = "2021 Stuff";
    let mut collection: TheCalendar<String, CalendarPost> = TheCalendar::default();
    // When someting is new, `insert` returns None
    assert_eq!(
        collection.insert(POST_TITLE.to_string(), Default::default()),
        None
    );
    // When someting already exists, `insert` returns `Some(replaced)`
    assert!(collection
        .insert(POST_TITLE.to_string(), Default::default())
        .is_some());

    assert!(collection.contains(&POST_TITLE.to_string()));
}

#[test]
fn a_hash_map_of_dates_for_keys_and_a_vec_of_strings_for_values() {
    let today = date_of(OffsetDateTime::now_utc().date());
    let five_days_from_now = date_of(OffsetDateTime::now_utc().date() + Duration::days(5));

    let mut collection: TheCalendar<Date, Vec<String>> = TheCalendar::default();
    // When someting is new, `insert` returns None
    assert_eq!(collection.insert(today, Default::default()), None);
    // When someting already exists, `insert` returns `Some(replaced)`
    assert!(collection
        .insert(five_days_from_now, Default::default())
        .is_none());

    assert!(collection.contains(&today));
    assert!(collection.contains(&five_days_from_now));
}

#[test]
fn inserting_one_key_twice_keeps_one_thing() {
    let mut collection: TheCalendar<u64, &str> = TheCalendar::default();
    assert_eq!(collection.insert(7, "first"), None);
    assert_eq!(collection.insert(7, "second"), Some("first"));
    assert_eq!(collection.total_things(), 1);
    assert_eq!(collection.get(&7), Some(&"second"));
}

#[test]
fn distinct_keys_each_count() {
    let mut collection: TheCalendar<u64, u8> = TheCalendar::default();
    assert_eq!(collection.insert(1, 10), None);
    assert_eq!(collection.insert(2, 20), None);
    assert_eq!(collection.insert(3, 30), None);
    assert_eq!(collection.total_things(), 3);
    assert_eq!(collection.get(&2), Some(&20));
    assert_eq!(collection.get(&4), None);
}

#[test]
fn a_post_renders_with_empty_text() {
    let post = CalendarPost::new_with_ymd("", 1999, Month::December, 31).unwrap();
    assert_eq!(post.render(), "1999-12-31: ");
}

#[test]
fn a_post_renders_short_and_negative_years_unpadded() {
    let post = CalendarPost::new_with_ymd("early", 5, Month::January, 1).unwrap();
    assert_eq!(post.render(), "5-01-01: early");
    let post = CalendarPost::new_with_ymd("ides", -44, Month::March, 15).unwrap();
    assert_eq!(post.render(), "-44-03-15: ides");
    let post = CalendarPost::new_with_ymd("edge", -9999, Month::October, 9).unwrap();
    assert_eq!(post.render(), "-9999-10-09: edge");
}

#[test]
fn a_post_with_an_invalid_date_is_refused() {
    assert!(CalendarPost::new_with_ymd("x", 2000, Month::February, 30).is_err());
    assert!(CalendarPost::new_with_ymd("x", 2021, Month::April, 31).is_err());
    assert!(CalendarPost::new_with_ymd("x", 2021, Month::May, 0).is_err());
}

#[test]
fn a_default_post_has_empty_text_and_todays_date() {
    let post = CalendarPost::default();
    assert_eq!(post.text, "");
    assert_eq!(post.date, date_of(OffsetDateTime::now_utc().date()));
}
