//! Calendar dates in the proleptic Gregorian calendar, as year, month and day.
use vstd::prelude::*;

verus! {

/// The earliest year that a `Date` can hold.
pub const MIN_YEAR: i32 = -9999;

/// The latest year that a `Date` can hold.
pub const MAX_YEAR: i32 = 9999;

/// Leap years: divisible by 4, except centuries not divisible by 400.
pub open spec fn is_leap_year(year: int) -> bool {
    year % 4 == 0 && (year % 100 != 0 || year % 400 == 0)
}

/// How many days month `month` (1 to 12) has in `year`.
pub open spec fn days_in_month(month: int, year: int) -> int {
    if month == 2 {
        if is_leap_year(year) {
            29
        } else {
            28
        }
    } else if month == 4 || month == 6 || month == 9 || month == 11 {
        30
    } else {
        31
    }
}

/// `(year, month, day)` names a real day within the supported years.
pub open spec fn is_valid_ymd(year: int, month: int, day: int) -> bool {
    &&& MIN_YEAR <= year <= MAX_YEAR
    &&& 1 <= month <= 12
    &&& 1 <= day <= days_in_month(month, year)
}

/// The decimal digit for `d` (0 to 9).
pub open spec fn digit_char(d: int) -> char {
    if d == 0 {
        '0'
    } else if d == 1 {
        '1'
    } else if d == 2 {
        '2'
    } else if d == 3 {
        '3'
    } else if d == 4 {
        '4'
    } else if d == 5 {
        '5'
    } else if d == 6 {
        '6'
    } else if d == 7 {
        '7'
    } else if d == 8 {
        '8'
    } else {
        '9'
    }
}

/// `n` written in decimal, without leading zeros.
pub open spec fn decimal(n: nat) -> Seq<char>
    decreases n,
{
    if n < 10 {
        seq![digit_char(n as int)]
    } else {
        decimal(n / 10) + seq![digit_char((n % 10) as int)]
    }
}

/// `i` written in decimal, with a leading `-` when negative.
pub open spec fn signed_decimal(i: int) -> Seq<char> {
    if i < 0 {
        seq!['-'] + decimal((-i) as nat)
    } else {
        decimal(i as nat)
    }
}

/// `n` (below 100) as exactly two decimal digits, zero-padded.
pub open spec fn two_digits(n: int) -> Seq<char> {
    seq![digit_char(n / 10), digit_char(n % 10)]
}

/// The text of a date: `YYYY-MM-DD`, month and day zero-padded, year unpadded.
pub open spec fn date_text(d: (int, int, int)) -> Seq<char> {
    signed_decimal(d.0) + seq!['-'] + two_digits(d.1) + seq!['-'] + two_digits(d.2)
}

/// The one-character string of digit `d`.
fn digit_str(d: u32) -> (r: &'static str)
    requires
        d < 10,
    ensures
        r@ == seq![digit_char(d as int)],
{
    proof {
        reveal_strlit("0");
        reveal_strlit("1");
        reveal_strlit("2");
        reveal_strlit("3");
        reveal_strlit("4");
        reveal_strlit("5");
        reveal_strlit("6");
        reveal_strlit("7");
        reveal_strlit("8");
        reveal_strlit("9");
    }
    match d {
        0 => "0",
        1 => "1",
        2 => "2",
        3 => "3",
        4 => "4",
        5 => "5",
        6 => "6",
        7 => "7",
        8 => "8",
        _ => "9",
    }
}

/// Appends `n` in decimal to `out`.
fn push_decimal(out: &mut String, n: u32)
    ensures
        final(out)@ == old(out)@ + decimal(n as nat),
    decreases n,
{
    if n >= 10 {
        push_decimal(out, n / 10);
    }
    out.append(digit_str(n % 10));
    proof {
        assert(final(out)@ =~= old(out)@ + decimal(n as nat));
    }
}

/// Appends `n` (below 100) as two zero-padded digits to `out`.
fn push_two_digits(out: &mut String, n: u32)
    requires
        n < 100,
    ensures
        final(out)@ == old(out)@ + two_digits(n as int),
{
    out.append(digit_str(n / 10));
    out.append(digit_str(n % 10));
    proof {
        assert(final(out)@ =~= old(out)@ + two_digits(n as int));
    }
}

/// The months of the year.
#[derive(Clone, Copy, Debug, PartialEq, Eq, Structural, Hash)]
pub enum Month {
    January,
    February,
    March,
    April,
    May,
    June,
    July,
    August,
    September,
    October,
    November,
    December,
}

impl Month {
    /// The month's number, January being 1.
    pub open spec fn spec_number(self) -> int {
        match self {
            Month::January => 1,
            Month::February => 2,
            Month::March => 3,
            Month::April => 4,
            Month::May => 5,
            Month::June => 6,
            Month::July => 7,
            Month::August => 8,
            Month::September => 9,
            Month::October => 10,
            Month::November => 11,
            Month::December => 12,
        }
    }

    /// The month's number, January being 1.
    pub fn number(self) -> (r: u8)
        ensures
            r == self.spec_number(),
            1 <= r <= 12,
    {
        match self {
            Month::January => 1,
            Month::February => 2,
            Month::March => 3,
            Month::April => 4,
            Month::May => 5,
            Month::June => 6,
            Month::July => 7,
            Month::August => 8,
            Month::September => 9,
            Month::October => 10,
            Month::November => 11,
            Month::December => 12,
        }
    }

    /// The month with number `n`, if `n` is between 1 and 12.
    pub fn from_number(n: u8) -> (r: Option<Month>)
        ensures
            r is Some <==> 1 <= n <= 12,
            r matches Some(m) ==> m.spec_number() == n,
    {
        match n {
            1 => Some(Month::January),
            2 => Some(Month::February),
            3 => Some(Month::March),
            4 => Some(Month::April),
            5 => Some(Month::May),
            6 => Some(Month::June),
            7 => Some(Month::July),
            8 => Some(Month::August),
            9 => Some(Month::September),
            10 => Some(Month::October),
            11 => Some(Month::November),
            12 => Some(Month::December),
            _ => None,
        }
    }
}

/// The year, month and day given do not name a real calendar day.
#[derive(Clone, Copy, Debug, PartialEq, Eq, Structural)]
pub struct InvalidDate;

/// A valid calendar day, without a time of day.
#[derive(Clone, Copy, Debug, PartialEq, Eq, Hash)]
pub struct Date {
    year: i32,
    month: Month,
    day: u8,
}

impl View for Date {
    type V = (int, int, int);

    /// The date as (year, month number, day of month).
    closed spec fn view(&self) -> (int, int, int) {
        (self.year as int, self.month.spec_number(), self.day as int)
    }
}

/// Relies on `time::Month::try_from` and `time::Date::from_calendar_date`
/// (without the `large-dates` feature): a month number names a month from 1
/// to 12, and a date exists when its year lies in -9999..=9999 and its day
/// within the month's length in that year.
#[verifier::external_body]
fn calendar_date_exists(year: i32, month: u8, day: u8) -> (r: bool)
    ensures
        r == is_valid_ymd(year as int, month as int, day as int),
{
    match time::Month::try_from(month) {
        Ok(m) => time::Date::from_calendar_date(year, m, day).is_ok(),
        Err(_) => false,
    }
}

/// Relies on `time::OffsetDateTime::now_utc` and the accessors of the `Date`
/// it holds: today's date in UTC, as year, month number and day, which is a
/// valid `time::Date`.
#[verifier::external_body]
fn utc_today() -> (r: (i32, u8, u8))
    ensures
        is_valid_ymd(r.0 as int, r.1 as int, r.2 as int),
{
    let d = time::OffsetDateTime::now_utc().date();
    (d.year(), u8::from(d.month()), d.day())
}

impl Date {
    #[verifier::type_invariant]
    spec fn inv(&self) -> bool {
        is_valid_ymd(self.year as int, self.month.spec_number(), self.day as int)
    }

    /// The date `year`-`month`-`day`, or `InvalidDate` where there is no such day.
    pub fn from_calendar_date(year: i32, month: Month, day: u8) -> (r: Result<Date, InvalidDate>)
        ensures
            r is Ok <==> is_valid_ymd(year as int, month.spec_number(), day as int),
            r matches Ok(d) ==> d@ == (year as int, month.spec_number(), day as int),
    {
        if calendar_date_exists(year, month.number(), day) {
            Ok(Date { year, month, day })
        } else {
            Err(InvalidDate)
        }
    }

    /// Today's date in UTC.
    pub fn today() -> (r: Date) {
        let (year, number, day) = utc_today();
        let month = match Month::from_number(number) {
            Some(m) => m,
            None => Month::January,
        };
        Date { year, month, day }
    }

    /// The year.
    pub fn year(&self) -> (r: i32)
        ensures
            r == self@.0,
            is_valid_ymd(self@.0, self@.1, self@.2),
    {
        proof {
            use_type_invariant(self);
        }
        self.year
    }

    /// The month.
    pub fn month(&self) -> (r: Month)
        ensures
            r.spec_number() == self@.1,
    {
        self.month
    }

    /// The day of the month.
    pub fn day(&self) -> (r: u8)
        ensures
            r == self@.2,
    {
        self.day
    }

    /// Appends the date as `YYYY-MM-DD` to `out`.
    pub fn write_to(&self, out: &mut String)
        ensures
            final(out)@ == old(out)@ + date_text(self@),
    {
        proof {
            use_type_invariant(self);
        }
        proof {
            reveal_strlit("-");
        }
        if self.year < 0 {
            out.append("-");
            push_decimal(out, (0 - self.year) as u32);
        } else {
            push_decimal(out, self.year as u32);
        }
        out.append("-");
        push_two_digits(out, self.month.number() as u32);
        out.append("-");
        push_two_digits(out, self.day as u32);
        proof {
            assert(final(out)@ =~= old(out)@ + date_text(self@));
        }
    }
}

} // verus!
