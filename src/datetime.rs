//! Calendar dates and date-times, and their text in the registry's format
//! (`YYYY-MM-DD` and `YYYY-MM-DDTHH:MM:SS` with an optional fraction of a second).
use vstd::prelude::*;

use vstd::arithmetic::div_mod::lemma_small_mod;

use crate::text::{decimal_value, lemma_padded_decimal_value, padded_decimal, pow10};

verus! {

pub open spec fn is_leap_year(year: int) -> bool {
    (year % 4 == 0 && year % 100 != 0) || year % 400 == 0
}

pub open spec fn days_in_month(year: int, month: int) -> int {
    if month == 2 {
        if is_leap_year(year) {
            29
        } else {
            28
        }
    } else if month == 4 || month == 6 || month == 9 || month == 11 {
        30
    } else {
        31
    }
}

/// A day of the proleptic Gregorian calendar with a four-digit year.
pub open spec fn is_valid_date(year: int, month: int, day: int) -> bool {
    &&& 0 <= year <= 9999
    &&& 1 <= month <= 12
    &&& 1 <= day <= days_in_month(year, month)
}

/// A time of day; leap seconds are not represented.
pub open spec fn is_valid_time(hour: int, minute: int, second: int, nanosecond: int) -> bool {
    &&& 0 <= hour < 24
    &&& 0 <= minute < 60
    &&& 0 <= second < 60
    &&& 0 <= nanosecond < 1_000_000_000
}

/// `YYYY-MM-DD`.
pub open spec fn date_text(year: int, month: int, day: int) -> Seq<char> {
    padded_decimal(year as nat, 4) + seq!['-'] + padded_decimal(month as nat, 2) + seq!['-']
        + padded_decimal(day as nat, 2)
}

/// Nothing for a whole second; otherwise a point and the fraction in three, six or
/// nine digits, the fewest that hold it exactly.
pub open spec fn fraction_text(nanosecond: nat) -> Seq<char> {
    if nanosecond == 0 {
        Seq::empty()
    } else if nanosecond % 1_000_000 == 0 {
        seq!['.'] + padded_decimal(nanosecond / 1_000_000, 3)
    } else if nanosecond % 1_000 == 0 {
        seq!['.'] + padded_decimal(nanosecond / 1_000, 6)
    } else {
        seq!['.'] + padded_decimal(nanosecond, 9)
    }
}

/// The digits after the point, read as a decimal fraction, are the nanoseconds over 10^9:
/// with `d` digits standing for `v`, `v * 10^(9 - d)` is the number of nanoseconds.
pub proof fn lemma_fraction_value(nanosecond: nat)
    requires
        0 < nanosecond < 1_000_000_000,
    ensures
        fraction_text(nanosecond).len() >= 2,
        fraction_text(nanosecond)[0] == '.',
        decimal_value(fraction_text(nanosecond).drop_first()) * pow10(
            (10 - fraction_text(nanosecond).len()) as nat,
        ) == nanosecond,
{
    reveal_with_fuel(pow10, 10);
    assert(pow10(0) == 1 && pow10(3) == 1_000);
    assert(pow10(6) == 1_000_000 && pow10(9) == 1_000_000_000);
    let f = fraction_text(nanosecond);
    let n = nanosecond as int;
    if n % 1_000_000 == 0 {
        let q = n / 1_000_000;
        lemma_padded_decimal_value(q as nat, 3);
        assert(f.drop_first() =~= padded_decimal(q as nat, 3));
        assert(0 <= q < 1_000 && q * 1_000_000 == n) by (nonlinear_arith)
            requires
                0 < n < 1_000_000_000,
                n % 1_000_000 == 0,
                q == n / 1_000_000,
        {}
        lemma_small_mod(q as nat, 1_000);
        assert(f.len() == 4);
        assert(pow10((10 - f.len()) as nat) == 1_000_000);
        assert(decimal_value(f.drop_first()) == q);
        let value = decimal_value(f.drop_first()) as int;
        let scale = pow10((10 - f.len()) as nat) as int;
        assert(value * scale == n) by (nonlinear_arith)
            requires
                value == q,
                scale == 1_000_000,
                q * 1_000_000 == n,
        {}
    } else if n % 1_000 == 0 {
        let q = n / 1_000;
        lemma_padded_decimal_value(q as nat, 6);
        assert(f.drop_first() =~= padded_decimal(q as nat, 6));
        assert(0 <= q < 1_000_000 && q * 1_000 == n) by (nonlinear_arith)
            requires
                0 < n < 1_000_000_000,
                n % 1_000 == 0,
                q == n / 1_000,
        {}
        lemma_small_mod(q as nat, 1_000_000);
        assert(f.len() == 7);
        assert(pow10((10 - f.len()) as nat) == 1_000);
        assert(decimal_value(f.drop_first()) == q);
        let value = decimal_value(f.drop_first()) as int;
        let scale = pow10((10 - f.len()) as nat) as int;
        assert(value * scale == n) by (nonlinear_arith)
            requires
                value == q,
                scale == 1_000,
                q * 1_000 == n,
        {}
    } else {
        lemma_padded_decimal_value(nanosecond, 9);
        assert(f.drop_first() =~= padded_decimal(nanosecond, 9));
        lemma_small_mod(nanosecond, 1_000_000_000);
        assert(f.len() == 10);
        assert(pow10((10 - f.len()) as nat) == 1);
        assert(decimal_value(f.drop_first()) == nanosecond);
        let value = decimal_value(f.drop_first()) as int;
        let scale = pow10((10 - f.len()) as nat) as int;
        assert(value * scale == n) by (nonlinear_arith)
            requires
                value == n,
                scale == 1,
                n * 1 == n,
        {}
    }
}

/// `YYYY-MM-DDTHH:MM:SS`, then the fraction of a second.
pub open spec fn date_time_text(
    year: int,
    month: int,
    day: int,
    hour: int,
    minute: int,
    second: int,
    nanosecond: int,
) -> Seq<char> {
    date_text(year, month, day) + seq!['T'] + padded_decimal(hour as nat, 2) + seq![':']
        + padded_decimal(minute as nat, 2) + seq![':'] + padded_decimal(second as nat, 2)
        + fraction_text(nanosecond as nat)
}

/// Relies on chrono's NaiveDate::format with "%Y-%m-%d" (%Y zero-pads years below 1000 to
/// four digits; %m and %d pad to two). NaiveDate::from_ymd_opt only converts: it accepts
/// every valid date of the years 0 to 9999.
#[verifier::external_body]
fn chrono_format_date(year: i32, month: u32, day: u32) -> (r: String)
    requires
        is_valid_date(year as int, month as int, day as int),
    ensures
        r@ == date_text(year as int, month as int, day as int),
{
    chrono::NaiveDate::from_ymd_opt(year, month, day).unwrap().format("%Y-%m-%d").to_string()
}

/// Relies on chrono's NaiveDateTime::format with "%Y-%m-%dT%H:%M:%S%.f" (%H, %M, %S pad to
/// two digits; %.f writes nothing for zero nanoseconds, else a point and 3, 6 or 9 digits).
/// NaiveDate::from_ymd_opt and NaiveDate::and_hms_nano_opt only convert: they accept every
/// valid date of the years 0 to 9999 and every time below 24:00:00.
#[verifier::external_body]
fn chrono_format_date_time(
    year: i32,
    month: u32,
    day: u32,
    hour: u32,
    minute: u32,
    second: u32,
    nanosecond: u32,
) -> (r: String)
    requires
        is_valid_date(year as int, month as int, day as int),
        is_valid_time(hour as int, minute as int, second as int, nanosecond as int),
    ensures
        r@ == date_time_text(
            year as int,
            month as int,
            day as int,
            hour as int,
            minute as int,
            second as int,
            nanosecond as int,
        ),
{
    let date = chrono::NaiveDate::from_ymd_opt(year, month, day).unwrap();
    let date_time = date.and_hms_nano_opt(hour, minute, second, nanosecond).unwrap();
    date_time.format("%Y-%m-%dT%H:%M:%S%.f").to_string()
}

fn days_in_month_of(year: i32, month: u32) -> (r: u32)
    requires
        0 <= year,
        1 <= month <= 12,
    ensures
        r == days_in_month(year as int, month as int),
{
    if month == 2 {
        if (year % 4 == 0 && year % 100 != 0) || year % 400 == 0 {
            29
        } else {
            28
        }
    } else if month == 4 || month == 6 || month == 9 || month == 11 {
        30
    } else {
        31
    }
}

/// A calendar date.
#[derive(Clone, Copy, Debug, PartialEq, Eq)]
pub struct DateValue {
    year: i32,
    month: u32,
    day: u32,
}

impl DateValue {
    #[verifier::type_invariant]
    spec fn is_valid(&self) -> bool {
        is_valid_date(self.year as int, self.month as int, self.day as int)
    }

    pub closed spec fn year(&self) -> int {
        self.year as int
    }

    pub closed spec fn month(&self) -> int {
        self.month as int
    }

    pub closed spec fn day(&self) -> int {
        self.day as int
    }

    /// The date as the registry writes it.
    pub open spec fn text(&self) -> Seq<char> {
        date_text(self.year(), self.month(), self.day())
    }

    /// The date `year`-`month`-`day`, if there is such a day in the years 0 to 9999.
    pub fn new(year: i32, month: u32, day: u32) -> (r: Option<DateValue>)
        ensures
            r is Some <==> is_valid_date(year as int, month as int, day as int),
            r matches Some(d) ==> d.year() == year && d.month() == month && d.day() == day,
    {
        if 0 <= year && year <= 9999 && 1 <= month && month <= 12 && 1 <= day
            && day <= days_in_month_of(year, month) {
            Some(DateValue { year, month, day })
        } else {
            None
        }
    }

    /// `YYYY-MM-DD`.
    pub fn format(&self) -> (r: String)
        ensures
            r@ == self.text(),
    {
        proof {
            use_type_invariant(self);
        }
        chrono_format_date(self.year, self.month, self.day)
    }
}

/// A date and a time of day.
#[derive(Clone, Copy, Debug, PartialEq, Eq)]
pub struct DateTimeValue {
    date: DateValue,
    hour: u32,
    minute: u32,
    second: u32,
    nanosecond: u32,
}

impl DateTimeValue {
    #[verifier::type_invariant]
    spec fn is_valid(&self) -> bool {
        is_valid_time(
            self.hour as int,
            self.minute as int,
            self.second as int,
            self.nanosecond as int,
        )
    }

    pub closed spec fn date(&self) -> DateValue {
        self.date
    }

    pub closed spec fn hour(&self) -> int {
        self.hour as int
    }

    pub closed spec fn minute(&self) -> int {
        self.minute as int
    }

    pub closed spec fn second(&self) -> int {
        self.second as int
    }

    pub closed spec fn nanosecond(&self) -> int {
        self.nanosecond as int
    }

    /// The date-time as the registry writes it.
    pub open spec fn text(&self) -> Seq<char> {
        date_time_text(
            self.date().year(),
            self.date().month(),
            self.date().day(),
            self.hour(),
            self.minute(),
            self.second(),
            self.nanosecond(),
        )
    }

    /// The given date and time, if both exist (the years 0 to 9999, no leap second).
    pub fn new(
        year: i32,
        month: u32,
        day: u32,
        hour: u32,
        minute: u32,
        second: u32,
        nanosecond: u32,
    ) -> (r: Option<DateTimeValue>)
        ensures
            r is Some <==> is_valid_date(year as int, month as int, day as int) && is_valid_time(
                hour as int,
                minute as int,
                second as int,
                nanosecond as int,
            ),
            r matches Some(t) ==> {
                &&& t.date().year() == year
                &&& t.date().month() == month
                &&& t.date().day() == day
                &&& t.hour() == hour
                &&& t.minute() == minute
                &&& t.second() == second
                &&& t.nanosecond() == nanosecond
            },
    {
        let date = DateValue::new(year, month, day)?;
        if hour < 24 && minute < 60 && second < 60 && nanosecond < 1_000_000_000 {
            Some(DateTimeValue { date, hour, minute, second, nanosecond })
        } else {
            None
        }
    }

    /// `YYYY-MM-DDTHH:MM:SS`, with the fraction of a second when there is one.
    pub fn format(&self) -> (r: String)
        ensures
            r@ == self.text(),
    {
        proof {
            use_type_invariant(self);
            use_type_invariant(&self.date);
        }
        chrono_format_date_time(
            self.date.year,
            self.date.month,
            self.date.day,
            self.hour,
            self.minute,
            self.second,
            self.nanosecond,
        )
    }
}

} // verus!
