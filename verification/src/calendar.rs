//! Calendar months: how long they are, and the window of time that a month makes.
use vstd::prelude::*;

use crate::text;

verus! {

/// The first year that a date can have.
pub const MIN_YEAR: i32 = -262143;

/// The last year that a date can have.
pub const MAX_YEAR: i32 = 262142;

/// Whether a year of the Gregorian calendar has a 29th of February.
pub open spec fn is_leap_year(year: int) -> bool {
    year % 4 == 0 && (year % 100 != 0 || year % 400 == 0)
}

/// The number of days of a month.
pub open spec fn days_in_month(year: int, month: int) -> int {
    if month == 2 {
        if is_leap_year(year) { 29 } else { 28 }
    } else if month == 4 || month == 6 || month == 9 || month == 11 {
        30
    } else {
        31
    }
}

/// Whether dates of a year can be represented.
pub open spec fn is_year(year: int) -> bool {
    MIN_YEAR <= year <= MAX_YEAR
}

/// Whether year, month and day name a date that can be represented.
pub open spec fn is_date(year: int, month: int, day: int) -> bool {
    is_year(year) && 1 <= month <= 12 && 1 <= day <= days_in_month(year, month)
}

/// A day of the Gregorian calendar.
#[derive(Clone, Copy, Debug, PartialEq, Eq, Structural)]
pub struct CalendarDate {
    pub year: i32,
    pub month: u32,
    pub day: u32,
}

impl CalendarDate {
    /// Whether this is a date that can be represented.
    pub open spec fn is_valid(self) -> bool {
        is_date(self.year as int, self.month as int, self.day as int)
    }
}

/// The day before a date, none before the first date.
pub open spec fn day_before(d: CalendarDate) -> Option<CalendarDate> {
    if d.day > 1 {
        Some(CalendarDate { year: d.year, month: d.month, day: (d.day - 1) as u32 })
    } else if d.month > 1 {
        Some(
            CalendarDate {
                year: d.year,
                month: (d.month - 1) as u32,
                day: days_in_month(d.year as int, d.month - 1) as u32,
            },
        )
    } else if d.year > MIN_YEAR {
        Some(CalendarDate { year: (d.year - 1) as i32, month: 12, day: 31 })
    } else {
        None
    }
}

/// `NaiveDate::from_ymd_opt` of the chrono crate: a date, or `None` where the
/// numbers name no day of the proleptic Gregorian calendar or its year is out of
/// chrono's range.
#[verifier::external_body]
fn date(year: i32, month: u32, day: u32) -> (d: Option<CalendarDate>)
    ensures
        d == (if is_date(year as int, month as int, day as int) {
            Some(CalendarDate { year, month, day })
        } else {
            None::<CalendarDate>
        }),
{
    let d = chrono::NaiveDate::from_ymd_opt(year, month, day)?;
    Some(
        CalendarDate {
            year: chrono::Datelike::year(&d),
            month: chrono::Datelike::month(&d),
            day: chrono::Datelike::day(&d),
        },
    )
}

/// `NaiveDate::pred_opt` of the chrono crate: the day before, or `None` before the
/// first date of chrono's range.
#[verifier::external_body]
fn previous_date(d: CalendarDate) -> (p: Option<CalendarDate>)
    requires
        d.is_valid(),
    ensures
        p == day_before(d),
{
    let p = chrono::NaiveDate::from_ymd_opt(d.year, d.month, d.day)?.pred_opt()?;
    Some(
        CalendarDate {
            year: chrono::Datelike::year(&p),
            month: chrono::Datelike::month(&p),
            day: chrono::Datelike::day(&p),
        },
    )
}

/// Why a year and month have no last day.
#[derive(Clone, Copy, Debug, PartialEq, Eq, Structural)]
pub enum CalendarError {
    /// No date can be represented at the end of the month.
    InvalidYearMonth,
    /// The month ends before the first date.
    DateArithmetic,
}

/// The day before the first of the next month. A month past twelve counts as
/// December, month zero as the December before.
pub open spec fn last_day_of(year: int, month: int) -> Result<int, CalendarError> {
    if is_year(year) && 1 <= month <= 11 {
        Ok(days_in_month(year, month))
    } else if is_year(year) && month == 0 {
        if year == MIN_YEAR { Err(CalendarError::DateArithmetic) } else { Ok(31) }
    } else if is_year(year + 1) {
        if year + 1 == MIN_YEAR { Err(CalendarError::DateArithmetic) } else { Ok(31) }
    } else {
        Err(CalendarError::InvalidYearMonth)
    }
}

/// The last day of a month.
pub fn last_day(year: i32, month: u32) -> (day: Result<u32, CalendarError>)
    requires
        year < i32::MAX,
        month < u32::MAX,
    ensures
        match last_day_of(year as int, month as int) {
            Ok(d) => day is Ok && day->Ok_0 == d,
            Err(e) => day == Err::<u32, _>(e),
        },
{
    let next = match date(year, month + 1, 1) {
        Some(d) => d,
        None => match date(year + 1, 1, 1) {
            Some(d) => d,
            None => return Err(CalendarError::InvalidYearMonth),
        },
    };
    match previous_date(next) {
        Some(d) => Ok(d.day),
        None => Err(CalendarError::DateArithmetic),
    }
}

/// A month as the two texts that bound it.
#[derive(Debug)]
pub struct MonthWindow {
    pub start_time: String,
    pub end_time: String,
}

/// The first second of a month.
pub open spec fn month_start(year: int, month: nat) -> Seq<char> {
    text::signed_decimal(year) + seq!['-'] + text::two_digits(month) + "-01 00:00:00"@
}

/// The last second of a month that ends on `last_day`.
pub open spec fn month_end(year: int, month: nat, last_day: nat) -> Seq<char> {
    text::signed_decimal(year) + seq!['-'] + text::two_digits(month) + seq!['-']
        + text::two_digits(last_day) + " 23:59:59"@
}

/// The window of time that a month makes.
pub fn month_window(year: i32, month: u32) -> (window: Result<MonthWindow, CalendarError>)
    requires
        year < i32::MAX,
        month < u32::MAX,
    ensures
        match last_day_of(year as int, month as int) {
            Ok(d) => {
                &&& window is Ok
                &&& window->Ok_0.start_time@ == month_start(year as int, month as nat)
                &&& window->Ok_0.end_time@ == month_end(year as int, month as nat, d as nat)
            },
            Err(e) => window is Err && window->Err_0 == e,
        },
        window is Ok && 1 <= month <= 12 ==> ({
            let end = window->Ok_0.end_time@;
            let n = end.len() as int;
            let day = text::digits_value(end.subrange(n - 11, n - 9)) as int;
            &&& text::integer_value(end.take(n - 15)) == Some(year as int)
            &&& text::digits_value(end.subrange(n - 14, n - 12)) == month
            &&& is_date(year as int, month as int, day)
            &&& !is_date(year as int, month as int, day + 1)
        }),
{
    let last = match last_day(year, month) {
        Ok(d) => d,
        Err(e) => return Err(e),
    };
    proof {
        reveal_strlit("-");
    }
    let mut start_time = String::new();
    text::push_signed(&mut start_time, year as i64);
    start_time.append("-");
    text::push_two_digits(&mut start_time, month);
    start_time.append("-01 00:00:00");
    assert(start_time@ =~= month_start(year as int, month as nat));
    let mut end_time = String::new();
    text::push_signed(&mut end_time, year as i64);
    end_time.append("-");
    text::push_two_digits(&mut end_time, month);
    end_time.append("-");
    text::push_two_digits(&mut end_time, last);
    end_time.append(" 23:59:59");
    assert(end_time@ =~= month_end(year as int, month as nat, last as nat));
    proof {
        if 1 <= month <= 12 {
            window_ends_with_last_day(year as int, month as int);
        }
    }
    Ok(MonthWindow { start_time, end_time })
}

/// The last day of a real month is the number of its days, as long as the day
/// after it can be represented.
pub proof fn last_day_is_month_length(year: int, month: int)
    requires
        1 <= month <= 12,
        is_year(year),
        month == 12 ==> is_year(year + 1),
    ensures
        last_day_of(year, month) == Ok::<int, CalendarError>(days_in_month(year, month)),
        is_date(year, month, days_in_month(year, month)),
        !is_date(year, month, days_in_month(year, month) + 1),
{
}

/// The leap days of the years up to `year`, but for a constant.
pub open spec fn leap_days_before(year: int) -> int {
    year / 4 - year / 100 + year / 400
}

/// The number of a day in the Gregorian calendar, counted on from day to day: years
/// that begin in March, of 365 days and the leap days before them, and months that
/// from March on take turns of 153 days in five.
pub open spec fn day_number(year: int, month: int, day: int) -> int {
    let y = if month <= 2 { year - 1 } else { year };
    let m = (month + 9) % 12;
    365 * y + leap_days_before(y) + (153 * m + 2) / 5 + day
}

proof fn lemma_quotient_step(n: int, k: int)
    requires
        k == 4 || k == 100 || k == 400,
    ensures
        n / k - (n - 1) / k == (if n % k == 0 { 1int } else { 0int }),
{
    if k == 4 {
        assert(n / 4 - (n - 1) / 4 == (if n % 4 == 0 { 1int } else { 0int }));
    } else if k == 100 {
        assert(n / 100 - (n - 1) / 100 == (if n % 100 == 0 { 1int } else { 0int }));
    } else {
        assert(n / 400 - (n - 1) / 400 == (if n % 400 == 0 { 1int } else { 0int }));
    }
}

proof fn lemma_leap_days_before(year: int)
    ensures
        leap_days_before(year) - leap_days_before(year - 1) == (if is_leap_year(year) {
            1int
        } else {
            0int
        }),
{
    lemma_quotient_step(year, 4);
    lemma_quotient_step(year, 100);
    lemma_quotient_step(year, 400);
    vstd::arithmetic::div_mod::lemma_mod_mod(year, 100, 4);
    vstd::arithmetic::div_mod::lemma_mod_mod(year, 4, 25);
}

proof fn lemma_offset_of_month(month: int)
    requires
        1 <= month <= 12,
        month != 2,
    ensures
        ({
            let m = (month + 9) % 12;
            let n = (month + 10) % 12;
            (153 * n + 2) / 5 - (153 * m + 2) / 5 == (if month == 4 || month == 6 || month == 9
                || month == 11 {
                30int
            } else {
                31int
            })
        }),
{
    if month == 1 {
        assert((1 + 9) % 12 == 10int && (1 + 10) % 12 == 11int);
    } else {
        assert((month + 9) % 12 == month - 3);
        assert((month + 10) % 12 == month - 2);
        assert(month == 3 || month == 4 || month == 5 || month == 6 || month == 7 || month == 8
            || month == 9 || month == 10 || month == 11 || month == 12);
    }
}

/// A month has as many days as lie between its first day and the first day of the
/// month after it.
pub proof fn month_length_is_distance_of_firsts(year: int, month: int)
    requires
        1 <= month <= 12,
    ensures
        month < 12 ==> days_in_month(year, month) == day_number(year, month + 1, 1) - day_number(
            year,
            month,
            1,
        ),
        month == 12 ==> days_in_month(year, month) == day_number(year + 1, 1, 1) - day_number(
            year,
            month,
            1,
        ),
{
    if month == 2 {
        lemma_leap_days_before(year);
        assert(day_number(year, 3, 1) == 365 * year + leap_days_before(year) + 1);
        assert(day_number(year, 2, 1) == 365 * (year - 1) + leap_days_before(year - 1) + 338);
    } else {
        lemma_offset_of_month(month);
        assert((1 + 9) % 12 == 10int);
    }
}

/// The last day of a real month is the day before the first of the month after it.
pub proof fn last_day_is_before_next_first(year: int, month: int)
    requires
        1 <= month <= 12,
        last_day_of(year, month) is Ok,
    ensures
        ({
            let d = last_day_of(year, month)->Ok_0;
            &&& 28 <= d <= 31
            &&& month < 12 ==> day_number(year, month, d) + 1 == day_number(year, month + 1, 1)
            &&& month == 12 ==> day_number(year, month, d) + 1 == day_number(year + 1, 1, 1)
        }),
{
    month_length_is_distance_of_firsts(year, month);
    if month < 12 {
        last_day_is_month_length(year, month);
    }
}

/// The day before a date is the one whose number is one less, and there is one unless
/// the date is the first of all.
pub proof fn day_before_is_one_day_less(d: CalendarDate)
    requires
        d.is_valid(),
    ensures
        day_before(d) matches Some(p) ==> p.is_valid() && day_number(
            p.year as int,
            p.month as int,
            p.day as int,
        ) + 1 == day_number(d.year as int, d.month as int, d.day as int),
        day_before(d) is None <==> d.year == MIN_YEAR && d.month == 1 && d.day == 1,
{
    if d.day == 1 {
        if d.month > 1 {
            month_length_is_distance_of_firsts(d.year as int, d.month - 1);
        } else {
            month_length_is_distance_of_firsts(d.year - 1, 12);
        }
    }
}

/// A year and month have a last day where the first of the next month and the day
/// before it can be represented. A month of zero or past twelve then ends on the 31st.
pub proof fn last_day_exists_in_range(year: int, month: int)
    requires
        0 <= month,
    ensures
        1 <= month <= 11 ==> (last_day_of(year, month) is Ok <==> -262143 <= year <= 262142),
        month >= 12 ==> (last_day_of(year, month) is Ok <==> -262143 <= year <= 262141),
        month == 0 ==> (last_day_of(year, month) is Ok <==> -262142 <= year <= 262142),
        (month == 0 || month >= 12) && last_day_of(year, month) is Ok ==> last_day_of(
            year,
            month,
        )->Ok_0 == 31,
        last_day_of(year, month) is Err ==> (last_day_of(year, month)->Err_0
            == CalendarError::DateArithmetic <==> year == -262144 || (year == -262143 && month
            == 0)),
{
}

/// The start of a month's window reads back: the year, the month in at least two
/// digits, and the first second of its first day.
pub proof fn month_start_reads_back(year: int, month: nat)
    ensures
        ({
            let t = month_start(year, month);
            let m = t.len() - 12;
            let y = m - text::two_digits(month).len() - 1;
            &&& y > 0
            &&& text::integer_value(t.take(y)) == Some(year)
            &&& t.take(y) == text::signed_decimal(year)
            &&& t[y] == '-'
            &&& text::all_digits(t.subrange(y + 1, m))
            &&& text::digits_value(t.subrange(y + 1, m)) == month
            &&& m - y >= 3
            &&& month < 100 ==> m - y == 3
            &&& t.skip(m) == "-01 00:00:00"@
        }),
{
    reveal_strlit("-01 00:00:00");
    let t = month_start(year, month);
    let m = t.len() - 12;
    let y = m - text::two_digits(month).len() - 1;
    text::signed_decimal_reads_back(year);
    text::sign_stands_in_front(year);
    text::padded_numeral_reads_back(month);
    assert(t.take(y) =~= text::signed_decimal(year));
    assert(t.subrange(y + 1, m) =~= text::two_digits(month));
    assert(t.skip(m) =~= "-01 00:00:00"@);
}

/// The end of a month's window reads back: the year, the month and the day each in at
/// least two digits, and the last second of that day.
pub proof fn month_end_reads_back(year: int, month: nat, last_day: nat)
    ensures
        ({
            let t = month_end(year, month, last_day);
            let d = t.len() - 9;
            let m = d - text::two_digits(last_day).len() - 1;
            let y = m - text::two_digits(month).len() - 1;
            &&& y > 0
            &&& text::integer_value(t.take(y)) == Some(year)
            &&& t.take(y) == text::signed_decimal(year)
            &&& t[y] == '-'
            &&& text::all_digits(t.subrange(y + 1, m))
            &&& text::digits_value(t.subrange(y + 1, m)) == month
            &&& m - y >= 3
            &&& month < 100 ==> m - y == 3
            &&& t[m] == '-'
            &&& text::all_digits(t.subrange(m + 1, d))
            &&& text::digits_value(t.subrange(m + 1, d)) == last_day
            &&& d - m >= 3
            &&& last_day < 100 ==> d - m == 3
            &&& t.skip(d) == " 23:59:59"@
        }),
{
    reveal_strlit(" 23:59:59");
    let t = month_end(year, month, last_day);
    let d = t.len() - 9;
    let m = d - text::two_digits(last_day).len() - 1;
    let y = m - text::two_digits(month).len() - 1;
    text::signed_decimal_reads_back(year);
    text::sign_stands_in_front(year);
    text::padded_numeral_reads_back(month);
    text::padded_numeral_reads_back(last_day);
    assert(t.take(y) =~= text::signed_decimal(year));
    assert(t.subrange(y + 1, m) =~= text::two_digits(month));
    assert(t.subrange(m + 1, d) =~= text::two_digits(last_day));
    assert(t.skip(d) =~= " 23:59:59"@);
}

/// The window of a real month goes from its first second to the last second of its last
/// day: both bounds name the year and the month, and the day after the one that the end
/// names is the first of the next month.
pub proof fn window_spans_its_month(year: int, month: int)
    requires
        1 <= month <= 12,
        last_day_of(year, month) is Ok,
    ensures
        ({
            let start = month_start(year, month as nat);
            let end = month_end(year, month as nat, last_day_of(year, month)->Ok_0 as nat);
            let n = end.len() as int;
            let day = text::digits_value(end.subrange(n - 11, n - 9)) as int;
            &&& start.len() == n
            &&& text::integer_value(start.take(n - 15)) == Some(year)
            &&& text::integer_value(end.take(n - 15)) == Some(year)
            &&& start[n - 15] == '-' && end[n - 15] == '-'
            &&& text::digits_value(start.subrange(n - 14, n - 12)) == month
            &&& text::digits_value(end.subrange(n - 14, n - 12)) == month
            &&& start.skip(n - 12) == "-01 00:00:00"@
            &&& end[n - 12] == '-'
            &&& end.skip(n - 9) == " 23:59:59"@
            &&& month < 12 ==> day_number(year, month, day) + 1 == day_number(year, month + 1, 1)
            &&& month == 12 ==> day_number(year, month, day) + 1 == day_number(year + 1, 1, 1)
        }),
{
    let d = last_day_of(year, month)->Ok_0;
    last_day_is_before_next_first(year, month);
    month_start_reads_back(year, month as nat);
    month_end_reads_back(year, month as nat, d as nat);
    text::padded_numeral_reads_back(month as nat);
    text::padded_numeral_reads_back(d as nat);
    reveal_strlit("-01 00:00:00");
    reveal_strlit(" 23:59:59");
}

/// The day that the end of a real month's window names is a day of that month, and the
/// day after it is none.
pub proof fn window_ends_with_last_day(year: int, month: int)
    requires
        1 <= month <= 12,
        last_day_of(year, month) is Ok,
    ensures
        ({
            let end = month_end(year, month as nat, last_day_of(year, month)->Ok_0 as nat);
            let n = end.len() as int;
            let day = text::digits_value(end.subrange(n - 11, n - 9)) as int;
            &&& text::integer_value(end.take(n - 15)) == Some(year)
            &&& text::digits_value(end.subrange(n - 14, n - 12)) == month
            &&& is_date(year, month, day)
            &&& !is_date(year, month, day + 1)
        }),
{
    let d = last_day_of(year, month)->Ok_0;
    last_day_exists_in_range(year, month);
    last_day_is_month_length(year, month);
    month_end_reads_back(year, month as nat, d as nat);
    text::padded_numeral_reads_back(month as nat);
    text::padded_numeral_reads_back(d as nat);
}

} // verus!
