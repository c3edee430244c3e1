//! Calendar dates (`YYYY-MM-DD`) for a number of days before or after today,
//! computed from the Unix clock in the proleptic Gregorian calendar.
use vstd::prelude::*;
use crate::text::{
    decimal_padded, lemma_decimal_len_bound, pow10, push_decimal_padded, string_from_chars,
};

verus! {

// ── The calendar ──────────────────────────────────────────────────────────────

/// Whether `year` is a leap year in the Gregorian calendar.
pub open spec fn spec_is_leap(year: nat) -> bool {
    (year % 4 == 0 && year % 100 != 0) || year % 400 == 0
}

/// Days in `year`.
pub open spec fn year_len(year: nat) -> nat {
    if spec_is_leap(year) { 366 } else { 365 }
}

/// Days in month `month` (1 to 12) of `year`.
pub open spec fn month_len(year: nat, month: nat) -> nat {
    if month == 2 {
        if spec_is_leap(year) { 29 } else { 28 }
    } else if month == 4 || month == 6 || month == 9 || month == 11 {
        30
    } else {
        31
    }
}

/// Days from 1970-01-01 to the first day of `year` (0 for years up to 1970).
pub open spec fn days_before_year(year: nat) -> nat
    decreases year,
{
    if year <= 1970 {
        0
    } else {
        days_before_year((year - 1) as nat) + year_len((year - 1) as nat)
    }
}

/// Days from the first of January of `year` to the first day of `month`.
pub open spec fn days_before_month(year: nat, month: nat) -> nat
    decreases month,
{
    if month <= 1 {
        0
    } else {
        days_before_month(year, (month - 1) as nat) + month_len(year, (month - 1) as nat)
    }
}

/// A calendar date from 1970 on: a month from 1 to 12 and a day within it.
pub open spec fn valid_date(date: (nat, nat, nat)) -> bool {
    &&& date.0 >= 1970
    &&& 1 <= date.1 <= 12
    &&& 1 <= date.2 <= month_len(date.0, date.1)
}

/// The number of days from 1970-01-01 to `date`.
pub open spec fn day_number(date: (nat, nat, nat)) -> nat {
    (days_before_year(date.0) + days_before_month(date.0, date.1) + date.2 - 1) as nat
}

/// The date that is `n` days after 1970-01-01.
pub open spec fn civil_date(n: nat) -> (nat, nat, nat) {
    choose|date: (nat, nat, nat)| valid_date(date) && day_number(date) == n
}

/// `YYYY-MM-DD`: the year zero-padded to four digits, month and day to two.
pub open spec fn date_text(date: (nat, nat, nat)) -> Seq<char> {
    decimal_padded(date.0, 4) + seq!['-'] + decimal_padded(date.1, 2) + seq!['-']
        + decimal_padded(date.2, 2)
}

// ── Calendar facts ────────────────────────────────────────────────────────────

/// The twelve months of a year add up to the year.
pub proof fn lemma_months_fill_year(year: nat)
    ensures
        days_before_month(year, 13) == year_len(year),
{
    reveal_with_fuel(days_before_month, 13);
}

/// `days_before_month` grows with the month.
pub proof fn lemma_days_before_month_monotonic(year: nat, m1: nat, m2: nat)
    requires
        1 <= m1 <= m2,
    ensures
        days_before_month(year, m1) + (m2 - m1) <= days_before_month(year, m2),
    decreases m2,
{
    if m1 < m2 {
        lemma_days_before_month_monotonic(year, m1, (m2 - 1) as nat);
    }
}

/// `days_before_year` grows by at least 365 a year.
pub proof fn lemma_days_before_year_monotonic(y1: nat, y2: nat)
    requires
        1970 <= y1 <= y2,
    ensures
        days_before_year(y1) + 365 * (y2 - y1) <= days_before_year(y2),
    decreases y2,
{
    if y1 < y2 {
        lemma_days_before_year_monotonic(y1, (y2 - 1) as nat);
    }
}

/// A valid date falls inside its year.
pub proof fn lemma_date_within_year(date: (nat, nat, nat))
    requires
        valid_date(date),
    ensures
        days_before_month(date.0, date.1) + date.2 - 1 < year_len(date.0),
{
    lemma_days_before_month_monotonic(date.0, date.1 + 1, 13);
    lemma_months_fill_year(date.0);
}

/// Law: no two calendar dates share a day number, so the date of a day
/// number is unique.
pub proof fn lemma_day_number_injective(a: (nat, nat, nat), b: (nat, nat, nat))
    requires
        valid_date(a),
        valid_date(b),
        day_number(a) == day_number(b),
    ensures
        a == b,
{
    lemma_date_within_year(a);
    lemma_date_within_year(b);
    if a.0 < b.0 {
        lemma_days_before_year_monotonic(a.0 + 1, b.0);
    } else if b.0 < a.0 {
        lemma_days_before_year_monotonic(b.0 + 1, a.0);
    }
    assert(a.0 == b.0);
    if a.1 < b.1 {
        lemma_days_before_month_monotonic(a.0, a.1 + 1, b.1);
    } else if b.1 < a.1 {
        lemma_days_before_month_monotonic(a.0, b.1 + 1, a.1);
    }
}

/// Law: every day number from 1970-01-01 on is the day number of a date.
pub proof fn lemma_every_day_has_a_date(n: nat)
    ensures
        valid_date(civil_date(n)),
        day_number(civil_date(n)) == n,
{
    let (year, rest) = year_of_day(n, 1970);
    lemma_months_fill_year(year);
    let month = month_of_day(year, rest, 1);
    let date = (year, month, (rest - days_before_month(year, month) + 1) as nat);
    assert(valid_date(date) && day_number(date) == n);
}

/// The year holding day `n` counted from the first day of `from`, and the day
/// of that year.
proof fn year_of_day(n: nat, from: nat) -> (r: (nat, nat))
    requires
        from >= 1970,
    ensures
        r.0 >= from,
        r.1 < year_len(r.0),
        days_before_year(r.0) + r.1 == days_before_year(from) + n,
    decreases n,
{
    if n < year_len(from) {
        (from, n)
    } else {
        year_of_day((n - year_len(from)) as nat, from + 1)
    }
}

/// The month holding day `rest` of `year`, searching from month `from`.
proof fn month_of_day(year: nat, rest: nat, from: nat) -> (m: nat)
    requires
        1 <= from <= 12,
        days_before_month(year, from) <= rest < days_before_month(year, 13),
    ensures
        from <= m <= 12,
        days_before_month(year, m) <= rest < days_before_month(year, m + 1),
    decreases 13 - from,
{
    if rest < days_before_month(year, from + 1) {
        from
    } else {
        if from == 12 {
            assert(false);
        }
        month_of_day(year, rest, from + 1)
    }
}

/// Zero padding reaches the width exactly when the digits fit in it.
proof fn lemma_padded_len(n: nat, width: nat)
    requires
        width >= 1,
        n < pow10(width),
    ensures
        decimal_padded(n, width).len() == width,
{
    lemma_decimal_len_bound(n, width);
}

/// Law: before the year 10000 a date is rendered as exactly ten characters,
/// `YYYY-MM-DD`, with the dashes in the fifth and eighth places.
pub proof fn lemma_date_text_shape(date: (nat, nat, nat))
    requires
        valid_date(date),
        date.0 < 10000,
    ensures
        date_text(date).len() == 10,
        date_text(date)[4] == '-',
        date_text(date)[7] == '-',
{
    reveal_with_fuel(pow10, 5);
    lemma_padded_len(date.0, 4);
    lemma_padded_len(date.1, 2);
    lemma_padded_len(date.2, 2);
}

/// Law: a Unix time before the first day of the year 10000 gives a date
/// rendered as exactly ten characters, `YYYY-MM-DD`, with the dashes in the
/// fifth and eighth places.
pub proof fn lemma_clock_date_shape(secs: nat)
    requires
        secs / 86400 < days_before_year(10000),
    ensures
        date_text(civil_date(secs / 86400)).len() == 10,
        date_text(civil_date(secs / 86400))[4] == '-',
        date_text(civil_date(secs / 86400))[7] == '-',
{
    let n = secs / 86400;
    lemma_every_day_has_a_date(n);
    let date = civil_date(n);
    if date.0 >= 10000 {
        lemma_days_before_year_monotonic(10000, date.0);
        assert(false);
    }
    lemma_date_text_shape(date);
}

// ── Executable calendar ───────────────────────────────────────────────────────

/// Returns `true` when `year` is a leap year.
pub fn is_leap(year: u64) -> (r: bool)
    ensures
        r == spec_is_leap(year as nat),
{
    (year % 4 == 0 && year % 100 != 0) || year % 400 == 0
}

fn days_in_month(year: u64, month: u64) -> (r: u64)
    ensures
        r == month_len(year as nat, month as nat),
{
    if month == 2 {
        if is_leap(year) { 29 } else { 28 }
    } else if month == 4 || month == 6 || month == 9 || month == 11 {
        30
    } else {
        31
    }
}

/// The date `days` days after 1970-01-01, as (year, month, day).
pub fn civil_from_days(days: u64) -> (r: (u64, u64, u64))
    ensures
        (r.0 as nat, r.1 as nat, r.2 as nat) == civil_date(days as nat),
{
    let mut remaining = days;
    let mut year: u64 = 1970;
    loop
        invariant
            year >= 1970,
            remaining <= days,
            days_before_year(year as nat) + remaining == days,
        ensures
            year >= 1970,
            days_before_year(year as nat) + remaining == days,
            remaining < year_len(year as nat),
        decreases remaining,
    {
        let y_days: u64 = if is_leap(year) { 366 } else { 365 };
        if remaining < y_days {
            break;
        }
        proof {
            lemma_days_before_year_monotonic(1970, year as nat);
        }
        remaining = remaining - y_days;
        year = year + 1;
    }
    proof {
        lemma_months_fill_year(year as nat);
    }
    let mut month: u64 = 1;
    let ghost in_year = remaining;
    loop
        invariant
            1 <= month <= 12,
            remaining <= in_year,
            in_year < year_len(year as nat),
            days_before_month(year as nat, month as nat) + remaining == in_year,
            days_before_month(year as nat, 13) == year_len(year as nat),
        ensures
            1 <= month <= 12,
            days_before_month(year as nat, month as nat) + remaining == in_year,
            remaining < month_len(year as nat, month as nat),
        decreases 12 - month,
    {
        let md = days_in_month(year, month);
        if remaining < md {
            break;
        }
        remaining = remaining - md;
        if month == 12 {
            assert(false);
        }
        month = month + 1;
    }
    let r = (year, month, remaining + 1);
    proof {
        let date = (year as nat, month as nat, (remaining + 1) as nat);
        assert(valid_date(date) && day_number(date) == days);
        lemma_every_day_has_a_date(days as nat);
        lemma_day_number_injective(date, civil_date(days as nat));
    }
    r
}

/// Renders a date as `YYYY-MM-DD`.
pub fn format_date(year: u64, month: u64, day: u64) -> (s: String)
    ensures
        s@ == date_text((year as nat, month as nat, day as nat)),
{
    let mut buf: Vec<char> = Vec::new();
    push_decimal_padded(&mut buf, year, 4);
    buf.push('-');
    push_decimal_padded(&mut buf, month, 2);
    buf.push('-');
    push_decimal_padded(&mut buf, day, 2);
    string_from_chars(&buf)
}

/// The `YYYY-MM-DD` date of the Unix time `secs`.
pub fn date_of_unix_secs(secs: u64) -> (s: String)
    ensures
        s@ == date_text(civil_date(secs as nat / 86400)),
{
    let (y, m, d) = civil_from_days(secs / 86400);
    format_date(y, m, d)
}

// ── Today ─────────────────────────────────────────────────────────────────────

/// Seconds since the Unix epoch by the system clock
/// (`SystemTime::now().duration_since(UNIX_EPOCH)`), 0 when the clock is set
/// before the epoch. Nothing is promised of the value: it is the time.
#[verifier::external_body]
pub(crate) fn unix_now_secs() -> u64 {
    std::time::SystemTime::now().duration_since(std::time::UNIX_EPOCH).map(|d| d.as_secs()).unwrap_or(
        0,
    )
}

/// The Unix time `days_ago` days before `now`, stopping at the epoch.
pub open spec fn days_before(now: nat, days_ago: nat) -> nat {
    if now >= days_ago * 86400 { (now - days_ago * 86400) as nat } else { 0 }
}

/// Law: seen at the same moment, the date `k` days ahead is `k` days after
/// today's date, and (after the epoch's first `k` days) the date `k` days ago
/// is `k` days before it.
pub proof fn lemma_day_offsets(now: nat, k: nat)
    ensures
        day_number(civil_date((now + k * 86400) / 86400)) == day_number(
            civil_date(days_before(now, 0) / 86400),
        ) + k,
        now >= k * 86400 ==> day_number(civil_date(days_before(now, k) / 86400)) + k == day_number(
            civil_date(days_before(now, 0) / 86400),
        ),
{
    assert((now + k * 86400) / 86400 == now / 86400 + k) by (nonlinear_arith);
    assert(now >= k * 86400 ==> (now - k * 86400) / 86400 + k == now / 86400) by (nonlinear_arith);
    lemma_every_day_has_a_date((now + k * 86400) / 86400);
    lemma_every_day_has_a_date(days_before(now, 0) / 86400);
    lemma_every_day_has_a_date(days_before(now, k) / 86400);
}

/// The `YYYY-MM-DD` date `days_ago` days before the Unix time `now`.
pub fn date_days_ago_at(now: u64, days_ago: u64) -> (s: String)
    requires
        days_ago * 86400 <= u64::MAX,
    ensures
        s@ == date_text(civil_date(days_before(now as nat, days_ago as nat) / 86400)),
{
    let secs = now.saturating_sub(days_ago * 86400);
    date_of_unix_secs(secs)
}

/// The `YYYY-MM-DD` date `days_ahead` days after the Unix time `now`.
pub fn date_days_ahead_at(now: u64, days_ahead: u64) -> (s: String)
    requires
        now + days_ahead * 86400 <= u64::MAX,
    ensures
        s@ == date_text(civil_date((now + days_ahead * 86400) as nat / 86400)),
{
    date_of_unix_secs(now + days_ahead * 86400)
}

/// Returns a `YYYY-MM-DD` string for `days_ago` days before today.
pub fn date_days_ago(days_ago: u64) -> (s: String)
    requires
        days_ago * 86400 <= u64::MAX,
    ensures
        exists|now: u64| s@ == date_text(civil_date(days_before(now as nat, days_ago as nat) / 86400)),
{
    let now = unix_now_secs();
    date_days_ago_at(now, days_ago)
}

/// The `YYYY-MM-DD` date `days_ahead` days after the Unix time `now`, if that
/// moment is within the range of the Unix clock.
pub open spec fn date_ahead_text(now: nat, days_ahead: nat) -> Option<Seq<char>> {
    if now + days_ahead * 86400 <= u64::MAX {
        Some(date_text(civil_date((now + days_ahead * 86400) / 86400)))
    } else {
        None
    }
}

/// The view of an optional string.
pub open spec fn opt_view(s: Option<String>) -> Option<Seq<char>> {
    match s {
        Some(text) => Some(text@),
        None => None,
    }
}

/// The `YYYY-MM-DD` date `days_ahead` days after the Unix time `now`, or
/// `None` when that moment is past the range of the Unix clock.
pub fn date_days_ahead_from(now: u64, days_ahead: u64) -> (s: Option<String>)
    ensures
        opt_view(s) == date_ahead_text(now as nat, days_ahead as nat),
{
    if days_ahead > u64::MAX / 86400 || now > u64::MAX - days_ahead * 86400 {
        assert(date_ahead_text(now as nat, days_ahead as nat) == opt_view(None::<String>)) by (nonlinear_arith)
            requires
                days_ahead > u64::MAX / 86400 || now > u64::MAX - days_ahead * 86400,
        ;
        None
    } else {
        let text = date_days_ahead_at(now, days_ahead);
        let r = Some(text);
        assert(date_ahead_text(now as nat, days_ahead as nat) == opt_view(r));
        r
    }
}

/// Returns a `YYYY-MM-DD` string for `days_ahead` days after today, or `None`
/// when that moment is past the range of the Unix clock.
pub fn date_days_ahead(days_ahead: u64) -> (s: Option<String>)
    ensures
        exists|now: u64| #[trigger] date_ahead_text(now as nat, days_ahead as nat) == opt_view(s),
{
    let now = unix_now_secs();
    date_days_ahead_from(now, days_ahead)
}

} // verus!
