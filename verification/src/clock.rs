//! Calendar arithmetic on Unix timestamps and the timestamp texts of the
//! log: `2026-04-27 15:30:45` for lines and `20260427_153045` for file names.
use vstd::prelude::*;

use crate::text::{decimal, decimal2, decimal_string, push_char, push_decimal, push_decimal2};

verus! {

/// Gregorian leap years.
pub open spec fn spec_is_leap(y: nat) -> bool {
    y % 4 == 0 && (y % 100 != 0 || y % 400 == 0)
}

/// Number of days of a year.
pub open spec fn year_days(y: nat) -> nat {
    if spec_is_leap(y) {
        366
    } else {
        365
    }
}

/// Days from 1970-01-01 to the first day of year `y` (for `y >= 1970`).
pub open spec fn days_before_year(y: nat) -> nat
    decreases y,
{
    if y <= 1970 {
        0
    } else {
        days_before_year((y - 1) as nat) + year_days((y - 1) as nat)
    }
}

/// Number of days of month `m` (1 to 12) of year `y`.
pub open spec fn month_days(y: nat, m: nat) -> nat {
    if m == 2 {
        if spec_is_leap(y) {
            29
        } else {
            28
        }
    } else if m == 4 || m == 6 || m == 9 || m == 11 {
        30
    } else {
        31
    }
}

/// Days from the first of January of year `y` to the first day of month `m`.
pub open spec fn days_before_month(y: nat, m: nat) -> nat
    decreases m,
{
    if m <= 1 {
        0
    } else {
        days_before_month(y, (m - 1) as nat) + month_days(y, (m - 1) as nat)
    }
}

/// The civil date and time `(year, month, day, hour, minute, second)` in UTC
/// of a Unix timestamp: the day number reconstructs from the year, the month
/// and the day of month, each within its range.
pub open spec fn is_date_of(secs: nat, p: (u64, u64, u64, u64, u64, u64)) -> bool {
    let (y, mo, d, h, mi, s) = p;
    let days = secs / 86400;
    &&& y >= 1970
    &&& 1 <= mo <= 12
    &&& 1 <= d <= month_days(y as nat, mo as nat)
    &&& days == days_before_year(y as nat) + days_before_month(y as nat, mo as nat) + d - 1
    &&& h == (secs % 86400) / 3600
    &&& mi == (secs % 3600) / 60
    &&& s == secs % 60
}

/// `YYYY-MM-DD hh:mm:ss`.
pub open spec fn spec_timestamp_text(p: (u64, u64, u64, u64, u64, u64)) -> Seq<char> {
    let (y, mo, d, h, mi, s) = p;
    decimal(y as nat) + seq!['-'] + decimal2(mo as nat) + seq!['-'] + decimal2(d as nat) + seq![
        ' ',
    ] + decimal2(h as nat) + seq![':'] + decimal2(mi as nat) + seq![':'] + decimal2(s as nat)
}

/// `YYYYMMDD_hhmmss`.
pub open spec fn spec_file_timestamp_text(p: (u64, u64, u64, u64, u64, u64)) -> Seq<char> {
    let (y, mo, d, h, mi, s) = p;
    decimal(y as nat) + decimal2(mo as nat) + decimal2(d as nat) + seq!['_'] + decimal2(h as nat)
        + decimal2(mi as nat) + decimal2(s as nat)
}

proof fn lemma_days_before_year_grows(y: nat)
    ensures
        y >= 1970 ==> days_before_year(y) >= 365 * (y - 1970),
    decreases y,
{
    if y > 1970 {
        lemma_days_before_year_grows((y - 1) as nat);
    }
}

proof fn lemma_year_of_months(y: nat)
    ensures
        days_before_month(y, 13) == year_days(y),
        forall|m: nat| 1 <= m <= 12 ==> #[trigger] days_before_month(y, m) + month_days(y, m)
            == days_before_month(y, m + 1),
{
    reveal_with_fuel(days_before_month, 13);
}

/// Gregorian leap year test.
pub fn is_leap(y: u64) -> (r: bool)
    ensures
        r == spec_is_leap(y as nat),
{
    y % 4 == 0 && (y % 100 != 0 || y % 400 == 0)
}

/// Number of days of month `m` of year `y`.
pub fn days_in_month(y: u64, m: u64) -> (r: u64)
    ensures
        r == month_days(y as nat, m as nat),
{
    if m == 2 {
        if is_leap(y) {
            29
        } else {
            28
        }
    } else if m == 4 || m == 6 || m == 9 || m == 11 {
        30
    } else {
        31
    }
}

/// Splits a Unix timestamp into `(year, month, day, hour, minute, second)` (UTC).
pub fn date_parts(secs: u64) -> (r: (u64, u64, u64, u64, u64, u64))
    ensures
        is_date_of(secs as nat, r),
        r == date_of(secs as nat),
{
    let time = secs % 86400;
    let h = time / 3600;
    let mi = (time % 3600) / 60;
    let s = time % 60;
    proof {
        vstd::arithmetic::div_mod::lemma_mod_mod(secs as int, 3600, 24);
        vstd::arithmetic::div_mod::lemma_mod_mod(secs as int, 60, 1440);
        vstd::arithmetic::div_mod::lemma_mod_mod(time as int, 60, 60);
        vstd::arithmetic::div_mod::lemma_mod_mod(secs as int, 60, 60);
    }
    let total = secs / 86400;
    let mut days = total;
    let mut year: u64 = 1970;
    loop
        invariant
            1970 <= year,
            total == secs / 86400,
            days_before_year(year as nat) + days == total,
        ensures
            1970 <= year,
            days_before_year(year as nat) + days == total,
            days < year_days(year as nat),
        decreases days,
    {
        let dy: u64 = if is_leap(year) {
            366
        } else {
            365
        };
        if days < dy {
            break;
        }
        proof {
            lemma_days_before_year_grows(year as nat);
            assert(year - 1970 <= total / 365) by (nonlinear_arith)
                requires
                    days_before_year(year as nat) >= 365 * (year - 1970),
                    days_before_year(year as nat) <= total,
            ;
            assert(total / 365 <= u64::MAX / 365) by (nonlinear_arith)
                requires
                    total <= u64::MAX,
            ;
        }
        days = days - dy;
        year = year + 1;
    }
    proof {
        lemma_year_of_months(year as nat);
    }
    let mut month: u64 = 1;
    let mut dom = days;
    while dom >= days_in_month(year, month)
        invariant
            1 <= month <= 12,
            days < year_days(year as nat),
            days_before_month(year as nat, 13) == year_days(year as nat),
            forall|m: nat| 1 <= m <= 12 ==> #[trigger] days_before_month(year as nat, m)
                + month_days(year as nat, m) == days_before_month(year as nat, m + 1),
            days_before_month(year as nat, month as nat) + dom == days,
        decreases 12 - month,
    {
        if month == 12 {
            assert(false);
        }
        dom = dom - days_in_month(year, month);
        month = month + 1;
    }
    let r = (year, month, dom + 1, h, mi, s);
    proof {
        assert(is_date_of(secs as nat, r));
        lemma_date_of_unique(secs as nat, r, date_of(secs as nat));
    }
    r
}

proof fn lemma_days_before_year_monotone(a: nat, b: nat)
    requires
        1970 <= a < b,
    ensures
        days_before_year(a) + year_days(a) <= days_before_year(b),
    decreases b,
{
    if b > a + 1 {
        lemma_days_before_year_monotone(a, (b - 1) as nat);
    }
}

proof fn lemma_days_before_month_monotone(y: nat, a: nat, b: nat)
    requires
        1 <= a < b <= 13,
    ensures
        days_before_month(y, a) + month_days(y, a) <= days_before_month(y, b),
    decreases b,
{
    if b > a + 1 {
        lemma_days_before_month_monotone(y, a, (b - 1) as nat);
    }
}

/// The parts that describe a timestamp are unique.
pub proof fn lemma_date_of_unique(
    secs: nat,
    p: (u64, u64, u64, u64, u64, u64),
    q: (u64, u64, u64, u64, u64, u64),
)
    requires
        is_date_of(secs, p),
        is_date_of(secs, q),
    ensures
        p == q,
{
    let (py, pm, pd, ph, pmi, ps) = p;
    let (qy, qm, qd, qh, qmi, qs) = q;
    lemma_year_of_months(py as nat);
    lemma_year_of_months(qy as nat);
    if pm < 12 {
        lemma_days_before_month_monotone(py as nat, pm as nat, 13);
    }
    if qm < 12 {
        lemma_days_before_month_monotone(qy as nat, qm as nat, 13);
    }
    if py < qy {
        lemma_days_before_year_monotone(py as nat, qy as nat);
    }
    if qy < py {
        lemma_days_before_year_monotone(qy as nat, py as nat);
    }
    assert(py == qy);
    if pm < qm {
        lemma_days_before_month_monotone(py as nat, pm as nat, qm as nat);
    }
    if qm < pm {
        lemma_days_before_month_monotone(py as nat, qm as nat, pm as nat);
    }
}

/// The calendar parts of a timestamp.
pub open spec fn date_of(secs: nat) -> (u64, u64, u64, u64, u64, u64) {
    choose|p: (u64, u64, u64, u64, u64, u64)| is_date_of(secs, p)
}

/// Text of a timestamp as `YYYY-MM-DD hh:mm:ss`.
pub fn timestamp_text(secs: u64) -> (r: String)
    ensures
        r@ == spec_timestamp_text(date_of(secs as nat)),
{
    let p = date_parts(secs);
    let (y, mo, d, h, mi, s) = p;
    let mut r = String::new();
    push_decimal(&mut r, y);
    push_char(&mut r, '-');
    push_decimal2(&mut r, mo);
    push_char(&mut r, '-');
    push_decimal2(&mut r, d);
    push_char(&mut r, ' ');
    push_decimal2(&mut r, h);
    push_char(&mut r, ':');
    push_decimal2(&mut r, mi);
    push_char(&mut r, ':');
    push_decimal2(&mut r, s);
    assert(r@ =~= spec_timestamp_text(p));
    r
}

/// Text of a timestamp as `YYYYMMDD_hhmmss`, safe in file names.
pub fn file_timestamp_text(secs: u64) -> (r: String)
    ensures
        r@ == spec_file_timestamp_text(date_of(secs as nat)),
{
    let p = date_parts(secs);
    let (y, mo, d, h, mi, s) = p;
    let mut r = String::new();
    push_decimal(&mut r, y);
    push_decimal2(&mut r, mo);
    push_decimal2(&mut r, d);
    push_char(&mut r, '_');
    push_decimal2(&mut r, h);
    push_decimal2(&mut r, mi);
    push_decimal2(&mut r, s);
    assert(r@ =~= spec_file_timestamp_text(p));
    r
}

/// Seconds since the Unix epoch on the system clock (0 for a clock set
/// before it). Nothing is stated of the value: it is the time.
#[verifier::external_body]
pub(crate) fn current_secs() -> (r: u64) {
    std::time::SystemTime::now().duration_since(std::time::UNIX_EPOCH).unwrap_or_default().as_secs()
}

/// The current time as `YYYY-MM-DD hh:mm:ss`.
pub fn timestamp_str() -> (r: String)
    ensures
        exists|secs: u64| r@ == spec_timestamp_text(date_of(secs as nat)),
{
    timestamp_text(current_secs())
}

/// The current time as `YYYYMMDD_hhmmss`.
pub fn file_timestamp() -> (r: String)
    ensures
        exists|secs: u64| r@ == spec_file_timestamp_text(date_of(secs as nat)),
{
    file_timestamp_text(current_secs())
}

/// The current time as a decimal count of seconds since the Unix epoch,
/// the form kept in the install record.
pub fn chrono_now() -> (r: String)
    ensures
        exists|secs: u64| r@ == decimal(secs as nat),
{
    decimal_string(current_secs())
}

} // verus!
