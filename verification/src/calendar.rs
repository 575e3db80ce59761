use vstd::prelude::*;
use vstd::string::StringExecFns;
use chrono::Datelike;

use crate::errors::ErrorCode;

verus! {

/// Recurrence periods a subscription can rebill on.
#[derive(Clone, Copy, Debug, PartialEq, Eq, Structural)]
pub enum SubscriptionPeriod {
    Daily,
    Weekly,
    Monthly,
    Quarterly,
    Yearly,
}

/// First timestamp of the supported calendar window, 0001-01-01T00:00:00Z.
/// Within the window every year has exactly four decimal digits, so period
/// labels have one fixed shape per period.
pub const TS_MIN: i64 = -62135596800;

/// Last timestamp of the supported calendar window, 9999-12-31T23:59:59Z.
pub const TS_MAX: i64 = 253402300799;

/// Timestamps the period calendar is defined on.
pub open spec fn in_calendar_range(ts: i64) -> bool {
    TS_MIN <= ts <= TS_MAX
}

/// The calendar year (UTC) of a timestamp.
pub uninterp spec fn year_of(ts: i64) -> i32;

/// The calendar month (UTC) of a timestamp, 1 to 12.
pub uninterp spec fn month_of(ts: i64) -> u32;

/// The day of the month (UTC) of a timestamp, 1 to 31.
pub uninterp spec fn day_of(ts: i64) -> u32;

/// The day of the year (UTC) of a timestamp, 1 to 366.
pub uninterp spec fn ordinal_of(ts: i64) -> u32;

/// The day of the week (UTC) of a timestamp, counted from Sunday = 0.
pub uninterp spec fn weekday_of(ts: i64) -> u32;

/// Relies on chrono's `DateTime::<Utc>::from_timestamp` and
/// `Datelike::year`: the UTC calendar year of the timestamp, a function of
/// the timestamp alone.  Inside the supported window the conversion cannot
/// fail and the year is between 1 and 9999.
#[verifier::external_body]
fn ts_year(ts: i64) -> (r: i32)
    requires
        in_calendar_range(ts),
    ensures
        r == year_of(ts),
        1 <= r <= 9999,
{
    chrono::DateTime::<chrono::Utc>::from_timestamp(ts, 0).unwrap().year()
}

/// Relies on chrono's `Datelike::month`: the UTC month of the timestamp,
/// documented to range from 1 to 12, a function of the timestamp alone.
#[verifier::external_body]
fn ts_month(ts: i64) -> (r: u32)
    requires
        in_calendar_range(ts),
    ensures
        r == month_of(ts),
        1 <= r <= 12,
{
    chrono::DateTime::<chrono::Utc>::from_timestamp(ts, 0).unwrap().month()
}

/// Relies on chrono's `Datelike::day`: the UTC day of the month, documented
/// to range from 1 to 31, a function of the timestamp alone.
#[verifier::external_body]
fn ts_day(ts: i64) -> (r: u32)
    requires
        in_calendar_range(ts),
    ensures
        r == day_of(ts),
        1 <= r <= 31,
{
    chrono::DateTime::<chrono::Utc>::from_timestamp(ts, 0).unwrap().day()
}

/// Relies on chrono's `Datelike::ordinal`: the UTC day of the year,
/// documented to range from 1 to 366, a function of the timestamp alone.
#[verifier::external_body]
fn ts_ordinal(ts: i64) -> (r: u32)
    requires
        in_calendar_range(ts),
    ensures
        r == ordinal_of(ts),
        1 <= r <= 366,
{
    chrono::DateTime::<chrono::Utc>::from_timestamp(ts, 0).unwrap().ordinal()
}

/// Relies on chrono's `Datelike::weekday` and
/// `Weekday::num_days_from_sunday`: the UTC day of the week numbered from
/// Sunday = 0 to Saturday = 6, a function of the timestamp alone.
#[verifier::external_body]
fn ts_weekday(ts: i64) -> (r: u32)
    requires
        in_calendar_range(ts),
    ensures
        r == weekday_of(ts),
        r <= 6,
{
    chrono::DateTime::<chrono::Utc>::from_timestamp(ts, 0).unwrap().weekday().num_days_from_sunday()
}

/// The week-of-year number counted from the year's first Sunday, with the
/// days before it in week 0: the `%U` convention of strftime.
pub open spec fn week_from_sun(ts: i64) -> int {
    (ordinal_of(ts) + 6 - weekday_of(ts)) / 7
}

/// The quarter label digit: `month / 3 + 1`.
pub open spec fn quarter_of(ts: i64) -> int {
    month_of(ts) / 3 + 1
}

/// The decimal digit character for `d` (meaningful for 0 to 9).
pub open spec fn digit_char(d: int) -> char {
    if d == 0 {
        '0'
    } else if d == 1 {
        '1'
    } else if d == 2 {
        '2'
    } else if d == 3 {
        '3'
    } else if d == 4 {
        '4'
    } else if d == 5 {
        '5'
    } else if d == 6 {
        '6'
    } else if d == 7 {
        '7'
    } else if d == 8 {
        '8'
    } else {
        '9'
    }
}

/// `n` as two decimal digits, zero-padded.
pub open spec fn dec2(n: int) -> Seq<char> {
    seq![digit_char((n / 10) % 10), digit_char(n % 10)]
}

/// `n` as four decimal digits, zero-padded.
pub open spec fn dec4(n: int) -> Seq<char> {
    seq![
        digit_char((n / 1000) % 10),
        digit_char((n / 100) % 10),
        digit_char((n / 10) % 10),
        digit_char(n % 10),
    ]
}

/// The canonical label of the period that a timestamp falls in.  Two
/// timestamps belong to the same billing period exactly when their labels
/// are equal, and a timestamp opens a period exactly when its label differs
/// from the label one second earlier.
pub open spec fn spec_period_label(ts: i64, period: SubscriptionPeriod) -> Seq<char> {
    match period {
        SubscriptionPeriod::Daily => dec4(year_of(ts) as int) + dec2(month_of(ts) as int) + dec2(
            day_of(ts) as int,
        ),
        SubscriptionPeriod::Weekly => dec4(year_of(ts) as int) + seq!['w'] + dec2(
            week_from_sun(ts),
        ),
        SubscriptionPeriod::Monthly => dec4(year_of(ts) as int) + dec2(month_of(ts) as int),
        SubscriptionPeriod::Quarterly => dec4(year_of(ts) as int) + seq!['q'] + seq![
            digit_char(quarter_of(ts)),
        ],
        SubscriptionPeriod::Yearly => dec4(year_of(ts) as int),
    }
}

impl SubscriptionPeriod {
    /// The period named by a wire discriminant, in declaration order.
    pub open spec fn spec_from_u8(p: u8) -> Option<SubscriptionPeriod> {
        if p == 0 {
            Some(SubscriptionPeriod::Daily)
        } else if p == 1 {
            Some(SubscriptionPeriod::Weekly)
        } else if p == 2 {
            Some(SubscriptionPeriod::Monthly)
        } else if p == 3 {
            Some(SubscriptionPeriod::Quarterly)
        } else if p == 4 {
            Some(SubscriptionPeriod::Yearly)
        } else {
            None
        }
    }

    pub fn from_u8(p: u8) -> (r: Option<SubscriptionPeriod>)
        ensures
            r == SubscriptionPeriod::spec_from_u8(p),
    {
        match p {
            0 => Some(SubscriptionPeriod::Daily),
            1 => Some(SubscriptionPeriod::Weekly),
            2 => Some(SubscriptionPeriod::Monthly),
            3 => Some(SubscriptionPeriod::Quarterly),
            4 => Some(SubscriptionPeriod::Yearly),
            _ => None,
        }
    }
}

/// The grace window a period implies when the caller does not override it:
/// three months for daily and weekly schedules, one year for monthly and
/// quarterly ones, two years for yearly ones.
pub open spec fn spec_default_max_delay(period: SubscriptionPeriod) -> i64 {
    match period {
        SubscriptionPeriod::Daily => 7776000,
        SubscriptionPeriod::Weekly => 7776000,
        SubscriptionPeriod::Monthly => 31536000,
        SubscriptionPeriod::Quarterly => 31536000,
        SubscriptionPeriod::Yearly => 63072000,
    }
}

pub fn default_max_delay(period: SubscriptionPeriod) -> (r: i64)
    ensures
        r == spec_default_max_delay(period),
{
    match period {
        SubscriptionPeriod::Daily => 60 * 60 * 24 * 90,
        SubscriptionPeriod::Weekly => 60 * 60 * 24 * 90,
        SubscriptionPeriod::Monthly => 60 * 60 * 24 * 365,
        SubscriptionPeriod::Quarterly => 60 * 60 * 24 * 365,
        SubscriptionPeriod::Yearly => 60 * 60 * 24 * 365 * 2,
    }
}

fn digit_str(d: u32) -> (r: &'static str)
    requires
        d < 10,
    ensures
        r@ == seq![digit_char(d as int)],
{
    proof {
        reveal_strlit("0");
        reveal_strlit("1");
        reveal_strlit("2");
        reveal_strlit("3");
        reveal_strlit("4");
        reveal_strlit("5");
        reveal_strlit("6");
        reveal_strlit("7");
        reveal_strlit("8");
        reveal_strlit("9");
    }
    let r = match d {
        0 => "0",
        1 => "1",
        2 => "2",
        3 => "3",
        4 => "4",
        5 => "5",
        6 => "6",
        7 => "7",
        8 => "8",
        _ => "9",
    };
    proof {
        assert(r@ =~= seq![digit_char(d as int)]);
    }
    r
}

fn append_dec2(s: &mut String, n: u32)
    requires
        n < 100,
    ensures
        final(s)@ == old(s)@ + dec2(n as int),
{
    s.append(digit_str(n / 10));
    s.append(digit_str(n % 10));
    proof {
        assert(final(s)@ =~= old(s)@ + dec2(n as int));
    }
}

fn append_dec4(s: &mut String, n: u32)
    requires
        n < 10000,
    ensures
        final(s)@ == old(s)@ + dec4(n as int),
{
    s.append(digit_str(n / 1000));
    s.append(digit_str((n / 100) % 10));
    s.append(digit_str((n / 10) % 10));
    s.append(digit_str(n % 10));
    proof {
        assert(final(s)@ =~= old(s)@ + dec4(n as int));
    }
}

/// Builds the canonical label of the period that `ts` falls in.
pub(crate) fn period_label(ts: i64, period: SubscriptionPeriod) -> (r: String)
    requires
        in_calendar_range(ts),
    ensures
        r@ == spec_period_label(ts, period),
{
    let mut s = String::new();
    let year = ts_year(ts);
    append_dec4(&mut s, year as u32);
    match period {
        SubscriptionPeriod::Daily => {
            append_dec2(&mut s, ts_month(ts));
            append_dec2(&mut s, ts_day(ts));
        },
        SubscriptionPeriod::Weekly => {
            proof {
                reveal_strlit("w");
            }
            s.append("w");
            let week = (ts_ordinal(ts) + 6 - ts_weekday(ts)) / 7;
            append_dec2(&mut s, week);
        },
        SubscriptionPeriod::Monthly => {
            append_dec2(&mut s, ts_month(ts));
        },
        SubscriptionPeriod::Quarterly => {
            proof {
                reveal_strlit("q");
            }
            s.append("q");
            s.append(digit_str(ts_month(ts) / 3 + 1));
        },
        SubscriptionPeriod::Yearly => {},
    }
    proof {
        assert(s@ =~= spec_period_label(ts, period));
    }
    s
}

/// The canonical period label of a timestamp, as the protocol's wire string.
pub fn get_period_string(ts: i64, period: SubscriptionPeriod) -> (r: Result<String, ErrorCode>)
    requires
        in_calendar_range(ts),
    ensures
        r matches Ok(s) && s@ == spec_period_label(ts, period),
{
    Ok(period_label(ts, period))
}

/// Whether `ts` is the first instant of its period: its label differs from
/// the label one second earlier.  Operations that demand a period boundary
/// accept a timestamp exactly when this holds.
pub fn is_period_start(ts: i64, period: SubscriptionPeriod) -> (r: bool)
    requires
        TS_MIN < ts <= TS_MAX,
    ensures
        r == (spec_period_label(ts, period) != spec_period_label((ts - 1) as i64, period)),
{
    let here = period_label(ts, period);
    let before = period_label(ts - 1, period);
    let same = here == before;
    !same
}

} // verus!
