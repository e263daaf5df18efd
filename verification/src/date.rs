//! Calendar dates, their ISO rendering, and finite ranges of consecutive
//! dates.
//!
//! A date is modelled by its year, month and day in the proleptic Gregorian
//! calendar, and `day_index` maps every valid date to the number of days
//! since the first of January of year one.  All range iteration is proved
//! against that index: the successor of a date has the next index, and a
//! range `[start, end)` yields exactly the dates whose indices lie in
//! `[day_index(start), day_index(end))`, in ascending order.

use vstd::arithmetic::div_mod::{
    lemma_div_is_ordered, lemma_div_is_ordered_by_denominator, lemma_fundamental_div_mod,
    lemma_fundamental_div_mod_converse, lemma_mod_multiples_basic,
};
use vstd::prelude::*;

use crate::decimal::{four_digits, push_four_digits, push_two_digits, two_digits};

verus! {

/// A calendar date: year, month and day of month, all one-based.
#[derive(Clone, Copy, Debug, PartialEq, Eq, Structural)]
pub struct Date {
    pub year: u32,
    pub month: u32,
    pub day: u32,
}

/// Whether `y` is a leap year in the Gregorian calendar.
pub open spec fn is_leap_year(y: int) -> bool {
    y % 4 == 0 && (y % 100 != 0 || y % 400 == 0)
}

/// The number of days in month `m` of year `y`.
pub open spec fn days_in_month(y: int, m: int) -> int {
    if m == 2 {
        if is_leap_year(y) {
            29
        } else {
            28
        }
    } else if m == 4 || m == 6 || m == 9 || m == 11 {
        30
    } else {
        31
    }
}

/// The number of days of year `y` that lie before the first of month `m`.
pub open spec fn days_before_month(y: int, m: int) -> int
    decreases m,
{
    if m <= 1 {
        0
    } else {
        days_before_month(y, m - 1) + days_in_month(y, m - 1)
    }
}

/// The number of days that lie before the first of January of year `y`,
/// counted from the first of January of year one.
pub open spec fn days_before_year(y: int) -> int {
    365 * (y - 1) + (y - 1) / 4 - (y - 1) / 100 + (y - 1) / 400
}

/// The position of a date in the calendar: the number of days between the
/// first of January of year one and `d`.  Consecutive dates have consecutive
/// indices.
pub open spec fn day_index(d: Date) -> int {
    days_before_year(d.year as int) + days_before_month(d.year as int, d.month as int) + d.day - 1
}

/// The largest index of any valid date, that of the last day of year 9999.
pub open spec fn max_day_index() -> int {
    3652058
}

impl Date {
    /// A date is valid when its year lies in 1..=9999 and its month and day
    /// exist in the calendar.
    pub open spec fn valid(self) -> bool {
        &&& 1 <= self.year <= 9999
        &&& 1 <= self.month <= 12
        &&& 1 <= self.day <= days_in_month(self.year as int, self.month as int)
    }
}

/// Whether `y` is a leap year.
pub fn leap_year(y: u32) -> (r: bool)
    ensures
        r == is_leap_year(y as int),
{
    y % 4 == 0 && (y % 100 != 0 || y % 400 == 0)
}

/// The number of days in month `m` of year `y`.
pub fn month_length(y: u32, m: u32) -> (r: u32)
    requires
        1 <= m <= 12,
    ensures
        r as int == days_in_month(y as int, m as int),
{
    if m == 2 {
        if leap_year(y) {
            29
        } else {
            28
        }
    } else if m == 4 || m == 6 || m == 9 || m == 11 {
        30
    } else {
        31
    }
}

/// Stepping a positive integer down by one lowers its quotient by `k`
/// exactly when the integer is a multiple of `k`.
proof fn lemma_div_step(n: int, k: int)
    requires
        k >= 1,
        n >= 1,
    ensures
        n / k == (n - 1) / k + if n % k == 0 {
            1int
        } else {
            0int
        },
{
    lemma_fundamental_div_mod(n, k);
    vstd::arithmetic::div_mod::lemma_mod_bound(n, k);
    let q = n / k;
    let r = n % k;
    if r == 0 {
        assert(n - 1 == (q - 1) * k + (k - 1)) by (nonlinear_arith)
            requires
                n == k * q + r,
                r == 0,
        ;
        lemma_fundamental_div_mod_converse(n - 1, k, q - 1, k - 1);
    } else {
        assert(n - 1 == q * k + (r - 1)) by (nonlinear_arith)
            requires
                n == k * q + r,
        ;
        lemma_fundamental_div_mod_converse(n - 1, k, q, r - 1);
    }
}

/// A multiple of 400 is a multiple of 100, and a multiple of 100 one of 4.
proof fn lemma_leap_divisors(y: int)
    requires
        y >= 1,
    ensures
        y % 400 == 0 ==> y % 100 == 0,
        y % 100 == 0 ==> y % 4 == 0,
{
    if y % 400 == 0 {
        lemma_fundamental_div_mod(y, 400);
        lemma_mod_multiples_basic(4 * (y / 400), 100);
    }
    if y % 100 == 0 {
        lemma_fundamental_div_mod(y, 100);
        lemma_mod_multiples_basic(25 * (y / 100), 4);
    }
}

/// Crossing from year `y` to year `y + 1` adds exactly the length of `y`:
/// 366 days in a leap year, 365 otherwise.
proof fn lemma_year_step(y: int)
    requires
        y >= 1,
    ensures
        days_before_year(y + 1) == days_before_year(y) + if is_leap_year(y) {
            366int
        } else {
            365int
        },
{
    lemma_div_step(y, 4);
    lemma_div_step(y, 100);
    lemma_div_step(y, 400);
    lemma_leap_divisors(y);
}

/// `days_before_year` never decreases as the year grows.
proof fn lemma_year_monotone(a: int, b: int)
    requires
        1 <= a <= b,
    ensures
        days_before_year(a) <= days_before_year(b),
    decreases b - a,
{
    if a < b {
        lemma_year_monotone(a, b - 1);
        lemma_year_step(b - 1);
    }
}

/// Unfolds `days_before_month` once: month `m + 1` starts `days_in_month(y, m)`
/// days after month `m`.
proof fn lemma_month_step(y: int, m: int)
    requires
        m >= 1,
    ensures
        days_before_month(y, m + 1) == days_before_month(y, m) + days_in_month(y, m),
{
}

/// `days_before_month` never decreases as the month grows.
proof fn lemma_month_monotone(y: int, m1: int, m2: int)
    requires
        1 <= m1 <= m2,
    ensures
        days_before_month(y, m1) <= days_before_month(y, m2),
    decreases m2 - m1,
{
    if m1 < m2 {
        lemma_month_monotone(y, m1, m2 - 1);
        lemma_month_step(y, m2 - 1);
    }
}

/// The twelve months of year `y` hold exactly the length of year `y`.
proof fn lemma_year_total(y: int)
    ensures
        days_before_month(y, 13) == if is_leap_year(y) {
            366int
        } else {
            365int
        },
{
    assert(days_before_month(y, 13) == if is_leap_year(y) {
        366int
    } else {
        365int
    }) by {
        reveal_with_fuel(days_before_month, 14);
    }
}

/// Every valid date has an index between 0 and `max_day_index()`.
pub proof fn lemma_day_index_bounds(d: Date)
    requires
        d.valid(),
    ensures
        0 <= day_index(d) <= max_day_index(),
{
    let y = d.year as int;
    let m = d.month as int;
    lemma_div_is_ordered_by_denominator(y - 1, 4, 100);
    lemma_div_is_ordered(0, y - 1, 4);
    lemma_div_is_ordered(0, y - 1, 400);
    assert(days_before_year(y) >= 0);
    lemma_month_monotone(y, 1, m);
    assert(day_index(d) >= 0);

    lemma_month_step(y, m);
    lemma_month_monotone(y, m + 1, 13);
    lemma_year_total(y);
    lemma_year_step(y);
    assert(day_index(d) <= days_before_year(y + 1) - 1);
    lemma_year_monotone(y + 1, 10000);
    assert(days_before_year(10000) == 3652059);
}

/// A date that precedes another in calendar order has the smaller index.
proof fn lemma_calendar_order(a: Date, b: Date)
    requires
        a.valid(),
        b.valid(),
        a.year < b.year || (a.year == b.year && a.month < b.month) || (a.year == b.year && a.month
            == b.month && a.day < b.day),
    ensures
        day_index(a) < day_index(b),
{
    let ya = a.year as int;
    let ma = a.month as int;
    let yb = b.year as int;
    let mb = b.month as int;
    if a.year < b.year {
        lemma_month_step(ya, ma);
        lemma_month_monotone(ya, ma + 1, 13);
        lemma_year_total(ya);
        lemma_year_step(ya);
        assert(day_index(a) < days_before_year(ya + 1));
        lemma_year_monotone(ya + 1, yb);
        lemma_month_monotone(yb, 1, mb);
        assert(days_before_year(yb) <= day_index(b));
    } else if a.month < b.month {
        lemma_month_step(ya, ma);
        lemma_month_monotone(ya, ma + 1, mb);
    }
}

/// Law: `day_index` is one-to-one on valid dates, so a sequence of dates
/// with consecutive indices holds each calendar date exactly once.
pub proof fn lemma_day_index_injective(a: Date, b: Date)
    requires
        a.valid(),
        b.valid(),
        day_index(a) == day_index(b),
    ensures
        a == b,
{
    if a.year < b.year || (a.year == b.year && a.month < b.month) || (a.year == b.year && a.month
        == b.month && a.day < b.day) {
        lemma_calendar_order(a, b);
    }
    if b.year < a.year || (b.year == a.year && b.month < a.month) || (b.year == a.year && b.month
        == a.month && b.day < a.day) {
        lemma_calendar_order(b, a);
    }
}

/// The last day of year 9999 sits at `max_day_index()`.
pub proof fn lemma_max_date_index()
    ensures
        day_index(Date { year: 9999, month: 12, day: 31 }) == max_day_index(),
{
    assert(days_before_year(9999) == 3651694);
    assert(days_before_month(9999, 12) == 334) by {
        reveal_with_fuel(days_before_month, 14);
    };
}

impl Date {
    /// Builds the date if its components form a valid calendar date.
    pub fn new(year: u32, month: u32, day: u32) -> (r: Option<Date>)
        ensures
            r matches Some(d) ==> d == (Date { year, month, day }) && d.valid(),
            r is None ==> !(Date { year, month, day }).valid(),
    {
        if 1 <= year && year <= 9999 && 1 <= month && month <= 12 && 1 <= day && day
            <= month_length(year, month) {
            Some(Date { year, month, day })
        } else {
            None
        }
    }

    /// The number of days between the first of January of year one and this
    /// date.
    pub fn day_number(&self) -> (r: u32)
        requires
            self.valid(),
        ensures
            r as int == day_index(*self),
    {
        let y: u32 = self.year;
        proof {
            lemma_div_is_ordered_by_denominator(y - 1, 4, 100);
            lemma_div_is_ordered(0, y - 1, 400);
        }
        let before_year: u32 = 365 * (y - 1) + (y - 1) / 4 - (y - 1) / 100 + (y - 1) / 400;
        let leap_shift: u32 = if self.month >= 3 && leap_year(y) {
            1
        } else {
            0
        };
        let before_month: u32 = match self.month {
            1 => 0,
            2 => 31,
            3 => 59,
            4 => 90,
            5 => 120,
            6 => 151,
            7 => 181,
            8 => 212,
            9 => 243,
            10 => 273,
            11 => 304,
            _ => 334,
        } + leap_shift;
        proof {
            assert(before_month as int == days_before_month(y as int, self.month as int)) by {
                reveal_with_fuel(days_before_month, 14);
            };
        }
        before_year + before_month + self.day - 1
    }

    /// The date of the following day.
    pub fn next(&self) -> (r: Date)
        requires
            self.valid(),
            !(self.year == 9999 && self.month == 12 && self.day == 31),
        ensures
            r.valid(),
            day_index(r) == day_index(*self) + 1,
    {
        let len = month_length(self.year, self.month);
        if self.day < len {
            Date { year: self.year, month: self.month, day: self.day + 1 }
        } else if self.month < 12 {
            let r = Date { year: self.year, month: self.month + 1, day: 1 };
            proof {
                lemma_month_step(self.year as int, self.month as int);
            }
            r
        } else {
            let r = Date { year: self.year + 1, month: 1, day: 1 };
            proof {
                lemma_month_step(self.year as int, 12);
                lemma_year_total(self.year as int);
                lemma_year_step(self.year as int);
            }
            r
        }
    }
}

/// The ISO `YYYY-MM-DD` rendering of a date.
pub open spec fn iso_of(d: Date) -> Seq<char> {
    four_digits(d.year as int) + seq!['-'] + two_digits(d.month as int) + seq!['-'] + two_digits(
        d.day as int,
    )
}

impl Date {
    /// Renders this date as `YYYY-MM-DD`.
    pub fn iso_string(&self) -> (s: String)
        requires
            self.valid(),
        ensures
            s@ == iso_of(*self),
    {
        proof {
            reveal_strlit("-");
        }
        let mut s = String::new();
        push_four_digits(&mut s, self.year);
        s.append("-");
        push_two_digits(&mut s, self.month);
        s.append("-");
        push_two_digits(&mut s, self.day);
        assert(s@ =~= iso_of(*self));
        s
    }
}

/// The consecutive dates of `[start, end)`, in ascending calendar order:
/// exactly the dates whose indices lie in `[day_index(start), day_index(end))`.
/// An empty or inverted range yields no dates.  Iterating twice yields the
/// same sequence: the result is a function of the two bounds alone.
pub fn dates_in_range(start: &Date, end: &Date) -> (r: Vec<Date>)
    requires
        start.valid(),
        end.valid(),
    ensures
        day_index(*start) >= day_index(*end) ==> r@.len() == 0,
        day_index(*start) < day_index(*end) ==> r@.len() == day_index(*end) - day_index(*start),
        forall|i: int|
            0 <= i < r@.len() ==> (#[trigger] r@[i]).valid() && day_index(r@[i]) == day_index(
                *start,
            ) + i,
        forall|i: int, j: int| 0 <= i < j < r@.len() ==> r@[i] != r@[j],
{
    let mut v: Vec<Date> = Vec::new();
    let s_idx: u32 = start.day_number();
    let e_idx: u32 = end.day_number();
    if s_idx >= e_idx {
        return v;
    }
    proof {
        lemma_day_index_bounds(*end);
    }
    let mut cur: Date = *start;
    while cur.day_number() < e_idx
        invariant
            cur.valid(),
            end.valid(),
            e_idx as int == day_index(*end),
            day_index(*end) <= max_day_index(),
            day_index(*start) <= day_index(cur) <= day_index(*end),
            v@.len() == day_index(cur) - day_index(*start),
            forall|i: int|
                0 <= i < v@.len() ==> (#[trigger] v@[i]).valid() && day_index(v@[i]) == day_index(
                    *start,
                ) + i,
        decreases day_index(*end) - day_index(cur),
    {
        v.push(cur);
        proof {
            if cur == (Date { year: 9999, month: 12, day: 31 }) {
                lemma_max_date_index();
                assert(false);
            }
        }
        cur = cur.next();
    }
    v
}

} // verus!
