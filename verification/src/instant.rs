//! Instants, and their text in RFC 3339 format.
//!
//! An instant is a number of nanoseconds from the Unix epoch, in UTC.

use vstd::prelude::*;
use vstd::arithmetic::div_mod::lemma_div_denominator;

use crate::text::digit_char;

verus! {

/// Every date-time of the `time` crate lies less than this many nanoseconds from the Unix epoch.
pub const INSTANT_BOUND: i128 = 400_000_000_000_000_000_000;

/// The first nanosecond of the year 0.
pub const YEAR_0: i128 = -62_167_219_200_000_000_000;

/// The first nanosecond of the year 10000.
pub const YEAR_10000: i128 = 253_402_300_800_000_000_000;

/// Whether an instant lies in a year of four digits.
pub open spec fn has_four_digit_year(nanos: int) -> bool {
    YEAR_0 <= nanos < YEAR_10000
}

/// A day of the Gregorian calendar. Months and days count from one.
pub struct Date {
    pub year: int,
    pub month: int,
    pub day: int,
}

/// Whether a year has a 29th of February.
pub open spec fn is_leap(year: int) -> bool {
    year % 4 == 0 && (year % 100 != 0 || year % 400 == 0)
}

/// How many days a month has.
pub open spec fn days_in_month(year: int, month: int) -> int {
    if month == 2 {
        if is_leap(year) {
            29
        } else {
            28
        }
    } else if month == 4 || month == 6 || month == 9 || month == 11 {
        30
    } else {
        31
    }
}

/// The day that comes `days` days after the first day of a month.
pub open spec fn date_after(year: int, month: int, days: int) -> Date
    decreases days,
{
    let length = days_in_month(year, month);
    if days < length {
        Date { year, month, day: days + 1 }
    } else if month < 12 {
        date_after(year, month + 1, days - length)
    } else {
        date_after(year + 1, 1, days - length)
    }
}

/// The digit of `n` at the place of that value: 1, 10, 100 and so on.
#[verifier::opaque]
pub open spec fn digit_at(n: int, place: int) -> char {
    digit_char((n / place % 10) as nat)
}

/// A date and a second of that day, as in `2025-08-14T16:12:03`.
pub open spec fn date_time_text(date: Date, second: int) -> Seq<char> {
    let h = second / 3600;
    let m = second / 60 % 60;
    let s = second % 60;
    seq![
        digit_at(date.year, 1000),
        digit_at(date.year, 100),
        digit_at(date.year, 10),
        digit_at(date.year, 1),
        '-',
        digit_at(date.month, 10),
        digit_at(date.month, 1),
        '-',
        digit_at(date.day, 10),
        digit_at(date.day, 1),
        'T',
        digit_at(h, 10),
        digit_at(h, 1),
        ':',
        digit_at(m, 10),
        digit_at(m, 1),
        ':',
        digit_at(s, 10),
        digit_at(s, 1),
    ]
}

/// Nine digits, leading zeros included.
pub open spec fn nine_digits(n: int) -> Seq<char> {
    seq![
        digit_at(n, 100_000_000),
        digit_at(n, 10_000_000),
        digit_at(n, 1_000_000),
        digit_at(n, 100_000),
        digit_at(n, 10_000),
        digit_at(n, 1000),
        digit_at(n, 100),
        digit_at(n, 10),
        digit_at(n, 1),
    ]
}

/// A text without the zeros at its end.
pub open spec fn trimmed(s: Seq<char>) -> Seq<char>
    decreases s.len(),
{
    if s.len() > 0 && s.last() == '0' {
        trimmed(s.drop_last())
    } else {
        s
    }
}

/// The fraction of a second, as in `.25`; nothing for a whole second.
pub open spec fn fraction_text(nanos: int) -> Seq<char> {
    if nanos == 0 {
        Seq::empty()
    } else {
        seq!['.'] + trimmed(nine_digits(nanos))
    }
}

/// The text of an instant in RFC 3339 format, as in `2025-08-14T16:12:03.25Z`.
pub open spec fn rfc3339_text(nanos: int) -> Seq<char> {
    let seconds = (nanos - YEAR_0) / 1_000_000_000;
    date_time_text(date_after(0, 1, seconds / 86_400), seconds % 86_400) + fraction_text(
        (nanos - YEAR_0) % 1_000_000_000,
    ) + seq!['Z']
}

/// How many days of the calendar come before a year.
spec fn days_before_year(year: int) -> int {
    365 * year + (year + 3) / 4 - (year + 99) / 100 + (year + 399) / 400
}

/// How many days of its year come before a month.
spec fn days_before_month(year: int, month: int) -> int
    decreases month,
{
    if month <= 1 {
        0
    } else {
        days_before_month(year, month - 1) + days_in_month(year, month - 1)
    }
}

/// How many days of the calendar come before a date.
spec fn days_before(date: Date) -> int {
    days_before_year(date.year) + days_before_month(date.year, date.month) + date.day - 1
}

/// The twelve months of a year fill it.
proof fn lemma_year_length(year: int)
    ensures
        days_before_year(year + 1) == days_before_year(year) + days_before_month(year, 12)
            + days_in_month(year, 12),
{
    reveal_with_fuel(days_before_month, 13);
    let fourth = if year % 4 == 0 {
        1int
    } else {
        0
    };
    let hundredth = if year % 100 == 0 {
        1int
    } else {
        0
    };
    let four_hundredth = if year % 400 == 0 {
        1int
    } else {
        0
    };
    assert((year + 4) / 4 == (year + 3) / 4 + fourth);
    assert((year + 100) / 100 == (year + 99) / 100 + hundredth);
    assert((year + 400) / 400 == (year + 399) / 400 + four_hundredth);
    assert(year % 400 == 0 ==> year % 100 == 0);
    assert(year % 100 == 0 ==> year % 4 == 0);
}

/// Counting days off leads to a date with that many days before it.
proof fn lemma_date_after(year: int, month: int, days: int)
    requires
        year >= 0,
        1 <= month <= 12,
        days >= 0,
    ensures
        ({
            let date = date_after(year, month, days);
            &&& days_before(date) == days_before_year(year) + days_before_month(year, month) + days
            &&& date.year >= year
            &&& 1 <= date.month <= 12
            &&& 1 <= date.day <= 31
        }),
    decreases days,
{
    let length = days_in_month(year, month);
    if days >= length {
        if month < 12 {
            lemma_date_after(year, month + 1, days - length);
        } else {
            lemma_date_after(year + 1, 1, days - length);
            lemma_year_length(year);
        }
    }
}

/// In the years of four digits, different days have different dates.
proof fn lemma_date_is_determined(a: int, b: int)
    requires
        0 <= a < 3_652_425,
        0 <= b < 3_652_425,
    ensures
        0 <= date_after(0, 1, a).year <= 9999,
        1 <= date_after(0, 1, a).month <= 12,
        1 <= date_after(0, 1, a).day <= 31,
        date_after(0, 1, a) == date_after(0, 1, b) ==> a == b,
{
    lemma_date_after(0, 1, a);
    lemma_date_after(0, 1, b);
    let date = date_after(0, 1, a);
    lemma_days_before_month_is_positive(date.year, date.month);
    assert(date.year >= 10_000 ==> days_before_year(date.year) >= 3_652_425);
}

/// The days before a month are never fewer than none.
proof fn lemma_days_before_month_is_positive(year: int, month: int)
    ensures
        days_before_month(year, month) >= 0,
    decreases month,
{
    if month > 1 {
        lemma_days_before_month_is_positive(year, month - 1);
    }
}

/// Trimming takes nothing but zeros.
proof fn lemma_trimmed(s: Seq<char>)
    ensures
        trimmed(s).len() <= s.len(),
        forall|i: int| 0 <= i < trimmed(s).len() ==> #[trigger] trimmed(s)[i] == s[i],
        forall|i: int| trimmed(s).len() <= i < s.len() ==> #[trigger] s[i] == '0',
    decreases s.len(),
{
    if s.len() > 0 && s.last() == '0' {
        lemma_trimmed(s.drop_last());
        assert forall|i: int| trimmed(s).len() <= i < s.len() implies #[trigger] s[i] == '0' by {
            if i < s.len() - 1 {
                assert(s.drop_last()[i] == '0');
            }
        }
    }
}

/// A digit determines the number that it stands for.
proof fn lemma_digit_at(a: int, b: int, place: int)
    requires
        digit_at(a, place) == digit_at(b, place),
    ensures
        a / place % 10 == b / place % 10,
{
    reveal(digit_at);
    let x = a / place % 10;
    let y = b / place % 10;
    assert(0 <= x < 10 && 0 <= y < 10);
}

/// Where two numbers agree above a place and have the same digit there, they agree from it on.
proof fn lemma_next_digit(a: int, b: int, place: int, next: int)
    requires
        a >= 0,
        b >= 0,
        place > 0,
        next == place * 10,
        a / next == b / next,
        digit_at(a, place) == digit_at(b, place),
    ensures
        a / place == b / place,
{
    lemma_digit_at(a, b, place);
    lemma_div_denominator(a, place, 10);
    lemma_div_denominator(b, place, 10);
}

/// Two digits determine a number below a hundred.
proof fn lemma_two_digits(a: int, b: int)
    requires
        0 <= a < 100,
        0 <= b < 100,
        digit_at(a, 10) == digit_at(b, 10),
        digit_at(a, 1) == digit_at(b, 1),
    ensures
        a == b,
{
    lemma_next_digit(a, b, 10, 100);
    lemma_next_digit(a, b, 1, 10);
}

/// Four digits determine a number below ten thousand.
proof fn lemma_four_digits(a: int, b: int)
    requires
        0 <= a < 10_000,
        0 <= b < 10_000,
        digit_at(a, 1000) == digit_at(b, 1000),
        digit_at(a, 100) == digit_at(b, 100),
        digit_at(a, 10) == digit_at(b, 10),
        digit_at(a, 1) == digit_at(b, 1),
    ensures
        a == b,
{
    lemma_next_digit(a, b, 1000, 10_000);
    lemma_next_digit(a, b, 100, 1000);
    lemma_next_digit(a, b, 10, 100);
    lemma_next_digit(a, b, 1, 10);
}

/// Nine digits determine a number below a billion.
proof fn lemma_nine_digits(a: int, b: int)
    requires
        0 <= a < 1_000_000_000,
        0 <= b < 1_000_000_000,
        nine_digits(a) == nine_digits(b),
    ensures
        a == b,
{
    let x = nine_digits(a);
    let y = nine_digits(b);
    assert(x[0] == y[0]);
    lemma_next_digit(a, b, 100_000_000, 1_000_000_000);
    assert(x[1] == y[1]);
    lemma_next_digit(a, b, 10_000_000, 100_000_000);
    assert(x[2] == y[2]);
    lemma_next_digit(a, b, 1_000_000, 10_000_000);
    assert(x[3] == y[3]);
    lemma_next_digit(a, b, 100_000, 1_000_000);
    assert(x[4] == y[4]);
    lemma_next_digit(a, b, 10_000, 100_000);
    assert(x[5] == y[5]);
    lemma_next_digit(a, b, 1000, 10_000);
    assert(x[6] == y[6]);
    lemma_next_digit(a, b, 100, 1000);
    assert(x[7] == y[7]);
    lemma_next_digit(a, b, 10, 100);
    assert(x[8] == y[8]);
    lemma_next_digit(a, b, 1, 10);
}

/// A fraction determines the nanoseconds, though the zeros at its end are gone.
proof fn lemma_fraction_is_determined(a: int, b: int)
    requires
        0 <= a < 1_000_000_000,
        0 <= b < 1_000_000_000,
        fraction_text(a) == fraction_text(b),
    ensures
        a == b,
{
    let x = nine_digits(a);
    let y = nine_digits(b);
    lemma_trimmed(x);
    lemma_trimmed(y);
    if a != 0 && b != 0 {
        assert(trimmed(x) =~= fraction_text(a).skip(1));
        assert(trimmed(y) =~= fraction_text(b).skip(1));
        assert forall|i: int| 0 <= i < 9 implies x[i] == y[i] by {
            if i < trimmed(x).len() {
                assert(trimmed(x)[i] == trimmed(y)[i]);
            }
        }
        assert(x =~= y);
        lemma_nine_digits(a, b);
    } else {
        assert(fraction_text(a).len() == fraction_text(b).len());
    }
}

/// Hours, minutes and seconds determine the time of day.
proof fn lemma_time_of_day(m: int, n: int)
    requires
        0 <= m,
        0 <= n,
        m / 3600 == n / 3600,
        m / 60 % 60 == n / 60 % 60,
        m % 60 == n % 60,
    ensures
        m == n,
{
    lemma_div_denominator(m, 60, 60);
    lemma_div_denominator(n, 60, 60);
}

/// A date and a time of day are determined by their text.
proof fn lemma_date_time_is_determined(d: Date, m: int, e: Date, n: int)
    requires
        0 <= d.year <= 9999,
        0 <= e.year <= 9999,
        1 <= d.month <= 12,
        1 <= e.month <= 12,
        1 <= d.day <= 31,
        1 <= e.day <= 31,
        0 <= m < 86_400,
        0 <= n < 86_400,
        date_time_text(d, m) == date_time_text(e, n),
    ensures
        d == e,
        m == n,
{
    let x = date_time_text(d, m);
    let y = date_time_text(e, n);
    assert(d.year == e.year) by {
        assert(x[0] == y[0] && x[1] == y[1] && x[2] == y[2] && x[3] == y[3]);
        lemma_four_digits(d.year, e.year);
    }
    assert(d.month == e.month) by {
        assert(x[5] == y[5] && x[6] == y[6]);
        lemma_two_digits(d.month, e.month);
    }
    assert(d.day == e.day) by {
        assert(x[8] == y[8] && x[9] == y[9]);
        lemma_two_digits(d.day, e.day);
    }
    assert(m / 3600 == n / 3600) by {
        assert(x[11] == y[11] && x[12] == y[12]);
        lemma_two_digits(m / 3600, n / 3600);
    }
    assert(m / 60 % 60 == n / 60 % 60) by {
        assert(x[14] == y[14] && x[15] == y[15]);
        lemma_two_digits(m / 60 % 60, n / 60 % 60);
    }
    assert(m % 60 == n % 60) by {
        assert(x[17] == y[17] && x[18] == y[18]);
        lemma_two_digits(m % 60, n % 60);
    }
    lemma_time_of_day(m, n);
}

/// The text of an instant keeps all of it: instants of the same text are the same.
pub proof fn text_determines_the_instant(a: int, b: int)
    requires
        has_four_digit_year(a),
        has_four_digit_year(b),
        rfc3339_text(a) == rfc3339_text(b),
    ensures
        a == b,
{
    let (p, q) = ((a - YEAR_0) / 1_000_000_000, (b - YEAR_0) / 1_000_000_000);
    let (m, n) = ((a - YEAR_0) % 1_000_000_000, (b - YEAR_0) % 1_000_000_000);
    let (d, e) = (date_after(0, 1, p / 86_400), date_after(0, 1, q / 86_400));
    let (s, t) = (rfc3339_text(a), rfc3339_text(b));
    assert(date_time_text(d, p % 86_400) =~= s.take(19));
    assert(date_time_text(e, q % 86_400) =~= t.take(19));
    assert(fraction_text(m) =~= s.skip(19).drop_last());
    assert(fraction_text(n) =~= t.skip(19).drop_last());
    lemma_fraction_is_determined(m, n);
    lemma_date_is_determined(p / 86_400, q / 86_400);
    lemma_date_is_determined(q / 86_400, p / 86_400);
    lemma_date_time_is_determined(d, p % 86_400, e, q % 86_400);
}

/// The text of an instant ends with a `Z` and holds no other.
pub proof fn text_ends_with_its_zone(nanos: int)
    ensures
        rfc3339_text(nanos).len() > 0,
        rfc3339_text(nanos).last() == 'Z',
        !rfc3339_text(nanos).drop_last().contains('Z'),
{
    let t = rfc3339_text(nanos);
    let sub = (nanos - YEAR_0) % 1_000_000_000;
    let seconds = (nanos - YEAR_0) / 1_000_000_000;
    let x = date_time_text(date_after(0, 1, seconds / 86_400), seconds % 86_400);
    reveal(digit_at);
    lemma_trimmed(nine_digits(sub));
    assert(t.drop_last() =~= x + fraction_text(sub));
    assert forall|i: int| 0 <= i < t.len() - 1 implies t.drop_last()[i] != 'Z' by {
        if i < 19 {
            assert(t.drop_last()[i] == x[i]);
        } else {
            assert(t.drop_last()[i] == fraction_text(sub)[i - 19]);
            if i > 19 {
                assert(fraction_text(sub)[i - 19] == nine_digits(sub)[i - 20]);
            }
        }
    }
}

} // verus!
