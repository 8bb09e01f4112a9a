//! Calendar helpers: day numbers, civil dates and their texts.
//!
//! Day 0 is 1970-01-01 of the proleptic Gregorian calendar. Dates are texts
//! of the form `YYYY-MM-DD`, which sort as texts in calendar order.

use crate::text::{chars_of, lex_lt, padded_decimal, render_int, str_less, text_between};
use vstd::arithmetic::div_mod::lemma_fundamental_div_mod;
use vstd::arithmetic::div_mod::lemma_fundamental_div_mod_converse;
use vstd::prelude::*;

verus! {

/// The latest clock reading, in seconds since the epoch, whose year still has
/// four digits: the last second of the year 9999.
pub const MAX_CLOCK_SECS: u64 = 253_402_300_799;

/// The day numbers, to either side of day 0, whose year fits the `i32` that
/// `civil_from_days` returns.
pub const MAX_DAY: i64 = 700_000_000_000;

/// `a / b` rounded towards minus infinity.
pub fn floor_div(a: i64, b: i64) -> (q: i64)
    requires
        b > 0,
    ensures
        q == a as int / b as int,
{
    if a >= 0 {
        a / b
    } else {
        let n: i64 = -(a + 1);
        let t: i64 = n / b;
        proof {
            lemma_fundamental_div_mod(n as int, b as int);
            let r = n as int % b as int;
            assert(a as int == (-(t as int) - 1) * b + (b - 1 - r)) by (nonlinear_arith)
                requires
                    n as int == b * (t as int) + r,
                    n == -(a + 1),
            ;
            lemma_fundamental_div_mod_converse(a as int, b as int, -(t as int) - 1, b - 1 - r);
        }
        -t - 1
    }
}

/// The remainder of `a / b`, between 0 and `b - 1`.
pub fn floor_mod(a: i64, b: i64) -> (r: i64)
    requires
        b > 0,
    ensures
        r == a as int % b as int,
        0 <= r < b,
{
    if a >= 0 {
        a % b
    } else {
        let n: i64 = -(a + 1);
        let t: i64 = n % b;
        proof {
            lemma_fundamental_div_mod(n as int, b as int);
            let q = n as int / b as int;
            assert(a as int == (-q - 1) * b + (b - 1 - t)) by (nonlinear_arith)
                requires
                    n as int == b * q + t,
                    n == -(a + 1),
            ;
            lemma_fundamental_div_mod_converse(a as int, b as int, -q - 1, b - 1 - t);
        }
        b - 1 - t
    }
}

/// The day number of the civil date `y`-`m`-`d`.
pub open spec fn civil_days(y: int, m: int, d: int) -> int {
    let y2 = if m <= 2 {
        y - 1
    } else {
        y
    };
    let era = y2 / 400;
    let yoe = y2 % 400;
    let mp = if m > 2 {
        m - 3
    } else {
        m + 9
    };
    let doy = (153 * mp + 2) / 5 + d - 1;
    let doe = yoe * 365 + yoe / 4 - yoe / 100 + doy;
    era * 146097 + doe - 719468
}

/// The civil date, as year, month and day, of day number `z`.
pub open spec fn civil_of_day(z: int) -> (int, int, int) {
    let z2 = z + 719468;
    let era = z2 / 146097;
    let doe = z2 % 146097;
    let yoe = (doe - doe / 1460 + doe / 36524 - doe / 146096) / 365;
    let y = yoe + era * 400;
    let doy = doe - (365 * yoe + yoe / 4 - yoe / 100);
    let mp = (5 * doy + 2) / 153;
    let d = doy - (153 * mp + 2) / 5 + 1;
    let m = if mp < 10 {
        mp + 3
    } else {
        mp - 9
    };
    (
        if m <= 2 {
            y + 1
        } else {
            y
        },
        m,
        d,
    )
}

/// The day number of a civil date.
pub fn days_from_civil(y: i32, m: u32, d: u32) -> (days: i64)
    ensures
        days == civil_days(y as int, m as int, d as int),
{
    let y2: i64 = if m <= 2 {
        y as i64 - 1
    } else {
        y as i64
    };
    let era = floor_div(y2, 400);
    let yoe = floor_mod(y2, 400);
    let mp: i64 = if m > 2 {
        m as i64 - 3
    } else {
        m as i64 + 9
    };
    let doy: i64 = (153 * mp + 2) / 5 + d as i64 - 1;
    let doe: i64 = yoe * 365 + yoe / 4 - yoe / 100 + doy;
    era * 146097 + doe - 719468
}

/// The year of its era, the month and the day of the `doe`-th day of an
/// era of 400 years; the year is counted from March.
fn civil_in_era(doe: i64) -> (date: (i64, u32, u32))
    requires
        0 <= doe < 146097,
    ensures
        ({
            let yoe = (doe - doe / 1460 + doe / 36524 - doe / 146096) / 365;
            let doy = doe - (365 * yoe + yoe / 4 - yoe / 100);
            let mp = (5 * doy + 2) / 153;
            &&& date.0 == yoe
            &&& date.1 == (if mp < 10 {
                mp + 3
            } else {
                mp - 9
            })
            &&& date.2 == doy - (153 * mp + 2) / 5 + 1
        }),
        0 <= date.0 <= 399,
        1 <= date.1 <= 12,
        1 <= date.2 <= 31,
{
    let yoe: i64 = (doe - doe / 1460 + doe / 36524 - doe / 146096) / 365;
    assert(0 <= yoe <= 399);
    let doy: i64 = doe - (365 * yoe + yoe / 4 - yoe / 100);
    assert(0 <= doy <= 365);
    let mp: i64 = (5 * doy + 2) / 153;
    assert(0 <= mp <= 11);
    let d: i64 = doy - (153 * mp + 2) / 5 + 1;
    assert(1 <= d <= 31);
    let m: i64 = if mp < 10 {
        mp + 3
    } else {
        mp - 9
    };
    (yoe, m as u32, d as u32)
}

/// The civil date of a day number.
pub fn civil_from_days(z: i64) -> (date: (i32, u32, u32))
    requires
        -MAX_DAY <= z <= MAX_DAY,
    ensures
        (date.0 as int, date.1 as int, date.2 as int) == civil_of_day(z as int),
        1 <= date.1 <= 12,
        1 <= date.2 <= 31,
{
    let z2: i64 = z + 719468;
    let era = floor_div(z2, 146097);
    let doe = floor_mod(z2, 146097);
    assert(-4800000 <= era <= 4800000);
    let (yoe, m, d) = civil_in_era(doe);
    let y: i64 = yoe + era * 400;
    let year: i64 = if m <= 2 {
        y + 1
    } else {
        y
    };
    (year as i32, m, d)
}

/// `a / b` rounded towards zero, for a positive `b`.
pub open spec fn trunc_div(a: int, b: int) -> int {
    if a >= 0 {
        a / b
    } else {
        -((-a) / b)
    }
}

/// The text `YYYY-MM-DD` of a civil date.
pub open spec fn date_text(date: (int, int, int)) -> Seq<char> {
    padded_decimal(date.0, 4) + seq!['-'] + padded_decimal(date.1, 2) + seq!['-'] + padded_decimal(
        date.2,
        2,
    )
}

/// The date text of the day that holds second `epoch`.
pub open spec fn epoch_date_text(epoch: int) -> Seq<char> {
    date_text(civil_of_day(trunc_div(epoch, 86400)))
}

/// The date of the day that holds the second `epoch`, counted from the epoch.
pub fn epoch_to_date(epoch: i64) -> (r: String)
    requires
        -MAX_DAY <= epoch / 86400 <= MAX_DAY,
        -MAX_DAY * 86400 <= epoch <= MAX_DAY * 86400,
    ensures
        r@ == epoch_date_text(epoch as int),
{
    let days: i64 = if epoch >= 0 {
        epoch / 86400
    } else {
        -((-epoch) / 86400)
    };
    let (y, m, d) = civil_from_days(days);
    let mut out = render_int(y as i64, 4);
    out.push('-');
    let month = render_int(m as i64, 2);
    out.append(month.as_str());
    out.push('-');
    let day = render_int(d as i64, 2);
    out.append(day.as_str());
    assert(out@ =~= epoch_date_text(epoch as int));
    out
}

/// The date at clock reading `now_secs`.
pub fn today_str(now_secs: u64) -> (r: String)
    requires
        now_secs <= MAX_CLOCK_SECS,
    ensures
        r@ == epoch_date_text(now_secs as int),
{
    epoch_to_date(now_secs as i64)
}

/// The date `days` days after the clock reading `now_secs`; before it where
/// `days` is negative. The day asked for is one whose year fits the `i32`
/// that `civil_from_days` returns.
pub fn offset_days_str(now_secs: u64, days: i64) -> (r: String)
    requires
        now_secs <= MAX_CLOCK_SECS,
        -MAX_DAY * 86400 <= now_secs + days * 86400 <= MAX_DAY * 86400,
    ensures
        r@ == epoch_date_text(now_secs as int + days as int * 86400),
{
    epoch_to_date(now_secs as i64 + days * 86400)
}

/// One step of splitting: a separator opens a new part, any other character
/// goes to the end of the last part.
pub open spec fn split_step(parts: Seq<Seq<char>>, c: char, sep: char) -> Seq<Seq<char>> {
    if c == sep {
        parts.push(Seq::empty())
    } else if parts.len() > 0 {
        parts.update(parts.len() - 1, parts.last().push(c))
    } else {
        parts
    }
}

/// The parts of `s` between the separators `sep`. A text without separator
/// is its own single part, and two separators in a row hold an empty part.
pub open spec fn split_on(s: Seq<char>, sep: char) -> Seq<Seq<char>> {
    s.fold_left(seq![Seq::<char>::empty()], |parts: Seq<Seq<char>>, c: char| split_step(parts, c, sep))
}

/// The parts of `s` between the separators `sep`.
pub fn split_chars(s: &Vec<char>, sep: char) -> (r: Vec<Vec<char>>)
    ensures
        r.deep_view() == split_on(s@, sep),
{
    let mut parts: Vec<Vec<char>> = Vec::new();
    parts.push(Vec::new());
    let mut i: usize = 0;
    assert(parts.deep_view() =~= split_on(s@.take(0), sep)) by {
        assert(parts@[0].deep_view() =~= Seq::<char>::empty());
    }
    while i < s.len()
        invariant
            i <= s.len(),
            parts.len() > 0,
            parts.deep_view() == split_on(s@.take(i as int), sep),
        decreases s.len() - i,
    {
        let ghost before = parts.deep_view();
        proof {
            assert(s@.take(i + 1).drop_last() == s@.take(i as int));
            assert(s@.take(i + 1).last() == s@[i as int]);
        }
        if s[i] == sep {
            parts.push(Vec::new());
            proof {
                assert(parts@[parts.len() - 1].deep_view() =~= Seq::<char>::empty());
                assert(parts.deep_view() =~= before.push(Seq::empty()));
            }
        } else {
            let mut last = parts.pop().unwrap();
            let ghost last_before = last.deep_view();
            last.push(s[i]);
            assert(last.deep_view() =~= last_before.push(s@[i as int]));
            parts.push(last);
            assert(parts.deep_view() =~= before.update(before.len() - 1, before.last().push(s@[i as int])));
        }
        i += 1;
    }
    assert(s@.take(s.len() as int) == s@);
    parts
}

/// The value of a decimal digit.
pub open spec fn digit_value(c: char) -> Option<int> {
    if c == '0' {
        Some(0)
    } else if c == '1' {
        Some(1)
    } else if c == '2' {
        Some(2)
    } else if c == '3' {
        Some(3)
    } else if c == '4' {
        Some(4)
    } else if c == '5' {
        Some(5)
    } else if c == '6' {
        Some(6)
    } else if c == '7' {
        Some(7)
    } else if c == '8' {
        Some(8)
    } else if c == '9' {
        Some(9)
    } else {
        None
    }
}

/// The number that a non-empty run of decimal digits writes.
pub open spec fn digits_value(s: Seq<char>) -> Option<int>
    decreases s.len(),
{
    if s.len() == 0 {
        None
    } else {
        match digit_value(s.last()) {
            None => None,
            Some(d) => if s.len() == 1 {
                Some(d)
            } else {
                match digits_value(s.drop_last()) {
                    Some(v) => Some(v * 10 + d),
                    None => None,
                }
            },
        }
    }
}

/// The number that `s` writes: digits, with an optional sign in front (a
/// minus sign only where `signed`).
pub open spec fn number_value(s: Seq<char>, signed: bool) -> Option<int> {
    if s.len() > 0 && s[0] == '+' {
        digits_value(s.drop_first())
    } else if signed && s.len() > 0 && s[0] == '-' {
        match digits_value(s.drop_first()) {
            Some(v) => Some(-v),
            None => None,
        }
    } else {
        digits_value(s)
    }
}

fn digit_of_char(c: char) -> (r: Option<i64>)
    ensures
        match r {
            Some(d) => digit_value(c) == Some(d as int) && 0 <= d <= 9,
            None => digit_value(c) is None,
        },
{
    if c == '0' {
        Some(0)
    } else if c == '1' {
        Some(1)
    } else if c == '2' {
        Some(2)
    } else if c == '3' {
        Some(3)
    } else if c == '4' {
        Some(4)
    } else if c == '5' {
        Some(5)
    } else if c == '6' {
        Some(6)
    } else if c == '7' {
        Some(7)
    } else if c == '8' {
        Some(8)
    } else if c == '9' {
        Some(9)
    } else {
        None
    }
}

/// The largest magnitude that [`read_number`] tells from "too large".
pub const NUMBER_LIMIT: i64 = 4_294_967_295;

/// What the reading loop knows of the digits read so far: their value is
/// `acc`, or is beyond the limit where `too_large` is set.
pub open spec fn tracks(value: Option<int>, acc: int, too_large: bool) -> bool {
    match value {
        Some(v) => if too_large {
            v > NUMBER_LIMIT
        } else {
            v == acc
        },
        None => false,
    }
}

/// The number that `s[from..]` writes in digits, as long as it is at most
/// `NUMBER_LIMIT`.
fn read_digits(s: &Vec<char>, from: usize) -> (r: Option<i64>)
    requires
        from <= s.len(),
    ensures
        match r {
            Some(v) => digits_value(s@.skip(from as int)) == Some(v as int) && 0 <= v
                <= NUMBER_LIMIT,
            None => match digits_value(s@.skip(from as int)) {
                Some(v) => v > NUMBER_LIMIT,
                None => true,
            },
        },
{
    if from == s.len() {
        return None;
    }
    let ghost body = s@.skip(from as int);
    let mut acc: i64 = 0;
    let mut too_large = false;
    let mut i: usize = from;
    while i < s.len()
        invariant
            from <= i <= s.len(),
            body == s@.skip(from as int),
            0 <= acc <= NUMBER_LIMIT,
            i == from ==> acc == 0 && !too_large,
            i > from ==> tracks(digits_value(body.take(i - from)), acc as int, too_large),
        decreases s.len() - i,
    {
        proof {
            let next = body.take(i + 1 - from);
            assert(next.drop_last() == body.take(i - from));
            assert(next.last() == s@[i as int]);
        }
        match digit_of_char(s[i]) {
            None => {
                proof {
                    lemma_digits_value_prefix(body, i + 1 - from);
                }
                return None;
            },
            Some(d) => {
                if !too_large {
                    let v = acc * 10 + d;
                    if v > NUMBER_LIMIT {
                        too_large = true;
                    } else {
                        acc = v;
                    }
                }
                proof {
                    let next = body.take(i + 1 - from);
                    if i == from {
                        assert(next.len() == 1);
                        assert(digits_value(next) == Some(d as int));
                    } else {
                        assert(next.len() > 1);
                        let prev = digits_value(next.drop_last());
                        assert(prev is Some);
                        assert(digits_value(next) == Some(prev->Some_0 * 10 + d));
                    }
                    assert(tracks(digits_value(next), acc as int, too_large));
                }
            },
        }
        i += 1;
    }
    assert(body.take(s.len() - from) == body);
    if too_large {
        None
    } else {
        Some(acc)
    }
}

/// A text with a prefix that is no run of digits is none either.
pub proof fn lemma_digits_value_prefix(s: Seq<char>, n: int)
    requires
        0 < n <= s.len(),
        digits_value(s.take(n)) is None,
    ensures
        digits_value(s) is None,
    decreases s.len() - n,
{
    if n < s.len() {
        assert(s.take(n + 1).drop_last() == s.take(n));
        lemma_digits_value_prefix(s, n + 1);
    } else {
        assert(s.take(n) == s);
    }
}

/// The number that `s` writes, where it lies between `-NUMBER_LIMIT` and
/// `NUMBER_LIMIT`.
pub fn read_number(s: &Vec<char>, signed: bool) -> (r: Option<i64>)
    ensures
        match r {
            Some(v) => number_value(s@, signed) == Some(v as int) && -NUMBER_LIMIT <= v
                <= NUMBER_LIMIT,
            None => match number_value(s@, signed) {
                Some(v) => v > NUMBER_LIMIT || v < -NUMBER_LIMIT,
                None => true,
            },
        },
{
    if s.len() > 0 && s[0] == '+' {
        assert(s@.skip(1) == s@.drop_first());
        read_digits(s, 1)
    } else if signed && s.len() > 0 && s[0] == '-' {
        assert(s@.skip(1) == s@.drop_first());
        match read_digits(s, 1) {
            Some(v) => Some(-v),
            None => None,
        }
    } else {
        assert(s@.skip(0) == s@);
        read_digits(s, 0)
    }
}

/// The year, month and day that the text `s` writes: three numbers between
/// hyphens, the year one that fits `i32` and the others ones that fit `u32`.
pub open spec fn parsed_date(s: Seq<char>) -> Option<(int, int, int)> {
    let parts = split_on(s, '-');
    if parts.len() != 3 {
        None
    } else {
        match (number_value(parts[0], true), number_value(parts[1], false), number_value(
            parts[2],
            false,
        )) {
            (Some(y), Some(m), Some(d)) => if -2147483648 <= y <= 2147483647 && m <= 4294967295
                && d <= 4294967295 {
                Some((y, m, d))
            } else {
                None
            },
            _ => None,
        }
    }
}

/// Reads a date of the form `YYYY-MM-DD`. The numbers are not checked against
/// the calendar.
pub fn parse_date(s: &str) -> (r: Option<(i32, u32, u32)>)
    ensures
        match r {
            Some(date) => parsed_date(s@) == Some((date.0 as int, date.1 as int, date.2 as int)),
            None => parsed_date(s@) is None,
        },
{
    let chars = chars_of(s);
    let parts = split_chars(&chars, '-');
    if parts.len() != 3 {
        return None;
    }
    proof {
        assert(parts.deep_view()[0] == parts@[0]@);
        assert(parts.deep_view()[1] == parts@[1]@);
        assert(parts.deep_view()[2] == parts@[2]@);
    }
    let y = read_number(&parts[0], true);
    let m = read_number(&parts[1], false);
    let d = read_number(&parts[2], false);
    match (y, m, d) {
        (Some(y), Some(m), Some(d)) => {
            if -2147483648 <= y && y <= 2147483647 && m >= 0 && d >= 0 {
                Some((y as i32, m as u32, d as u32))
            } else {
                proof {
                    lemma_digits_value_nonneg(parts@[1]@);
                    lemma_digits_value_nonneg(parts@[2]@);
                    lemma_digits_value_nonneg(parts@[1]@.drop_first());
                    lemma_digits_value_nonneg(parts@[2]@.drop_first());
                }
                None
            }
        },
        _ => {
            proof {
                lemma_digits_value_nonneg(parts@[1]@);
                lemma_digits_value_nonneg(parts@[2]@);
                lemma_digits_value_nonneg(parts@[1]@.drop_first());
                lemma_digits_value_nonneg(parts@[2]@.drop_first());
            }
            None
        },
    }
}

/// A run of digits writes no negative number.
pub proof fn lemma_digits_value_nonneg(s: Seq<char>)
    ensures
        match digits_value(s) {
            Some(v) => v >= 0,
            None => true,
        },
    decreases s.len(),
{
    if s.len() > 1 {
        lemma_digits_value_nonneg(s.drop_last());
    }
}

/// The days from date `a` to date `b`; 999 where either is no date.
pub open spec fn days_apart(a: Seq<char>, b: Seq<char>) -> int {
    match (parsed_date(a), parsed_date(b)) {
        (Some(da), Some(db)) => civil_days(db.0, db.1, db.2) - civil_days(da.0, da.1, da.2),
        _ => 999,
    }
}

/// The days from date `a` to date `b`; 999 where either cannot be read.
pub fn days_between(a: &str, b: &str) -> (r: i64)
    ensures
        r == days_apart(a@, b@),
{
    match (parse_date(a), parse_date(b)) {
        (Some(da), Some(db)) => days_from_civil(db.0, db.1, db.2) - days_from_civil(
            da.0,
            da.1,
            da.2,
        ),
        _ => 999,
    }
}

/// The name of the weekday numbered `w`, Sunday being 0.
pub open spec fn weekday_text(w: int) -> Seq<char> {
    if w == 0 {
        "Sun"@
    } else if w == 1 {
        "Mon"@
    } else if w == 2 {
        "Tue"@
    } else if w == 3 {
        "Wed"@
    } else if w == 4 {
        "Thu"@
    } else if w == 5 {
        "Fri"@
    } else {
        "Sat"@
    }
}

/// The weekday of day number `days`, Sunday being 0: day 0 was a Thursday.
pub open spec fn weekday_of(days: int) -> int {
    (days % 7 + 4) % 7
}

/// The short weekday name of the date `s`; `s` itself where it is no date.
pub open spec fn weekday_name_text(s: Seq<char>) -> Seq<char> {
    match parsed_date(s) {
        Some(date) => weekday_text(weekday_of(civil_days(date.0, date.1, date.2))),
        None => s,
    }
}

/// The short weekday name of a date; the text itself where it cannot be read.
pub fn weekday_name(date_str: &str) -> (r: String)
    ensures
        r@ == weekday_name_text(date_str@),
{
    match parse_date(date_str) {
        None => date_str.to_owned(),
        Some((y, m, d)) => {
            let days = days_from_civil(y, m, d);
            let w = floor_mod(floor_mod(days, 7) + 4, 7);
            let name = if w == 0 {
                "Sun"
            } else if w == 1 {
                "Mon"
            } else if w == 2 {
                "Tue"
            } else if w == 3 {
                "Wed"
            } else if w == 4 {
                "Thu"
            } else if w == 5 {
                "Fri"
            } else {
                "Sat"
            };
            name.to_owned()
        },
    }
}

/// The short name of month `m`: empty for 0, `???` for what is no month.
pub open spec fn month_text(m: int) -> Seq<char> {
    if m == 0 {
        ""@
    } else if m == 1 {
        "Jan"@
    } else if m == 2 {
        "Feb"@
    } else if m == 3 {
        "Mar"@
    } else if m == 4 {
        "Apr"@
    } else if m == 5 {
        "May"@
    } else if m == 6 {
        "Jun"@
    } else if m == 7 {
        "Jul"@
    } else if m == 8 {
        "Aug"@
    } else if m == 9 {
        "Sep"@
    } else if m == 10 {
        "Oct"@
    } else if m == 11 {
        "Nov"@
    } else if m == 12 {
        "Dec"@
    } else {
        "???"@
    }
}

/// Month name, a space and the day of the date `s`; `s` itself where it is
/// no date.
pub open spec fn short_date_text(s: Seq<char>) -> Seq<char> {
    match parsed_date(s) {
        Some(date) => month_text(date.1) + seq![' '] + padded_decimal(date.2, 0),
        None => s,
    }
}

fn month_name(m: u32) -> (r: &'static str)
    ensures
        r@ == month_text(m as int),
{
    if m == 0 {
        ""
    } else if m == 1 {
        "Jan"
    } else if m == 2 {
        "Feb"
    } else if m == 3 {
        "Mar"
    } else if m == 4 {
        "Apr"
    } else if m == 5 {
        "May"
    } else if m == 6 {
        "Jun"
    } else if m == 7 {
        "Jul"
    } else if m == 8 {
        "Aug"
    } else if m == 9 {
        "Sep"
    } else if m == 10 {
        "Oct"
    } else if m == 11 {
        "Nov"
    } else if m == 12 {
        "Dec"
    } else {
        "???"
    }
}

/// A date as month name and day, such as `Jan 8`; the text itself where it
/// cannot be read.
pub fn format_short_date(date_str: &str) -> (r: String)
    ensures
        r@ == short_date_text(date_str@),
{
    match parse_date(date_str) {
        None => date_str.to_owned(),
        Some((_, m, d)) => {
            let mut out = month_name(m).to_owned();
            out.push(' ');
            let day = render_int(d as i64, 0);
            out.append(day.as_str());
            assert(out@ =~= short_date_text(date_str@));
            out
        },
    }
}

/// Date and minute of a timestamp: its first ten characters, a space, and
/// its twelfth to sixteenth. A shorter text stays as it is.
pub open spec fn comment_time_text(t: Seq<char>) -> Seq<char> {
    if t.len() < 16 {
        t
    } else {
        t.subrange(0, 10) + seq![' '] + t.subrange(11, 16)
    }
}

/// The date and the time of day of a timestamp such as
/// `2025-01-08T09:30:00Z`, as `2025-01-08 09:30`.
pub fn format_comment_time(timestamp: &str) -> (r: String)
    ensures
        r@ == comment_time_text(timestamp@),
{
    let chars = chars_of(timestamp);
    if chars.len() < 16 {
        return timestamp.to_owned();
    }
    let mut out = text_between(&chars, 0, 10);
    out.push(' ');
    let time = text_between(&chars, 11, 16);
    out.append(time.as_str());
    assert(out@ =~= comment_time_text(timestamp@));
    out
}

/// How a due date is to be shown.
#[derive(Clone, Copy, Debug, PartialEq, Eq, Structural)]
pub enum DueTone {
    Today,
    Upcoming,
    Overdue,
    Future,
}

/// A due date made ready for display.
pub struct FormattedDue {
    pub text: String,
    pub tone: DueTone,
}

/// The text that shows the due date `date` on a day whose date is `today`,
/// with `tomorrow` and `yesterday` the days next to it.
pub open spec fn due_text(date: Seq<char>, today: Seq<char>, tomorrow: Seq<char>, yesterday: Seq<
    char,
>) -> Seq<char> {
    if date == today {
        "today"@
    } else if date == tomorrow {
        "tomorrow"@
    } else if date == yesterday {
        "yesterday"@
    } else if lex_lt(date, today) {
        short_date_text(date)
    } else if days_apart(today, date) <= 6 {
        weekday_name_text(date)
    } else {
        short_date_text(date)
    }
}

/// The tone that goes with [`due_text`].
pub open spec fn due_tone(date: Seq<char>, today: Seq<char>, tomorrow: Seq<char>, yesterday: Seq<
    char,
>) -> DueTone {
    if date == today {
        DueTone::Today
    } else if date == tomorrow {
        DueTone::Upcoming
    } else if date == yesterday {
        DueTone::Overdue
    } else if lex_lt(date, today) {
        DueTone::Overdue
    } else if days_apart(today, date) <= 6 {
        DueTone::Upcoming
    } else {
        DueTone::Future
    }
}

/// Makes the due date `date_str` ready for display at clock reading
/// `now_secs`: today, tomorrow and yesterday by name, a past date as month
/// and day, a date within six days as its weekday, a later one as month and
/// day.
pub fn format_due(date_str: &str, now_secs: u64) -> (r: FormattedDue)
    requires
        now_secs <= MAX_CLOCK_SECS,
    ensures
        r.text@ == due_text(
            date_str@,
            epoch_date_text(now_secs as int),
            epoch_date_text(now_secs as int + 86400),
            epoch_date_text(now_secs as int - 86400),
        ),
        r.tone == due_tone(
            date_str@,
            epoch_date_text(now_secs as int),
            epoch_date_text(now_secs as int + 86400),
            epoch_date_text(now_secs as int - 86400),
        ),
{
    let today = today_str(now_secs);
    let tomorrow = offset_days_str(now_secs, 1);
    let yesterday = offset_days_str(now_secs, -1);
    if date_str.eq(today.as_str()) {
        return FormattedDue { text: "today".to_owned(), tone: DueTone::Today };
    }
    if date_str.eq(tomorrow.as_str()) {
        return FormattedDue { text: "tomorrow".to_owned(), tone: DueTone::Upcoming };
    }
    if date_str.eq(yesterday.as_str()) {
        return FormattedDue { text: "yesterday".to_owned(), tone: DueTone::Overdue };
    }
    if str_less(date_str, today.as_str()) {
        return FormattedDue { text: format_short_date(date_str), tone: DueTone::Overdue };
    }
    let days_away = days_between(today.as_str(), date_str);
    if days_away <= 6 {
        return FormattedDue { text: weekday_name(date_str), tone: DueTone::Upcoming };
    }
    FormattedDue { text: format_short_date(date_str), tone: DueTone::Future }
}

} // verus!
