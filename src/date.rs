use vstd::prelude::*;
use chrono::Datelike;
use crate::text::{has_prefix, string_of_chars, chars_of};

verus! {

/// The earliest year of the calendar range that dates can be shifted within.
pub const MIN_YEAR: i32 = -262143;

/// The latest year of the calendar range that dates can be shifted within.
pub const MAX_YEAR: i32 = 262142;

/// A date of the proleptic Gregorian calendar.
#[derive(Debug, Clone, Copy, PartialEq, Eq, Structural)]
pub struct CivilDate {
    pub year: i32,
    pub month: u32,
    pub day: u32,
}

/// A date as mathematical integers, which calendar arithmetic may carry
/// outside the representable range.
pub struct DateModel {
    pub year: int,
    pub month: int,
    pub day: int,
}

pub open spec fn is_leap_year(y: int) -> bool {
    y % 4 == 0 && (y % 100 != 0 || y % 400 == 0)
}

pub open spec fn days_in_month(y: int, m: int) -> int {
    if m == 2 {
        if is_leap_year(y) {
            29
        } else {
            28
        }
    } else if m == 4 || m == 6 || m == 9 || m == 11 {
        30
    } else {
        31
    }
}

pub open spec fn year_in_range(y: int) -> bool {
    MIN_YEAR <= y <= MAX_YEAR
}

pub open spec fn valid_date(d: DateModel) -> bool {
    &&& year_in_range(d.year)
    &&& 1 <= d.month <= 12
    &&& 1 <= d.day <= days_in_month(d.year, d.month)
}

/// The day after `d`.
pub open spec fn next_day(d: DateModel) -> DateModel {
    if d.day < days_in_month(d.year, d.month) {
        DateModel { day: d.day + 1, ..d }
    } else if d.month < 12 {
        DateModel { year: d.year, month: d.month + 1, day: 1 }
    } else {
        DateModel { year: d.year + 1, month: 1, day: 1 }
    }
}

/// The day before `d`.
pub open spec fn prev_day(d: DateModel) -> DateModel {
    if d.day > 1 {
        DateModel { day: d.day - 1, ..d }
    } else if d.month > 1 {
        DateModel { year: d.year, month: d.month - 1, day: days_in_month(d.year, d.month - 1) }
    } else {
        DateModel { year: d.year - 1, month: 12, day: 31 }
    }
}

/// The date `n` days after `d` (before it, for negative `n`).
pub open spec fn shift_days(d: DateModel, n: int) -> DateModel
    decreases (if n >= 0 { n } else { -n }),
{
    if n == 0 {
        d
    } else if n > 0 {
        shift_days(next_day(d), n - 1)
    } else {
        shift_days(prev_day(d), n + 1)
    }
}

/// The date `n` calendar months after `d`; a day past the end of the
/// resulting month becomes that month's last day.
pub open spec fn shift_months(d: DateModel, n: int) -> DateModel {
    let t = d.year * 12 + (d.month - 1) + n;
    let y = t / 12;
    let m = t % 12 + 1;
    DateModel { year: y, month: m, day: if d.day <= days_in_month(y, m) { d.day } else { days_in_month(y, m) } }
}

impl CivilDate {
    pub open spec fn view(self) -> DateModel {
        DateModel { year: self.year as int, month: self.month as int, day: self.day as int }
    }

    pub open spec fn wf(self) -> bool {
        valid_date(self.view())
    }

    /// Makes a date from year, month and day, if they name a day of the
    /// calendar range.
    pub fn from_ymd(year: i32, month: u32, day: u32) -> (r: Option<CivilDate>)
        ensures
            r is Some <==> valid_date(DateModel { year: year as int, month: month as int, day: day as int }),
            r matches Some(d) ==> d.year == year && d.month == month && d.day == day,
    {
        if year < MIN_YEAR || year > MAX_YEAR || month < 1 || month > 12 || day < 1 {
            return None;
        }
        if day > days_in_month_exec(year, month) {
            return None;
        }
        Some(CivilDate { year, month, day })
    }
}

pub fn is_leap_year_exec(y: i32) -> (r: bool)
    ensures
        r == is_leap_year(y as int),
{
    y % 4 == 0 && (y % 100 != 0 || y % 400 == 0)
}

pub fn days_in_month_exec(y: i32, m: u32) -> (r: u32)
    ensures
        r as int == days_in_month(y as int, m as int),
{
    if m == 2 {
        if is_leap_year_exec(y) {
            29
        } else {
            28
        }
    } else if m == 4 || m == 6 || m == 9 || m == 11 {
        30
    } else {
        31
    }
}

/// Relies on chrono's `Local::now` and `DateTime::date_naive`: today's date
/// on the local calendar, a valid date.
#[verifier::external_body]
fn local_today() -> (r: CivilDate)
    ensures
        r.wf(),
{
    let d = chrono::Local::now().date_naive();
    CivilDate { year: d.year(), month: d.month(), day: d.day() }
}

/// Today's date on the local calendar.
pub fn today() -> (r: CivilDate)
    ensures
        r.wf(),
{
    local_today()
}

/// Relies on chrono's `NaiveDate::checked_add_days`: the date `k` days later,
/// or `None` when it falls outside the calendar range.
#[verifier::external_body]
fn checked_add_days(d: CivilDate, k: u64) -> (r: Option<CivilDate>)
    requires
        d.wf(),
    ensures
        match r {
            Some(x) => x.wf() && x.view() == shift_days(d.view(), k as int),
            None => !year_in_range(shift_days(d.view(), k as int).year),
        },
{
    let nd = chrono::NaiveDate::from_ymd_opt(d.year, d.month, d.day).unwrap();
    nd.checked_add_days(chrono::Days::new(k)).map(|x| CivilDate { year: x.year(), month: x.month(), day: x.day() })
}

/// Relies on chrono's `NaiveDate::checked_sub_days`: the date `k` days
/// earlier, or `None` when it falls outside the calendar range.
#[verifier::external_body]
fn checked_sub_days(d: CivilDate, k: u64) -> (r: Option<CivilDate>)
    requires
        d.wf(),
    ensures
        match r {
            Some(x) => x.wf() && x.view() == shift_days(d.view(), -(k as int)),
            None => !year_in_range(shift_days(d.view(), -(k as int)).year),
        },
{
    let nd = chrono::NaiveDate::from_ymd_opt(d.year, d.month, d.day).unwrap();
    nd.checked_sub_days(chrono::Days::new(k)).map(|x| CivilDate { year: x.year(), month: x.month(), day: x.day() })
}

/// Relies on chrono's `NaiveDate::checked_add_months`: `k` calendar months
/// later, clamped to the last day of a shorter month, or `None` when the
/// result falls outside the calendar range.
#[verifier::external_body]
fn checked_add_months(d: CivilDate, k: u32) -> (r: Option<CivilDate>)
    requires
        d.wf(),
    ensures
        match r {
            Some(x) => x.wf() && x.view() == shift_months(d.view(), k as int),
            None => !year_in_range(shift_months(d.view(), k as int).year),
        },
{
    let nd = chrono::NaiveDate::from_ymd_opt(d.year, d.month, d.day).unwrap();
    nd.checked_add_months(chrono::Months::new(k)).map(|x| CivilDate { year: x.year(), month: x.month(), day: x.day() })
}

/// Relies on chrono's `NaiveDate::checked_sub_months`: `k` calendar months
/// earlier, clamped to the last day of a shorter month, or `None` when the
/// result falls outside the calendar range.
#[verifier::external_body]
fn checked_sub_months(d: CivilDate, k: u32) -> (r: Option<CivilDate>)
    requires
        d.wf(),
    ensures
        match r {
            Some(x) => x.wf() && x.view() == shift_months(d.view(), -(k as int)),
            None => !year_in_range(shift_months(d.view(), -(k as int)).year),
        },
{
    let nd = chrono::NaiveDate::from_ymd_opt(d.year, d.month, d.day).unwrap();
    nd.checked_sub_months(chrono::Months::new(k)).map(|x| CivilDate { year: x.year(), month: x.month(), day: x.day() })
}

/// The unit of a date-offset trigger.
#[derive(Debug, Clone, Copy, PartialEq, Eq, Structural)]
pub enum DateUnit {
    Days,
    Weeks,
    Months,
}

pub open spec fn abs(n: int) -> int {
    if n >= 0 {
        n
    } else {
        -n
    }
}

/// The date `n` units away from `d`. Days and weeks move by whole days,
/// months by calendar months. There is none when the result leaves the
/// calendar range, or when the count of days (of months) does not fit an
/// unsigned 64-bit (32-bit) integer, which lies far outside it.
pub open spec fn date_shift(d: DateModel, unit: DateUnit, n: int) -> Option<DateModel> {
    let r = match unit {
        DateUnit::Days => shift_days(d, n),
        DateUnit::Weeks => shift_days(d, 7 * n),
        DateUnit::Months => shift_months(d, n),
    };
    let fits = match unit {
        DateUnit::Days => abs(n) <= u64::MAX,
        DateUnit::Weeks => abs(7 * n) <= u64::MAX,
        DateUnit::Months => abs(n) <= u32::MAX,
    };
    if fits && year_in_range(r.year) {
        Some(r)
    } else {
        None
    }
}

/// Shifts a date by `n` units of `unit`.
pub fn shift_date(d: CivilDate, unit: DateUnit, n: i64) -> (r: Option<CivilDate>)
    requires
        d.wf(),
    ensures
        match r {
            Some(x) => x.wf() && date_shift(d.view(), unit, n as int) == Some(x.view()),
            None => date_shift(d.view(), unit, n as int) is None,
        },
{
    let wide: i128 = n as i128;
    let mag: u64 = if wide >= 0 {
        wide as u64
    } else {
        (-wide) as u64
    };
    assert(mag as int == abs(n as int));
    match unit {
        DateUnit::Days => {
            if n >= 0 {
                checked_add_days(d, mag)
            } else {
                checked_sub_days(d, mag)
            }
        },
        DateUnit::Weeks => {
            if mag > u64::MAX / 7 {
                assert(abs(7 * n as int) == 7 * abs(n as int));
                return None;
            }
            let k: u64 = mag * 7;
            assert(k as int == abs(7 * n as int));
            if n >= 0 {
                checked_add_days(d, k)
            } else {
                checked_sub_days(d, k)
            }
        },
        DateUnit::Months => {
            if mag > u32::MAX as u64 {
                return None;
            }
            if n >= 0 {
                checked_add_months(d, mag as u32)
            } else {
                checked_sub_months(d, mag as u32)
            }
        },
    }
}

pub open spec fn is_digit(c: char) -> bool {
    '0' <= c && c <= '9'
}

pub open spec fn digit_value(c: char) -> int {
    c as u32 as int - '0' as u32 as int
}

/// The value of a run of decimal digits, most significant first.
pub open spec fn digits_value(s: Seq<char>) -> int
    decreases s.len(),
{
    if s.len() == 0 {
        0
    } else {
        digits_value(s.drop_last()) * 10 + digit_value(s.last())
    }
}

pub open spec fn all_digits(s: Seq<char>) -> bool {
    forall|i: int| 0 <= i < s.len() ==> is_digit(#[trigger] s[i])
}

/// What follows an optional leading sign.
pub open spec fn unsigned_part(s: Seq<char>) -> Seq<char> {
    if s.len() > 0 && (s[0] == '-' || s[0] == '+') {
        s.skip(1)
    } else {
        s
    }
}

/// A signed decimal integer that fits 64 bits: an optional `-` or `+`, then
/// one or more digits and nothing else.
pub open spec fn parse_signed(s: Seq<char>) -> Option<int> {
    let body = unsigned_part(s);
    let v = if s.len() > 0 && s[0] == '-' { -digits_value(body) } else { digits_value(body) };
    if body.len() > 0 && all_digits(body) && i64::MIN <= v <= i64::MAX {
        Some(v)
    } else {
        None
    }
}

proof fn lemma_digits_value_nonneg(s: Seq<char>)
    requires
        forall|i: int| 0 <= i < s.len() ==> is_digit(#[trigger] s[i]),
    ensures
        digits_value(s) >= 0,
    decreases s.len(),
{
    if s.len() > 0 {
        assert(is_digit(s[s.len() - 1]));
        lemma_digits_value_nonneg(s.drop_last());
    }
}

/// Parses the characters of `buf` from `start` on as a signed decimal integer.
pub fn parse_signed_from(buf: &Vec<char>, start: usize) -> (r: Option<i64>)
    requires
        start <= buf@.len(),
    ensures
        match r {
            Some(v) => parse_signed(buf@.skip(start as int)) == Some(v as int),
            None => parse_signed(buf@.skip(start as int)) is None,
        },
{
    let ghost s = buf@.skip(start as int);
    let len = buf.len();
    let mut i: usize = start;
    let mut neg = false;
    if i < len && buf[i] == '-' {
        neg = true;
        i = i + 1;
    } else if i < len && buf[i] == '+' {
        i = i + 1;
    }
    let body_start: usize = i;
    let ghost body = buf@.subrange(body_start as int, len as int);
    assert(body =~= unsigned_part(s));
    if i == len {
        return None;
    }
    let cap: u128 = 0x1_0000_0000_0000_0000;
    let mut acc: u128 = 0;
    while i < len
        invariant
            len == buf@.len(),
            body_start <= i <= len,
            body == buf@.subrange(body_start as int, len as int),
            s == buf@.skip(start as int),
            body == unsigned_part(s),
            neg == (s.len() > 0 && s[0] == '-'),
            forall|j: int| body_start <= j < i ==> is_digit(#[trigger] buf@[j]),
            acc as int == (if digits_value(buf@.subrange(body_start as int, i as int)) < cap {
                digits_value(buf@.subrange(body_start as int, i as int))
            } else {
                cap as int
            }),
            cap == 0x1_0000_0000_0000_0000u128,
        decreases len - i,
    {
        let c = buf[i];
        if !(c >= '0' && c <= '9') {
            assert(body[i - body_start] == c);
            assert(!is_digit(body[i - body_start]));
            return None;
        }
        let ghost prev = buf@.subrange(body_start as int, i as int);
        let ghost next_s = buf@.subrange(body_start as int, i + 1);
        assert(next_s.drop_last() =~= prev);
        assert forall|j: int| 0 <= j < prev.len() implies is_digit(#[trigger] prev[j]) by {
            assert(prev[j] == buf@[body_start + j]);
        }
        proof {
            lemma_digits_value_nonneg(prev);
        }
        let ghost v = digits_value(prev);
        let d: u128 = (c as u32 - 48) as u128;
        let nxt: u128 = acc * 10 + d;
        proof {
            if v >= cap as int {
                assert(v * 10 >= cap as int * 10) by (nonlinear_arith)
                    requires
                        v >= cap as int,
                ;
            }
        }
        acc = if nxt > cap { cap } else { nxt };
        i = i + 1;
    }
    assert(buf@.subrange(body_start as int, len as int) == body);
    assert forall|j: int| 0 <= j < body.len() implies is_digit(#[trigger] body[j]) by {
        assert(body[j] == buf@[body_start + j]);
    }
    assert(all_digits(body));
    if neg {
        if acc > 0x8000_0000_0000_0000 {
            None
        } else {
            Some((-(acc as i128)) as i64)
        }
    } else {
        if acc > 0x7fff_ffff_ffff_ffff {
            None
        } else {
            Some(acc as i64)
        }
    }
}

pub open spec fn digit_char(d: int) -> char {
    if d == 0 {
        '0'
    } else if d == 1 {
        '1'
    } else if d == 2 {
        '2'
    } else if d == 3 {
        '3'
    } else if d == 4 {
        '4'
    } else if d == 5 {
        '5'
    } else if d == 6 {
        '6'
    } else if d == 7 {
        '7'
    } else if d == 8 {
        '8'
    } else {
        '9'
    }
}

/// The decimal digits of `n`, without leading zeros.
pub open spec fn decimal(n: nat) -> Seq<char>
    decreases n,
{
    if n < 10 {
        seq![digit_char(n as int)]
    } else {
        decimal(n / 10).push(digit_char((n % 10) as int))
    }
}

/// A date as month/day/year, month and day without zero padding and the
/// year as its last two digits.
pub open spec fn short_date_text(d: DateModel) -> Seq<char> {
    decimal(d.month as nat) + seq!['/'] + decimal(d.day as nat) + seq![
        '/',
        digit_char((d.year % 100) / 10),
        digit_char(d.year % 10),
    ]
}

fn digit_char_exec(d: u64) -> (r: char)
    requires
        d < 10,
    ensures
        r == digit_char(d as int),
{
    if d == 0 {
        '0'
    } else if d == 1 {
        '1'
    } else if d == 2 {
        '2'
    } else if d == 3 {
        '3'
    } else if d == 4 {
        '4'
    } else if d == 5 {
        '5'
    } else if d == 6 {
        '6'
    } else if d == 7 {
        '7'
    } else if d == 8 {
        '8'
    } else {
        '9'
    }
}

/// Appends the decimal digits of `n`.
pub fn push_decimal(n: u64, out: &mut Vec<char>)
    ensures
        final(out)@ == old(out)@ + decimal(n as nat),
    decreases n,
{
    if n >= 10 {
        push_decimal(n / 10, out);
        out.push(digit_char_exec(n % 10));
        assert(final(out)@ =~= old(out)@ + decimal(n as nat));
    } else {
        out.push(digit_char_exec(n));
        assert(final(out)@ =~= old(out)@ + decimal(n as nat));
    }
}

/// The text of `d` as month/day/two-digit year, without zero padding.
pub fn short_date(d: CivilDate) -> (r: Vec<char>)
    requires
        d.wf(),
    ensures
        r@ == short_date_text(d.view()),
{
    let mut out: Vec<char> = Vec::new();
    push_decimal(d.month as u64, &mut out);
    out.push('/');
    push_decimal(d.day as u64, &mut out);
    out.push('/');
    let shifted: u64 = (d.year as i64 + 400000) as u64;
    let yy: u64 = shifted % 100;
    proof {
        vstd::arithmetic::div_mod::lemma_mod_multiples_vanish(4000, d.year as int, 100);
        assert(100 * 4000 + d.year as int == shifted as int);
    }
    assert(yy as int == (d.year as int) % 100);
    out.push(digit_char_exec(yy / 10));
    out.push(digit_char_exec(yy % 10));
    assert(yy as int % 10 == (d.year as int) % 10);
    assert(out@ =~= short_date_text(d.view()));
    out
}

pub open spec fn starts_with(s: Seq<char>, p: Seq<char>) -> bool {
    p.len() <= s.len() && s.subrange(0, p.len() as int) == p
}

pub open spec fn days_prefix() -> Seq<char> {
    seq!['/', 'd', 'a', 'y', 's']
}

pub open spec fn weeks_prefix() -> Seq<char> {
    seq!['/', 'w', 'k', 's']
}

pub open spec fn months_prefix() -> Seq<char> {
    seq!['/', 'm', 'o']
}

/// The unit and count of a date-offset trigger: a fixed prefix followed by
/// a signed integer.
pub open spec fn date_trigger(buf: Seq<char>) -> Option<(DateUnit, int)> {
    if starts_with(buf, days_prefix()) {
        match parse_signed(buf.skip(5)) {
            Some(n) => Some((DateUnit::Days, n)),
            None => None,
        }
    } else if starts_with(buf, weeks_prefix()) {
        match parse_signed(buf.skip(4)) {
            Some(n) => Some((DateUnit::Weeks, n)),
            None => None,
        }
    } else if starts_with(buf, months_prefix()) {
        match parse_signed(buf.skip(3)) {
            Some(n) => Some((DateUnit::Months, n)),
            None => None,
        }
    } else {
        None
    }
}

/// The replacement text of a date-offset trigger typed on `today`.
pub open spec fn date_expansion_text(buf: Seq<char>, today: DateModel) -> Option<Seq<char>> {
    match date_trigger(buf) {
        Some((unit, n)) => match date_shift(today, unit, n) {
            Some(d) => Some(short_date_text(d)),
            None => None,
        },
        None => None,
    }
}

/// Recognises a date-offset trigger in `buf` and returns its replacement.
pub fn date_expansion(buf: &Vec<char>, today: CivilDate) -> (r: Option<Vec<char>>)
    requires
        today.wf(),
    ensures
        match r {
            Some(t) => date_expansion_text(buf@, today.view()) == Some(t@),
            None => date_expansion_text(buf@, today.view()) is None,
        },
{
    let days = vec!['/', 'd', 'a', 'y', 's'];
    let weeks = vec!['/', 'w', 'k', 's'];
    let months = vec!['/', 'm', 'o'];
    assert(days@ =~= days_prefix());
    assert(weeks@ =~= weeks_prefix());
    assert(months@ =~= months_prefix());
    let (unit, start) = if has_prefix(buf, &days) {
        (DateUnit::Days, 5)
    } else if has_prefix(buf, &weeks) {
        (DateUnit::Weeks, 4)
    } else if has_prefix(buf, &months) {
        (DateUnit::Months, 3)
    } else {
        return None;
    };
    let n = match parse_signed_from(buf, start) {
        Some(n) => n,
        None => return None,
    };
    match shift_date(today, unit, n) {
        Some(d) => Some(short_date(d)),
        None => None,
    }
}

/// The replacement text of a date-offset trigger such as `/days7`, `/wks-2`
/// or `/mo3`, computed from `today`; `None` for any other text.
pub fn handle_date_expansion(buffer: &str, today: CivilDate) -> (r: Option<String>)
    requires
        today.wf(),
    ensures
        match r {
            Some(t) => date_expansion_text(buffer@, today.view()) == Some(t@),
            None => date_expansion_text(buffer@, today.view()) is None,
        },
{
    let buf = chars_of(buffer);
    match date_expansion(&buf, today) {
        Some(t) => Some(string_of_chars(&t)),
        None => None,
    }
}

/// The date stamp typed for the fixed date trigger: today's short date
/// followed by a colon.
pub fn date_stamp(today: CivilDate) -> (r: Vec<char>)
    requires
        today.wf(),
    ensures
        r@ == short_date_text(today.view()).push(':'),
{
    let mut out = short_date(today);
    out.push(':');
    out
}

} // verus!
