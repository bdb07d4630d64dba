//! Calendar dates typed as `YYYY-MM-DD`.
use vstd::prelude::*;
use crate::text::{
    all_digits, append_str, chars_of, digits_value, is_digit, is_digit_char, is_white_space,
    lemma_digit_text_order, lemma_digits_value_nonneg, lemma_text_less_concat, lemma_text_less_total,
    string_of, text_less, trim, trimmed,
};

verus! {

/// Gregorian leap years: divisible by 4, except centuries not divisible by 400.
pub open spec fn leap_year(year: int) -> bool {
    year % 4 == 0 && (year % 100 != 0 || year % 400 == 0)
}

/// The number of days in `month` of `year`, or `None` for a month outside 1 to 12.
pub open spec fn month_length(year: int, month: int) -> Option<u32> {
    if month == 1 || month == 3 || month == 5 || month == 7 || month == 8 || month == 10 || month == 12 {
        Some(31)
    } else if month == 4 || month == 6 || month == 9 || month == 11 {
        Some(30)
    } else if month == 2 && leap_year(year) {
        Some(29)
    } else if month == 2 {
        Some(28)
    } else {
        None
    }
}

pub fn is_leap_year(year: i32) -> (b: bool)
    ensures
        b == leap_year(year as int),
{
    year % 4 == 0 && (year % 100 != 0 || year % 400 == 0)
}

pub fn days_in_month(year: i32, month: u32) -> (r: Option<u32>)
    ensures
        r == month_length(year as int, month as int),
{
    match month {
        1 | 3 | 5 | 7 | 8 | 10 | 12 => Some(31),
        4 | 6 | 9 | 11 => Some(30),
        2 if is_leap_year(year) => Some(29),
        2 => Some(28),
        _ => None,
    }
}

/// Why a typed date was refused.
#[derive(Debug, Clone, Copy, PartialEq, Eq, Structural)]
pub enum DateError {
    Shape,
    Year,
    Month,
    Day,
}

/// Ten characters: four digits, a dash, two digits, a dash, two digits.
pub open spec fn iso_shape(d: Seq<char>) -> bool {
    &&& d.len() == 10
    &&& forall|i: int| #![trigger d[i]] 0 <= i < 10 ==> if i == 4 || i == 7 { d[i] == '-' } else { is_digit(d[i]) }
}

pub open spec fn date_year(d: Seq<char>) -> int {
    digits_value(d.subrange(0, 4))
}

pub open spec fn date_month(d: Seq<char>) -> int {
    digits_value(d.subrange(5, 7))
}

pub open spec fn date_day(d: Seq<char>) -> int {
    digits_value(d.subrange(8, 10))
}

/// The date that `text` holds once trimmed, or why it is refused.
pub open spec fn iso_date(text: Seq<char>) -> Result<Seq<char>, DateError> {
    let d = trim(text);
    if !iso_shape(d) {
        Err(DateError::Shape)
    } else if date_year(d) < 1 {
        Err(DateError::Year)
    } else {
        match month_length(date_year(d), date_month(d)) {
            None => Err(DateError::Month),
            Some(max_day) => if date_day(d) == 0 || date_day(d) > max_day {
                Err(DateError::Day)
            } else {
                Ok(d)
            },
        }
    }
}

pub open spec fn date_message(field: Seq<char>, e: DateError) -> Seq<char> {
    field + match e {
        DateError::Shape => " must use YYYY-MM-DD."@,
        DateError::Year => " contains an invalid year."@,
        DateError::Month => " contains an invalid month."@,
        DateError::Day => " contains an invalid day."@,
    }
}

/// The value of the digits `v[lo..hi]` (at most four of them).
fn small_number(v: &[char], lo: usize, hi: usize) -> (r: u32)
    requires
        lo <= hi <= v.len(),
        hi - lo <= 4,
        forall|i: int| lo <= i < hi ==> is_digit(#[trigger] v@[i]),
    ensures
        r == digits_value(v@.subrange(lo as int, hi as int)),
        r < 10000,
{
    let ghost s = v@.subrange(lo as int, hi as int);
    let mut acc: u32 = 0;
    let mut i = lo;
    while i < hi
        invariant
            lo <= i <= hi <= v.len(),
            hi - lo <= 4,
            s == v@.subrange(lo as int, hi as int),
            forall|j: int| lo <= j < hi ==> is_digit(#[trigger] v@[j]),
            acc == digits_value(s.take(i - lo)),
            acc < pow10(i - lo),
        decreases hi - i,
    {
        assert(is_digit(v@[i as int]));
        assert(s.take(i - lo + 1).drop_last() == s.take(i - lo));
        assert(s.take(i - lo + 1).last() == v@[i as int]);
        let d = v[i] as u32 - 48;
        acc = acc * 10 + d;
        i += 1;
    }
    assert(s.take(hi - lo) == s);
    acc
}

spec fn pow10(n: int) -> int {
    if n <= 0 { 1 } else if n == 1 { 10 } else if n == 2 { 100 } else if n == 3 { 1000 } else { 10000 }
}

/// Checks a typed date.
pub fn check_iso_date(text: &str) -> (r: Result<Vec<char>, DateError>)
    ensures
        match iso_date(text@) {
            Ok(d) => r matches Ok(v) && v@ == d,
            Err(e) => r == Err::<Vec<char>, DateError>(e),
        },
{
    let d = trimmed(text);
    if d.len() != 10 || d[4] != '-' || d[7] != '-' {
        assert(d@.len() != 10 || d@[4] != '-' || d@[7] != '-');
        assert(!iso_shape(d@));
        return Err(DateError::Shape);
    }
    let mut i: usize = 0;
    while i < 10
        invariant
            i <= 10,
            d@ == trim(text@),
            d.len() == 10,
            d@[4] == '-',
            d@[7] == '-',
            forall|j: int| 0 <= j < i && j != 4 && j != 7 ==> is_digit(#[trigger] d@[j]),
        decreases 10 - i,
    {
        if i != 4 && i != 7 && !is_digit_char(d[i]) {
            assert(!is_digit(d@[i as int]));
            assert(!iso_shape(d@));
            return Err(DateError::Shape);
        }
        i += 1;
    }
    assert(iso_shape(d@));
    let year = small_number(&d, 0, 4);
    let month = small_number(&d, 5, 7);
    let day = small_number(&d, 8, 10);
    if year < 1 {
        return Err(DateError::Year);
    }
    match days_in_month(year as i32, month) {
        None => Err(DateError::Month),
        Some(max_day) => if day == 0 || day > max_day {
            Err(DateError::Day)
        } else {
            Ok(d)
        },
    }
}

/// Checks a typed `YYYY-MM-DD` date for the field named `field_name`,
/// giving the trimmed date or the sentence that explains the refusal.
pub fn validate_iso_date(text: &str, field_name: &str) -> (r: Result<String, String>)
    ensures
        match iso_date(text@) {
            Ok(d) => r matches Ok(s) && s@ == d,
            Err(e) => r matches Err(m) && m@ == date_message(field_name@, e),
        },
{
    match check_iso_date(text) {
        Ok(d) => Ok(string_of(&d)),
        Err(e) => {
            let mut out = chars_of(field_name);
            let suffix = match e {
                DateError::Shape => " must use YYYY-MM-DD.",
                DateError::Year => " contains an invalid year.",
                DateError::Month => " contains an invalid month.",
                DateError::Day => " contains an invalid day.",
            };
            append_str(&mut out, suffix);
            Err(string_of(&out))
        },
    }
}

// ---------------------------------------------------------------------
// Laws
// ---------------------------------------------------------------------

/// A month has a length exactly when it is 1 to 12, and that length is 28 to 31.
pub proof fn lemma_month_length_range(year: int, month: int)
    ensures
        month_length(year, month) is Some <==> 1 <= month <= 12,
        month_length(year, month) matches Some(n) ==> 28 <= n <= 31,
{
}

/// The Gregorian month lengths: thirty days hath September, April, June
/// and November; February has 28, or 29 in a leap year; all the rest have 31.
pub proof fn lemma_gregorian_month_lengths(year: int)
    ensures
        month_length(year, 1) == Some(31u32),
        month_length(year, 2) == Some(if leap_year(year) { 29u32 } else { 28u32 }),
        month_length(year, 3) == Some(31u32),
        month_length(year, 4) == Some(30u32),
        month_length(year, 5) == Some(31u32),
        month_length(year, 6) == Some(30u32),
        month_length(year, 7) == Some(31u32),
        month_length(year, 8) == Some(31u32),
        month_length(year, 9) == Some(30u32),
        month_length(year, 10) == Some(31u32),
        month_length(year, 11) == Some(30u32),
        month_length(year, 12) == Some(31u32),
        forall|m: int| m < 1 || m > 12 ==> #[trigger] month_length(year, m) is None,
{
}

/// A date is accepted exactly when its day exists in its month: day 31 of
/// a thirty-day month, or day 30 of February, is refused as an invalid day.
pub proof fn lemma_day_past_month_end_refused(text: Seq<char>)
    requires
        iso_shape(trim(text)),
        date_year(trim(text)) >= 1,
        1 <= date_month(trim(text)) <= 12,
    ensures
        ({
            let d = trim(text);
            let days: int = if date_month(d) == 2 {
                if leap_year(date_year(d)) { 29 } else { 28 }
            } else if date_month(d) == 4 || date_month(d) == 6 || date_month(d) == 9
                || date_month(d) == 11 {
                30
            } else {
                31
            };
            &&& (1 <= date_day(d) <= days) ==> iso_date(text) == Ok::<Seq<char>, DateError>(d)
            &&& (date_day(d) == 0 || date_day(d) > days) ==> iso_date(text) == Err::<Seq<char>, DateError>(DateError::Day)
        }),
{
    lemma_gregorian_month_lengths(date_year(trim(text)));
}

/// February has 29 days exactly in leap years.
pub proof fn lemma_february(year: int)
    ensures
        month_length(year, 2) == (if leap_year(year) { Some(29u32) } else { Some(28u32) }),
{
}

/// The leap-year rule repeats every 400 years.
pub proof fn lemma_leap_year_period(year: int)
    ensures
        leap_year(year + 400) == leap_year(year),
{
    vstd::arithmetic::div_mod::lemma_mod_multiples_vanish(100, year, 4);
    vstd::arithmetic::div_mod::lemma_mod_multiples_vanish(4, year, 100);
    vstd::arithmetic::div_mod::lemma_mod_multiples_vanish(1, year, 400);
    assert(4 * 100 + year == year + 400);
    assert(100 * 4 + year == year + 400);
    assert(400 * 1 + year == year + 400);
}

/// An accepted date is a well formed calendar date, and checking it a
/// second time accepts it unchanged.
pub proof fn lemma_accepted_date_is_stable(text: Seq<char>)
    requires
        iso_date(text) is Ok,
    ensures
        ({
            let d = iso_date(text)->Ok_0;
            &&& iso_shape(d)
            &&& date_year(d) >= 1
            &&& 1 <= date_month(d) <= 12
            &&& 1 <= date_day(d) <= 31
            &&& iso_date(d) == Ok::<Seq<char>, DateError>(d)
        }),
{
    let d = iso_date(text)->Ok_0;
    assert(d == trim(text));
    assert(iso_shape(d));
    assert(is_digit(d[0]));
    assert(is_digit(d[9]));
    assert(!is_white_space(d[0]));
    assert(!is_white_space(d.last()));
    assert(crate::text::trim_start(d) == d);
    assert(crate::text::trim_end(d) == d);
    assert(trim(d) == d);
    assert(date_year(d) >= 1);
    assert(month_length(date_year(d), date_month(d)) is Some);
    assert(1 <= date_month(d) <= 12);
    let m = month_length(date_year(d), date_month(d))->Some_0;
    assert(m <= 31);
    assert(date_day(d) != 0 && date_day(d) <= m);
    assert forall|i: int| 0 <= i < 2 implies is_digit(#[trigger] d.subrange(8, 10)[i]) by {
        assert(d.subrange(8, 10)[i] == d[8 + i]);
    }
    crate::text::lemma_digits_value_nonneg(d.subrange(8, 10));
    assert(1 <= date_day(d) <= 31);
    assert(iso_date(d) == Ok::<Seq<char>, DateError>(d));
}


/// Where a date falls in time: year, then month, then day.
pub open spec fn date_key(d: Seq<char>) -> int {
    date_year(d) * 10000 + date_month(d) * 100 + date_day(d)
}

proof fn lemma_two_digits_bounded(s: Seq<char>)
    requires
        s.len() == 2,
        all_digits(s),
    ensures
        0 <= digits_value(s) <= 99,
{
    assert(is_digit(s[0]) && is_digit(s[1]));
    assert(s.drop_last().drop_last().len() == 0);
    assert(digits_value(s.drop_last()) == digits_value(s.drop_last().drop_last()) * 10
        + crate::text::digit_value(s[0]));
}

/// Two `YYYY-MM-DD` dates compare as texts exactly as they fall in time.
pub proof fn lemma_date_text_order(a: Seq<char>, b: Seq<char>)
    requires
        iso_shape(a),
        iso_shape(b),
    ensures
        text_less(a, b) == (date_key(a) < date_key(b)),
{
    let dash = seq!['-'];
    let (ya, ma, da) = (a.subrange(0, 4), a.subrange(5, 7), a.subrange(8, 10));
    let (yb, mb, db) = (b.subrange(0, 4), b.subrange(5, 7), b.subrange(8, 10));
    assert(a[4] == '-' && a[7] == '-' && b[4] == '-' && b[7] == '-');
    assert(a =~= ya + (dash + (ma + (dash + da))));
    assert(b =~= yb + (dash + (mb + (dash + db))));
    assert forall|i: int| 0 <= i < 4 implies is_digit(#[trigger] ya[i]) && is_digit(yb[i]) by {
        assert(ya[i] == a[i] && yb[i] == b[i]);
    }
    assert forall|i: int| 0 <= i < 2 implies is_digit(#[trigger] ma[i]) && is_digit(mb[i])
        && is_digit(da[i]) && is_digit(db[i]) by {
        assert(ma[i] == a[5 + i] && mb[i] == b[5 + i]);
        assert(da[i] == a[8 + i] && db[i] == b[8 + i]);
    }
    assert(all_digits(ya) && all_digits(yb) && all_digits(ma) && all_digits(mb));
    assert(all_digits(da) && all_digits(db));
    lemma_text_less_concat(ya, dash + (ma + (dash + da)), yb, dash + (mb + (dash + db)));
    lemma_text_less_concat(dash, ma + (dash + da), dash, mb + (dash + db));
    lemma_text_less_concat(ma, dash + da, mb, dash + db);
    lemma_text_less_concat(dash, da, dash, db);
    lemma_digit_text_order(ya, yb);
    lemma_digit_text_order(yb, ya);
    lemma_digit_text_order(ma, mb);
    lemma_digit_text_order(mb, ma);
    lemma_digit_text_order(da, db);
    lemma_text_less_total(ya, yb);
    lemma_text_less_total(ma, mb);
    lemma_two_digits_bounded(ma);
    lemma_two_digits_bounded(mb);
    lemma_two_digits_bounded(da);
    lemma_two_digits_bounded(db);
}

} // verus!
