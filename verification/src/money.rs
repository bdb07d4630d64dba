//! Money amounts held as whole cents: how they are written for display
//! and for editing, and how a typed dollar amount is read back.
use vstd::prelude::*;
use crate::text::{
    all_digits, append_str, digit_value, is_white_space, chars_of, digit_char, digit_of, digits_value, int_text, is_digit,
    parse_i64, parse_i64_chars, push_decimal, string_of, sub_chars, trim, trimmed, utf8_len,
    utf8_len_of, decimal,
};

verus! {

// ---------------------------------------------------------------------
// Formatting
// ---------------------------------------------------------------------

pub open spec fn abs(n: int) -> int {
    if n < 0 { -n } else { n }
}

/// Integer division rounding toward zero, as Rust's `/` does.
pub open spec fn trunc_div(a: int, b: int) -> int {
    if a >= 0 { a / b } else { -((-a) / b) }
}

/// Two decimal digits of `n` (0 <= n < 100), zero padded.
pub open spec fn two_digits(n: int) -> Seq<char> {
    seq![digit_char(n / 10), digit_char(n % 10)]
}

/// `cents` written as dollars for an input field: the whole dollars (rounded
/// toward zero, so amounts between -1 and 0 dollars lose their sign), a dot,
/// and two digits of cents.
pub open spec fn money_input_text(cents: int) -> Seq<char> {
    int_text(trunc_div(cents, 100)) + seq!['.'] + two_digits(abs(cents) % 100)
}

/// `cents` written as dollars for display: a `$` before the input form.
pub open spec fn money_text(cents: int) -> Seq<char> {
    seq!['$'] + money_input_text(cents)
}

/// Appends the input form of `cents` to `out`.
pub fn push_money_input(out: &mut Vec<char>, cents: i64)
    requires
        cents > i64::MIN,
    ensures
        final(out)@ == old(out)@ + money_input_text(cents as int),
{
    let m: u64 = if cents < 0 { (-cents) as u64 } else { cents as u64 };
    let q = m / 100;
    let r = m % 100;
    let ghost start = out@;
    if cents < 0 && q > 0 {
        out.push('-');
    }
    push_decimal(out, q);
    out.push('.');
    out.push(digit_of(r / 10));
    out.push(digit_of(r % 10));
    proof {
        let t = trunc_div(cents as int, 100);
        if cents < 0 && q > 0 {
            assert(t == -(q as int));
            assert(int_text(t) == seq!['-'] + decimal(q as nat));
        } else {
            assert(t == q);
            assert(int_text(t) == decimal(q as nat));
        }
        assert(abs(cents as int) % 100 == r);
        assert(out@ =~= start + money_input_text(cents as int));
    }
}

/// Formats cents as a dollar amount for display, such as `$12.50`.
pub fn format_money(cents: i64) -> (s: String)
    requires
        cents > i64::MIN,
    ensures
        s@ == money_text(cents as int),
{
    let mut out: Vec<char> = Vec::new();
    out.push('$');
    push_money_input(&mut out, cents);
    assert(out@ =~= money_text(cents as int));
    string_of(&out)
}

/// Formats cents for an editable amount field, such as `12.50`.
pub fn format_money_input(cents: i64) -> (s: String)
    requires
        cents > i64::MIN,
    ensures
        s@ == money_input_text(cents as int),
{
    let mut out: Vec<char> = Vec::new();
    push_money_input(&mut out, cents);
    assert(out@ =~= money_input_text(cents as int));
    string_of(&out)
}

// ---------------------------------------------------------------------
// Parsing
// ---------------------------------------------------------------------

/// Why a typed dollar amount was refused.
#[derive(Debug, Clone, Copy, PartialEq, Eq, Structural)]
pub enum AmountError {
    Required,
    Negative,
    Invalid,
    TooManyDecimals,
    TooLarge,
    NotPositive,
}

/// `s` without its leading `$` signs.
pub open spec fn trim_start_dollars(s: Seq<char>) -> Seq<char>
    decreases s.len(),
{
    if s.len() > 0 && s[0] == '$' {
        trim_start_dollars(s.drop_first())
    } else {
        s
    }
}

/// `s` with every comma removed.
pub open spec fn without_commas(s: Seq<char>) -> Seq<char>
    decreases s.len(),
{
    if s.len() == 0 {
        s
    } else if s.last() == ',' {
        without_commas(s.drop_last())
    } else {
        without_commas(s.drop_last()).push(s.last())
    }
}

/// How many times `c` occurs in `s`.
pub open spec fn count_char(s: Seq<char>, c: char) -> nat
    decreases s.len(),
{
    if s.len() == 0 {
        0
    } else {
        count_char(s.drop_last(), c) + if s.last() == c { 1nat } else { 0nat }
    }
}

/// Index of the first `c` in `s`, or the length of `s` if there is none.
pub open spec fn find_char(s: Seq<char>, c: char) -> int
    decreases s.len(),
{
    if s.len() == 0 {
        0
    } else if s[0] == c {
        0
    } else {
        1 + find_char(s.drop_first(), c)
    }
}

/// The typed amount after surrounding whitespace, leading `$` signs and
/// thousands separators are taken away.
pub open spec fn cleaned_amount(text: Seq<char>) -> Seq<char> {
    without_commas(trim_start_dollars(trim(text)))
}

/// The cents that the digits after the dot stand for: none or an empty
/// part is 0, one byte is tenths, two bytes are hundredths.
pub open spec fn fraction_cents(frac: Seq<char>) -> Result<int, AmountError> {
    if frac.len() == 0 {
        Ok(0)
    } else if utf8_len(frac) == 1 {
        match parse_i64(frac) {
            Some(x) => Ok(x * 10),
            None => Err(AmountError::Invalid),
        }
    } else if utf8_len(frac) == 2 {
        match parse_i64(frac) {
            Some(x) => Ok(x as int),
            None => Err(AmountError::Invalid),
        }
    } else {
        Err(AmountError::TooManyDecimals)
    }
}

/// The amount in cents that `text` denotes, or why it is refused. Zero is
/// accepted here.
pub open spec fn amount_value(text: Seq<char>) -> Result<i64, AmountError> {
    let c = cleaned_amount(text);
    if c.len() == 0 {
        Err(AmountError::Required)
    } else if c[0] == '-' {
        Err(AmountError::Negative)
    } else if count_char(c, '.') > 1 {
        Err(AmountError::Invalid)
    } else {
        let k = find_char(c, '.');
        let whole = c.take(k);
        let dollars = if whole.len() == 0 { Some(0i64) } else { parse_i64(whole) };
        match dollars {
            None => Err(AmountError::Invalid),
            Some(d) => {
                let cents = if k < c.len() { fraction_cents(c.skip(k + 1)) } else { Ok(0) };
                match cents {
                    Err(e) => Err(e),
                    Ok(ct) => {
                        if d * 100 > i64::MAX || d * 100 + ct > i64::MAX {
                            Err(AmountError::TooLarge)
                        } else {
                            Ok((d * 100 + ct) as i64)
                        }
                    },
                }
            },
        }
    }
}

/// Like `amount_value`, but an amount of zero or less is refused.
pub open spec fn positive_amount_value(text: Seq<char>) -> Result<i64, AmountError> {
    match amount_value(text) {
        Ok(v) => if v <= 0 { Err(AmountError::NotPositive) } else { Ok(v) },
        Err(e) => Err(e),
    }
}

/// The sentence shown for a refused amount, for the field named `field`.
pub open spec fn amount_message(field: Seq<char>, e: AmountError) -> Seq<char> {
    field + match e {
        AmountError::Required => " is required."@,
        AmountError::Negative => " cannot be negative."@,
        AmountError::Invalid => " is not valid."@,
        AmountError::TooManyDecimals => " can have no more than two decimal places."@,
        AmountError::TooLarge => " is too large."@,
        AmountError::NotPositive => " must be greater than zero."@,
    }
}

/// The cleaned characters of a typed amount.
fn clean_amount(text: &str) -> (r: Vec<char>)
    ensures
        r@ == cleaned_amount(text@),
{
    let t = trimmed(text);
    let n = t.len();
    let mut lo: usize = 0;
    assert(t@.subrange(0, n as int) == t@);
    while lo < n && t[lo] == '$'
        invariant
            lo <= n == t.len(),
            trim_start_dollars(t@) == trim_start_dollars(t@.subrange(lo as int, n as int)),
        decreases n - lo,
    {
        assert(t@.subrange(lo as int, n as int).drop_first() == t@.subrange(lo + 1, n as int));
        lo += 1;
    }
    let ghost s = t@.subrange(lo as int, n as int);
    let mut r: Vec<char> = Vec::new();
    let mut i = lo;
    while i < n
        invariant
            lo <= i <= n == t.len(),
            s == t@.subrange(lo as int, n as int),
            r@ == without_commas(s.take(i - lo)),
        decreases n - i,
    {
        assert(s.take(i - lo + 1).drop_last() == s.take(i - lo));
        assert(s.take(i - lo + 1).last() == t@[i as int]);
        if t[i] != ',' {
            r.push(t[i]);
        }
        i += 1;
    }
    assert(s.take(n - lo) == s);
    r
}

/// Where the first dot is in `v` and how many dots `v` holds, counting
/// no further than two.
fn scan_dots(v: &[char]) -> (r: (usize, usize))
    ensures
        r.0 as int == find_char(v@, '.'),
        r.1 == if count_char(v@, '.') > 1 { 2 } else { count_char(v@, '.') },
{
    let n = v.len();
    let mut first: usize = n;
    let mut count: usize = 0;
    let mut i: usize = 0;
    assert(v@.skip(0) == v@);
    while i < n
        invariant
            i <= n == v.len(),
            count == count_char(v@.take(i as int), '.'),
            count <= i,
            count == 0 ==> first == n,
            count > 0 ==> first < i && first == find_char(v@, '.'),
            count == 0 ==> find_char(v@, '.') == i + find_char(v@.skip(i as int), '.'),
        decreases n - i,
    {
        assert(v@.take(i + 1).drop_last() == v@.take(i as int));
        assert(v@.skip(i as int).drop_first() == v@.skip(i + 1));
        if v[i] == '.' {
            if count == 0 {
                first = i;
            }
            count += 1;
        }
        i += 1;
    }
    assert(v@.take(n as int) == v@);
    assert(count == 0 ==> v@.skip(n as int).len() == 0);
    if count > 2 {
        (first, 2)
    } else {
        (first, count)
    }
}

/// Reads the cents after the dot.
fn parse_fraction(f: &[char]) -> (r: Result<i64, AmountError>)
    ensures
        match fraction_cents(f@) {
            Ok(x) => r == Ok::<i64, AmountError>(x as i64),
            Err(e) => r == Err::<i64, AmountError>(e),
        },
        fraction_cents(f@) matches Ok(x) ==> -99 <= x <= 99,
{
    if f.len() == 0 {
        return Ok(0);
    }
    if f.len() > 2 {
        proof {
            lemma_utf8_len_at_least_len(f@);
        }
        return Err(AmountError::TooManyDecimals);
    }
    let w = utf8_len_of(f);
    if w == 1 || w == 2 {
        proof {
            lemma_parse_short(f@);
            lemma_utf8_len_at_least_len(f@);
        }
        match parse_i64_chars(f) {
            Some(x) => if w == 1 { Ok(x * 10) } else { Ok(x) },
            None => Err(AmountError::Invalid),
        }
    } else {
        Err(AmountError::TooManyDecimals)
    }
}

proof fn lemma_utf8_len_at_least_len(s: Seq<char>)
    ensures
        utf8_len(s) >= s.len(),
    decreases s.len(),
{
    if s.len() > 0 {
        lemma_utf8_len_at_least_len(s.drop_last());
    }
}

/// A text of at most two characters parses to a value between -9 and 99.
proof fn lemma_parse_short(s: Seq<char>)
    requires
        1 <= s.len() <= 2,
    ensures
        parse_i64(s) matches Some(x) ==> -9 <= x <= 99 && (s.len() == 1 ==> 0 <= x <= 9),
{
    if let Some(x) = parse_i64(s) {
        let body = if s[0] == '-' || s[0] == '+' { s.drop_first() } else { s };
        assert(all_digits(body));
        if body.len() == 1 {
            assert(body.drop_last() =~= Seq::<char>::empty());
            assert(is_digit(body[0]));
            assert(digits_value(body.drop_last()) == 0);
            assert(body.last() == body[0]);
            assert(digits_value(body) == digit_value(body[0]));
        } else {
            assert(body.len() == 2);
            assert(body == s);
            let b1 = body.drop_last();
            assert(b1.drop_last() =~= Seq::<char>::empty());
            assert(is_digit(body[0]));
            assert(is_digit(body[1]));
            assert(b1[0] == body[0]);
            assert(digits_value(b1.drop_last()) == 0);
            assert(b1.last() == body[0]);
            assert(digits_value(b1) == digit_value(body[0]));
            assert(body.last() == body[1]);
            assert(digits_value(body) == digit_value(body[0]) * 10 + digit_value(body[1]));
        }
    }
}

/// Reads a typed dollar amount (such as `$1,234.5`) as cents. Zero is
/// accepted.
pub fn parse_amount(text: &str) -> (r: Result<i64, AmountError>)
    ensures
        r == amount_value(text@),
{
    let c = clean_amount(text);
    let n = c.len();
    if n == 0 {
        return Err(AmountError::Required);
    }
    if c[0] == '-' {
        return Err(AmountError::Negative);
    }
    let (k, dots) = scan_dots(&c);
    if dots > 1 {
        return Err(AmountError::Invalid);
    }
    proof {
        lemma_find_char_bound(c@, '.');
    }
    let whole = sub_chars(&c, 0, k);
    assert(whole@ == c@.take(k as int));
    let dollars: i64 = if k == 0 {
        0
    } else {
        match parse_i64_chars(&whole) {
            Some(d) => d,
            None => {
                return Err(AmountError::Invalid);
            },
        }
    };
    proof {
        if k > 0 {
            lemma_parse_nonneg(whole@);
        }
    }
    let cents: i64 = if k < n {
        let frac = sub_chars(&c, k + 1, n);
        assert(frac@ == c@.skip(k + 1));
        match parse_fraction(&frac) {
            Ok(x) => x,
            Err(e) => {
                return Err(e);
            },
        }
    } else {
        0
    };
    match dollars.checked_mul(100) {
        None => Err(AmountError::TooLarge),
        Some(hundreds) => match hundreds.checked_add(cents) {
            None => Err(AmountError::TooLarge),
            Some(total) => Ok(total),
        },
    }
}

proof fn lemma_find_char_bound(s: Seq<char>, c: char)
    ensures
        0 <= find_char(s, c) <= s.len(),
        find_char(s, c) < s.len() ==> s[find_char(s, c)] == c,
    decreases s.len(),
{
    if s.len() > 0 && s[0] != c {
        lemma_find_char_bound(s.drop_first(), c);
    }
}

/// Text that does not start with `-` parses to a value that is not negative.
proof fn lemma_parse_nonneg(s: Seq<char>)
    requires
        s.len() > 0,
        s[0] != '-',
    ensures
        parse_i64(s) matches Some(x) ==> x >= 0,
{
    if let Some(x) = parse_i64(s) {
        let body = if s[0] == '+' { s.drop_first() } else { s };
        crate::text::lemma_digits_value_nonneg(body);
    }
}

/// Reads a typed dollar amount as cents, refusing zero and less.
pub fn parse_positive_amount(text: &str) -> (r: Result<i64, AmountError>)
    ensures
        r == positive_amount_value(text@),
{
    match parse_amount(text) {
        Ok(v) => if v <= 0 { Err(AmountError::NotPositive) } else { Ok(v) },
        Err(e) => Err(e),
    }
}

/// The sentence for a refused amount in the field `field`.
pub fn amount_error_message(field: &str, e: AmountError) -> (s: String)
    ensures
        s@ == amount_message(field@, e),
{
    let mut out = chars_of(field);
    let suffix = match e {
        AmountError::Required => " is required.",
        AmountError::Negative => " cannot be negative.",
        AmountError::Invalid => " is not valid.",
        AmountError::TooManyDecimals => " can have no more than two decimal places.",
        AmountError::TooLarge => " is too large.",
        AmountError::NotPositive => " must be greater than zero.",
    };
    append_str(&mut out, suffix);
    string_of(&out)
}


// ---------------------------------------------------------------------
// Reading back what was written
// ---------------------------------------------------------------------

proof fn lemma_digit_is_plain(c: char)
    requires
        is_digit(c),
    ensures
        !is_white_space(c),
        c != '$',
        c != ',',
        c != '.',
        c != '-',
        c != '+',
{
}

proof fn lemma_without_commas_keeps(s: Seq<char>)
    requires
        forall|i: int| 0 <= i < s.len() ==> #[trigger] s[i] != ',',
    ensures
        without_commas(s) == s,
    decreases s.len(),
{
    if s.len() > 0 {
        lemma_without_commas_keeps(s.drop_last());
        assert(s.drop_last().push(s.last()) =~= s);
    }
}

proof fn lemma_count_append(a: Seq<char>, b: Seq<char>, c: char)
    ensures
        count_char(a + b, c) == count_char(a, c) + count_char(b, c),
    decreases b.len(),
{
    if b.len() == 0 {
        assert(a + b =~= a);
    } else {
        lemma_count_append(a, b.drop_last(), c);
        assert((a + b).drop_last() =~= a + b.drop_last());
    }
}

proof fn lemma_count_absent(s: Seq<char>, c: char)
    requires
        forall|i: int| 0 <= i < s.len() ==> #[trigger] s[i] != c,
    ensures
        count_char(s, c) == 0,
    decreases s.len(),
{
    if s.len() > 0 {
        lemma_count_absent(s.drop_last(), c);
    }
}

proof fn lemma_find_after(a: Seq<char>, b: Seq<char>, c: char)
    requires
        forall|i: int| 0 <= i < a.len() ==> #[trigger] a[i] != c,
    ensures
        find_char(a + b, c) == a.len() + find_char(b, c),
    decreases a.len(),
{
    if a.len() > 0 {
        lemma_find_after(a.drop_first(), b, c);
        assert((a + b).drop_first() =~= a.drop_first() + b);
    } else {
        assert(a + b =~= b);
    }
}

proof fn lemma_two_digits(r: int)
    requires
        0 <= r < 100,
    ensures
        all_digits(two_digits(r)),
        digits_value(two_digits(r)) == r,
        utf8_len(two_digits(r)) == 2,
{
    crate::text::lemma_digit_char(r / 10);
    crate::text::lemma_digit_char(r % 10);
    let t = two_digits(r);
    let t1 = t.drop_last();
    assert(t1.drop_last() =~= Seq::<char>::empty());
    assert(digits_value(t1.drop_last()) == 0);
    assert(t1.last() == t[0]);
    assert(digits_value(t1) == r / 10);
    assert(digits_value(t) == (r / 10) * 10 + r % 10);
    assert(utf8_len(t1.drop_last()) == 0);
    assert(utf8_len(t1) == 1);
}

/// Parsing the decimal digits of `n` gives `n` back.
proof fn lemma_parse_decimal(n: nat)
    requires
        n <= i64::MAX,
    ensures
        parse_i64(decimal(n)) == Some(n as i64),
{
    crate::text::lemma_decimal_all_digits(n);
    lemma_digit_is_plain(decimal(n)[0]);
}

/// The law that lets an amount field be filled from a stored amount: for
/// every amount of zero cents or more, reading back its input form gives
/// the same amount.
pub proof fn lemma_input_text_reads_back(cents: i64)
    requires
        cents >= 0,
    ensures
        amount_value(money_input_text(cents as int)) == Ok::<i64, AmountError>(cents),
{
    let q = (cents / 100) as nat;
    let r = cents % 100;
    let w = decimal(q);
    let t = w + seq!['.'] + two_digits(r as int);
    assert(money_input_text(cents as int) == t);
    crate::text::lemma_decimal_all_digits(q);
    lemma_two_digits(r as int);
    assert forall|i: int| 0 <= i < t.len() implies #[trigger] t[i] != ',' && (t[i] != '.' ==> is_digit(t[i])) by {
        if i < w.len() {
            assert(t[i] == w[i]);
            lemma_digit_is_plain(w[i]);
        } else if i > w.len() {
            assert(t[i] == two_digits(r as int)[i - w.len() - 1]);
            lemma_digit_is_plain(two_digits(r as int)[i - w.len() - 1]);
        }
    }
    lemma_digit_is_plain(t[0]);
    lemma_digit_is_plain(t.last());
    assert(t.drop_first().len() < t.len());
    assert(crate::text::trim_start(t) == t);
    assert(crate::text::trim_end(t) == t);
    assert(trim(t) == t);
    assert(trim_start_dollars(t) == t);
    lemma_without_commas_keeps(t);
    assert(cleaned_amount(t) == t);
    // exactly one dot, right after the whole dollars
    assert forall|i: int| 0 <= i < w.len() implies #[trigger] w[i] != '.' by {
        lemma_digit_is_plain(w[i]);
    }
    let f = two_digits(r as int);
    assert forall|i: int| 0 <= i < f.len() implies #[trigger] f[i] != '.' by {
        lemma_digit_is_plain(f[i]);
    }
    lemma_count_append(w + seq!['.'], f, '.');
    lemma_count_append(w, seq!['.'], '.');
    lemma_count_absent(w, '.');
    lemma_count_absent(f, '.');
    assert(seq!['.'].drop_last() =~= Seq::<char>::empty());
    assert(count_char(seq!['.'].drop_last(), '.') == 0);
    assert(seq!['.'].last() == '.');
    assert(count_char(seq!['.'], '.') == 1);
    assert(count_char(t, '.') == 1);
    assert(t == w + (seq!['.'] + f));
    lemma_find_after(w, seq!['.'] + f, '.');
    assert(find_char(seq!['.'] + f, '.') == 0);
    let k = find_char(t, '.');
    assert(k == w.len());
    assert(t.take(k) =~= w);
    assert(t.skip(k + 1) =~= f);
    lemma_parse_decimal(q);
    lemma_parse_decimal(r as nat);
    assert(decimal(r as nat).len() >= 1);
    // the two digits after the dot parse to r
    lemma_digit_is_plain(f[0]);
    assert(parse_i64(f) == Some(r as i64));
    assert(fraction_cents(f) == Ok::<int, AmountError>(r as int));
    assert(q * 100 + r == cents);
}

/// For every amount above zero, reading back its input form as a required
/// positive amount gives the same amount.
pub proof fn lemma_input_text_reads_back_positive(cents: i64)
    requires
        cents > 0,
    ensures
        positive_amount_value(money_input_text(cents as int)) == Ok::<i64, AmountError>(cents),
{
    lemma_input_text_reads_back(cents);
}

/// The display form of an amount is its input form after a dollar sign.
pub proof fn lemma_display_is_dollar_input(cents: i64)
    ensures
        money_text(cents as int) == seq!['$'] + money_input_text(cents as int),
{
}

} // verus!
