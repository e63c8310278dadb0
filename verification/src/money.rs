//! Money and decimal text in the order store: stored amounts, minor units
//! (cents), scaled decimals, and the points granted by a recharge.
use vstd::prelude::*;
use crate::error::{storage, validation, CommerceError, ErrorKind};
use crate::text::{
    all_digits, all_digits_exec, append_chars, before_first, after_first, chars_of, contains_char,
    digit_value, digits_value, is_digit, nat_text, nat_text_exec, padded_text, parse_i128,
    parse_i64, parse_i64_chars, signed_decimal, split_has_third, split_part0, split_part1,
    split_pieces, string_of, trim, trim_chars, trim_end_char, split_once_chars, contains_char_exec,
    trim_end_char_exec, int_text, i64_text, upper_seq, upper_chars, parse_i128_chars, lemma_first_index,
};

verus! {

/// The two-place cents of a fraction of one or two digits (`"5"` is 50).
pub open spec fn two_place_cents(f: Seq<char>) -> int {
    if f.len() == 1 {
        digit_value(f[0]) * 10
    } else {
        digits_value(f) as int
    }
}

/// The canonical minor-unit text of a stored money column, or `None` for a
/// value that is not a stored money amount.
///
/// An integer without a point is passed through unchanged; a major-unit
/// decimal with at most two fraction digits is converted to cents (`"12."`
/// and `"12.0"` are both `"1200"`).
pub open spec fn stored_money_text(s: Seq<char>) -> Option<Seq<char>> {
    let v = trim(s);
    let whole = split_part0(v, '.');
    let fraction = split_part1(v, '.');
    if split_has_third(v, '.') || whole.len() == 0 || !all_digits(whole) || !all_digits(fraction)
        || fraction.len() > 2 {
        None
    } else if !contains_char(v, '.') {
        Some(whole)
    } else if digits_value(whole) > i64::MAX || digits_value(whole) * 100 + fraction_cents_value(
        fraction,
    ) > i64::MAX {
        None
    } else {
        Some(nat_text((digits_value(whole) * 100 + fraction_cents_value(fraction)) as nat))
    }
}

/// The cents of a fraction of at most two digits; none is zero cents.
pub open spec fn fraction_cents_value(f: Seq<char>) -> int {
    if f.len() == 0 {
        0
    } else {
        two_place_cents(f)
    }
}

/// The minor units of a major-unit decimal such as a provider's `"99.00"`.
pub open spec fn major_decimal_minor(s: Seq<char>) -> Option<int> {
    let t = trim(s);
    let major = before_first(t, '.');
    let fraction = after_first(t, '.');
    if major.len() == 0 || !all_digits(major) || fraction.len() > 2 || !all_digits(fraction) {
        None
    } else {
        let cents = if fraction.len() == 0 {
            0
        } else {
            two_place_cents(fraction)
        };
        if digits_value(major) > i64::MAX || digits_value(major) * 100 + cents > i64::MAX {
            None
        } else {
            Some(digits_value(major) * 100 + cents)
        }
    }
}

/// `f` padded on the right with zeros to `width` characters.
pub open spec fn pad_zeros(f: Seq<char>, width: nat) -> Seq<char> {
    if f.len() >= width {
        f
    } else {
        f + Seq::new((width - f.len()) as nat, |i: int| '0')
    }
}

/// Cents of an already trimmed money amount in major units: the whole part
/// is a signed integer, the fraction has at most two places.
pub open spec fn cents_of(v: Seq<char>) -> Option<int> {
    let whole = split_part0(v, '.');
    let fraction = split_part1(v, '.');
    match parse_i64(whole) {
        None => None,
        Some(w) => if split_has_third(v, '.') || fraction.len() > 2 {
            None
        } else {
            match parse_i64(pad_zeros(fraction, 2)) {
                None => None,
                Some(c) => if i64::MIN <= w * 100 <= i64::MAX && i64::MIN <= w * 100 + c <= i64::MAX {
                    Some(w * 100 + c)
                } else {
                    None
                },
            }
        },
    }
}

/// The canonical minor-unit amount of a money column that may hold cents or
/// a major-unit decimal.
pub open spec fn minor_units_value(s: Seq<char>) -> Option<int> {
    let v = trim(s);
    if contains_char(v, '.') {
        cents_of(v)
    } else {
        match parse_i64(v) {
            Some(p) => if p >= 0 { Some(p) } else { None },
            None => None,
        }
    }
}

/// `cents` written in major units with two decimal places.
pub open spec fn major_text(cents: int) -> Seq<char> {
    let a = if cents < 0 { -cents } else { cents };
    (if cents < 0 { seq!['-'] } else { Seq::<char>::empty() }) + nat_text((a / 100) as nat) + seq!['.']
        + padded_text((a % 100) as nat, 2)
}

/// A decimal text without trailing fraction zeros (and without a dangling
/// point); integers are kept as they are.
pub open spec fn normalized_decimal(s: Seq<char>) -> Seq<char> {
    let t = trim(s);
    if !contains_char(t, '.') {
        t
    } else if trim_end_char(trim_end_char(t, '0'), '.').len() == 0 {
        seq!['0']
    } else {
        trim_end_char(trim_end_char(t, '0'), '.')
    }
}

pub open spec fn pow10(n: nat) -> int
    decreases n,
{
    if n == 0 {
        1
    } else {
        10 * pow10((n - 1) as nat)
    }
}

/// The value of a decimal text scaled by `10^scale`.
pub open spec fn scaled_decimal(s: Seq<char>, scale: nat) -> Option<int> {
    let t = trim(s);
    let whole = split_part0(t, '.');
    let fraction = split_part1(t, '.');
    if t.len() == 0 {
        None
    } else {
        match parse_i128(whole) {
            None => None,
            Some(w) => if split_has_third(t, '.') || fraction.len() > scale {
                None
            } else {
                let padded = pad_zeros(fraction, scale);
                let f = if padded.len() == 0 {
                    Some(0int)
                } else {
                    parse_i128(padded)
                };
                match f {
                    None => None,
                    Some(fv) => if i128::MIN <= w * pow10(scale) <= i128::MAX && i128::MIN <= w
                        * pow10(scale) + fv <= i128::MAX {
                        Some(w * pow10(scale) + fv)
                    } else {
                        None
                    },
                }
            },
        }
    }
}

/// Integer division rounding towards zero, as Rust's `/` does.
pub open spec fn trunc_div(a: int, b: int) -> int {
    let q = (if a >= 0 { a } else { -a }) / (if b >= 0 { b } else { -b });
    if (a >= 0) == (b >= 0) {
        q
    } else {
        -q
    }
}

/// Division rounding half away from zero; zero for a zero divisor.
pub open spec fn round_divide(n: int, d: int) -> int {
    if d == 0 {
        0
    } else if n >= 0 {
        trunc_div(n + trunc_div(d, 2), d)
    } else {
        trunc_div(n - trunc_div(d, 2), d)
    }
}

proof fn lemma_all_digits_parse(s: Seq<char>)
    requires
        s.len() > 0,
        all_digits(s),
    ensures
        signed_decimal(s) == Some(digits_value(s) as int),
{
    assert(is_digit(s[0]));
}

proof fn lemma_two_place_cents(f: Seq<char>)
    requires
        1 <= f.len() <= 2,
        all_digits(f),
    ensures
        0 <= two_place_cents(f) < 100,
        f.len() == 1 ==> two_place_cents(f) == digit_value(f[0]) * 10,
        f.len() == 2 ==> two_place_cents(f) == digit_value(f[0]) * 10 + digit_value(f[1]),
{
    assert(is_digit(f[0]));
    if f.len() == 2 {
        assert(is_digit(f[1]));
        assert(f.drop_last().drop_last() =~= Seq::<char>::empty());
        assert(f.drop_last().last() == f[0]);
        assert(f.drop_last().len() == 1);
        assert(digits_value(f.drop_last()) == digits_value(f.drop_last().drop_last()) * 10
            + digit_value(f.drop_last().last()));
    }
}

fn digit_of(c: char) -> (d: u64)
    requires
        is_digit(c),
    ensures
        d == digit_value(c),
        d < 10,
{
    ((c as u32) - 48) as u64
}

/// Cents of a one- or two-digit fraction.
fn fraction_cents(f: &Vec<char>) -> (r: u64)
    requires
        1 <= f.len() <= 2,
        all_digits(f@),
    ensures
        r == two_place_cents(f@),
        r < 100,
{
    proof {
        lemma_two_place_cents(f@);
        assert(is_digit(f@[0]));
    }
    let d0 = digit_of(f[0]);
    if f.len() == 1 {
        d0 * 10
    } else {
        proof {
            assert(is_digit(f@[1]));
        }
        d0 * 10 + digit_of(f[1])
    }
}

fn quoted_message(prefix: &str, value: &Vec<char>) -> (m: Vec<char>)
    ensures
        m@ == prefix@ + seq!['"'] + value@ + seq!['"'],
{
    let mut m = chars_of(prefix);
    m.push('"');
    append_chars(&mut m, value);
    m.push('"');
    m
}

fn storage_with(prefix: &str, value: &Vec<char>) -> (e: CommerceError)
    ensures
        e.kind == ErrorKind::Storage,
        e.message@ == prefix@ + seq!['"'] + value@ + seq!['"'],
{
    let m = quoted_message(prefix, value);
    CommerceError { kind: ErrorKind::Storage, message: string_of(&m) }
}

/// Normalizes a stored money column into canonical minor-unit text.
///
/// Canonical integer text passes through unchanged; a legacy major-unit
/// decimal with at most two fraction digits (`"12.3"`) becomes cents
/// (`"1230"`). Anything else (negative, empty, a separator, three fraction
/// digits, more than `i64::MAX` cents) is refused with a message that
/// quotes the offending (trimmed) value.
pub fn normalize_stored_money(amount: &str) -> (r: Result<String, CommerceError>)
    ensures
        match r {
            Ok(s) => stored_money_text(amount@) == Some(s@),
            Err(e) => stored_money_text(amount@).is_none() && e.kind == ErrorKind::Storage
                && e.message@ == "invalid stored money amount: "@ + seq!['"'] + trim(amount@) + seq!['"'],
        },
{
    let raw = chars_of(amount);
    let value = trim_chars(&raw);
    let pieces = split_pieces(&value, '.');
    let whole = pieces.first;
    let fraction = pieces.second;
    if pieces.has_third || whole.len() == 0 || !all_digits_exec(&whole) || !all_digits_exec(
        &fraction,
    ) || fraction.len() > 2 {
        return Err(storage_with("invalid stored money amount: ", &value));
    }
    if !contains_char_exec(&value, '.') {
        return Ok(string_of(&whole));
    }
    proof {
        lemma_all_digits_parse(whole@);
    }
    let whole_minor = match parse_i64_chars(&whole) {
        Some(w) => w,
        None => {
            return Err(storage_with("invalid stored money amount: ", &value));
        },
    };
    let cents: u64 = if fraction.len() == 0 {
        0
    } else {
        fraction_cents(&fraction)
    };
    match whole_minor.checked_mul(100) {
        None => Err(storage_with("invalid stored money amount: ", &value)),
        Some(m) => match m.checked_add(cents as i64) {
            None => Err(storage_with("invalid stored money amount: ", &value)),
            Some(total) => Ok(string_of(&nat_text_exec(total as u64))),
        },
    }
}

/// Minor units of a provider's major-unit decimal amount (`"99.00"` is
/// `9900`); `None` for anything that is not such an amount.
pub fn decimal_major_to_minor(value: &str) -> (r: Option<i64>)
    ensures
        match r {
            Some(x) => major_decimal_minor(value@) == Some(x as int),
            None => major_decimal_minor(value@).is_none(),
        },
{
    let raw = chars_of(value);
    let t = trim_chars(&raw);
    let (major, fraction) = split_once_chars(&t, '.');
    if major.len() == 0 || !all_digits_exec(&major) || fraction.len() > 2 || !all_digits_exec(
        &fraction,
    ) {
        return None;
    }
    proof {
        lemma_all_digits_parse(major@);
    }
    let m = match parse_i64_chars(&major) {
        Some(m) => m,
        None => {
            return None;
        },
    };
    let cents: u64 = if fraction.len() == 0 {
        0
    } else {
        fraction_cents(&fraction)
    };
    match m.checked_mul(100) {
        None => None,
        Some(x) => x.checked_add(cents as i64),
    }
}

/// `f` padded with zeros on the right to `width` characters.
fn pad_zeros_exec(f: &Vec<char>, width: usize) -> (r: Vec<char>)
    ensures
        r@ == pad_zeros(f@, width as nat),
{
    let mut r = f.clone();
    proof {
        assert(r@ == f@);
    }
    if f.len() >= width {
        return r;
    }
    let mut k: usize = f.len();
    while k < width
        invariant
            f.len() <= k <= width,
            r@ == f@ + Seq::new((k - f.len()) as nat, |i: int| '0'),
        decreases width - k,
    {
        r.push('0');
        k = k + 1;
        proof {
            assert(r@ =~= f@ + Seq::new((k - f.len()) as nat, |i: int| '0'));
        }
    }
    r
}

/// Cents of an already trimmed major-unit amount.
fn cents_of_exec(v: &Vec<char>) -> (r: Option<i64>)
    ensures
        match r {
            Some(x) => cents_of(v@) == Some(x as int),
            None => cents_of(v@).is_none(),
        },
{
    let pieces = split_pieces(v, '.');
    let whole = match parse_i64_chars(&pieces.first) {
        Some(w) => w,
        None => {
            return None;
        },
    };
    if pieces.has_third || pieces.second.len() > 2 {
        return None;
    }
    let padded = pad_zeros_exec(&pieces.second, 2);
    let cents = match parse_i64_chars(&padded) {
        Some(c) => c,
        None => {
            return None;
        },
    };
    match whole.checked_mul(100) {
        None => None,
        Some(x) => x.checked_add(cents),
    }
}

fn storage_invalid_money(value: &Vec<char>) -> (e: CommerceError)
    ensures
        e.kind == ErrorKind::Storage,
{
    let mut m = chars_of("invalid commerce money amount: ");
    append_chars(&mut m, value);
    CommerceError { kind: ErrorKind::Storage, message: string_of(&m) }
}

/// Cents of a money amount written in major units (`"12.30"` is `1230`).
pub fn money_cents(amount: &str) -> (r: Result<i64, CommerceError>)
    ensures
        match r {
            Ok(x) => cents_of(trim(amount@)) == Some(x as int),
            Err(e) => cents_of(trim(amount@)).is_none() && e.kind == ErrorKind::Storage,
        },
{
    let raw = chars_of(amount);
    let value = trim_chars(&raw);
    match cents_of_exec(&value) {
        Some(c) => Ok(c),
        None => Err(storage_invalid_money(&value)),
    }
}

/// Canonical minor-unit text of a money column holding either cents or a
/// major-unit decimal; negative integers are refused.
pub fn normalize_money_minor_units(amount: &str) -> (r: Result<String, CommerceError>)
    ensures
        match r {
            Ok(s) => exists|x: int| minor_units_value(amount@) == Some(x) && s@ == int_text(x),
            Err(e) => minor_units_value(amount@).is_none() && e.kind == ErrorKind::Storage,
        },
{
    let raw = chars_of(amount);
    let value = trim_chars(&raw);
    if contains_char_exec(&value, '.') {
        return match cents_of_exec(&value) {
            Some(c) => Ok(string_of(&i64_text(c))),
            None => Err(storage_invalid_money(&value)),
        };
    }
    match parse_i64_chars(&value) {
        Some(p) => {
            if p < 0 {
                Err(storage_invalid_money(&value))
            } else {
                Ok(string_of(&i64_text(p)))
            }
        },
        None => Err(storage_invalid_money(&value)),
    }
}

proof fn lemma_nat_text_small(n: nat)
    requires
        n < 100,
    ensures
        n < 10 ==> nat_text(n) == seq![crate::text::digit_char(n as int)],
        n < 10 ==> padded_text(n, 2) == seq!['0'] + nat_text(n),
        n >= 10 ==> nat_text(n).len() == 2,
        n >= 10 ==> padded_text(n, 2) == nat_text(n),
{
    if n < 10 {
        assert(nat_text(n).len() == 1);
        assert(padded_text(n, 1) == nat_text(n));
    } else {
        assert(nat_text(n / 10).len() == 1);
    }
}

/// `cents` written in major units with two decimal places (`1230` is
/// `"12.30"`, `-5` is `"-0.05"`).
pub fn format_money_minor(cents: i64) -> (r: String)
    requires
        cents != i64::MIN,
    ensures
        r@ == major_text(cents as int),
{
    let a: u64 = if cents < 0 {
        (0i64 - cents) as u64
    } else {
        cents as u64
    };
    let mut v: Vec<char> = Vec::new();
    if cents < 0 {
        v.push('-');
    }
    let whole = nat_text_exec(a / 100);
    append_chars(&mut v, &whole);
    v.push('.');
    let f = a % 100;
    proof {
        lemma_nat_text_small(f as nat);
    }
    if f < 10 {
        v.push('0');
    }
    let ft = nat_text_exec(f);
    append_chars(&mut v, &ft);
    proof {
        let sign = if cents < 0 { seq!['-'] } else { Seq::<char>::empty() };
        assert(v@ =~= sign + nat_text((a / 100) as nat) + seq!['.'] + padded_text(f as nat, 2));
    }
    string_of(&v)
}

/// Minor-unit text turned into a major-unit decimal (`"1200"` is
/// `"12.00"`).
pub fn minor_units_to_major_decimal(value: &str) -> (r: Result<String, CommerceError>)
    requires
        parse_i64(trim(value@)) != Some(i64::MIN as int),
    ensures
        match r {
            Ok(s) => exists|x: int| parse_i64(trim(value@)) == Some(x) && s@ == major_text(x),
            Err(e) => parse_i64(trim(value@)).is_none() && e.kind == ErrorKind::Storage,
        },
{
    let raw = chars_of(value);
    let t = trim_chars(&raw);
    match parse_i64_chars(&t) {
        Some(c) => Ok(format_money_minor(c)),
        None => {
            let mut m = chars_of("invalid commerce money minor amount: ");
            append_chars(&mut m, &raw);
            Err(CommerceError { kind: ErrorKind::Storage, message: string_of(&m) })
        },
    }
}

/// A decimal text without trailing fraction zeros (`"7.50"` is `"7.5"`,
/// `"10.00"` is `"10"`); integers are kept as they are.
pub fn normalize_decimal_string(value: &str) -> (r: String)
    ensures
        r@ == normalized_decimal(value@),
{
    let raw = chars_of(value);
    let t = trim_chars(&raw);
    if !contains_char_exec(&t, '.') {
        return string_of(&t);
    }
    let a = trim_end_char_exec(&t, '0');
    let b = trim_end_char_exec(&a, '.');
    if b.len() == 0 {
        let mut z: Vec<char> = Vec::new();
        z.push('0');
        proof {
            assert(z@ =~= seq!['0']);
        }
        string_of(&z)
    } else {
        string_of(&b)
    }
}

proof fn lemma_pow10_monotone(n: nat, m: nat)
    requires
        n <= m,
    ensures
        1 <= pow10(n) <= pow10(m),
    decreases m,
{
    if n < m {
        lemma_pow10_monotone(n, (m - 1) as nat);
    } else if n > 0 {
        lemma_pow10_monotone((n - 1) as nat, (n - 1) as nat);
    }
}

proof fn lemma_pow10_bound(n: nat)
    requires
        n < 38,
    ensures
        1 <= pow10(n) <= 10_000_000_000_000_000_000_000_000_000_000_000_000,
{
    lemma_pow10_monotone(n, 37);
    reveal_with_fuel(pow10, 38);
    assert(pow10(37) == 10_000_000_000_000_000_000_000_000_000_000_000_000);
}

fn pow10_exec(n: usize) -> (r: i128)
    requires
        n <= 38,
    ensures
        r == pow10(n as nat),
{
    let mut p: i128 = 1;
    let mut i: usize = 0;
    while i < n
        invariant
            i <= n <= 38,
            p == pow10(i as nat),
        decreases n - i,
    {
        proof {
            lemma_pow10_bound(i as nat);
            assert(p <= 10_000_000_000_000_000_000_000_000_000_000_000_000);
        }
        p = p * 10;
        i = i + 1;
    }
    p
}

/// The value of a decimal text scaled by `10^scale` (`"7.5"` at scale 6 is
/// `7500000`).
pub fn decimal_to_scaled_i128(value: &str, scale: usize) -> (r: Result<i128, CommerceError>)
    requires
        scale <= 38,
    ensures
        match r {
            Ok(x) => scaled_decimal(value@, scale as nat) == Some(x as int),
            Err(e) => scaled_decimal(value@, scale as nat).is_none() && e.kind == ErrorKind::Storage,
        },
{
    let raw = chars_of(value);
    let t = trim_chars(&raw);
    if t.len() == 0 {
        return Err(storage("decimal value must not be empty"));
    }
    let pieces = split_pieces(&t, '.');
    let whole = match parse_i128_chars(&pieces.first) {
        Some(w) => w,
        None => {
            return Err(storage_with("invalid decimal value: ", &raw));
        },
    };
    if pieces.has_third || pieces.second.len() > scale {
        return Err(storage_with("invalid decimal value: ", &raw));
    }
    let padded = pad_zeros_exec(&pieces.second, scale);
    let fraction_scaled: i128 = if padded.len() == 0 {
        0
    } else {
        match parse_i128_chars(&padded) {
            Some(f) => f,
            None => {
                return Err(storage_with("invalid decimal value: ", &raw));
            },
        }
    };
    let p = pow10_exec(scale);
    match whole.checked_mul(p) {
        None => Err(storage_with("invalid decimal value: ", &raw)),
        Some(x) => match x.checked_add(fraction_scaled) {
            None => Err(storage_with("invalid decimal value: ", &raw)),
            Some(y) => Ok(y),
        },
    }
}

/// Rust's truncating `x / y`.
fn truncating_div(x: i128, y: i128) -> (r: i128)
    requires
        y != 0,
        !(x == i128::MIN && y == -1),
    ensures
        r == trunc_div(x as int, y as int),
{
    if y > 0 {
        x / y
    } else if y == i128::MIN {
        if x == i128::MIN {
            1
        } else {
            0
        }
    } else {
        let q = x / (0i128 - y);
        proof {
            if x < 0 {
                if y == -1 {
                    assert((-x) / (-y) == -x) by (nonlinear_arith)
                        requires
                            y == -1,
                    ;
                } else {
                    assert((-x) / (-y) <= (-x) / 2) by (nonlinear_arith)
                        requires
                            x < 0,
                            y < -1,
                    ;
                }
                assert(q == -((-x) / (-y)));
                assert(q > i128::MIN);
            }
        }
        0i128 - q
    }
}

/// Division rounding half away from zero (`round_divide_i128(15, 10)` is
/// `2`, `round_divide_i128(-15, 10)` is `-2`); zero for a zero divisor.
pub fn round_divide_i128(numerator: i128, denominator: i128) -> (r: i128)
    requires
        denominator != 0 && numerator >= 0 ==> i128::MIN <= numerator + trunc_div(
            denominator as int,
            2,
        ) <= i128::MAX,
        denominator != 0 && numerator < 0 ==> i128::MIN <= numerator - trunc_div(
            denominator as int,
            2,
        ) <= i128::MAX,
        !(numerator == i128::MIN && denominator == -1),
    ensures
        r == round_divide(numerator as int, denominator as int),
{
    if denominator == 0 {
        return 0;
    }
    let half = truncating_div(denominator, 2);
    if numerator >= 0 {
        truncating_div(numerator + half, denominator)
    } else {
        truncating_div(numerator - half, denominator)
    }
}

/// The recharge exchange settings: points per base-currency unit and the
/// rate of each currency against the base currency (`CNY`).
pub struct RechargeSettingsModel {
    pub base_currency_code: String,
    pub base_points_per_cny: String,
    pub currency_to_cny_rates: Vec<(String, String)>,
}

/// No currency is given two rates.
pub open spec fn rate_keys_unique(rates: Seq<(String, String)>) -> bool {
    forall|i: int, j: int| 0 <= i < j < rates.len() ==> (#[trigger] rates[i]).0@ != (#[trigger] rates[j]).0@
}

impl RechargeSettingsModel {
    /// Each currency has at most one rate.
    pub open spec fn wf(&self) -> bool {
        rate_keys_unique(self.currency_to_cny_rates@)
    }
}

/// The rate stored for `key`, if any.
pub open spec fn rate_for(rates: Seq<(String, String)>, key: Seq<char>) -> Option<Seq<char>>
    decreases rates.len(),
{
    if rates.len() == 0 {
        None
    } else if rates[0].0@ == key {
        Some(rates[0].1@)
    } else {
        rate_for(rates.drop_first(), key)
    }
}

/// The rate used for a currency: its own, else the base currency's, else 1.
pub open spec fn effective_rate(rates: Seq<(String, String)>, currency: Seq<char>) -> Seq<char> {
    match rate_for(rates, upper_seq(trim(currency))) {
        Some(r) => r,
        None => match rate_for(rates, "CNY"@) {
            Some(r) => r,
            None => "1"@,
        },
    }
}

/// The points granted for paying `amount` (major units) in `currency`:
/// amount × rate × points-per-unit, rounded half away from zero, plus the
/// package bonus.
pub open spec fn grant_amount(
    amount: Seq<char>,
    currency: Seq<char>,
    bonus_points: int,
    settings: RechargeSettingsModel,
) -> Result<int, ErrorKind> {
    match scaled_decimal(amount, 2) {
        None => Err(ErrorKind::Storage),
        Some(a) => if a <= 0 {
            Err(ErrorKind::Validation)
        } else {
            match scaled_decimal(settings.base_points_per_cny@, 6) {
                None => Err(ErrorKind::Storage),
                Some(b) => match scaled_decimal(
                    effective_rate(settings.currency_to_cny_rates@, currency),
                    6,
                ) {
                    None => Err(ErrorKind::Storage),
                    Some(r) => if !(i128::MIN <= a * r <= i128::MAX) || !(i128::MIN <= a * r * b
                        <= i128::MAX) {
                        Err(ErrorKind::Storage)
                    } else {
                        let points = round_divide(a * r * b, 100_000_000_000_000) + bonus_points;
                        if i64::MIN <= points <= i64::MAX {
                            Ok(points)
                        } else {
                            Err(ErrorKind::Storage)
                        }
                    },
                },
            }
        },
    }
}

fn rate_lookup(rates: &Vec<(String, String)>, key: &Vec<char>) -> (r: Option<String>)
    ensures
        match r {
            Some(s) => rate_for(rates@, key@) == Some(s@),
            None => rate_for(rates@, key@).is_none(),
        },
{
    let mut i: usize = 0;
    proof {
        assert(rates@.skip(0) =~= rates@);
    }
    while i < rates.len()
        invariant
            i <= rates.len(),
            rate_for(rates@, key@) == rate_for(rates@.skip(i as int), key@),
        decreases rates.len() - i,
    {
        let k = chars_of(rates[i].0.as_str());
        proof {
            assert(rates@.skip(i as int)[0] == rates@[i as int]);
            assert(rates@.skip(i as int).drop_first() =~= rates@.skip(i + 1));
        }
        if crate::text::chars_eq(&k, key) {
            return Some(rates[i].1.clone());
        }
        i = i + 1;
    }
    proof {
        assert(rates@.skip(i as int).len() == 0);
    }
    None
}

/// Does rounding the grant of these inputs leave the `i128` range (the
/// inputs on which the computation cannot finish)?
pub open spec fn grant_rounding_overflows(
    amount: Seq<char>,
    currency: Seq<char>,
    settings: RechargeSettingsModel,
) -> bool {
    match (
        scaled_decimal(amount, 2),
        scaled_decimal(settings.base_points_per_cny@, 6),
        scaled_decimal(effective_rate(settings.currency_to_cny_rates@, currency), 6),
    ) {
        (Some(a), Some(b), Some(r)) => a > 0 && i128::MIN <= a * r <= i128::MAX && i128::MIN <= a
            * r * b <= i128::MAX && (a * r * b + 50_000_000_000_000 > i128::MAX || a * r * b
            - 50_000_000_000_000 < i128::MIN),
        _ => false,
    }
}

/// The points a recharge grants (see [`grant_amount`]): for example
/// `"12.00"` CNY at 10 points per CNY with a 30 point bonus is 150.
pub fn compute_grant_amount(
    amount: &str,
    currency_code: &str,
    bonus_points: i64,
    settings: &RechargeSettingsModel,
) -> (r: Result<i64, CommerceError>)
    requires
        !grant_rounding_overflows(amount@, currency_code@, *settings),
    ensures
        match r {
            Ok(p) => grant_amount(amount@, currency_code@, bonus_points as int, *settings) == Ok::<
                int,
                ErrorKind,
            >(p as int),
            Err(e) => grant_amount(amount@, currency_code@, bonus_points as int, *settings)
                == Err::<int, ErrorKind>(e.kind),
        },
{
    let amount_scaled = decimal_to_scaled_i128(amount, 2)?;
    if amount_scaled <= 0 {
        return Err(validation("recharge amount must be greater than zero"));
    }
    let base_points_scaled = decimal_to_scaled_i128(settings.base_points_per_cny.as_str(), 6)?;
    let currency_chars = chars_of(currency_code);
    let key = upper_chars(&trim_chars(&currency_chars));
    let rate = match rate_lookup(&settings.currency_to_cny_rates, &key) {
        Some(r) => r,
        None => {
            let base = chars_of("CNY");
            match rate_lookup(&settings.currency_to_cny_rates, &base) {
                Some(r) => r,
                None => string_of(&chars_of("1")),
            }
        },
    };
    let currency_rate_scaled = decimal_to_scaled_i128(rate.as_str(), 6)?;
    let numerator = match amount_scaled.checked_mul(currency_rate_scaled) {
        Some(x) => match x.checked_mul(base_points_scaled) {
            Some(y) => y,
            None => {
                return Err(storage("recharge credited points overflow"));
            },
        },
        None => {
            return Err(storage("recharge credited points overflow"));
        },
    };
    let denominator: i128 = 100_000_000_000_000;
    proof {
        assert(trunc_div(100_000_000_000_000, 2) == 50_000_000_000_000);
    }
    proof {
        assert(rate@ == effective_rate(settings.currency_to_cny_rates@, currency_code@));
        assert(numerator == amount_scaled * currency_rate_scaled * base_points_scaled);
    }
    let rounded = round_divide_i128(numerator, denominator);
    let credited = rounded + (bonus_points as i128);
    if credited < i64::MIN as i128 || credited > i64::MAX as i128 {
        return Err(storage("recharge credited points overflow"));
    }
    Ok(credited as i64)
}

proof fn lemma_digit_char(d: int)
    requires
        0 <= d < 10,
    ensures
        is_digit(crate::text::digit_char(d)),
        digit_value(crate::text::digit_char(d)) == d,
{
    let c = crate::text::digit_char(d);
    assert(c as int == d + 48);
}

proof fn lemma_nat_text_is_digits(n: nat)
    ensures
        nat_text(n).len() > 0,
        all_digits(nat_text(n)),
        digits_value(nat_text(n)) == n,
    decreases n,
{
    if n < 10 {
        lemma_digit_char(n as int);
        let t = nat_text(n);
        assert(t == seq![crate::text::digit_char(n as int)]);
        assert(t.drop_last() =~= Seq::<char>::empty());
        assert(t.last() == crate::text::digit_char(n as int));
        assert(digits_value(t.drop_last()) == 0);
        assert(digits_value(t) == digits_value(t.drop_last()) * 10 + digit_value(t.last()));
    } else {
        lemma_nat_text_is_digits(n / 10);
        lemma_digit_char((n % 10) as int);
        let t = nat_text(n);
        assert(t.drop_last() == nat_text(n / 10));
        assert(t.last() == crate::text::digit_char((n % 10) as int));
        assert forall|i: int| 0 <= i < t.len() implies #[trigger] is_digit(t[i]) by {
            if i < t.len() - 1 {
                assert(t[i] == nat_text(n / 10)[i]);
            }
        }
        assert(digits_value(t) == digits_value(t.drop_last()) * 10 + digit_value(t.last()));
        assert(digits_value(t) == (n / 10) * 10 + n % 10);
    }
}

/// The two-digit text of a remainder of division by 100.
proof fn lemma_two_digit_fraction(f: nat)
    requires
        f < 100,
    ensures
        padded_text(f, 2).len() == 2,
        all_digits(padded_text(f, 2)),
        digits_value(padded_text(f, 2)) == f,
{
    lemma_nat_text_is_digits(f);
    lemma_nat_text_small(f);
    let p = padded_text(f, 2);
    if f < 10 {
        lemma_digit_char(0);
        assert(p == seq!['0'] + nat_text(f));
        assert(p.drop_last() =~= seq!['0']);
        assert(seq!['0'].drop_last() =~= Seq::<char>::empty());
        assert(p.last() == nat_text(f)[0]);
        assert(digits_value(seq!['0']) == digits_value(seq!['0'].drop_last()) * 10 + digit_value('0'));
        assert(digits_value(seq!['0']) == 0);
        assert(digits_value(p) == digits_value(p.drop_last()) * 10 + digit_value(p.last()));
        assert(nat_text(f) == seq![crate::text::digit_char(f as int)]);
        lemma_digit_char(f as int);
        assert forall|i: int| 0 <= i < p.len() implies #[trigger] is_digit(p[i]) by {
            if i == 1 {
                assert(p[1] == nat_text(f)[0]);
            }
        }
    }
}

proof fn lemma_first_index_after_digits(a: Seq<char>, b: Seq<char>)
    requires
        all_digits(a),
    ensures
        crate::text::first_index(a + seq!['.'] + b, '.') == a.len(),
    decreases a.len(),
{
    if a.len() > 0 {
        assert(is_digit(a[0]));
        assert((a + seq!['.'] + b).drop_first() =~= a.drop_first() + seq!['.'] + b);
        lemma_first_index_after_digits(a.drop_first(), b);
    } else {
        assert((a + seq!['.'] + b)[0] == '.');
    }
}

proof fn lemma_digits_have_no_point(p: Seq<char>)
    requires
        all_digits(p),
    ensures
        crate::text::first_index(p, '.') == p.len(),
{
    lemma_first_index(p, '.');
    if contains_char(p, '.') {
        let i = choose|i: int| 0 <= i < p.len() && p[i] == '.';
        assert(is_digit(p[i]));
    }
}

/// Minor units written in major units read back as the same minor units:
/// for every non-negative amount, the money column reader recovers what the
/// major-unit formatter wrote.
pub proof fn law_minor_units_round_trip(cents: int)
    requires
        0 <= cents <= i64::MAX,
    ensures
        minor_units_value(major_text(cents)) == Some(cents),
{
    let w = cents / 100;
    let f = cents % 100;
    let whole = nat_text(w as nat);
    let frac = padded_text(f as nat, 2);
    lemma_nat_text_is_digits(w as nat);
    lemma_two_digit_fraction(f as nat);
    let s = major_text(cents);
    assert(s =~= whole + seq!['.'] + frac);
    assert(!crate::text::is_ws(s[0])) by {
        assert(is_digit(whole[0]));
    }
    assert(!crate::text::is_ws(s.last())) by {
        assert(s.last() == frac[1]);
        assert(is_digit(frac[1]));
    }
    assert(crate::text::trim_start(s) == s);
    assert(crate::text::trim_end(s) == s);
    assert(trim(s) == s);
    lemma_first_index_after_digits(whole, frac);
    assert(contains_char(s, '.')) by {
        assert(s[whole.len() as int] == '.');
    }
    assert(split_part0(s, '.') =~= whole);
    assert(after_first(s, '.') =~= frac);
    lemma_digits_have_no_point(frac);
    assert(split_part1(s, '.') =~= frac);
    assert(!split_has_third(s, '.'));
    lemma_all_digits_parse(whole);
    lemma_all_digits_parse(frac);
    assert(pad_zeros(frac, 2) == frac);
    assert(parse_i64(whole) == Some(w));
    assert(parse_i64(frac) == Some(f));
}

/// A canonical minor-unit text: decimal digits without a leading zero
/// (but for `"0"` itself), of a value that fits an `i64`.
pub open spec fn canonical_minor_text(s: Seq<char>) -> bool {
    &&& s.len() > 0
    &&& all_digits(s)
    &&& (s[0] == '0' ==> s.len() == 1)
    &&& digits_value(s) <= i64::MAX
}

proof fn lemma_leading_digit_positive(s: Seq<char>)
    requires
        s.len() > 0,
        all_digits(s),
        s[0] != '0',
    ensures
        digits_value(s) >= 1,
    decreases s.len(),
{
    assert(is_digit(s.last()));
    if s.len() > 1 {
        let p = s.drop_last();
        assert(p[0] == s[0]);
        assert(all_digits(p)) by {
            assert forall|i: int| 0 <= i < p.len() implies #[trigger] is_digit(p[i]) by {
                assert(p[i] == s[i]);
            }
        }
        lemma_leading_digit_positive(p);
    } else {
        assert(s.drop_last().len() == 0);
        assert(is_digit(s[0]));
    }
}

/// The decimal text of the value of a canonical digit text is that text.
proof fn lemma_canonical_nat_text(s: Seq<char>)
    requires
        s.len() > 0,
        all_digits(s),
        s[0] == '0' ==> s.len() == 1,
    ensures
        nat_text(digits_value(s)) == s,
    decreases s.len(),
{
    let c = s.last();
    assert(is_digit(c));
    let d = digit_value(c);
    assert(crate::text::digit_char(d) == c) by {
        assert(c as int == d + 48);
    }
    let p = s.drop_last();
    if s.len() == 1 {
        assert(p.len() == 0);
        assert(digits_value(p) == 0);
        assert(digits_value(s) == digits_value(p) * 10 + d);
        assert(nat_text(d as nat) =~= s);
    } else {
        assert(p[0] == s[0]);
        assert(all_digits(p)) by {
            assert forall|i: int| 0 <= i < p.len() implies #[trigger] is_digit(p[i]) by {
                assert(p[i] == s[i]);
            }
        }
        lemma_canonical_nat_text(p);
        lemma_leading_digit_positive(p);
        let n = digits_value(s);
        assert(n == digits_value(p) * 10 + d);
        assert(n >= 10);
        assert(n / 10 == digits_value(p) && n % 10 == d);
        assert(nat_text(n) == nat_text(n / 10).push(crate::text::digit_char((n % 10) as int)));
        assert(nat_text(n) =~= s);
    }
}

/// Canonical minor units survive the trip through major units: a canonical
/// minor-unit text `s` of value `v` parses as `v`, its major-unit text reads
/// back as `v`, and `v` is written as `s` again (`"1200"` becomes `"12.00"`
/// and then `"1200"`).
pub proof fn law_canonical_minor_units_round_trip(s: Seq<char>)
    requires
        canonical_minor_text(s),
    ensures
        parse_i64(trim(s)) == Some(digits_value(s) as int),
        minor_units_value(major_text(digits_value(s) as int)) == Some(digits_value(s) as int),
        int_text(digits_value(s) as int) == s,
{
    assert(is_digit(s[0]));
    assert(is_digit(s.last()));
    assert(crate::text::trim_start(s) == s);
    assert(crate::text::trim_end(s) == s);
    lemma_all_digits_parse(s);
    law_minor_units_round_trip(digits_value(s) as int);
    lemma_canonical_nat_text(s);
}

/// The amounts (major units) every currency's recharge preview shows.
pub open spec fn preview_amounts() -> Seq<Seq<char>> {
    seq!["5"@, "10"@, "20"@, "30"@, "50"@, "100"@, "200"@, "500"@, "1000"@]
}

/// The preview amounts as exec strings, in order.
fn preview_amount_texts() -> (r: Vec<&'static str>)
    ensures
        r@.len() == preview_amounts().len(),
        forall|j: int| 0 <= j < r@.len() ==> (#[trigger] r@[j])@ == preview_amounts()[j],
{
    let v: Vec<&'static str> = vec!["5", "10", "20", "30", "50", "100", "200", "500", "1000"];
    proof {
        assert(v@.len() == 9);
    }
    v
}

/// The grant previews of one currency are the grants of the preview
/// amounts, in order.
pub open spec fn previews_of(currency: Seq<char>, examples: Seq<(String, i64)>, settings: RechargeSettingsModel) -> bool {
    &&& examples.len() == preview_amounts().len()
    &&& forall|j: int|
        0 <= j < examples.len() ==> {
            let e = #[trigger] examples[j];
            e.0@ == preview_amounts()[j] && grant_amount(preview_amounts()[j], currency, 0, settings)
                == Ok::<int, ErrorKind>(e.1 as int)
        }
}

/// Does every preview amount of every configured currency grant points?
pub open spec fn all_previews_grant(settings: RechargeSettingsModel) -> bool {
    forall|i: int, j: int|
        0 <= i < settings.currency_to_cny_rates@.len() && 0 <= j < preview_amounts().len() ==> (
        #[trigger] grant_amount(preview_amounts()[j], settings.currency_to_cny_rates@[i].0@, 0, settings)).is_ok()
}

/// The points each preview amount grants, per configured currency (in the
/// order of the settings); the first grant that fails fails the preview.
pub fn build_recharge_preview_examples(settings: &RechargeSettingsModel) -> (r: Result<
    Vec<(String, Vec<(String, i64)>)>,
    CommerceError,
>)
    requires
        forall|i: int, j: int|
            0 <= i < settings.currency_to_cny_rates@.len() && 0 <= j < preview_amounts().len()
                ==> !(#[trigger] grant_rounding_overflows(
                preview_amounts()[j],
                settings.currency_to_cny_rates@[i].0@,
                *settings,
            )),
    ensures
        r.is_ok() == all_previews_grant(*settings),
        r.is_ok() ==> {
            let v = r->Ok_0@;
            &&& v.len() == settings.currency_to_cny_rates@.len()
            &&& forall|i: int|
                0 <= i < v.len() ==> (#[trigger] v[i]).0@ == settings.currency_to_cny_rates@[i].0@
                    && previews_of(v[i].0@, v[i].1@, *settings)
        },
        r.is_err() ==> exists|i: int, j: int|
            0 <= i < settings.currency_to_cny_rates@.len() && 0 <= j < preview_amounts().len()
                && #[trigger] grant_amount(preview_amounts()[j], settings.currency_to_cny_rates@[i].0@, 0, *settings)
                == Err::<int, ErrorKind>(r->Err_0.kind),
{
    let rates = &settings.currency_to_cny_rates;
    let amounts = preview_amount_texts();
    let mut out: Vec<(String, Vec<(String, i64)>)> = Vec::new();
    let mut i: usize = 0;
    while i < rates.len()
        invariant
            rates@ == settings.currency_to_cny_rates@,
            i <= rates@.len(),
            amounts@.len() == preview_amounts().len(),
            forall|j: int| 0 <= j < amounts@.len() ==> (#[trigger] amounts@[j])@ == preview_amounts()[j],
            forall|a: int, j: int|
                0 <= a < rates@.len() && 0 <= j < preview_amounts().len() ==> !(#[trigger] grant_rounding_overflows(
                    preview_amounts()[j],
                    rates@[a].0@,
                    *settings,
                )),
            out@.len() == i,
            forall|a: int|
                0 <= a < i ==> (#[trigger] out@[a]).0@ == rates@[a].0@ && previews_of(
                    out@[a].0@,
                    out@[a].1@,
                    *settings,
                ),
            forall|a: int, j: int|
                0 <= a < i && 0 <= j < preview_amounts().len() ==> (#[trigger] grant_amount(
                    preview_amounts()[j],
                    rates@[a].0@,
                    0,
                    *settings,
                )).is_ok(),
        decreases rates.len() - i,
    {
        let currency = rates[i].0.as_str();
        let mut examples: Vec<(String, i64)> = Vec::new();
        let mut j: usize = 0;
        while j < amounts.len()
            invariant
                rates@ == settings.currency_to_cny_rates@,
                i < rates@.len(),
                currency@ == rates@[i as int].0@,
                amounts@.len() == preview_amounts().len(),
                forall|k: int| 0 <= k < amounts@.len() ==> (#[trigger] amounts@[k])@ == preview_amounts()[k],
                forall|a: int, k: int|
                    0 <= a < rates@.len() && 0 <= k < preview_amounts().len() ==> !(#[trigger] grant_rounding_overflows(
                        preview_amounts()[k],
                        rates@[a].0@,
                        *settings,
                    )),
                j <= amounts@.len(),
                examples@.len() == j,
                forall|k: int|
                    0 <= k < j ==> {
                        let e = #[trigger] examples@[k];
                        e.0@ == preview_amounts()[k] && grant_amount(preview_amounts()[k], currency@, 0, *settings)
                            == Ok::<int, ErrorKind>(e.1 as int)
                    },
            decreases amounts.len() - j,
        {
            let amount = amounts[j];
            proof {
                assert(!grant_rounding_overflows(preview_amounts()[j as int], rates@[i as int].0@, *settings));
            }
            let grant = compute_grant_amount(amount, currency, 0, settings)?;
            examples.push((amount.to_owned(), grant));
            j = j + 1;
        }
        proof {
            assert(previews_of(currency@, examples@, *settings));
            assert forall|k: int| 0 <= k < preview_amounts().len() implies (#[trigger] grant_amount(
                preview_amounts()[k],
                rates@[i as int].0@,
                0,
                *settings,
            )).is_ok() by {
                assert(examples@[k].0@ == preview_amounts()[k]);
            }
        }
        out.push((currency.to_owned(), examples));
        i = i + 1;
    }
    Ok(out)
}

/// Non-negative points stored as decimal text.
pub fn checkout_points(value: &str) -> (r: Result<i64, CommerceError>)
    ensures
        match r {
            Ok(p) => parse_i64(trim(value@)) == Some(p as int) && p >= 0,
            Err(e) => e.kind == ErrorKind::Storage && match parse_i64(trim(value@)) {
                Some(p) => p < 0,
                None => true,
            },
        },
{
    let raw = chars_of(value);
    let t = trim_chars(&raw);
    match parse_i64_chars(&t) {
        Some(p) => {
            if p < 0 {
                Err(storage_with("invalid checkout points: ", &raw))
            } else {
                Ok(p)
            }
        },
        None => Err(storage_with("invalid checkout points: ", &raw)),
    }
}

/// The two spellings under which a stored decimal price may be matched: all
/// trailing fraction zeros dropped, and one place kept.
pub struct DecimalSqlMatchKeys {
    pub compact: String,
    pub one_decimal: String,
}

/// The major-unit spelling of an amount: kept when it has a point, else
/// minor units written as a two-place decimal (kept as is when that fails).
pub open spec fn match_key_source(amount: Seq<char>) -> Seq<char> {
    if contains_char(amount, '.') {
        amount
    } else {
        match parse_i64(trim(amount)) {
            Some(c) => major_text(c),
            None => amount,
        }
    }
}

pub open spec fn compact_key(amount: Seq<char>) -> Seq<char> {
    trim_end_char(trim_end_char(match_key_source(amount), '0'), '.')
}

pub open spec fn one_decimal_key(amount: Seq<char>) -> Seq<char> {
    let a = match_key_source(amount);
    let f = after_first(a, '.');
    if contains_char(a, '.') && f.len() == 2 && f[1] == '0' && crate::text::is_ascii_char(f[0]) {
        before_first(a, '.') + seq!['.', f[0]]
    } else {
        a
    }
}

pub fn decimal_sql_match_keys(amount: &str) -> (r: DecimalSqlMatchKeys)
    requires
        !contains_char(amount@, '.') ==> parse_i64(trim(amount@)) != Some(i64::MIN as int),
    ensures
        r.compact@ == compact_key(amount@),
        r.one_decimal@ == one_decimal_key(amount@),
{
    let raw = chars_of(amount);
    let source: Vec<char> = if contains_char_exec(&raw, '.') {
        raw
    } else {
        match minor_units_to_major_decimal(amount) {
            Ok(s) => chars_of(s.as_str()),
            Err(_) => raw,
        }
    };
    proof {
        assert(source@ == match_key_source(amount@));
    }
    let compact = trim_end_char_exec(&trim_end_char_exec(&source, '0'), '.');
    let (whole, fraction) = split_once_chars(&source, '.');
    proof {
        lemma_first_index(source@, '.');
    }
    let has_dot = contains_char_exec(&source, '.');
    let one_decimal = if has_dot && fraction.len() == 2 && fraction[1] == '0' && crate::text::is_ascii_char_exec(fraction[0]) {
        let mut v = whole;
        v.push('.');
        v.push(fraction[0]);
        proof {
            assert(v@ =~= before_first(source@, '.') + seq!['.', fraction@[0]]);
        }
        v
    } else {
        source
    };
    DecimalSqlMatchKeys { compact: string_of(&compact), one_decimal: string_of(&one_decimal) }
}

/// The line total of `quantity` units at `amount_minor` each.
pub fn multiply_money_amount(amount_minor: i64, quantity: i64) -> (r: Result<String, CommerceError>)
    ensures
        match r {
            Ok(s) => quantity > 0 && i64::MIN <= amount_minor * quantity <= i64::MAX && s@ == int_text(
                amount_minor * quantity,
            ),
            Err(e) => e.kind == ErrorKind::Validation && (quantity <= 0 || !(i64::MIN <= amount_minor
                * quantity <= i64::MAX)),
        },
{
    if quantity <= 0 {
        return Err(validation("checkout line quantity must be greater than zero"));
    }
    match amount_minor.checked_mul(quantity) {
        Some(total) => Ok(string_of(&i64_text(total))),
        None => Err(validation("checkout line amount is too large")),
    }
}

pub open spec fn seq_sum(s: Seq<i64>) -> int
    decreases s.len(),
{
    if s.len() == 0 {
        0
    } else {
        seq_sum(s.drop_last()) + s.last()
    }
}

/// Does some running total of `s` leave the `i64` range?
pub open spec fn running_total_overflows(s: Seq<i64>) -> bool {
    exists|k: int| 1 <= k <= s.len() && !(i64::MIN <= #[trigger] seq_sum(s.take(k)) <= i64::MAX)
}

/// The total of `amounts`, refused when a running total leaves `i64`.
pub fn sum_money_amounts(amounts: &Vec<i64>) -> (r: Result<String, CommerceError>)
    ensures
        match r {
            Ok(s) => !running_total_overflows(amounts@) && s@ == int_text(seq_sum(amounts@)),
            Err(e) => running_total_overflows(amounts@) && e.kind == ErrorKind::Validation,
        },
{
    let mut total: i64 = 0;
    let mut i: usize = 0;
    proof {
        assert(amounts@.take(0) =~= Seq::<i64>::empty());
    }
    while i < amounts.len()
        invariant
            i <= amounts.len(),
            total == seq_sum(amounts@.take(i as int)),
            forall|k: int| 1 <= k <= i ==> i64::MIN <= #[trigger] seq_sum(amounts@.take(k)) <= i64::MAX,
        decreases amounts.len() - i,
    {
        proof {
            assert(amounts@.take(i + 1).drop_last() =~= amounts@.take(i as int));
        }
        match total.checked_add(amounts[i]) {
            Some(t) => {
                total = t;
            },
            None => {
                proof {
                    assert(!(i64::MIN <= seq_sum(amounts@.take(i + 1)) <= i64::MAX));
                }
                return Err(validation("checkout total amount is too large"));
            },
        }
        i = i + 1;
    }
    proof {
        assert(amounts@.take(amounts.len() as int) =~= amounts@);
        assert forall|k: int| 1 <= k <= amounts@.len() implies i64::MIN <= #[trigger] seq_sum(
            amounts@.take(k),
        ) <= i64::MAX by {}
    }
    Ok(string_of(&i64_text(total)))
}

} // verus!
