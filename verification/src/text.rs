//! Character-level helpers shared by the parsers and formatters of the library.
//!
//! Strings are handled as sequences of `char`; the spec functions here state
//! what the standard library operations used by the order store mean
//! (`str::trim`, ASCII lowercasing, decimal integer text).
use vstd::prelude::*;

verus! {

/// `char::is_whitespace`: the Unicode `White_Space` property.
pub open spec fn is_ws(c: char) -> bool {
    ||| ('\u{9}' <= c && c <= '\u{d}')
    ||| c == ' '
    ||| c == '\u{85}'
    ||| c == '\u{a0}'
    ||| c == '\u{1680}'
    ||| ('\u{2000}' <= c && c <= '\u{200a}')
    ||| c == '\u{2028}'
    ||| c == '\u{2029}'
    ||| c == '\u{202f}'
    ||| c == '\u{205f}'
    ||| c == '\u{3000}'
}

pub open spec fn is_digit(c: char) -> bool {
    '0' <= c && c <= '9'
}

pub open spec fn digit_value(c: char) -> int {
    (c as int) - ('0' as int)
}

pub open spec fn digit_char(d: int) -> char {
    (d + ('0' as int)) as char
}

pub open spec fn is_upper_ascii(c: char) -> bool {
    'A' <= c && c <= 'Z'
}

/// `char::to_ascii_lowercase`.
pub open spec fn lower_char(c: char) -> char {
    if is_upper_ascii(c) {
        ((c as int) + 32) as char
    } else {
        c
    }
}

pub open spec fn lower_seq(s: Seq<char>) -> Seq<char> {
    s.map_values(|c: char| lower_char(c))
}

/// `str::trim_start`.
pub open spec fn trim_start(s: Seq<char>) -> Seq<char>
    decreases s.len(),
{
    if s.len() > 0 && is_ws(s[0]) {
        trim_start(s.drop_first())
    } else {
        s
    }
}

/// `str::trim_end`.
pub open spec fn trim_end(s: Seq<char>) -> Seq<char>
    decreases s.len(),
{
    if s.len() > 0 && is_ws(s.last()) {
        trim_end(s.drop_last())
    } else {
        s
    }
}

/// `str::trim`.
pub open spec fn trim(s: Seq<char>) -> Seq<char> {
    trim_end(trim_start(s))
}

pub open spec fn all_digits(s: Seq<char>) -> bool {
    forall|i: int| 0 <= i < s.len() ==> #[trigger] is_digit(s[i])
}

/// The value of a sequence of decimal digits (0 for the empty sequence).
pub open spec fn digits_value(s: Seq<char>) -> nat
    decreases s.len(),
{
    if s.len() == 0 {
        0
    } else {
        (digits_value(s.drop_last()) * 10 + digit_value(s.last())) as nat
    }
}

/// `str::parse::<iN>` before the range check: an optional sign, then at
/// least one decimal digit and nothing else.
pub open spec fn signed_decimal(s: Seq<char>) -> Option<int> {
    if s.len() > 0 && (s[0] == '-' || s[0] == '+') {
        let rest = s.drop_first();
        if rest.len() > 0 && all_digits(rest) {
            if s[0] == '-' {
                Some(-(digits_value(rest) as int))
            } else {
                Some(digits_value(rest) as int)
            }
        } else {
            None
        }
    } else if s.len() > 0 && all_digits(s) {
        Some(digits_value(s) as int)
    } else {
        None
    }
}

/// `str::parse::<i64>`.
pub open spec fn parse_i64(s: Seq<char>) -> Option<int> {
    match signed_decimal(s) {
        Some(v) => if i64::MIN <= v <= i64::MAX { Some(v) } else { None },
        None => None,
    }
}

/// `str::parse::<i128>`.
pub open spec fn parse_i128(s: Seq<char>) -> Option<int> {
    match signed_decimal(s) {
        Some(v) => if i128::MIN <= v <= i128::MAX { Some(v) } else { None },
        None => None,
    }
}

/// Decimal text of a natural number, without leading zeros.
pub open spec fn nat_text(n: nat) -> Seq<char>
    decreases n,
{
    if n < 10 {
        seq![digit_char(n as int)]
    } else {
        nat_text(n / 10).push(digit_char((n % 10) as int))
    }
}

/// Decimal text of an integer, as `Display` writes it.
pub open spec fn int_text(n: int) -> Seq<char> {
    if n < 0 {
        seq!['-'] + nat_text((-n) as nat)
    } else {
        nat_text(n as nat)
    }
}

/// Decimal text padded with leading zeros to at least `width` characters.
pub open spec fn padded_text(n: nat, width: nat) -> Seq<char>
    decreases width,
{
    if nat_text(n).len() >= width {
        nat_text(n)
    } else {
        seq!['0'] + padded_text(n, (width - 1) as nat)
    }
}

pub assume_specification[ String::push ](s: &mut String, ch: char)
    ensures
        final(s)@ == old(s)@.push(ch),
;

/// The characters of `s`.
pub fn chars_of(s: &str) -> (v: Vec<char>)
    ensures
        v@ == s@,
{
    let mut v: Vec<char> = Vec::new();
    for c in it: s.chars()
        invariant
            v@ == it.seq().take(it.index() as int),
    {
        v.push(c);
    }
    v
}

/// A `String` holding the characters of `v`.
pub fn string_of(v: &Vec<char>) -> (s: String)
    ensures
        s@ == v@,
{
    let mut s = String::new();
    let mut i: usize = 0;
    while i < v.len()
        invariant
            i <= v.len(),
            s@ == v@.take(i as int),
        decreases v.len() - i,
    {
        s.push(v[i]);
        i = i + 1;
        proof {
            assert(v@.take(i as int) =~= v@.take((i - 1) as int).push(v@[i - 1]));
        }
    }
    proof {
        assert(v@.take(v.len() as int) =~= v@);
    }
    s
}

pub fn is_ws_exec(c: char) -> (r: bool)
    ensures
        r == is_ws(c),
{
    ('\u{9}' <= c && c <= '\u{d}') || c == ' ' || c == '\u{85}' || c == '\u{a0}' || c
        == '\u{1680}' || ('\u{2000}' <= c && c <= '\u{200a}') || c == '\u{2028}' || c
        == '\u{2029}' || c == '\u{202f}' || c == '\u{205f}' || c == '\u{3000}'
}

pub fn is_digit_exec(c: char) -> (r: bool)
    ensures
        r == is_digit(c),
{
    '0' <= c && c <= '9'
}

pub fn lower_char_exec(c: char) -> (r: char)
    ensures
        r == lower_char(c),
{
    if 'A' <= c && c <= 'Z' {
        let b: u8 = (c as u8) + 32;
        b as char
    } else {
        c
    }
}

proof fn lemma_trim_start_skip(s: Seq<char>, i: int)
    requires
        0 <= i < s.len(),
        is_ws(s[i]),
    ensures
        trim_start(s.subrange(i, s.len() as int)) == trim_start(s.subrange(i + 1, s.len() as int)),
{
    assert(s.subrange(i, s.len() as int).drop_first() =~= s.subrange(i + 1, s.len() as int));
}

proof fn lemma_trim_end_skip(s: Seq<char>, j: int)
    requires
        0 < j <= s.len(),
        is_ws(s[j - 1]),
    ensures
        trim_end(s.subrange(0, j)) == trim_end(s.subrange(0, j - 1)),
{
    assert(s.subrange(0, j).drop_last() =~= s.subrange(0, j - 1));
}

proof fn lemma_trim_start_front(s: Seq<char>)
    ensures
        trim_start(s).len() > 0 ==> !is_ws(trim_start(s)[0]),
        trim_start(s).len() > 0 ==> trim_start(s).last() == s.last(),
    decreases s.len(),
{
    if s.len() > 0 && is_ws(s[0]) {
        lemma_trim_start_front(s.drop_first());
    }
}

proof fn lemma_trim_end_back(s: Seq<char>)
    ensures
        trim_end(s).len() > 0 ==> !is_ws(trim_end(s).last()),
        trim_end(s).len() > 0 ==> trim_end(s)[0] == s[0],
    decreases s.len(),
{
    if s.len() > 0 && is_ws(s.last()) {
        lemma_trim_end_back(s.drop_last());
        if trim_end(s.drop_last()).len() > 0 {
            assert(s.drop_last()[0] == s[0]);
        }
    }
}

/// Trimmed text has nothing left to trim.
pub proof fn lemma_trim_idempotent(s: Seq<char>)
    ensures
        trim(trim(s)) == trim(s),
{
    let t = trim(s);
    lemma_trim_start_front(s);
    lemma_trim_end_back(trim_start(s));
    if t.len() > 0 {
        assert(!is_ws(t[0]));
        assert(trim_start(t) == t);
        assert(!is_ws(t.last()));
        assert(trim_end(t) == t);
    } else {
        assert(trim_start(t) == t);
        assert(trim_end(t) == t);
    }
}

/// `str::trim` on a character vector.
pub fn trim_chars(v: &Vec<char>) -> (r: Vec<char>)
    ensures
        r@ == trim(v@),
{
    let n = v.len();
    let mut i: usize = 0;
    proof {
        assert(v@.subrange(0, n as int) =~= v@);
    }
    while i < n && is_ws_exec(v[i])
        invariant
            i <= n,
            n == v.len(),
            trim_start(v@) == trim_start(v@.subrange(i as int, n as int)),
        decreases n - i,
    {
        proof {
            lemma_trim_start_skip(v@, i as int);
        }
        i = i + 1;
    }
    proof {
        assert(v@.subrange(0, n as int) =~= v@);
        if i < n {
            assert(trim_start(v@.subrange(i as int, n as int)) == v@.subrange(i as int, n as int));
        } else {
            assert(v@.subrange(i as int, n as int).len() == 0);
        }
    }
    let ghost start = v@.subrange(i as int, n as int);
    let mut j: usize = n;
    proof {
        assert(start.subrange(0, (n - i) as int) =~= start);
    }
    while j > i && is_ws_exec(v[j - 1])
        invariant
            i <= j <= n,
            n == v.len(),
            start == v@.subrange(i as int, n as int),
            trim_end(start) == trim_end(start.subrange(0, j - i)),
        decreases j - i,
    {
        proof {
            lemma_trim_end_skip(start, (j - i) as int);
            assert(start.subrange(0, (j - i) as int)[(j - i - 1) as int] == v@[j - 1]);
        }
        j = j - 1;
    }
    proof {
        assert(start.subrange(0, (n - i) as int) =~= start);
        if j > i {
            assert(start.subrange(0, (j - i) as int).last() == v@[j - 1]);
        }
    }
    let mut r: Vec<char> = Vec::new();
    let mut k: usize = i;
    while k < j
        invariant
            i <= k <= j,
            j <= n,
            n == v.len(),
            r@ == v@.subrange(i as int, k as int),
        decreases j - k,
    {
        r.push(v[k]);
        k = k + 1;
        proof {
            assert(v@.subrange(i as int, k as int) =~= v@.subrange(i as int, k - 1).push(v@[k - 1]));
        }
    }
    proof {
        assert(r@ =~= start.subrange(0, (j - i) as int));
    }
    r
}

/// ASCII lowercasing of a character vector.
pub fn lower_chars(v: &Vec<char>) -> (r: Vec<char>)
    ensures
        r@ == lower_seq(v@),
{
    let mut r: Vec<char> = Vec::new();
    let mut i: usize = 0;
    while i < v.len()
        invariant
            i <= v.len(),
            r@ =~= lower_seq(v@.take(i as int)),
        decreases v.len() - i,
    {
        r.push(lower_char_exec(v[i]));
        i = i + 1;
        proof {
            assert(v@.take(i as int) =~= v@.take(i - 1).push(v@[i - 1]));
        }
    }
    proof {
        assert(v@.take(v.len() as int) =~= v@);
    }
    r
}

/// `trim` followed by ASCII lowercasing, the normalisation that status
/// comparisons apply.
pub fn trim_lower(s: &str) -> (r: Vec<char>)
    ensures
        r@ == lower_seq(trim(s@)),
{
    let v = chars_of(s);
    let t = trim_chars(&v);
    lower_chars(&t)
}

pub fn chars_eq(a: &Vec<char>, b: &Vec<char>) -> (r: bool)
    ensures
        r == (a@ == b@),
{
    if a.len() != b.len() {
        return false;
    }
    let mut i: usize = 0;
    while i < a.len()
        invariant
            i <= a.len(),
            a.len() == b.len(),
            forall|k: int| 0 <= k < i ==> a@[k] == b@[k],
        decreases a.len() - i,
    {
        if a[i] != b[i] {
            return false;
        }
        i = i + 1;
    }
    proof {
        assert(a@ =~= b@);
    }
    true
}

/// Does `v` equal the characters of the literal `s`?
pub fn chars_eq_str(v: &Vec<char>, s: &str) -> (r: bool)
    ensures
        r == (v@ == s@),
{
    let w = chars_of(s);
    chars_eq(v, &w)
}

pub fn digit_char_exec(d: u64) -> (c: char)
    requires
        d < 10,
    ensures
        c == digit_char(d as int),
        is_digit(c),
{
    let b: u8 = (d as u8) + 48;
    b as char
}

/// Decimal text of `n`.
pub fn nat_text_exec(n: u64) -> (v: Vec<char>)
    ensures
        v@ == nat_text(n as nat),
    decreases n,
{
    if n < 10 {
        let mut v: Vec<char> = Vec::new();
        v.push(digit_char_exec(n));
        proof {
            assert(v@ =~= seq![digit_char(n as int)]);
        }
        v
    } else {
        let mut v = nat_text_exec(n / 10);
        v.push(digit_char_exec(n % 10));
        v
    }
}

/// Decimal text of `n`, as `Display` writes it.
pub fn i64_text(n: i64) -> (v: Vec<char>)
    ensures
        v@ == int_text(n as int),
{
    if n < 0 {
        let m: u64 = (0i128 - (n as i128)) as u64;
        let t = nat_text_exec(m);
        let mut v: Vec<char> = Vec::new();
        v.push('-');
        let mut i: usize = 0;
        while i < t.len()
            invariant
                i <= t.len(),
                v@ == seq!['-'] + t@.take(i as int),
            decreases t.len() - i,
        {
            v.push(t[i]);
            i = i + 1;
            proof {
                assert(t@.take(i as int) =~= t@.take(i - 1).push(t@[i - 1]));
                assert(v@ =~= seq!['-'] + t@.take(i as int));
            }
        }
        proof {
            assert(t@.take(t.len() as int) =~= t@);
        }
        v
    } else {
        nat_text_exec(n as u64)
    }
}

/// Appends the characters of `w` to `v`.
pub fn append_chars(v: &mut Vec<char>, w: &Vec<char>)
    ensures
        final(v)@ == old(v)@ + w@,
{
    let ghost v0 = v@;
    let mut i: usize = 0;
    while i < w.len()
        invariant
            i <= w.len(),
            v@ == v0 + w@.take(i as int),
        decreases w.len() - i,
    {
        v.push(w[i]);
        i = i + 1;
        proof {
            assert(w@.take(i as int) =~= w@.take(i - 1).push(w@[i - 1]));
            assert(v@ =~= v0 + w@.take(i as int));
        }
    }
    proof {
        assert(w@.take(w.len() as int) =~= w@);
    }
}

/// Appends the characters of `s` to `v`.
pub fn append_str(v: &mut Vec<char>, s: &str)
    ensures
        final(v)@ == old(v)@ + s@,
{
    let w = chars_of(s);
    append_chars(v, &w);
}

proof fn lemma_digits_value_monotone(s: Seq<char>, k: int)
    requires
        0 <= k <= s.len(),
        all_digits(s),
    ensures
        digits_value(s.take(k)) <= digits_value(s),
    decreases s.len() - k,
{
    if k < s.len() {
        lemma_digits_value_monotone(s, k + 1);
        assert(s.take(k + 1).drop_last() =~= s.take(k));
        assert(is_digit(s[k]));
        assert(digits_value(s.take(k + 1)) == digits_value(s.take(k)) * 10 + digit_value(
            s.take(k + 1).last(),
        ));
    } else {
        assert(s.take(k) =~= s);
    }
}

/// The value of the decimal digits `v[from..]` when it is at most `2^127`;
/// `None` when some character is not a digit or the value is larger.
fn digits_value_bounded(v: &Vec<char>, from: usize) -> (r: Option<u128>)
    requires
        from <= v.len(),
    ensures
        ({
            let t = v@.subrange(from as int, v.len() as int);
            match r {
                Some(x) => all_digits(t) && x == digits_value(t) && x <= 0x8000_0000_0000_0000_0000_0000_0000_0000u128,
                None => !all_digits(t) || digits_value(t) > 0x8000_0000_0000_0000_0000_0000_0000_0000u128,
            }
        }),
{
    let ghost t = v@.subrange(from as int, v.len() as int);
    let limit: u128 = 0x8000_0000_0000_0000_0000_0000_0000_0000u128;
    let mut acc: u128 = 0;
    let mut i: usize = from;
    while i < v.len()
        invariant
            from <= i <= v.len(),
            t == v@.subrange(from as int, v.len() as int),
            all_digits(t.take(i - from)),
            acc == digits_value(t.take(i - from)),
            acc <= limit,
            limit == 0x8000_0000_0000_0000_0000_0000_0000_0000u128,
        decreases v.len() - i,
    {
        let c = v[i];
        if !is_digit_exec(c) {
            proof {
                assert(t[i - from] == c);
            }
            return None;
        }
        let d: u128 = ((c as u32) - 48) as u128;
        proof {
            assert(t.take(i + 1 - from).drop_last() =~= t.take(i - from));
            assert(t.take(i + 1 - from).last() == c);
            assert(all_digits(t.take(i + 1 - from)));
        }
        proof {
            let p = t.take(i + 1 - from);
            assert(p.drop_last() =~= t.take(i - from));
            assert(p.last() == c);
            assert(digit_value(c) == d);
            assert(digits_value(p) == digits_value(p.drop_last()) * 10 + digit_value(p.last()));
            assert(digits_value(t.take(i + 1 - from)) == acc * 10 + d);
        }
        if acc > 17014118346046923173168730371588410572u128 {
            proof {
                assert(acc * 10 + d > 0x8000_0000_0000_0000_0000_0000_0000_0000u128) by (nonlinear_arith)
                    requires
                        acc > 17014118346046923173168730371588410572u128,
                ;
                assert(digits_value(t.take(i + 1 - from)) > limit);
                if all_digits(t) {
                    lemma_digits_value_monotone(t, i + 1 - from);
                }
            }
            return None;
        }
        let next = acc * 10 + d;
        if next > limit {
            proof {
                if all_digits(t) {
                    lemma_digits_value_monotone(t, i + 1 - from);
                }
            }
            return None;
        }
        acc = next;
        i = i + 1;
    }
    proof {
        assert(t.take(i - from) =~= t);
    }
    Some(acc)
}

/// `str::parse::<i128>` on a character vector.
pub fn parse_i128_chars(v: &Vec<char>) -> (r: Option<i128>)
    ensures
        match r {
            Some(x) => parse_i128(v@) == Some(x as int),
            None => parse_i128(v@).is_none(),
        },
{
    if v.len() == 0 {
        return None;
    }
    let first = v[0];
    if first == '-' || first == '+' {
        if v.len() == 1 {
            return None;
        }
        proof {
            assert(v@.subrange(1, v.len() as int) =~= v@.drop_first());
        }
        match digits_value_bounded(v, 1) {
            None => None,
            Some(x) => {
                if first == '-' {
                    if x == 0x8000_0000_0000_0000_0000_0000_0000_0000u128 {
                        Some(i128::MIN)
                    } else {
                        Some(0i128 - (x as i128))
                    }
                } else if x <= 0x7fff_ffff_ffff_ffff_ffff_ffff_ffff_ffffu128 {
                    Some(x as i128)
                } else {
                    None
                }
            },
        }
    } else {
        proof {
            assert(v@.subrange(0, v.len() as int) =~= v@);
        }
        match digits_value_bounded(v, 0) {
            None => None,
            Some(x) => {
                if x <= 0x7fff_ffff_ffff_ffff_ffff_ffff_ffff_ffffu128 {
                    Some(x as i128)
                } else {
                    None
                }
            },
        }
    }
}

/// `str::parse::<i64>` on a character vector.
pub fn parse_i64_chars(v: &Vec<char>) -> (r: Option<i64>)
    ensures
        match r {
            Some(x) => parse_i64(v@) == Some(x as int),
            None => parse_i64(v@).is_none(),
        },
{
    match parse_i128_chars(v) {
        Some(x) => {
            if i64::MIN as i128 <= x && x <= i64::MAX as i128 {
                Some(x as i64)
            } else {
                None
            }
        },
        None => None,
    }
}

/// Index of the first `c` in `s`, or `s.len()` when there is none.
pub open spec fn first_index(s: Seq<char>, c: char) -> int
    decreases s.len(),
{
    if s.len() == 0 {
        0
    } else if s[0] == c {
        0
    } else {
        1 + first_index(s.drop_first(), c)
    }
}

pub open spec fn contains_char(s: Seq<char>, c: char) -> bool {
    exists|i: int| 0 <= i < s.len() && s[i] == c
}

/// The text before the first `c` (all of `s` when there is none).
pub open spec fn before_first(s: Seq<char>, c: char) -> Seq<char> {
    s.take(first_index(s, c))
}

/// The text after the first `c` (empty when there is none).
pub open spec fn after_first(s: Seq<char>, c: char) -> Seq<char> {
    if first_index(s, c) < s.len() {
        s.skip(first_index(s, c) + 1)
    } else {
        Seq::empty()
    }
}

/// The first piece of `s.split(c)`.
pub open spec fn split_part0(s: Seq<char>, c: char) -> Seq<char> {
    before_first(s, c)
}

/// The second piece of `s.split(c)`, empty when there is no second piece.
pub open spec fn split_part1(s: Seq<char>, c: char) -> Seq<char> {
    before_first(after_first(s, c), c)
}

/// Does `s.split(c)` have a third piece?
pub open spec fn split_has_third(s: Seq<char>, c: char) -> bool {
    first_index(s, c) < s.len() && first_index(after_first(s, c), c) < after_first(s, c).len()
}

pub proof fn lemma_first_index(s: Seq<char>, c: char)
    ensures
        0 <= first_index(s, c) <= s.len(),
        forall|k: int| 0 <= k < first_index(s, c) ==> s[k] != c,
        first_index(s, c) < s.len() ==> s[first_index(s, c)] == c,
        first_index(s, c) == s.len() <==> !contains_char(s, c),
    decreases s.len(),
{
    if s.len() > 0 && s[0] != c {
        lemma_first_index(s.drop_first(), c);
        assert forall|k: int| 0 <= k < first_index(s, c) implies s[k] != c by {
            if k > 0 {
                assert(s[k] == s.drop_first()[k - 1]);
            }
        }
        if contains_char(s, c) {
            let i = choose|i: int| 0 <= i < s.len() && s[i] == c;
            assert(s.drop_first()[i - 1] == c);
        }
        if contains_char(s.drop_first(), c) {
            let i = choose|i: int| 0 <= i < s.drop_first().len() && s.drop_first()[i] == c;
            assert(s[i + 1] == c);
        }
    }
}

/// Index of the first `c` in `v`, or `v.len()`.
pub fn find_char(v: &Vec<char>, c: char) -> (r: usize)
    ensures
        r == first_index(v@, c),
{
    proof {
        lemma_first_index(v@, c);
    }
    let mut i: usize = 0;
    while i < v.len() && v[i] != c
        invariant
            i <= v.len(),
            i <= first_index(v@, c),
            0 <= first_index(v@, c) <= v@.len(),
            forall|k: int| 0 <= k < first_index(v@, c) ==> v@[k] != c,
            first_index(v@, c) < v@.len() ==> v@[first_index(v@, c)] == c,
        decreases v.len() - i,
    {
        i = i + 1;
    }
    i
}

/// `v[from..to]`.
pub fn slice_chars(v: &Vec<char>, from: usize, to: usize) -> (r: Vec<char>)
    requires
        from <= to <= v.len(),
    ensures
        r@ == v@.subrange(from as int, to as int),
{
    let mut r: Vec<char> = Vec::new();
    let mut k: usize = from;
    while k < to
        invariant
            from <= k <= to,
            to <= v.len(),
            r@ == v@.subrange(from as int, k as int),
        decreases to - k,
    {
        r.push(v[k]);
        k = k + 1;
        proof {
            assert(v@.subrange(from as int, k as int) =~= v@.subrange(from as int, k - 1).push(
                v@[k - 1],
            ));
        }
    }
    r
}

/// The pieces that `split(c)` yields first and second, and whether there
/// is a third.
pub struct SplitPieces {
    pub first: Vec<char>,
    pub second: Vec<char>,
    pub has_third: bool,
}

pub fn split_pieces(v: &Vec<char>, c: char) -> (r: SplitPieces)
    ensures
        r.first@ == split_part0(v@, c),
        r.second@ == split_part1(v@, c),
        r.has_third == split_has_third(v@, c),
{
    let i = find_char(v, c);
    proof {
        lemma_first_index(v@, c);
    }
    let first = slice_chars(v, 0, i);
    if i == v.len() {
        proof {
            assert(after_first(v@, c) =~= Seq::<char>::empty());
            assert(before_first(Seq::<char>::empty(), c) =~= Seq::<char>::empty());
        }
        return SplitPieces { first, second: Vec::new(), has_third: false };
    }
    let rest = slice_chars(v, i + 1, v.len());
    proof {
        assert(rest@ =~= after_first(v@, c));
    }
    let j = find_char(&rest, c);
    proof {
        lemma_first_index(rest@, c);
    }
    let second = slice_chars(&rest, 0, j);
    SplitPieces { first, second, has_third: j < rest.len() }
}

pub fn all_digits_exec(v: &Vec<char>) -> (r: bool)
    ensures
        r == all_digits(v@),
{
    let mut i: usize = 0;
    while i < v.len()
        invariant
            i <= v.len(),
            forall|k: int| 0 <= k < i ==> is_digit(#[trigger] v@[k]),
        decreases v.len() - i,
    {
        if !is_digit_exec(v[i]) {
            return false;
        }
        i = i + 1;
    }
    true
}

pub fn contains_char_exec(v: &Vec<char>, c: char) -> (r: bool)
    ensures
        r == contains_char(v@, c),
{
    proof {
        lemma_first_index(v@, c);
    }
    find_char(v, c) < v.len()
}

/// `s.trim_end_matches(c)`: drops every trailing `c`.
pub open spec fn trim_end_char(s: Seq<char>, c: char) -> Seq<char>
    decreases s.len(),
{
    if s.len() > 0 && s.last() == c {
        trim_end_char(s.drop_last(), c)
    } else {
        s
    }
}

pub fn trim_end_char_exec(v: &Vec<char>, c: char) -> (r: Vec<char>)
    ensures
        r@ == trim_end_char(v@, c),
{
    let mut j: usize = v.len();
    proof {
        assert(v@.subrange(0, j as int) =~= v@);
    }
    while j > 0 && v[j - 1] == c
        invariant
            j <= v.len(),
            trim_end_char(v@, c) == trim_end_char(v@.subrange(0, j as int), c),
        decreases j,
    {
        proof {
            assert(v@.subrange(0, j as int).drop_last() =~= v@.subrange(0, j - 1));
        }
        j = j - 1;
    }
    slice_chars(v, 0, j)
}

pub open spec fn is_lower_ascii(c: char) -> bool {
    'a' <= c && c <= 'z'
}

/// `char::to_ascii_uppercase`.
pub open spec fn upper_char(c: char) -> char {
    if is_lower_ascii(c) {
        ((c as int) - 32) as char
    } else {
        c
    }
}

pub open spec fn upper_seq(s: Seq<char>) -> Seq<char> {
    s.map_values(|c: char| upper_char(c))
}

pub fn upper_char_exec(c: char) -> (r: char)
    ensures
        r == upper_char(c),
{
    if 'a' <= c && c <= 'z' {
        let b: u8 = (c as u8) - 32;
        b as char
    } else {
        c
    }
}

/// ASCII uppercasing of a character vector.
pub fn upper_chars(v: &Vec<char>) -> (r: Vec<char>)
    ensures
        r@ == upper_seq(v@),
{
    let mut r: Vec<char> = Vec::new();
    let mut i: usize = 0;
    while i < v.len()
        invariant
            i <= v.len(),
            r@ =~= upper_seq(v@.take(i as int)),
        decreases v.len() - i,
    {
        r.push(upper_char_exec(v[i]));
        i = i + 1;
        proof {
            assert(v@.take(i as int) =~= v@.take(i - 1).push(v@[i - 1]));
        }
    }
    proof {
        assert(v@.take(v.len() as int) =~= v@);
    }
    r
}

/// The text before and after the first `c` (`str::split_once`, with the
/// whole text and an empty rest when there is no `c`).
pub fn split_once_chars(v: &Vec<char>, c: char) -> (r: (Vec<char>, Vec<char>))
    ensures
        r.0@ == before_first(v@, c),
        r.1@ == after_first(v@, c),
{
    let i = find_char(v, c);
    proof {
        lemma_first_index(v@, c);
    }
    let before = slice_chars(v, 0, i);
    if i < v.len() {
        let after = slice_chars(v, i + 1, v.len());
        proof {
            assert(after@ =~= after_first(v@, c));
        }
        (before, after)
    } else {
        proof {
            assert(after_first(v@, c) =~= Seq::<char>::empty());
        }
        (before, Vec::new())
    }
}

pub open spec fn is_ascii_char(c: char) -> bool {
    (c as int) < 128
}

pub fn is_ascii_char_exec(c: char) -> (r: bool)
    ensures
        r == is_ascii_char(c),
{
    '\x7f' >= c
}

} // verus!
