//! The platform catalog tenant: public recharge and membership packages
//! fall back to a platform-owned tenant, whose id is configured and
//! materialized into the catalog queries.
use vstd::prelude::*;
use crate::lifecycle::opt_view;
use crate::text::{all_digits, all_digits_exec, chars_of, is_digit, string_of, trim, trim_chars};

verus! {

/// The environment variable that configures the platform catalog tenant.
pub const ENV_PLATFORM_CATALOG_TENANT_ID: &'static str = "SDKWORK_ORDER_PLATFORM_CATALOG_TENANT_ID";

/// The platform catalog tenant when none (or an invalid one) is configured.
pub const DEFAULT_PLATFORM_CATALOG_TENANT_ID: &'static str = "100001";

/// The placeholder that catalog query templates name the platform tenant by.
pub const PLATFORM_TENANT_PLACEHOLDER: &'static str = "__PLATFORM_TENANT__";

/// A platform catalog tenant id is a non-empty decimal id (the catalog
/// keys tenants as `BIGINT`).
pub open spec fn valid_tenant_id(value: Seq<char>) -> bool {
    value.len() > 0 && all_digits(value)
}

pub fn is_valid_platform_catalog_tenant_id(value: &str) -> (r: bool)
    ensures
        r == valid_tenant_id(value@),
{
    let v = chars_of(value);
    v.len() > 0 && all_digits_exec(&v)
}

/// The tenant a configured value selects: the trimmed value when it is a
/// valid id, else the default.
pub open spec fn catalog_tenant(configured: Option<Seq<char>>) -> Seq<char> {
    match configured {
        Some(v) => if valid_tenant_id(trim(v)) {
            trim(v)
        } else {
            DEFAULT_PLATFORM_CATALOG_TENANT_ID@
        },
        None => DEFAULT_PLATFORM_CATALOG_TENANT_ID@,
    }
}

/// Resolves the platform catalog tenant from its configured value.
pub fn resolve_platform_catalog_tenant_id(configured: Option<&str>) -> (r: String)
    ensures
        r@ == catalog_tenant(opt_view(configured)),
{
    match configured {
        Some(v) => {
            let t = trim_chars(&chars_of(v));
            if t.len() > 0 && all_digits_exec(&t) {
                string_of(&t)
            } else {
                DEFAULT_PLATFORM_CATALOG_TENANT_ID.to_owned()
            }
        },
        None => DEFAULT_PLATFORM_CATALOG_TENANT_ID.to_owned(),
    }
}

/// `s` with every occurrence of `pattern` (scanned left to right, without
/// overlap) replaced by `replacement`, as `str::replace` does.
pub open spec fn replaced(s: Seq<char>, pattern: Seq<char>, replacement: Seq<char>) -> Seq<char>
    decreases s.len(),
{
    if pattern.len() == 0 || s.len() < pattern.len() {
        s
    } else if s.take(pattern.len() as int) == pattern {
        replacement + replaced(s.skip(pattern.len() as int), pattern, replacement)
    } else {
        seq![s[0]] + replaced(s.drop_first(), pattern, replacement)
    }
}

fn starts_with_at(v: &Vec<char>, at: usize, p: &Vec<char>) -> (r: bool)
    requires
        at <= v@.len(),
    ensures
        r == (v@.len() - at >= p@.len() && v@.skip(at as int).take(p@.len() as int) == p@),
{
    if v.len() - at < p.len() {
        return false;
    }
    let mut k: usize = 0;
    while k < p.len()
        invariant
            k <= p@.len(),
            at + p@.len() <= v@.len(),
            v@.len() <= usize::MAX,
            forall|m: int| 0 <= m < k ==> v@[at + m] == p@[m],
        decreases p.len() - k,
    {
        if v[at + k] != p[k] {
            proof {
                assert(v@.skip(at as int).take(p@.len() as int)[k as int] != p@[k as int]);
            }
            return false;
        }
        k = k + 1;
    }
    proof {
        assert(v@.skip(at as int).take(p@.len() as int) =~= p@);
    }
    true
}

/// `template` with the platform tenant placeholder replaced by `tenant_id`.
pub fn materialize_platform_catalog_sql(template: &str, tenant_id: &str) -> (r: String)
    ensures
        r@ == replaced(template@, PLATFORM_TENANT_PLACEHOLDER@, tenant_id@),
{
    let s = chars_of(template);
    let p = chars_of(PLATFORM_TENANT_PLACEHOLDER);
    let t = chars_of(tenant_id);
    let mut out: Vec<char> = Vec::new();
    let mut i: usize = 0;
    proof {
        assert(s@.skip(0) =~= s@);
    }
    while i < s.len()
        invariant
            i <= s@.len(),
            p@ == PLATFORM_TENANT_PLACEHOLDER@,
            t@ == tenant_id@,
            s@ == template@,
            out@ + replaced(s@.skip(i as int), p@, t@) == replaced(s@, p@, t@),
        decreases s.len() - i,
    {
        let rest = Ghost(s@.skip(i as int));
        if p.len() > 0 && starts_with_at(&s, i, &p) {
            let ghost out0 = out@;
            let mut k: usize = 0;
            while k < t.len()
                invariant
                    k <= t@.len(),
                    out@ == out0 + t@.take(k as int),
                decreases t.len() - k,
            {
                out.push(t[k]);
                k = k + 1;
                proof {
                    assert(t@.take(k as int) =~= t@.take(k - 1).push(t@[k - 1]));
                }
            }
            proof {
                assert(t@.take(t@.len() as int) =~= t@);
                assert(rest@.take(p@.len() as int) == p@);
            }
            proof {
                assert(rest@.skip(p@.len() as int) =~= s@.skip(i + p@.len()));
            }
            i = i + p.len();
        } else {
            proof {
                if p@.len() > 0 && rest@.len() >= p@.len() {
                    assert(rest@.take(p@.len() as int) != p@);
                }
                assert(rest@.drop_first() =~= s@.skip(i + 1));
            }
            out.push(s[i]);
            i = i + 1;
        }
    }
    proof {
        assert(s@.skip(i as int).len() == 0);
        assert(out@ + replaced(s@.skip(i as int), p@, t@) =~= out@);
    }
    string_of(&out)
}

/// Does `pattern` occur in `s`?
pub open spec fn occurs_in(s: Seq<char>, pattern: Seq<char>) -> bool {
    exists|i: int| 0 <= i && i + pattern.len() <= s.len() && #[trigger] s.subrange(i, i + pattern.len()) == pattern
}

pub open spec fn digit_free(s: Seq<char>) -> bool {
    forall|i: int| 0 <= i < s.len() ==> !is_digit(#[trigger] s[i])
}

/// A digit-free prefix of a replacement by digits was copied from the
/// source unchanged.
proof fn lemma_digit_free_prefix_is_copied(x: Seq<char>, pattern: Seq<char>, t: Seq<char>, k: int)
    requires
        pattern.len() > 0,
        t.len() > 0,
        all_digits(t),
        0 <= k <= replaced(x, pattern, t).len(),
        digit_free(replaced(x, pattern, t).take(k)),
    ensures
        k <= x.len(),
        x.take(k) == replaced(x, pattern, t).take(k),
    decreases x.len(),
{
    let out = replaced(x, pattern, t);
    if k == 0 {
        assert(x.take(0) =~= out.take(0));
    } else if x.len() < pattern.len() {
        assert(out == x);
    } else if x.take(pattern.len() as int) == pattern {
        assert(out[0] == t[0]);
        assert(out.take(k)[0] == out[0]);
        assert(is_digit(t[0]));
    } else {
        let rest = replaced(x.drop_first(), pattern, t);
        assert(out == seq![x[0]] + rest);
        assert forall|i: int| 0 <= i < k - 1 implies !is_digit(#[trigger] rest.take(k - 1)[i]) by {
            assert(rest.take(k - 1)[i] == out.take(k)[i + 1]);
        }
        lemma_digit_free_prefix_is_copied(x.drop_first(), pattern, t, k - 1);
        assert(x.take(k) =~= seq![x[0]] + x.drop_first().take(k - 1));
        assert(out.take(k) =~= seq![x[0]] + rest.take(k - 1));
    }
}

proof fn lemma_no_occurrence_after_replacement(s: Seq<char>, pattern: Seq<char>, t: Seq<char>)
    requires
        pattern.len() > 0,
        digit_free(pattern),
        t.len() > 0,
        all_digits(t),
    ensures
        !occurs_in(replaced(s, pattern, t), pattern),
    decreases s.len(),
{
    let out = replaced(s, pattern, t);
    let n = pattern.len() as int;
    if s.len() < pattern.len() {
        if occurs_in(out, pattern) {
            let i = choose|i: int| 0 <= i && i + n <= out.len() && #[trigger] out.subrange(i, i + n) == pattern;
            assert(false);
        }
    } else if s.take(n) == pattern {
        let rest = replaced(s.skip(n), pattern, t);
        lemma_no_occurrence_after_replacement(s.skip(n), pattern, t);
        assert(out == t + rest);
        if occurs_in(out, pattern) {
            let i = choose|i: int| 0 <= i && i + n <= out.len() && #[trigger] out.subrange(i, i + n) == pattern;
            if i < t.len() {
                assert(out.subrange(i, i + n)[0] == out[i]);
                assert(out[i] == t[i]);
                assert(is_digit(t[i]));
                assert(!is_digit(pattern[0]));
            } else {
                assert(rest.subrange(i - t.len(), i - t.len() + n) =~= out.subrange(i, i + n));
            }
        }
    } else {
        let rest = replaced(s.drop_first(), pattern, t);
        lemma_no_occurrence_after_replacement(s.drop_first(), pattern, t);
        assert(out == seq![s[0]] + rest);
        if occurs_in(out, pattern) {
            let i = choose|i: int| 0 <= i && i + n <= out.len() && #[trigger] out.subrange(i, i + n) == pattern;
            if i == 0 {
                let w = rest.take(n - 1);
                assert(w =~= out.subrange(1, n));
                assert forall|j: int| 0 <= j < n - 1 implies !is_digit(#[trigger] w[j]) by {
                    assert(w[j] == pattern[j + 1]);
                }
                lemma_digit_free_prefix_is_copied(s.drop_first(), pattern, t, n - 1);
                assert(s.take(n) =~= seq![s[0]] + s.drop_first().take(n - 1));
                assert(s.take(n) =~= out.subrange(0, n));
            } else {
                assert(rest.subrange(i - 1, i - 1 + n) =~= out.subrange(i, i + n));
            }
        }
    }
}

/// The resolved platform tenant is always a valid decimal id, and a
/// catalog query materialized with a valid tenant id holds no placeholder.
pub proof fn law_materialized_catalog_sql_names_a_decimal_tenant(
    configured: Option<Seq<char>>,
    template: Seq<char>,
    tenant_id: Seq<char>,
)
    requires
        valid_tenant_id(tenant_id),
    ensures
        valid_tenant_id(catalog_tenant(configured)),
        !occurs_in(replaced(template, PLATFORM_TENANT_PLACEHOLDER@, tenant_id), PLATFORM_TENANT_PLACEHOLDER@),
{
    reveal_strlit("100001");
    reveal_strlit("__PLATFORM_TENANT__");
    let p = PLATFORM_TENANT_PLACEHOLDER@;
    assert(all_digits(DEFAULT_PLATFORM_CATALOG_TENANT_ID@));
    assert(digit_free(p));
    lemma_no_occurrence_after_replacement(template, p, tenant_id);
}

} // verus!
