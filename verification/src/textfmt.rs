//! Small pure text-formatting helpers: decimal rendering of integers,
//! zero-padded clock fields, analysis identifiers and timestamps.
//!
//! These isolate the ad hoc id and timestamp generation as independently
//! testable pure functions; the caller supplies the clock reading.

use vstd::prelude::*;

verus! {

/// The decimal digit character for `d` in 0..10.
pub open spec fn spec_digit_char(d: int) -> char {
    if d == 0 {
        '0'
    } else if d == 1 {
        '1'
    } else if d == 2 {
        '2'
    } else if d == 3 {
        '3'
    } else if d == 4 {
        '4'
    } else if d == 5 {
        '5'
    } else if d == 6 {
        '6'
    } else if d == 7 {
        '7'
    } else if d == 8 {
        '8'
    } else {
        '9'
    }
}

/// Decimal representation of a non-negative integer, most significant
/// digit first.
pub open spec fn spec_dec_digits(n: int) -> Seq<char>
    decreases n,
{
    if n < 10 {
        seq![spec_digit_char(n)]
    } else {
        spec_dec_digits(n / 10).push(spec_digit_char(n % 10))
    }
}

/// Append the decimal digit `d` to `s`.
fn push_digit(s: String, d: u64) -> (r: String)
    requires
        d < 10,
    ensures
        r@ == s@.push(spec_digit_char(d as int)),
{
    let r = match d {
        0 => s.concat("0"),
        1 => s.concat("1"),
        2 => s.concat("2"),
        3 => s.concat("3"),
        4 => s.concat("4"),
        5 => s.concat("5"),
        6 => s.concat("6"),
        7 => s.concat("7"),
        8 => s.concat("8"),
        _ => s.concat("9"),
    };
    proof {
        reveal_strlit("0");
        reveal_strlit("1");
        reveal_strlit("2");
        reveal_strlit("3");
        reveal_strlit("4");
        reveal_strlit("5");
        reveal_strlit("6");
        reveal_strlit("7");
        reveal_strlit("8");
        reveal_strlit("9");
        assert(r@ =~= s@.push(spec_digit_char(d as int)));
    }
    r
}

/// Append the decimal rendering of `n` to `s`.
fn push_decimal(s: String, n: u64) -> (r: String)
    ensures
        r@ == s@ + spec_dec_digits(n as int),
    decreases n,
{
    if n < 10 {
        let r = push_digit(s, n);
        proof {
            assert(r@ =~= s@ + spec_dec_digits(n as int));
        }
        r
    } else {
        let r0 = push_decimal(s, n / 10);
        let r = push_digit(r0, n % 10);
        proof {
            assert(r@ =~= s@ + spec_dec_digits(n as int));
        }
        r
    }
}

/// Decimal rendering of a non-negative integer.
pub fn u64_to_string(n: u64) -> (s: String)
    ensures
        s@ == spec_dec_digits(n as int),
{
    let s = push_decimal(String::new(), n);
    proof {
        assert(s@ =~= spec_dec_digits(n as int));
    }
    s
}

/// Two-digit, zero-padded decimal rendering of `n < 100`.
pub open spec fn spec_two_digits(n: int) -> Seq<char> {
    seq![spec_digit_char(n / 10), spec_digit_char(n % 10)]
}

/// Append the two-digit zero-padded rendering of `n` to `s`.
fn push_two_digits(s: String, n: u64) -> (r: String)
    requires
        n < 100,
    ensures
        r@ == s@ + spec_two_digits(n as int),
{
    let r0 = push_digit(s, n / 10);
    let r = push_digit(r0, n % 10);
    proof {
        assert(r@ =~= s@ + spec_two_digits(n as int));
    }
    r
}

/// Analysis identifier derived from a millisecond clock reading.
pub open spec fn spec_analysis_id(millis: int) -> Seq<char> {
    "analysis_"@ + spec_dec_digits(millis)
}

/// Render the analysis identifier for a millisecond clock reading.
pub fn format_analysis_id(now_millis: u64) -> (s: String)
    ensures
        s@ == spec_analysis_id(now_millis as int),
{
    let s = push_decimal(String::from_str("analysis_"), now_millis);
    s
}

proof fn lemma_digit_char_injective(a: int, b: int)
    requires
        0 <= a < 10,
        0 <= b < 10,
        spec_digit_char(a) == spec_digit_char(b),
    ensures
        a == b,
{
}

proof fn lemma_dec_digits_len(n: int)
    requires
        n >= 0,
    ensures
        spec_dec_digits(n).len() >= 1,
        n >= 10 ==> spec_dec_digits(n).len() >= 2,
    decreases n,
{
    if n >= 10 {
        lemma_dec_digits_len(n / 10);
    }
}

proof fn lemma_dec_digits_injective(a: int, b: int)
    requires
        a >= 0,
        b >= 0,
        spec_dec_digits(a) == spec_dec_digits(b),
    ensures
        a == b,
    decreases a,
{
    lemma_dec_digits_len(a);
    lemma_dec_digits_len(b);
    if a < 10 && b < 10 {
        assert(spec_dec_digits(a) =~= seq![spec_digit_char(a)]);
        assert(spec_dec_digits(b) =~= seq![spec_digit_char(b)]);
        assert(seq![spec_digit_char(a)][0] == spec_digit_char(a));
        assert(seq![spec_digit_char(b)][0] == spec_digit_char(b));
        assert(spec_digit_char(a) == spec_digit_char(b));
        lemma_digit_char_injective(a, b);
    } else if a >= 10 && b >= 10 {
        let da = spec_dec_digits(a);
        let db = spec_dec_digits(b);
        assert(da.last() == db.last());
        lemma_digit_char_injective(a % 10, b % 10);
        assert(da.drop_last() =~= spec_dec_digits(a / 10));
        assert(db.drop_last() =~= spec_dec_digits(b / 10));
        lemma_dec_digits_injective(a / 10, b / 10);
    } else {
        assert(spec_dec_digits(a).len() == spec_dec_digits(b).len());
        assert(false);
    }
}

/// Analysis ids are distinct whenever the clock readings they were
/// derived from are: a fresh analysis — after a cache expiry or a
/// forced refresh — carries a different id than any earlier one.
pub proof fn lemma_analysis_id_injective(millis_a: int, millis_b: int)
    requires
        millis_a >= 0,
        millis_b >= 0,
        millis_a != millis_b,
    ensures
        spec_analysis_id(millis_a) != spec_analysis_id(millis_b),
{
    if spec_analysis_id(millis_a) == spec_analysis_id(millis_b) {
        let p = "analysis_"@;
        let da = spec_dec_digits(millis_a);
        let db = spec_dec_digits(millis_b);
        assert((p + da).len() == (p + db).len());
        assert forall|i: int| 0 <= i < da.len() implies da[i] == db[i] by {
            assert((p + da)[p.len() + i] == da[i]);
            assert((p + db)[p.len() + i] == db[i]);
        }
        assert(da =~= db);
        lemma_dec_digits_injective(millis_a, millis_b);
    }
}

/// Clock-of-day timestamp derived from a second clock reading.
pub open spec fn spec_timestamp(now: int) -> Seq<char> {
    "2026-01-31T"@ + spec_two_digits((now / 3600) % 24) + ":"@ + spec_two_digits((now / 60) % 60)
        + ":"@ + spec_two_digits(now % 60) + "Z"@
}

/// Render the timestamp for a second clock reading.
pub fn format_timestamp(now_secs: u64) -> (s: String)
    ensures
        s@ == spec_timestamp(now_secs as int),
{
    let s0 = String::from_str("2026-01-31T");
    let s1 = push_two_digits(s0, (now_secs / 3600) % 24);
    let s2 = s1.concat(":");
    let s3 = push_two_digits(s2, (now_secs / 60) % 60);
    let s4 = s3.concat(":");
    let s5 = push_two_digits(s4, now_secs % 60);
    let s = s5.concat("Z");
    proof {
        assert(s@ =~= spec_timestamp(now_secs as int));
    }
    s
}

/// Freshness marker put on responses served from the cache.
pub open spec fn spec_cached_marker(cached_at: int) -> Seq<char> {
    "cached_"@ + spec_dec_digits(cached_at)
}

/// Render the freshness marker for a cache capture time.
pub fn format_cached_marker(cached_at: u64) -> (s: String)
    ensures
        s@ == spec_cached_marker(cached_at as int),
{
    let s = push_decimal(String::from_str("cached_"), cached_at);
    s
}

/// The rendering of `true` and `false`.
pub open spec fn spec_bool_text(b: bool) -> Seq<char> {
    if b {
        "true"@
    } else {
        "false"@
    }
}

/// Render a boolean as `true` or `false`.
pub fn bool_to_string(b: bool) -> (s: String)
    ensures
        s@ == spec_bool_text(b),
{
    if b {
        String::from_str("true")
    } else {
        String::from_str("false")
    }
}

} // verus!
