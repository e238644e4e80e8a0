//! Decisions of the query endpoints: the cache key of a query, and how a
//! time-travel target is resolved.
use vstd::prelude::*;
use vstd::string::StringSliceAdditionalSpecFns;
use crate::text::{chars_of, string_of};
use crate::format::append_chars;
use crate::utils::hex_digit;
use crate::requests::TimeTravelTarget;

verus! {

/// The MD5 digest of a byte string, as computed by the `md5` crate.
pub uninterp spec fn md5_of(data: Seq<u8>) -> Seq<u8>;

/// Calls `md5::compute` and gives back the 16 bytes of the digest (the
/// crate's `Digest` is a `[u8; 16]`).
#[verifier::external_body]
fn md5_bytes(data: &[u8]) -> (d: Vec<u8>)
    ensures
        d@ == md5_of(data@),
        d@.len() == 16,
{
    md5::compute(data).0.to_vec()
}

/// Each byte as two lower-case hexadecimal digits (what `{:x}` prints for a
/// digest).
pub open spec fn hex_bytes(b: Seq<u8>) -> Seq<char>
    decreases b.len(),
{
    if b.len() == 0 {
        Seq::empty()
    } else {
        hex_bytes(b.drop_last()) + seq![hex_digit((b.last() / 16) as nat), hex_digit((b.last() % 16) as nat)]
    }
}

fn hex_char(d: u8) -> (c: char)
    requires
        d < 16,
    ensures
        c == hex_digit(d as nat),
{
    if d < 10 { crate::format::digit(d as u128) } else { (87 + d) as char }
}

/// The cache key of a query when caching is asked for (the default): `query:`
/// and the hex MD5 digest of the SQL's UTF-8 bytes.
pub fn query_cache_key(sql: &str, use_cache: Option<bool>) -> (k: Option<String>)
    ensures
        match use_cache { Some(b) => b, None => true } ==> (k matches Some(s) && s@ == "query:"@ + hex_bytes(
            md5_of(sql.spec_bytes()),
        )),
        !match use_cache { Some(b) => b, None => true } ==> k is None,
{
    let on = match use_cache {
        Some(b) => b,
        None => true,
    };
    if !on {
        return None;
    }
    let d = md5_bytes(sql.as_bytes());
    let mut out = chars_of("query:");
    let ghost head = out@;
    let mut i: usize = 0;
    while i < d.len()
        invariant
            i <= d@.len(),
            out@ == head + hex_bytes(d@.subrange(0, i as int)),
        decreases d.len() - i,
    {
        let b = d[i];
        out.push(hex_char(b / 16));
        out.push(hex_char(b % 16));
        proof {
            assert(d@.subrange(0, i + 1).drop_last() =~= d@.subrange(0, i as int));
            assert(out@ =~= head + hex_bytes(d@.subrange(0, i + 1)));
        }
        i = i + 1;
    }
    assert(d@.subrange(0, d@.len() as int) =~= d@);
    Some(string_of(&out))
}

/// The seconds a cached query result is kept.
pub const QUERY_CACHE_TTL_SECS: u64 = 300;

/// The value of decimal digits.
pub open spec fn digits_value(s: Seq<char>) -> nat
    decreases s.len(),
{
    if s.len() == 0 {
        0
    } else {
        digits_value(s.drop_last()) * 10 + ((s.last() as u32) - 48) as nat
    }
}

/// Whether every character is an ASCII digit.
pub open spec fn all_digits(s: Seq<char>) -> bool {
    forall|i: int| 0 <= i < s.len() ==> '0' <= #[trigger] s[i] && s[i] <= '9'
}

/// What `str::parse::<u64>` reads: an optional `+` and at least one digit, with
/// a value that fits; `None` otherwise.
pub open spec fn parse_u64_spec(s: Seq<char>) -> Option<u64> {
    let d = if s.len() > 0 && s[0] == '+' { s.drop_first() } else { s };
    if d.len() > 0 && all_digits(d) && digits_value(d) <= u64::MAX {
        Some(digits_value(d) as u64)
    } else {
        None
    }
}

proof fn lemma_digits_value_mono(s: Seq<char>, i: int)
    requires
        0 <= i <= s.len(),
        all_digits(s),
    ensures
        digits_value(s.subrange(0, i)) <= digits_value(s),
    decreases s.len(),
{
    if i < s.len() {
        assert(s.drop_last().subrange(0, i) =~= s.subrange(0, i));
        lemma_digits_value_mono(s.drop_last(), i);
    } else {
        assert(s.subrange(0, i) =~= s);
    }
}

/// Reads an unsigned integer the way `str::parse::<u64>` does.
pub fn parse_u64(s: &str) -> (r: Option<u64>)
    ensures
        r == parse_u64_spec(s@),
{
    let v = chars_of(s);
    let start: usize = if v.len() > 0 && v[0] == '+' { 1 } else { 0 };
    let ghost d = if s@.len() > 0 && s@[0] == '+' { s@.drop_first() } else { s@ };
    assert(d =~= v@.subrange(start as int, v@.len() as int));
    if start >= v.len() {
        return None;
    }
    let mut acc: u64 = 0;
    let mut i: usize = start;
    while i < v.len()
        invariant
            start <= i <= v@.len(),
            v@ == s@,
            d == (if s@.len() > 0 && s@[0] == '+' { s@.drop_first() } else { s@ }),
            d == v@.subrange(start as int, v@.len() as int),
            all_digits(v@.subrange(start as int, i as int)),
            acc as nat == digits_value(v@.subrange(start as int, i as int)),
        decreases v.len() - i,
    {
        let c = v[i];
        proof {
            assert(v@.subrange(start as int, i + 1).drop_last() =~= v@.subrange(start as int, i as int));
        }
        if !('0' <= c && c <= '9') {
            proof {
                assert(d[i - start] == c);
                assert(!('0' <= d[i - start] && d[i - start] <= '9'));
            }
            return None;
        }
        let digit: u64 = (c as u32 - 48) as u64;
        if acc > (u64::MAX - digit) / 10 {
            proof {
                assert(all_digits(v@.subrange(start as int, i + 1)));
                assert(acc * 10 + digit > u64::MAX) by (nonlinear_arith)
                    requires
                        acc > (u64::MAX - digit) / 10,
                        digit <= 9;
                assert(digits_value(v@.subrange(start as int, i + 1)) == acc * 10 + digit);
                assert(digits_value(v@.subrange(start as int, i + 1)) > u64::MAX);
                if all_digits(d) {
                    assert(v@.subrange(start as int, i + 1) =~= d.subrange(0, i + 1 - start));
                    lemma_digits_value_mono(d, i + 1 - start);
                }
            }
            return None;
        }
        acc = acc * 10 + digit;
        i = i + 1;
    }
    Some(acc)
}

/// The version a time-travel query reads: timestamps as they are, snapshots by
/// their number (0 when it does not read as one), versions as they are.
#[derive(Debug)]
pub enum ResolvedTarget {
    /// An instant, in milliseconds since the Unix epoch.
    Timestamp(i64),
    /// A version number.
    Version(u64),
}

/// Resolves a time-travel target (see `ResolvedTarget`).
pub fn resolve_target(target: &TimeTravelTarget) -> (r: ResolvedTarget)
    ensures
        match *target {
            TimeTravelTarget::Timestamp(t) => r == ResolvedTarget::Timestamp(t),
            TimeTravelTarget::Snapshot(id) => r == ResolvedTarget::Version(match parse_u64_spec(id@) {
                Some(n) => n,
                None => 0,
            }),
            TimeTravelTarget::Version(v) => r == ResolvedTarget::Version(v),
        },
{
    match target {
        TimeTravelTarget::Timestamp(t) => ResolvedTarget::Timestamp(*t),
        TimeTravelTarget::Snapshot(id) => ResolvedTarget::Version(
            match parse_u64(id.as_str()) {
                Some(n) => n,
                None => 0,
            },
        ),
        TimeTravelTarget::Version(v) => ResolvedTarget::Version(*v),
    }
}

/// The name of a target's kind: `timestamp`, `snapshot` or `version`.
pub fn target_kind(target: &TimeTravelTarget) -> (s: &'static str)
    ensures
        match *target {
            TimeTravelTarget::Timestamp(_) => s@ == "timestamp"@,
            TimeTravelTarget::Snapshot(_) => s@ == "snapshot"@,
            TimeTravelTarget::Version(_) => s@ == "version"@,
        },
{
    match target {
        TimeTravelTarget::Timestamp(_) => "timestamp",
        TimeTravelTarget::Snapshot(_) => "snapshot",
        TimeTravelTarget::Version(_) => "version",
    }
}

} // verus!
