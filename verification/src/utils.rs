//! Password rules, random identifiers, e-mail shape and cache keys.
use vstd::prelude::*;
use rand::rngs::ThreadRng;
use rand::Rng;
use std::collections::hash_map::DefaultHasher;
use std::hash::{Hash, Hasher};
use vstd::std_specs::hash::DefaultHasherAdditionalSpecFns;
use crate::format::{digit, digit_char, append_chars};
use crate::text::{chars_of, string_of, char_is_lowercase, char_is_uppercase, char_is_numeric,
    is_lower_char, is_upper_char, is_numeric_char};

verus! {

/// The characters that count as special in a password.
pub open spec fn is_special_char(c: char) -> bool {
    c == '!' || c == '@' || c == '#' || c == '$' || c == '%' || c == '^' || c == '&' || c == '*'
        || c == '(' || c == ')' || c == '_' || c == '+' || c == '-' || c == '=' || c == '['
        || c == ']' || c == '{' || c == '}' || c == '|' || c == ';' || c == ':' || c == ','
        || c == '.' || c == '<' || c == '>' || c == '?'
}

/// Whether `c` is one of the special password characters.
pub fn special_char(c: char) -> (b: bool)
    ensures
        b == is_special_char(c),
{
    c == '!' || c == '@' || c == '#' || c == '$' || c == '%' || c == '^' || c == '&' || c == '*'
        || c == '(' || c == ')' || c == '_' || c == '+' || c == '-' || c == '=' || c == '['
        || c == ']' || c == '{' || c == '}' || c == '|' || c == ';' || c == ':' || c == ','
        || c == '.' || c == '<' || c == '>' || c == '?'
}

/// Whether some character of `s` satisfies `p`.
pub open spec fn has_some(s: Seq<char>, p: spec_fn(char) -> bool) -> bool {
    exists|i: int| 0 <= i < s.len() && p(#[trigger] s[i])
}

/// How many of the four character classes (lower case, upper case, numeric,
/// special) occur in `s`.
pub open spec fn class_count(s: Seq<char>) -> nat {
    (if has_some(s, |c: char| is_lower_char(c)) { 1nat } else { 0nat })
        + (if has_some(s, |c: char| is_upper_char(c)) { 1nat } else { 0nat })
        + (if has_some(s, |c: char| is_numeric_char(c)) { 1nat } else { 0nat })
        + (if has_some(s, |c: char| is_special_char(c)) { 1nat } else { 0nat })
}

/// The message for a password of fewer than 8 bytes.
pub open spec fn too_short_msg() -> Seq<char> {
    "密码长度至少8位"@
}

/// The message for a password of more than 128 bytes.
pub open spec fn too_long_msg() -> Seq<char> {
    "密码长度不能超过128位"@
}

/// The message for a password that lacks a character class.
pub open spec fn too_weak_msg() -> Seq<char> {
    "密码必须包含大写字母、小写字母、数字和特殊字符中的至少3种"@
}

/// Checks a password: its UTF-8 length must be 8 to 128 bytes, and it must hold a
/// lower-case letter, an upper-case letter, a numeric character and one of
/// `!@#$%^&*()_+-=[]{}|;:,.<>?`.
pub fn validate_password_strength(password: &str) -> (r: Result<(), String>)
    ensures
        password.len() < 8 ==> (r matches Err(e) && e@ == too_short_msg()),
        8 <= password.len() <= 128 && class_count(password@) < 4
            ==> (r matches Err(e) && e@ == too_weak_msg()),
        password.len() > 128 ==> (r matches Err(e) && e@ == too_long_msg()),
        r is Ok <==> 8 <= password.len() <= 128 && class_count(password@) == 4,
{
    let len = password.len();
    if len < 8 {
        return Err("密码长度至少8位".to_string());
    }
    if len > 128 {
        return Err("密码长度不能超过128位".to_string());
    }
    let cs = chars_of(password);
    let mut lower = false;
    let mut upper = false;
    let mut digit = false;
    let mut special = false;
    let mut i: usize = 0;
    while i < cs.len()
        invariant
            i <= cs.len(),
            cs@ == password@,
            lower <==> exists|j: int| 0 <= j < i && is_lower_char(#[trigger] cs@[j]),
            upper <==> exists|j: int| 0 <= j < i && is_upper_char(#[trigger] cs@[j]),
            digit <==> exists|j: int| 0 <= j < i && is_numeric_char(#[trigger] cs@[j]),
            special <==> exists|j: int| 0 <= j < i && is_special_char(#[trigger] cs@[j]),
        decreases cs.len() - i,
    {
        let c = cs[i];
        if char_is_lowercase(c) {
            lower = true;
        }
        if char_is_uppercase(c) {
            upper = true;
        }
        if char_is_numeric(c) {
            digit = true;
        }
        if special_char(c) {
            special = true;
        }
        i = i + 1;
    }
    let ghost s = password@;
    assert(lower == has_some(s, |c: char| is_lower_char(c)));
    assert(upper == has_some(s, |c: char| is_upper_char(c)));
    assert(digit == has_some(s, |c: char| is_numeric_char(c)));
    assert(special == has_some(s, |c: char| is_special_char(c)));
    if !(lower && upper && digit && special) {
        return Err("密码必须包含大写字母、小写字母、数字和特殊字符中的至少3种".to_string());
    }
    Ok(())
}

/// The characters a random string is drawn from: `A`-`Z`, `a`-`z`, `0`-`9`, in
/// that order.
pub open spec fn charset_char(i: int) -> char {
    if i < 26 {
        ((65 + i) as u32) as char
    } else if i < 52 {
        ((97 + i - 26) as u32) as char
    } else {
        ((48 + i - 52) as u32) as char
    }
}

/// Whether `c` is an ASCII letter or digit.
pub open spec fn is_alnum_ascii(c: char) -> bool {
    ('A' <= c && c <= 'Z') || ('a' <= c && c <= 'z') || ('0' <= c && c <= '9')
}

/// Character number `i` of the random-string alphabet.
pub fn charset_at(i: usize) -> (c: char)
    requires
        i < 62,
    ensures
        c == charset_char(i as int),
        is_alnum_ascii(c),
{
    let n: u8 = if i < 26 {
        65 + i as u8
    } else if i < 52 {
        97 + (i - 26) as u8
    } else {
        48 + (i - 52) as u8
    };
    n as char
}

/// The thread-local random generator of `rand`, carried as it is.
#[verifier::external_type_specification]
#[verifier::external_body]
pub struct ExThreadRng(ThreadRng);

/// Calls `rand::thread_rng`, the handle of the thread-local generator.
#[verifier::external_body]
fn thread_rng() -> ThreadRng {
    rand::thread_rng()
}

/// Calls `Rng::gen_range(0..n)`, which the rand documentation describes as drawing
/// a value of the range; it panics on an empty range, so `n` must be positive.
/// Which value comes is up to the generator.
#[verifier::external_body]
fn gen_index(rng: &mut ThreadRng, n: usize) -> (i: usize)
    requires
        n > 0,
    ensures
        i < n,
{
    rng.gen_range(0..n)
}

/// A random string of `length` characters drawn uniformly from `A`-`Z`, `a`-`z`
/// and `0`-`9`.
pub fn generate_random_string(length: usize) -> (s: String)
    ensures
        s@.len() == length,
        forall|i: int| 0 <= i < length ==> is_alnum_ascii(#[trigger] s@[i]),
{
    let mut rng = thread_rng();
    let mut out: Vec<char> = Vec::new();
    let mut k: usize = 0;
    while k < length
        invariant
            k <= length,
            out@.len() == k,
            forall|i: int| 0 <= i < k ==> is_alnum_ascii(#[trigger] out@[i]),
        decreases length - k,
    {
        let idx = gen_index(&mut rng, 62);
        out.push(charset_at(idx));
        k = k + 1;
    }
    string_of(&out)
}

/// The pattern `is_valid_email` matches addresses against.
pub const EMAIL_PATTERN: &'static str = "^[a-zA-Z0-9._%+-]+@[a-zA-Z0-9.-]+\\.[a-zA-Z]{2,}$";

/// An ASCII letter.
pub open spec fn is_ascii_letter(c: char) -> bool {
    ('A' <= c && c <= 'Z') || ('a' <= c && c <= 'z')
}

/// A character allowed before the `@` of an address.
pub open spec fn is_local_char(c: char) -> bool {
    is_alnum_ascii(c) || c == '.' || c == '_' || c == '%' || c == '+' || c == '-'
}

/// A character allowed in the domain of an address, before its last label.
pub open spec fn is_domain_char(c: char) -> bool {
    is_alnum_ascii(c) || c == '.' || c == '-'
}

/// Whether `s` has the shape that `EMAIL_PATTERN` describes: a non-empty local
/// part, `@`, a non-empty domain, `.`, and a top-level label of at least two ASCII
/// letters.
pub open spec fn email_shape(s: Seq<char>) -> bool {
    exists|at: int, dot: int|
        0 < at && at + 1 < dot && dot + 3 <= s.len() && #[trigger] s[at] == '@' && #[trigger] s[dot] == '.'
            && (forall|k: int| 0 <= k < at ==> is_local_char(#[trigger] s[k]))
            && (forall|k: int| at < k < dot ==> is_domain_char(#[trigger] s[k]))
            && (forall|k: int| dot < k < s.len() ==> is_ascii_letter(#[trigger] s[k]))
}

/// Compiles `pattern` with `regex::Regex::new` and answers `Regex::is_match` on
/// `text`. Only the e-mail pattern is admitted; it compiles, and by the regex
/// syntax that the crate documents it matches exactly the texts of `email_shape`
/// (it is anchored at both ends).
#[verifier::external_body]
fn email_regex_is_match(pattern: &str, text: &str) -> (b: bool)
    requires
        pattern@ == EMAIL_PATTERN@,
    ensures
        b == email_shape(text@),
{
    regex::Regex::new(pattern).unwrap().is_match(text)
}

/// Whether `email` looks like an e-mail address (see `email_shape`).
pub fn is_valid_email(email: &str) -> (b: bool)
    ensures
        b == email_shape(email@),
{
    email_regex_is_match(EMAIL_PATTERN, email)
}

/// The lower-case hexadecimal digit for `d < 16`.
pub open spec fn hex_digit(d: nat) -> char {
    if d < 10 { digit_char(d) } else { ((87 + d) as u32) as char }
}

/// The lower-case hexadecimal representation of `n`, without leading zeros (what
/// `{:x}` prints).
pub open spec fn hex(n: nat) -> Seq<char>
    decreases n,
{
    if n < 16 {
        seq![hex_digit(n)]
    } else {
        hex(n / 16).push(hex_digit(n % 16))
    }
}

/// The hexadecimal digits of `n`.
pub fn hex_chars(n: u64) -> (v: Vec<char>)
    ensures
        v@ == hex(n as nat),
    decreases n,
{
    let d = n % 16;
    let c: char = if d < 10 { digit(d as u128) } else { (87 + d as u8) as char };
    if n < 16 {
        let mut v: Vec<char> = Vec::new();
        v.push(c);
        assert(v@ =~= seq![hex_digit(n as nat)]);
        v
    } else {
        let mut v = hex_chars(n / 16);
        v.push(c);
        v
    }
}

/// The byte writes that `str::hash` makes into a hasher for a string. The `Hash`
/// documentation fixes neither their form nor the hash algorithm, only that they
/// depend on the string alone.
pub uninterp spec fn str_hash_writes(s: Seq<char>) -> Seq<Seq<u8>>;

/// Calls `<str as Hash>::hash` on a `DefaultHasher`: the hasher's record of writes
/// grows by the writes for `s`.
#[verifier::external_body]
fn hash_str_into(h: &mut DefaultHasher, s: &str)
    ensures
        final(h)@ == old(h)@ + str_hash_writes(s@),
{
    s.hash(h)
}

/// The writes made for each of `params`, in order.
pub open spec fn params_writes(params: Seq<Seq<char>>) -> Seq<Seq<u8>>
    decreases params.len(),
{
    if params.len() == 0 {
        Seq::empty()
    } else {
        params_writes(params.drop_last()) + str_hash_writes(params.last())
    }
}

/// The views of a slice of string slices.
pub open spec fn str_views(params: Seq<&str>) -> Seq<Seq<char>> {
    params.map_values(|p: &str| p@)
}

/// The key `generate_cache_key` builds: the prefix, `:`, and the lower-case hex of
/// the `DefaultHasher` hash of the prefix followed by the parameters.
pub open spec fn cache_key(prefix: Seq<char>, params: Seq<Seq<char>>) -> Seq<char> {
    prefix + seq![':'] + hex(
        DefaultHasher::spec_finish(str_hash_writes(prefix) + params_writes(params)) as nat,
    )
}

/// Builds a cache key from a prefix and parameters: `prefix:hash`, where the hash
/// is that of `DefaultHasher` over the prefix and then each parameter.
pub fn generate_cache_key(prefix: &str, params: &[&str]) -> (key: String)
    ensures
        key@ == cache_key(prefix@, str_views(params@)),
{
    let mut hasher = DefaultHasher::new();
    hash_str_into(&mut hasher, prefix);
    let mut i: usize = 0;
    while i < params.len()
        invariant
            i <= params.len(),
            hasher@ == str_hash_writes(prefix@) + params_writes(str_views(params@).subrange(0, i as int)),
        decreases params.len() - i,
    {
        let ghost before = hasher@;
        hash_str_into(&mut hasher, params[i]);
        proof {
            let ps = str_views(params@);
            assert(ps.subrange(0, i + 1).drop_last() =~= ps.subrange(0, i as int));
            assert(hasher@ =~= str_hash_writes(prefix@) + params_writes(ps.subrange(0, i + 1)));
        }
        i = i + 1;
    }
    assert(str_views(params@).subrange(0, params.len() as int) =~= str_views(params@));
    let h = hasher.finish();
    let mut out = chars_of(prefix);
    out.push(':');
    let hx = hex_chars(h);
    append_chars(&mut out, &hx);
    string_of(&out)
}

} // verus!
