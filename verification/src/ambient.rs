//! What the library reads from the running system (the clock and fresh random
//! identifiers), and how identifiers are written and read back as text.
use vstd::prelude::*;
use crate::utils::hex_digit;
use crate::format::{digit_char, digit};
use crate::text::string_of;

verus! {

/// Whether `t` seconds after the Unix epoch is a time chrono can hold: from
/// 1 January of the year -262143 to the end of 31 December 262142.
pub open spec fn in_chrono_range(t: int) -> bool {
    -8_334_601_315_200 <= t <= 8_210_266_876_799
}

/// Calls `chrono::Utc::now().timestamp()`: the current time in whole seconds since
/// the Unix epoch. Only its range is claimed: chrono holds no date outside it, and
/// `Utc::now` panics rather than return a time before the epoch.
#[verifier::external_body]
pub(crate) fn now_secs() -> (t: i64)
    ensures
        0 <= t,
        in_chrono_range(t as int),
{
    chrono::Utc::now().timestamp()
}

/// Calls `chrono::Utc::now().timestamp_millis()`: the current time in
/// milliseconds since the Unix epoch, within the same range of dates.
#[verifier::external_body]
pub(crate) fn now_millis() -> (t: i64)
    ensures
        0 <= t,
        in_chrono_range(t as int / 1000),
{
    chrono::Utc::now().timestamp_millis()
}

/// `n < 100` as two decimal digits.
pub open spec fn two_digits(n: int) -> Seq<char> {
    seq![digit_char((n / 10) as nat), digit_char((n % 10) as nat)]
}

/// The hour and minute (UTC) of `t` seconds after the Unix epoch, as `HH:MM`.
pub open spec fn hh_mm(t: int) -> Seq<char> {
    let s = t % 86400;
    two_digits(s / 3600) + seq![':'] + two_digits((s % 3600) / 60)
}

/// The UTC hour and minute of `t` seconds after the Unix epoch as `HH:MM`, as
/// chrono's `%H:%M` prints them.
pub(crate) fn clock_hh_mm(t: i64) -> (s: String)
    requires
        in_chrono_range(t as int),
    ensures
        s@ == hh_mm(t as int),
{
    let shifted: u64 = (t as i128 + 8_640_000_000_000i128) as u64;
    let secs: u64 = shifted % 86400;
    assert(secs as int == (t as int) % 86400);
    let hours: u64 = secs / 3600;
    let minutes: u64 = (secs % 3600) / 60;
    let mut out: Vec<char> = Vec::new();
    out.push(digit((hours / 10) as u128));
    out.push(digit((hours % 10) as u128));
    out.push(':');
    out.push(digit((minutes / 10) as u128));
    out.push(digit((minutes % 10) as u128));
    assert(out@ =~= hh_mm(t as int));
    string_of(&out)
}

/// What chrono's `to_rfc3339` writes for the time `t` seconds and `nanos`
/// nanoseconds after the Unix epoch (UTC).
pub uninterp spec fn rfc3339_at(t: int, nanos: int) -> Seq<char>;

/// Calls chrono's `DateTime::from_timestamp(t, nanos)` and `to_rfc3339`.
#[verifier::external_body]
pub(crate) fn clock_rfc3339(t: i64, nanos: u32) -> (s: String)
    requires
        in_chrono_range(t as int),
        nanos < 1_000_000_000,
    ensures
        s@ == rfc3339_at(t as int, nanos as int),
{
    match chrono::DateTime::from_timestamp(t, nanos) {
        Some(d) => d.to_rfc3339(),
        None => String::new(),
    }
}

/// Calls `chrono::Utc::now()` and reads its whole seconds since the Unix epoch
/// (`timestamp`) and the nanoseconds past them (`timestamp_subsec_nanos`). `Utc::now`
/// panics rather than return a time before the epoch, and builds the time from
/// the system clock's whole seconds and its nanoseconds below one second.
#[verifier::external_body]
pub(crate) fn now_parts() -> (r: (i64, u32))
    ensures
        0 <= r.0,
        in_chrono_range(r.0 as int),
        r.1 < 1_000_000_000,
{
    let now = chrono::Utc::now();
    (now.timestamp(), now.timestamp_subsec_nanos())
}

/// Calls `chrono::Utc::now().to_rfc3339()`: the current time as text, which
/// depends on the clock, so nothing is claimed of it.
#[verifier::external_body]
pub(crate) fn now_text() -> String {
    chrono::Utc::now().to_rfc3339()
}

/// Calls `uuid::Uuid::new_v4` and gives back its 128-bit value: random, so
/// nothing is claimed of it.
#[verifier::external_body]
pub(crate) fn new_uuid() -> u128 {
    uuid::Uuid::new_v4().as_u128()
}

/// 16 to the power `n`.
pub open spec fn pow16(n: nat) -> nat
    decreases n,
{
    if n == 0 { 1 } else { 16 * pow16((n - 1) as nat) }
}

/// The `k`-th hexadecimal digit of `v`, counted from the most significant of 32.
pub open spec fn nibble(v: u128, k: int) -> nat {
    ((v as nat / pow16((31 - k) as nat)) % 16) as nat
}

/// How many hyphens stand before position `i` of the hyphenated form.
pub open spec fn hyphens_before(i: int) -> int {
    if i < 8 { 0 } else if i < 13 { 1 } else if i < 18 { 2 } else if i < 23 { 3 } else { 4 }
}

/// The hyphenated form of an identifier: its 32 lower-case hexadecimal digits,
/// most significant first, in groups of 8, 4, 4, 4 and 12 joined by `-`.
pub open spec fn uuid_hyphenated(v: u128) -> Seq<char> {
    Seq::new(
        36,
        |i: int|
            if i == 8 || i == 13 || i == 18 || i == 23 {
                '-'
            } else {
                hex_digit(nibble(v, i - hyphens_before(i)))
            },
    )
}

/// What `uuid::Uuid::parse_str` reads from a string, as the 128-bit value of the
/// identifier, or `None` when it refuses the string.
pub uninterp spec fn uuid_of(s: Seq<char>) -> Option<u128>;

/// Calls `uuid::Uuid::parse_str` and gives back the identifier as a number, or
/// the parse error's message.
#[verifier::external_body]
pub(crate) fn parse_uuid(s: &str) -> (r: Result<u128, String>)
    ensures
        match r {
            Ok(v) => uuid_of(s@) == Some(v),
            Err(_) => uuid_of(s@) is None,
        },
{
    match uuid::Uuid::parse_str(s) {
        Ok(u) => Ok(u.as_u128()),
        Err(e) => Err(e.to_string()),
    }
}

/// Calls `uuid::Uuid::from_u128(v).to_string()`. The uuid documentation shows
/// the text as the hyphenated lower-case form, and `parse_str` accepts that form
/// and gives back the same identifier.
#[verifier::external_body]
pub(crate) fn uuid_text(v: u128) -> (s: String)
    ensures
        s@ == uuid_hyphenated(v),
        uuid_of(s@) == Some(v),
{
    uuid::Uuid::from_u128(v).to_string()
}

/// A fresh random identifier in its hyphenated form.
pub(crate) fn new_uuid_text() -> (s: String)
    ensures
        exists|v: u128| s@ == uuid_hyphenated(v),
{
    let v = new_uuid();
    uuid_text(v)
}

} // verus!
