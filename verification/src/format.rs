//! Human-readable number, byte-size and duration formatting.
use vstd::prelude::*;
use crate::text::{chars_of, string_of};
use std::time::Duration;

verus! {

/// The decimal digit character for `d < 10`.
pub open spec fn digit_char(d: nat) -> char {
    if d == 0 { '0' } else if d == 1 { '1' } else if d == 2 { '2' } else if d == 3 { '3' }
    else if d == 4 { '4' } else if d == 5 { '5' } else if d == 6 { '6' } else if d == 7 { '7' }
    else if d == 8 { '8' } else { '9' }
}

/// The decimal representation of `n`, without leading zeros (what `Display` prints
/// for an unsigned integer).
pub open spec fn dec(n: nat) -> Seq<char>
    decreases n,
{
    if n < 10 {
        seq![digit_char(n)]
    } else {
        dec(n / 10).push(digit_char(n % 10))
    }
}

/// The decimal digit character for `d < 10`.
pub fn digit(d: u128) -> (c: char)
    requires
        d < 10,
    ensures
        c == digit_char(d as nat),
{
    if d == 0 { '0' } else if d == 1 { '1' } else if d == 2 { '2' } else if d == 3 { '3' }
    else if d == 4 { '4' } else if d == 5 { '5' } else if d == 6 { '6' } else if d == 7 { '7' }
    else if d == 8 { '8' } else { '9' }
}

/// The decimal digits of `n`.
pub fn dec_chars(n: u128) -> (v: Vec<char>)
    ensures
        v@ == dec(n as nat),
    decreases n,
{
    if n < 10 {
        let mut v: Vec<char> = Vec::new();
        v.push(digit(n));
        assert(v@ =~= seq![digit_char(n as nat)]);
        v
    } else {
        let mut v = dec_chars(n / 10);
        v.push(digit(n % 10));
        v
    }
}

/// Appends the characters of `w` to `v`.
pub fn append_chars(v: &mut Vec<char>, w: &Vec<char>)
    ensures
        final(v)@ == old(v)@ + w@,
{
    let mut i: usize = 0;
    let ghost start = v@;
    while i < w.len()
        invariant
            i <= w.len(),
            v@ == start + w@.subrange(0, i as int),
        decreases w.len() - i,
    {
        v.push(w[i]);
        i = i + 1;
    }
    assert(w@.subrange(0, w.len() as int) =~= w@);
}

/// `d` with a `,` before every digit that has a positive multiple of three digits
/// after it, read from index `i`.
pub open spec fn group_from(d: Seq<char>, i: int) -> Seq<char>
    decreases d.len() - i,
{
    if i < 0 || i >= d.len() {
        Seq::empty()
    } else {
        let sep: Seq<char> = if i > 0 && (d.len() - i) % 3 == 0 { seq![','] } else { Seq::empty() };
        sep + seq![d[i]] + group_from(d, i + 1)
    }
}

/// The decimal representation of `n` with `,` as thousands separator.
pub open spec fn grouped(n: nat) -> Seq<char> {
    group_from(dec(n), 0)
}

/// Keeps every character but `,`.
pub open spec fn not_comma() -> spec_fn(char) -> bool {
    |c: char| c != ','
}

/// A decimal representation holds digits only.
proof fn lemma_dec_no_comma(n: nat)
    ensures
        forall|j: int| 0 <= j < dec(n).len() ==> #[trigger] dec(n)[j] != ',',
    decreases n,
{
    if n >= 10 {
        lemma_dec_no_comma(n / 10);
        assert forall|j: int| 0 <= j < dec(n).len() implies #[trigger] dec(n)[j] != ',' by {
            if j < dec(n / 10).len() {
                assert(dec(n)[j] == dec(n / 10)[j]);
            }
        }
    }
}

proof fn lemma_group_from_filter(d: Seq<char>, i: int)
    requires
        0 <= i <= d.len(),
        forall|j: int| 0 <= j < d.len() ==> #[trigger] d[j] != ',',
    ensures
        group_from(d, i).filter(not_comma()) == d.subrange(i, d.len() as int),
    decreases d.len() - i,
{
    if i == d.len() {
        assert(group_from(d, i).filter(not_comma()) =~= Seq::<char>::empty());
        assert(d.subrange(i, d.len() as int) =~= Seq::<char>::empty());
    } else {
        lemma_group_from_filter(d, i + 1);
        let sep: Seq<char> = if i > 0 && (d.len() - i) % 3 == 0 { seq![','] } else { Seq::empty() };
        let head = sep + seq![d[i]];
        assert(group_from(d, i) == head + group_from(d, i + 1));
        Seq::filter_distributes_over_add(head, group_from(d, i + 1), not_comma());
        Seq::filter_distributes_over_add(sep, seq![d[i]], not_comma());
        reveal_with_fuel(Seq::filter, 2);
        assert(sep.filter(not_comma()) =~= Seq::<char>::empty());
        assert(seq![d[i]].filter(not_comma()) =~= seq![d[i]]);
        assert(d.subrange(i, d.len() as int) =~= seq![d[i]] + d.subrange(i + 1, d.len() as int));
    }
}

/// Separators aside, a formatted number is its plain decimal representation.
pub proof fn lemma_grouped_digits(n: nat)
    ensures
        grouped(n).filter(not_comma()) == dec(n),
{
    lemma_dec_no_comma(n);
    lemma_group_from_filter(dec(n), 0);
    assert(dec(n).subrange(0, dec(n).len() as int) =~= dec(n));
}

/// Formats a number with `,` between groups of three digits, e.g. `1234567` as
/// `1,234,567`.
pub fn format_number(num: u64) -> (s: String)
    ensures
        s@ == grouped(num as nat),
{
    let d = dec_chars(num as u128);
    let mut out: Vec<char> = Vec::new();
    let mut i: usize = 0;
    while i < d.len()
        invariant
            i <= d.len(),
            out@ + group_from(d@, i as int) == group_from(d@, 0),
        decreases d.len() - i,
    {
        let ghost before = out@;
        if i > 0 && (d.len() - i) % 3 == 0 {
            out.push(',');
        }
        out.push(d[i]);
        i = i + 1;
        assert(before + group_from(d@, i - 1) =~= out@ + group_from(d@, i as int));
    }
    assert(out@ + group_from(d@, i as int) =~= out@);
    string_of(&out)
}

} // verus!

verus! {

/// `1024^k`.
pub open spec fn pow1024(k: nat) -> nat
    decreases k,
{
    if k == 0 { 1 } else { 1024 * pow1024((k - 1) as nat) }
}

/// `2^k`.
pub open spec fn pow2(k: nat) -> nat
    decreases k,
{
    if k == 0 { 1 } else { 2 * pow2((k - 1) as nat) }
}

/// `10^k`.
pub open spec fn pow10(k: nat) -> nat
    decreases k,
{
    if k == 0 { 1 } else { 10 * pow10((k - 1) as nat) }
}

/// Number of binary digits of `n` (0 for 0).
pub open spec fn bit_len(n: nat) -> nat
    decreases n,
{
    if n == 0 { 0 } else { 1 + bit_len(n / 2) }
}

/// `num / den` rounded to the nearest integer, ties to the even neighbour.
pub open spec fn div_round_even(num: nat, den: nat) -> nat {
    let q = num / den;
    let r = num % den;
    if 2 * r > den || (2 * r == den && q % 2 == 1) { q + 1 } else { q }
}

/// The value of `n as f64`: `n` rounded to 53 significant bits, ties to even.
pub open spec fn f64_value(n: nat) -> nat {
    if bit_len(n) <= 53 {
        n
    } else {
        let e = (bit_len(n) - 53) as nat;
        div_round_even(n, pow2(e)) * pow2(e)
    }
}

/// The unit index chosen for a value `v`, starting at `k`: the scaled value is
/// divided by 1024 while it is at least 1024 and the unit is below `max`.
pub open spec fn unit_from(v: nat, k: nat, max: nat) -> nat
    decreases max - k,
{
    if k < max && v >= pow1024(k + 1) { unit_from(v, k + 1, max) } else { k }
}

/// Digits of `r < 10^d`, padded with leading zeros to `d` digits.
pub open spec fn padded(r: nat, d: nat) -> Seq<char>
    decreases d,
{
    if d == 0 { Seq::empty() } else { padded(r / 10, (d - 1) as nat).push(digit_char(r % 10)) }
}

/// `h` hundredths (or tenths, for `d == 1`) printed with `d` decimals.
pub open spec fn fixed_text(h: nat, d: nat) -> Seq<char> {
    dec(h / pow10(d)) + seq!['.'] + padded(h % pow10(d), d)
}

/// The name of unit `k` (`B`, `KB`, ..., `PB`).
pub open spec fn unit_name(k: nat) -> Seq<char> {
    if k == 0 { seq!['B'] } else if k == 1 { seq!['K', 'B'] } else if k == 2 { seq!['M', 'B'] }
    else if k == 3 { seq!['G', 'B'] } else if k == 4 { seq!['T', 'B'] } else { seq!['P', 'B'] }
}

/// What `format_bytes` prints: the value scaled to the largest unit up to `PB` that
/// keeps it at least 1, with two decimals (rounded half to even, as `{:.2}` rounds
/// the exact binary value) unless the unit is bytes.
pub open spec fn bytes_text(bytes: nat) -> Seq<char> {
    let v = f64_value(bytes);
    let k = unit_from(v, 0, 5);
    if k == 0 {
        dec(v) + seq![' '] + unit_name(0)
    } else {
        fixed_text(div_round_even(v * 100, pow1024(k)), 2) + seq![' '] + unit_name(k)
    }
}

/// What `format_size` prints: like `bytes_text` with units up to `TB` and one decimal;
/// below 1024 the byte count itself.
pub open spec fn size_text(bytes: nat) -> Seq<char> {
    let v = f64_value(bytes);
    let k = unit_from(v, 0, 4);
    if k == 0 {
        dec(bytes) + seq![' '] + unit_name(0)
    } else {
        fixed_text(div_round_even(v * 10, pow1024(k)), 1) + seq![' '] + unit_name(k)
    }
}

proof fn lemma_pow1024_bound(k: nat)
    requires
        k <= 6,
    ensures
        1 <= pow1024(k) <= 0x1000000000000000,
    decreases k,
{
    reveal_with_fuel(pow1024, 7);
}

proof fn lemma_pow2_pos(k: nat)
    ensures
        pow2(k) >= 1,
    decreases k,
{
    if k > 0 {
        lemma_pow2_pos((k - 1) as nat);
    }
}

proof fn lemma_bit_len_bound(n: nat, k: nat)
    requires
        n < pow2(k),
    ensures
        bit_len(n) <= k,
    decreases k,
{
    if k > 0 && n > 0 {
        lemma_bit_len_bound(n / 2, (k - 1) as nat);
    }
}

proof fn lemma_pow2_64()
    ensures
        pow2(64) == 0x10000000000000000,
        pow2(11) == 2048,
{
    reveal_with_fuel(pow2, 65);
}

/// `bytes as f64` as an exact integer.
fn f64_value_exec(bytes: u64) -> (v: u128)
    ensures
        v == f64_value(bytes as nat),
        v <= 0x10000000000000800,
{
    let mut n: u128 = bytes as u128;
    let mut bits: u128 = 0;
    proof {
        lemma_pow2_64();
    }
    while n > 0
        invariant
            bits <= 64,
            bit_len(n as nat) + bits == bit_len(bytes as nat),
            n <= bytes,
            n < pow2((64 - bits) as nat),
        decreases n,
    {
        proof {
            reveal_with_fuel(pow2, 2);
            assert(n / 2 < pow2((64 - bits - 1) as nat));
        }
        n = n / 2;
        bits = bits + 1;
    }
    if bits <= 53 {
        return bytes as u128;
    }
    let e = bits - 53;
    let mut p: u128 = 1;
    let mut i: u128 = 0;
    while i < e
        invariant
            i <= e,
            e <= 11,
            p == pow2(i as nat),
            1 <= p <= 2048,
        decreases e - i,
    {
        proof {
            lemma_pow2_small(i as nat);
        }
        p = p * 2;
        i = i + 1;
    }
    let b = bytes as u128;
    let q = b / p;
    let r = b % p;
    let rounded = if 2 * r > p || (2 * r == p && q % 2 == 1) { q + 1 } else { q };
    proof {
        assert(rounded * p <= 0x10000000000000800) by (nonlinear_arith)
            requires
                rounded <= q + 1,
                q == b / p,
                b < 0x10000000000000000,
                1 <= p <= 2048;
    }
    rounded * p
}

proof fn lemma_pow2_small(i: nat)
    requires
        i < 11,
    ensures
        pow2(i) <= 1024,
        pow2(i + 1) == 2 * pow2(i),
{
    reveal_with_fuel(pow2, 12);
}

/// The unit index for `v` with units up to `max`, and `1024` to its power.
fn unit_exec(v: u128, max: u128) -> (res: (u128, u128))
    requires
        max <= 5,
    ensures
        res.0 == unit_from(v as nat, 0, max as nat),
        res.0 <= max,
        res.1 == pow1024(res.0 as nat),
        1 <= res.1 <= 0x1000000000000000,
{
    let mut k: u128 = 0;
    let mut p: u128 = 1;
    proof {
        lemma_pow1024_bound(0);
        lemma_pow1024_bound(1);
    }
    while k < max && v >= p * 1024
        invariant
            k <= max,
            max <= 5,
            p == pow1024(k as nat),
            1 <= p <= 0x1000000000000000,
            unit_from(v as nat, 0, max as nat) == unit_from(v as nat, k as nat, max as nat),
        decreases max - k,
    {
        proof {
            lemma_pow1024_bound((k + 1) as nat);
            lemma_pow1024_step(k as nat);
        }
        k = k + 1;
        p = p * 1024;
    }
    proof {
        lemma_pow1024_step(k as nat);
    }
    (k, p)
}

proof fn lemma_pow1024_step(k: nat)
    ensures
        pow1024(k + 1) == 1024 * pow1024(k),
{
}

/// `num / den` rounded half to even.
pub fn div_round_even_exec(num: u128, den: u128) -> (r: u128)
    requires
        0 < den <= 0x1000000000000000,
        num <= 0x1000000000000000000000000,
    ensures
        r == div_round_even(num as nat, den as nat),
{
    let q = num / den;
    let rem = num % den;
    if 2 * rem > den || (2 * rem == den && q % 2 == 1) {
        q + 1
    } else {
        q
    }
}

/// The digits of `r`, padded with leading zeros to `d` digits.
fn padded_chars(r: u128, d: u128) -> (v: Vec<char>)
    ensures
        v@ == padded(r as nat, d as nat),
    decreases d,
{
    if d == 0 {
        Vec::new()
    } else {
        let mut v = padded_chars(r / 10, d - 1);
        v.push(digit(r % 10));
        v
    }
}

/// `h` printed as a number with `d` decimals, `h` being the value times `10^d`.
pub fn fixed_chars(h: u128, d: u128) -> (v: Vec<char>)
    requires
        1 <= d <= 2,
    ensures
        v@ == fixed_text(h as nat, d as nat),
{
    let p: u128 = if d == 1 { 10 } else { 100 };
    proof {
        reveal_with_fuel(pow10, 3);
    }
    let mut v = dec_chars(h / p);
    v.push('.');
    let w = padded_chars(h % p, d);
    append_chars(&mut v, &w);
    v
}

/// Appends a space and the name of unit `k`.
fn push_unit(v: &mut Vec<char>, k: u128)
    ensures
        final(v)@ == old(v)@ + seq![' '] + unit_name(k as nat),
{
    let ghost start = v@;
    v.push(' ');
    if k == 0 {
        v.push('B');
    } else {
        if k == 1 {
            v.push('K');
        } else if k == 2 {
            v.push('M');
        } else if k == 3 {
            v.push('G');
        } else if k == 4 {
            v.push('T');
        } else {
            v.push('P');
        }
        v.push('B');
    }
    assert(v@ =~= start + seq![' '] + unit_name(k as nat));
}

/// Formats a byte count with the largest unit up to `PB` that keeps the value at
/// least 1: `512 B`, `1.00 KB`, `1.50 MB`. Below 1024 the count is printed as an
/// integer, otherwise with two decimals.
pub fn format_bytes(bytes: u64) -> (s: String)
    ensures
        s@ == bytes_text(bytes as nat),
{
    let v = f64_value_exec(bytes);
    let (k, p) = unit_exec(v, 5);
    let mut out: Vec<char>;
    if k == 0 {
        out = dec_chars(v);
    } else {
        let h = div_round_even_exec(v * 100, p);
        out = fixed_chars(h, 2);
    }
    push_unit(&mut out, k);
    string_of(&out)
}

/// Formats a size like `format_bytes`, with units up to `TB` and one decimal;
/// below 1024 the byte count itself, as in `512 B`.
pub fn format_size(bytes: u64) -> (s: String)
    ensures
        s@ == size_text(bytes as nat),
{
    let v = f64_value_exec(bytes);
    let (k, p) = unit_exec(v, 4);
    let mut out: Vec<char>;
    if k == 0 {
        out = dec_chars(bytes as u128);
    } else {
        let h = div_round_even_exec(v * 10, p);
        out = fixed_chars(h, 1);
    }
    push_unit(&mut out, k);
    string_of(&out)
}

proof fn lemma_unit_from_bounds(v: nat, k: nat, max: nat)
    requires
        k <= max,
    ensures
        k <= unit_from(v, k, max) <= max,
        unit_from(v, k, max) < max ==> v < pow1024((unit_from(v, k, max) + 1) as nat),
        unit_from(v, k, max) > k ==> v >= pow1024(unit_from(v, k, max)),
    decreases max - k,
{
    if k < max && v >= pow1024(k + 1) {
        lemma_unit_from_bounds(v, k + 1, max);
    }
}

proof fn lemma_bit_len_lower(n: nat)
    requires
        n > 0,
    ensures
        bit_len(n) >= 1,
        pow2((bit_len(n) - 1) as nat) <= n,
    decreases n,
{
    if n >= 2 {
        lemma_bit_len_lower(n / 2);
        assert(bit_len(n) == 1 + bit_len(n / 2));
        assert(pow2((bit_len(n) - 1) as nat) == 2 * pow2((bit_len(n / 2) - 1) as nat));
        assert(2 * (n / 2) <= n);
        assert(pow2((bit_len(n / 2) - 1) as nat) <= n / 2);
        assert(pow2((bit_len(n) - 1) as nat) <= n);
    } else {
        assert(n == 1);
        assert(bit_len(0) == 0);
        assert(bit_len(1) == 1 + bit_len(0));
        assert(pow2(0) == 1);
    }
}

proof fn lemma_pow2_add(a: nat, b: nat)
    ensures
        pow2(a + b) == pow2(a) * pow2(b),
    decreases a,
{
    if a > 0 {
        lemma_pow2_add((a - 1) as nat, b);
        assert(pow2(a) == 2 * pow2((a - 1) as nat));
        assert(((a - 1) as nat + b) as nat == (a + b - 1) as nat);
        assert(pow2(a + b) == 2 * pow2((a + b - 1) as nat));
        assert(2 * (pow2((a - 1) as nat) * pow2(b)) == (2 * pow2((a - 1) as nat)) * pow2(b)) by (nonlinear_arith);
        assert(pow2(a + b) == pow2(a) * pow2(b));
    } else {
        assert(pow2(0) == 1);
        assert(a + b == b);
        assert(pow2(a) * pow2(b) == pow2(b));
    }
}

proof fn lemma_pow2_52()
    ensures
        pow2(52) >= 2048,
{
    lemma_pow2_add(11, 41);
    lemma_pow2_64();
    lemma_pow2_pos(41);
    let a = pow2(11);
    let b = pow2(41);
    assert(a * b >= 2048) by (nonlinear_arith)
        requires
            a == 2048,
            b >= 1,
    ;
}

proof fn lemma_rounded_multiple(n: nat, p: nat, c: nat)
    requires
        p >= 1,
        n >= p * c,
    ensures
        div_round_even(n, p) * p >= c,
{
    let q = n / p;
    assert(q >= c) by (nonlinear_arith)
        requires
            n >= p * c,
            p >= 1,
            q == n / p,
    ;
    let d = div_round_even(n, p);
    assert(d >= q);
    assert(d * p >= c) by (nonlinear_arith)
        requires
            d >= c,
            p >= 1,
    ;
}

/// A count of at least 1024 is at least 1024 as a floating-point number.
proof fn lemma_f64_value_at_least_1024(n: nat)
    requires
        n >= 1024,
    ensures
        f64_value(n) >= 1024,
{
    if bit_len(n) > 53 {
        let e = (bit_len(n) - 53) as nat;
        lemma_bit_len_lower(n);
        lemma_pow2_add(e, 52);
        assert((e + 52) as nat == (bit_len(n) - 1) as nat);
        lemma_pow2_pos(e);
        lemma_pow2_52();
        lemma_rounded_multiple(n, pow2(e), pow2(52));
    }
}

proof fn lemma_small_exact(n: nat)
    requires
        n < 1024,
    ensures
        f64_value(n) == n,
{
    lemma_pow2_52();
    lemma_pow2_add(52, 1);
    assert(pow2(1) == 2) by {
        reveal_with_fuel(pow2, 2);
    }
    assert(pow2(53) == pow2(52) * 2);
    lemma_bit_len_bound(n, 53);
}

proof fn lemma_one_decimal(h: nat)
    ensures
        fixed_text(h, 1) == dec(h / 10) + seq!['.', digit_char(h % 10)],
{
    assert(pow10(1) == 10) by {
        reveal_with_fuel(pow10, 2);
    }
    let r = h % 10;
    assert(padded(r, 1) == padded(r / 10, 0).push(digit_char(r % 10)));
    assert(r % 10 == r);
    assert(padded(r, 1) =~= seq![digit_char(r)]);
    assert(fixed_text(h, 1) =~= dec(h / 10) + seq!['.', digit_char(h % 10)]);
}

/// What `format_size` prints: a count under 1024 as that many bytes; a larger one
/// divided by 1024 once per unit step, up to terabytes, while it stays at least
/// 1024, and printed in tenths (rounded half to even, as `{:.1}` rounds the
/// binary value) with exactly one decimal and the unit KB, MB, GB or TB.
pub proof fn lemma_size_text_law(bytes: nat)
    ensures
        bytes < 1024 ==> size_text(bytes) == dec(bytes) + seq![' ', 'B'],
        bytes >= 1024 ==> {
            let v = f64_value(bytes);
            let k = unit_from(v, 0, 4);
            let h = div_round_even(v * 10, pow1024(k));
            &&& 1 <= k <= 4
            &&& pow1024(k) <= v
            &&& k < 4 ==> v < pow1024(k + 1)
            &&& size_text(bytes) == dec(h / 10) + seq!['.', digit_char(h % 10)] + seq![' '] + unit_name(k)
        },
{
    let v = f64_value(bytes);
    lemma_unit_from_bounds(v, 0, 4);
    assert(pow1024(1) == 1024) by {
        reveal_with_fuel(pow1024, 2);
    }
    if bytes < 1024 {
        lemma_small_exact(bytes);
        assert(unit_from(v, 0, 4) == 0);
        assert(size_text(bytes) =~= dec(bytes) + seq![' ', 'B']);
    } else {
        lemma_f64_value_at_least_1024(bytes);
        let k = unit_from(v, 0, 4);
        assert(k >= 1);
        let h = div_round_even(v * 10, pow1024(k));
        lemma_one_decimal(h);
    }
}

/// What `format_duration` prints for a whole number of seconds: the two largest
/// units among days, hours, minutes and seconds, the smaller one left out when it
/// is zero.
pub open spec fn duration_text(secs: nat) -> Seq<char> {
    if secs < 60 {
        dec(secs) + seq!['秒']
    } else if secs < 3600 {
        let m = secs / 60;
        let r = secs % 60;
        if r == 0 {
            dec(m) + seq!['分', '钟']
        } else {
            dec(m) + seq!['分'] + dec(r) + seq!['秒']
        }
    } else if secs < 86400 {
        let h = secs / 3600;
        let m = (secs % 3600) / 60;
        if m == 0 {
            dec(h) + seq!['小', '时']
        } else {
            dec(h) + seq!['小', '时'] + dec(m) + seq!['分', '钟']
        }
    } else {
        let d = secs / 86400;
        let h = (secs % 86400) / 3600;
        if h == 0 {
            dec(d) + seq!['天']
        } else {
            dec(d) + seq!['天'] + dec(h) + seq!['小', '时']
        }
    }
}

/// Formats a number of seconds in Chinese units, e.g. `90` as `1分30秒` and
/// `7200` as `2小时`.
pub fn format_duration_secs(total_seconds: u64) -> (s: String)
    ensures
        s@ == duration_text(total_seconds as nat),
{
    let t = total_seconds as u128;
    let mut out: Vec<char>;
    if t < 60 {
        out = dec_chars(t);
        out.push('秒');
    } else if t < 3600 {
        let m = t / 60;
        let r = t % 60;
        out = dec_chars(m);
        if r == 0 {
            out.push('分');
            out.push('钟');
        } else {
            out.push('分');
            let w = dec_chars(r);
            append_chars(&mut out, &w);
            out.push('秒');
        }
    } else if t < 86400 {
        let h = t / 3600;
        let m = (t % 3600) / 60;
        out = dec_chars(h);
        out.push('小');
        out.push('时');
        if m != 0 {
            let w = dec_chars(m);
            append_chars(&mut out, &w);
            out.push('分');
            out.push('钟');
        }
    } else {
        let d = t / 86400;
        let h = (t % 86400) / 3600;
        out = dec_chars(d);
        out.push('天');
        if h != 0 {
            let w = dec_chars(h);
            append_chars(&mut out, &w);
            out.push('小');
            out.push('时');
        }
    }
    assert(out@ =~= duration_text(total_seconds as nat));
    string_of(&out)
}

/// The value of `Duration::from_secs(secs)`.
pub uninterp spec fn duration_of_secs(secs: u64) -> Duration;

/// Calls `Duration::from_secs`, which is deterministic in its argument; its
/// documentation states that it makes a duration of `secs` whole seconds, which
/// `duration_whole_secs` reads back.
#[verifier::external_body]
pub(crate) fn duration_from_secs(secs: u64) -> (d: Duration)
    ensures
        d == duration_of_secs(secs),
{
    Duration::from_secs(secs)
}

/// Calls `Duration::as_secs`. Its documentation states that it returns the whole
/// seconds of the duration, so a duration made by `Duration::from_secs(s)` gives back
/// `s`. Of another duration nothing is stated.
#[verifier::external_body]
pub(crate) fn duration_whole_secs(d: &Duration) -> (secs: u64)
    ensures
        forall|s: u64| *d == duration_of_secs(s) ==> secs == s,
{
    d.as_secs()
}

/// Formats the whole seconds of a duration as `format_duration_secs` does.
pub fn format_duration(duration: Duration) -> (s: String)
    ensures
        exists|secs: u64| s@ == duration_text(secs as nat),
        forall|secs: u64| duration == duration_of_secs(secs) ==> s@ == duration_text(secs as nat),
{
    let total = duration_whole_secs(&duration);
    format_duration_secs(total)
}

} // verus!
