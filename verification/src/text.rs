//! Character-level text utilities with their specifications.
use vstd::prelude::*;

verus! {

/// Whether a character has the Unicode `White_Space` property, which is what
/// `char::is_whitespace` answers: the controls U+0009 to U+000D, the space, U+0085,
/// the no-break space U+00A0, U+1680, U+2000 to U+200A, the line and paragraph
/// separators U+2028 and U+2029, U+202F, U+205F and U+3000.
pub open spec fn is_ws(c: char) -> bool {
    let n = c as u32;
    ||| 0x9 <= n <= 0xd
    ||| n == 0x20
    ||| n == 0x85
    ||| n == 0xa0
    ||| n == 0x1680
    ||| 0x2000 <= n <= 0x200a
    ||| n == 0x2028
    ||| n == 0x2029
    ||| n == 0x202f
    ||| n == 0x205f
    ||| n == 0x3000
}

/// Whether a character has the Unicode `White_Space` property (see `is_ws`), as
/// `char::is_whitespace` answers.
pub(crate) fn char_is_whitespace(c: char) -> (b: bool)
    ensures
        b == is_ws(c),
{
    let n = c as u32;
    (0x9 <= n && n <= 0xd) || n == 0x20 || n == 0x85 || n == 0xa0 || n == 0x1680 || (0x2000 <= n && n <= 0x200a)
        || n == 0x2028 || n == 0x2029 || n == 0x202f || n == 0x205f || n == 0x3000
}

/// Appends one character to a `String` (`String::push`).
#[verifier::external_body]
pub(crate) fn push_char(s: &mut String, c: char)
    ensures
        final(s)@ == old(s)@.push(c),
{
    s.push(c)
}

/// The characters of a string slice, in order.
pub fn chars_of(s: &str) -> (v: Vec<char>)
    ensures
        v@ == s@,
{
    let n = s.unicode_len();
    let mut v: Vec<char> = Vec::new();
    let mut i: usize = 0;
    while i < n
        invariant
            n == s@.len(),
            i <= n,
            v@ == s@.subrange(0, i as int),
        decreases n - i,
    {
        let c = s.get_char(i);
        v.push(c);
        i = i + 1;
    }
    v
}

/// A `String` holding exactly the given characters.
pub fn string_of(v: &Vec<char>) -> (s: String)
    ensures
        s@ == v@,
{
    let mut s = String::new();
    let mut i: usize = 0;
    while i < v.len()
        invariant
            i <= v.len(),
            s@ == v@.subrange(0, i as int),
        decreases v.len() - i,
    {
        push_char(&mut s, v[i]);
        i = i + 1;
    }
    s
}

/// Whether two string slices hold the same characters.
pub fn str_eq(a: &str, b: &str) -> (r: bool)
    ensures
        r == (a@ == b@),
{
    let n = a.unicode_len();
    if n != b.unicode_len() {
        return false;
    }
    let mut i: usize = 0;
    while i < n
        invariant
            n == a@.len(),
            n == b@.len(),
            i <= n,
            forall|j: int| 0 <= j < i ==> a@[j] == b@[j],
        decreases n - i,
    {
        if a.get_char(i) != b.get_char(i) {
            return false;
        }
        i = i + 1;
    }
    assert(a@ =~= b@);
    true
}

} // verus!

verus! {

/// `p` occurs in `s` starting at index `i`.
pub open spec fn occurs_at(s: Seq<char>, p: Seq<char>, i: int) -> bool {
    0 <= i && i + p.len() <= s.len() && s.subrange(i, i + p.len()) == p
}

/// `p` occurs somewhere in `s` (what `str::contains` answers for a string pattern).
pub open spec fn contains_seq(s: Seq<char>, p: Seq<char>) -> bool {
    exists|i: int| occurs_at(s, p, i)
}

/// Number of non-overlapping occurrences of a non-empty `p` in `s` from index `i`,
/// scanning left to right (what `str::matches(p).count()` answers).
pub open spec fn count_from(s: Seq<char>, p: Seq<char>, i: int) -> nat
    decreases s.len() - i,
{
    if p.len() == 0 || i < 0 || i + p.len() > s.len() {
        0
    } else if occurs_at(s, p, i) {
        1 + count_from(s, p, i + p.len())
    } else {
        count_from(s, p, i + 1)
    }
}

/// Number of non-overlapping occurrences of `p` in `s`.
pub open spec fn count_matches(s: Seq<char>, p: Seq<char>) -> nat {
    count_from(s, p, 0)
}

/// Counting in `a + b` from an index inside `b` counts in `b` alone.
pub proof fn lemma_count_shift(a: Seq<char>, b: Seq<char>, p: Seq<char>, j: int)
    requires
        0 <= j,
    ensures
        count_from(a + b, p, a.len() + j) == count_from(b, p, j),
    decreases b.len() - j,
{
    let s = a + b;
    let i = a.len() + j;
    if p.len() > 0 && j + p.len() <= b.len() {
        assert(s.subrange(i, i + p.len()) =~= b.subrange(j, j + p.len()));
        if occurs_at(b, p, j) {
            lemma_count_shift(a, b, p, j + p.len());
            assert(a.len() + (j + p.len()) == i + p.len());
        } else {
            lemma_count_shift(a, b, p, j + 1);
            assert(a.len() + (j + 1) == i + 1);
        }
    }
}

/// A count with no occurrence from `i` on is 0.
pub proof fn lemma_count_none(s: Seq<char>, p: Seq<char>, i: int)
    requires
        forall|k: int| i <= k ==> !occurs_at(s, p, k),
    ensures
        count_from(s, p, i) == 0,
    decreases s.len() - i,
{
    if p.len() > 0 && 0 <= i && i + p.len() <= s.len() {
        lemma_count_none(s, p, i + 1);
    }
}

/// Where no occurrence of `p` straddles the end of `a`, occurrences in `a + b` are
/// those of `a` and those of `b`: the counts add up and `p` occurs in `a + b` exactly
/// when it occurs in `a` or in `b`.
pub proof fn lemma_matches_concat(a: Seq<char>, b: Seq<char>, p: Seq<char>)
    requires
        p.len() > 0,
        forall|k: int| 0 <= k < a.len() < k + p.len() ==> !occurs_at(a + b, p, k),
    ensures
        count_matches(a + b, p) == count_matches(a, p) + count_matches(b, p),
        contains_seq(a + b, p) == (contains_seq(a, p) || contains_seq(b, p)),
{
    lemma_count_concat_from(a, b, p, 0);
    let s = a + b;
    if contains_seq(s, p) {
        let k = choose|k: int| occurs_at(s, p, k);
        if k + p.len() <= a.len() {
            assert(a.subrange(k, k + p.len()) =~= s.subrange(k, k + p.len()));
            assert(occurs_at(a, p, k));
        } else {
            assert(b.subrange(k - a.len(), k - a.len() + p.len()) =~= s.subrange(k, k + p.len()));
            assert(occurs_at(b, p, k - a.len()));
        }
    }
    if contains_seq(a, p) {
        let k = choose|k: int| occurs_at(a, p, k);
        assert(a.subrange(k, k + p.len()) =~= s.subrange(k, k + p.len()));
        assert(occurs_at(s, p, k));
    }
    if contains_seq(b, p) {
        let k = choose|k: int| occurs_at(b, p, k);
        assert(b.subrange(k, k + p.len()) =~= s.subrange(k + a.len(), k + a.len() + p.len()));
        assert(occurs_at(s, p, k + a.len()));
    }
}

proof fn lemma_count_concat_from(a: Seq<char>, b: Seq<char>, p: Seq<char>, i: int)
    requires
        p.len() > 0,
        0 <= i <= a.len(),
        forall|k: int| 0 <= k < a.len() < k + p.len() ==> !occurs_at(a + b, p, k),
    ensures
        count_from(a + b, p, i) == count_from(a, p, i) + count_from(b, p, 0),
    decreases a.len() - i,
{
    let s = a + b;
    if i == a.len() {
        lemma_count_shift(a, b, p, 0);
    } else if i + p.len() <= a.len() {
        assert(a.subrange(i, i + p.len()) =~= s.subrange(i, i + p.len()));
        if occurs_at(a, p, i) {
            lemma_count_concat_from(a, b, p, i + p.len());
        } else {
            lemma_count_concat_from(a, b, p, i + 1);
        }
    } else {
        assert(!occurs_at(s, p, i));
        lemma_count_concat_from(a, b, p, i + 1);
    }
}

/// `s` from index `i` on, with every non-overlapping occurrence of a non-empty `from`
/// (leftmost first) replaced by `to` (what `str::replace` computes).
pub open spec fn replace_from(s: Seq<char>, from: Seq<char>, to: Seq<char>, i: int) -> Seq<char>
    decreases s.len() - i,
{
    if i < 0 || i >= s.len() {
        Seq::empty()
    } else if from.len() > 0 && occurs_at(s, from, i) {
        to + replace_from(s, from, to, i + from.len())
    } else {
        seq![s[i]] + replace_from(s, from, to, i + 1)
    }
}

/// `s` with every non-overlapping occurrence of `from` replaced by `to`.
pub open spec fn replace_all(s: Seq<char>, from: Seq<char>, to: Seq<char>) -> Seq<char> {
    replace_from(s, from, to, 0)
}

/// Replacing from `i` passes unchanged over a stretch `[i, j)` where `from` does not occur.
pub proof fn lemma_replace_from_skip(s: Seq<char>, from: Seq<char>, to: Seq<char>, i: int, j: int)
    requires
        0 <= i <= j <= s.len(),
        forall|k: int| i <= k < j ==> !occurs_at(s, from, k),
    ensures
        replace_from(s, from, to, i) == s.subrange(i, j) + replace_from(s, from, to, j),
    decreases j - i,
{
    if i < j {
        lemma_replace_from_skip(s, from, to, i + 1, j);
        assert(!occurs_at(s, from, i));
        assert(s.subrange(i, j) =~= seq![s[i]] + s.subrange(i + 1, j));
        assert(seq![s[i]] + (s.subrange(i + 1, j) + replace_from(s, from, to, j)) =~= s.subrange(i, j)
            + replace_from(s, from, to, j));
    } else {
        assert(s.subrange(i, j) + replace_from(s, from, to, j) =~= replace_from(s, from, to, j));
    }
}

/// Replacing a pattern that does not occur leaves the text as it is.
pub proof fn lemma_replace_all_absent(s: Seq<char>, from: Seq<char>, to: Seq<char>)
    requires
        !contains_seq(s, from),
    ensures
        replace_all(s, from, to) == s,
{
    lemma_replace_from_skip(s, from, to, 0, s.len() as int);
    assert(s.subrange(0, s.len() as int) + replace_from(s, from, to, s.len() as int) =~= s);
}

/// Where `from` occurs in `a + from + b` at no index inside `a` and nowhere in `b`,
/// replacing it replaces exactly that one occurrence.
pub proof fn lemma_replace_all_once(a: Seq<char>, from: Seq<char>, to: Seq<char>, b: Seq<char>)
    requires
        from.len() > 0,
        forall|k: int| 0 <= k < a.len() ==> !occurs_at(a + from + b, from, k),
        !contains_seq(b, from),
    ensures
        replace_all(a + from + b, from, to) == a + to + b,
{
    let s = a + from + b;
    let n: int = (a.len() + from.len()) as int;
    lemma_replace_from_skip(s, from, to, 0, a.len() as int);
    assert(s.subrange(a.len() as int, n) =~= from);
    assert(occurs_at(s, from, a.len() as int));
    assert forall|k: int| n <= k < s.len() implies !occurs_at(s, from, k) by {
        if occurs_at(s, from, k) {
            assert(b.subrange(k - n, k - n + from.len()) =~= s.subrange(k, k + from.len()));
            assert(occurs_at(b, from, k - n));
        }
    }
    lemma_replace_from_skip(s, from, to, n, s.len() as int);
    assert(s.subrange(0, a.len() as int) =~= a);
    assert(s.subrange(n, s.len() as int) =~= b);
    assert(replace_from(s, from, to, s.len() as int) =~= Seq::<char>::empty());
    assert(a + (to + (b + Seq::<char>::empty())) =~= a + to + b);
}

/// `p` is a prefix of `s`.
pub open spec fn is_prefix(p: Seq<char>, s: Seq<char>) -> bool {
    p.len() <= s.len() && s.subrange(0, p.len() as int) == p
}

/// Whether `p` occurs in `s` at index `i`.
pub fn occurs_at_exec(s: &Vec<char>, p: &Vec<char>, i: usize) -> (b: bool)
    ensures
        b == occurs_at(s@, p@, i as int),
{
    if i > s.len() || p.len() > s.len() - i {
        return false;
    }
    let mut j: usize = 0;
    while j < p.len()
        invariant
            i + p.len() <= s.len(),
            j <= p.len(),
            forall|k: int| 0 <= k < j ==> s@[i + k] == p@[k],
        decreases p.len() - j,
    {
        if s[i + j] != p[j] {
            assert(s@.subrange(i as int, i + p.len())[j as int] != p@[j as int]);
            return false;
        }
        j = j + 1;
    }
    assert(s@.subrange(i as int, i + p.len()) =~= p@);
    true
}

/// Whether `p` is a prefix of `s`.
pub fn starts_with(s: &Vec<char>, p: &Vec<char>) -> (b: bool)
    ensures
        b == is_prefix(p@, s@),
{
    occurs_at_exec(s, p, 0)
}

/// Whether `p` occurs anywhere in `s`.
pub fn contains(s: &Vec<char>, p: &Vec<char>) -> (b: bool)
    ensures
        b == contains_seq(s@, p@),
{
    if p.len() == 0 {
        assert(s@.subrange(0, 0) =~= p@);
        assert(occurs_at(s@, p@, 0));
        return true;
    }
    if p.len() > s.len() {
        assert forall|i: int| !occurs_at(s@, p@, i) by {}
        return false;
    }
    let last = s.len() - p.len();
    let mut i: usize = 0;
    while i <= last
        invariant
            p.len() > 0,
            last == s.len() - p.len(),
            i <= last + 1,
            forall|k: int| 0 <= k < i ==> !occurs_at(s@, p@, k),
        decreases last + 1 - i,
    {
        if occurs_at_exec(s, p, i) {
            return true;
        }
        i = i + 1;
    }
    assert forall|k: int| !occurs_at(s@, p@, k) by {
        if 0 <= k && k <= last {
        }
    }
    false
}

/// Number of non-overlapping occurrences of a non-empty `p` in `s`.
pub fn count_occurrences(s: &Vec<char>, p: &Vec<char>) -> (n: usize)
    requires
        p.len() > 0,
    ensures
        n == count_matches(s@, p@),
{
    let mut i: usize = 0;
    let mut n: usize = 0;
    while p.len() <= s.len() - i
        invariant
            p.len() > 0,
            i <= s.len(),
            n <= i,
            n + count_from(s@, p@, i as int) == count_from(s@, p@, 0),
        decreases s.len() - i,
    {
        if occurs_at_exec(s, p, i) {
            n = n + 1;
            i = i + p.len();
        } else {
            i = i + 1;
        }
    }
    n
}

/// `s` with every non-overlapping occurrence of a non-empty `from` replaced by `to`.
pub fn replace_chars(s: &Vec<char>, from: &Vec<char>, to: &Vec<char>) -> (r: Vec<char>)
    requires
        from.len() > 0,
    ensures
        r@ == replace_all(s@, from@, to@),
{
    let mut out: Vec<char> = Vec::new();
    let mut i: usize = 0;
    while i < s.len()
        invariant
            from.len() > 0,
            i <= s.len(),
            out@ + replace_from(s@, from@, to@, i as int) == replace_all(s@, from@, to@),
        decreases s.len() - i,
    {
        let ghost before = out@;
        if occurs_at_exec(s, from, i) {
            let mut j: usize = 0;
            while j < to.len()
                invariant
                    j <= to.len(),
                    out@ == before + to@.subrange(0, j as int),
                decreases to.len() - j,
            {
                out.push(to[j]);
                j = j + 1;
            }
            assert(to@.subrange(0, to.len() as int) =~= to@);
            assert(before + (to@ + replace_from(s@, from@, to@, i + from.len()))
                =~= out@ + replace_from(s@, from@, to@, i + from.len()));
            i = i + from.len();
        } else {
            out.push(s[i]);
            assert(before + (seq![s@[i as int]] + replace_from(s@, from@, to@, i + 1))
                =~= out@ + replace_from(s@, from@, to@, i + 1));
            i = i + 1;
        }
    }
    assert(out@ + replace_from(s@, from@, to@, i as int) =~= out@);
    out
}

} // verus!

verus! {

/// What `str::to_uppercase` returns for a string (Unicode case mapping).
pub uninterp spec fn upper(s: Seq<char>) -> Seq<char>;

/// What `str::to_lowercase` returns for a string (Unicode case mapping).
pub uninterp spec fn lower(s: Seq<char>) -> Seq<char>;

/// What `char::is_lowercase` answers (Unicode `Lowercase` property).
/// Among ASCII characters these are `a` to `z`; beyond ASCII it is `unicode_lowercase`.
pub open spec fn is_lower_char(c: char) -> bool {
    if (c as u32) < 128 { 'a' <= c && c <= 'z' } else { unicode_lowercase(c) }
}

/// What `char::is_lowercase` answers for a character beyond ASCII.
pub uninterp spec fn unicode_lowercase(c: char) -> bool;

/// What `char::is_uppercase` answers (Unicode `Uppercase` property).
/// Among ASCII characters these are `A` to `Z`; beyond ASCII it is `unicode_uppercase`.
pub open spec fn is_upper_char(c: char) -> bool {
    if (c as u32) < 128 { 'A' <= c && c <= 'Z' } else { unicode_uppercase(c) }
}

/// What `char::is_uppercase` answers for a character beyond ASCII.
pub uninterp spec fn unicode_uppercase(c: char) -> bool;

/// What `char::is_numeric` answers (Unicode general categories `Nd`, `Nl`, `No`).
/// Among ASCII characters these are `0` to `9`; beyond ASCII it is `unicode_numeric`.
pub open spec fn is_numeric_char(c: char) -> bool {
    if (c as u32) < 128 { '0' <= c && c <= '9' } else { unicode_numeric(c) }
}

/// What `char::is_numeric` answers for a character beyond ASCII.
pub uninterp spec fn unicode_numeric(c: char) -> bool;

/// Calls `str::to_uppercase`; the contract names the result, a function of the
/// string alone, and says nothing more of the Unicode mapping.
#[verifier::external_body]
pub(crate) fn to_uppercase(s: &str) -> (r: String)
    ensures
        r@ == upper(s@),
{
    s.to_uppercase()
}

/// Calls `str::to_lowercase`; the contract names the result, a function of the
/// string alone, and says nothing more of the Unicode mapping.
#[verifier::external_body]
pub(crate) fn to_lowercase(s: &str) -> (r: String)
    ensures
        r@ == lower(s@),
{
    s.to_lowercase()
}

/// Calls `char::is_lowercase` (see `is_lower_char`): among ASCII characters it holds of `a` to `z`
/// alone; beyond ASCII its answer is named.
#[verifier::external_body]
pub(crate) fn char_is_lowercase(c: char) -> (b: bool)
    ensures
        b == is_lower_char(c),
        (c as u32) >= 128 ==> b == unicode_lowercase(c),
{
    c.is_lowercase()
}

/// Calls `char::is_uppercase` (see `is_upper_char`): among ASCII characters it holds of `A` to `Z`
/// alone; beyond ASCII its answer is named.
#[verifier::external_body]
pub(crate) fn char_is_uppercase(c: char) -> (b: bool)
    ensures
        b == is_upper_char(c),
        (c as u32) >= 128 ==> b == unicode_uppercase(c),
{
    c.is_uppercase()
}

/// Calls `char::is_numeric` (see `is_numeric_char`): among ASCII characters it holds of `0` to `9`
/// alone; beyond ASCII its answer is named.
#[verifier::external_body]
pub(crate) fn char_is_numeric(c: char) -> (b: bool)
    ensures
        b == is_numeric_char(c),
        (c as u32) >= 128 ==> b == unicode_numeric(c),
{
    c.is_numeric()
}

/// Splits `s` into the maximal runs of non-whitespace characters, in order, where
/// `words` are the runs already closed and `cur` is the run being read
/// (the behaviour of `str::split_whitespace`).
pub open spec fn split_ws_acc(s: Seq<char>, words: Seq<Seq<char>>, cur: Seq<char>) -> Seq<Seq<char>>
    decreases s.len(),
{
    if s.len() == 0 {
        if cur.len() > 0 { words.push(cur) } else { words }
    } else if is_ws(s[0]) {
        split_ws_acc(s.drop_first(), if cur.len() > 0 { words.push(cur) } else { words }, Seq::empty())
    } else {
        split_ws_acc(s.drop_first(), words, cur.push(s[0]))
    }
}

/// The whitespace-separated words of `s`.
pub open spec fn split_ws(s: Seq<char>) -> Seq<Seq<char>> {
    split_ws_acc(s, Seq::empty(), Seq::empty())
}

/// The words joined with one space between neighbours.
pub open spec fn join_space(words: Seq<Seq<char>>) -> Seq<char>
    decreases words.len(),
{
    if words.len() == 0 {
        Seq::empty()
    } else if words.len() == 1 {
        words[0]
    } else {
        join_space(words.drop_last()) + seq![' '] + words.last()
    }
}

/// The whitespace-separated words of a character sequence.
pub fn split_whitespace(s: &Vec<char>) -> (words: Vec<Vec<char>>)
    ensures
        words.deep_view() == split_ws(s@),
{
    let mut words: Vec<Vec<char>> = Vec::new();
    let mut cur: Vec<char> = Vec::new();
    let mut i: usize = 0;
    assert(words.deep_view() =~= Seq::<Seq<char>>::empty());
    assert(s@.subrange(0, s.len() as int) =~= s@);
    while i < s.len()
        invariant
            i <= s.len(),
            split_ws_acc(s@.subrange(i as int, s.len() as int), words.deep_view(), cur@) == split_ws(s@),
        decreases s.len() - i,
    {
        let ghost rest = s@.subrange(i as int, s.len() as int);
        assert(rest.drop_first() =~= s@.subrange(i + 1, s.len() as int));
        let c = s[i];
        if char_is_whitespace(c) {
            if cur.len() > 0 {
                let ghost wv = words.deep_view();
                assert(cur.deep_view() =~= cur@);
                words.push(cur);
                assert(words.deep_view() =~= wv.push(cur@));
                cur = Vec::new();
            } else {
                cur = Vec::new();
            }
            assert(cur@ =~= Seq::<char>::empty());
        } else {
            cur.push(c);
        }
        i = i + 1;
    }
    assert(s@.subrange(i as int, s.len() as int) =~= Seq::<char>::empty());
    if cur.len() > 0 {
        let ghost wv = words.deep_view();
        assert(cur.deep_view() =~= cur@);
        words.push(cur);
        assert(words.deep_view() =~= wv.push(cur@));
    }
    words
}

/// `w` holds no whitespace.
pub open spec fn ws_free(w: Seq<char>) -> bool {
    forall|j: int| 0 <= j < w.len() ==> !#[trigger] is_ws(w[j])
}

/// Every word is non-empty and holds no whitespace.
pub open spec fn proper_words(words: Seq<Seq<char>>) -> bool {
    forall|k: int| 0 <= k < words.len() ==> (#[trigger] words[k]).len() > 0 && ws_free(words[k])
}

/// `s` neither starts nor ends with whitespace, and its only whitespace is single
/// spaces between other characters.
pub open spec fn single_spaced(s: Seq<char>) -> bool {
    forall|i: int|
        0 <= i < s.len() && #[trigger] is_ws(s[i]) ==> s[i] == ' ' && 0 < i < s.len() - 1 && !is_ws(s[i - 1])
            && !is_ws(s[i + 1])
}

/// The words split off a text are non-empty and hold no whitespace.
pub proof fn lemma_split_ws_proper(s: Seq<char>, words: Seq<Seq<char>>, cur: Seq<char>)
    requires
        proper_words(words),
        ws_free(cur),
    ensures
        proper_words(split_ws_acc(s, words, cur)),
    decreases s.len(),
{
    if s.len() == 0 {
        if cur.len() > 0 {
            assert(proper_words(words.push(cur))) by {
                assert forall|k: int| 0 <= k < words.push(cur).len() implies (#[trigger] words.push(cur)[k]).len() > 0
                    && ws_free(words.push(cur)[k]) by {
                    if k < words.len() {
                        assert(words.push(cur)[k] == words[k]);
                    }
                }
            }
        }
    } else if is_ws(s[0]) {
        let next = if cur.len() > 0 { words.push(cur) } else { words };
        assert(proper_words(next)) by {
            if cur.len() > 0 {
                assert forall|k: int| 0 <= k < words.push(cur).len() implies (#[trigger] words.push(cur)[k]).len() > 0
                    && ws_free(words.push(cur)[k]) by {
                    if k < words.len() {
                        assert(words.push(cur)[k] == words[k]);
                    }
                }
            }
        }
        lemma_split_ws_proper(s.drop_first(), next, Seq::empty());
    } else {
        assert(ws_free(cur.push(s[0]))) by {
            assert forall|j: int| 0 <= j < cur.push(s[0]).len() implies !#[trigger] is_ws(cur.push(s[0])[j]) by {
                if j < cur.len() {
                    assert(cur.push(s[0])[j] == cur[j]);
                }
            }
        }
        lemma_split_ws_proper(s.drop_first(), words, cur.push(s[0]));
    }
}

/// Proper words joined with single spaces are single spaced, and when there is
/// a word the text starts and ends with something other than whitespace.
pub proof fn lemma_join_space_single_spaced(words: Seq<Seq<char>>)
    requires
        proper_words(words),
    ensures
        single_spaced(join_space(words)),
        words.len() > 0 ==> join_space(words).len() > 0 && !is_ws(join_space(words)[0]) && !is_ws(
            join_space(words).last(),
        ),
    decreases words.len(),
{
    if words.len() == 1 {
        let w = words[0];
        assert(w.len() > 0 && ws_free(w));
        assert(!is_ws(w[0]));
        assert(!is_ws(w[w.len() - 1]));
    } else if words.len() > 1 {
        let pre = words.drop_last();
        let last = words.last();
        assert(proper_words(pre)) by {
            assert forall|k: int| 0 <= k < pre.len() implies (#[trigger] pre[k]).len() > 0 && ws_free(pre[k]) by {
                assert(pre[k] == words[k]);
            }
        }
        assert(last == words[words.len() - 1]);
        assert(last.len() > 0 && ws_free(last));
        lemma_join_space_single_spaced(pre);
        let a = join_space(pre);
        let j = join_space(words);
        assert(j == a + seq![' '] + last);
        assert forall|i: int| 0 <= i < j.len() && #[trigger] is_ws(j[i]) implies j[i] == ' ' && 0 < i < j.len() - 1
            && !is_ws(j[i - 1]) && !is_ws(j[i + 1]) by {
            if i < a.len() {
                assert(j[i] == a[i]);
                assert(is_ws(a[i]));
                assert(0 < i < a.len() - 1);
                assert(j[i - 1] == a[i - 1]);
                assert(j[i + 1] == a[i + 1]);
            } else if i == a.len() {
                assert(j[i] == ' ');
                assert(j[i - 1] == a[a.len() - 1]);
                assert(j[i + 1] == last[0]);
            } else {
                assert(j[i] == last[i - a.len() - 1]);
            }
        }
        assert(j[0] == a[0]);
        assert(j.last() == last[last.len() - 1]);
    }
}

/// Joining splits off the first word: `w0 + " " + ` the rest joined.
proof fn lemma_join_space_front(words: Seq<Seq<char>>)
    requires
        words.len() >= 2,
    ensures
        join_space(words) == words[0] + seq![' '] + join_space(words.drop_first()),
    decreases words.len(),
{
    let pre = words.drop_last();
    let rest = words.drop_first();
    if words.len() == 2 {
        assert(pre.len() == 1 && pre[0] == words[0]);
        assert(rest.len() == 1 && rest[0] == words[1]);
    } else {
        lemma_join_space_front(pre);
        assert(pre.drop_first() =~= rest.drop_last());
        assert(rest.last() == words.last());
        assert(pre[0] == words[0]);
        assert(join_space(rest) == join_space(rest.drop_last()) + seq![' '] + rest.last());
        assert(join_space(words) == join_space(pre) + seq![' '] + words.last());
        assert(join_space(words) =~= words[0] + seq![' '] + join_space(rest));
    }
}

/// Splitting reads a word without whitespace into the current word.
proof fn lemma_split_ws_word(w: Seq<char>, rest: Seq<char>, words: Seq<Seq<char>>, cur: Seq<char>)
    requires
        ws_free(w),
    ensures
        split_ws_acc(w + rest, words, cur) == split_ws_acc(rest, words, cur + w),
    decreases w.len(),
{
    if w.len() == 0 {
        assert(w + rest =~= rest);
        assert(cur + w =~= cur);
    } else {
        let t = w + rest;
        assert(t[0] == w[0]);
        assert(!is_ws(w[0]));
        assert(t.drop_first() =~= w.drop_first() + rest);
        assert(cur.push(w[0]) + w.drop_first() =~= cur + w);
        lemma_split_ws_word(w.drop_first(), rest, words, cur.push(w[0]));
    }
}

/// Splitting words joined by single spaces gives the words back.
proof fn lemma_split_join(ws: Seq<Seq<char>>, words: Seq<Seq<char>>)
    requires
        proper_words(ws),
        ws.len() > 0,
    ensures
        split_ws_acc(join_space(ws), words, Seq::empty()) == words + ws,
    decreases ws.len(),
{
    let w0 = ws[0];
    assert(w0.len() > 0 && ws_free(w0));
    assert(Seq::<char>::empty() + w0 =~= w0);
    if ws.len() == 1 {
        assert(join_space(ws) == w0);
        assert(w0 + Seq::<char>::empty() =~= w0);
        lemma_split_ws_word(w0, Seq::empty(), words, Seq::empty());
        assert(words.push(w0) =~= words + ws);
    } else {
        let rest = ws.drop_first();
        lemma_join_space_front(ws);
        let j = join_space(rest);
        let tail = seq![' '] + j;
        assert(join_space(ws) =~= w0 + tail);
        lemma_split_ws_word(w0, tail, words, Seq::empty());
        assert(tail[0] == ' ');
        assert(is_ws(' '));
        assert(tail.drop_first() =~= j);
        assert(proper_words(rest)) by {
            assert forall|k: int| 0 <= k < rest.len() implies (#[trigger] rest[k]).len() > 0 && ws_free(rest[k]) by {
                assert(rest[k] == ws[k + 1]);
            }
        }
        lemma_split_join(rest, words.push(w0));
        assert(words.push(w0) + rest =~= words + ws);
    }
}

/// Text whose words are joined by single spaces is left as it is by splitting
/// and joining again.
pub proof fn lemma_normalized_is_fixed(s: Seq<char>)
    ensures
        join_space(split_ws(join_space(split_ws(s)))) == join_space(split_ws(s)),
{
    let ws = split_ws(s);
    lemma_split_ws_proper(s, Seq::empty(), Seq::empty());
    if ws.len() == 0 {
        assert(join_space(ws) == Seq::<char>::empty());
    } else {
        lemma_split_join(ws, Seq::empty());
        assert(Seq::<Seq<char>>::empty() + ws =~= ws);
    }
}

/// The words read so far, joined, are no longer than what they came from.
proof fn lemma_split_len(s: Seq<char>, words: Seq<Seq<char>>, cur: Seq<char>)
    ensures
        join_space(split_ws_acc(s, words, cur)).len() <= join_space(words).len() + cur.len() + (if words.len() > 0 {
            1int
        } else {
            0int
        }) + s.len(),
    decreases s.len(),
{
    if cur.len() > 0 {
        assert(words.push(cur).drop_last() =~= words);
        if words.len() > 0 {
            assert(join_space(words.push(cur)) == join_space(words) + seq![' '] + cur);
        } else {
            assert(join_space(words.push(cur)) == cur);
        }
    }
    if s.len() > 0 {
        if is_ws(s[0]) {
            lemma_split_len(s.drop_first(), if cur.len() > 0 { words.push(cur) } else { words }, Seq::empty());
        } else {
            lemma_split_len(s.drop_first(), words, cur.push(s[0]));
        }
    }
}

/// Splitting and joining with single spaces never lengthens a text.
pub proof fn lemma_normalized_not_longer(s: Seq<char>)
    ensures
        join_space(split_ws(s)).len() <= s.len(),
{
    lemma_split_len(s, Seq::empty(), Seq::empty());
}

/// The words joined with one space between neighbours.
pub fn join_with_space(words: &Vec<Vec<char>>) -> (r: Vec<char>)
    ensures
        r@ == join_space(words.deep_view()),
{
    let mut r: Vec<char> = Vec::new();
    let mut i: usize = 0;
    while i < words.len()
        invariant
            i <= words.len(),
            r@ == join_space(words.deep_view().subrange(0, i as int)),
        decreases words.len() - i,
    {
        let ghost prefix = words.deep_view().subrange(0, i as int);
        let ghost next = words.deep_view().subrange(0, i + 1);
        assert(next.drop_last() =~= prefix);
        if i > 0 {
            r.push(' ');
        }
        let w = &words[i];
        let mut j: usize = 0;
        let ghost start = r@;
        while j < w.len()
            invariant
                j <= w.len(),
                r@ == start + w@.subrange(0, j as int),
            decreases w.len() - j,
        {
            r.push(w[j]);
            j = j + 1;
        }
        assert(w@.subrange(0, w.len() as int) =~= w@);
        assert(next.last() == w@);
        if i == 0 {
            assert(r@ =~= join_space(next));
        } else {
            assert(r@ =~= join_space(next));
        }
        i = i + 1;
    }
    assert(words.deep_view().subrange(0, words.len() as int) =~= words.deep_view());
    r
}

} // verus!

verus! {

/// Lexicographic order on character sequences by code point, the order of `String`'s
/// `Ord` (UTF-8 byte order and code-point order agree).
pub open spec fn lex_lt(a: Seq<char>, b: Seq<char>) -> bool
    decreases a.len(),
{
    if a.len() == 0 {
        b.len() > 0
    } else if b.len() == 0 {
        false
    } else if a[0] != b[0] {
        (a[0] as int) < (b[0] as int)
    } else {
        lex_lt(a.drop_first(), b.drop_first())
    }
}

/// No text comes before itself.
proof fn lemma_lex_irreflexive(a: Seq<char>)
    ensures
        !lex_lt(a, a),
    decreases a.len(),
{
    if a.len() > 0 {
        lemma_lex_irreflexive(a.drop_first());
    }
}

/// Of two different texts exactly one comes first.
proof fn lemma_lex_trichotomy(a: Seq<char>, b: Seq<char>)
    ensures
        a != b ==> (lex_lt(a, b) || lex_lt(b, a)),
        !(lex_lt(a, b) && lex_lt(b, a)),
    decreases a.len(),
{
    if a.len() > 0 && b.len() > 0 {
        if a[0] == b[0] {
            lemma_lex_trichotomy(a.drop_first(), b.drop_first());
            if a.drop_first() == b.drop_first() {
                assert(a =~= seq![a[0]] + a.drop_first());
                assert(b =~= seq![b[0]] + b.drop_first());
            }
        } else {
            assert((a[0] as int) != (b[0] as int));
        }
    } else if a.len() == 0 && b.len() == 0 {
        assert(a =~= b);
    }
}

/// The order of texts is transitive.
proof fn lemma_lex_transitive(a: Seq<char>, b: Seq<char>, c: Seq<char>)
    requires
        lex_lt(a, b),
        lex_lt(b, c),
    ensures
        lex_lt(a, c),
    decreases a.len(),
{
    if a.len() > 0 && b.len() > 0 && c.len() > 0 {
        if a[0] == b[0] && b[0] == c[0] {
            lemma_lex_transitive(a.drop_first(), b.drop_first(), c.drop_first());
        }
    }
}

/// A sequence of strings in strictly increasing lexicographic order.
pub open spec fn strictly_sorted(v: Seq<Seq<char>>) -> bool {
    forall|i: int, j: int| 0 <= i < j < v.len() ==> lex_lt(v[i], v[j])
}

/// Whether `a` sorts strictly before `b`.
pub fn lex_less(a: &Vec<char>, b: &Vec<char>) -> (r: bool)
    ensures
        r == lex_lt(a@, b@),
{
    let mut i: usize = 0;
    assert(a@.subrange(0, a.len() as int) =~= a@);
    assert(b@.subrange(0, b.len() as int) =~= b@);
    while i < a.len() && i < b.len()
        invariant
            i <= a.len(),
            i <= b.len(),
            forall|k: int| 0 <= k < i ==> a@[k] == b@[k],
            lex_lt(a@, b@) == lex_lt(a@.subrange(i as int, a.len() as int), b@.subrange(i as int, b.len() as int)),
        decreases a.len() - i,
    {
        let ghost sa = a@.subrange(i as int, a.len() as int);
        let ghost sb = b@.subrange(i as int, b.len() as int);
        if a[i] != b[i] {
            return a[i] < b[i];
        }
        assert(sa.drop_first() =~= a@.subrange(i + 1, a.len() as int));
        assert(sb.drop_first() =~= b@.subrange(i + 1, b.len() as int));
        i = i + 1;
    }
    i < b.len() && i == a.len()
}

/// Whether two character sequences are equal.
pub fn chars_eq(a: &Vec<char>, b: &Vec<char>) -> (r: bool)
    ensures
        r == (a@ == b@),
{
    if a.len() != b.len() {
        return false;
    }
    let mut i: usize = 0;
    while i < a.len()
        invariant
            a.len() == b.len(),
            i <= a.len(),
            forall|k: int| 0 <= k < i ==> a@[k] == b@[k],
        decreases a.len() - i,
    {
        if a[i] != b[i] {
            return false;
        }
        i = i + 1;
    }
    assert(a@ =~= b@);
    true
}

/// A vector of characters looks the same deep and shallow.
pub proof fn lemma_char_vec_deep_view(v: Vec<char>)
    ensures
        v.deep_view() == v@,
{
    assert(v.deep_view() =~= v@);
}

/// Inserts `x` into a strictly sorted list unless it is already there.
pub fn insert_sorted_unique(v: &mut Vec<Vec<char>>, x: Vec<char>)
    requires
        strictly_sorted(old(v).deep_view()),
    ensures
        strictly_sorted(final(v).deep_view()),
        final(v).deep_view().to_set() == old(v).deep_view().to_set().insert(x@),
{
    let ghost ov = v.deep_view();
    let mut k: usize = 0;
    while k < v.len() && lex_less(&v[k], &x)
        invariant
            k <= v.len(),
            v.deep_view() == ov,
            forall|i: int| 0 <= i < k ==> lex_lt(ov[i], x@),
        decreases v.len() - k,
    {
        proof {
            lemma_char_vec_deep_view(v@[k as int]);
        }
        k = k + 1;
    }
    proof {
        if k < v.len() {
            lemma_char_vec_deep_view(v@[k as int]);
        }
    }
    if k < v.len() && chars_eq(&v[k], &x) {
        assert(ov[k as int] == x@);
        assert forall|t: Seq<char>| v.deep_view().contains(t) <==> (ov.contains(t) || t == x@) by {
            if t == x@ {
                assert(ov[k as int] == t);
            }
        }
        assert(v.deep_view().to_set() =~= ov.to_set().insert(x@));
        return;
    }
    proof {
        if k < v.len() {
            lemma_lex_trichotomy(ov[k as int], x@);
        }
    }
    let ghost xv = x@;
    assert(x.deep_view() =~= x@);
    v.insert(k, x);
    assert(v.deep_view() =~= ov.insert(k as int, xv));
    assert forall|i: int, j: int| 0 <= i < j < v.deep_view().len() implies lex_lt(v.deep_view()[i], v.deep_view()[j]) by {
        let w = v.deep_view();
        if j < k {
        } else if j == k {
        } else if i < k {
        } else if i == k {
            if j - 1 > k {
                lemma_lex_transitive(xv, ov[k as int], ov[j - 1]);
            }
        } else {
        }
    }
    assert forall|t: Seq<char>| #[trigger] v.deep_view().contains(t) <==> (ov.contains(t) || t == xv) by {
        let w = v.deep_view();
        assert(w == ov.insert(k as int, xv));
        if ov.contains(t) {
            let i = choose|i: int| 0 <= i < ov.len() && ov[i] == t;
            if i < k {
                assert(w[i] == t);
            } else {
                assert(w[i + 1] == t);
            }
        }
        if t == xv {
            assert(w[k as int] == t);
        }
        if w.contains(t) {
            let i = choose|i: int| 0 <= i < w.len() && w[i] == t;
            if i < k {
                assert(ov[i] == t);
            } else if i > k {
                assert(ov[i - 1] == t);
            }
        }
    }
    assert forall|t: Seq<char>| #[trigger] v.deep_view().to_set().contains(t) == ov.to_set().insert(xv).contains(t) by {
        assert(v.deep_view().contains(t) <==> (ov.contains(t) || t == xv));
    }
    assert(v.deep_view().to_set() =~= ov.to_set().insert(xv));
}

/// `s` with every trailing occurrence of `c` removed (what `str::trim_end_matches(c)`
/// computes for a character pattern).
pub open spec fn trim_end_char(s: Seq<char>, c: char) -> Seq<char>
    decreases s.len(),
{
    if s.len() > 0 && s.last() == c {
        trim_end_char(s.drop_last(), c)
    } else {
        s
    }
}

/// `s` with every trailing occurrence of `c` removed.
pub fn trim_end_matches_char(s: &Vec<char>, c: char) -> (r: Vec<char>)
    ensures
        r@ == trim_end_char(s@, c),
{
    let mut n = s.len();
    assert(s@.subrange(0, n as int) =~= s@);
    while n > 0 && s[n - 1] == c
        invariant
            n <= s.len(),
            trim_end_char(s@.subrange(0, n as int), c) == trim_end_char(s@, c),
        decreases n,
    {
        assert(s@.subrange(0, n as int).drop_last() =~= s@.subrange(0, n - 1));
        n = n - 1;
    }
    let mut r: Vec<char> = Vec::new();
    let mut i: usize = 0;
    while i < n
        invariant
            n <= s.len(),
            i <= n,
            r@ == s@.subrange(0, i as int),
        decreases n - i,
    {
        r.push(s[i]);
        i = i + 1;
    }
    r
}

/// The views of a list of strings.
pub open spec fn string_views(v: Seq<String>) -> Seq<Seq<char>> {
    v.map_values(|s: String| s@)
}

/// A copy of a list of strings.
pub fn clone_strings(v: &Vec<String>) -> (r: Vec<String>)
    ensures
        r@ == v@,
{
    let mut r: Vec<String> = Vec::new();
    let mut i: usize = 0;
    while i < v.len()
        invariant
            i <= v.len(),
            r@ == v@.subrange(0, i as int),
        decreases v.len() - i,
    {
        r.push(v[i].clone());
        i = i + 1;
        assert(r@ =~= v@.subrange(0, i as int));
    }
    assert(v@.subrange(0, v.len() as int) =~= v@);
    r
}

/// Whether `p` is a prefix of `s`, for string slices.
pub fn str_starts_with(s: &str, p: &str) -> (r: bool)
    ensures
        r == is_prefix(p@, s@),
{
    let n = s.unicode_len();
    let m = p.unicode_len();
    if m > n {
        return false;
    }
    let mut i: usize = 0;
    while i < m
        invariant
            n == s@.len(),
            m == p@.len(),
            m <= n,
            i <= m,
            forall|j: int| 0 <= j < i ==> s@[j] == p@[j],
        decreases m - i,
    {
        if s.get_char(i) != p.get_char(i) {
            return false;
        }
        i = i + 1;
    }
    assert(s@.subrange(0, m as int) =~= p@);
    true
}

} // verus!
