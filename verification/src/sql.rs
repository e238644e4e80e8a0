//! SQL text utilities: comment removal, complexity scoring and table-name extraction.
use vstd::prelude::*;
use crate::text::{
    chars_eq, chars_of, contains, contains_seq, count_matches, count_occurrences, insert_sorted_unique,
    join_space, join_with_space, lemma_join_space_single_spaced, lemma_split_ws_proper, single_spaced,
    lemma_normalized_is_fixed, lemma_normalized_not_longer, lemma_matches_concat, lemma_count_none, occurs_at,
    lemma_char_vec_deep_view, lower, split_whitespace, split_ws,
    strictly_sorted, string_of, to_lowercase, to_uppercase, trim_end_char, trim_end_matches_char,
    upper,
};

verus! {

/// Index of the first line feed at or after `j`, or `s.len()` when there is none.
pub open spec fn line_end(s: Seq<char>, j: int) -> int
    decreases s.len() - j,
{
    if j >= s.len() {
        s.len() as int
    } else if s[j] == '\n' {
        j
    } else {
        line_end(s, j + 1)
    }
}

/// Index of the first `*/` that starts at or after `j`, if any.
pub open spec fn block_end(s: Seq<char>, j: int) -> Option<int>
    decreases s.len() - j,
{
    if j + 1 >= s.len() {
        None
    } else if s[j] == '*' && s[j + 1] == '/' {
        Some(j)
    } else {
        block_end(s, j + 1)
    }
}

/// The end of a line comment lies between its start and the end of the text, on
/// a newline unless the text ends first.
pub proof fn lemma_line_end_bounds(s: Seq<char>, j: int)
    ensures
        j <= s.len() ==> j <= line_end(s, j) <= s.len(),
        j > s.len() ==> line_end(s, j) == s.len(),
        line_end(s, j) < s.len() ==> s[line_end(s, j)] == '\n',
    decreases s.len() - j,
{
    if j < s.len() && s[j] != '\n' {
        lemma_line_end_bounds(s, j + 1);
    }
}

/// The end of a block comment, when found, is a `*/` after its start.
pub proof fn lemma_block_end_bounds(s: Seq<char>, j: int)
    ensures
        block_end(s, j) matches Some(k) ==> j <= k && k + 1 < s.len() && s[k] == '*' && s[k + 1] == '/',
    decreases s.len() - j,
{
    if j + 1 < s.len() && !(s[j] == '*' && s[j + 1] == '/') {
        lemma_block_end_bounds(s, j + 1);
    }
}

/// The text of `s` from index `i` with the comments removed, given whether a quoted
/// string is open (`in_str`) and which quote opened it (`q`). Outside quotes, `--`
/// starts a comment that runs to the end of the line (the line feed is kept) and
/// `/*` starts one that runs to the next `*/`; an unterminated `/*` keeps the two
/// characters `/*` and drops the rest of the text.
pub open spec fn strip_comments(s: Seq<char>, i: int, in_str: bool, q: char) -> Seq<char>
    decreases s.len() - i,
{
    if i < 0 || i >= s.len() {
        Seq::empty()
    } else {
        let c = s[i];
        if c == '\'' || c == '"' {
            if !in_str {
                seq![c] + strip_comments(s, i + 1, true, c)
            } else if c == q {
                seq![c] + strip_comments(s, i + 1, false, q)
            } else {
                seq![c] + strip_comments(s, i + 1, true, q)
            }
        } else if c == '-' && !in_str && i + 1 < s.len() && s[i + 1] == '-' {
            let e = line_end(s, i + 2);
            proof {
                lemma_line_end_bounds(s, i + 2);
            }
            if e < s.len() {
                seq!['\n'] + strip_comments(s, e + 1, in_str, q)
            } else {
                Seq::empty()
            }
        } else if c == '/' && !in_str && i + 1 < s.len() && s[i + 1] == '*' {
            proof {
                lemma_block_end_bounds(s, i + 2);
            }
            match block_end(s, i + 2) {
                Some(k) => strip_comments(s, k + 2, in_str, q),
                None => seq!['/', '*'],
            }
        } else {
            seq![c] + strip_comments(s, i + 1, in_str, q)
        }
    }
}

/// What `sanitize_sql` returns: the comments removed, then the words of what is left
/// joined by single spaces.
pub open spec fn sanitized(sql: Seq<char>) -> Seq<char> {
    join_space(split_ws(strip_comments(sql, 0, false, '\0')))
}

/// Sanitized SQL has no redundant whitespace: it neither starts nor ends with
/// whitespace, and its only whitespace is single spaces between words.
pub proof fn lemma_sanitized_single_spaced(sql: Seq<char>)
    ensures
        single_spaced(sanitized(sql)),
{
    let stripped = strip_comments(sql, 0, false, '\0');
    lemma_split_ws_proper(stripped, Seq::empty(), Seq::empty());
    lemma_join_space_single_spaced(split_ws(stripped));
}

/// Removing comments never lengthens the text.
proof fn lemma_strip_not_longer(s: Seq<char>, i: int, in_str: bool, q: char)
    requires
        0 <= i,
    ensures
        strip_comments(s, i, in_str, q).len() <= if i < s.len() { s.len() - i } else { 0 },
    decreases s.len() - i,
{
    if i < s.len() {
        let c = s[i];
        if c == '\'' || c == '"' {
            if !in_str {
                lemma_strip_not_longer(s, i + 1, true, c);
            } else if c == q {
                lemma_strip_not_longer(s, i + 1, false, q);
            } else {
                lemma_strip_not_longer(s, i + 1, true, q);
            }
        } else if c == '-' && !in_str && i + 1 < s.len() && s[i + 1] == '-' {
            lemma_line_end_bounds(s, i + 2);
            let e = line_end(s, i + 2);
            if e < s.len() {
                lemma_strip_not_longer(s, e + 1, in_str, q);
            }
        } else if c == '/' && !in_str && i + 1 < s.len() && s[i + 1] == '*' {
            lemma_block_end_bounds(s, i + 2);
            match block_end(s, i + 2) {
                Some(k) => {
                    lemma_strip_not_longer(s, k + 2, in_str, q);
                },
                None => {},
            }
        } else {
            lemma_strip_not_longer(s, i + 1, in_str, q);
        }
    }
}

/// Text without `-` or `/` holds no comment: removing comments keeps it whole.
proof fn lemma_strip_without_markers(s: Seq<char>, i: int, in_str: bool, q: char)
    requires
        0 <= i <= s.len(),
        forall|j: int| 0 <= j < s.len() ==> s[j] != '-' && s[j] != '/',
    ensures
        strip_comments(s, i, in_str, q) == s.subrange(i, s.len() as int),
    decreases s.len() - i,
{
    if i < s.len() {
        let c = s[i];
        assert(c != '-' && c != '/');
        if c == '\'' || c == '"' {
            if !in_str {
                lemma_strip_without_markers(s, i + 1, true, c);
            } else if c == q {
                lemma_strip_without_markers(s, i + 1, false, q);
            } else {
                lemma_strip_without_markers(s, i + 1, true, q);
            }
        } else {
            lemma_strip_without_markers(s, i + 1, in_str, q);
        }
        assert(seq![c] + s.subrange(i + 1, s.len() as int) =~= s.subrange(i, s.len() as int));
    } else {
        assert(s.subrange(i, s.len() as int) =~= Seq::<char>::empty());
    }
}

/// Sanitizing leaves text that splitting on whitespace and joining with single
/// spaces keeps as it is, is never longer than the input, and, for input without
/// `-` or `/` (so without comments), is just the input's words joined by single
/// spaces.
pub proof fn lemma_sanitized_normal_form(sql: Seq<char>)
    ensures
        join_space(split_ws(sanitized(sql))) == sanitized(sql),
        sanitized(sql).len() <= sql.len(),
        (forall|j: int| 0 <= j < sql.len() ==> sql[j] != '-' && sql[j] != '/') ==> sanitized(sql) == join_space(
            split_ws(sql),
        ),
{
    let stripped = strip_comments(sql, 0, false, '\0');
    lemma_normalized_is_fixed(stripped);
    lemma_normalized_not_longer(stripped);
    lemma_strip_not_longer(sql, 0, false, '\0');
    if forall|j: int| 0 <= j < sql.len() ==> sql[j] != '-' && sql[j] != '/' {
        lemma_strip_without_markers(sql, 0, false, '\0');
        assert(sql.subrange(0, sql.len() as int) =~= sql);
    }
}

/// `strip_comments` from index 0 of `s`.
pub fn strip_sql_comments(s: &Vec<char>) -> (out: Vec<char>)
    ensures
        out@ == strip_comments(s@, 0, false, '\0'),
{
    let mut out: Vec<char> = Vec::new();
    let mut i: usize = 0;
    let mut in_str = false;
    let mut q: char = '\0';
    let n = s.len();
    while i < n
        invariant
            n == s.len(),
            i <= n,
            out@ + strip_comments(s@, i as int, in_str, q) == strip_comments(s@, 0, false, '\0'),
        decreases n - i,
    {
        let ghost before = out@;
        let ghost gi = i as int;
        let ghost gin = in_str;
        let ghost gq = q;
        let c = s[i];
        if c == '\'' || c == '"' {
            if !in_str {
                in_str = true;
                q = c;
            } else if c == q {
                in_str = false;
            }
            out.push(c);
            i = i + 1;
            assert(before + strip_comments(s@, gi, gin, gq) =~= out@ + strip_comments(s@, i as int, in_str, q));
        } else if c == '-' && !in_str && i + 1 < n && s[i + 1] == '-' {
            let mut j: usize = i + 2;
            proof {
                lemma_line_end_bounds(s@, gi + 2);
            }
            while j < n && s[j] != '\n'
                invariant
                    n == s.len(),
                    gi + 2 <= j <= n,
                    line_end(s@, gi + 2) == line_end(s@, j as int),
                decreases n - j,
            {
                j = j + 1;
            }
            if j < n {
                out.push('\n');
                i = j + 1;
                assert(before + strip_comments(s@, gi, gin, gq) =~= out@ + strip_comments(s@, i as int, in_str, q));
            } else {
                assert(before + strip_comments(s@, gi, gin, gq) =~= out@);
                assert(out@ + strip_comments(s@, n as int, in_str, q) =~= out@);
                i = n;
            }
        } else if c == '/' && !in_str && i + 1 < n && s[i + 1] == '*' {
            let mut j: usize = i + 2;
            let mut found = false;
            proof {
                lemma_block_end_bounds(s@, gi + 2);
            }
            while j < n && n - j > 1 && !found
                invariant
                    n == s.len(),
                    gi + 1 < n,
                    gi + 2 <= j,
                    j <= n,
                    !found ==> block_end(s@, gi + 2) == block_end(s@, j as int),
                    found ==> block_end(s@, gi + 2) == Some(j as int),
                decreases n - j, if found { 0int } else { 1int },
            {
                if s[j] == '*' && s[j + 1] == '/' {
                    found = true;
                } else {
                    j = j + 1;
                }
            }
            if found {
                i = j + 2;
                assert(before + strip_comments(s@, gi, gin, gq) =~= out@ + strip_comments(s@, i as int, in_str, q));
            } else {
                assert(block_end(s@, j as int) is None);
                out.push('/');
                out.push('*');
                assert(before + strip_comments(s@, gi, gin, gq) =~= out@);
                assert(out@ + strip_comments(s@, n as int, in_str, q) =~= out@);
                i = n;
            }
        } else {
            out.push(c);
            i = i + 1;
            assert(before + strip_comments(s@, gi, gin, gq) =~= out@ + strip_comments(s@, i as int, in_str, q));
        }
    }
    assert(out@ + strip_comments(s@, i as int, in_str, q) =~= out@);
    out
}

/// Removes SQL comments (outside quoted strings) and collapses whitespace: the words
/// of what is left, joined by single spaces.
pub fn sanitize_sql(sql: &str) -> (r: String)
    ensures
        r@ == sanitized(sql@),
{
    let chars = chars_of(sql);
    let stripped = strip_sql_comments(&chars);
    let words = split_whitespace(&stripped);
    let joined = join_with_space(&words);
    string_of(&joined)
}

} // verus!

verus! {

/// 1 when `b` holds, else 0.
pub open spec fn ind(b: bool) -> int {
    if b { 1 } else { 0 }
}

/// The complexity score of an upper-cased query before it is capped at 10.
pub open spec fn complexity_score(u: Seq<char>) -> int {
    1 + ind(contains_seq(u, "SELECT"@)) + ind(contains_seq(u, "FROM"@))
        + 2 * count_matches(u, "JOIN"@) + 3 * count_matches(u, "(SELECT"@)
        + count_matches(u, "COUNT"@) + count_matches(u, "SUM"@) + count_matches(u, "AVG"@)
        + count_matches(u, "MAX"@) + count_matches(u, "MIN"@) + count_matches(u, "GROUP_CONCAT"@)
        + 3 * ind(contains_seq(u, "OVER"@)) + ind(contains_seq(u, "ORDER BY"@))
        + 2 * ind(contains_seq(u, "GROUP BY"@)) + 2 * ind(contains_seq(u, "HAVING"@))
        + 2 * ind(contains_seq(u, "WITH"@))
}

/// The complexity score of a query: the score of its upper-cased text, capped at 10.
pub open spec fn query_complexity(sql: Seq<char>) -> int {
    let c = complexity_score(upper(sql));
    if c < 10 { c } else { 10 }
}

/// The texts that the complexity score counts or looks for.
spec fn scored_patterns() -> Seq<Seq<char>> {
    seq!["SELECT"@, "FROM"@, "JOIN"@, "(SELECT"@, "COUNT"@, "SUM"@, "AVG"@, "MAX"@, "MIN"@,
        "GROUP_CONCAT"@, "OVER"@, "ORDER BY"@, "GROUP BY"@, "HAVING"@, "WITH"@]
}

/// Counting `p` in `u + t`, where `t` starts with a space, counts in `u` and in `t`
/// apart when no space of `p` can stand first in `t` with the rest of `p` after it.
proof fn lemma_tail_split(u: Seq<char>, t: Seq<char>, p: Seq<char>)
    requires
        p.len() > 0,
        t.len() >= 2,
        t[0] == ' ',
        forall|m: int| 1 <= m < p.len() && #[trigger] p[m] == ' ' ==> m + 1 < p.len() && p[m + 1] != t[1],
    ensures
        count_matches(u + t, p) == count_matches(u, p) + count_matches(t, p),
        contains_seq(u + t, p) == (contains_seq(u, p) || contains_seq(t, p)),
{
    let s = u + t;
    assert forall|k: int| 0 <= k < u.len() < k + p.len() implies !occurs_at(s, p, k) by {
        if occurs_at(s, p, k) {
            let m = u.len() - k;
            assert(s.subrange(k, k + p.len())[m] == s[u.len() as int]);
            assert(p[m] == ' ');
            if m + 1 < p.len() {
                assert(s.subrange(k, k + p.len())[m + 1] == s[u.len() + 1int]);
            }
        }
    }
    lemma_matches_concat(u, t, p);
}

/// At no index from `k` on where `p` would fit in `t` do the characters of `t` at
/// offsets 0, 1, 2 and (for `p` longer than 5) 5 all agree with `p`.
spec fn no_start_from(t: Seq<char>, p: Seq<char>, k: int) -> bool
    decreases t.len() - k,
{
    if k < 0 || p.len() < 3 || k + p.len() > t.len() {
        true
    } else {
        &&& (t[k] != p[0] || t[k + 1] != p[1] || t[k + 2] != p[2] || (p.len() > 5 && t[k + 5] != p[5]))
        &&& no_start_from(t, p, k + 1)
    }
}

/// `p` does not occur in `t` from `k` on when `no_start_from(t, p, k)`.
proof fn lemma_not_in_tail(t: Seq<char>, p: Seq<char>, k: int)
    requires
        p.len() >= 3,
        0 <= k,
        no_start_from(t, p, k),
    ensures
        forall|j: int| k <= j ==> !occurs_at(t, p, j),
        k == 0 ==> !contains_seq(t, p) && count_matches(t, p) == 0,
    decreases t.len() - k,
{
    if k + p.len() <= t.len() {
        lemma_not_in_tail(t, p, k + 1);
        if occurs_at(t, p, k) {
            let r = t.subrange(k, k + p.len());
            assert(r[0] == t[k] && r[1] == t[k + 1] && r[2] == t[k + 2]);
            if p.len() > 5 {
                assert(r[5] == t[k + 5]);
            }
        }
    }
    if k == 0 {
        lemma_count_none(t, p, 0);
    }
}

/// `x` occurs once in `" " + x + " "`.
proof fn lemma_once_in_tail(x: Seq<char>)
    requires
        x.len() >= 2,
        x[0] != ' ',
    ensures
        count_matches(" "@ + x + " "@, x) == 1,
        contains_seq(" "@ + x + " "@, x),
{
    reveal_strlit(" ");
    let t = " "@ + x + " "@;
    let n = x.len() as int;
    assert(t.subrange(1, 1 + n) =~= x);
    assert(occurs_at(t, x, 1));
    assert(!occurs_at(t, x, 0)) by {
        assert(t.subrange(0, n)[0] == t[0]);
    }
    assert(crate::text::count_from(t, x, 1 + n) == 0);
    assert(crate::text::count_from(t, x, 1) == 1);
    assert(crate::text::count_from(t, x, 0) == 1);
}

/// Appending `" " + x + " "`, for a scored text `x`, adds to the counts and tests of the
/// complexity score what is found in `" " + x + " "`, where `x` is found once.
proof fn lemma_scored_tail(u: Seq<char>, x: Seq<char>)
    requires
        scored_patterns().contains(x),
        x[0] != 'B',
    ensures
        forall|i: int| #![trigger scored_patterns()[i]] 0 <= i < 15 ==> {
            let p = scored_patterns()[i];
            let t = " "@ + x + " "@;
            &&& count_matches(u + t, p) == count_matches(u, p) + count_matches(t, p)
            &&& contains_seq(u + t, p) == (contains_seq(u, p) || contains_seq(t, p))
        },
        count_matches(" "@ + x + " "@, x) == 1,
        contains_seq(" "@ + x + " "@, x),
{
    reveal_strlit(" ");
    reveal_strlit("SELECT");
    reveal_strlit("FROM");
    reveal_strlit("JOIN");
    reveal_strlit("(SELECT");
    reveal_strlit("COUNT");
    reveal_strlit("SUM");
    reveal_strlit("AVG");
    reveal_strlit("MAX");
    reveal_strlit("MIN");
    reveal_strlit("GROUP_CONCAT");
    reveal_strlit("OVER");
    reveal_strlit("ORDER BY");
    reveal_strlit("GROUP BY");
    reveal_strlit("HAVING");
    reveal_strlit("WITH");
    let t = " "@ + x + " "@;
    assert(x.len() >= 3 && x[0] != ' ');
    assert forall|i: int| #![trigger scored_patterns()[i]] 0 <= i < 15 implies {
        let p = scored_patterns()[i];
        &&& count_matches(u + t, p) == count_matches(u, p) + count_matches(t, p)
        &&& contains_seq(u + t, p) == (contains_seq(u, p) || contains_seq(t, p))
    } by {
        let p = scored_patterns()[i];
        assert(p.len() >= 3);
        assert(t[0] == ' ' && t[1] == x[0]);
        assert forall|m: int| 1 <= m < p.len() && #[trigger] p[m] == ' ' implies m + 1 < p.len() && p[m + 1] != t[1] by {
        }
        lemma_tail_split(u, t, p);
    }
    lemma_once_in_tail(x);
}

/// The indices of the scored texts.
proof fn lemma_scored_indices()
    ensures
        scored_patterns().len() == 15,
        scored_patterns()[0] == "SELECT"@ && scored_patterns()[1] == "FROM"@ && scored_patterns()[2] == "JOIN"@,
        scored_patterns()[3] == "(SELECT"@ && scored_patterns()[4] == "COUNT"@ && scored_patterns()[5] == "SUM"@,
        scored_patterns()[6] == "AVG"@ && scored_patterns()[7] == "MAX"@ && scored_patterns()[8] == "MIN"@,
        scored_patterns()[9] == "GROUP_CONCAT"@ && scored_patterns()[10] == "OVER"@ && scored_patterns()[11] == "ORDER BY"@,
        scored_patterns()[12] == "GROUP BY"@ && scored_patterns()[13] == "HAVING"@ && scored_patterns()[14] == "WITH"@,
{
}

/// What a trailing ` SELECT ` word adds to the score (see `lemma_complexity_weights`).
#[verifier::rlimit(40)]
proof fn lemma_weight_select(u: Seq<char>)
    ensures
        complexity_score(u + " SELECT "@) == complexity_score(u) + ind(!contains_seq(u, "SELECT"@)),
{
    reveal_strlit(" ");
    reveal_strlit(" SELECT ");
    reveal_strlit("SELECT");
    reveal_strlit("FROM");
    reveal_strlit("JOIN");
    reveal_strlit("(SELECT");
    reveal_strlit("COUNT");
    reveal_strlit("SUM");
    reveal_strlit("AVG");
    reveal_strlit("MAX");
    reveal_strlit("MIN");
    reveal_strlit("GROUP_CONCAT");
    reveal_strlit("OVER");
    reveal_strlit("ORDER BY");
    reveal_strlit("GROUP BY");
    reveal_strlit("HAVING");
    reveal_strlit("WITH");
    assert(" SELECT "@ =~= " "@ + "SELECT"@ + " "@);
    reveal_with_fuel(no_start_from, 15);
    lemma_scored_indices();
    lemma_scored_tail(u, "SELECT"@);
    lemma_not_in_tail(" SELECT "@, "FROM"@, 0);
    lemma_not_in_tail(" SELECT "@, "JOIN"@, 0);
    lemma_not_in_tail(" SELECT "@, "(SELECT"@, 0);
    lemma_not_in_tail(" SELECT "@, "COUNT"@, 0);
    lemma_not_in_tail(" SELECT "@, "SUM"@, 0);
    lemma_not_in_tail(" SELECT "@, "AVG"@, 0);
    lemma_not_in_tail(" SELECT "@, "MAX"@, 0);
    lemma_not_in_tail(" SELECT "@, "MIN"@, 0);
    lemma_not_in_tail(" SELECT "@, "GROUP_CONCAT"@, 0);
    lemma_not_in_tail(" SELECT "@, "OVER"@, 0);
    lemma_not_in_tail(" SELECT "@, "ORDER BY"@, 0);
    lemma_not_in_tail(" SELECT "@, "GROUP BY"@, 0);
    lemma_not_in_tail(" SELECT "@, "HAVING"@, 0);
    lemma_not_in_tail(" SELECT "@, "WITH"@, 0);
}

/// What a trailing ` FROM ` word adds to the score (see `lemma_complexity_weights`).
#[verifier::rlimit(40)]
proof fn lemma_weight_from(u: Seq<char>)
    ensures
        complexity_score(u + " FROM "@) == complexity_score(u) + ind(!contains_seq(u, "FROM"@)),
{
    reveal_strlit(" ");
    reveal_strlit(" FROM ");
    reveal_strlit("SELECT");
    reveal_strlit("FROM");
    reveal_strlit("JOIN");
    reveal_strlit("(SELECT");
    reveal_strlit("COUNT");
    reveal_strlit("SUM");
    reveal_strlit("AVG");
    reveal_strlit("MAX");
    reveal_strlit("MIN");
    reveal_strlit("GROUP_CONCAT");
    reveal_strlit("OVER");
    reveal_strlit("ORDER BY");
    reveal_strlit("GROUP BY");
    reveal_strlit("HAVING");
    reveal_strlit("WITH");
    assert(" FROM "@ =~= " "@ + "FROM"@ + " "@);
    reveal_with_fuel(no_start_from, 15);
    lemma_scored_indices();
    lemma_scored_tail(u, "FROM"@);
    lemma_not_in_tail(" FROM "@, "SELECT"@, 0);
    lemma_not_in_tail(" FROM "@, "JOIN"@, 0);
    lemma_not_in_tail(" FROM "@, "(SELECT"@, 0);
    lemma_not_in_tail(" FROM "@, "COUNT"@, 0);
    lemma_not_in_tail(" FROM "@, "SUM"@, 0);
    lemma_not_in_tail(" FROM "@, "AVG"@, 0);
    lemma_not_in_tail(" FROM "@, "MAX"@, 0);
    lemma_not_in_tail(" FROM "@, "MIN"@, 0);
    lemma_not_in_tail(" FROM "@, "GROUP_CONCAT"@, 0);
    lemma_not_in_tail(" FROM "@, "OVER"@, 0);
    lemma_not_in_tail(" FROM "@, "ORDER BY"@, 0);
    lemma_not_in_tail(" FROM "@, "GROUP BY"@, 0);
    lemma_not_in_tail(" FROM "@, "HAVING"@, 0);
    lemma_not_in_tail(" FROM "@, "WITH"@, 0);
}

/// What a trailing ` JOIN ` word adds to the score (see `lemma_complexity_weights`).
#[verifier::rlimit(40)]
proof fn lemma_weight_join(u: Seq<char>)
    ensures
        complexity_score(u + " JOIN "@) == complexity_score(u) + 2,
{
    reveal_strlit(" ");
    reveal_strlit(" JOIN ");
    reveal_strlit("SELECT");
    reveal_strlit("FROM");
    reveal_strlit("JOIN");
    reveal_strlit("(SELECT");
    reveal_strlit("COUNT");
    reveal_strlit("SUM");
    reveal_strlit("AVG");
    reveal_strlit("MAX");
    reveal_strlit("MIN");
    reveal_strlit("GROUP_CONCAT");
    reveal_strlit("OVER");
    reveal_strlit("ORDER BY");
    reveal_strlit("GROUP BY");
    reveal_strlit("HAVING");
    reveal_strlit("WITH");
    assert(" JOIN "@ =~= " "@ + "JOIN"@ + " "@);
    reveal_with_fuel(no_start_from, 15);
    lemma_scored_indices();
    lemma_scored_tail(u, "JOIN"@);
    lemma_not_in_tail(" JOIN "@, "SELECT"@, 0);
    lemma_not_in_tail(" JOIN "@, "FROM"@, 0);
    lemma_not_in_tail(" JOIN "@, "(SELECT"@, 0);
    lemma_not_in_tail(" JOIN "@, "COUNT"@, 0);
    lemma_not_in_tail(" JOIN "@, "SUM"@, 0);
    lemma_not_in_tail(" JOIN "@, "AVG"@, 0);
    lemma_not_in_tail(" JOIN "@, "MAX"@, 0);
    lemma_not_in_tail(" JOIN "@, "MIN"@, 0);
    lemma_not_in_tail(" JOIN "@, "GROUP_CONCAT"@, 0);
    lemma_not_in_tail(" JOIN "@, "OVER"@, 0);
    lemma_not_in_tail(" JOIN "@, "ORDER BY"@, 0);
    lemma_not_in_tail(" JOIN "@, "GROUP BY"@, 0);
    lemma_not_in_tail(" JOIN "@, "HAVING"@, 0);
    lemma_not_in_tail(" JOIN "@, "WITH"@, 0);
}

/// What `" (SELECT "` holds of the scored texts besides `(SELECT`.
#[verifier::rlimit(40)]
proof fn lemma_sub_select_tail()
    ensures
        !contains_seq(" (SELECT "@, "FROM"@) && count_matches(" (SELECT "@, "FROM"@) == 0,
        !contains_seq(" (SELECT "@, "JOIN"@) && count_matches(" (SELECT "@, "JOIN"@) == 0,
        !contains_seq(" (SELECT "@, "COUNT"@) && count_matches(" (SELECT "@, "COUNT"@) == 0,
        !contains_seq(" (SELECT "@, "SUM"@) && count_matches(" (SELECT "@, "SUM"@) == 0,
        !contains_seq(" (SELECT "@, "AVG"@) && count_matches(" (SELECT "@, "AVG"@) == 0,
        !contains_seq(" (SELECT "@, "MAX"@) && count_matches(" (SELECT "@, "MAX"@) == 0,
        !contains_seq(" (SELECT "@, "MIN"@) && count_matches(" (SELECT "@, "MIN"@) == 0,
        !contains_seq(" (SELECT "@, "GROUP_CONCAT"@) && count_matches(" (SELECT "@, "GROUP_CONCAT"@) == 0,
        !contains_seq(" (SELECT "@, "OVER"@) && count_matches(" (SELECT "@, "OVER"@) == 0,
        !contains_seq(" (SELECT "@, "ORDER BY"@) && count_matches(" (SELECT "@, "ORDER BY"@) == 0,
        !contains_seq(" (SELECT "@, "GROUP BY"@) && count_matches(" (SELECT "@, "GROUP BY"@) == 0,
        !contains_seq(" (SELECT "@, "HAVING"@) && count_matches(" (SELECT "@, "HAVING"@) == 0,
        !contains_seq(" (SELECT "@, "WITH"@) && count_matches(" (SELECT "@, "WITH"@) == 0,
        contains_seq(" (SELECT "@, "SELECT"@),
{
    reveal_strlit(" (SELECT ");
    reveal_strlit("SELECT");
    reveal_strlit("FROM");
    reveal_strlit("JOIN");
    reveal_strlit("(SELECT");
    reveal_strlit("COUNT");
    reveal_strlit("SUM");
    reveal_strlit("AVG");
    reveal_strlit("MAX");
    reveal_strlit("MIN");
    reveal_strlit("GROUP_CONCAT");
    reveal_strlit("OVER");
    reveal_strlit("ORDER BY");
    reveal_strlit("GROUP BY");
    reveal_strlit("HAVING");
    reveal_strlit("WITH");
    reveal_with_fuel(no_start_from, 15);
    lemma_not_in_tail(" (SELECT "@, "FROM"@, 0);
    lemma_not_in_tail(" (SELECT "@, "JOIN"@, 0);
    lemma_not_in_tail(" (SELECT "@, "COUNT"@, 0);
    lemma_not_in_tail(" (SELECT "@, "SUM"@, 0);
    lemma_not_in_tail(" (SELECT "@, "AVG"@, 0);
    lemma_not_in_tail(" (SELECT "@, "MAX"@, 0);
    lemma_not_in_tail(" (SELECT "@, "MIN"@, 0);
    lemma_not_in_tail(" (SELECT "@, "GROUP_CONCAT"@, 0);
    lemma_not_in_tail(" (SELECT "@, "OVER"@, 0);
    lemma_not_in_tail(" (SELECT "@, "ORDER BY"@, 0);
    lemma_not_in_tail(" (SELECT "@, "GROUP BY"@, 0);
    lemma_not_in_tail(" (SELECT "@, "HAVING"@, 0);
    lemma_not_in_tail(" (SELECT "@, "WITH"@, 0);
    assert(occurs_at(" (SELECT "@, "SELECT"@, 2)) by {
        assert(" (SELECT "@.subrange(2, 8) =~= "SELECT"@);
    }
}

/// What a trailing ` (SELECT ` word adds to the score (see `lemma_complexity_weights`).
#[verifier::rlimit(40)]
proof fn lemma_weight_sub_select(u: Seq<char>)
    ensures
        complexity_score(u + " (SELECT "@) == complexity_score(u) + 3 + ind(!contains_seq(u, "SELECT"@)),
{
    reveal_strlit(" ");
    reveal_strlit(" (SELECT ");
    reveal_strlit("(SELECT");
    assert(" (SELECT "@ =~= " "@ + "(SELECT"@ + " "@);
    lemma_scored_indices();
    lemma_scored_tail(u, "(SELECT"@);
    lemma_sub_select_tail();
}

/// What a trailing ` COUNT ` word adds to the score (see `lemma_complexity_weights`).
#[verifier::rlimit(40)]
proof fn lemma_weight_count(u: Seq<char>)
    ensures
        complexity_score(u + " COUNT "@) == complexity_score(u) + 1,
{
    reveal_strlit(" ");
    reveal_strlit(" COUNT ");
    reveal_strlit("SELECT");
    reveal_strlit("FROM");
    reveal_strlit("JOIN");
    reveal_strlit("(SELECT");
    reveal_strlit("COUNT");
    reveal_strlit("SUM");
    reveal_strlit("AVG");
    reveal_strlit("MAX");
    reveal_strlit("MIN");
    reveal_strlit("GROUP_CONCAT");
    reveal_strlit("OVER");
    reveal_strlit("ORDER BY");
    reveal_strlit("GROUP BY");
    reveal_strlit("HAVING");
    reveal_strlit("WITH");
    assert(" COUNT "@ =~= " "@ + "COUNT"@ + " "@);
    reveal_with_fuel(no_start_from, 15);
    lemma_scored_indices();
    lemma_scored_tail(u, "COUNT"@);
    lemma_not_in_tail(" COUNT "@, "SELECT"@, 0);
    lemma_not_in_tail(" COUNT "@, "FROM"@, 0);
    lemma_not_in_tail(" COUNT "@, "JOIN"@, 0);
    lemma_not_in_tail(" COUNT "@, "(SELECT"@, 0);
    lemma_not_in_tail(" COUNT "@, "SUM"@, 0);
    lemma_not_in_tail(" COUNT "@, "AVG"@, 0);
    lemma_not_in_tail(" COUNT "@, "MAX"@, 0);
    lemma_not_in_tail(" COUNT "@, "MIN"@, 0);
    lemma_not_in_tail(" COUNT "@, "GROUP_CONCAT"@, 0);
    lemma_not_in_tail(" COUNT "@, "OVER"@, 0);
    lemma_not_in_tail(" COUNT "@, "ORDER BY"@, 0);
    lemma_not_in_tail(" COUNT "@, "GROUP BY"@, 0);
    lemma_not_in_tail(" COUNT "@, "HAVING"@, 0);
    lemma_not_in_tail(" COUNT "@, "WITH"@, 0);
}

/// What a trailing ` SUM ` word adds to the score (see `lemma_complexity_weights`).
#[verifier::rlimit(40)]
proof fn lemma_weight_sum(u: Seq<char>)
    ensures
        complexity_score(u + " SUM "@) == complexity_score(u) + 1,
{
    reveal_strlit(" ");
    reveal_strlit(" SUM ");
    reveal_strlit("SELECT");
    reveal_strlit("FROM");
    reveal_strlit("JOIN");
    reveal_strlit("(SELECT");
    reveal_strlit("COUNT");
    reveal_strlit("SUM");
    reveal_strlit("AVG");
    reveal_strlit("MAX");
    reveal_strlit("MIN");
    reveal_strlit("GROUP_CONCAT");
    reveal_strlit("OVER");
    reveal_strlit("ORDER BY");
    reveal_strlit("GROUP BY");
    reveal_strlit("HAVING");
    reveal_strlit("WITH");
    assert(" SUM "@ =~= " "@ + "SUM"@ + " "@);
    reveal_with_fuel(no_start_from, 15);
    lemma_scored_indices();
    lemma_scored_tail(u, "SUM"@);
    lemma_not_in_tail(" SUM "@, "SELECT"@, 0);
    lemma_not_in_tail(" SUM "@, "FROM"@, 0);
    lemma_not_in_tail(" SUM "@, "JOIN"@, 0);
    lemma_not_in_tail(" SUM "@, "(SELECT"@, 0);
    lemma_not_in_tail(" SUM "@, "COUNT"@, 0);
    lemma_not_in_tail(" SUM "@, "AVG"@, 0);
    lemma_not_in_tail(" SUM "@, "MAX"@, 0);
    lemma_not_in_tail(" SUM "@, "MIN"@, 0);
    lemma_not_in_tail(" SUM "@, "GROUP_CONCAT"@, 0);
    lemma_not_in_tail(" SUM "@, "OVER"@, 0);
    lemma_not_in_tail(" SUM "@, "ORDER BY"@, 0);
    lemma_not_in_tail(" SUM "@, "GROUP BY"@, 0);
    lemma_not_in_tail(" SUM "@, "HAVING"@, 0);
    lemma_not_in_tail(" SUM "@, "WITH"@, 0);
}

/// What a trailing ` AVG ` word adds to the score (see `lemma_complexity_weights`).
#[verifier::rlimit(40)]
proof fn lemma_weight_avg(u: Seq<char>)
    ensures
        complexity_score(u + " AVG "@) == complexity_score(u) + 1,
{
    reveal_strlit(" ");
    reveal_strlit(" AVG ");
    reveal_strlit("SELECT");
    reveal_strlit("FROM");
    reveal_strlit("JOIN");
    reveal_strlit("(SELECT");
    reveal_strlit("COUNT");
    reveal_strlit("SUM");
    reveal_strlit("AVG");
    reveal_strlit("MAX");
    reveal_strlit("MIN");
    reveal_strlit("GROUP_CONCAT");
    reveal_strlit("OVER");
    reveal_strlit("ORDER BY");
    reveal_strlit("GROUP BY");
    reveal_strlit("HAVING");
    reveal_strlit("WITH");
    assert(" AVG "@ =~= " "@ + "AVG"@ + " "@);
    reveal_with_fuel(no_start_from, 15);
    lemma_scored_indices();
    lemma_scored_tail(u, "AVG"@);
    lemma_not_in_tail(" AVG "@, "SELECT"@, 0);
    lemma_not_in_tail(" AVG "@, "FROM"@, 0);
    lemma_not_in_tail(" AVG "@, "JOIN"@, 0);
    lemma_not_in_tail(" AVG "@, "(SELECT"@, 0);
    lemma_not_in_tail(" AVG "@, "COUNT"@, 0);
    lemma_not_in_tail(" AVG "@, "SUM"@, 0);
    lemma_not_in_tail(" AVG "@, "MAX"@, 0);
    lemma_not_in_tail(" AVG "@, "MIN"@, 0);
    lemma_not_in_tail(" AVG "@, "GROUP_CONCAT"@, 0);
    lemma_not_in_tail(" AVG "@, "OVER"@, 0);
    lemma_not_in_tail(" AVG "@, "ORDER BY"@, 0);
    lemma_not_in_tail(" AVG "@, "GROUP BY"@, 0);
    lemma_not_in_tail(" AVG "@, "HAVING"@, 0);
    lemma_not_in_tail(" AVG "@, "WITH"@, 0);
}

/// What a trailing ` MAX ` word adds to the score (see `lemma_complexity_weights`).
#[verifier::rlimit(40)]
proof fn lemma_weight_max(u: Seq<char>)
    ensures
        complexity_score(u + " MAX "@) == complexity_score(u) + 1,
{
    reveal_strlit(" ");
    reveal_strlit(" MAX ");
    reveal_strlit("SELECT");
    reveal_strlit("FROM");
    reveal_strlit("JOIN");
    reveal_strlit("(SELECT");
    reveal_strlit("COUNT");
    reveal_strlit("SUM");
    reveal_strlit("AVG");
    reveal_strlit("MAX");
    reveal_strlit("MIN");
    reveal_strlit("GROUP_CONCAT");
    reveal_strlit("OVER");
    reveal_strlit("ORDER BY");
    reveal_strlit("GROUP BY");
    reveal_strlit("HAVING");
    reveal_strlit("WITH");
    assert(" MAX "@ =~= " "@ + "MAX"@ + " "@);
    reveal_with_fuel(no_start_from, 15);
    lemma_scored_indices();
    lemma_scored_tail(u, "MAX"@);
    lemma_not_in_tail(" MAX "@, "SELECT"@, 0);
    lemma_not_in_tail(" MAX "@, "FROM"@, 0);
    lemma_not_in_tail(" MAX "@, "JOIN"@, 0);
    lemma_not_in_tail(" MAX "@, "(SELECT"@, 0);
    lemma_not_in_tail(" MAX "@, "COUNT"@, 0);
    lemma_not_in_tail(" MAX "@, "SUM"@, 0);
    lemma_not_in_tail(" MAX "@, "AVG"@, 0);
    lemma_not_in_tail(" MAX "@, "MIN"@, 0);
    lemma_not_in_tail(" MAX "@, "GROUP_CONCAT"@, 0);
    lemma_not_in_tail(" MAX "@, "OVER"@, 0);
    lemma_not_in_tail(" MAX "@, "ORDER BY"@, 0);
    lemma_not_in_tail(" MAX "@, "GROUP BY"@, 0);
    lemma_not_in_tail(" MAX "@, "HAVING"@, 0);
    lemma_not_in_tail(" MAX "@, "WITH"@, 0);
}

/// What a trailing ` MIN ` word adds to the score (see `lemma_complexity_weights`).
#[verifier::rlimit(40)]
proof fn lemma_weight_min(u: Seq<char>)
    ensures
        complexity_score(u + " MIN "@) == complexity_score(u) + 1,
{
    reveal_strlit(" ");
    reveal_strlit(" MIN ");
    reveal_strlit("SELECT");
    reveal_strlit("FROM");
    reveal_strlit("JOIN");
    reveal_strlit("(SELECT");
    reveal_strlit("COUNT");
    reveal_strlit("SUM");
    reveal_strlit("AVG");
    reveal_strlit("MAX");
    reveal_strlit("MIN");
    reveal_strlit("GROUP_CONCAT");
    reveal_strlit("OVER");
    reveal_strlit("ORDER BY");
    reveal_strlit("GROUP BY");
    reveal_strlit("HAVING");
    reveal_strlit("WITH");
    assert(" MIN "@ =~= " "@ + "MIN"@ + " "@);
    reveal_with_fuel(no_start_from, 15);
    lemma_scored_indices();
    lemma_scored_tail(u, "MIN"@);
    lemma_not_in_tail(" MIN "@, "SELECT"@, 0);
    lemma_not_in_tail(" MIN "@, "FROM"@, 0);
    lemma_not_in_tail(" MIN "@, "JOIN"@, 0);
    lemma_not_in_tail(" MIN "@, "(SELECT"@, 0);
    lemma_not_in_tail(" MIN "@, "COUNT"@, 0);
    lemma_not_in_tail(" MIN "@, "SUM"@, 0);
    lemma_not_in_tail(" MIN "@, "AVG"@, 0);
    lemma_not_in_tail(" MIN "@, "MAX"@, 0);
    lemma_not_in_tail(" MIN "@, "GROUP_CONCAT"@, 0);
    lemma_not_in_tail(" MIN "@, "OVER"@, 0);
    lemma_not_in_tail(" MIN "@, "ORDER BY"@, 0);
    lemma_not_in_tail(" MIN "@, "GROUP BY"@, 0);
    lemma_not_in_tail(" MIN "@, "HAVING"@, 0);
    lemma_not_in_tail(" MIN "@, "WITH"@, 0);
}

/// What a trailing ` GROUP_CONCAT ` word adds to the score (see `lemma_complexity_weights`).
#[verifier::rlimit(40)]
proof fn lemma_weight_group_concat(u: Seq<char>)
    ensures
        complexity_score(u + " GROUP_CONCAT "@) == complexity_score(u) + 1,
{
    reveal_strlit(" ");
    reveal_strlit(" GROUP_CONCAT ");
    reveal_strlit("SELECT");
    reveal_strlit("FROM");
    reveal_strlit("JOIN");
    reveal_strlit("(SELECT");
    reveal_strlit("COUNT");
    reveal_strlit("SUM");
    reveal_strlit("AVG");
    reveal_strlit("MAX");
    reveal_strlit("MIN");
    reveal_strlit("GROUP_CONCAT");
    reveal_strlit("OVER");
    reveal_strlit("ORDER BY");
    reveal_strlit("GROUP BY");
    reveal_strlit("HAVING");
    reveal_strlit("WITH");
    assert(" GROUP_CONCAT "@ =~= " "@ + "GROUP_CONCAT"@ + " "@);
    reveal_with_fuel(no_start_from, 15);
    lemma_scored_indices();
    lemma_scored_tail(u, "GROUP_CONCAT"@);
    lemma_not_in_tail(" GROUP_CONCAT "@, "SELECT"@, 0);
    lemma_not_in_tail(" GROUP_CONCAT "@, "FROM"@, 0);
    lemma_not_in_tail(" GROUP_CONCAT "@, "JOIN"@, 0);
    lemma_not_in_tail(" GROUP_CONCAT "@, "(SELECT"@, 0);
    lemma_not_in_tail(" GROUP_CONCAT "@, "COUNT"@, 0);
    lemma_not_in_tail(" GROUP_CONCAT "@, "SUM"@, 0);
    lemma_not_in_tail(" GROUP_CONCAT "@, "AVG"@, 0);
    lemma_not_in_tail(" GROUP_CONCAT "@, "MAX"@, 0);
    lemma_not_in_tail(" GROUP_CONCAT "@, "MIN"@, 0);
    lemma_not_in_tail(" GROUP_CONCAT "@, "OVER"@, 0);
    lemma_not_in_tail(" GROUP_CONCAT "@, "ORDER BY"@, 0);
    lemma_not_in_tail(" GROUP_CONCAT "@, "GROUP BY"@, 0);
    lemma_not_in_tail(" GROUP_CONCAT "@, "HAVING"@, 0);
    lemma_not_in_tail(" GROUP_CONCAT "@, "WITH"@, 0);
}

/// What a trailing ` OVER ` word adds to the score (see `lemma_complexity_weights`).
#[verifier::rlimit(40)]
proof fn lemma_weight_over(u: Seq<char>)
    ensures
        complexity_score(u + " OVER "@) == complexity_score(u) + 3 * ind(!contains_seq(u, "OVER"@)),
{
    reveal_strlit(" ");
    reveal_strlit(" OVER ");
    reveal_strlit("SELECT");
    reveal_strlit("FROM");
    reveal_strlit("JOIN");
    reveal_strlit("(SELECT");
    reveal_strlit("COUNT");
    reveal_strlit("SUM");
    reveal_strlit("AVG");
    reveal_strlit("MAX");
    reveal_strlit("MIN");
    reveal_strlit("GROUP_CONCAT");
    reveal_strlit("OVER");
    reveal_strlit("ORDER BY");
    reveal_strlit("GROUP BY");
    reveal_strlit("HAVING");
    reveal_strlit("WITH");
    assert(" OVER "@ =~= " "@ + "OVER"@ + " "@);
    reveal_with_fuel(no_start_from, 15);
    lemma_scored_indices();
    lemma_scored_tail(u, "OVER"@);
    lemma_not_in_tail(" OVER "@, "SELECT"@, 0);
    lemma_not_in_tail(" OVER "@, "FROM"@, 0);
    lemma_not_in_tail(" OVER "@, "JOIN"@, 0);
    lemma_not_in_tail(" OVER "@, "(SELECT"@, 0);
    lemma_not_in_tail(" OVER "@, "COUNT"@, 0);
    lemma_not_in_tail(" OVER "@, "SUM"@, 0);
    lemma_not_in_tail(" OVER "@, "AVG"@, 0);
    lemma_not_in_tail(" OVER "@, "MAX"@, 0);
    lemma_not_in_tail(" OVER "@, "MIN"@, 0);
    lemma_not_in_tail(" OVER "@, "GROUP_CONCAT"@, 0);
    lemma_not_in_tail(" OVER "@, "ORDER BY"@, 0);
    lemma_not_in_tail(" OVER "@, "GROUP BY"@, 0);
    lemma_not_in_tail(" OVER "@, "HAVING"@, 0);
    lemma_not_in_tail(" OVER "@, "WITH"@, 0);
}

/// What a trailing ` ORDER BY ` word adds to the score (see `lemma_complexity_weights`).
#[verifier::rlimit(40)]
proof fn lemma_weight_order_by(u: Seq<char>)
    ensures
        complexity_score(u + " ORDER BY "@) == complexity_score(u) + ind(!contains_seq(u, "ORDER BY"@)),
{
    reveal_strlit(" ");
    reveal_strlit(" ORDER BY ");
    reveal_strlit("SELECT");
    reveal_strlit("FROM");
    reveal_strlit("JOIN");
    reveal_strlit("(SELECT");
    reveal_strlit("COUNT");
    reveal_strlit("SUM");
    reveal_strlit("AVG");
    reveal_strlit("MAX");
    reveal_strlit("MIN");
    reveal_strlit("GROUP_CONCAT");
    reveal_strlit("OVER");
    reveal_strlit("ORDER BY");
    reveal_strlit("GROUP BY");
    reveal_strlit("HAVING");
    reveal_strlit("WITH");
    assert(" ORDER BY "@ =~= " "@ + "ORDER BY"@ + " "@);
    reveal_with_fuel(no_start_from, 15);
    lemma_scored_indices();
    lemma_scored_tail(u, "ORDER BY"@);
    lemma_not_in_tail(" ORDER BY "@, "SELECT"@, 0);
    lemma_not_in_tail(" ORDER BY "@, "FROM"@, 0);
    lemma_not_in_tail(" ORDER BY "@, "JOIN"@, 0);
    lemma_not_in_tail(" ORDER BY "@, "(SELECT"@, 0);
    lemma_not_in_tail(" ORDER BY "@, "COUNT"@, 0);
    lemma_not_in_tail(" ORDER BY "@, "SUM"@, 0);
    lemma_not_in_tail(" ORDER BY "@, "AVG"@, 0);
    lemma_not_in_tail(" ORDER BY "@, "MAX"@, 0);
    lemma_not_in_tail(" ORDER BY "@, "MIN"@, 0);
    lemma_not_in_tail(" ORDER BY "@, "GROUP_CONCAT"@, 0);
    lemma_not_in_tail(" ORDER BY "@, "OVER"@, 0);
    lemma_not_in_tail(" ORDER BY "@, "GROUP BY"@, 0);
    lemma_not_in_tail(" ORDER BY "@, "HAVING"@, 0);
    lemma_not_in_tail(" ORDER BY "@, "WITH"@, 0);
}

/// What a trailing ` GROUP BY ` word adds to the score (see `lemma_complexity_weights`).
#[verifier::rlimit(40)]
proof fn lemma_weight_group_by(u: Seq<char>)
    ensures
        complexity_score(u + " GROUP BY "@) == complexity_score(u) + 2 * ind(!contains_seq(u, "GROUP BY"@)),
{
    reveal_strlit(" ");
    reveal_strlit(" GROUP BY ");
    reveal_strlit("SELECT");
    reveal_strlit("FROM");
    reveal_strlit("JOIN");
    reveal_strlit("(SELECT");
    reveal_strlit("COUNT");
    reveal_strlit("SUM");
    reveal_strlit("AVG");
    reveal_strlit("MAX");
    reveal_strlit("MIN");
    reveal_strlit("GROUP_CONCAT");
    reveal_strlit("OVER");
    reveal_strlit("ORDER BY");
    reveal_strlit("GROUP BY");
    reveal_strlit("HAVING");
    reveal_strlit("WITH");
    assert(" GROUP BY "@ =~= " "@ + "GROUP BY"@ + " "@);
    reveal_with_fuel(no_start_from, 15);
    lemma_scored_indices();
    lemma_scored_tail(u, "GROUP BY"@);
    lemma_not_in_tail(" GROUP BY "@, "SELECT"@, 0);
    lemma_not_in_tail(" GROUP BY "@, "FROM"@, 0);
    lemma_not_in_tail(" GROUP BY "@, "JOIN"@, 0);
    lemma_not_in_tail(" GROUP BY "@, "(SELECT"@, 0);
    lemma_not_in_tail(" GROUP BY "@, "COUNT"@, 0);
    lemma_not_in_tail(" GROUP BY "@, "SUM"@, 0);
    lemma_not_in_tail(" GROUP BY "@, "AVG"@, 0);
    lemma_not_in_tail(" GROUP BY "@, "MAX"@, 0);
    lemma_not_in_tail(" GROUP BY "@, "MIN"@, 0);
    lemma_not_in_tail(" GROUP BY "@, "GROUP_CONCAT"@, 0);
    lemma_not_in_tail(" GROUP BY "@, "OVER"@, 0);
    lemma_not_in_tail(" GROUP BY "@, "ORDER BY"@, 0);
    lemma_not_in_tail(" GROUP BY "@, "HAVING"@, 0);
    lemma_not_in_tail(" GROUP BY "@, "WITH"@, 0);
}

/// What a trailing ` HAVING ` word adds to the score (see `lemma_complexity_weights`).
#[verifier::rlimit(40)]
proof fn lemma_weight_having(u: Seq<char>)
    ensures
        complexity_score(u + " HAVING "@) == complexity_score(u) + 2 * ind(!contains_seq(u, "HAVING"@)),
{
    reveal_strlit(" ");
    reveal_strlit(" HAVING ");
    reveal_strlit("SELECT");
    reveal_strlit("FROM");
    reveal_strlit("JOIN");
    reveal_strlit("(SELECT");
    reveal_strlit("COUNT");
    reveal_strlit("SUM");
    reveal_strlit("AVG");
    reveal_strlit("MAX");
    reveal_strlit("MIN");
    reveal_strlit("GROUP_CONCAT");
    reveal_strlit("OVER");
    reveal_strlit("ORDER BY");
    reveal_strlit("GROUP BY");
    reveal_strlit("HAVING");
    reveal_strlit("WITH");
    assert(" HAVING "@ =~= " "@ + "HAVING"@ + " "@);
    reveal_with_fuel(no_start_from, 15);
    lemma_scored_indices();
    lemma_scored_tail(u, "HAVING"@);
    lemma_not_in_tail(" HAVING "@, "SELECT"@, 0);
    lemma_not_in_tail(" HAVING "@, "FROM"@, 0);
    lemma_not_in_tail(" HAVING "@, "JOIN"@, 0);
    lemma_not_in_tail(" HAVING "@, "(SELECT"@, 0);
    lemma_not_in_tail(" HAVING "@, "COUNT"@, 0);
    lemma_not_in_tail(" HAVING "@, "SUM"@, 0);
    lemma_not_in_tail(" HAVING "@, "AVG"@, 0);
    lemma_not_in_tail(" HAVING "@, "MAX"@, 0);
    lemma_not_in_tail(" HAVING "@, "MIN"@, 0);
    lemma_not_in_tail(" HAVING "@, "GROUP_CONCAT"@, 0);
    lemma_not_in_tail(" HAVING "@, "OVER"@, 0);
    lemma_not_in_tail(" HAVING "@, "ORDER BY"@, 0);
    lemma_not_in_tail(" HAVING "@, "GROUP BY"@, 0);
    lemma_not_in_tail(" HAVING "@, "WITH"@, 0);
}

/// What a trailing ` WITH ` word adds to the score (see `lemma_complexity_weights`).
#[verifier::rlimit(40)]
proof fn lemma_weight_with(u: Seq<char>)
    ensures
        complexity_score(u + " WITH "@) == complexity_score(u) + 2 * ind(!contains_seq(u, "WITH"@)),
{
    reveal_strlit(" ");
    reveal_strlit(" WITH ");
    reveal_strlit("SELECT");
    reveal_strlit("FROM");
    reveal_strlit("JOIN");
    reveal_strlit("(SELECT");
    reveal_strlit("COUNT");
    reveal_strlit("SUM");
    reveal_strlit("AVG");
    reveal_strlit("MAX");
    reveal_strlit("MIN");
    reveal_strlit("GROUP_CONCAT");
    reveal_strlit("OVER");
    reveal_strlit("ORDER BY");
    reveal_strlit("GROUP BY");
    reveal_strlit("HAVING");
    reveal_strlit("WITH");
    assert(" WITH "@ =~= " "@ + "WITH"@ + " "@);
    reveal_with_fuel(no_start_from, 15);
    lemma_scored_indices();
    lemma_scored_tail(u, "WITH"@);
    lemma_not_in_tail(" WITH "@, "SELECT"@, 0);
    lemma_not_in_tail(" WITH "@, "FROM"@, 0);
    lemma_not_in_tail(" WITH "@, "JOIN"@, 0);
    lemma_not_in_tail(" WITH "@, "(SELECT"@, 0);
    lemma_not_in_tail(" WITH "@, "COUNT"@, 0);
    lemma_not_in_tail(" WITH "@, "SUM"@, 0);
    lemma_not_in_tail(" WITH "@, "AVG"@, 0);
    lemma_not_in_tail(" WITH "@, "MAX"@, 0);
    lemma_not_in_tail(" WITH "@, "MIN"@, 0);
    lemma_not_in_tail(" WITH "@, "GROUP_CONCAT"@, 0);
    lemma_not_in_tail(" WITH "@, "OVER"@, 0);
    lemma_not_in_tail(" WITH "@, "ORDER BY"@, 0);
    lemma_not_in_tail(" WITH "@, "GROUP BY"@, 0);
    lemma_not_in_tail(" WITH "@, "HAVING"@, 0);
}

/// What each scored keyword adds to the complexity score of an upper-cased query `u`
/// when it is appended as a word: every `JOIN` adds 2, every `(SELECT` adds 3 (and 1
/// more for `SELECT` when `u` had none), every `COUNT`, `SUM`, `AVG`, `MAX`, `MIN` and
/// `GROUP_CONCAT` adds 1; `SELECT` and `FROM` add 1, `OVER` 3, `ORDER BY` 1, and
/// `GROUP BY`, `HAVING` and `WITH` 2 each, the first time they appear and nothing after.
pub proof fn lemma_complexity_weights(u: Seq<char>)
    ensures
        complexity_score(u + " SELECT "@) == complexity_score(u) + ind(!contains_seq(u, "SELECT"@)),
        complexity_score(u + " FROM "@) == complexity_score(u) + ind(!contains_seq(u, "FROM"@)),
        complexity_score(u + " JOIN "@) == complexity_score(u) + 2,
        complexity_score(u + " (SELECT "@) == complexity_score(u) + 3 + ind(!contains_seq(u, "SELECT"@)),
        complexity_score(u + " COUNT "@) == complexity_score(u) + 1,
        complexity_score(u + " SUM "@) == complexity_score(u) + 1,
        complexity_score(u + " AVG "@) == complexity_score(u) + 1,
        complexity_score(u + " MAX "@) == complexity_score(u) + 1,
        complexity_score(u + " MIN "@) == complexity_score(u) + 1,
        complexity_score(u + " GROUP_CONCAT "@) == complexity_score(u) + 1,
        complexity_score(u + " OVER "@) == complexity_score(u) + 3 * ind(!contains_seq(u, "OVER"@)),
        complexity_score(u + " ORDER BY "@) == complexity_score(u) + ind(!contains_seq(u, "ORDER BY"@)),
        complexity_score(u + " GROUP BY "@) == complexity_score(u) + 2 * ind(!contains_seq(u, "GROUP BY"@)),
        complexity_score(u + " HAVING "@) == complexity_score(u) + 2 * ind(!contains_seq(u, "HAVING"@)),
        complexity_score(u + " WITH "@) == complexity_score(u) + 2 * ind(!contains_seq(u, "WITH"@)),
{
    lemma_weight_select(u);
    lemma_weight_from(u);
    lemma_weight_join(u);
    lemma_weight_sub_select(u);
    lemma_weight_count(u);
    lemma_weight_sum(u);
    lemma_weight_avg(u);
    lemma_weight_max(u);
    lemma_weight_min(u);
    lemma_weight_group_concat(u);
    lemma_weight_over(u);
    lemma_weight_order_by(u);
    lemma_weight_group_by(u);
    lemma_weight_having(u);
    lemma_weight_with(u);
}

/// A query whose upper-cased text is that of another with ` JOIN ` appended scores
/// 2 more than it, capped at 10.
pub proof fn lemma_join_raises_complexity(sql: Seq<char>, joined: Seq<char>)
    requires
        upper(joined) == upper(sql) + " JOIN "@,
    ensures
        query_complexity(joined) == if complexity_score(upper(sql)) + 2 < 10 {
            complexity_score(upper(sql)) + 2
        } else {
            10
        },
{
    lemma_complexity_weights(upper(sql));
}

fn count_pattern(u: &Vec<char>, p: &str) -> (n: u128)
    requires
        p@.len() > 0,
    ensures
        n == count_matches(u@, p@),
        n <= u.len(),
{
    let pv = chars_of(p);
    let n = count_occurrences(u, &pv);
    proof {
        lemma_count_le(u@, pv@, 0);
    }
    n as u128
}

proof fn lemma_count_le(s: Seq<char>, p: Seq<char>, i: int)
    requires
        0 <= i,
    ensures
        crate::text::count_from(s, p, i) <= s.len(),
        i <= s.len() ==> crate::text::count_from(s, p, i) <= s.len() - i,
    decreases s.len() - i,
{
    if p.len() > 0 && i + p.len() <= s.len() {
        if crate::text::occurs_at(s, p, i) {
            lemma_count_le(s, p, i + p.len());
        } else {
            lemma_count_le(s, p, i + 1);
        }
    }
}

fn has_pattern(u: &Vec<char>, p: &str) -> (b: u128)
    ensures
        b == ind(contains_seq(u@, p@)),
{
    let pv = chars_of(p);
    if contains(u, &pv) { 1 } else { 0 }
}

/// Scores the complexity of a query from 1 to 10 by counting keywords, joins,
/// sub-queries, aggregate functions and clauses in its upper-cased text.
pub fn calculate_query_complexity(sql: &str) -> (r: u8)
    ensures
        r == query_complexity(sql@),
        1 <= r <= 10,
{
    let up = to_uppercase(sql);
    let u = chars_of(up.as_str());
    proof {
        reveal_strlit("JOIN");
        reveal_strlit("(SELECT");
        reveal_strlit("COUNT");
        reveal_strlit("SUM");
        reveal_strlit("AVG");
        reveal_strlit("MAX");
        reveal_strlit("MIN");
        reveal_strlit("GROUP_CONCAT");
    }
    let c: u128 = 1 + has_pattern(&u, "SELECT") + has_pattern(&u, "FROM")
        + 2 * count_pattern(&u, "JOIN") + 3 * count_pattern(&u, "(SELECT")
        + count_pattern(&u, "COUNT") + count_pattern(&u, "SUM") + count_pattern(&u, "AVG")
        + count_pattern(&u, "MAX") + count_pattern(&u, "MIN") + count_pattern(&u, "GROUP_CONCAT")
        + 3 * has_pattern(&u, "OVER") + has_pattern(&u, "ORDER BY")
        + 2 * has_pattern(&u, "GROUP BY") + 2 * has_pattern(&u, "HAVING")
        + 2 * has_pattern(&u, "WITH");
    if c < 10 { c as u8 } else { 10 }
}

/// `w` is one of the keywords after which a table name is read.
pub open spec fn is_table_keyword(w: Seq<char>) -> bool {
    w == "FROM"@ || w == "JOIN"@ || w == "UPDATE"@ || w == "INTO"@
}

/// The table name read at word `i` of the upper-cased words, if any: the next word
/// with trailing `,` and then trailing `;` removed, lower-cased, unless it is empty
/// or starts with `(`.
pub open spec fn table_at(words: Seq<Seq<char>>, i: int) -> Option<Seq<char>> {
    if 0 <= i && i + 1 < words.len() && is_table_keyword(words[i]) {
        let t = trim_end_char(trim_end_char(words[i + 1], ','), ';');
        if t.len() > 0 && t[0] != '(' { Some(lower(t)) } else { None }
    } else {
        None
    }
}

/// The set of table names a query mentions.
pub open spec fn table_names(sql: Seq<char>) -> Set<Seq<char>> {
    Set::new(|t: Seq<char>| exists|i: int| table_at(split_ws(upper(sql)), i) == Some(t))
}

/// Every word that follows `FROM`, `JOIN`, `UPDATE` or `INTO` in the upper-cased query
/// names a table: with trailing `,` and then trailing `;` removed, when what is left is
/// not empty and does not start with `(`, its lower-cased text is among the query's
/// table names; and every table name comes from such a word.
pub proof fn lemma_table_after_keyword(sql: Seq<char>, i: int, t: Seq<char>)
    ensures
        ({
            let words = split_ws(upper(sql));
            &&& 0 <= i && i + 1 < words.len()
            &&& (words[i] == "FROM"@ || words[i] == "JOIN"@ || words[i] == "UPDATE"@ || words[i] == "INTO"@)
            &&& t == trim_end_char(trim_end_char(words[i + 1], ','), ';')
            &&& t.len() > 0 && t[0] != '('
        }) ==> table_names(sql).contains(lower(t)),
        ({
            let words = split_ws(upper(sql));
            table_names(sql).contains(t) ==> exists|j: int| #![trigger words[j]] {
                let w = trim_end_char(trim_end_char(words[j + 1], ','), ';');
                &&& 0 <= j && j + 1 < words.len()
                &&& (words[j] == "FROM"@ || words[j] == "JOIN"@ || words[j] == "UPDATE"@ || words[j] == "INTO"@)
                &&& w.len() > 0 && w[0] != '('
                &&& t == lower(w)
            }
        }),
{
    let words = split_ws(upper(sql));
    if 0 <= i && i + 1 < words.len() && is_table_keyword(words[i]) {
        assert(table_at(words, i) == table_at(split_ws(upper(sql)), i));
    }
    if table_names(sql).contains(t) {
        let j = choose|j: int| table_at(split_ws(upper(sql)), j) == Some(t);
        assert(table_at(words, j) == Some(t));
    }
}

fn word_is(w: &Vec<char>, kw: &str) -> (b: bool)
    ensures
        b == (w@ == kw@),
{
    let k = chars_of(kw);
    chars_eq(w, &k)
}

/// The names of the tables a query reads or writes (the words after `FROM`, `JOIN`,
/// `UPDATE` and `INTO`), lower-cased, sorted and without duplicates.
pub fn extract_table_names(sql: &str) -> (tables: Vec<String>)
    ensures
        strictly_sorted(tables.deep_view()),
        tables.deep_view().to_set() == table_names(sql@),
{
    let up = to_uppercase(sql);
    let u = chars_of(up.as_str());
    let words = split_whitespace(&u);
    let ghost gw = words.deep_view();
    let mut acc: Vec<Vec<char>> = Vec::new();
    assert(acc.deep_view().to_set() =~= Set::<Seq<char>>::empty());
    let mut i: usize = 0;
    while i < words.len()
        invariant
            gw == words.deep_view(),
            gw == split_ws(upper(sql@)),
            i <= words.len(),
            strictly_sorted(acc.deep_view()),
            acc.deep_view().to_set() == Set::new(|t: Seq<char>| exists|j: int| 0 <= j < i && table_at(gw, j) == Some(t)),
        decreases words.len() - i,
    {
        let ghost before = acc.deep_view().to_set();
        proof {
            lemma_char_vec_deep_view(words@[i as int]);
            if i + 1 < words.len() {
                lemma_char_vec_deep_view(words@[i + 1]);
            }
        }
        let mut added: Option<Vec<char>> = None;
        if (word_is(&words[i], "FROM") || word_is(&words[i], "JOIN") || word_is(&words[i], "UPDATE")
            || word_is(&words[i], "INTO")) && i + 1 < words.len() {
            let t1 = trim_end_matches_char(&words[i + 1], ',');
            let t = trim_end_matches_char(&t1, ';');
            if t.len() > 0 && t[0] != '(' {
                let ts = string_of(&t);
                let low = to_lowercase(ts.as_str());
                let lv = chars_of(low.as_str());
                added = Some(lv);
            }
        }
        assert(added matches Some(x) ==> table_at(gw, i as int) == Some(x@));
        assert(added is None ==> table_at(gw, i as int) is None);
        match added {
            Some(x) => {
                let ghost xv = x@;
                insert_sorted_unique(&mut acc, x);
                assert(acc.deep_view().to_set() =~= Set::new(|t: Seq<char>| exists|j: int| 0 <= j < i + 1 && table_at(gw, j) == Some(t))) by {
                    assert forall|t: Seq<char>| (exists|j: int| 0 <= j < i + 1 && table_at(gw, j) == Some(t)) <==> (before.contains(t) || t == xv) by {
                        if exists|j: int| 0 <= j < i + 1 && table_at(gw, j) == Some(t) {
                            let j = choose|j: int| 0 <= j < i + 1 && table_at(gw, j) == Some(t);
                            if j < i {
                                assert(before.contains(t));
                            }
                        }
                        if t == xv {
                            assert(table_at(gw, i as int) == Some(t));
                        }
                    }
                }
            },
            None => {
                assert(acc.deep_view().to_set() =~= Set::new(|t: Seq<char>| exists|j: int| 0 <= j < i + 1 && table_at(gw, j) == Some(t))) by {
                    assert forall|t: Seq<char>| (exists|j: int| 0 <= j < i + 1 && table_at(gw, j) == Some(t)) <==> before.contains(t) by {
                        if exists|j: int| 0 <= j < i + 1 && table_at(gw, j) == Some(t) {
                            let j = choose|j: int| 0 <= j < i + 1 && table_at(gw, j) == Some(t);
                            if j < i {
                                assert(before.contains(t));
                            }
                        }
                    }
                }
            },
        }
        i = i + 1;
    }
    assert(acc.deep_view().to_set() =~= table_names(sql@)) by {
        assert forall|t: Seq<char>| table_names(sql@).contains(t) implies acc.deep_view().to_set().contains(t) by {
            let j = choose|j: int| table_at(gw, j) == Some(t);
            assert(0 <= j < gw.len());
        }
    }
    let mut out: Vec<String> = Vec::new();
    let mut k: usize = 0;
    while k < acc.len()
        invariant
            k <= acc.len(),
            out.len() == k,
            out.deep_view() == acc.deep_view().subrange(0, k as int),
        decreases acc.len() - k,
    {
        let s = string_of(&acc[k]);
        proof {
            lemma_char_vec_deep_view(acc@[k as int]);
        }
        let ghost ov = out.deep_view();
        let ghost sv = s@;
        let ghost sg = s;
        assert(sv == acc.deep_view()[k as int]);
        out.push(s);
        assert(out@.len() == k + 1);
        assert(out@[k as int] == sg);
        assert(out.deep_view()[k as int] == sg.deep_view());
        assert(out.deep_view()[k as int] == sv);
        assert(out.deep_view() =~= acc.deep_view().subrange(0, k + 1));
        k = k + 1;
    }
    assert(acc.deep_view().subrange(0, acc.len() as int) =~= acc.deep_view());
    out
}

} // verus!
