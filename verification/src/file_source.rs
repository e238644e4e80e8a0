//! How the file-system connector reads a directory: which reader a file goes to,
//! where a pattern points, and which lines of a JSON Lines file hold a value.
use vstd::prelude::*;
use crate::text::{str_eq, chars_of, string_of, to_lowercase, lower, string_views};
use crate::format::append_chars;
use crate::processors::{trim, trim_spec};

verus! {

/// How a file is read, by its extension.
#[derive(Debug)]
pub enum FileKind {
    /// `csv`: a header line, then one record per row.
    Csv,
    /// `json`: one document.
    Json,
    /// `jsonl` or `ndjson`: one value per line.
    JsonLines,
    /// Anything else: the whole text as one record.
    Text,
}

/// The reader for a file whose extension, lower-cased, is `ext`.
pub open spec fn kind_of(ext: Seq<char>) -> FileKind {
    if ext == "csv"@ {
        FileKind::Csv
    } else if ext == "json"@ {
        FileKind::Json
    } else if ext == "jsonl"@ || ext == "ndjson"@ {
        FileKind::JsonLines
    } else {
        FileKind::Text
    }
}

/// The reader for a file with `extension` (case does not matter).
pub fn file_kind(extension: &str) -> (k: FileKind)
    ensures
        k == kind_of(lower(extension@)),
{
    let e = to_lowercase(extension);
    let es = e.as_str();
    if str_eq(es, "csv") {
        FileKind::Csv
    } else if str_eq(es, "json") {
        FileKind::Json
    } else if str_eq(es, "jsonl") || str_eq(es, "ndjson") {
        FileKind::JsonLines
    } else {
        FileKind::Text
    }
}

/// Where `pattern` points: itself when absolute, else under `base`.
pub open spec fn pattern_path(base: Seq<char>, pattern: Seq<char>) -> Seq<char> {
    if pattern.len() > 0 && pattern[0] == '/' {
        pattern
    } else {
        base + seq!['/'] + pattern
    }
}

/// The full path a file pattern stands for, under the connector's base directory
/// unless it starts with `/`.
pub fn full_pattern(base_path: &str, pattern: &str) -> (p: String)
    ensures
        p@ == pattern_path(base_path@, pattern@),
{
    let pc = chars_of(pattern);
    if pc.len() > 0 && pc[0] == '/' {
        return string_of(&pc);
    }
    let mut out = chars_of(base_path);
    out.push('/');
    append_chars(&mut out, &pc);
    string_of(&out)
}

/// A line without the `\r` that ended it.
pub open spec fn strip_cr(t: Seq<char>) -> Seq<char> {
    if t.len() > 0 && t.last() == '\r' {
        t.drop_last()
    } else {
        t
    }
}

/// The lines of `s` after `lines` and the line begun with `cur`.
pub open spec fn lines_acc(s: Seq<char>, lines: Seq<Seq<char>>, cur: Seq<char>) -> Seq<Seq<char>>
    decreases s.len(),
{
    if s.len() == 0 {
        if cur.len() > 0 {
            lines.push(cur)
        } else {
            lines
        }
    } else if s[0] == '\n' {
        lines_acc(s.drop_first(), lines.push(strip_cr(cur)), Seq::empty())
    } else {
        lines_acc(s.drop_first(), lines, cur.push(s[0]))
    }
}

/// The lines of `s` as `str::lines` gives them: split after each `\n`, without
/// the `\n` or a `\r` before it; a last line ending is optional.
pub open spec fn lines_of(s: Seq<char>) -> Seq<Seq<char>> {
    lines_acc(s, Seq::empty(), Seq::empty())
}

/// The lines of `content`.
pub fn text_lines(content: &str) -> (ls: Vec<String>)
    ensures
        string_views(ls@) == lines_of(content@),
{
    let s = chars_of(content);
    let mut lines: Vec<String> = Vec::new();
    let mut cur: Vec<char> = Vec::new();
    let mut i: usize = 0;
    assert(string_views(lines@) =~= Seq::<Seq<char>>::empty());
    assert(s@.subrange(0, s.len() as int) =~= s@);
    while i < s.len()
        invariant
            i <= s@.len(),
            s@ == content@,
            lines_acc(s@.subrange(i as int, s.len() as int), string_views(lines@), cur@) == lines_of(content@),
        decreases s.len() - i,
    {
        let ghost rest = s@.subrange(i as int, s.len() as int);
        assert(rest.drop_first() =~= s@.subrange(i + 1, s.len() as int));
        let c = s[i];
        if c == '\n' {
            let n = cur.len();
            if n > 0 && cur[n - 1] == '\r' {
                cur.pop();
            }
            let ghost lv = string_views(lines@);
            lines.push(string_of(&cur));
            assert(string_views(lines@) =~= lv.push(cur@));
            cur = Vec::new();
            assert(cur@ =~= Seq::<char>::empty());
        } else {
            cur.push(c);
        }
        i = i + 1;
    }
    assert(s@.subrange(i as int, s.len() as int) =~= Seq::<char>::empty());
    if cur.len() > 0 {
        let ghost lv = string_views(lines@);
        lines.push(string_of(&cur));
        assert(string_views(lines@) =~= lv.push(cur@));
    }
    lines
}

/// The non-blank lines among the first `n` of `lines`, each with its number
/// counted from 1.
pub open spec fn entries_upto(lines: Seq<Seq<char>>, n: int) -> Seq<(int, Seq<char>)>
    decreases n,
{
    if n <= 0 {
        Seq::empty()
    } else if trim_spec(lines[n - 1]).len() == 0 {
        entries_upto(lines, n - 1)
    } else {
        entries_upto(lines, n - 1).push((n, lines[n - 1]))
    }
}

/// The lines of a JSON Lines text that hold a value: each non-blank line with
/// its number, counted from 1 over all lines.
pub fn jsonl_entries(content: &str) -> (r: Vec<(usize, String)>)
    ensures
        r@.map_values(|e: (usize, String)| (e.0 as int, e.1@)) == entries_upto(
            lines_of(content@),
            lines_of(content@).len() as int,
        ),
{
    let ls = text_lines(content);
    let ghost lv = string_views(ls@);
    let mut r: Vec<(usize, String)> = Vec::new();
    let mut i: usize = 0;
    while i < ls.len()
        invariant
            lv == string_views(ls@),
            lv == lines_of(content@),
            i <= ls@.len(),
            r@.map_values(|e: (usize, String)| (e.0 as int, e.1@)) == entries_upto(lv, i as int),
        decreases ls.len() - i,
    {
        let t = trim(ls[i].as_str());
        let ghost before = r@.map_values(|e: (usize, String)| (e.0 as int, e.1@));
        if t.as_str().unicode_len() > 0 {
            r.push((i + 1, ls[i].clone()));
            assert(r@.map_values(|e: (usize, String)| (e.0 as int, e.1@)) =~= before.push(((i + 1) as int, lv[i as int])));
        }
        i = i + 1;
    }
    r
}

} // verus!
