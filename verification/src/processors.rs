//! Record processors of the ingestion pipeline: cleaning (dropping null fields,
//! trimming and re-casing text) and validation (required fields and field types).
//! A record's payload is held by what these processors read of it: the fields of
//! a JSON object with their scalar values; nested arrays and objects are carried
//! through untouched.
use vstd::prelude::*;
use serde_json::Value;
use crate::text::{char_is_whitespace, is_ws, to_uppercase, to_lowercase, upper, lower, str_eq, chars_of,
    string_of};
use crate::ingestion_config::{ProcessorConfig, ProcessorType};
use crate::format::append_chars;
use crate::ambient::{new_uuid_text, now_millis};

verus! {

/// A value in a record's payload.
#[derive(Debug)]
pub enum FieldValue {
    /// JSON `null`.
    Null,
    /// A boolean.
    Bool(bool),
    /// A signed integer.
    Int(i64),
    /// An unsigned integer above `i64::MAX`.
    UInt(u64),
    /// A floating-point number, by its IEEE 754 bits.
    Float(u64),
    /// A string.
    Str(String),
    /// An array or object, carried as it is.
    Nested(Value),
}

/// A record's payload.
#[derive(Debug)]
pub enum RecordData {
    /// A JSON object: its fields, in order.
    Object(Vec<(String, FieldValue)>),
    /// A single value.
    Scalar(FieldValue),
}

/// A record read from a source.
#[derive(Debug)]
pub struct DataRecord {
    /// Identifier.
    pub id: String,
    /// Source it came from.
    pub source: String,
    /// Payload.
    pub data: RecordData,
    /// When it was read, in milliseconds since the Unix epoch.
    pub timestamp: i64,
    /// Metadata added along the pipeline, each key once.
    pub metadata: Vec<(String, String)>,
}

/// The metadata as key and value texts.
pub open spec fn meta_view(m: Seq<(String, String)>) -> Seq<(Seq<char>, Seq<char>)> {
    m.map_values(|e: (String, String)| (e.0@, e.1@))
}

/// The value of key `k` in metadata, if present (first entry).
pub open spec fn meta_get(m: Seq<(Seq<char>, Seq<char>)>, k: Seq<char>) -> Option<Seq<char>>
    decreases m.len(),
{
    if m.len() == 0 {
        None
    } else if m[0].0 == k {
        Some(m[0].1)
    } else {
        meta_get(m.drop_first(), k)
    }
}

/// Sets metadata key `key` to `value`: an entry with that key is overwritten, or
/// the entry is added at the end.
pub fn set_meta(m: &mut Vec<(String, String)>, key: &str, value: String)
    ensures
        meta_get(meta_view(final(m)@), key@) == Some(value@),
        forall|k: Seq<char>| k != key@ ==> meta_get(meta_view(final(m)@), k) == meta_get(meta_view(old(m)@), k),
{
    let ghost mv0 = meta_view(m@);
    let mut i: usize = 0;
    while i < m.len()
        invariant
            i <= m@.len(),
            m@ == old(m)@,
            mv0 == meta_view(m@),
            forall|j: int| 0 <= j < i ==> (#[trigger] mv0[j]).0 != key@,
        decreases m.len() - i,
    {
        if str_eq(m[i].0.as_str(), key) {
            let k0 = m[i].0.clone();
            m.set(i, (k0, value));
            proof {
                lemma_meta_get_update(mv0, i as int, (key@, value@));
                assert(meta_view(m@) =~= mv0.update(i as int, (key@, value@)));
            }
            return;
        }
        i = i + 1;
    }
    m.push((key.to_string(), value));
    proof {
        lemma_meta_get_push(mv0, (key@, value@));
        assert(meta_view(m@) =~= mv0.push((key@, value@)));
    }
}

proof fn lemma_meta_get_update(m: Seq<(Seq<char>, Seq<char>)>, i: int, e: (Seq<char>, Seq<char>))
    requires
        0 <= i < m.len(),
        m[i].0 == e.0,
        forall|j: int| 0 <= j < i ==> (#[trigger] m[j]).0 != e.0,
    ensures
        meta_get(m.update(i, e), e.0) == Some(e.1),
        forall|k: Seq<char>| k != e.0 ==> meta_get(m.update(i, e), k) == meta_get(m, k),
    decreases m.len(),
{
    if i > 0 {
        assert(m.update(i, e).drop_first() =~= m.drop_first().update(i - 1, e));
        assert forall|j: int| 0 <= j < i - 1 implies (#[trigger] m.drop_first()[j]).0 != e.0 by {
            assert(m.drop_first()[j] == m[j + 1]);
        }
        lemma_meta_get_update(m.drop_first(), i - 1, e);
        assert(m.update(i, e)[0] == m[0]);
        assert forall|k: Seq<char>| k != e.0 implies meta_get(m.update(i, e), k) == meta_get(m, k) by {
            if m[0].0 != k {
                assert(meta_get(m.drop_first().update(i - 1, e), k) == meta_get(m.drop_first(), k));
            }
        }
    } else {
        assert(m.update(i, e).drop_first() =~= m.drop_first());
        assert(m.update(i, e)[0] == e);
    }
}

proof fn lemma_meta_get_push(m: Seq<(Seq<char>, Seq<char>)>, e: (Seq<char>, Seq<char>))
    requires
        forall|j: int| 0 <= j < m.len() ==> (#[trigger] m[j]).0 != e.0,
    ensures
        meta_get(m.push(e), e.0) == Some(e.1),
        forall|k: Seq<char>| k != e.0 ==> meta_get(m.push(e), k) == meta_get(m, k),
    decreases m.len(),
{
    if m.len() > 0 {
        assert(m.push(e).drop_first() =~= m.drop_first().push(e));
        assert forall|j: int| 0 <= j < m.drop_first().len() implies (#[trigger] m.drop_first()[j]).0 != e.0 by {
            assert(m.drop_first()[j] == m[j + 1]);
        }
        lemma_meta_get_push(m.drop_first(), e);
        assert(m.push(e)[0] == m[0]);
        assert forall|k: Seq<char>| k != e.0 implies meta_get(m.push(e), k) == meta_get(m, k) by {
            if m[0].0 != k {
                assert(meta_get(m.drop_first().push(e), k) == meta_get(m.drop_first(), k));
            }
        }
    } else {
        assert(m.push(e) =~= seq![e]);
        assert(seq![e].drop_first() =~= Seq::<(Seq<char>, Seq<char>)>::empty());
        assert forall|k: Seq<char>| k != e.0 implies meta_get(m.push(e), k) == meta_get(m, k) by {
            assert(meta_get(m.push(e), k) == meta_get(m.push(e).drop_first(), k));
        }
    }
}

/// `s` without its leading and trailing whitespace (what `str::trim` returns).
pub open spec fn trim_spec(s: Seq<char>) -> Seq<char>
    decreases s.len(),
{
    if s.len() == 0 {
        s
    } else if is_ws(s[0]) {
        trim_spec(s.drop_first())
    } else if is_ws(s.last()) {
        trim_spec(s.drop_last())
    } else {
        s
    }
}

proof fn lemma_trim_window(s: Seq<char>, i: int, j: int)
    requires
        0 <= i <= j <= s.len(),
        forall|k: int| 0 <= k < i ==> is_ws(#[trigger] s[k]),
        forall|k: int| j <= k < s.len() ==> is_ws(#[trigger] s[k]),
        i < j ==> !is_ws(s[i]) && !is_ws(s[j - 1]),
    ensures
        trim_spec(s) == s.subrange(i, j),
    decreases s.len(),
{
    if s.len() == 0 {
        assert(s.subrange(i, j) =~= s);
    } else if is_ws(s[0]) {
        if i == 0 {
            assert(j == 0);
            assert forall|k: int| 0 <= k < s.drop_first().len() implies is_ws(#[trigger] s.drop_first()[k]) by {
                assert(s.drop_first()[k] == s[k + 1]);
            }
            lemma_trim_window(s.drop_first(), 0, 0);
            assert(s.subrange(0, 0) =~= s.drop_first().subrange(0, 0));
        } else {
            assert forall|k: int| 0 <= k < i - 1 implies is_ws(#[trigger] s.drop_first()[k]) by {
                assert(s.drop_first()[k] == s[k + 1]);
            }
            assert forall|k: int| j - 1 <= k < s.drop_first().len() implies is_ws(#[trigger] s.drop_first()[k]) by {
                assert(s.drop_first()[k] == s[k + 1]);
            }
            lemma_trim_window(s.drop_first(), i - 1, j - 1);
            assert(s.drop_first().subrange(i - 1, j - 1) =~= s.subrange(i, j));
        }
    } else if is_ws(s.last()) {
        assert(i == 0);
        assert(j < s.len() || i == j) by {
            if j == s.len() && i < j {
                assert(s[j - 1] == s.last());
            }
        }
        if j == s.len() {
            assert(i == j);
            assert(s[0] == s[0]);
            assert(false);
        }
        assert forall|k: int| j <= k < s.drop_last().len() implies is_ws(#[trigger] s.drop_last()[k]) by {
            assert(s.drop_last()[k] == s[k]);
        }
        assert forall|k: int| 0 <= k < i implies is_ws(#[trigger] s.drop_last()[k]) by {}
        lemma_trim_window(s.drop_last(), i, j);
        assert(s.drop_last().subrange(i, j) =~= s.subrange(i, j));
    } else {
        if i > 0 {
            assert(is_ws(s[0]));
        }
        if j < s.len() {
            assert(is_ws(s[s.len() - 1]));
        }
        assert(s.subrange(0, s.len() as int) =~= s);
    }
}

/// Removes leading and trailing whitespace.
pub fn trim(s: &str) -> (r: String)
    ensures
        r@ == trim_spec(s@),
{
    let v = chars_of(s);
    let n = v.len();
    let mut i: usize = 0;
    while i < n && char_is_whitespace(v[i])
        invariant
            n == v@.len(),
            i <= n,
            forall|k: int| 0 <= k < i ==> is_ws(#[trigger] v@[k]),
        decreases n - i,
    {
        i = i + 1;
    }
    let mut j: usize = n;
    while j > i && char_is_whitespace(v[j - 1])
        invariant
            n == v@.len(),
            i <= j <= n,
            forall|k: int| j <= k < n ==> is_ws(#[trigger] v@[k]),
            i < n ==> !is_ws(v@[i as int]),
        decreases j,
    {
        j = j - 1;
    }
    let mut out: Vec<char> = Vec::new();
    let mut k: usize = i;
    while k < j
        invariant
            i <= k <= j <= n,
            n == v@.len(),
            out@ == v@.subrange(i as int, k as int),
        decreases j - k,
    {
        out.push(v[k]);
        k = k + 1;
        assert(out@ =~= v@.subrange(i as int, k as int));
    }
    proof {
        lemma_trim_window(v@, i as int, j as int);
    }
    string_of(&out)
}

/// How text is re-cased.
#[derive(Debug, Clone, Copy)]
pub enum CaseType {
    /// All upper case.
    Upper,
    /// All lower case.
    Lower,
    /// First character upper case, the rest lower case.
    Title,
}

/// What `char::to_uppercase` yields for a character, as text.
pub uninterp spec fn upper_char(c: char) -> Seq<char>;

/// What `char::to_lowercase` yields for a character, as text.
pub uninterp spec fn lower_char(c: char) -> Seq<char>;

/// Calls `char::to_uppercase` and collects the characters it yields; the result
/// is named, nothing more is claimed of the Unicode mapping.
#[verifier::external_body]
fn char_to_upper(c: char) -> (s: String)
    ensures
        s@ == upper_char(c),
{
    c.to_uppercase().collect::<String>()
}

/// Calls `char::to_lowercase` and collects the characters it yields; the result
/// is named, nothing more is claimed of the Unicode mapping.
#[verifier::external_body]
fn char_to_lower(c: char) -> (s: String)
    ensures
        s@ == lower_char(c),
{
    c.to_lowercase().collect::<String>()
}

/// The title case of `s`, from index `i` on.
pub open spec fn title_from(s: Seq<char>, i: int) -> Seq<char>
    decreases s.len() - i,
{
    if i < 0 || i >= s.len() {
        Seq::empty()
    } else {
        (if i == 0 { upper_char(s[i]) } else { lower_char(s[i]) }) + title_from(s, i + 1)
    }
}

/// The text `s` re-cased.
pub open spec fn recase(s: Seq<char>, case_type: CaseType) -> Seq<char> {
    match case_type {
        CaseType::Upper => upper(s),
        CaseType::Lower => lower(s),
        CaseType::Title => title_from(s, 0),
    }
}

/// Re-cases a string (see `recase`).
pub fn recase_str(s: &str, case_type: CaseType) -> (r: String)
    ensures
        r@ == recase(s@, case_type),
{
    match case_type {
        CaseType::Upper => to_uppercase(s),
        CaseType::Lower => to_lowercase(s),
        CaseType::Title => {
            let v = chars_of(s);
            let mut out: Vec<char> = Vec::new();
            let mut i: usize = 0;
            while i < v.len()
                invariant
                    v@ == s@,
                    i <= v@.len(),
                    out@ + title_from(v@, i as int) == title_from(v@, 0),
                decreases v.len() - i,
            {
                let ghost before = out@;
                let part = if i == 0 { char_to_upper(v[i]) } else { char_to_lower(v[i]) };
                let pc = chars_of(part.as_str());
                append_chars(&mut out, &pc);
                i = i + 1;
                assert(before + title_from(v@, i - 1) =~= out@ + title_from(v@, i as int));
            }
            assert(out@ + title_from(v@, i as int) =~= out@);
            string_of(&out)
        },
    }
}

/// Whether `b` is `a` with its string, if any, replaced by `f` of it.
pub open spec fn mapped(a: FieldValue, b: FieldValue, f: spec_fn(Seq<char>) -> Seq<char>) -> bool {
    match a {
        FieldValue::Str(s) => b matches FieldValue::Str(t) && t@ == f(s@),
        _ => b == a,
    }
}

/// Whether the fields `b` are the fields `a` with every string mapped by `f`,
/// names and order kept.
pub open spec fn fields_mapped(
    a: Seq<(String, FieldValue)>,
    b: Seq<(String, FieldValue)>,
    f: spec_fn(Seq<char>) -> Seq<char>,
) -> bool {
    a.len() == b.len() && forall|i: int| 0 <= i < a.len() ==> (#[trigger] b[i]).0@ == a[i].0@ && mapped(a[i].1, b[i].1, f)
}

/// Whether a payload `b` is payload `a` with every string mapped by `f`.
pub open spec fn data_mapped(a: RecordData, b: RecordData, f: spec_fn(Seq<char>) -> Seq<char>) -> bool {
    match a {
        RecordData::Object(fa) => b matches RecordData::Object(fb) && fields_mapped(fa@, fb@, f),
        RecordData::Scalar(va) => b matches RecordData::Scalar(vb) && mapped(va, vb, f),
    }
}

/// The trimming as a map on text.
pub open spec fn trim_fn() -> spec_fn(Seq<char>) -> Seq<char> {
    |s: Seq<char>| trim_spec(s)
}

/// The re-casing as a map on text.
pub open spec fn recase_fn(c: CaseType) -> spec_fn(Seq<char>) -> Seq<char> {
    |s: Seq<char>| recase(s, c)
}

/// Whether a field holds a value other than `null`.
pub open spec fn not_null() -> spec_fn((String, FieldValue)) -> bool {
    |e: (String, FieldValue)| !(e.1 is Null)
}

/// Whether payload `b` is payload `a` without its `null` fields.
pub open spec fn removed_nulls(a: RecordData, b: RecordData) -> bool {
    match a {
        RecordData::Object(fa) => b matches RecordData::Object(fb) && fb@ == fa@.filter(not_null()),
        RecordData::Scalar(_) => b == a,
    }
}

/// The kinds of values a field can be checked for.
#[derive(Debug, Clone, Copy)]
pub enum DataType {
    /// A string.
    String,
    /// An integer that fits `i64`.
    Integer,
    /// A floating-point number.
    Float,
    /// A boolean.
    Boolean,
    /// A string with a `T` in it, taken as a timestamp.
    DateTime,
}

/// A cleaning step.
#[derive(Debug)]
pub enum CleaningRule {
    /// Drop `null` fields.
    RemoveNulls,
    /// Trim strings.
    TrimWhitespace,
    /// Re-case strings.
    NormalizeCase(CaseType),
    /// Drop duplicate records (not applied to single records).
    RemoveDuplicates,
    /// Convert a field (not applied yet).
    TypeConversion(String, DataType),
}

/// Whether payload `b` is what cleaning step `r` makes of payload `a`.
pub open spec fn rule_step(a: RecordData, b: RecordData, r: CleaningRule) -> bool {
    match r {
        CleaningRule::RemoveNulls => removed_nulls(a, b),
        CleaningRule::TrimWhitespace => data_mapped(a, b, trim_fn()),
        CleaningRule::NormalizeCase(c) => data_mapped(a, b, recase_fn(c)),
        _ => b == a,
    }
}

/// Whether payload `b` is what the steps `rules`, in order, make of payload `a`.
pub open spec fn cleaned(a: RecordData, b: RecordData, rules: Seq<CleaningRule>) -> bool
    decreases rules.len(),
{
    if rules.len() == 0 {
        b == a
    } else {
        exists|mid: RecordData| cleaned(a, mid, rules.drop_last()) && #[trigger] rule_step(mid, b, rules.last())
    }
}

fn remove_nulls(data: RecordData) -> (r: RecordData)
    ensures
        removed_nulls(data, r),
{
    match data {
        RecordData::Object(fields) => {
            let ghost all = fields@;
            let mut rest = fields;
            let mut out: Vec<(String, FieldValue)> = Vec::new();
            let n = rest.len();
            let mut k: usize = 0;
            while rest.len() > 0
                invariant
                    n == all.len(),
                    k + rest@.len() == n,
                    rest@ == all.subrange(k as int, n as int),
                    out@ == all.subrange(0, k as int).filter(not_null()),
                decreases rest.len(),
            {
                let e = rest.remove(0);
                proof {
                    assert(rest@ =~= all.subrange(k + 1, n as int));
                    assert(all.subrange(0, k + 1) =~= all.subrange(0, k as int).push(e));
                    all.subrange(0, k as int).lemma_filter_push(e, not_null());
                }
                let keep = match e.1 {
                    FieldValue::Null => false,
                    _ => true,
                };
                if keep {
                    out.push(e);
                }
                k = k + 1;
            }
            assert(all.subrange(0, n as int) =~= all);
            RecordData::Object(out)
        },
        RecordData::Scalar(v) => RecordData::Scalar(v),
    }
}

fn map_value(v: FieldValue, trim_text: bool, case_type: CaseType) -> (r: FieldValue)
    ensures
        trim_text ==> mapped(v, r, trim_fn()),
        !trim_text ==> mapped(v, r, recase_fn(case_type)),
{
    match v {
        FieldValue::Str(s) => {
            if trim_text {
                FieldValue::Str(trim(s.as_str()))
            } else {
                FieldValue::Str(recase_str(s.as_str(), case_type))
            }
        },
        other => other,
    }
}

fn map_data(data: RecordData, trim_text: bool, case_type: CaseType) -> (r: RecordData)
    ensures
        trim_text ==> data_mapped(data, r, trim_fn()),
        !trim_text ==> data_mapped(data, r, recase_fn(case_type)),
{
    match data {
        RecordData::Object(fields) => {
            let ghost all = fields@;
            let ghost f = if trim_text { trim_fn() } else { recase_fn(case_type) };
            let mut rest = fields;
            let mut out: Vec<(String, FieldValue)> = Vec::new();
            let n = rest.len();
            let mut k: usize = 0;
            while rest.len() > 0
                invariant
                    n == all.len(),
                    k + rest@.len() == n,
                    rest@ == all.subrange(k as int, n as int),
                    f == (if trim_text { trim_fn() } else { recase_fn(case_type) }),
                    fields_mapped(all.subrange(0, k as int), out@, f),
                decreases rest.len(),
            {
                let e = rest.remove(0);
                proof {
                    assert(rest@ =~= all.subrange(k + 1, n as int));
                    assert(all[k as int] == e);
                }
                let (name, value) = e;
                let nv = map_value(value, trim_text, case_type);
                out.push((name, nv));
                proof {
                    assert forall|i: int| 0 <= i < k + 1 implies (#[trigger] out@[i]).0@ == all.subrange(0, k + 1)[i].0@
                        && mapped(all.subrange(0, k + 1)[i].1, out@[i].1, f) by {
                        if i < k {
                            assert(all.subrange(0, k + 1)[i] == all.subrange(0, k as int)[i]);
                        }
                    }
                }
                k = k + 1;
            }
            assert(all.subrange(0, n as int) =~= all);
            RecordData::Object(out)
        },
        RecordData::Scalar(v) => RecordData::Scalar(map_value(v, trim_text, case_type)),
    }
}

fn apply_rule(data: RecordData, rule: &CleaningRule) -> (r: RecordData)
    ensures
        rule_step(data, r, *rule),
{
    match rule {
        CleaningRule::RemoveNulls => remove_nulls(data),
        CleaningRule::TrimWhitespace => map_data(data, true, CaseType::Lower),
        CleaningRule::NormalizeCase(c) => map_data(data, false, *c),
        _ => data,
    }
}

/// Counters of a processor.
#[derive(Debug)]
pub struct ProcessorStats {
    /// Records processed.
    pub records_processed: u64,
    /// Records processed successfully.
    pub records_success: u64,
    /// Records that failed.
    pub records_failed: u64,
    /// Last time a record was processed, in milliseconds since the Unix epoch.
    pub last_processed_at: Option<i64>,
}

/// Timing and counts of one processing run.
#[derive(Debug)]
pub struct ProcessingStats {
    /// Start, in milliseconds since the Unix epoch.
    pub start_time: i64,
    /// End, in milliseconds since the Unix epoch.
    pub end_time: i64,
    /// Duration in milliseconds.
    pub duration_ms: u64,
    /// Fields processed.
    pub fields_processed: u32,
    /// Rules applied.
    pub rules_applied: u32,
}

/// The outcome of processing a record.
#[derive(Debug)]
pub struct ProcessingResult {
    /// Whether the record passed.
    pub success: bool,
    /// The processed record, when it passed.
    pub data: Option<DataRecord>,
    /// Why it failed.
    pub error: Option<String>,
    /// Timing and counts.
    pub stats: ProcessingStats,
}

fn stats(start: i64, end: i64, fields: u32, rules: usize) -> (s: ProcessingStats)
    requires
        rules <= u32::MAX,
    ensures
        s.start_time == start,
        s.end_time == end,
        s.fields_processed == fields,
        s.rules_applied == rules,
{
    let d: i128 = end as i128 - start as i128;
    let duration_ms: u64 = if d < 0 { 0 } else if d > u64::MAX as i128 { u64::MAX } else { d as u64 };
    ProcessingStats { start_time: start, end_time: end, duration_ms, fields_processed: fields, rules_applied: rules as u32 }
}

fn empty_stats() -> (s: ProcessorStats)
    ensures
        s.records_processed == 0 && s.records_success == 0 && s.records_failed == 0 && s.last_processed_at is None,
{
    ProcessorStats { records_processed: 0, records_success: 0, records_failed: 0, last_processed_at: None }
}

/// Whether the metadata maps key `k` to `v`.
pub open spec fn has_meta(m: Vec<(String, String)>, k: Seq<char>, v: Seq<char>) -> bool {
    meta_get(meta_view(m@), k) == Some(v)
}

/// Cleans records: drops `null` fields, trims strings and lower-cases them.
#[derive(Debug)]
pub struct DataCleaningProcessor {
    name: String,
    config: ProcessorConfig,
    stats: ProcessorStats,
    cleaning_rules: Vec<CleaningRule>,
}

impl DataCleaningProcessor {
    /// The processor's name.
    pub closed spec fn name_view(&self) -> Seq<char> {
        self.name@
    }

    /// The cleaning steps, in order.
    pub closed spec fn rules(&self) -> Seq<CleaningRule> {
        self.cleaning_rules@
    }

    /// A cleaner that drops nulls, trims, then lower-cases.
    pub fn new(name: String, config: ProcessorConfig) -> (p: Self)
        ensures
            p.name_view() == name@,
            p.rules() == seq![CleaningRule::RemoveNulls, CleaningRule::TrimWhitespace,
                CleaningRule::NormalizeCase(CaseType::Lower)],
    {
        let p = DataCleaningProcessor {
            name,
            config,
            stats: empty_stats(),
            cleaning_rules: vec![
                CleaningRule::RemoveNulls,
                CleaningRule::TrimWhitespace,
                CleaningRule::NormalizeCase(CaseType::Lower),
            ],
        };
        assert(p.rules() =~= seq![CleaningRule::RemoveNulls, CleaningRule::TrimWhitespace,
            CleaningRule::NormalizeCase(CaseType::Lower)]);
        p
    }

    /// The processor's name.
    pub fn name(&self) -> (s: &str)
        ensures
            s@ == self.name_view(),
    {
        self.name.as_str()
    }

    /// The kind of processor.
    pub fn processor_type(&self) -> (t: ProcessorType)
        ensures
            t == ProcessorType::DataCleaning,
    {
        ProcessorType::DataCleaning
    }

    /// Applies the cleaning steps in order.
    pub fn apply_cleaning_rules(&self, data: RecordData) -> (r: RecordData)
        ensures
            cleaned(data, r, self.rules()),
    {
        let mut d = data;
        let mut i: usize = 0;
        let ghost start = data;
        while i < self.cleaning_rules.len()
            invariant
                i <= self.cleaning_rules@.len(),
                cleaned(start, d, self.rules().subrange(0, i as int)),
            decreases self.cleaning_rules.len() - i,
        {
            let ghost mid = d;
            d = apply_rule(d, &self.cleaning_rules[i]);
            proof {
                let rs = self.rules().subrange(0, i + 1);
                assert(rs.drop_last() =~= self.rules().subrange(0, i as int));
                assert(rs.last() == self.rules()[i as int]);
                assert(rule_step(mid, d, rs.last()));
            }
            i = i + 1;
        }
        assert(self.rules().subrange(0, i as int) =~= self.rules());
        d
    }

    /// Cleans a record and marks it as processed by this cleaner.
    pub fn process(&self, record: DataRecord) -> (r: ProcessingResult)
        requires
            self.rules().len() <= u32::MAX,
        ensures
            r.success,
            r.error is None,
            r.stats.rules_applied == self.rules().len(),
            r.stats.fields_processed == 1,
            r.data matches Some(out) && out.id == record.id && out.source == record.source
                && out.timestamp == record.timestamp && cleaned(record.data, out.data, self.rules())
                && has_meta(out.metadata, "processed_by"@, self.name_view())
                && has_meta(out.metadata, "processor_type"@, "data_cleaning"@),
    {
        let start = now_millis();
        let DataRecord { id, source, data, timestamp, metadata } = record;
        let cleaned_data = self.apply_cleaning_rules(data);
        let mut meta = metadata;
        set_meta(&mut meta, "processed_by", self.name.clone());
        set_meta(&mut meta, "processor_type", "data_cleaning".to_string());
        proof {
            reveal_strlit("processed_by");
            reveal_strlit("processor_type");
            assert("processed_by"@.len() != "processor_type"@.len());
        }
        let out = DataRecord { id, source, data: cleaned_data, timestamp, metadata: meta };
        let end = now_millis();
        ProcessingResult {
            success: true,
            data: Some(out),
            error: None,
            stats: stats(start, end, 1, self.cleaning_rules.len()),
        }
    }

    /// The name must not be empty.
    pub fn validate_config(&self) -> (r: Result<(), String>)
        ensures
            r is Ok <==> self.name_view().len() > 0,
            r matches Err(e) ==> e@ == "处理器名称不能为空"@,
    {
        if self.name.as_str().is_empty() {
            return Err("处理器名称不能为空".to_string());
        }
        Ok(())
    }
}

/// A check applied to a record.
#[derive(Debug)]
pub enum ValidationRule {
    /// The field must be present.
    RequiredField(String),
    /// The field, when present, must have the type.
    TypeCheck(String, DataType),
    /// The field must match a pattern (not applied yet).
    RegexCheck(String, String),
    /// A named custom check (not applied yet).
    CustomValidation(String),
}

/// The value of field `name` of a payload (the first field so named), if any.
pub open spec fn field_of(d: RecordData, name: Seq<char>) -> Option<FieldValue> {
    match d {
        RecordData::Object(fields) => field_in(fields@, name),
        RecordData::Scalar(_) => None,
    }
}

/// The value of the first field named `name`.
pub open spec fn field_in(fields: Seq<(String, FieldValue)>, name: Seq<char>) -> Option<FieldValue>
    decreases fields.len(),
{
    if fields.len() == 0 {
        None
    } else if fields[0].0@ == name {
        Some(fields[0].1)
    } else {
        field_in(fields.drop_first(), name)
    }
}

/// Whether a value has type `t`.
pub open spec fn type_ok(v: FieldValue, t: DataType) -> bool {
    match t {
        DataType::String => v is Str,
        DataType::Integer => v is Int,
        DataType::Float => v is Float,
        DataType::Boolean => v is Bool,
        DataType::DateTime => match v {
            FieldValue::Str(s) => s@.contains('T'),
            _ => false,
        },
    }
}

/// The error of a rule on a payload, if it fails.
pub open spec fn rule_error(d: RecordData, r: ValidationRule) -> Option<Seq<char>> {
    match r {
        ValidationRule::RequiredField(f) => if field_of(d, f@) is None {
            Some("必填字段'"@ + f@ + "'缺失"@)
        } else {
            None
        },
        ValidationRule::TypeCheck(f, t) => match field_of(d, f@) {
            Some(v) => if type_ok(v, t) { None } else { Some("字段'"@ + f@ + "'类型不匹配"@) },
            None => None,
        },
        _ => None,
    }
}

/// The error of the first failing rule, if any.
pub open spec fn first_error(d: RecordData, rules: Seq<ValidationRule>) -> Option<Seq<char>>
    decreases rules.len(),
{
    if rules.len() == 0 {
        None
    } else {
        match rule_error(d, rules[0]) {
            Some(e) => Some(e),
            None => first_error(d, rules.drop_first()),
        }
    }
}

fn find_field<'a>(d: &'a RecordData, name: &str) -> (r: Option<&'a FieldValue>)
    ensures
        match r {
            Some(v) => field_of(*d, name@) == Some(*v),
            None => field_of(*d, name@) is None,
        },
{
    match d {
        RecordData::Object(fields) => {
            let mut i: usize = 0;
            assert(fields@.subrange(0, fields@.len() as int) =~= fields@);
            while i < fields.len()
                invariant
                    i <= fields@.len(),
                    field_of(*d, name@) == field_in(fields@, name@),
                    field_in(fields@, name@) == field_in(fields@.subrange(i as int, fields@.len() as int), name@),
                decreases fields.len() - i,
            {
                proof {
                    assert(fields@.subrange(i as int, fields@.len() as int).drop_first() =~= fields@.subrange(
                        i + 1,
                        fields@.len() as int,
                    ));
                }
                if str_eq(fields[i].0.as_str(), name) {
                    assert(fields@.subrange(i as int, fields@.len() as int)[0] == fields@[i as int]);
                    return Some(&fields[i].1);
                }
                i = i + 1;
            }
            None
        },
        RecordData::Scalar(_) => None,
    }
}

/// Whether `v` has type `t`.
pub fn check_type(v: &FieldValue, t: DataType) -> (b: bool)
    ensures
        b == type_ok(*v, t),
{
    match t {
        DataType::String => match v {
            FieldValue::Str(_) => true,
            _ => false,
        },
        DataType::Integer => match v {
            FieldValue::Int(_) => true,
            _ => false,
        },
        DataType::Float => match v {
            FieldValue::Float(_) => true,
            _ => false,
        },
        DataType::Boolean => match v {
            FieldValue::Bool(_) => true,
            _ => false,
        },
        DataType::DateTime => match v {
            FieldValue::Str(s) => {
                let cs = chars_of(s.as_str());
                let mut i: usize = 0;
                while i < cs.len()
                    invariant
                        i <= cs@.len(),
                        cs@ == s@,
                        type_ok(*v, t) == s@.contains('T'),
                        forall|j: int| 0 <= j < i ==> cs@[j] != 'T',
                    decreases cs.len() - i,
                {
                    if cs[i] == 'T' {
                        assert(s@[i as int] == 'T');
                        assert(s@.contains('T'));
                        return true;
                    }
                    i = i + 1;
                }
                false
            },
            _ => false,
        },
    }
}

fn quoted(prefix: &str, name: &str, suffix: &str) -> (s: String)
    ensures
        s@ == prefix@ + name@ + suffix@,
{
    let mut v = chars_of(prefix);
    let n = chars_of(name);
    append_chars(&mut v, &n);
    let t = chars_of(suffix);
    append_chars(&mut v, &t);
    string_of(&v)
}

fn apply_validation_rule(d: &RecordData, rule: &ValidationRule) -> (r: Result<(), String>)
    ensures
        match r {
            Ok(()) => rule_error(*d, *rule) is None,
            Err(e) => rule_error(*d, *rule) == Some(e@),
        },
{
    match rule {
        ValidationRule::RequiredField(f) => {
            if find_field(d, f.as_str()).is_none() {
                return Err(quoted("必填字段'", f.as_str(), "'缺失"));
            }
            Ok(())
        },
        ValidationRule::TypeCheck(f, t) => {
            match find_field(d, f.as_str()) {
                Some(v) => {
                    if !check_type(v, *t) {
                        return Err(quoted("字段'", f.as_str(), "'类型不匹配"));
                    }
                    Ok(())
                },
                None => Ok(()),
            }
        },
        _ => Ok(()),
    }
}

/// Validates records: by default the fields `id` and `timestamp` are required.
#[derive(Debug)]
pub struct DataValidationProcessor {
    name: String,
    config: ProcessorConfig,
    stats: ProcessorStats,
    validation_rules: Vec<ValidationRule>,
}

impl DataValidationProcessor {
    /// The processor's name.
    pub closed spec fn name_view(&self) -> Seq<char> {
        self.name@
    }

    /// The checks, in order.
    pub closed spec fn rules(&self) -> Seq<ValidationRule> {
        self.validation_rules@
    }

    /// A validator requiring `id` and `timestamp`.
    pub fn new(name: String, config: ProcessorConfig) -> (p: Self)
        ensures
            p.name_view() == name@,
            p.rules().len() == 2,
            p.rules()[0] matches ValidationRule::RequiredField(f) && f@ == "id"@,
            p.rules()[1] matches ValidationRule::RequiredField(f) && f@ == "timestamp"@,
    {
        DataValidationProcessor {
            name,
            config,
            stats: empty_stats(),
            validation_rules: vec![
                ValidationRule::RequiredField("id".to_string()),
                ValidationRule::RequiredField("timestamp".to_string()),
            ],
        }
    }

    /// The processor's name.
    pub fn name(&self) -> (s: &str)
        ensures
            s@ == self.name_view(),
    {
        self.name.as_str()
    }

    /// The kind of processor.
    pub fn processor_type(&self) -> (t: ProcessorType)
        ensures
            t == ProcessorType::DataValidation,
    {
        ProcessorType::DataValidation
    }

    /// Applies the checks in order and reports the first failure.
    pub fn validate_record(&self, record: &DataRecord) -> (r: Result<(), String>)
        ensures
            match r {
                Ok(()) => first_error(record.data, self.rules()) is None,
                Err(e) => first_error(record.data, self.rules()) == Some(e@),
            },
    {
        let mut i: usize = 0;
        assert(self.rules().subrange(0, self.rules().len() as int) =~= self.rules());
        while i < self.validation_rules.len()
            invariant
                i <= self.validation_rules@.len(),
                first_error(record.data, self.rules()) == first_error(
                    record.data,
                    self.rules().subrange(i as int, self.rules().len() as int),
                ),
            decreases self.validation_rules.len() - i,
        {
            proof {
                let rest = self.rules().subrange(i as int, self.rules().len() as int);
                assert(rest.drop_first() =~= self.rules().subrange(i + 1, self.rules().len() as int));
                assert(rest[0] == self.rules()[i as int]);
            }
            match apply_validation_rule(&record.data, &self.validation_rules[i]) {
                Ok(()) => {},
                Err(e) => {
                    return Err(e);
                },
            }
            i = i + 1;
        }
        Ok(())
    }

    /// Validates a record: a record that passes is marked as validated by this
    /// processor; one that fails is dropped with the first error.
    pub fn process(&self, record: DataRecord) -> (r: ProcessingResult)
        requires
            self.rules().len() <= u32::MAX,
        ensures
            r.success <==> first_error(record.data, self.rules()) is None,
            r.stats.rules_applied == self.rules().len(),
            r.success ==> (r.error is None && r.stats.fields_processed == 1),
            r.success ==> (r.data matches Some(out)
                && out.id == record.id && out.source == record.source && out.timestamp == record.timestamp
                && out.data == record.data && has_meta(out.metadata, "validated_by"@, self.name_view())
                && has_meta(out.metadata, "validation_status"@, "passed"@)),
            !r.success ==> (r.data is None && r.stats.fields_processed == 0),
            !r.success ==> (r.error matches Some(e) && first_error(record.data, self.rules()) == Some(e@)),
    {
        let start = now_millis();
        match self.validate_record(&record) {
            Ok(()) => {
                let DataRecord { id, source, data, timestamp, metadata } = record;
                let mut meta = metadata;
                set_meta(&mut meta, "validated_by", self.name.clone());
                set_meta(&mut meta, "validation_status", "passed".to_string());
                proof {
                    reveal_strlit("validated_by");
                    reveal_strlit("validation_status");
                    assert("validated_by"@.len() != "validation_status"@.len());
                }
                let end = now_millis();
                ProcessingResult {
                    success: true,
                    data: Some(DataRecord { id, source, data, timestamp, metadata: meta }),
                    error: None,
                    stats: stats(start, end, 1, self.validation_rules.len()),
                }
            },
            Err(e) => {
                let end = now_millis();
                ProcessingResult {
                    success: false,
                    data: None,
                    error: Some(e),
                    stats: stats(start, end, 0, self.validation_rules.len()),
                }
            },
        }
    }

    /// The name must not be empty.
    pub fn validate_config(&self) -> (r: Result<(), String>)
        ensures
            r is Ok <==> self.name_view().len() > 0,
            r matches Err(e) ==> e@ == "处理器名称不能为空"@,
    {
        if self.name.as_str().is_empty() {
            return Err("处理器名称不能为空".to_string());
        }
        Ok(())
    }
}

impl DataRecord {
    /// A record from `source` with payload `data`, a fresh identifier, the
    /// current time and no metadata.
    pub fn new(source: String, data: RecordData) -> (r: Self)
        ensures
            r.source == source,
            r.data == data,
            r.metadata@.len() == 0,
    {
        DataRecord { id: new_uuid_text(), source, data, timestamp: now_millis(), metadata: Vec::new() }
    }

    /// The record with metadata `key` set to `value`.
    pub fn with_metadata(self, key: String, value: String) -> (r: Self)
        ensures
            r.id == self.id,
            r.source == self.source,
            r.data == self.data,
            r.timestamp == self.timestamp,
            has_meta(r.metadata, key@, value@),
            forall|k: Seq<char>| k != key@ ==> meta_get(meta_view(r.metadata@), k) == meta_get(
                meta_view(self.metadata@),
                k,
            ),
    {
        let DataRecord { id, source, data, timestamp, metadata } = self;
        let mut meta = metadata;
        set_meta(&mut meta, key.as_str(), value);
        DataRecord { id, source, data, timestamp, metadata: meta }
    }
}

/// A processor of the pipeline.
#[derive(Debug)]
pub enum Processor {
    /// A cleaner.
    Cleaning(DataCleaningProcessor),
    /// A validator.
    Validation(DataValidationProcessor),
}

/// Whether record `b` is what a processor that succeeds makes of record `a`.
pub open spec fn stage_ok(p: Processor, a: DataRecord, b: DataRecord) -> bool {
    &&& b.id == a.id
    &&& b.source == a.source
    &&& b.timestamp == a.timestamp
    &&& match p {
        Processor::Cleaning(c) => cleaned(a.data, b.data, c.rules()),
        Processor::Validation(v) => first_error(a.data, v.rules()) is None && b.data == a.data,
    }
}

/// Whether processor `p` refuses record `a` with message `e`.
pub open spec fn stage_fails(p: Processor, a: DataRecord, e: Seq<char>) -> bool {
    match p {
        Processor::Cleaning(_) => false,
        Processor::Validation(v) => first_error(a.data, v.rules()) == Some(e),
    }
}

/// Whether the processors `ps`, in order, turn record `a` into record `b`.
pub open spec fn pipeline_ok(ps: Seq<Processor>, a: DataRecord, b: DataRecord) -> bool
    decreases ps.len(),
{
    if ps.len() == 0 {
        b == a
    } else {
        exists|mid: DataRecord| pipeline_ok(ps.drop_last(), a, mid) && #[trigger] stage_ok(ps.last(), mid, b)
    }
}

/// Whether the processors `ps` stop record `a` with message `e`: some processor
/// refuses what the ones before it made.
pub open spec fn pipeline_fails(ps: Seq<Processor>, a: DataRecord, e: Seq<char>) -> bool {
    exists|k: int, mid: DataRecord|
        0 <= k < ps.len() && pipeline_ok(ps.subrange(0, k), a, mid) && #[trigger] stage_fails(ps[k], mid, e)
}

/// Runs a record through the processors in order; the first refusal stops it
/// with the processor's message.
pub fn process_record(processors: &Vec<Processor>, record: DataRecord) -> (r: Result<DataRecord, String>)
    requires
        forall|i: int| 0 <= i < processors@.len() ==> match #[trigger] processors@[i] {
            Processor::Cleaning(c) => c.rules().len() <= u32::MAX,
            Processor::Validation(v) => v.rules().len() <= u32::MAX,
        },
    ensures
        match r {
            Ok(out) => pipeline_ok(processors@, record, out),
            Err(e) => pipeline_fails(processors@, record, e@),
        },
{
    let ghost start = record;
    let mut rec = record;
    let mut i: usize = 0;
    while i < processors.len()
        invariant
            i <= processors@.len(),
            forall|j: int| 0 <= j < processors@.len() ==> match #[trigger] processors@[j] {
                Processor::Cleaning(c) => c.rules().len() <= u32::MAX,
                Processor::Validation(v) => v.rules().len() <= u32::MAX,
            },
            pipeline_ok(processors@.subrange(0, i as int), start, rec),
            start == record,
        decreases processors.len() - i,
    {
        let ghost before = rec;
        let result = match &processors[i] {
            Processor::Cleaning(c) => c.process(rec),
            Processor::Validation(v) => v.process(rec),
        };
        proof {
            assert(processors@.subrange(0, i + 1).drop_last() =~= processors@.subrange(0, i as int));
            assert(processors@.subrange(0, i + 1).last() == processors@[i as int]);
        }
        if result.success {
            match result.data {
                Some(d) => {
                    rec = d;
                    assert(stage_ok(processors@[i as int], before, rec));
                },
                None => {
                    proof {
                        assert(false);
                    }
                    return Err(String::new());
                },
            }
        } else {
            let msg = match result.error {
                Some(e) => e,
                None => "处理失败".to_string(),
            };
            proof {
                assert(stage_fails(processors@[i as int], before, msg@));
                assert(pipeline_ok(processors@.subrange(0, i as int), start, before));
                assert(pipeline_fails(processors@, start, msg@));
            }
            return Err(msg);
        }
        i = i + 1;
    }
    assert(processors@.subrange(0, processors@.len() as int) =~= processors@);
    Ok(rec)
}

} // verus!
