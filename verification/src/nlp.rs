//! The assistant endpoints' own decisions: reading the intent of a question in
//! natural language, the context handed with a suggestion request, and the paging
//! of a session's history.
use vstd::prelude::*;
use crate::text::{chars_of, string_of, to_lowercase, lower, contains, contains_seq};
use crate::format::append_chars;

verus! {

/// What a question was read as: its intent, the SQL for it, the confidence in
/// hundredths (92 is 0.92), an explanation and the tables it touches.
#[derive(Debug)]
pub struct NlpInterpretation {
    /// The intent.
    pub intent: String,
    /// The SQL generated.
    pub sql: String,
    /// Confidence in hundredths.
    pub confidence: u32,
    /// Why.
    pub explanation: String,
    /// Tables the SQL reads.
    pub tables: Vec<String>,
}

/// Which reading a question gets: 0 for transaction statistics (it mentions
/// 交易 and 统计), 1 for the user count (用户 and 数量), 2 for recent data (最近
/// and 天), 3 for anything else; the text is compared lower-cased.
pub open spec fn nlp_case(query: Seq<char>) -> nat {
    let q = lower(query);
    if contains_seq(q, "交易"@) && contains_seq(q, "统计"@) {
        0
    } else if contains_seq(q, "用户"@) && contains_seq(q, "数量"@) {
        1
    } else if contains_seq(q, "最近"@) && contains_seq(q, "天"@) {
        2
    } else {
        3
    }
}

/// The views of a list of strings.
pub open spec fn names(v: Seq<String>) -> Seq<Seq<char>> {
    v.map_values(|s: String| s@)
}

fn lit_contains(s: &Vec<char>, p: &str) -> (b: bool)
    ensures
        b == contains_seq(s@, p@),
{
    let pv = chars_of(p);
    contains(s, &pv)
}

fn interpretation(intent: &str, sql: &str, confidence: u32, explanation: &str, tables: Vec<String>)
    -> (r: NlpInterpretation)
    ensures
        r.intent@ == intent@,
        r.sql@ == sql@,
        r.confidence == confidence,
        r.explanation@ == explanation@,
        r.tables == tables,
{
    NlpInterpretation {
        intent: intent.to_string(),
        sql: sql.to_string(),
        confidence,
        explanation: explanation.to_string(),
        tables,
    }
}

/// Reads a question (see `nlp_case`) into an intent, SQL, confidence,
/// explanation and tables.
pub fn analyze_nlp_query(query: &str) -> (r: NlpInterpretation)
    ensures
        nlp_case(query@) == 0 ==> r.intent@ == "查询交易统计信息"@ && r.confidence == 92 && names(r.tables@)
            == seq!["transactions"@],
        nlp_case(query@) == 1 ==> r.intent@ == "查询用户数量"@ && r.confidence == 88 && names(r.tables@)
            == seq!["users"@],
        nlp_case(query@) == 2 ==> r.intent@ == "查询最近时间段的数据"@ && r.confidence == 85 && names(r.tables@)
            == seq!["transactions"@],
        nlp_case(query@) == 3 ==> r.intent@ == "通用数据查询"@ && r.sql@ == "SELECT * FROM transactions LIMIT 10"@
            && r.confidence == 60 && names(r.tables@) == seq!["transactions"@, "users"@],
        nlp_case(query@) == 0 ==> r.sql@
            == "SELECT COUNT(*) as total_transactions, SUM(amount) as total_amount, AVG(amount) as avg_amount FROM transactions WHERE created_at >= CURRENT_DATE - INTERVAL '30 days'"@,
        nlp_case(query@) == 1 ==> r.sql@
            == "SELECT COUNT(*) as user_count FROM users WHERE created_at >= CURRENT_DATE - INTERVAL '30 days'"@,
        nlp_case(query@) == 2 ==> r.sql@
            == "SELECT * FROM transactions WHERE created_at >= CURRENT_DATE - INTERVAL '7 days' ORDER BY created_at DESC LIMIT 100"@,
{
    let q = chars_of(to_lowercase(query).as_str());
    if lit_contains(&q, "交易") && lit_contains(&q, "统计") {
        let t = vec!["transactions".to_string()];
        assert(names(t@) =~= seq!["transactions"@]);
        interpretation(
            "查询交易统计信息",
            "SELECT COUNT(*) as total_transactions, SUM(amount) as total_amount, AVG(amount) as avg_amount FROM transactions WHERE created_at >= CURRENT_DATE - INTERVAL '30 days'",
            92,
            "根据您的查询，我理解您想要获取交易的统计信息，包括总数量、总金额和平均金额",
            t,
        )
    } else if lit_contains(&q, "用户") && lit_contains(&q, "数量") {
        let t = vec!["users".to_string()];
        assert(names(t@) =~= seq!["users"@]);
        interpretation(
            "查询用户数量",
            "SELECT COUNT(*) as user_count FROM users WHERE created_at >= CURRENT_DATE - INTERVAL '30 days'",
            88,
            "您想了解用户数量，我为您生成了统计用户总数的查询",
            t,
        )
    } else if lit_contains(&q, "最近") && lit_contains(&q, "天") {
        let t = vec!["transactions".to_string()];
        assert(names(t@) =~= seq!["transactions"@]);
        interpretation(
            "查询最近时间段的数据",
            "SELECT * FROM transactions WHERE created_at >= CURRENT_DATE - INTERVAL '7 days' ORDER BY created_at DESC LIMIT 100",
            85,
            "您想查看最近几天的数据，我为您生成了相应的时间范围查询",
            t,
        )
    } else {
        let t = vec!["transactions".to_string(), "users".to_string()];
        assert(names(t@) =~= seq!["transactions"@, "users"@]);
        interpretation(
            "通用数据查询",
            "SELECT * FROM transactions LIMIT 10",
            60,
            "我理解您想要查询数据，但具体需求不够明确，为您提供了一个基础查询示例",
            t,
        )
    }
}

/// The items joined with `, `.
pub open spec fn comma_joined(items: Seq<Seq<char>>) -> Seq<char>
    decreases items.len(),
{
    if items.len() == 0 {
        Seq::empty()
    } else if items.len() == 1 {
        items[0]
    } else {
        comma_joined(items.drop_last()) + ", "@ + items.last()
    }
}

/// The context handed with a suggestion request: `可用表: ` and the tables,
/// when tables are given.
pub fn suggest_context(tables: &Option<Vec<String>>) -> (c: Option<String>)
    ensures
        match tables {
            Some(t) => c matches Some(s) && s@ == "可用表: "@ + comma_joined(names(t@)),
            None => c is None,
        },
{
    match tables {
        Some(t) => {
            let ghost v = names(t@);
            let mut out = chars_of("可用表: ");
            let ghost head = out@;
            let mut joined: Vec<char> = Vec::new();
            let mut i: usize = 0;
            while i < t.len()
                invariant
                    v == names(t@),
                    i <= t@.len(),
                    joined@ == comma_joined(v.subrange(0, i as int)),
                decreases t.len() - i,
            {
                if i > 0 {
                    let sep = chars_of(", ");
                    append_chars(&mut joined, &sep);
                }
                let w = chars_of(t[i].as_str());
                append_chars(&mut joined, &w);
                proof {
                    assert(v.subrange(0, i + 1).drop_last() =~= v.subrange(0, i as int));
                }
                i = i + 1;
            }
            assert(v.subrange(0, v.len() as int) =~= v);
            append_chars(&mut out, &joined);
            Some(string_of(&out))
        },
        None => None,
    }
}

/// The page of a session's history: at most `limit` messages (50 when absent,
/// never more than 200) after skipping `offset` (0 when absent).
pub fn history_window(limit: Option<u32>, offset: Option<u32>) -> (r: (u32, u32))
    ensures
        r.0 == match limit { Some(l) => if l < 200 { l } else { 200 }, None => 50 },
        r.1 == match offset { Some(o) => o, None => 0 },
{
    let l = match limit {
        Some(l) => if l < 200 { l } else { 200 },
        None => 50,
    };
    let o = match offset {
        Some(o) => o,
        None => 0,
    };
    (l, o)
}

} // verus!
