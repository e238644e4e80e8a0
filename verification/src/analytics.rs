//! SQL built by the window function processor: ranking, moving averages,
//! cumulative statistics, time windows, group rankings and period comparisons,
//! and the advice given on window queries.
use vstd::prelude::*;
use crate::text::{chars_of, string_of, to_uppercase, upper, contains, count_occurrences, contains_seq, str_eq,
    replace_chars, replace_all,
    count_matches, occurs_at, lemma_replace_all_absent, lemma_replace_all_once};
use crate::format::{append_chars, dec, dec_chars};

verus! {

/// `pieces[0] + args[0] + pieces[1] + ... + args[n-1] + pieces[n]`.
pub open spec fn render_spec(pieces: Seq<Seq<char>>, args: Seq<Seq<char>>) -> Seq<char>
    decreases args.len(),
{
    if args.len() == 0 || pieces.len() == 0 {
        if pieces.len() == 0 { Seq::empty() } else { pieces[0] }
    } else {
        render_spec(pieces.drop_last(), args.drop_last()) + args.last() + pieces.last()
    }
}

/// The views of a list of string slices.
pub open spec fn str_seq_view(v: Seq<&str>) -> Seq<Seq<char>> {
    v.map_values(|s: &str| s@)
}

/// Fills a template: the pieces with the arguments between them.
pub fn render(pieces: &Vec<&str>, args: &Vec<&str>) -> (s: String)
    requires
        pieces@.len() == args@.len() + 1,
    ensures
        s@ == render_spec(str_seq_view(pieces@), str_seq_view(args@)),
{
    let ghost ps = str_seq_view(pieces@);
    let ghost xs = str_seq_view(args@);
    let mut out = chars_of(pieces[0]);
    let mut i: usize = 0;
    assert(ps.subrange(0, 1).drop_last().len() == 0);
    assert(render_spec(ps.subrange(0, 1), xs.subrange(0, 0)) == ps[0]);
    while i < args.len()
        invariant
            pieces@.len() == args@.len() + 1,
            ps == str_seq_view(pieces@),
            xs == str_seq_view(args@),
            i <= args@.len(),
            out@ == render_spec(ps.subrange(0, i + 1), xs.subrange(0, i as int)),
        decreases args.len() - i,
    {
        let a = chars_of(args[i]);
        append_chars(&mut out, &a);
        let p = chars_of(pieces[i + 1]);
        append_chars(&mut out, &p);
        proof {
            assert(ps.subrange(0, i + 2).drop_last() =~= ps.subrange(0, i + 1));
            assert(xs.subrange(0, i + 1).drop_last() =~= xs.subrange(0, i as int));
        }
        i = i + 1;
    }
    assert(ps.subrange(0, ps.len() as int) =~= ps);
    assert(xs.subrange(0, xs.len() as int) =~= xs);
    string_of(&out)
}

/// The decimal text of a signed integer.
pub open spec fn int_text(i: int) -> Seq<char> {
    if i < 0 { seq!['-'] + dec((-i) as nat) } else { dec(i as nat) }
}

/// The decimal text of `i`.
pub fn int_string(i: i64) -> (s: String)
    ensures
        s@ == int_text(i as int),
{
    if i < 0 {
        let mut v: Vec<char> = Vec::new();
        v.push('-');
        let m: u128 = (0i128 - i as i128) as u128;
        let d = dec_chars(m);
        append_chars(&mut v, &d);
        string_of(&v)
    } else {
        let d = dec_chars(i as u128);
        string_of(&d)
    }
}

/// The items joined with `sep` between them.
pub open spec fn join_sep(items: Seq<Seq<char>>, sep: Seq<char>) -> Seq<char>
    decreases items.len(),
{
    if items.len() == 0 {
        Seq::empty()
    } else if items.len() == 1 {
        items[0]
    } else {
        join_sep(items.drop_last(), sep) + sep + items.last()
    }
}

/// The strings joined with `sep` between them.
pub fn join_with(items: &[String], sep: &str) -> (s: String)
    ensures
        s@ == join_sep(items@.map_values(|x: String| x@), sep@),
{
    let ghost v = items@.map_values(|x: String| x@);
    let sep_chars = chars_of(sep);
    let mut out: Vec<char> = Vec::new();
    let mut i: usize = 0;
    while i < items.len()
        invariant
            v == items@.map_values(|x: String| x@),
            sep_chars@ == sep@,
            i <= items@.len(),
            out@ == join_sep(v.subrange(0, i as int), sep@),
        decreases items.len() - i,
    {
        if i > 0 {
            append_chars(&mut out, &sep_chars);
        }
        let w = chars_of(items[i].as_str());
        append_chars(&mut out, &w);
        proof {
            assert(v.subrange(0, i + 1).drop_last() =~= v.subrange(0, i as int));
            if i == 0 {
                assert(v.subrange(0, 0).len() == 0);
            }
        }
        i = i + 1;
    }
    assert(v.subrange(0, v.len() as int) =~= v);
    string_of(&out)
}

/// The strings joined with `, `.
pub fn join_comma(items: &[String]) -> (s: String)
    ensures
        s@ == join_sep(items@.map_values(|x: String| x@), ", "@),
{
    join_with(items, ", ")
}

/// A request for a time series analysis.
#[derive(Debug, Clone)]
pub struct TimeSeriesAnalysisRequest {
    pub table_name: String,
    pub time_column: String,
    pub value_column: String,
    pub start_time: Option<String>,
    pub end_time: Option<String>,
    /// `1h`, `1d`, `1w` or `1m`.
    pub interval: Option<String>,
    /// Among `trend`, `seasonality` and `anomaly`.
    pub analysis_type: Vec<String>,
}

/// A column to order by, with its direction (`ASC` or `DESC`).
#[derive(Debug, Clone)]
pub struct OrderByClause {
    pub column: String,
    pub direction: String,
}

/// A window function to apply: `rank`, `row_number`, `moving_avg` or `cumulative_sum`.
#[derive(Debug, Clone)]
pub struct WindowFunction {
    pub function_type: String,
    pub column: Option<String>,
    pub window_size: Option<u32>,
    pub alias: String,
}

/// A request for a window function analysis; `filters` holds column and value pairs.
#[derive(Debug, Clone)]
pub struct WindowFunctionRequest {
    pub table_name: String,
    pub columns: Vec<String>,
    pub partition_by: Option<Vec<String>>,
    pub order_by: Vec<OrderByClause>,
    pub window_functions: Vec<WindowFunction>,
    pub filters: Option<Vec<(String, String)>>,
}

/// A request for a ranking analysis: `ranking_type` is `rank`, `dense_rank`, `row_number` or
/// `percent_rank`; `filters` holds column and value pairs.
#[derive(Debug, Clone)]
pub struct RankingAnalysisRequest {
    pub table_name: String,
    pub rank_column: String,
    pub partition_columns: Option<Vec<String>>,
    pub ranking_type: String,
    pub top_n: Option<u32>,
    pub filters: Option<Vec<(String, String)>>,
}

/// A request for moving averages over windows of the given numbers of days.
#[derive(Debug, Clone)]
pub struct MovingAverageRequest {
    pub table_name: String,
    pub value_column: String,
    pub time_column: String,
    pub window_sizes: Vec<u32>,
    pub start_time: Option<String>,
    pub end_time: Option<String>,
}

/// The query that reads the latest 100 points of the series `value_col` over
/// `time_col` in `table`, newest first.
pub open spec fn time_series_sql(table: Seq<char>, time_col: Seq<char>, value_col: Seq<char>) -> Seq<char> {
    "SELECT "@ + time_col + ", "@ + value_col + " FROM "@ + table + " ORDER BY "@ + time_col + " DESC LIMIT 100"@
}

/// The query that reads a time series for analysis (see `time_series_sql`).
pub fn time_series_query(table: &str, time_column: &str, value_column: &str) -> (s: String)
    ensures
        s@ == time_series_sql(table@, time_column@, value_column@),
{
    let mut out = chars_of("SELECT ");
    append_chars(&mut out, &chars_of(time_column));
    append_chars(&mut out, &chars_of(", "));
    append_chars(&mut out, &chars_of(value_column));
    append_chars(&mut out, &chars_of(" FROM "));
    append_chars(&mut out, &chars_of(table));
    append_chars(&mut out, &chars_of(" ORDER BY "));
    append_chars(&mut out, &chars_of(time_column));
    append_chars(&mut out, &chars_of(" DESC LIMIT 100"));
    string_of(&out)
}

/// The processor of window function queries.
#[derive(Debug)]
pub struct WindowFunctionProcessor {}

/// The `PARTITION BY` clause for the columns, empty for none.
pub open spec fn partition_clause(cols: Seq<Seq<char>>) -> Seq<char> {
    if cols.len() == 0 { Seq::empty() } else { "PARTITION BY "@ + join_sep(cols, ", "@) }
}

/// How many periods back a period comparison looks: 1 for `month`, 3 for
/// `quarter`, 12 for `year`, 1 otherwise.
pub open spec fn period_lag(period_type: Seq<char>) -> int {
    if period_type == "month"@ { 1 } else if period_type == "quarter"@ { 3 } else if period_type == "year"@ { 12 } else { 1 }
}

/// A period comparison looks back 1 period for `month`, 3 for `quarter`, 12 for
/// `year` and 1 for any other period name: the query of
/// `generate_period_comparison_query` writes that number into every `LAG(period_value, n)`.
pub proof fn lemma_period_comparison_lag(table: Seq<char>, time_column: Seq<char>, value_column: Seq<char>, period_type: Seq<char>)
    ensures
        period_type == "month"@ ==> period_comparison_sql(table, time_column, value_column, period_type, period_lag(period_type))
            == period_comparison_sql(table, time_column, value_column, period_type, 1),
        period_type == "quarter"@ ==> period_comparison_sql(table, time_column, value_column, period_type, period_lag(period_type))
            == period_comparison_sql(table, time_column, value_column, period_type, 3),
        period_type == "year"@ ==> period_comparison_sql(table, time_column, value_column, period_type, period_lag(period_type))
            == period_comparison_sql(table, time_column, value_column, period_type, 12),
        period_type != "month"@ && period_type != "quarter"@ && period_type != "year"@ ==> period_comparison_sql(
            table,
            time_column,
            value_column,
            period_type,
            period_lag(period_type),
        ) == period_comparison_sql(table, time_column, value_column, period_type, 1),
{
    reveal_strlit("month");
    reveal_strlit("quarter");
    reveal_strlit("year");
    assert("month"@.len() != "quarter"@.len() && "month"@.len() != "year"@.len() && "quarter"@.len() != "year"@.len());
}

/// The text of the query of `generate_ranking_query`.
pub open spec fn ranking_sql(table: Seq<char>, rank_column: Seq<char>, partition_clause: Seq<char>) -> Seq<char> {
    render_spec(
        seq!["\n            SELECT *,\n                ROW_NUMBER() OVER ("@, " ORDER BY "@, " DESC) as row_num,\n                RANK() OVER ("@, " ORDER BY "@, " DESC) as rank,\n                DENSE_RANK() OVER ("@, " ORDER BY "@, " DESC) as dense_rank,\n                PERCENT_RANK() OVER ("@, " ORDER BY "@, " DESC) as percent_rank\n            FROM "@, "\n            ORDER BY "@, " DESC\n            "@],
        seq![partition_clause, rank_column, partition_clause, rank_column, partition_clause, rank_column, partition_clause, rank_column, table, rank_column],
    )
}

/// The text of the query of `generate_group_ranking_query`.
pub open spec fn group_ranking_sql(table: Seq<char>, group_clause: Seq<char>, rank_column: Seq<char>, top_n: int) -> Seq<char> {
    render_spec(
        seq!["\n            WITH ranked_data AS (\n                SELECT *,\n                    ROW_NUMBER() OVER (PARTITION BY "@, " ORDER BY "@, " DESC) as rn\n                FROM "@, "\n            )\n            SELECT *\n            FROM ranked_data\n            WHERE rn <= "@, "\n            ORDER BY "@, ", rn\n            "@],
        seq![group_clause, rank_column, table, int_text(top_n), group_clause],
    )
}

/// The text of the query of `generate_period_comparison_query`.
pub open spec fn period_comparison_sql(table: Seq<char>, time_column: Seq<char>, value_column: Seq<char>, period_type: Seq<char>, lag_value: int) -> Seq<char> {
    render_spec(
        seq!["\n            WITH period_data AS (\n                SELECT \n                    DATE_TRUNC('"@, "', "@, ") as period,\n                    SUM("@, ") as period_value\n                FROM "@, "\n                WHERE "@, " IS NOT NULL AND "@, " IS NOT NULL\n                GROUP BY DATE_TRUNC('"@, "', "@, ")\n            )\n            SELECT \n                period,\n                period_value,\n                LAG(period_value, "@, ") OVER (ORDER BY period) as previous_period_value,\n                period_value - LAG(period_value, "@, ") OVER (ORDER BY period) as absolute_change,\n                CASE \n                    WHEN LAG(period_value, "@, ") OVER (ORDER BY period) > 0 \n                    THEN (period_value - LAG(period_value, "@, ") OVER (ORDER BY period)) / LAG(period_value, "@, ") OVER (ORDER BY period) * 100\n                    ELSE NULL\n                END as percent_change\n            FROM period_data\n            ORDER BY period\n            "@],
        seq![period_type, time_column, value_column, table, time_column, value_column, period_type, time_column, int_text(lag_value), int_text(lag_value), int_text(lag_value), int_text(lag_value), int_text(lag_value)],
    )
}

/// The text of the query of `generate_moving_average_query`.
pub open spec fn moving_average_sql(table: Seq<char>, value_column: Seq<char>, window_size: int, order_column: Seq<char>) -> Seq<char> {
    render_spec(
        seq!["\n            SELECT *,\n                AVG("@, ") OVER (\n                    ORDER BY "@, " \n                    ROWS BETWEEN "@, " PRECEDING AND CURRENT ROW\n                ) as moving_avg_"@, ",\n                SUM("@, ") OVER (\n                    ORDER BY "@, " \n                    ROWS BETWEEN "@, " PRECEDING AND CURRENT ROW\n                ) as moving_sum_"@, ",\n                COUNT(*) OVER (\n                    ORDER BY "@, " \n                    ROWS BETWEEN "@, " PRECEDING AND CURRENT ROW\n                ) as window_count\n            FROM "@, "\n            ORDER BY "@, "\n            "@],
        seq![value_column, order_column, int_text(window_size), int_text(window_size), value_column, order_column, int_text(window_size), int_text(window_size), order_column, int_text(window_size), table, order_column],
    )
}

/// The text of the query of `generate_cumulative_stats_query`.
pub open spec fn cumulative_stats_sql(table: Seq<char>, value_column: Seq<char>, order_column: Seq<char>) -> Seq<char> {
    render_spec(
        seq!["\n            SELECT *,\n                SUM("@, ") OVER (ORDER BY "@, ") as cumulative_sum,\n                AVG("@, ") OVER (ORDER BY "@, ") as cumulative_avg,\n                COUNT(*) OVER (ORDER BY "@, ") as cumulative_count,\n                MIN("@, ") OVER (ORDER BY "@, ") as running_min,\n                MAX("@, ") OVER (ORDER BY "@, ") as running_max,\n                "@, " - LAG("@, ") OVER (ORDER BY "@, ") as value_diff,\n                ("@, " - LAG("@, ") OVER (ORDER BY "@, ")) / LAG("@, ") OVER (ORDER BY "@, ") * 100 as percent_change\n            FROM "@, "\n            ORDER BY "@, "\n            "@],
        seq![value_column, order_column, value_column, order_column, order_column, value_column, order_column, value_column, order_column, value_column, value_column, order_column, value_column, value_column, order_column, value_column, order_column, table, order_column],
    )
}

/// The text of the query of `generate_time_window_query`.
pub open spec fn time_window_sql(table: Seq<char>, time_column: Seq<char>, value_column: Seq<char>, window_interval: Seq<char>) -> Seq<char> {
    render_spec(
        seq!["\n            SELECT \n                DATE_TRUNC('"@, "', "@, ") as time_window,\n                COUNT(*) as count,\n                SUM("@, ") as sum_value,\n                AVG("@, ") as avg_value,\n                MIN("@, ") as min_value,\n                MAX("@, ") as max_value,\n                STDDEV("@, ") as std_value,\n                SUM("@, ") - LAG(SUM("@, ")) OVER (ORDER BY DATE_TRUNC('"@, "', "@, ")) as period_change\n            FROM "@, "\n            WHERE "@, " IS NOT NULL AND "@, " IS NOT NULL\n            GROUP BY DATE_TRUNC('"@, "', "@, ")\n            ORDER BY time_window\n            "@],
        seq![window_interval, time_column, value_column, value_column, value_column, value_column, value_column, value_column, value_column, window_interval, time_column, table, time_column, value_column, window_interval, time_column],
    )
}
fn concat_str(a: &str, b: &str) -> (s: String)
    ensures
        s@ == a@ + b@,
{
    let mut v = chars_of(a);
    let w = chars_of(b);
    append_chars(&mut v, &w);
    string_of(&v)
}

impl WindowFunctionProcessor {
    /// A processor.
    pub fn new() -> Self {
        WindowFunctionProcessor {}
    }

    /// The ranking query: row number, rank, dense rank and percent rank by `rank_column`, descending,
    /// within the partitions of `partition_columns`.
    pub fn generate_ranking_query(&self, table: &str, rank_column: &str, partition_columns: &[String]) -> (s: String)
        ensures
            s@ == ranking_sql(table@, rank_column@, partition_clause(partition_columns@.map_values(|x: String| x@))),
    {
        let partition = if partition_columns.len() == 0 {
            String::new()
        } else {
            let cols = join_comma(partition_columns);
            concat_str("PARTITION BY ", cols.as_str())
        };
        let pieces: Vec<&str> = vec![
            "\n            SELECT *,\n                ROW_NUMBER() OVER (",
            " ORDER BY ",
            " DESC) as row_num,\n                RANK() OVER (",
            " ORDER BY ",
            " DESC) as rank,\n                DENSE_RANK() OVER (",
            " ORDER BY ",
            " DESC) as dense_rank,\n                PERCENT_RANK() OVER (",
            " ORDER BY ",
            " DESC) as percent_rank\n            FROM ",
            "\n            ORDER BY ",
            " DESC\n            ",
        ];
        let args: Vec<&str> = vec![partition.as_str(), rank_column, partition.as_str(), rank_column, partition.as_str(), rank_column, partition.as_str(), rank_column, table, rank_column];
        proof {
            assert(str_seq_view(pieces@) =~= seq!["\n            SELECT *,\n                ROW_NUMBER() OVER ("@, " ORDER BY "@, " DESC) as row_num,\n                RANK() OVER ("@, " ORDER BY "@, " DESC) as rank,\n                DENSE_RANK() OVER ("@, " ORDER BY "@, " DESC) as dense_rank,\n                PERCENT_RANK() OVER ("@, " ORDER BY "@, " DESC) as percent_rank\n            FROM "@, "\n            ORDER BY "@, " DESC\n            "@]);
            assert(str_seq_view(args@) =~= seq![partition@, rank_column@, partition@, rank_column@, partition@, rank_column@, partition@, rank_column@, table@, rank_column@]);
        }
        render(&pieces, &args)
    }

    /// The query of the `top_n` rows by `rank_column` within each group of `group_columns`.
    pub fn generate_group_ranking_query(&self, table: &str, group_columns: &[String], rank_column: &str, top_n: i32) -> (s: String)
        ensures
            s@ == group_ranking_sql(table@, join_sep(group_columns@.map_values(|x: String| x@), ", "@), rank_column@, top_n as int),
    {
        let group = join_comma(group_columns);
        let n = int_string(top_n as i64);
        let pieces: Vec<&str> = vec![
            "\n            WITH ranked_data AS (\n                SELECT *,\n                    ROW_NUMBER() OVER (PARTITION BY ",
            " ORDER BY ",
            " DESC) as rn\n                FROM ",
            "\n            )\n            SELECT *\n            FROM ranked_data\n            WHERE rn <= ",
            "\n            ORDER BY ",
            ", rn\n            ",
        ];
        let args: Vec<&str> = vec![group.as_str(), rank_column, table, n.as_str(), group.as_str()];
        proof {
            assert(str_seq_view(pieces@) =~= seq!["\n            WITH ranked_data AS (\n                SELECT *,\n                    ROW_NUMBER() OVER (PARTITION BY "@, " ORDER BY "@, " DESC) as rn\n                FROM "@, "\n            )\n            SELECT *\n            FROM ranked_data\n            WHERE rn <= "@, "\n            ORDER BY "@, ", rn\n            "@]);
            assert(str_seq_view(args@) =~= seq![group@, rank_column@, table@, n@, group@]);
        }
        render(&pieces, &args)
    }

    /// The query comparing each period's total with the one `period_lag(period_type)` periods before.
    pub fn generate_period_comparison_query(&self, table: &str, time_column: &str, value_column: &str, period_type: &str) -> (s: String)
        ensures
            s@ == period_comparison_sql(table@, time_column@, value_column@, period_type@, period_lag(period_type@)),
    {
        proof {
            reveal_strlit("month");
            reveal_strlit("quarter");
            reveal_strlit("year");
        }
        let lag: i64 = if str_eq(period_type, "month") {
            1
        } else if str_eq(period_type, "quarter") {
            3
        } else if str_eq(period_type, "year") {
            12
        } else {
            1
        };
        let l = int_string(lag);
        let pieces: Vec<&str> = vec![
            "\n            WITH period_data AS (\n                SELECT \n                    DATE_TRUNC('",
            "', ",
            ") as period,\n                    SUM(",
            ") as period_value\n                FROM ",
            "\n                WHERE ",
            " IS NOT NULL AND ",
            " IS NOT NULL\n                GROUP BY DATE_TRUNC('",
            "', ",
            ")\n            )\n            SELECT \n                period,\n                period_value,\n                LAG(period_value, ",
            ") OVER (ORDER BY period) as previous_period_value,\n                period_value - LAG(period_value, ",
            ") OVER (ORDER BY period) as absolute_change,\n                CASE \n                    WHEN LAG(period_value, ",
            ") OVER (ORDER BY period) > 0 \n                    THEN (period_value - LAG(period_value, ",
            ") OVER (ORDER BY period)) / LAG(period_value, ",
            ") OVER (ORDER BY period) * 100\n                    ELSE NULL\n                END as percent_change\n            FROM period_data\n            ORDER BY period\n            ",
        ];
        let args: Vec<&str> = vec![period_type, time_column, value_column, table, time_column, value_column, period_type, time_column, l.as_str(), l.as_str(), l.as_str(), l.as_str(), l.as_str()];
        proof {
            assert(str_seq_view(pieces@) =~= seq!["\n            WITH period_data AS (\n                SELECT \n                    DATE_TRUNC('"@, "', "@, ") as period,\n                    SUM("@, ") as period_value\n                FROM "@, "\n                WHERE "@, " IS NOT NULL AND "@, " IS NOT NULL\n                GROUP BY DATE_TRUNC('"@, "', "@, ")\n            )\n            SELECT \n                period,\n                period_value,\n                LAG(period_value, "@, ") OVER (ORDER BY period) as previous_period_value,\n                period_value - LAG(period_value, "@, ") OVER (ORDER BY period) as absolute_change,\n                CASE \n                    WHEN LAG(period_value, "@, ") OVER (ORDER BY period) > 0 \n                    THEN (period_value - LAG(period_value, "@, ") OVER (ORDER BY period)) / LAG(period_value, "@, ") OVER (ORDER BY period) * 100\n                    ELSE NULL\n                END as percent_change\n            FROM period_data\n            ORDER BY period\n            "@]);
            assert(str_seq_view(args@) =~= seq![period_type@, time_column@, value_column@, table@, time_column@, value_column@, period_type@, time_column@, l@, l@, l@, l@, l@]);
        }
        render(&pieces, &args)
    }

    /// The moving average, sum and count over windows of `window_size` rows (the current row and
    /// `window_size - 1` before it).
    pub fn generate_moving_average_query(&self, table: &str, value_column: &str, window_size: i32, order_column: &str) -> (s: String)
        ensures
            s@ == moving_average_sql(table@, value_column@, window_size - 1, order_column@),
    {
        let w = int_string(window_size as i64 - 1);
        let pieces: Vec<&str> = vec![
            "\n            SELECT *,\n                AVG(",
            ") OVER (\n                    ORDER BY ",
            " \n                    ROWS BETWEEN ",
            " PRECEDING AND CURRENT ROW\n                ) as moving_avg_",
            ",\n                SUM(",
            ") OVER (\n                    ORDER BY ",
            " \n                    ROWS BETWEEN ",
            " PRECEDING AND CURRENT ROW\n                ) as moving_sum_",
            ",\n                COUNT(*) OVER (\n                    ORDER BY ",
            " \n                    ROWS BETWEEN ",
            " PRECEDING AND CURRENT ROW\n                ) as window_count\n            FROM ",
            "\n            ORDER BY ",
            "\n            ",
        ];
        let args: Vec<&str> = vec![value_column, order_column, w.as_str(), w.as_str(), value_column, order_column, w.as_str(), w.as_str(), order_column, w.as_str(), table, order_column];
        proof {
            assert(str_seq_view(pieces@) =~= seq!["\n            SELECT *,\n                AVG("@, ") OVER (\n                    ORDER BY "@, " \n                    ROWS BETWEEN "@, " PRECEDING AND CURRENT ROW\n                ) as moving_avg_"@, ",\n                SUM("@, ") OVER (\n                    ORDER BY "@, " \n                    ROWS BETWEEN "@, " PRECEDING AND CURRENT ROW\n                ) as moving_sum_"@, ",\n                COUNT(*) OVER (\n                    ORDER BY "@, " \n                    ROWS BETWEEN "@, " PRECEDING AND CURRENT ROW\n                ) as window_count\n            FROM "@, "\n            ORDER BY "@, "\n            "@]);
            assert(str_seq_view(args@) =~= seq![value_column@, order_column@, w@, w@, value_column@, order_column@, w@, w@, order_column@, w@, table@, order_column@]);
        }
        render(&pieces, &args)
    }

    /// The query of running sums, averages, counts, extremes and changes.
    pub fn generate_cumulative_stats_query(&self, table: &str, value_column: &str, order_column: &str) -> (s: String)
        ensures
            s@ == cumulative_stats_sql(table@, value_column@, order_column@),
    {
        let pieces: Vec<&str> = vec![
            "\n            SELECT *,\n                SUM(",
            ") OVER (ORDER BY ",
            ") as cumulative_sum,\n                AVG(",
            ") OVER (ORDER BY ",
            ") as cumulative_avg,\n                COUNT(*) OVER (ORDER BY ",
            ") as cumulative_count,\n                MIN(",
            ") OVER (ORDER BY ",
            ") as running_min,\n                MAX(",
            ") OVER (ORDER BY ",
            ") as running_max,\n                ",
            " - LAG(",
            ") OVER (ORDER BY ",
            ") as value_diff,\n                (",
            " - LAG(",
            ") OVER (ORDER BY ",
            ")) / LAG(",
            ") OVER (ORDER BY ",
            ") * 100 as percent_change\n            FROM ",
            "\n            ORDER BY ",
            "\n            ",
        ];
        let args: Vec<&str> = vec![value_column, order_column, value_column, order_column, order_column, value_column, order_column, value_column, order_column, value_column, value_column, order_column, value_column, value_column, order_column, value_column, order_column, table, order_column];
        proof {
            assert(str_seq_view(pieces@) =~= seq!["\n            SELECT *,\n                SUM("@, ") OVER (ORDER BY "@, ") as cumulative_sum,\n                AVG("@, ") OVER (ORDER BY "@, ") as cumulative_avg,\n                COUNT(*) OVER (ORDER BY "@, ") as cumulative_count,\n                MIN("@, ") OVER (ORDER BY "@, ") as running_min,\n                MAX("@, ") OVER (ORDER BY "@, ") as running_max,\n                "@, " - LAG("@, ") OVER (ORDER BY "@, ") as value_diff,\n                ("@, " - LAG("@, ") OVER (ORDER BY "@, ")) / LAG("@, ") OVER (ORDER BY "@, ") * 100 as percent_change\n            FROM "@, "\n            ORDER BY "@, "\n            "@]);
            assert(str_seq_view(args@) =~= seq![value_column@, order_column@, value_column@, order_column@, order_column@, value_column@, order_column@, value_column@, order_column@, value_column@, value_column@, order_column@, value_column@, value_column@, order_column@, value_column@, order_column@, table@, order_column@]);
        }
        render(&pieces, &args)
    }

    /// The query of statistics per time window of `window_interval`.
    pub fn generate_time_window_query(&self, table: &str, time_column: &str, value_column: &str, window_interval: &str) -> (s: String)
        ensures
            s@ == time_window_sql(table@, time_column@, value_column@, window_interval@),
    {
        let pieces: Vec<&str> = vec![
            "\n            SELECT \n                DATE_TRUNC('",
            "', ",
            ") as time_window,\n                COUNT(*) as count,\n                SUM(",
            ") as sum_value,\n                AVG(",
            ") as avg_value,\n                MIN(",
            ") as min_value,\n                MAX(",
            ") as max_value,\n                STDDEV(",
            ") as std_value,\n                SUM(",
            ") - LAG(SUM(",
            ")) OVER (ORDER BY DATE_TRUNC('",
            "', ",
            ")) as period_change\n            FROM ",
            "\n            WHERE ",
            " IS NOT NULL AND ",
            " IS NOT NULL\n            GROUP BY DATE_TRUNC('",
            "', ",
            ")\n            ORDER BY time_window\n            ",
        ];
        let args: Vec<&str> = vec![window_interval, time_column, value_column, value_column, value_column, value_column, value_column, value_column, value_column, window_interval, time_column, table, time_column, value_column, window_interval, time_column];
        proof {
            assert(str_seq_view(pieces@) =~= seq!["\n            SELECT \n                DATE_TRUNC('"@, "', "@, ") as time_window,\n                COUNT(*) as count,\n                SUM("@, ") as sum_value,\n                AVG("@, ") as avg_value,\n                MIN("@, ") as min_value,\n                MAX("@, ") as max_value,\n                STDDEV("@, ") as std_value,\n                SUM("@, ") - LAG(SUM("@, ")) OVER (ORDER BY DATE_TRUNC('"@, "', "@, ")) as period_change\n            FROM "@, "\n            WHERE "@, " IS NOT NULL AND "@, " IS NOT NULL\n            GROUP BY DATE_TRUNC('"@, "', "@, ")\n            ORDER BY time_window\n            "@]);
            assert(str_seq_view(args@) =~= seq![window_interval@, time_column@, value_column@, value_column@, value_column@, value_column@, value_column@, value_column@, value_column@, window_interval@, time_column@, table@, time_column@, value_column@, window_interval@, time_column@]);
        }
        render(&pieces, &args)
    }

}
/// Whether `s` contains the literal `p`.
fn contains_lit(s: &Vec<char>, p: &str) -> (b: bool)
    ensures
        b == contains_seq(s@, p@),
{
    let pv = chars_of(p);
    contains(s, &pv)
}

/// The message `m` when `cond` holds, else nothing.
pub open spec fn advice(cond: bool, m: Seq<char>) -> Seq<Seq<char>> {
    if cond { seq![m] } else { Seq::empty() }
}

/// The views of a list of strings.
pub open spec fn views(v: Seq<String>) -> Seq<Seq<char>> {
    v.map_values(|x: String| x@)
}

fn push_advice(out: &mut Vec<String>, cond: bool, m: &str)
    ensures
        views(final(out)@) == views(old(out)@) + advice(cond, m@),
{
    if cond {
        out.push(m.to_string());
        assert(views(out@) =~= views(old(out)@) + seq![m@]);
    } else {
        assert(views(out@) =~= views(old(out)@) + Seq::<Seq<char>>::empty());
    }
}

/// The advice given on a window query.
pub open spec fn window_advice(sql: Seq<char>) -> Seq<Seq<char>> {
    let u = upper(sql);
    advice(contains_seq(u, "ROW_NUMBER()"@) && !contains_seq(u, "LIMIT"@), "ROW_NUMBER()查询建议添加LIMIT子句以提高性能"@)
        + advice(count_matches(sql, "OVER"@) > 5, "复杂的多窗口函数查询建议考虑分解为多个步骤"@)
        + advice(contains_seq(u, "PARTITION BY"@) && contains_seq(u, "ORDER BY"@), "确保分区列和排序列上有适当的索引"@)
}

impl WindowFunctionProcessor {
    /// Advice on a window query: add a `LIMIT` to a `ROW_NUMBER()` query, split a
    /// query with more than five `OVER` clauses, index the partition and order
    /// columns.
    pub fn get_window_function_suggestions(&self, sql: &str) -> (v: Vec<String>)
        ensures
            views(v@) == window_advice(sql@),
    {
        proof {
            reveal_strlit("OVER");
        }
        let u = chars_of(to_uppercase(sql).as_str());
        let raw = chars_of(sql);
        let over = chars_of("OVER");
        let mut out: Vec<String> = Vec::new();
        assert(views(out@) =~= Seq::<Seq<char>>::empty());
        let c1 = contains_lit(&u, "ROW_NUMBER()") && !contains_lit(&u, "LIMIT");
        push_advice(&mut out, c1, "ROW_NUMBER()查询建议添加LIMIT子句以提高性能");
        let c2 = count_occurrences(&raw, &over) > 5;
        push_advice(&mut out, c2, "复杂的多窗口函数查询建议考虑分解为多个步骤");
        let c3 = contains_lit(&u, "PARTITION BY") && contains_lit(&u, "ORDER BY");
        push_advice(&mut out, c3, "确保分区列和排序列上有适当的索引");
        assert(views(out@) =~= window_advice(sql@));
        out
    }

    /// A window query as it is run: unchanged.
    pub fn optimize_window_query(&self, sql: &str) -> (s: String)
        ensures
            s@ == sql@,
    {
        sql.to_string()
    }
}

/// Settings of the query analytics service.
#[derive(Debug)]
pub struct QueryAnalyticsConfig {
    /// Entries kept in the result cache.
    pub cache_size: usize,
    /// Query timeout in seconds.
    pub query_timeout: u64,
    /// Worker threads.
    pub parallel_threads: usize,
    /// Seconds between statistics collections.
    pub stats_collection_interval: u64,
    /// Whether queries are optimized.
    pub enable_optimization: bool,
    /// Whether optimized plans are cached.
    pub enable_plan_cache: bool,
}

impl Default for QueryAnalyticsConfig {
    fn default() -> (c: Self)
        ensures
            c.cache_size == 1000,
            c.query_timeout == 300,
            c.parallel_threads == 4,
            c.stats_collection_interval == 60,
            c.enable_optimization,
            c.enable_plan_cache,
    {
        QueryAnalyticsConfig {
            cache_size: 1000,
            query_timeout: 300,
            parallel_threads: 4,
            stats_collection_interval: 60,
            enable_optimization: true,
            enable_plan_cache: true,
        }
    }
}

/// The rewrites the optimizer knows.
#[derive(Debug)]
pub enum OptimizationRule {
    /// Push predicates below joins.
    PredicatePushdown,
    /// Push projections down.
    ProjectionPushdown,
    /// Reorder joins.
    JoinReordering,
    /// Choose indexes.
    IndexSelection,
    /// Prune partitions.
    PartitionPruning,
    /// Fold constant expressions.
    ConstantFolding,
}

/// Constant expressions folded in a query: `1 + 1` to `2`, then `2 * 2` to `4`,
/// `TRUE AND TRUE` to `TRUE` and `FALSE OR FALSE` to `FALSE`, each replacing every
/// occurrence left to right.
pub open spec fn folded(sql: Seq<char>) -> Seq<char> {
    replace_all(
        replace_all(replace_all(replace_all(sql, "1 + 1"@, "2"@), "2 * 2"@, "4"@), "TRUE AND TRUE"@, "TRUE"@),
        "FALSE OR FALSE"@,
        "FALSE"@,
    )
}

/// One of the foldable expressions (`1 + 1`, `2 * 2`, `TRUE AND TRUE`, `FALSE OR FALSE`)
/// starts at index `k` of `s`.
pub open spec fn foldable_at(s: Seq<char>, k: int) -> bool {
    ||| occurs_at(s, "1 + 1"@, k)
    ||| occurs_at(s, "2 * 2"@, k)
    ||| occurs_at(s, "TRUE AND TRUE"@, k)
    ||| occurs_at(s, "FALSE OR FALSE"@, k)
}

proof fn lemma_lone_occurrence(p: Seq<char>, e: Seq<char>, q: Seq<char>, pat: Seq<char>)
    requires
        e.len() > 0,
        pat.len() > 0,
        forall|k: int| occurs_at(p + e + q, pat, k) ==> k == p.len(),
    ensures
        pat[0] != e[0] ==> !contains_seq(p + e + q, pat),
        pat == e ==> !contains_seq(q, pat) && forall|k: int| 0 <= k < p.len() ==> !occurs_at(p + e + q, pat, k),
{
    let s = p + e + q;
    if pat[0] != e[0] {
        assert forall|k: int| !occurs_at(s, pat, k) by {
            if occurs_at(s, pat, k) {
                assert(s.subrange(k, k + pat.len())[0] == s[k]);
            }
        }
    }
    if pat == e {
        assert forall|j: int| !occurs_at(q, pat, j) by {
            if occurs_at(q, pat, j) {
                let k = p.len() + e.len() + j;
                assert(s.subrange(k, k + pat.len()) =~= q.subrange(j, j + pat.len()));
                assert(occurs_at(s, pat, k));
            }
        }
    }
}

/// Constant folding keeps the value of what it folds: `1 + 1` becomes `2`, `2 * 2`
/// becomes `4`, `TRUE AND TRUE` becomes `TRUE` and `FALSE OR FALSE` becomes `FALSE`,
/// wherever the expression `e` stands in a query `p + e + q`, as long as no other
/// foldable expression starts anywhere in the query and none is left once `e` is folded.
pub proof fn lemma_constant_folding_keeps_values(p: Seq<char>, e: Seq<char>, v: Seq<char>, q: Seq<char>)
    requires
        (e == "1 + 1"@ && v == "2"@) || (e == "2 * 2"@ && v == "4"@) || (e == "TRUE AND TRUE"@ && v == "TRUE"@)
            || (e == "FALSE OR FALSE"@ && v == "FALSE"@),
        forall|k: int| #[trigger] foldable_at(p + e + q, k) ==> k == p.len(),
        forall|k: int| !#[trigger] foldable_at(p + v + q, k),
    ensures
        folded(p + e + q) == p + v + q,
{
    reveal_strlit("1 + 1");
    reveal_strlit("2");
    reveal_strlit("2 * 2");
    reveal_strlit("4");
    reveal_strlit("TRUE AND TRUE");
    reveal_strlit("TRUE");
    reveal_strlit("FALSE OR FALSE");
    reveal_strlit("FALSE");
    let s = p + e + q;
    let t = p + v + q;
    let pats = seq!["1 + 1"@, "2 * 2"@, "TRUE AND TRUE"@, "FALSE OR FALSE"@];
    assert forall|i: int| 0 <= i < 4 implies {
        &&& (pats[i])[0] != e[0] ==> !contains_seq(s, pats[i])
        &&& pats[i] == e ==> !contains_seq(q, pats[i]) && forall|k: int| 0 <= k < p.len() ==> !occurs_at(s, pats[i], k)
        &&& !contains_seq(t, pats[i])
    } by {
        assert forall|k: int| occurs_at(s, pats[i], k) implies k == p.len() by {
            assert(foldable_at(s, k));
        }
        lemma_lone_occurrence(p, e, q, pats[i]);
        assert forall|k: int| !occurs_at(t, pats[i], k) by {
            assert(!foldable_at(t, k));
        }
    }
    assert(pats[0] == "1 + 1"@ && pats[1] == "2 * 2"@ && pats[2] == "TRUE AND TRUE"@ && pats[3] == "FALSE OR FALSE"@);
    if e == "1 + 1"@ {
        lemma_replace_all_once(p, e, v, q);
        lemma_replace_all_absent(t, "2 * 2"@, "4"@);
        lemma_replace_all_absent(t, "TRUE AND TRUE"@, "TRUE"@);
        lemma_replace_all_absent(t, "FALSE OR FALSE"@, "FALSE"@);
    } else if e == "2 * 2"@ {
        lemma_replace_all_absent(s, "1 + 1"@, "2"@);
        lemma_replace_all_once(p, e, v, q);
        lemma_replace_all_absent(t, "TRUE AND TRUE"@, "TRUE"@);
        lemma_replace_all_absent(t, "FALSE OR FALSE"@, "FALSE"@);
    } else if e == "TRUE AND TRUE"@ {
        lemma_replace_all_absent(s, "1 + 1"@, "2"@);
        lemma_replace_all_absent(s, "2 * 2"@, "4"@);
        lemma_replace_all_once(p, e, v, q);
        lemma_replace_all_absent(t, "FALSE OR FALSE"@, "FALSE"@);
    } else {
        lemma_replace_all_absent(s, "1 + 1"@, "2"@);
        lemma_replace_all_absent(s, "2 * 2"@, "4"@);
        lemma_replace_all_absent(s, "TRUE AND TRUE"@, "TRUE"@);
        lemma_replace_all_once(p, e, v, q);
    }
}

/// The advice given on a query.
pub open spec fn query_advice(sql: Seq<char>) -> Seq<Seq<char>> {
    let u = upper(sql);
    advice(contains_seq(u, "SELECT *"@), "建议明确指定需要的列名，避免使用SELECT *"@)
        + advice(contains_seq(u, "ORDER BY"@) && !contains_seq(u, "LIMIT"@), "ORDER BY查询建议添加LIMIT子句以提高性能"@)
        + advice(count_matches(sql, "JOIN"@) > 3, "复杂的多表连接建议考虑分解为多个简单查询"@)
}

/// The query optimizer: a pipeline of rewrites with a cache of optimized plans.
#[derive(Debug)]
pub struct QueryOptimizer {
    config: QueryAnalyticsConfig,
    plan_cache: Vec<(String, String)>,
}

fn replace_lit(s: &Vec<char>, from: &str, to: &str) -> (r: Vec<char>)
    requires
        from@.len() > 0,
    ensures
        r@ == replace_all(s@, from@, to@),
{
    let f = chars_of(from);
    let t = chars_of(to);
    replace_chars(s, &f, &t)
}

impl QueryOptimizer {
    /// The cached plans: query text and optimized text.
    pub closed spec fn cache(&self) -> Seq<(Seq<char>, Seq<char>)> {
        self.plan_cache@.map_values(|e: (String, String)| (e.0@, e.1@))
    }

    /// Whether the plan cache is used.
    pub closed spec fn caching(&self) -> bool {
        self.config.enable_plan_cache
    }

    /// An optimizer with an empty plan cache.
    pub fn new(config: QueryAnalyticsConfig) -> (o: Self)
        ensures
            o.cache().len() == 0,
            o.caching() == config.enable_plan_cache,
    {
        let o = QueryOptimizer { config, plan_cache: Vec::new() };
        assert(o.cache() =~= Seq::empty());
        o
    }

    /// Folds constant expressions (see `folded`).
    pub fn apply_constant_folding(&self, sql: &str) -> (s: String)
        ensures
            s@ == folded(sql@),
    {
        proof {
            reveal_strlit("1 + 1");
            reveal_strlit("2 * 2");
            reveal_strlit("TRUE AND TRUE");
            reveal_strlit("FALSE OR FALSE");
        }
        let v = chars_of(sql);
        let v = replace_lit(&v, "1 + 1", "2");
        let v = replace_lit(&v, "2 * 2", "4");
        let v = replace_lit(&v, "TRUE AND TRUE", "TRUE");
        let v = replace_lit(&v, "FALSE OR FALSE", "FALSE");
        string_of(&v)
    }

    /// Optimizes a query: a cached plan is reused when the plan cache is on;
    /// otherwise predicate and projection pushdown (which leave the text as it is)
    /// and constant folding are applied.
    pub fn optimize_query(&self, sql: &str) -> (s: String)
        ensures
            self.caching() && (exists|i: int| 0 <= i < self.cache().len() && (#[trigger] self.cache()[i]).0 == sql@)
                ==> exists|i: int| 0 <= i < self.cache().len() && (#[trigger] self.cache()[i]).0 == sql@ && s@
                == self.cache()[i].1,
            !(self.caching() && (exists|i: int| 0 <= i < self.cache().len() && (#[trigger] self.cache()[i]).0 == sql@))
                ==> s@ == folded(sql@),
    {
        if self.config.enable_plan_cache {
            let mut i: usize = 0;
            while i < self.plan_cache.len()
                invariant
                    i <= self.plan_cache@.len(),
                    self.caching(),
                    forall|j: int| 0 <= j < i ==> (#[trigger] self.cache()[j]).0 != sql@,
                decreases self.plan_cache.len() - i,
            {
                if str_eq(self.plan_cache[i].0.as_str(), sql) {
                    let hit = self.plan_cache[i].1.clone();
                    assert(self.cache()[i as int].0 == sql@);
                    return hit;
                }
                i = i + 1;
            }
        }
        self.apply_constant_folding(sql)
    }

    /// Advice on a query: name the columns instead of `SELECT *`, add a `LIMIT`
    /// to an ordered query, split joins of more than three tables.
    pub fn get_optimization_suggestions(&self, sql: &str) -> (v: Vec<String>)
        ensures
            views(v@) == query_advice(sql@),
    {
        proof {
            reveal_strlit("JOIN");
        }
        let u = chars_of(to_uppercase(sql).as_str());
        let raw = chars_of(sql);
        let join = chars_of("JOIN");
        let mut out: Vec<String> = Vec::new();
        assert(views(out@) =~= Seq::<Seq<char>>::empty());
        let c1 = contains_lit(&u, "SELECT *");
        push_advice(&mut out, c1, "建议明确指定需要的列名，避免使用SELECT *");
        let c2 = contains_lit(&u, "ORDER BY") && !contains_lit(&u, "LIMIT");
        push_advice(&mut out, c2, "ORDER BY查询建议添加LIMIT子句以提高性能");
        let c3 = count_occurrences(&raw, &join) > 3;
        push_advice(&mut out, c3, "复杂的多表连接建议考虑分解为多个简单查询");
        assert(views(out@) =~= query_advice(sql@));
        out
    }
}

} // verus!
