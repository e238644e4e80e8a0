//! The complex analyses: statistics, linear trend, anomalies by z-score and
//! correlation, and the regression and clustering models. Each reads named
//! parameters, refuses a missing or malformed one with a message, and builds
//! the query that the engine runs.
use vstd::prelude::*;
use crate::analytics::{render, render_spec, str_seq_view};
use crate::text::{chars_of, string_of, str_eq};
use crate::format::append_chars;

verus! {

/// The text of the query of the statistical analysis.
pub open spec fn statistical_sql(table: Seq<char>, column: Seq<char>) -> Seq<char> {
    render_spec(
        seq!["\n            SELECT \n                AVG("@, ") as mean,\n                MEDIAN("@, ") as median,\n                STDDEV("@, ") as std_dev,\n                MIN("@, ") as min_value,\n                MAX("@, ") as max_value,\n                PERCENTILE_CONT(0.25) WITHIN GROUP (ORDER BY "@, ") as q1,\n                PERCENTILE_CONT(0.75) WITHIN GROUP (ORDER BY "@, ") as q3\n            FROM "@, "\n            WHERE "@, " IS NOT NULL\n            "@],
        seq![column, column, column, column, column, column, column, table, column],
    )
}

/// The text of the query of the trend analysis.
pub open spec fn linear_trend_sql(table: Seq<char>, time_column: Seq<char>, value_column: Seq<char>) -> Seq<char> {
    render_spec(
        seq!["\n            WITH trend_data AS (\n                SELECT \n                    "@, ",\n                    "@, ",\n                    ROW_NUMBER() OVER (ORDER BY "@, ") as x\n                FROM "@, "\n                WHERE "@, " IS NOT NULL AND "@, " IS NOT NULL\n                ORDER BY "@, "\n            ),\n            trend_stats AS (\n                SELECT \n                    COUNT(*) as n,\n                    SUM(x) as sum_x,\n                    SUM("@, ") as sum_y,\n                    SUM(x * "@, ") as sum_xy,\n                    SUM(x * x) as sum_x2\n                FROM trend_data\n            )\n            SELECT \n                (n * sum_xy - sum_x * sum_y) / (n * sum_x2 - sum_x * sum_x) as slope,\n                (sum_y - ((n * sum_xy - sum_x * sum_y) / (n * sum_x2 - sum_x * sum_x)) * sum_x) / n as intercept,\n                CORR(x, "@, ") as correlation\n            FROM trend_data, trend_stats\n            GROUP BY n, sum_x, sum_y, sum_xy, sum_x2\n            "@],
        seq![time_column, value_column, time_column, table, time_column, value_column, time_column, value_column, value_column, value_column],
    )
}

/// The text of the query of the anomaly detection.
pub open spec fn zscore_anomaly_sql(table: Seq<char>, column: Seq<char>, threshold: Seq<char>) -> Seq<char> {
    render_spec(
        seq!["\n            WITH stats AS (\n                SELECT \n                    AVG("@, ") as mean,\n                    STDDEV("@, ") as std_dev\n                FROM "@, "\n                WHERE "@, " IS NOT NULL\n            ),\n            anomalies AS (\n                SELECT \n                    *,\n                    ABS(("@, " - stats.mean) / stats.std_dev) as z_score\n                FROM "@, ", stats\n                WHERE "@, " IS NOT NULL\n                AND ABS(("@, " - stats.mean) / stats.std_dev) > "@, "\n            )\n            SELECT \n                *,\n                CASE \n                    WHEN z_score > "@, " THEN '高于正常范围'\n                    WHEN z_score < -"@, " THEN '低于正常范围'\n                    ELSE '正常'\n                END as anomaly_type\n            FROM anomalies\n            ORDER BY z_score DESC\n            "@],
        seq![column, column, table, column, column, table, column, column, threshold, threshold, threshold],
    )
}

/// The text of the query of the correlation analysis.
pub open spec fn correlation_sql(table: Seq<char>, column1: Seq<char>, column2: Seq<char>) -> Seq<char> {
    render_spec(
        seq!["\n            SELECT \n                '"@, "' as column1,\n                '"@, "' as column2,\n                CORR("@, ", "@, ") as correlation,\n                COUNT(*) as sample_size,\n                AVG("@, ") as mean1,\n                AVG("@, ") as mean2,\n                STDDEV("@, ") as std1,\n                STDDEV("@, ") as std2\n            FROM "@, "\n            WHERE "@, " IS NOT NULL AND "@, " IS NOT NULL\n            "@],
        seq![column1, column2, column1, column2, column1, column2, column1, column2, table, column1, column2],
    )
}

/// The text of the query of the linear regression.
pub open spec fn regression_sql(table: Seq<char>, x_column: Seq<char>, y_column: Seq<char>) -> Seq<char> {
    render_spec(
        seq!["\n            WITH regression_data AS (\n                SELECT \n                    "@, " as x,\n                    "@, " as y\n                FROM "@, "\n                WHERE "@, " IS NOT NULL AND "@, " IS NOT NULL\n            ),\n            regression_stats AS (\n                SELECT \n                    COUNT(*) as n,\n                    SUM(x) as sum_x,\n                    SUM(y) as sum_y,\n                    SUM(x * y) as sum_xy,\n                    SUM(x * x) as sum_x2,\n                    SUM(y * y) as sum_y2,\n                    AVG(x) as mean_x,\n                    AVG(y) as mean_y\n                FROM regression_data\n            )\n            SELECT \n                (n * sum_xy - sum_x * sum_y) / (n * sum_x2 - sum_x * sum_x) as slope,\n                (sum_y - ((n * sum_xy - sum_x * sum_y) / (n * sum_x2 - sum_x * sum_x)) * sum_x) / n as intercept,\n                (n * sum_xy - sum_x * sum_y) / SQRT((n * sum_x2 - sum_x * sum_x) * (n * sum_y2 - sum_y * sum_y)) as r_squared,\n                n as sample_size\n            FROM regression_stats\n            "@],
        seq![x_column, y_column, table, x_column, y_column],
    )
}

/// The text of the query of the clustering.
pub open spec fn clustering_sql(table: Seq<char>, column: Seq<char>) -> Seq<char> {
    render_spec(
        seq!["\n            WITH quantiles AS (\n                SELECT \n                    PERCENTILE_CONT(0.33) WITHIN GROUP (ORDER BY "@, ") as q1,\n                    PERCENTILE_CONT(0.67) WITHIN GROUP (ORDER BY "@, ") as q2\n                FROM "@, "\n                WHERE "@, " IS NOT NULL\n            )\n            SELECT \n                *,\n                CASE \n                    WHEN "@, " <= q1 THEN 'Cluster_1'\n                    WHEN "@, " <= q2 THEN 'Cluster_2'\n                    ELSE 'Cluster_3'\n                END as cluster\n            FROM "@, ", quantiles\n            WHERE "@, " IS NOT NULL\n            "@],
        seq![column, column, table, column, column, column, table, column],
    )
}

/// A parameter of an analysis, as far as the analyses read it.
#[derive(Debug, Clone)]
pub enum ParamValue {
    /// A string.
    Text(String),
    /// A number, by the decimal text of its value as a floating-point number.
    Number(String),
    /// An array: each item's string, or `None` for an item that is no string.
    Items(Vec<Option<String>>),
    /// Any other value: null, a boolean or an object.
    Other,
}

/// A refused analysis, with the message that says why.
#[derive(Debug, Clone)]
pub struct AnalysisError {
    pub message: String,
}

/// The query that an analysis runs, with the label of its plan.
#[derive(Debug, Clone)]
pub struct AnalysisQuery {
    pub sql: String,
    pub execution_plan: String,
}

/// The value given for `key`: that of its first entry.
pub open spec fn lookup(params: Seq<(String, ParamValue)>, key: Seq<char>) -> Option<ParamValue>
    decreases params.len(),
{
    if params.len() == 0 {
        None
    } else if params[0].0@ == key {
        Some(params[0].1)
    } else {
        lookup(params.drop_first(), key)
    }
}

/// The string given for `key`, if one is.
pub open spec fn text_param(params: Seq<(String, ParamValue)>, key: Seq<char>) -> Option<Seq<char>> {
    match lookup(params, key) {
        Some(ParamValue::Text(s)) => Some(s@),
        _ => None,
    }
}

/// The array given for `key`, if one is.
pub open spec fn items_param(params: Seq<(String, ParamValue)>, key: Seq<char>) -> Option<Seq<Option<String>>> {
    match lookup(params, key) {
        Some(ParamValue::Items(v)) => Some(v@),
        _ => None,
    }
}

/// The text of the z-score bound: the number given as `threshold`, 2 when none is.
pub open spec fn threshold_text(params: Seq<(String, ParamValue)>) -> Seq<char> {
    match lookup(params, "threshold"@) {
        Some(ParamValue::Number(t)) => t@,
        _ => "2"@,
    }
}

/// The message for a parameter that is missing or of the wrong kind.
pub open spec fn missing_message(name: Seq<char>) -> Seq<char> {
    "缺少"@ + name + "参数"@
}

/// The message for a correlation over fewer than two columns.
pub open spec fn too_few_columns_message() -> Seq<char> {
    "至少需要2个列进行相关性分析"@
}

/// The message for a column name that is no string.
pub open spec fn invalid_column_message() -> Seq<char> {
    "无效的列名"@
}

/// The string of an array item, if it is one.
pub open spec fn item_text(item: Option<String>) -> Option<Seq<char>> {
    match item {
        Some(s) => Some(s@),
        None => None,
    }
}

/// The outcome of the statistical analysis: its query or the message of its refusal.
pub open spec fn statistical_outcome(p: Seq<(String, ParamValue)>) -> Result<Seq<char>, Seq<char>> {
    match (text_param(p, "table"@), text_param(p, "column"@)) {
        (None, _) => Err(missing_message("table"@)),
        (Some(_), None) => Err(missing_message("column"@)),
        (Some(t), Some(c)) => Ok(statistical_sql(t, c)),
    }
}

/// The outcome of the trend analysis.
pub open spec fn trend_outcome(p: Seq<(String, ParamValue)>) -> Result<Seq<char>, Seq<char>> {
    match (text_param(p, "table"@), text_param(p, "time_column"@), text_param(p, "value_column"@)) {
        (None, _, _) => Err(missing_message("table"@)),
        (Some(_), None, _) => Err(missing_message("time_column"@)),
        (Some(_), Some(_), None) => Err(missing_message("value_column"@)),
        (Some(t), Some(x), Some(y)) => Ok(linear_trend_sql(t, x, y)),
    }
}

/// The outcome of the anomaly detection.
pub open spec fn anomaly_outcome(p: Seq<(String, ParamValue)>) -> Result<Seq<char>, Seq<char>> {
    match (text_param(p, "table"@), text_param(p, "column"@)) {
        (None, _) => Err(missing_message("table"@)),
        (Some(_), None) => Err(missing_message("column"@)),
        (Some(t), Some(c)) => Ok(zscore_anomaly_sql(t, c, threshold_text(p))),
    }
}

/// The outcome of the correlation analysis of the first two columns given.
pub open spec fn correlation_outcome(p: Seq<(String, ParamValue)>) -> Result<Seq<char>, Seq<char>> {
    match (text_param(p, "table"@), items_param(p, "columns"@)) {
        (None, _) => Err(missing_message("table"@)),
        (Some(_), None) => Err(missing_message("columns"@)),
        (Some(t), Some(items)) => if items.len() < 2 {
            Err(too_few_columns_message())
        } else {
            match (item_text(items[0]), item_text(items[1])) {
                (Some(a), Some(b)) => Ok(correlation_sql(t, a, b)),
                _ => Err(invalid_column_message()),
            }
        },
    }
}

/// The outcome of the linear regression.
pub open spec fn regression_outcome(p: Seq<(String, ParamValue)>) -> Result<Seq<char>, Seq<char>> {
    match (text_param(p, "table"@), text_param(p, "x_column"@), text_param(p, "y_column"@)) {
        (None, _, _) => Err(missing_message("table"@)),
        (Some(_), None, _) => Err(missing_message("x_column"@)),
        (Some(_), Some(_), None) => Err(missing_message("y_column"@)),
        (Some(t), Some(x), Some(y)) => Ok(regression_sql(t, x, y)),
    }
}

/// Whether the clustering would read the first of no columns.
pub open spec fn clustering_panics(p: Seq<(String, ParamValue)>) -> bool {
    &&& text_param(p, "table"@) is Some
    &&& items_param(p, "columns"@) matches Some(items) && items.len() == 0
}

/// The outcome of the clustering by the first column given.
pub open spec fn clustering_outcome(p: Seq<(String, ParamValue)>) -> Result<Seq<char>, Seq<char>> {
    match (text_param(p, "table"@), items_param(p, "columns"@)) {
        (None, _) => Err(missing_message("table"@)),
        (Some(_), None) => Err(missing_message("columns"@)),
        (Some(t), Some(items)) => match item_text(items[0]) {
            Some(c) => Ok(clustering_sql(t, c)),
            None => Err(invalid_column_message()),
        },
    }
}

/// The outcome of an analysis by its kind.
pub open spec fn analysis_outcome(kind: Seq<char>, p: Seq<(String, ParamValue)>) -> Result<Seq<char>, Seq<char>> {
    if kind == "statistical"@ {
        statistical_outcome(p)
    } else if kind == "trend"@ {
        trend_outcome(p)
    } else if kind == "anomaly_detection"@ {
        anomaly_outcome(p)
    } else if kind == "correlation"@ {
        correlation_outcome(p)
    } else {
        Err("不支持的分析类型: "@ + kind)
    }
}

/// The outcome of a model by its kind.
pub open spec fn model_outcome(kind: Seq<char>, p: Seq<(String, ParamValue)>) -> Result<Seq<char>, Seq<char>> {
    if kind == "linear_regression"@ {
        regression_outcome(p)
    } else if kind == "clustering"@ {
        clustering_outcome(p)
    } else {
        Err("不支持的ML模型: "@ + kind)
    }
}

/// The query or the message of a result.
pub open spec fn outcome_of(r: Result<String, AnalysisError>) -> Result<Seq<char>, Seq<char>> {
    match r {
        Ok(s) => Ok(s@),
        Err(e) => Err(e.message@),
    }
}

fn concat_text(a: &str, b: &str, c: &str) -> (s: String)
    ensures
        s@ == a@ + b@ + c@,
{
    let mut v = chars_of(a);
    append_chars(&mut v, &chars_of(b));
    append_chars(&mut v, &chars_of(c));
    string_of(&v)
}

fn join_text(a: &str, b: &str) -> (s: String)
    ensures
        s@ == a@ + b@,
{
    let mut v = chars_of(a);
    append_chars(&mut v, &chars_of(b));
    string_of(&v)
}

fn refusal(message: String) -> (e: AnalysisError)
    ensures
        e.message@ == message@,
{
    AnalysisError { message }
}

/// The position of the first entry for `key`.
fn find_param(params: &Vec<(String, ParamValue)>, key: &str) -> (r: Option<usize>)
    ensures
        match r {
            Some(i) => i < params@.len() && lookup(params@, key@) == Some(params@[i as int].1),
            None => lookup(params@, key@) is None,
        },
{
    let mut i: usize = 0;
    assert(params@.subrange(0, params@.len() as int) =~= params@);
    while i < params.len()
        invariant
            i <= params@.len(),
            lookup(params@, key@) == lookup(params@.subrange(i as int, params@.len() as int), key@),
        decreases params.len() - i,
    {
        proof {
            let rest = params@.subrange(i as int, params@.len() as int);
            assert(rest[0] == params@[i as int]);
            assert(rest.drop_first() =~= params@.subrange(i + 1, params@.len() as int));
        }
        if str_eq(params[i].0.as_str(), key) {
            return Some(i);
        }
        i = i + 1;
    }
    None
}

/// The string given for `key`.
fn text_at<'a>(params: &'a Vec<(String, ParamValue)>, key: &str) -> (r: Option<&'a str>)
    ensures
        match r {
            Some(s) => text_param(params@, key@) == Some(s@),
            None => text_param(params@, key@) is None,
        },
{
    match find_param(params, key) {
        Some(i) => match &params[i].1 {
            ParamValue::Text(s) => Some(s.as_str()),
            _ => None,
        },
        None => None,
    }
}

/// The array given for `key`.
fn items_at<'a>(params: &'a Vec<(String, ParamValue)>, key: &str) -> (r: Option<&'a Vec<Option<String>>>)
    ensures
        match r {
            Some(v) => items_param(params@, key@) == Some(v@),
            None => items_param(params@, key@) is None,
        },
{
    match find_param(params, key) {
        Some(i) => match &params[i].1 {
            ParamValue::Items(v) => Some(v),
            _ => None,
        },
        None => None,
    }
}

/// The string of an array item.
fn item_at<'a>(item: &'a Option<String>) -> (r: Option<&'a str>)
    ensures
        match r {
            Some(s) => item_text(*item) == Some(s@),
            None => item_text(*item) is None,
        },
{
    match item {
        Some(s) => Some(s.as_str()),
        None => None,
    }
}

fn missing(name: &str) -> (e: AnalysisError)
    ensures
        e.message@ == missing_message(name@),
{
    refusal(concat_text("缺少", name, "参数"))
}

fn statistical_query(table: &str, column: &str) -> (s: String)
    ensures
        s@ == statistical_sql(table@, column@),
{
    let pieces: Vec<&str> = vec![
        "\n            SELECT \n                AVG(",
        ") as mean,\n                MEDIAN(",
        ") as median,\n                STDDEV(",
        ") as std_dev,\n                MIN(",
        ") as min_value,\n                MAX(",
        ") as max_value,\n                PERCENTILE_CONT(0.25) WITHIN GROUP (ORDER BY ",
        ") as q1,\n                PERCENTILE_CONT(0.75) WITHIN GROUP (ORDER BY ",
        ") as q3\n            FROM ",
        "\n            WHERE ",
        " IS NOT NULL\n            ",
    ];
    let args: Vec<&str> = vec![column, column, column, column, column, column, column, table, column];
    proof {
        assert(str_seq_view(pieces@) =~= seq!["\n            SELECT \n                AVG("@, ") as mean,\n                MEDIAN("@, ") as median,\n                STDDEV("@, ") as std_dev,\n                MIN("@, ") as min_value,\n                MAX("@, ") as max_value,\n                PERCENTILE_CONT(0.25) WITHIN GROUP (ORDER BY "@, ") as q1,\n                PERCENTILE_CONT(0.75) WITHIN GROUP (ORDER BY "@, ") as q3\n            FROM "@, "\n            WHERE "@, " IS NOT NULL\n            "@]);
        assert(str_seq_view(args@) =~= seq![column@, column@, column@, column@, column@, column@, column@, table@, column@]);
    }
    render(&pieces, &args)
}

fn linear_trend_query(table: &str, time_column: &str, value_column: &str) -> (s: String)
    ensures
        s@ == linear_trend_sql(table@, time_column@, value_column@),
{
    let pieces: Vec<&str> = vec![
        "\n            WITH trend_data AS (\n                SELECT \n                    ",
        ",\n                    ",
        ",\n                    ROW_NUMBER() OVER (ORDER BY ",
        ") as x\n                FROM ",
        "\n                WHERE ",
        " IS NOT NULL AND ",
        " IS NOT NULL\n                ORDER BY ",
        "\n            ),\n            trend_stats AS (\n                SELECT \n                    COUNT(*) as n,\n                    SUM(x) as sum_x,\n                    SUM(",
        ") as sum_y,\n                    SUM(x * ",
        ") as sum_xy,\n                    SUM(x * x) as sum_x2\n                FROM trend_data\n            )\n            SELECT \n                (n * sum_xy - sum_x * sum_y) / (n * sum_x2 - sum_x * sum_x) as slope,\n                (sum_y - ((n * sum_xy - sum_x * sum_y) / (n * sum_x2 - sum_x * sum_x)) * sum_x) / n as intercept,\n                CORR(x, ",
        ") as correlation\n            FROM trend_data, trend_stats\n            GROUP BY n, sum_x, sum_y, sum_xy, sum_x2\n            ",
    ];
    let args: Vec<&str> = vec![time_column, value_column, time_column, table, time_column, value_column, time_column, value_column, value_column, value_column];
    proof {
        assert(str_seq_view(pieces@) =~= seq!["\n            WITH trend_data AS (\n                SELECT \n                    "@, ",\n                    "@, ",\n                    ROW_NUMBER() OVER (ORDER BY "@, ") as x\n                FROM "@, "\n                WHERE "@, " IS NOT NULL AND "@, " IS NOT NULL\n                ORDER BY "@, "\n            ),\n            trend_stats AS (\n                SELECT \n                    COUNT(*) as n,\n                    SUM(x) as sum_x,\n                    SUM("@, ") as sum_y,\n                    SUM(x * "@, ") as sum_xy,\n                    SUM(x * x) as sum_x2\n                FROM trend_data\n            )\n            SELECT \n                (n * sum_xy - sum_x * sum_y) / (n * sum_x2 - sum_x * sum_x) as slope,\n                (sum_y - ((n * sum_xy - sum_x * sum_y) / (n * sum_x2 - sum_x * sum_x)) * sum_x) / n as intercept,\n                CORR(x, "@, ") as correlation\n            FROM trend_data, trend_stats\n            GROUP BY n, sum_x, sum_y, sum_xy, sum_x2\n            "@]);
        assert(str_seq_view(args@) =~= seq![time_column@, value_column@, time_column@, table@, time_column@, value_column@, time_column@, value_column@, value_column@, value_column@]);
    }
    render(&pieces, &args)
}

fn zscore_anomaly_query(table: &str, column: &str, threshold: &str) -> (s: String)
    ensures
        s@ == zscore_anomaly_sql(table@, column@, threshold@),
{
    let pieces: Vec<&str> = vec![
        "\n            WITH stats AS (\n                SELECT \n                    AVG(",
        ") as mean,\n                    STDDEV(",
        ") as std_dev\n                FROM ",
        "\n                WHERE ",
        " IS NOT NULL\n            ),\n            anomalies AS (\n                SELECT \n                    *,\n                    ABS((",
        " - stats.mean) / stats.std_dev) as z_score\n                FROM ",
        ", stats\n                WHERE ",
        " IS NOT NULL\n                AND ABS((",
        " - stats.mean) / stats.std_dev) > ",
        "\n            )\n            SELECT \n                *,\n                CASE \n                    WHEN z_score > ",
        " THEN '高于正常范围'\n                    WHEN z_score < -",
        " THEN '低于正常范围'\n                    ELSE '正常'\n                END as anomaly_type\n            FROM anomalies\n            ORDER BY z_score DESC\n            ",
    ];
    let args: Vec<&str> = vec![column, column, table, column, column, table, column, column, threshold, threshold, threshold];
    proof {
        assert(str_seq_view(pieces@) =~= seq!["\n            WITH stats AS (\n                SELECT \n                    AVG("@, ") as mean,\n                    STDDEV("@, ") as std_dev\n                FROM "@, "\n                WHERE "@, " IS NOT NULL\n            ),\n            anomalies AS (\n                SELECT \n                    *,\n                    ABS(("@, " - stats.mean) / stats.std_dev) as z_score\n                FROM "@, ", stats\n                WHERE "@, " IS NOT NULL\n                AND ABS(("@, " - stats.mean) / stats.std_dev) > "@, "\n            )\n            SELECT \n                *,\n                CASE \n                    WHEN z_score > "@, " THEN '高于正常范围'\n                    WHEN z_score < -"@, " THEN '低于正常范围'\n                    ELSE '正常'\n                END as anomaly_type\n            FROM anomalies\n            ORDER BY z_score DESC\n            "@]);
        assert(str_seq_view(args@) =~= seq![column@, column@, table@, column@, column@, table@, column@, column@, threshold@, threshold@, threshold@]);
    }
    render(&pieces, &args)
}

fn correlation_query(table: &str, column1: &str, column2: &str) -> (s: String)
    ensures
        s@ == correlation_sql(table@, column1@, column2@),
{
    let pieces: Vec<&str> = vec![
        "\n            SELECT \n                '",
        "' as column1,\n                '",
        "' as column2,\n                CORR(",
        ", ",
        ") as correlation,\n                COUNT(*) as sample_size,\n                AVG(",
        ") as mean1,\n                AVG(",
        ") as mean2,\n                STDDEV(",
        ") as std1,\n                STDDEV(",
        ") as std2\n            FROM ",
        "\n            WHERE ",
        " IS NOT NULL AND ",
        " IS NOT NULL\n            ",
    ];
    let args: Vec<&str> = vec![column1, column2, column1, column2, column1, column2, column1, column2, table, column1, column2];
    proof {
        assert(str_seq_view(pieces@) =~= seq!["\n            SELECT \n                '"@, "' as column1,\n                '"@, "' as column2,\n                CORR("@, ", "@, ") as correlation,\n                COUNT(*) as sample_size,\n                AVG("@, ") as mean1,\n                AVG("@, ") as mean2,\n                STDDEV("@, ") as std1,\n                STDDEV("@, ") as std2\n            FROM "@, "\n            WHERE "@, " IS NOT NULL AND "@, " IS NOT NULL\n            "@]);
        assert(str_seq_view(args@) =~= seq![column1@, column2@, column1@, column2@, column1@, column2@, column1@, column2@, table@, column1@, column2@]);
    }
    render(&pieces, &args)
}

fn regression_query(table: &str, x_column: &str, y_column: &str) -> (s: String)
    ensures
        s@ == regression_sql(table@, x_column@, y_column@),
{
    let pieces: Vec<&str> = vec![
        "\n            WITH regression_data AS (\n                SELECT \n                    ",
        " as x,\n                    ",
        " as y\n                FROM ",
        "\n                WHERE ",
        " IS NOT NULL AND ",
        " IS NOT NULL\n            ),\n            regression_stats AS (\n                SELECT \n                    COUNT(*) as n,\n                    SUM(x) as sum_x,\n                    SUM(y) as sum_y,\n                    SUM(x * y) as sum_xy,\n                    SUM(x * x) as sum_x2,\n                    SUM(y * y) as sum_y2,\n                    AVG(x) as mean_x,\n                    AVG(y) as mean_y\n                FROM regression_data\n            )\n            SELECT \n                (n * sum_xy - sum_x * sum_y) / (n * sum_x2 - sum_x * sum_x) as slope,\n                (sum_y - ((n * sum_xy - sum_x * sum_y) / (n * sum_x2 - sum_x * sum_x)) * sum_x) / n as intercept,\n                (n * sum_xy - sum_x * sum_y) / SQRT((n * sum_x2 - sum_x * sum_x) * (n * sum_y2 - sum_y * sum_y)) as r_squared,\n                n as sample_size\n            FROM regression_stats\n            ",
    ];
    let args: Vec<&str> = vec![x_column, y_column, table, x_column, y_column];
    proof {
        assert(str_seq_view(pieces@) =~= seq!["\n            WITH regression_data AS (\n                SELECT \n                    "@, " as x,\n                    "@, " as y\n                FROM "@, "\n                WHERE "@, " IS NOT NULL AND "@, " IS NOT NULL\n            ),\n            regression_stats AS (\n                SELECT \n                    COUNT(*) as n,\n                    SUM(x) as sum_x,\n                    SUM(y) as sum_y,\n                    SUM(x * y) as sum_xy,\n                    SUM(x * x) as sum_x2,\n                    SUM(y * y) as sum_y2,\n                    AVG(x) as mean_x,\n                    AVG(y) as mean_y\n                FROM regression_data\n            )\n            SELECT \n                (n * sum_xy - sum_x * sum_y) / (n * sum_x2 - sum_x * sum_x) as slope,\n                (sum_y - ((n * sum_xy - sum_x * sum_y) / (n * sum_x2 - sum_x * sum_x)) * sum_x) / n as intercept,\n                (n * sum_xy - sum_x * sum_y) / SQRT((n * sum_x2 - sum_x * sum_x) * (n * sum_y2 - sum_y * sum_y)) as r_squared,\n                n as sample_size\n            FROM regression_stats\n            "@]);
        assert(str_seq_view(args@) =~= seq![x_column@, y_column@, table@, x_column@, y_column@]);
    }
    render(&pieces, &args)
}

fn clustering_query(table: &str, column: &str) -> (s: String)
    ensures
        s@ == clustering_sql(table@, column@),
{
    let pieces: Vec<&str> = vec![
        "\n            WITH quantiles AS (\n                SELECT \n                    PERCENTILE_CONT(0.33) WITHIN GROUP (ORDER BY ",
        ") as q1,\n                    PERCENTILE_CONT(0.67) WITHIN GROUP (ORDER BY ",
        ") as q2\n                FROM ",
        "\n                WHERE ",
        " IS NOT NULL\n            )\n            SELECT \n                *,\n                CASE \n                    WHEN ",
        " <= q1 THEN 'Cluster_1'\n                    WHEN ",
        " <= q2 THEN 'Cluster_2'\n                    ELSE 'Cluster_3'\n                END as cluster\n            FROM ",
        ", quantiles\n            WHERE ",
        " IS NOT NULL\n            ",
    ];
    let args: Vec<&str> = vec![column, column, table, column, column, column, table, column];
    proof {
        assert(str_seq_view(pieces@) =~= seq!["\n            WITH quantiles AS (\n                SELECT \n                    PERCENTILE_CONT(0.33) WITHIN GROUP (ORDER BY "@, ") as q1,\n                    PERCENTILE_CONT(0.67) WITHIN GROUP (ORDER BY "@, ") as q2\n                FROM "@, "\n                WHERE "@, " IS NOT NULL\n            )\n            SELECT \n                *,\n                CASE \n                    WHEN "@, " <= q1 THEN 'Cluster_1'\n                    WHEN "@, " <= q2 THEN 'Cluster_2'\n                    ELSE 'Cluster_3'\n                END as cluster\n            FROM "@, ", quantiles\n            WHERE "@, " IS NOT NULL\n            "@]);
        assert(str_seq_view(args@) =~= seq![column@, column@, table@, column@, column@, column@, table@, column@]);
    }
    render(&pieces, &args)
}

/// The analyzer of complex analyses and models.
#[derive(Debug)]
pub struct ComplexAnalyzer {}

impl ComplexAnalyzer {
    /// An analyzer.
    pub fn new() -> Self {
        ComplexAnalyzer {}
    }

    /// The query of the mean, median, spread, extremes and quartiles of `column` in `table`.
    fn statistical_analysis(&self, params: &Vec<(String, ParamValue)>) -> (r: Result<String, AnalysisError>)
        ensures
            outcome_of(r) == statistical_outcome(params@),
    {
        let table = match text_at(params, "table") {
            Some(t) => t,
            None => return Err(missing("table")),
        };
        let column = match text_at(params, "column") {
            Some(c) => c,
            None => return Err(missing("column")),
        };
        Ok(statistical_query(table, column))
    }

    /// The query of the least-squares line of `value_column` over the order of `time_column`.
    fn trend_analysis(&self, params: &Vec<(String, ParamValue)>) -> (r: Result<String, AnalysisError>)
        ensures
            outcome_of(r) == trend_outcome(params@),
    {
        let table = match text_at(params, "table") {
            Some(t) => t,
            None => return Err(missing("table")),
        };
        let time_column = match text_at(params, "time_column") {
            Some(c) => c,
            None => return Err(missing("time_column")),
        };
        let value_column = match text_at(params, "value_column") {
            Some(c) => c,
            None => return Err(missing("value_column")),
        };
        Ok(linear_trend_query(table, time_column, value_column))
    }

    /// The query of the rows whose z-score on `column` passes the threshold.
    fn anomaly_detection(&self, params: &Vec<(String, ParamValue)>) -> (r: Result<String, AnalysisError>)
        ensures
            outcome_of(r) == anomaly_outcome(params@),
    {
        let table = match text_at(params, "table") {
            Some(t) => t,
            None => return Err(missing("table")),
        };
        let column = match text_at(params, "column") {
            Some(c) => c,
            None => return Err(missing("column")),
        };
        let threshold: &str = match find_param(params, "threshold") {
            Some(i) => match &params[i].1 {
                ParamValue::Number(t) => t.as_str(),
                _ => "2",
            },
            None => "2",
        };
        Ok(zscore_anomaly_query(table, column, threshold))
    }

    /// The query of the correlation of the first two columns given.
    fn correlation_analysis(&self, params: &Vec<(String, ParamValue)>) -> (r: Result<String, AnalysisError>)
        ensures
            outcome_of(r) == correlation_outcome(params@),
    {
        let table = match text_at(params, "table") {
            Some(t) => t,
            None => return Err(missing("table")),
        };
        let columns = match items_at(params, "columns") {
            Some(v) => v,
            None => return Err(missing("columns")),
        };
        if columns.len() < 2 {
            return Err(refusal(string_of(&chars_of("至少需要2个列进行相关性分析"))));
        }
        let column1 = match item_at(&columns[0]) {
            Some(c) => c,
            None => return Err(refusal(string_of(&chars_of("无效的列名")))),
        };
        let column2 = match item_at(&columns[1]) {
            Some(c) => c,
            None => return Err(refusal(string_of(&chars_of("无效的列名")))),
        };
        Ok(correlation_query(table, column1, column2))
    }

    /// The query of one analysis: `statistical`, `trend`, `anomaly_detection` or `correlation`.
    pub fn execute_analysis(&self, analysis_type: &str, params: &Vec<(String, ParamValue)>) -> (r: Result<AnalysisQuery, AnalysisError>)
        ensures
            match r {
                Ok(q) => analysis_outcome(analysis_type@, params@) == Ok::<Seq<char>, Seq<char>>(q.sql@)
                    && q.execution_plan@ == "ComplexAnalysis: "@ + analysis_type@,
                Err(e) => analysis_outcome(analysis_type@, params@) == Err::<Seq<char>, Seq<char>>(e.message@),
            },
    {
        let result = if str_eq(analysis_type, "statistical") {
            self.statistical_analysis(params)
        } else if str_eq(analysis_type, "trend") {
            self.trend_analysis(params)
        } else if str_eq(analysis_type, "anomaly_detection") {
            self.anomaly_detection(params)
        } else if str_eq(analysis_type, "correlation") {
            self.correlation_analysis(params)
        } else {
            return Err(refusal(join_text("不支持的分析类型: ", analysis_type)));
        };
        match result {
            Ok(sql) => Ok(AnalysisQuery { sql, execution_plan: join_text("ComplexAnalysis: ", analysis_type) }),
            Err(e) => Err(e),
        }
    }

    /// The query of the least-squares line of `y_column` over `x_column`, with its fit.
    fn linear_regression(&self, params: &Vec<(String, ParamValue)>) -> (r: Result<String, AnalysisError>)
        ensures
            outcome_of(r) == regression_outcome(params@),
    {
        let table = match text_at(params, "table") {
            Some(t) => t,
            None => return Err(missing("table")),
        };
        let x_column = match text_at(params, "x_column") {
            Some(c) => c,
            None => return Err(missing("x_column")),
        };
        let y_column = match text_at(params, "y_column") {
            Some(c) => c,
            None => return Err(missing("y_column")),
        };
        Ok(regression_query(table, x_column, y_column))
    }

    /// The query that puts the rows in three clusters by the terciles of the first column given.
    fn clustering_analysis(&self, params: &Vec<(String, ParamValue)>) -> (r: Result<String, AnalysisError>)
        requires
            !clustering_panics(params@),
        ensures
            outcome_of(r) == clustering_outcome(params@),
    {
        let table = match text_at(params, "table") {
            Some(t) => t,
            None => return Err(missing("table")),
        };
        let columns = match items_at(params, "columns") {
            Some(v) => v,
            None => return Err(missing("columns")),
        };
        let column = match item_at(&columns[0]) {
            Some(c) => c,
            None => return Err(refusal(string_of(&chars_of("无效的列名")))),
        };
        Ok(clustering_query(table, column))
    }

    /// The query of one model: `linear_regression` or `clustering`.
    pub fn execute_ml_analysis(&self, model_type: &str, params: &Vec<(String, ParamValue)>) -> (r: Result<AnalysisQuery, AnalysisError>)
        requires
            !(model_type@ == "clustering"@ && clustering_panics(params@)),
        ensures
            match r {
                Ok(q) => model_outcome(model_type@, params@) == Ok::<Seq<char>, Seq<char>>(q.sql@)
                    && q.execution_plan@ == "MLAnalysis: "@ + model_type@,
                Err(e) => model_outcome(model_type@, params@) == Err::<Seq<char>, Seq<char>>(e.message@),
            },
    {
        let result = if str_eq(model_type, "linear_regression") {
            self.linear_regression(params)
        } else if str_eq(model_type, "clustering") {
            self.clustering_analysis(params)
        } else {
            return Err(refusal(join_text("不支持的ML模型: ", model_type)));
        };
        match result {
            Ok(sql) => Ok(AnalysisQuery { sql, execution_plan: join_text("MLAnalysis: ", model_type) }),
            Err(e) => Err(e),
        }
    }
}

} // verus!
