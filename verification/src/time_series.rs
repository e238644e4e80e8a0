//! SQL of the time series analyzer: statistics per period, seasonal patterns,
//! the figures read for a summary, anomalies on a moving window, linear
//! forecasts and the decomposition into trend, season and residue.
use vstd::prelude::*;
use crate::analytics::{render, render_spec, str_seq_view, int_text, int_string};

verus! {

/// The text of the query of `generate_trend_analysis`.
pub open spec fn trend_analysis_sql(table: Seq<char>, time_column: Seq<char>, value_column: Seq<char>, period: Seq<char>) -> Seq<char> {
    render_spec(
        seq!["\n            WITH trend_data AS (\n                SELECT\n                    DATE_TRUNC('"@, "', "@, ") as period,\n                    AVG("@, ") as avg_value,\n                    COUNT(*) as data_points,\n                    MIN("@, ") as min_value,\n                    MAX("@, ") as max_value,\n                    STDDEV("@, ") as std_value\n                FROM "@, "\n                WHERE "@, " IS NOT NULL AND "@, " IS NOT NULL\n                GROUP BY DATE_TRUNC('"@, "', "@, ")\n                ORDER BY period\n            ),\n            trend_calculation AS (\n                SELECT\n                    period,\n                    avg_value,\n                    data_points,\n                    min_value,\n                    max_value,\n                    std_value,\n                    LAG(avg_value) OVER (ORDER BY period) as prev_avg,\n                    avg_value - LAG(avg_value) OVER (ORDER BY period) as period_change,\n                    CASE\n                        WHEN LAG(avg_value) OVER (ORDER BY period) > 0\n                        THEN (avg_value - LAG(avg_value) OVER (ORDER BY period)) / LAG(avg_value) OVER (ORDER BY period) * 100\n                        ELSE NULL\n                    END as percent_change,\n                    AVG(avg_value) OVER (ORDER BY period ROWS BETWEEN 2 PRECEDING AND CURRENT ROW) as moving_avg_3,\n                    ROW_NUMBER() OVER (ORDER BY period) as time_index\n                FROM trend_data\n            )\n            SELECT\n                period,\n                avg_value,\n                data_points,\n                min_value,\n                max_value,\n                std_value,\n                prev_avg,\n                period_change,\n                percent_change,\n                moving_avg_3,\n                CASE\n                    WHEN period_change > 0 THEN 'Increasing'\n                    WHEN period_change < 0 THEN 'Decreasing'\n                    ELSE 'Stable'\n                END as trend_direction\n            FROM trend_calculation\n            ORDER BY period\n            "@],
        seq![period, time_column, value_column, value_column, value_column, value_column, table, time_column, value_column, period, time_column],
    )
}

/// The text of the query of `generate_seasonality_analysis`.
pub open spec fn seasonality_analysis_sql(table: Seq<char>, time_column: Seq<char>, value_column: Seq<char>) -> Seq<char> {
    render_spec(
        seq!["\n            WITH seasonal_data AS (\n                SELECT\n                    EXTRACT(MONTH FROM "@, ") as month,\n                    EXTRACT(DOW FROM "@, ") as day_of_week,\n                    EXTRACT(HOUR FROM "@, ") as hour,\n                    AVG("@, ") as avg_value,\n                    COUNT(*) as data_points,\n                    STDDEV("@, ") as std_value\n                FROM "@, "\n                WHERE "@, " IS NOT NULL AND "@, " IS NOT NULL\n                GROUP BY EXTRACT(MONTH FROM "@, "), EXTRACT(DOW FROM "@, "), EXTRACT(HOUR FROM "@, ")\n            ),\n            monthly_pattern AS (\n                SELECT\n                    month,\n                    AVG(avg_value) as monthly_avg,\n                    SUM(data_points) as monthly_points,\n                    STDDEV(avg_value) as monthly_std\n                FROM seasonal_data\n                GROUP BY month\n                ORDER BY month\n            ),\n            weekly_pattern AS (\n                SELECT\n                    day_of_week,\n                    AVG(avg_value) as weekly_avg,\n                    SUM(data_points) as weekly_points,\n                    STDDEV(avg_value) as weekly_std\n                FROM seasonal_data\n                GROUP BY day_of_week\n                ORDER BY day_of_week\n            ),\n            hourly_pattern AS (\n                SELECT\n                    hour,\n                    AVG(avg_value) as hourly_avg,\n                    SUM(data_points) as hourly_points,\n                    STDDEV(avg_value) as hourly_std\n                FROM seasonal_data\n                GROUP BY hour\n                ORDER BY hour\n            )\n            SELECT\n                'monthly' as pattern_type,\n                month as period_value,\n                monthly_avg as avg_value,\n                monthly_points as data_points,\n                monthly_std as std_value\n            FROM monthly_pattern\n            UNION ALL\n            SELECT\n                'weekly' as pattern_type,\n                day_of_week as period_value,\n                weekly_avg as avg_value,\n                weekly_points as data_points,\n                weekly_std as std_value\n            FROM weekly_pattern\n            UNION ALL\n            SELECT\n                'hourly' as pattern_type,\n                hour as period_value,\n                hourly_avg as avg_value,\n                hourly_points as data_points,\n                hourly_std as std_value\n            FROM hourly_pattern\n            ORDER BY pattern_type, period_value\n            "@],
        seq![time_column, time_column, time_column, value_column, value_column, table, time_column, value_column, time_column, time_column, time_column],
    )
}

/// The text of the query of the count, time span and value statistics of a series.
pub open spec fn basic_stats_sql(table: Seq<char>, time_column: Seq<char>, value_column: Seq<char>) -> Seq<char> {
    render_spec(
        seq!["\n            SELECT \n                COUNT(*) as data_points,\n                MIN("@, ") as start_time,\n                MAX("@, ") as end_time,\n                AVG("@, ") as mean_value,\n                STDDEV("@, ") as std_value,\n                MIN("@, ") as min_value,\n                MAX("@, ") as max_value,\n                MEDIAN("@, ") as median_value\n            FROM "@, "\n            WHERE "@, " IS NOT NULL AND "@, " IS NOT NULL\n            "@],
        seq![time_column, time_column, value_column, value_column, value_column, value_column, value_column, table, time_column, value_column],
    )
}

/// The text of the query of the slope and correlation of a series.
pub open spec fn trend_stats_sql(table: Seq<char>, time_column: Seq<char>, value_column: Seq<char>) -> Seq<char> {
    render_spec(
        seq!["\n            WITH trend_data AS (\n                SELECT \n                    "@, ",\n                    "@, ",\n                    ROW_NUMBER() OVER (ORDER BY "@, ") as x\n                FROM "@, "\n                WHERE "@, " IS NOT NULL AND "@, " IS NOT NULL\n                ORDER BY "@, "\n            ),\n            trend_stats AS (\n                SELECT \n                    COUNT(*) as n,\n                    SUM(x) as sum_x,\n                    SUM("@, ") as sum_y,\n                    SUM(x * "@, ") as sum_xy,\n                    SUM(x * x) as sum_x2,\n                    SUM("@, " * "@, ") as sum_y2\n                FROM trend_data\n            )\n            SELECT \n                (n * sum_xy - sum_x * sum_y) / (n * sum_x2 - sum_x * sum_x) as slope,\n                (n * sum_xy - sum_x * sum_y) / SQRT((n * sum_x2 - sum_x * sum_x) * (n * sum_y2 - sum_y * sum_y)) as correlation\n            FROM trend_stats\n            "@],
        seq![time_column, value_column, time_column, table, time_column, value_column, time_column, value_column, value_column, value_column, value_column],
    )
}

/// The text of the query of the weekly and monthly variation of a series.
pub open spec fn seasonality_stats_sql(table: Seq<char>, time_column: Seq<char>, value_column: Seq<char>) -> Seq<char> {
    render_spec(
        seq!["\n            WITH daily_avg AS (\n                SELECT \n                    EXTRACT(DOW FROM "@, ") as day_of_week,\n                    AVG("@, ") as avg_value\n                FROM "@, "\n                WHERE "@, " IS NOT NULL AND "@, " IS NOT NULL\n                GROUP BY EXTRACT(DOW FROM "@, ")\n            ),\n            weekly_variance AS (\n                SELECT \n                    STDDEV(avg_value) / AVG(avg_value) as weekly_cv\n                FROM daily_avg\n            ),\n            monthly_avg AS (\n                SELECT \n                    EXTRACT(DAY FROM "@, ") as day_of_month,\n                    AVG("@, ") as avg_value\n                FROM "@, "\n                WHERE "@, " IS NOT NULL AND "@, " IS NOT NULL\n                GROUP BY EXTRACT(DAY FROM "@, ")\n            ),\n            monthly_variance AS (\n                SELECT \n                    STDDEV(avg_value) / AVG(avg_value) as monthly_cv\n                FROM monthly_avg\n            )\n            SELECT \n                weekly_cv,\n                monthly_cv,\n                CASE \n                    WHEN weekly_cv > 0.1 THEN true\n                    WHEN monthly_cv > 0.1 THEN true\n                    ELSE false\n                END as has_seasonality\n            FROM weekly_variance, monthly_variance\n            "@],
        seq![time_column, value_column, table, time_column, value_column, time_column, time_column, value_column, table, time_column, value_column, time_column],
    )
}

/// The text of the query of `detect_anomalies`.
pub open spec fn anomaly_sql(table: Seq<char>, time_column: Seq<char>, value_column: Seq<char>, threshold: Seq<char>) -> Seq<char> {
    render_spec(
        seq!["\n            WITH time_series AS (\n                SELECT \n                    "@, ",\n                    "@, ",\n                    AVG("@, ") OVER (\n                        ORDER BY "@, " \n                        ROWS BETWEEN 6 PRECEDING AND CURRENT ROW\n                    ) as moving_avg,\n                    STDDEV("@, ") OVER (\n                        ORDER BY "@, " \n                        ROWS BETWEEN 6 PRECEDING AND CURRENT ROW\n                    ) as moving_std\n                FROM "@, "\n                WHERE "@, " IS NOT NULL AND "@, " IS NOT NULL\n                ORDER BY "@, "\n            ),\n            anomalies AS (\n                SELECT \n                    *,\n                    ABS("@, " - moving_avg) / NULLIF(moving_std, 0) as z_score,\n                    CASE \n                        WHEN ABS("@, " - moving_avg) / NULLIF(moving_std, 0) > "@, " THEN true\n                        ELSE false\n                    END as is_anomaly\n                FROM time_series\n                WHERE moving_std IS NOT NULL AND moving_std > 0\n            )\n            SELECT \n                "@, ",\n                "@, ",\n                moving_avg,\n                moving_std,\n                z_score,\n                is_anomaly,\n                CASE \n                    WHEN "@, " > moving_avg + "@, " * moving_std THEN '异常高值'\n                    WHEN "@, " < moving_avg - "@, " * moving_std THEN '异常低值'\n                    ELSE '正常'\n                END as anomaly_type\n            FROM anomalies\n            WHERE is_anomaly = true\n            ORDER BY "@, "\n            "@],
        seq![time_column, value_column, value_column, time_column, value_column, time_column, table, time_column, value_column, time_column, value_column, value_column, threshold, time_column, value_column, value_column, threshold, value_column, threshold, time_column],
    )
}

/// The text of the query of `simple_forecast`.
pub open spec fn forecast_sql(table: Seq<char>, time_column: Seq<char>, value_column: Seq<char>, periods: Seq<char>) -> Seq<char> {
    render_spec(
        seq!["\n            WITH trend_data AS (\n                SELECT \n                    "@, ",\n                    "@, ",\n                    ROW_NUMBER() OVER (ORDER BY "@, ") as x\n                FROM "@, "\n                WHERE "@, " IS NOT NULL AND "@, " IS NOT NULL\n                ORDER BY "@, "\n            ),\n            trend_params AS (\n                SELECT \n                    COUNT(*) as n,\n                    SUM(x) as sum_x,\n                    SUM("@, ") as sum_y,\n                    SUM(x * "@, ") as sum_xy,\n                    SUM(x * x) as sum_x2,\n                    MAX(x) as max_x,\n                    MAX("@, ") as last_time\n                FROM trend_data\n            ),\n            regression AS (\n                SELECT \n                    (n * sum_xy - sum_x * sum_y) / (n * sum_x2 - sum_x * sum_x) as slope,\n                    (sum_y - ((n * sum_xy - sum_x * sum_y) / (n * sum_x2 - sum_x * sum_x)) * sum_x) / n as intercept,\n                    max_x,\n                    last_time\n                FROM trend_params\n            ),\n            forecast_periods AS (\n                SELECT generate_series(1, "@, ") as period_ahead\n            )\n            SELECT \n                last_time + INTERVAL '1 day' * period_ahead as forecast_time,\n                intercept + slope * (max_x + period_ahead) as forecast_value,\n                period_ahead\n            FROM regression, forecast_periods\n            ORDER BY period_ahead\n            "@],
        seq![time_column, value_column, time_column, table, time_column, value_column, time_column, value_column, value_column, time_column, periods],
    )
}

/// The text of the query of `decompose_time_series`.
pub open spec fn decomposition_sql(table: Seq<char>, time_column: Seq<char>, value_column: Seq<char>, period: Seq<char>, half_period: Seq<char>) -> Seq<char> {
    render_spec(
        seq!["\n            WITH time_series AS (\n                SELECT \n                    "@, ",\n                    "@, ",\n                    ROW_NUMBER() OVER (ORDER BY "@, ") as x\n                FROM "@, "\n                WHERE "@, " IS NOT NULL AND "@, " IS NOT NULL\n                ORDER BY "@, "\n            ),\n            trend_component AS (\n                SELECT \n                    *,\n                    AVG("@, ") OVER (\n                        ORDER BY "@, " \n                        ROWS BETWEEN "@, " PRECEDING AND "@, " FOLLOWING\n                    ) as trend\n                FROM time_series\n            ),\n            seasonal_component AS (\n                SELECT \n                    *,\n                    "@, " - trend as detrended,\n                    x % "@, " as seasonal_index\n                FROM trend_component\n            ),\n            seasonal_avg AS (\n                SELECT \n                    seasonal_index,\n                    AVG(detrended) as seasonal_factor\n                FROM seasonal_component\n                WHERE trend IS NOT NULL\n                GROUP BY seasonal_index\n            )\n            SELECT \n                sc."@, ",\n                sc."@, " as original,\n                sc.trend,\n                COALESCE(sa.seasonal_factor, 0) as seasonal,\n                sc."@, " - sc.trend - COALESCE(sa.seasonal_factor, 0) as residual\n            FROM seasonal_component sc\n            LEFT JOIN seasonal_avg sa ON sc.seasonal_index = sa.seasonal_index\n            WHERE sc.trend IS NOT NULL\n            ORDER BY sc."@, "\n            "@],
        seq![time_column, value_column, time_column, table, time_column, value_column, time_column, value_column, time_column, half_period, half_period, value_column, period, time_column, value_column, value_column, time_column],
    )
}

/// Half of `p`, rounded toward zero.
pub open spec fn half_toward_zero(p: int) -> int {
    if p >= 0 { p / 2 } else { -((-p) / 2) }
}

/// Whether a series spanning `duration_days` days is long enough to look for seasons in.
pub open spec fn seasonal_span(duration_days: int) -> bool {
    duration_days > 30
}

/// The analyzer of time series.
#[derive(Debug)]
pub struct TimeSeriesAnalyzer {}

impl TimeSeriesAnalyzer {
    /// An analyzer.
    pub fn new() -> Self {
        TimeSeriesAnalyzer {}
    }

    /// The averages, counts, extremes and spread per `period`, with the change from one period to the next and its direction.
    pub fn generate_trend_analysis(&self, table: &str, time_column: &str, value_column: &str, period: &str) -> (s: String)
        ensures
            s@ == trend_analysis_sql(table@, time_column@, value_column@, period@),
    {
        let pieces: Vec<&str> = vec![
            "\n            WITH trend_data AS (\n                SELECT\n                    DATE_TRUNC('",
            "', ",
            ") as period,\n                    AVG(",
            ") as avg_value,\n                    COUNT(*) as data_points,\n                    MIN(",
            ") as min_value,\n                    MAX(",
            ") as max_value,\n                    STDDEV(",
            ") as std_value\n                FROM ",
            "\n                WHERE ",
            " IS NOT NULL AND ",
            " IS NOT NULL\n                GROUP BY DATE_TRUNC('",
            "', ",
            ")\n                ORDER BY period\n            ),\n            trend_calculation AS (\n                SELECT\n                    period,\n                    avg_value,\n                    data_points,\n                    min_value,\n                    max_value,\n                    std_value,\n                    LAG(avg_value) OVER (ORDER BY period) as prev_avg,\n                    avg_value - LAG(avg_value) OVER (ORDER BY period) as period_change,\n                    CASE\n                        WHEN LAG(avg_value) OVER (ORDER BY period) > 0\n                        THEN (avg_value - LAG(avg_value) OVER (ORDER BY period)) / LAG(avg_value) OVER (ORDER BY period) * 100\n                        ELSE NULL\n                    END as percent_change,\n                    AVG(avg_value) OVER (ORDER BY period ROWS BETWEEN 2 PRECEDING AND CURRENT ROW) as moving_avg_3,\n                    ROW_NUMBER() OVER (ORDER BY period) as time_index\n                FROM trend_data\n            )\n            SELECT\n                period,\n                avg_value,\n                data_points,\n                min_value,\n                max_value,\n                std_value,\n                prev_avg,\n                period_change,\n                percent_change,\n                moving_avg_3,\n                CASE\n                    WHEN period_change > 0 THEN 'Increasing'\n                    WHEN period_change < 0 THEN 'Decreasing'\n                    ELSE 'Stable'\n                END as trend_direction\n            FROM trend_calculation\n            ORDER BY period\n            ",
        ];
        let args: Vec<&str> = vec![period, time_column, value_column, value_column, value_column, value_column, table, time_column, value_column, period, time_column];
        proof {
            assert(str_seq_view(pieces@) =~= seq!["\n            WITH trend_data AS (\n                SELECT\n                    DATE_TRUNC('"@, "', "@, ") as period,\n                    AVG("@, ") as avg_value,\n                    COUNT(*) as data_points,\n                    MIN("@, ") as min_value,\n                    MAX("@, ") as max_value,\n                    STDDEV("@, ") as std_value\n                FROM "@, "\n                WHERE "@, " IS NOT NULL AND "@, " IS NOT NULL\n                GROUP BY DATE_TRUNC('"@, "', "@, ")\n                ORDER BY period\n            ),\n            trend_calculation AS (\n                SELECT\n                    period,\n                    avg_value,\n                    data_points,\n                    min_value,\n                    max_value,\n                    std_value,\n                    LAG(avg_value) OVER (ORDER BY period) as prev_avg,\n                    avg_value - LAG(avg_value) OVER (ORDER BY period) as period_change,\n                    CASE\n                        WHEN LAG(avg_value) OVER (ORDER BY period) > 0\n                        THEN (avg_value - LAG(avg_value) OVER (ORDER BY period)) / LAG(avg_value) OVER (ORDER BY period) * 100\n                        ELSE NULL\n                    END as percent_change,\n                    AVG(avg_value) OVER (ORDER BY period ROWS BETWEEN 2 PRECEDING AND CURRENT ROW) as moving_avg_3,\n                    ROW_NUMBER() OVER (ORDER BY period) as time_index\n                FROM trend_data\n            )\n            SELECT\n                period,\n                avg_value,\n                data_points,\n                min_value,\n                max_value,\n                std_value,\n                prev_avg,\n                period_change,\n                percent_change,\n                moving_avg_3,\n                CASE\n                    WHEN period_change > 0 THEN 'Increasing'\n                    WHEN period_change < 0 THEN 'Decreasing'\n                    ELSE 'Stable'\n                END as trend_direction\n            FROM trend_calculation\n            ORDER BY period\n            "@]);
            assert(str_seq_view(args@) =~= seq![period@, time_column@, value_column@, value_column@, value_column@, value_column@, table@, time_column@, value_column@, period@, time_column@]);
        }
        render(&pieces, &args)
    }

    /// The average values per month, per day of the week and per hour.
    pub fn generate_seasonality_analysis(&self, table: &str, time_column: &str, value_column: &str) -> (s: String)
        ensures
            s@ == seasonality_analysis_sql(table@, time_column@, value_column@),
    {
        let pieces: Vec<&str> = vec![
            "\n            WITH seasonal_data AS (\n                SELECT\n                    EXTRACT(MONTH FROM ",
            ") as month,\n                    EXTRACT(DOW FROM ",
            ") as day_of_week,\n                    EXTRACT(HOUR FROM ",
            ") as hour,\n                    AVG(",
            ") as avg_value,\n                    COUNT(*) as data_points,\n                    STDDEV(",
            ") as std_value\n                FROM ",
            "\n                WHERE ",
            " IS NOT NULL AND ",
            " IS NOT NULL\n                GROUP BY EXTRACT(MONTH FROM ",
            "), EXTRACT(DOW FROM ",
            "), EXTRACT(HOUR FROM ",
            ")\n            ),\n            monthly_pattern AS (\n                SELECT\n                    month,\n                    AVG(avg_value) as monthly_avg,\n                    SUM(data_points) as monthly_points,\n                    STDDEV(avg_value) as monthly_std\n                FROM seasonal_data\n                GROUP BY month\n                ORDER BY month\n            ),\n            weekly_pattern AS (\n                SELECT\n                    day_of_week,\n                    AVG(avg_value) as weekly_avg,\n                    SUM(data_points) as weekly_points,\n                    STDDEV(avg_value) as weekly_std\n                FROM seasonal_data\n                GROUP BY day_of_week\n                ORDER BY day_of_week\n            ),\n            hourly_pattern AS (\n                SELECT\n                    hour,\n                    AVG(avg_value) as hourly_avg,\n                    SUM(data_points) as hourly_points,\n                    STDDEV(avg_value) as hourly_std\n                FROM seasonal_data\n                GROUP BY hour\n                ORDER BY hour\n            )\n            SELECT\n                'monthly' as pattern_type,\n                month as period_value,\n                monthly_avg as avg_value,\n                monthly_points as data_points,\n                monthly_std as std_value\n            FROM monthly_pattern\n            UNION ALL\n            SELECT\n                'weekly' as pattern_type,\n                day_of_week as period_value,\n                weekly_avg as avg_value,\n                weekly_points as data_points,\n                weekly_std as std_value\n            FROM weekly_pattern\n            UNION ALL\n            SELECT\n                'hourly' as pattern_type,\n                hour as period_value,\n                hourly_avg as avg_value,\n                hourly_points as data_points,\n                hourly_std as std_value\n            FROM hourly_pattern\n            ORDER BY pattern_type, period_value\n            ",
        ];
        let args: Vec<&str> = vec![time_column, time_column, time_column, value_column, value_column, table, time_column, value_column, time_column, time_column, time_column];
        proof {
            assert(str_seq_view(pieces@) =~= seq!["\n            WITH seasonal_data AS (\n                SELECT\n                    EXTRACT(MONTH FROM "@, ") as month,\n                    EXTRACT(DOW FROM "@, ") as day_of_week,\n                    EXTRACT(HOUR FROM "@, ") as hour,\n                    AVG("@, ") as avg_value,\n                    COUNT(*) as data_points,\n                    STDDEV("@, ") as std_value\n                FROM "@, "\n                WHERE "@, " IS NOT NULL AND "@, " IS NOT NULL\n                GROUP BY EXTRACT(MONTH FROM "@, "), EXTRACT(DOW FROM "@, "), EXTRACT(HOUR FROM "@, ")\n            ),\n            monthly_pattern AS (\n                SELECT\n                    month,\n                    AVG(avg_value) as monthly_avg,\n                    SUM(data_points) as monthly_points,\n                    STDDEV(avg_value) as monthly_std\n                FROM seasonal_data\n                GROUP BY month\n                ORDER BY month\n            ),\n            weekly_pattern AS (\n                SELECT\n                    day_of_week,\n                    AVG(avg_value) as weekly_avg,\n                    SUM(data_points) as weekly_points,\n                    STDDEV(avg_value) as weekly_std\n                FROM seasonal_data\n                GROUP BY day_of_week\n                ORDER BY day_of_week\n            ),\n            hourly_pattern AS (\n                SELECT\n                    hour,\n                    AVG(avg_value) as hourly_avg,\n                    SUM(data_points) as hourly_points,\n                    STDDEV(avg_value) as hourly_std\n                FROM seasonal_data\n                GROUP BY hour\n                ORDER BY hour\n            )\n            SELECT\n                'monthly' as pattern_type,\n                month as period_value,\n                monthly_avg as avg_value,\n                monthly_points as data_points,\n                monthly_std as std_value\n            FROM monthly_pattern\n            UNION ALL\n            SELECT\n                'weekly' as pattern_type,\n                day_of_week as period_value,\n                weekly_avg as avg_value,\n                weekly_points as data_points,\n                weekly_std as std_value\n            FROM weekly_pattern\n            UNION ALL\n            SELECT\n                'hourly' as pattern_type,\n                hour as period_value,\n                hourly_avg as avg_value,\n                hourly_points as data_points,\n                hourly_std as std_value\n            FROM hourly_pattern\n            ORDER BY pattern_type, period_value\n            "@]);
            assert(str_seq_view(args@) =~= seq![time_column@, time_column@, time_column@, value_column@, value_column@, table@, time_column@, value_column@, time_column@, time_column@, time_column@]);
        }
        render(&pieces, &args)
    }

    /// The query of the count, first and last time, mean, spread, extremes and median of a series.
    pub fn basic_stats_query(&self, table: &str, time_column: &str, value_column: &str) -> (s: String)
        ensures
            s@ == basic_stats_sql(table@, time_column@, value_column@),
    {
        let pieces: Vec<&str> = vec![
            "\n            SELECT \n                COUNT(*) as data_points,\n                MIN(",
            ") as start_time,\n                MAX(",
            ") as end_time,\n                AVG(",
            ") as mean_value,\n                STDDEV(",
            ") as std_value,\n                MIN(",
            ") as min_value,\n                MAX(",
            ") as max_value,\n                MEDIAN(",
            ") as median_value\n            FROM ",
            "\n            WHERE ",
            " IS NOT NULL AND ",
            " IS NOT NULL\n            ",
        ];
        let args: Vec<&str> = vec![time_column, time_column, value_column, value_column, value_column, value_column, value_column, table, time_column, value_column];
        proof {
            assert(str_seq_view(pieces@) =~= seq!["\n            SELECT \n                COUNT(*) as data_points,\n                MIN("@, ") as start_time,\n                MAX("@, ") as end_time,\n                AVG("@, ") as mean_value,\n                STDDEV("@, ") as std_value,\n                MIN("@, ") as min_value,\n                MAX("@, ") as max_value,\n                MEDIAN("@, ") as median_value\n            FROM "@, "\n            WHERE "@, " IS NOT NULL AND "@, " IS NOT NULL\n            "@]);
            assert(str_seq_view(args@) =~= seq![time_column@, time_column@, value_column@, value_column@, value_column@, value_column@, value_column@, table@, time_column@, value_column@]);
        }
        render(&pieces, &args)
    }

    /// The query of the least-squares slope of a series over its position, and its correlation.
    pub fn trend_stats_query(&self, table: &str, time_column: &str, value_column: &str) -> (s: String)
        ensures
            s@ == trend_stats_sql(table@, time_column@, value_column@),
    {
        let pieces: Vec<&str> = vec![
            "\n            WITH trend_data AS (\n                SELECT \n                    ",
            ",\n                    ",
            ",\n                    ROW_NUMBER() OVER (ORDER BY ",
            ") as x\n                FROM ",
            "\n                WHERE ",
            " IS NOT NULL AND ",
            " IS NOT NULL\n                ORDER BY ",
            "\n            ),\n            trend_stats AS (\n                SELECT \n                    COUNT(*) as n,\n                    SUM(x) as sum_x,\n                    SUM(",
            ") as sum_y,\n                    SUM(x * ",
            ") as sum_xy,\n                    SUM(x * x) as sum_x2,\n                    SUM(",
            " * ",
            ") as sum_y2\n                FROM trend_data\n            )\n            SELECT \n                (n * sum_xy - sum_x * sum_y) / (n * sum_x2 - sum_x * sum_x) as slope,\n                (n * sum_xy - sum_x * sum_y) / SQRT((n * sum_x2 - sum_x * sum_x) * (n * sum_y2 - sum_y * sum_y)) as correlation\n            FROM trend_stats\n            ",
        ];
        let args: Vec<&str> = vec![time_column, value_column, time_column, table, time_column, value_column, time_column, value_column, value_column, value_column, value_column];
        proof {
            assert(str_seq_view(pieces@) =~= seq!["\n            WITH trend_data AS (\n                SELECT \n                    "@, ",\n                    "@, ",\n                    ROW_NUMBER() OVER (ORDER BY "@, ") as x\n                FROM "@, "\n                WHERE "@, " IS NOT NULL AND "@, " IS NOT NULL\n                ORDER BY "@, "\n            ),\n            trend_stats AS (\n                SELECT \n                    COUNT(*) as n,\n                    SUM(x) as sum_x,\n                    SUM("@, ") as sum_y,\n                    SUM(x * "@, ") as sum_xy,\n                    SUM(x * x) as sum_x2,\n                    SUM("@, " * "@, ") as sum_y2\n                FROM trend_data\n            )\n            SELECT \n                (n * sum_xy - sum_x * sum_y) / (n * sum_x2 - sum_x * sum_x) as slope,\n                (n * sum_xy - sum_x * sum_y) / SQRT((n * sum_x2 - sum_x * sum_x) * (n * sum_y2 - sum_y * sum_y)) as correlation\n            FROM trend_stats\n            "@]);
            assert(str_seq_view(args@) =~= seq![time_column@, value_column@, time_column@, table@, time_column@, value_column@, time_column@, value_column@, value_column@, value_column@, value_column@]);
        }
        render(&pieces, &args)
    }

    /// The query of the variation of a series over the days of the week and of the month.
    pub fn seasonality_stats_query(&self, table: &str, time_column: &str, value_column: &str) -> (s: String)
        ensures
            s@ == seasonality_stats_sql(table@, time_column@, value_column@),
    {
        let pieces: Vec<&str> = vec![
            "\n            WITH daily_avg AS (\n                SELECT \n                    EXTRACT(DOW FROM ",
            ") as day_of_week,\n                    AVG(",
            ") as avg_value\n                FROM ",
            "\n                WHERE ",
            " IS NOT NULL AND ",
            " IS NOT NULL\n                GROUP BY EXTRACT(DOW FROM ",
            ")\n            ),\n            weekly_variance AS (\n                SELECT \n                    STDDEV(avg_value) / AVG(avg_value) as weekly_cv\n                FROM daily_avg\n            ),\n            monthly_avg AS (\n                SELECT \n                    EXTRACT(DAY FROM ",
            ") as day_of_month,\n                    AVG(",
            ") as avg_value\n                FROM ",
            "\n                WHERE ",
            " IS NOT NULL AND ",
            " IS NOT NULL\n                GROUP BY EXTRACT(DAY FROM ",
            ")\n            ),\n            monthly_variance AS (\n                SELECT \n                    STDDEV(avg_value) / AVG(avg_value) as monthly_cv\n                FROM monthly_avg\n            )\n            SELECT \n                weekly_cv,\n                monthly_cv,\n                CASE \n                    WHEN weekly_cv > 0.1 THEN true\n                    WHEN monthly_cv > 0.1 THEN true\n                    ELSE false\n                END as has_seasonality\n            FROM weekly_variance, monthly_variance\n            ",
        ];
        let args: Vec<&str> = vec![time_column, value_column, table, time_column, value_column, time_column, time_column, value_column, table, time_column, value_column, time_column];
        proof {
            assert(str_seq_view(pieces@) =~= seq!["\n            WITH daily_avg AS (\n                SELECT \n                    EXTRACT(DOW FROM "@, ") as day_of_week,\n                    AVG("@, ") as avg_value\n                FROM "@, "\n                WHERE "@, " IS NOT NULL AND "@, " IS NOT NULL\n                GROUP BY EXTRACT(DOW FROM "@, ")\n            ),\n            weekly_variance AS (\n                SELECT \n                    STDDEV(avg_value) / AVG(avg_value) as weekly_cv\n                FROM daily_avg\n            ),\n            monthly_avg AS (\n                SELECT \n                    EXTRACT(DAY FROM "@, ") as day_of_month,\n                    AVG("@, ") as avg_value\n                FROM "@, "\n                WHERE "@, " IS NOT NULL AND "@, " IS NOT NULL\n                GROUP BY EXTRACT(DAY FROM "@, ")\n            ),\n            monthly_variance AS (\n                SELECT \n                    STDDEV(avg_value) / AVG(avg_value) as monthly_cv\n                FROM monthly_avg\n            )\n            SELECT \n                weekly_cv,\n                monthly_cv,\n                CASE \n                    WHEN weekly_cv > 0.1 THEN true\n                    WHEN monthly_cv > 0.1 THEN true\n                    ELSE false\n                END as has_seasonality\n            FROM weekly_variance, monthly_variance\n            "@]);
            assert(str_seq_view(args@) =~= seq![time_column@, value_column@, table@, time_column@, value_column@, time_column@, time_column@, value_column@, table@, time_column@, value_column@, time_column@]);
        }
        render(&pieces, &args)
    }

    /// The points more than `threshold` standard deviations away from the mean of the seven points up to them;
    /// `threshold` is the decimal text of the bound as the engine reads it.
    pub fn detect_anomalies(&self, table: &str, time_column: &str, value_column: &str, threshold: &str) -> (s: String)
        ensures
            s@ == anomaly_sql(table@, time_column@, value_column@, threshold@),
    {
        let pieces: Vec<&str> = vec![
            "\n            WITH time_series AS (\n                SELECT \n                    ",
            ",\n                    ",
            ",\n                    AVG(",
            ") OVER (\n                        ORDER BY ",
            " \n                        ROWS BETWEEN 6 PRECEDING AND CURRENT ROW\n                    ) as moving_avg,\n                    STDDEV(",
            ") OVER (\n                        ORDER BY ",
            " \n                        ROWS BETWEEN 6 PRECEDING AND CURRENT ROW\n                    ) as moving_std\n                FROM ",
            "\n                WHERE ",
            " IS NOT NULL AND ",
            " IS NOT NULL\n                ORDER BY ",
            "\n            ),\n            anomalies AS (\n                SELECT \n                    *,\n                    ABS(",
            " - moving_avg) / NULLIF(moving_std, 0) as z_score,\n                    CASE \n                        WHEN ABS(",
            " - moving_avg) / NULLIF(moving_std, 0) > ",
            " THEN true\n                        ELSE false\n                    END as is_anomaly\n                FROM time_series\n                WHERE moving_std IS NOT NULL AND moving_std > 0\n            )\n            SELECT \n                ",
            ",\n                ",
            ",\n                moving_avg,\n                moving_std,\n                z_score,\n                is_anomaly,\n                CASE \n                    WHEN ",
            " > moving_avg + ",
            " * moving_std THEN '异常高值'\n                    WHEN ",
            " < moving_avg - ",
            " * moving_std THEN '异常低值'\n                    ELSE '正常'\n                END as anomaly_type\n            FROM anomalies\n            WHERE is_anomaly = true\n            ORDER BY ",
            "\n            ",
        ];
        let args: Vec<&str> = vec![time_column, value_column, value_column, time_column, value_column, time_column, table, time_column, value_column, time_column, value_column, value_column, threshold, time_column, value_column, value_column, threshold, value_column, threshold, time_column];
        proof {
            assert(str_seq_view(pieces@) =~= seq!["\n            WITH time_series AS (\n                SELECT \n                    "@, ",\n                    "@, ",\n                    AVG("@, ") OVER (\n                        ORDER BY "@, " \n                        ROWS BETWEEN 6 PRECEDING AND CURRENT ROW\n                    ) as moving_avg,\n                    STDDEV("@, ") OVER (\n                        ORDER BY "@, " \n                        ROWS BETWEEN 6 PRECEDING AND CURRENT ROW\n                    ) as moving_std\n                FROM "@, "\n                WHERE "@, " IS NOT NULL AND "@, " IS NOT NULL\n                ORDER BY "@, "\n            ),\n            anomalies AS (\n                SELECT \n                    *,\n                    ABS("@, " - moving_avg) / NULLIF(moving_std, 0) as z_score,\n                    CASE \n                        WHEN ABS("@, " - moving_avg) / NULLIF(moving_std, 0) > "@, " THEN true\n                        ELSE false\n                    END as is_anomaly\n                FROM time_series\n                WHERE moving_std IS NOT NULL AND moving_std > 0\n            )\n            SELECT \n                "@, ",\n                "@, ",\n                moving_avg,\n                moving_std,\n                z_score,\n                is_anomaly,\n                CASE \n                    WHEN "@, " > moving_avg + "@, " * moving_std THEN '异常高值'\n                    WHEN "@, " < moving_avg - "@, " * moving_std THEN '异常低值'\n                    ELSE '正常'\n                END as anomaly_type\n            FROM anomalies\n            WHERE is_anomaly = true\n            ORDER BY "@, "\n            "@]);
            assert(str_seq_view(args@) =~= seq![time_column@, value_column@, value_column@, time_column@, value_column@, time_column@, table@, time_column@, value_column@, time_column@, value_column@, value_column@, threshold@, time_column@, value_column@, value_column@, threshold@, value_column@, threshold@, time_column@]);
        }
        render(&pieces, &args)
    }

    /// The linear extrapolation of a series over `periods` days after its last point.
    pub fn simple_forecast(&self, table: &str, time_column: &str, value_column: &str, periods: i32) -> (s: String)
        ensures
            s@ == forecast_sql(table@, time_column@, value_column@, int_text(periods as int)),
    {
        let periods_text = int_string(periods as i64);
        let pieces: Vec<&str> = vec![
            "\n            WITH trend_data AS (\n                SELECT \n                    ",
            ",\n                    ",
            ",\n                    ROW_NUMBER() OVER (ORDER BY ",
            ") as x\n                FROM ",
            "\n                WHERE ",
            " IS NOT NULL AND ",
            " IS NOT NULL\n                ORDER BY ",
            "\n            ),\n            trend_params AS (\n                SELECT \n                    COUNT(*) as n,\n                    SUM(x) as sum_x,\n                    SUM(",
            ") as sum_y,\n                    SUM(x * ",
            ") as sum_xy,\n                    SUM(x * x) as sum_x2,\n                    MAX(x) as max_x,\n                    MAX(",
            ") as last_time\n                FROM trend_data\n            ),\n            regression AS (\n                SELECT \n                    (n * sum_xy - sum_x * sum_y) / (n * sum_x2 - sum_x * sum_x) as slope,\n                    (sum_y - ((n * sum_xy - sum_x * sum_y) / (n * sum_x2 - sum_x * sum_x)) * sum_x) / n as intercept,\n                    max_x,\n                    last_time\n                FROM trend_params\n            ),\n            forecast_periods AS (\n                SELECT generate_series(1, ",
            ") as period_ahead\n            )\n            SELECT \n                last_time + INTERVAL '1 day' * period_ahead as forecast_time,\n                intercept + slope * (max_x + period_ahead) as forecast_value,\n                period_ahead\n            FROM regression, forecast_periods\n            ORDER BY period_ahead\n            ",
        ];
        let args: Vec<&str> = vec![time_column, value_column, time_column, table, time_column, value_column, time_column, value_column, value_column, time_column, periods_text.as_str()];
        proof {
            assert(str_seq_view(pieces@) =~= seq!["\n            WITH trend_data AS (\n                SELECT \n                    "@, ",\n                    "@, ",\n                    ROW_NUMBER() OVER (ORDER BY "@, ") as x\n                FROM "@, "\n                WHERE "@, " IS NOT NULL AND "@, " IS NOT NULL\n                ORDER BY "@, "\n            ),\n            trend_params AS (\n                SELECT \n                    COUNT(*) as n,\n                    SUM(x) as sum_x,\n                    SUM("@, ") as sum_y,\n                    SUM(x * "@, ") as sum_xy,\n                    SUM(x * x) as sum_x2,\n                    MAX(x) as max_x,\n                    MAX("@, ") as last_time\n                FROM trend_data\n            ),\n            regression AS (\n                SELECT \n                    (n * sum_xy - sum_x * sum_y) / (n * sum_x2 - sum_x * sum_x) as slope,\n                    (sum_y - ((n * sum_xy - sum_x * sum_y) / (n * sum_x2 - sum_x * sum_x)) * sum_x) / n as intercept,\n                    max_x,\n                    last_time\n                FROM trend_params\n            ),\n            forecast_periods AS (\n                SELECT generate_series(1, "@, ") as period_ahead\n            )\n            SELECT \n                last_time + INTERVAL '1 day' * period_ahead as forecast_time,\n                intercept + slope * (max_x + period_ahead) as forecast_value,\n                period_ahead\n            FROM regression, forecast_periods\n            ORDER BY period_ahead\n            "@]);
            assert(str_seq_view(args@) =~= seq![time_column@, value_column@, time_column@, table@, time_column@, value_column@, time_column@, value_column@, value_column@, time_column@, periods_text@]);
        }
        render(&pieces, &args)
    }

    /// The series split into a centred moving average over `period` points, the average deviation
    /// from it per position in the period, and what remains.
    pub fn decompose_time_series(&self, table: &str, time_column: &str, value_column: &str, period: i32) -> (s: String)
        ensures
            s@ == decomposition_sql(table@, time_column@, value_column@, int_text(period as int), int_text(half_toward_zero(period as int))),
    {
        let magnitude: u64 = if period >= 0 { period as u64 } else { (0i64 - period as i64) as u64 };
        let half: i64 = if period >= 0 { (magnitude / 2) as i64 } else { 0i64 - (magnitude / 2) as i64 };
        let period_text = int_string(period as i64);
        let half_text = int_string(half);
        let pieces: Vec<&str> = vec![
            "\n            WITH time_series AS (\n                SELECT \n                    ",
            ",\n                    ",
            ",\n                    ROW_NUMBER() OVER (ORDER BY ",
            ") as x\n                FROM ",
            "\n                WHERE ",
            " IS NOT NULL AND ",
            " IS NOT NULL\n                ORDER BY ",
            "\n            ),\n            trend_component AS (\n                SELECT \n                    *,\n                    AVG(",
            ") OVER (\n                        ORDER BY ",
            " \n                        ROWS BETWEEN ",
            " PRECEDING AND ",
            " FOLLOWING\n                    ) as trend\n                FROM time_series\n            ),\n            seasonal_component AS (\n                SELECT \n                    *,\n                    ",
            " - trend as detrended,\n                    x % ",
            " as seasonal_index\n                FROM trend_component\n            ),\n            seasonal_avg AS (\n                SELECT \n                    seasonal_index,\n                    AVG(detrended) as seasonal_factor\n                FROM seasonal_component\n                WHERE trend IS NOT NULL\n                GROUP BY seasonal_index\n            )\n            SELECT \n                sc.",
            ",\n                sc.",
            " as original,\n                sc.trend,\n                COALESCE(sa.seasonal_factor, 0) as seasonal,\n                sc.",
            " - sc.trend - COALESCE(sa.seasonal_factor, 0) as residual\n            FROM seasonal_component sc\n            LEFT JOIN seasonal_avg sa ON sc.seasonal_index = sa.seasonal_index\n            WHERE sc.trend IS NOT NULL\n            ORDER BY sc.",
            "\n            ",
        ];
        let args: Vec<&str> = vec![time_column, value_column, time_column, table, time_column, value_column, time_column, value_column, time_column, half_text.as_str(), half_text.as_str(), value_column, period_text.as_str(), time_column, value_column, value_column, time_column];
        proof {
            assert(str_seq_view(pieces@) =~= seq!["\n            WITH time_series AS (\n                SELECT \n                    "@, ",\n                    "@, ",\n                    ROW_NUMBER() OVER (ORDER BY "@, ") as x\n                FROM "@, "\n                WHERE "@, " IS NOT NULL AND "@, " IS NOT NULL\n                ORDER BY "@, "\n            ),\n            trend_component AS (\n                SELECT \n                    *,\n                    AVG("@, ") OVER (\n                        ORDER BY "@, " \n                        ROWS BETWEEN "@, " PRECEDING AND "@, " FOLLOWING\n                    ) as trend\n                FROM time_series\n            ),\n            seasonal_component AS (\n                SELECT \n                    *,\n                    "@, " - trend as detrended,\n                    x % "@, " as seasonal_index\n                FROM trend_component\n            ),\n            seasonal_avg AS (\n                SELECT \n                    seasonal_index,\n                    AVG(detrended) as seasonal_factor\n                FROM seasonal_component\n                WHERE trend IS NOT NULL\n                GROUP BY seasonal_index\n            )\n            SELECT \n                sc."@, ",\n                sc."@, " as original,\n                sc.trend,\n                COALESCE(sa.seasonal_factor, 0) as seasonal,\n                sc."@, " - sc.trend - COALESCE(sa.seasonal_factor, 0) as residual\n            FROM seasonal_component sc\n            LEFT JOIN seasonal_avg sa ON sc.seasonal_index = sa.seasonal_index\n            WHERE sc.trend IS NOT NULL\n            ORDER BY sc."@, "\n            "@]);
            assert(str_seq_view(args@) =~= seq![time_column@, value_column@, time_column@, table@, time_column@, value_column@, time_column@, value_column@, time_column@, half_text@, half_text@, value_column@, period_text@, time_column@, value_column@, value_column@, time_column@]);
        }
        render(&pieces, &args)
    }

    /// Whether a series spanning `duration_days` days is long enough for a seasonal analysis.
    pub fn needs_seasonality(duration_days: i64) -> (b: bool)
        ensures
            b == seasonal_span(duration_days as int),
    {
        duration_days > 30
    }
}

} // verus!
