use duckhub::time_series::TimeSeriesAnalyzer;

#[test]
fn trend_analysis_fills_its_template() {
    let analyzer = TimeSeriesAnalyzer::new();
    let expected = format!(
        r#"
            WITH trend_data AS (
                SELECT
                    DATE_TRUNC('{period}', {time_column}) as period,
                    AVG({value_column}) as avg_value,
                    COUNT(*) as data_points,
                    MIN({value_column}) as min_value,
                    MAX({value_column}) as max_value,
                    STDDEV({value_column}) as std_value
                FROM {table}
                WHERE {time_column} IS NOT NULL AND {value_column} IS NOT NULL
                GROUP BY DATE_TRUNC('{period}', {time_column})
                ORDER BY period
            ),
            trend_calculation AS (
                SELECT
                    period,
                    avg_value,
                    data_points,
                    min_value,
                    max_value,
                    std_value,
                    LAG(avg_value) OVER (ORDER BY period) as prev_avg,
                    avg_value - LAG(avg_value) OVER (ORDER BY period) as period_change,
                    CASE
                        WHEN LAG(avg_value) OVER (ORDER BY period) > 0
                        THEN (avg_value - LAG(avg_value) OVER (ORDER BY period)) / LAG(avg_value) OVER (ORDER BY period) * 100
                        ELSE NULL
                    END as percent_change,
                    AVG(avg_value) OVER (ORDER BY period ROWS BETWEEN 2 PRECEDING AND CURRENT ROW) as moving_avg_3,
                    ROW_NUMBER() OVER (ORDER BY period) as time_index
                FROM trend_data
            )
            SELECT
                period,
                avg_value,
                data_points,
                min_value,
                max_value,
                std_value,
                prev_avg,
                period_change,
                percent_change,
                moving_avg_3,
                CASE
                    WHEN period_change > 0 THEN 'Increasing'
                    WHEN period_change < 0 THEN 'Decreasing'
                    ELSE 'Stable'
                END as trend_direction
            FROM trend_calculation
            ORDER BY period
            "#,
        table = "metrics", time_column = "ts", value_column = "cpu", period = "week"
    );
    assert_eq!(analyzer.generate_trend_analysis("metrics", "ts", "cpu", "week"), expected);
}

#[test]
fn seasonality_analysis_fills_its_template() {
    let analyzer = TimeSeriesAnalyzer::new();
    let expected = format!(
        r#"
            WITH seasonal_data AS (
                SELECT
                    EXTRACT(MONTH FROM {time_column}) as month,
                    EXTRACT(DOW FROM {time_column}) as day_of_week,
                    EXTRACT(HOUR FROM {time_column}) as hour,
                    AVG({value_column}) as avg_value,
                    COUNT(*) as data_points,
                    STDDEV({value_column}) as std_value
                FROM {table}
                WHERE {time_column} IS NOT NULL AND {value_column} IS NOT NULL
                GROUP BY EXTRACT(MONTH FROM {time_column}), EXTRACT(DOW FROM {time_column}), EXTRACT(HOUR FROM {time_column})
            ),
            monthly_pattern AS (
                SELECT
                    month,
                    AVG(avg_value) as monthly_avg,
                    SUM(data_points) as monthly_points,
                    STDDEV(avg_value) as monthly_std
                FROM seasonal_data
                GROUP BY month
                ORDER BY month
            ),
            weekly_pattern AS (
                SELECT
                    day_of_week,
                    AVG(avg_value) as weekly_avg,
                    SUM(data_points) as weekly_points,
                    STDDEV(avg_value) as weekly_std
                FROM seasonal_data
                GROUP BY day_of_week
                ORDER BY day_of_week
            ),
            hourly_pattern AS (
                SELECT
                    hour,
                    AVG(avg_value) as hourly_avg,
                    SUM(data_points) as hourly_points,
                    STDDEV(avg_value) as hourly_std
                FROM seasonal_data
                GROUP BY hour
                ORDER BY hour
            )
            SELECT
                'monthly' as pattern_type,
                month as period_value,
                monthly_avg as avg_value,
                monthly_points as data_points,
                monthly_std as std_value
            FROM monthly_pattern
            UNION ALL
            SELECT
                'weekly' as pattern_type,
                day_of_week as period_value,
                weekly_avg as avg_value,
                weekly_points as data_points,
                weekly_std as std_value
            FROM weekly_pattern
            UNION ALL
            SELECT
                'hourly' as pattern_type,
                hour as period_value,
                hourly_avg as avg_value,
                hourly_points as data_points,
                hourly_std as std_value
            FROM hourly_pattern
            ORDER BY pattern_type, period_value
            "#,
        table = "metrics", time_column = "ts", value_column = "cpu"
    );
    assert_eq!(analyzer.generate_seasonality_analysis("metrics", "ts", "cpu"), expected);
}

#[test]
fn basic_stats_query_fills_its_template() {
    let analyzer = TimeSeriesAnalyzer::new();
    let expected = format!(
        r#"
            SELECT 
                COUNT(*) as data_points,
                MIN({time_column}) as start_time,
                MAX({time_column}) as end_time,
                AVG({value_column}) as mean_value,
                STDDEV({value_column}) as std_value,
                MIN({value_column}) as min_value,
                MAX({value_column}) as max_value,
                MEDIAN({value_column}) as median_value
            FROM {table}
            WHERE {time_column} IS NOT NULL AND {value_column} IS NOT NULL
            "#,
        table = "metrics", time_column = "ts", value_column = "cpu"
    );
    assert_eq!(analyzer.basic_stats_query("metrics", "ts", "cpu"), expected);
}

#[test]
fn trend_stats_query_fills_its_template() {
    let analyzer = TimeSeriesAnalyzer::new();
    let expected = format!(
        r#"
            WITH trend_data AS (
                SELECT 
                    {time_column},
                    {value_column},
                    ROW_NUMBER() OVER (ORDER BY {time_column}) as x
                FROM {table}
                WHERE {time_column} IS NOT NULL AND {value_column} IS NOT NULL
                ORDER BY {time_column}
            ),
            trend_stats AS (
                SELECT 
                    COUNT(*) as n,
                    SUM(x) as sum_x,
                    SUM({value_column}) as sum_y,
                    SUM(x * {value_column}) as sum_xy,
                    SUM(x * x) as sum_x2,
                    SUM({value_column} * {value_column}) as sum_y2
                FROM trend_data
            )
            SELECT 
                (n * sum_xy - sum_x * sum_y) / (n * sum_x2 - sum_x * sum_x) as slope,
                (n * sum_xy - sum_x * sum_y) / SQRT((n * sum_x2 - sum_x * sum_x) * (n * sum_y2 - sum_y * sum_y)) as correlation
            FROM trend_stats
            "#,
        table = "metrics", time_column = "ts", value_column = "cpu"
    );
    assert_eq!(analyzer.trend_stats_query("metrics", "ts", "cpu"), expected);
}

#[test]
fn seasonality_stats_query_fills_its_template() {
    let analyzer = TimeSeriesAnalyzer::new();
    let expected = format!(
        r#"
            WITH daily_avg AS (
                SELECT 
                    EXTRACT(DOW FROM {time_column}) as day_of_week,
                    AVG({value_column}) as avg_value
                FROM {table}
                WHERE {time_column} IS NOT NULL AND {value_column} IS NOT NULL
                GROUP BY EXTRACT(DOW FROM {time_column})
            ),
            weekly_variance AS (
                SELECT 
                    STDDEV(avg_value) / AVG(avg_value) as weekly_cv
                FROM daily_avg
            ),
            monthly_avg AS (
                SELECT 
                    EXTRACT(DAY FROM {time_column}) as day_of_month,
                    AVG({value_column}) as avg_value
                FROM {table}
                WHERE {time_column} IS NOT NULL AND {value_column} IS NOT NULL
                GROUP BY EXTRACT(DAY FROM {time_column})
            ),
            monthly_variance AS (
                SELECT 
                    STDDEV(avg_value) / AVG(avg_value) as monthly_cv
                FROM monthly_avg
            )
            SELECT 
                weekly_cv,
                monthly_cv,
                CASE 
                    WHEN weekly_cv > 0.1 THEN true
                    WHEN monthly_cv > 0.1 THEN true
                    ELSE false
                END as has_seasonality
            FROM weekly_variance, monthly_variance
            "#,
        table = "metrics", time_column = "ts", value_column = "cpu"
    );
    assert_eq!(analyzer.seasonality_stats_query("metrics", "ts", "cpu"), expected);
}

#[test]
fn anomalies_use_the_threshold_text() {
    let analyzer = TimeSeriesAnalyzer::new();
    let expected = format!(
        r#"
            WITH time_series AS (
                SELECT 
                    {time_column},
                    {value_column},
                    AVG({value_column}) OVER (
                        ORDER BY {time_column} 
                        ROWS BETWEEN 6 PRECEDING AND CURRENT ROW
                    ) as moving_avg,
                    STDDEV({value_column}) OVER (
                        ORDER BY {time_column} 
                        ROWS BETWEEN 6 PRECEDING AND CURRENT ROW
                    ) as moving_std
                FROM {table}
                WHERE {time_column} IS NOT NULL AND {value_column} IS NOT NULL
                ORDER BY {time_column}
            ),
            anomalies AS (
                SELECT 
                    *,
                    ABS({value_column} - moving_avg) / NULLIF(moving_std, 0) as z_score,
                    CASE 
                        WHEN ABS({value_column} - moving_avg) / NULLIF(moving_std, 0) > {threshold} THEN true
                        ELSE false
                    END as is_anomaly
                FROM time_series
                WHERE moving_std IS NOT NULL AND moving_std > 0
            )
            SELECT 
                {time_column},
                {value_column},
                moving_avg,
                moving_std,
                z_score,
                is_anomaly,
                CASE 
                    WHEN {value_column} > moving_avg + {threshold} * moving_std THEN '异常高值'
                    WHEN {value_column} < moving_avg - {threshold} * moving_std THEN '异常低值'
                    ELSE '正常'
                END as anomaly_type
            FROM anomalies
            WHERE is_anomaly = true
            ORDER BY {time_column}
            "#,
        table = "metrics", time_column = "ts", value_column = "cpu", threshold = 2.5f64
    );
    assert_eq!(analyzer.detect_anomalies("metrics", "ts", "cpu", "2.5"), expected);
}

#[test]
fn forecast_runs_over_the_periods() {
    let analyzer = TimeSeriesAnalyzer::new();
    let expected = format!(
        r#"
            WITH trend_data AS (
                SELECT 
                    {time_column},
                    {value_column},
                    ROW_NUMBER() OVER (ORDER BY {time_column}) as x
                FROM {table}
                WHERE {time_column} IS NOT NULL AND {value_column} IS NOT NULL
                ORDER BY {time_column}
            ),
            trend_params AS (
                SELECT 
                    COUNT(*) as n,
                    SUM(x) as sum_x,
                    SUM({value_column}) as sum_y,
                    SUM(x * {value_column}) as sum_xy,
                    SUM(x * x) as sum_x2,
                    MAX(x) as max_x,
                    MAX({time_column}) as last_time
                FROM trend_data
            ),
            regression AS (
                SELECT 
                    (n * sum_xy - sum_x * sum_y) / (n * sum_x2 - sum_x * sum_x) as slope,
                    (sum_y - ((n * sum_xy - sum_x * sum_y) / (n * sum_x2 - sum_x * sum_x)) * sum_x) / n as intercept,
                    max_x,
                    last_time
                FROM trend_params
            ),
            forecast_periods AS (
                SELECT generate_series(1, {periods}) as period_ahead
            )
            SELECT 
                last_time + INTERVAL '1 day' * period_ahead as forecast_time,
                intercept + slope * (max_x + period_ahead) as forecast_value,
                period_ahead
            FROM regression, forecast_periods
            ORDER BY period_ahead
            "#,
        table = "metrics", time_column = "ts", value_column = "cpu", periods = 14
    );
    assert_eq!(analyzer.simple_forecast("metrics", "ts", "cpu", 14), expected);
}

#[test]
fn decomposition_uses_half_the_period() {
    let analyzer = TimeSeriesAnalyzer::new();
    let expected = format!(
        r#"
            WITH time_series AS (
                SELECT 
                    {time_column},
                    {value_column},
                    ROW_NUMBER() OVER (ORDER BY {time_column}) as x
                FROM {table}
                WHERE {time_column} IS NOT NULL AND {value_column} IS NOT NULL
                ORDER BY {time_column}
            ),
            trend_component AS (
                SELECT 
                    *,
                    AVG({value_column}) OVER (
                        ORDER BY {time_column} 
                        ROWS BETWEEN {half_period} PRECEDING AND {half_period} FOLLOWING
                    ) as trend
                FROM time_series
            ),
            seasonal_component AS (
                SELECT 
                    *,
                    {value_column} - trend as detrended,
                    x % {period} as seasonal_index
                FROM trend_component
            ),
            seasonal_avg AS (
                SELECT 
                    seasonal_index,
                    AVG(detrended) as seasonal_factor
                FROM seasonal_component
                WHERE trend IS NOT NULL
                GROUP BY seasonal_index
            )
            SELECT 
                sc.{time_column},
                sc.{value_column} as original,
                sc.trend,
                COALESCE(sa.seasonal_factor, 0) as seasonal,
                sc.{value_column} - sc.trend - COALESCE(sa.seasonal_factor, 0) as residual
            FROM seasonal_component sc
            LEFT JOIN seasonal_avg sa ON sc.seasonal_index = sa.seasonal_index
            WHERE sc.trend IS NOT NULL
            ORDER BY sc.{time_column}
            "#,
        table = "metrics", time_column = "ts", value_column = "cpu", period = 7, half_period = 7 / 2
    );
    assert_eq!(analyzer.decompose_time_series("metrics", "ts", "cpu", 7), expected);
}

#[test]
fn decomposition_halves_a_negative_period_toward_zero() {
    let analyzer = TimeSeriesAnalyzer::new();
    let expected = format!(
        r#"
            WITH time_series AS (
                SELECT 
                    {time_column},
                    {value_column},
                    ROW_NUMBER() OVER (ORDER BY {time_column}) as x
                FROM {table}
                WHERE {time_column} IS NOT NULL AND {value_column} IS NOT NULL
                ORDER BY {time_column}
            ),
            trend_component AS (
                SELECT 
                    *,
                    AVG({value_column}) OVER (
                        ORDER BY {time_column} 
                        ROWS BETWEEN {half_period} PRECEDING AND {half_period} FOLLOWING
                    ) as trend
                FROM time_series
            ),
            seasonal_component AS (
                SELECT 
                    *,
                    {value_column} - trend as detrended,
                    x % {period} as seasonal_index
                FROM trend_component
            ),
            seasonal_avg AS (
                SELECT 
                    seasonal_index,
                    AVG(detrended) as seasonal_factor
                FROM seasonal_component
                WHERE trend IS NOT NULL
                GROUP BY seasonal_index
            )
            SELECT 
                sc.{time_column},
                sc.{value_column} as original,
                sc.trend,
                COALESCE(sa.seasonal_factor, 0) as seasonal,
                sc.{value_column} - sc.trend - COALESCE(sa.seasonal_factor, 0) as residual
            FROM seasonal_component sc
            LEFT JOIN seasonal_avg sa ON sc.seasonal_index = sa.seasonal_index
            WHERE sc.trend IS NOT NULL
            ORDER BY sc.{time_column}
            "#,
        table = "metrics", time_column = "ts", value_column = "cpu", period = -7, half_period = -7i32 / 2
    );
    assert_eq!(analyzer.decompose_time_series("metrics", "ts", "cpu", -7), expected);
}

#[test]
fn seasons_are_sought_only_beyond_thirty_days() {
    assert!(TimeSeriesAnalyzer::needs_seasonality(31));
    assert!(!TimeSeriesAnalyzer::needs_seasonality(30));
    assert!(!TimeSeriesAnalyzer::needs_seasonality(-5));
}
