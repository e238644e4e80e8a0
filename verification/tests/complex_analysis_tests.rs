use duckhub::complex_analysis::{ComplexAnalyzer, ParamValue};

fn text(key: &str, value: &str) -> (String, ParamValue) {
    (key.to_string(), ParamValue::Text(value.to_string()))
}

fn items(key: &str, values: &[Option<&str>]) -> (String, ParamValue) {
    (key.to_string(), ParamValue::Items(values.iter().map(|v| v.map(|s| s.to_string())).collect()))
}

fn refusal(kind: &str, params: &Vec<(String, ParamValue)>) -> String {
    ComplexAnalyzer::new().execute_analysis(kind, params).unwrap_err().message
}

fn model_refusal(kind: &str, params: &Vec<(String, ParamValue)>) -> String {
    ComplexAnalyzer::new().execute_ml_analysis(kind, params).unwrap_err().message
}

#[test]
fn statistical_analysis_fills_its_template() {
    let params = vec![text("table", "sales"), text("column", "amount")];
    let expected = format!(
        r#"
            SELECT 
                AVG({column}) as mean,
                MEDIAN({column}) as median,
                STDDEV({column}) as std_dev,
                MIN({column}) as min_value,
                MAX({column}) as max_value,
                PERCENTILE_CONT(0.25) WITHIN GROUP (ORDER BY {column}) as q1,
                PERCENTILE_CONT(0.75) WITHIN GROUP (ORDER BY {column}) as q3
            FROM {table}
            WHERE {column} IS NOT NULL
            "#,
        table = "sales", column = "amount"
    );
    let query = ComplexAnalyzer::new().execute_analysis("statistical", &params).unwrap();
    assert_eq!(query.sql, expected);
    assert_eq!(query.execution_plan, "ComplexAnalysis: statistical");
}

#[test]
fn linear_trend_analysis_fills_its_template() {
    let params = vec![text("value_column", "amount"), text("table", "sales"), text("time_column", "day")];
    let expected = format!(
        r#"
            WITH trend_data AS (
                SELECT 
                    {time_column},
                    {value_column},
                    ROW_NUMBER() OVER (ORDER BY {time_column}) as x
                FROM {table}
                WHERE {time_column} IS NOT NULL AND {value_column} IS NOT NULL
                ORDER BY {time_column}
            ),
            trend_stats AS (
                SELECT 
                    COUNT(*) as n,
                    SUM(x) as sum_x,
                    SUM({value_column}) as sum_y,
                    SUM(x * {value_column}) as sum_xy,
                    SUM(x * x) as sum_x2
                FROM trend_data
            )
            SELECT 
                (n * sum_xy - sum_x * sum_y) / (n * sum_x2 - sum_x * sum_x) as slope,
                (sum_y - ((n * sum_xy - sum_x * sum_y) / (n * sum_x2 - sum_x * sum_x)) * sum_x) / n as intercept,
                CORR(x, {value_column}) as correlation
            FROM trend_data, trend_stats
            GROUP BY n, sum_x, sum_y, sum_xy, sum_x2
            "#,
        table = "sales", time_column = "day", value_column = "amount"
    );
    let query = ComplexAnalyzer::new().execute_analysis("trend", &params).unwrap();
    assert_eq!(query.sql, expected);
    assert_eq!(query.execution_plan, "ComplexAnalysis: trend");
}

#[test]
fn anomaly_detection_defaults_to_two_deviations() {
    let params = vec![text("table", "sales"), text("column", "amount"), text("threshold", "3")];
    let expected = format!(
        r#"
            WITH stats AS (
                SELECT 
                    AVG({column}) as mean,
                    STDDEV({column}) as std_dev
                FROM {table}
                WHERE {column} IS NOT NULL
            ),
            anomalies AS (
                SELECT 
                    *,
                    ABS(({column} - stats.mean) / stats.std_dev) as z_score
                FROM {table}, stats
                WHERE {column} IS NOT NULL
                AND ABS(({column} - stats.mean) / stats.std_dev) > {threshold}
            )
            SELECT 
                *,
                CASE 
                    WHEN z_score > {threshold} THEN '高于正常范围'
                    WHEN z_score < -{threshold} THEN '低于正常范围'
                    ELSE '正常'
                END as anomaly_type
            FROM anomalies
            ORDER BY z_score DESC
            "#,
        table = "sales", column = "amount", threshold = 2.0f64
    );
    let query = ComplexAnalyzer::new().execute_analysis("anomaly_detection", &params).unwrap();
    assert_eq!(query.sql, expected);
    assert_eq!(query.execution_plan, "ComplexAnalysis: anomaly_detection");
}

#[test]
fn anomaly_detection_uses_a_given_number() {
    let params = vec![text("table", "sales"), text("column", "amount"), ("threshold".to_string(), ParamValue::Number("3.5".to_string()))];
    let expected = format!(
        r#"
            WITH stats AS (
                SELECT 
                    AVG({column}) as mean,
                    STDDEV({column}) as std_dev
                FROM {table}
                WHERE {column} IS NOT NULL
            ),
            anomalies AS (
                SELECT 
                    *,
                    ABS(({column} - stats.mean) / stats.std_dev) as z_score
                FROM {table}, stats
                WHERE {column} IS NOT NULL
                AND ABS(({column} - stats.mean) / stats.std_dev) > {threshold}
            )
            SELECT 
                *,
                CASE 
                    WHEN z_score > {threshold} THEN '高于正常范围'
                    WHEN z_score < -{threshold} THEN '低于正常范围'
                    ELSE '正常'
                END as anomaly_type
            FROM anomalies
            ORDER BY z_score DESC
            "#,
        table = "sales", column = "amount", threshold = 3.5f64
    );
    let query = ComplexAnalyzer::new().execute_analysis("anomaly_detection", &params).unwrap();
    assert_eq!(query.sql, expected);
    assert_eq!(query.execution_plan, "ComplexAnalysis: anomaly_detection");
}

#[test]
fn correlation_takes_the_first_two_columns() {
    let params = vec![text("table", "sales"), items("columns", &[Some("price"), Some("qty"), None])];
    let expected = format!(
        r#"
            SELECT 
                '{column1}' as column1,
                '{column2}' as column2,
                CORR({column1}, {column2}) as correlation,
                COUNT(*) as sample_size,
                AVG({column1}) as mean1,
                AVG({column2}) as mean2,
                STDDEV({column1}) as std1,
                STDDEV({column2}) as std2
            FROM {table}
            WHERE {column1} IS NOT NULL AND {column2} IS NOT NULL
            "#,
        table = "sales", column1 = "price", column2 = "qty"
    );
    let query = ComplexAnalyzer::new().execute_analysis("correlation", &params).unwrap();
    assert_eq!(query.sql, expected);
    assert_eq!(query.execution_plan, "ComplexAnalysis: correlation");
}

#[test]
fn regression_fills_its_template() {
    let params = vec![text("table", "sales"), text("x_column", "price"), text("y_column", "qty")];
    let expected = format!(
        r#"
            WITH regression_data AS (
                SELECT 
                    {x_column} as x,
                    {y_column} as y
                FROM {table}
                WHERE {x_column} IS NOT NULL AND {y_column} IS NOT NULL
            ),
            regression_stats AS (
                SELECT 
                    COUNT(*) as n,
                    SUM(x) as sum_x,
                    SUM(y) as sum_y,
                    SUM(x * y) as sum_xy,
                    SUM(x * x) as sum_x2,
                    SUM(y * y) as sum_y2,
                    AVG(x) as mean_x,
                    AVG(y) as mean_y
                FROM regression_data
            )
            SELECT 
                (n * sum_xy - sum_x * sum_y) / (n * sum_x2 - sum_x * sum_x) as slope,
                (sum_y - ((n * sum_xy - sum_x * sum_y) / (n * sum_x2 - sum_x * sum_x)) * sum_x) / n as intercept,
                (n * sum_xy - sum_x * sum_y) / SQRT((n * sum_x2 - sum_x * sum_x) * (n * sum_y2 - sum_y * sum_y)) as r_squared,
                n as sample_size
            FROM regression_stats
            "#,
        table = "sales", x_column = "price", y_column = "qty"
    );
    let query = ComplexAnalyzer::new().execute_ml_analysis("linear_regression", &params).unwrap();
    assert_eq!(query.sql, expected);
    assert_eq!(query.execution_plan, "MLAnalysis: linear_regression");
}

#[test]
fn clustering_uses_the_first_column() {
    let params = vec![text("table", "sales"), items("columns", &[Some("price"), None]), ("k".to_string(), ParamValue::Number("4".to_string()))];
    let expected = format!(
        r#"
            WITH quantiles AS (
                SELECT 
                    PERCENTILE_CONT(0.33) WITHIN GROUP (ORDER BY {column}) as q1,
                    PERCENTILE_CONT(0.67) WITHIN GROUP (ORDER BY {column}) as q2
                FROM {table}
                WHERE {column} IS NOT NULL
            )
            SELECT 
                *,
                CASE 
                    WHEN {column} <= q1 THEN 'Cluster_1'
                    WHEN {column} <= q2 THEN 'Cluster_2'
                    ELSE 'Cluster_3'
                END as cluster
            FROM {table}, quantiles
            WHERE {column} IS NOT NULL
            "#,
        table = "sales", column = "price"
    );
    let query = ComplexAnalyzer::new().execute_ml_analysis("clustering", &params).unwrap();
    assert_eq!(query.sql, expected);
    assert_eq!(query.execution_plan, "MLAnalysis: clustering");
}

#[test]
fn missing_parameters_are_named_in_order() {
    assert_eq!(refusal("statistical", &vec![text("column", "amount")]), "缺少table参数");
    assert_eq!(refusal("statistical", &vec![text("table", "sales")]), "缺少column参数");
    assert_eq!(refusal("trend", &vec![text("table", "sales"), text("time_column", "day")]), "缺少value_column参数");
    assert_eq!(refusal("correlation", &vec![text("table", "sales"), text("columns", "price")]), "缺少columns参数");
    assert_eq!(model_refusal("linear_regression", &vec![text("table", "sales"), text("y_column", "qty")]), "缺少x_column参数");
}

#[test]
fn a_parameter_of_the_wrong_kind_counts_as_missing() {
    let params = vec![("table".to_string(), ParamValue::Number("1".to_string())), text("column", "amount")];
    assert_eq!(refusal("statistical", &params), "缺少table参数");
    let params = vec![("table".to_string(), ParamValue::Other), text("column", "amount")];
    assert_eq!(refusal("anomaly_detection", &params), "缺少table参数");
}

#[test]
fn correlation_needs_two_named_columns() {
    let one = vec![text("table", "sales"), items("columns", &[Some("price")])];
    assert_eq!(refusal("correlation", &one), "至少需要2个列进行相关性分析");
    let unnamed = vec![text("table", "sales"), items("columns", &[Some("price"), None])];
    assert_eq!(refusal("correlation", &unnamed), "无效的列名");
    let clustering = vec![text("table", "sales"), items("columns", &[None])];
    assert_eq!(model_refusal("clustering", &clustering), "无效的列名");
}

#[test]
fn unknown_kinds_are_refused() {
    let params = vec![text("table", "sales"), text("column", "amount")];
    assert_eq!(refusal("forecast", &params), "不支持的分析类型: forecast");
    assert_eq!(model_refusal("neural_net", &params), "不支持的ML模型: neural_net");
}
