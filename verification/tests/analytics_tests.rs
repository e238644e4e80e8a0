use duckhub::analytics::{WindowFunctionProcessor, QueryOptimizer, QueryAnalyticsConfig, time_series_query};
use duckhub::monitoring::{
    HealthStatusLevel, overall_health, parse_status_level, usage_check, check_disk_space, check_memory_usage,
    check_cpu_usage, default_health_checks, AlertManager, AlertConfig, default_alert_rules, HealthCheckType,
};
use duckhub::ingestion_config::{IngestionConfig, DataSourceConfig, DataSourceType, ConnectionConfig, DataFormat,
    QualityCheckConfig};
use std::time::Duration;

#[test]
fn ranking_sql_matches_the_template() {
    let p = WindowFunctionProcessor::new();
    let partition_clause = "PARTITION BY region, team";
    let expected = format!(
        r#"
            SELECT *,
                ROW_NUMBER() OVER ({partition_clause} ORDER BY {rank_column} DESC) as row_num,
                RANK() OVER ({partition_clause} ORDER BY {rank_column} DESC) as rank,
                DENSE_RANK() OVER ({partition_clause} ORDER BY {rank_column} DESC) as dense_rank,
                PERCENT_RANK() OVER ({partition_clause} ORDER BY {rank_column} DESC) as percent_rank
            FROM {table}
            ORDER BY {rank_column} DESC
            "#,
        table = "sales",
        rank_column = "amount",
        partition_clause = partition_clause
    );
    assert_eq!(p.generate_ranking_query("sales", "amount", &["region".to_string(), "team".to_string()]), expected);
    assert!(p.generate_ranking_query("sales", "amount", &[]).contains("ROW_NUMBER() OVER ( ORDER BY amount DESC)"));
}

#[test]
fn window_queries_fill_their_parameters() {
    let p = WindowFunctionProcessor::new();
    let q = p.generate_moving_average_query("prices", "close", 5, "day");
    assert!(q.contains("ROWS BETWEEN 4 PRECEDING AND CURRENT ROW"));
    assert!(q.contains("as moving_avg_4"));
    let q = p.generate_group_ranking_query("t", &["a".to_string(), "b".to_string()], "score", 3);
    assert!(q.contains("PARTITION BY a, b ORDER BY score DESC"));
    assert!(q.contains("WHERE rn <= 3"));
    assert!(q.contains("ORDER BY a, b, rn"));
    let q = p.generate_period_comparison_query("t", "ts", "v", "quarter");
    assert!(q.contains("LAG(period_value, 3)"));
    let q = p.generate_period_comparison_query("t", "ts", "v", "week");
    assert!(q.contains("LAG(period_value, 1)"));
    let q = p.generate_period_comparison_query("t", "ts", "v", "year");
    assert!(q.contains("LAG(period_value, 12)"));
    assert!(p.generate_cumulative_stats_query("t", "v", "ts").contains("SUM(v) OVER (ORDER BY ts) as cumulative_sum"));
    assert!(p.generate_time_window_query("t", "ts", "v", "hour").contains("DATE_TRUNC('hour', ts) as time_window"));
}

#[test]
fn window_advice() {
    let p = WindowFunctionProcessor::new();
    let s = p.get_window_function_suggestions("select row_number() over (partition by a order by b) from t");
    assert_eq!(s, vec!["ROW_NUMBER()查询建议添加LIMIT子句以提高性能".to_string(), "确保分区列和排序列上有适当的索引".to_string()]);
    assert!(p.get_window_function_suggestions("SELECT 1").is_empty());
    let many = "SELECT a OVER, b OVER, c OVER, d OVER, e OVER, f OVER";
    assert_eq!(p.get_window_function_suggestions(many), vec!["复杂的多窗口函数查询建议考虑分解为多个步骤".to_string()]);
}

#[test]
fn test_query_optimizer() {
    let optimizer = QueryOptimizer::new(QueryAnalyticsConfig::default());
    let optimized = optimizer.optimize_query("SELECT 1 + 1 as result");
    assert!(optimized.contains("2"));
    let suggestions = optimizer.get_optimization_suggestions("SELECT * FROM table ORDER BY id");
    assert!(!suggestions.is_empty());
    assert_eq!(optimizer.optimize_query("SELECT 1 + 1 as result"), "SELECT 2 as result");
    assert_eq!(optimizer.optimize_query("SELECT * FROM table ORDER BY id"), "SELECT * FROM table ORDER BY id");
    assert_eq!(optimizer.apply_constant_folding("SELECT 1 + 1 + 1, 2 * 2, TRUE AND TRUE"), "SELECT 2 + 1, 4, TRUE");
    let s = optimizer.get_optimization_suggestions("select * from a order by x");
    assert_eq!(s.len(), 2);
    let s = optimizer.get_optimization_suggestions("SELECT a FROM t JOIN u JOIN v JOIN w JOIN x LIMIT 5");
    assert_eq!(s, vec!["复杂的多表连接建议考虑分解为多个简单查询".to_string()]);
}

#[test]
fn health_levels_take_the_worst() {
    let (ok, warn, bad) = (HealthStatusLevel::Healthy, HealthStatusLevel::Warning, HealthStatusLevel::Unhealthy);
    assert!(matches!(overall_health(&vec![]), HealthStatusLevel::Healthy));
    assert!(matches!(overall_health(&vec![ok, warn, ok]), HealthStatusLevel::Warning));
    assert!(matches!(overall_health(&vec![warn, bad, ok]), HealthStatusLevel::Unhealthy));
    assert!(matches!(parse_status_level("Warning"), HealthStatusLevel::Warning));
    assert!(matches!(parse_status_level("Unhealthy"), HealthStatusLevel::Unhealthy));
    assert!(matches!(parse_status_level("Healthy"), HealthStatusLevel::Healthy));
    assert!(matches!(parse_status_level("garbage"), HealthStatusLevel::Healthy));
}

#[test]
fn usage_checks_and_messages() {
    let (l, m) = usage_check("磁盘", 9550, 9000);
    assert!(matches!(l, HealthStatusLevel::Warning));
    assert_eq!(m, "磁盘使用率 95.5% 超过阈值 90.0%");
    let (l, m) = check_disk_space(9000);
    assert!(matches!(l, HealthStatusLevel::Healthy));
    assert_eq!(m, "磁盘使用率 50.0% 正常");
    assert_eq!(check_memory_usage(5000).1, "内存使用率 60.0% 超过阈值 50.0%");
    assert_eq!(check_cpu_usage(8000).1, "CPU使用率 45.0% 正常");
    assert_eq!(usage_check("CPU", 1234, 9999).1, format!("CPU使用率 {:.1}% 正常", 12.34f64));
    let checks = default_health_checks();
    assert_eq!(checks.len(), 4);
    assert!(matches!(checks[1].check_type, HealthCheckType::DiskSpace { threshold: 9000, .. }));
}

#[test]
fn default_alert_rules_do_not_fire() {
    let mut m = AlertManager::new(AlertConfig::default());
    assert_eq!(m.check_alerts(1000), 0);
    assert!(m.get_active_alerts().is_empty());
    let rules = default_alert_rules();
    assert_eq!(rules.len(), 3);
    assert_eq!(rules[2].threshold, 9000);
    let mut cfg = AlertConfig::default();
    cfg.enabled = false;
    let mut m = AlertManager::new(cfg);
    assert_eq!(m.check_alerts(0), 0);
}

fn source(url: &str) -> DataSourceConfig {
    DataSourceConfig {
        source_type: DataSourceType::RestApi,
        connection: ConnectionConfig {
            url: url.to_string(),
            auth: None,
            timeout_secs: 5,
            max_connections: 1,
            parameters: std::collections::HashMap::new(),
        },
        enabled: true,
        poll_interval_secs: None,
        data_format: DataFormat::Json,
        quality_checks: QualityCheckConfig::default(),
    }
}

#[test]
fn ingestion_config_validation() {
    let mut c = IngestionConfig::default();
    assert!(c.validate().is_ok());
    assert_eq!(c.get_batch_timeout(), Duration::from_secs(30));
    assert_eq!(c.get_retry_interval(), Duration::from_millis(1000));
    c.sources.push(("orders".to_string(), source("http://x")));
    c.sources.push(("events".to_string(), source("")));
    assert_eq!(c.validate().unwrap_err(), "数据源'events'的连接URL不能为空");
    c.batch_size = 0;
    assert_eq!(c.validate().unwrap_err(), "批处理大小必须大于0");
    c.service_name = String::new();
    assert_eq!(c.validate().unwrap_err(), "服务名称不能为空");
}

#[test]
fn time_series_reads_the_latest_points() {
    assert_eq!(time_series_query("m", "ts", "v"), "SELECT ts, v FROM m ORDER BY ts DESC LIMIT 100");
}
