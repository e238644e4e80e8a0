use duckhub::processors::{
    DataCleaningProcessor, DataValidationProcessor, DataRecord, RecordData, FieldValue, Processor, process_record,
    trim, recase_str, CaseType, check_type, DataType,
};
use duckhub::ingestion_config::{ProcessorConfig, ProcessorType};
use duckhub::admin::{prometheus_metrics_text, components_status, query_time_distribution, get_system_config, validate_config_section, update_config_section, ConfigField, parse_export_format, ExportFormat,
    trend_window, dashboard_status, config_key_for};
use duckhub::nlp::{analyze_nlp_query, suggest_context, history_window};
use duckhub::queries::{query_cache_key, parse_u64, resolve_target, ResolvedTarget, target_kind};
use duckhub::requests::TimeTravelTarget;
use duckhub::realtime::{WebSocketConnection, WebSocketMessage, WsAction, live_query_rows, metric_names};
use duckhub::health::ingestion_health;

fn cfg() -> ProcessorConfig {
    ProcessorConfig {
        processor_type: ProcessorType::DataCleaning,
        enabled: true,
        order: 0,
        parameters: std::collections::HashMap::new(),
    }
}

fn record(fields: Vec<(&str, FieldValue)>) -> DataRecord {
    DataRecord {
        id: "r1".to_string(),
        source: "src".to_string(),
        data: RecordData::Object(fields.into_iter().map(|(k, v)| (k.to_string(), v)).collect()),
        timestamp: 0,
        metadata: vec![],
    }
}

#[test]
fn cleaning_drops_nulls_trims_and_lowercases() {
    let p = DataCleaningProcessor::new("clean".to_string(), cfg());
    let r = p.process(record(vec![
        ("a", FieldValue::Str("  Hello World ".to_string())),
        ("b", FieldValue::Null),
        ("c", FieldValue::Int(3)),
    ]));
    assert!(r.success);
    let out = r.data.unwrap();
    match out.data {
        RecordData::Object(f) => {
            assert_eq!(f.len(), 2);
            assert_eq!(f[0].0, "a");
            assert!(matches!(&f[0].1, FieldValue::Str(s) if s == "hello world"));
            assert!(matches!(f[1].1, FieldValue::Int(3)));
        }
        _ => panic!("object expected"),
    }
    assert!(out.metadata.contains(&("processed_by".to_string(), "clean".to_string())));
    assert!(out.metadata.contains(&("processor_type".to_string(), "data_cleaning".to_string())));
    assert_eq!(r.stats.rules_applied, 3);
    assert!(p.validate_config().is_ok());
    assert!(DataCleaningProcessor::new(String::new(), cfg()).validate_config().is_err());
}

#[test]
fn validation_requires_id_and_timestamp() {
    let v = DataValidationProcessor::new("check".to_string(), cfg());
    let r = v.process(record(vec![("id", FieldValue::Int(1))]));
    assert!(!r.success);
    assert_eq!(r.error.as_deref(), Some("必填字段'timestamp'缺失"));
    let r = v.process(record(vec![("timestamp", FieldValue::Str("2024-01-01T00:00:00Z".to_string())), ("id", FieldValue::Null)]));
    assert!(r.success);
    let out = r.data.unwrap();
    assert!(out.metadata.contains(&("validation_status".to_string(), "passed".to_string())));
}

#[test]
fn pipeline_stops_at_first_refusal() {
    let procs = vec![
        Processor::Cleaning(DataCleaningProcessor::new("clean".to_string(), cfg())),
        Processor::Validation(DataValidationProcessor::new("check".to_string(), cfg())),
    ];
    // the null id is dropped by cleaning, so validation then misses it
    let e = process_record(&procs, record(vec![("id", FieldValue::Null), ("timestamp", FieldValue::Int(1))])).unwrap_err();
    assert_eq!(e, "必填字段'id'缺失");
    let ok = process_record(&procs, record(vec![("id", FieldValue::Int(7)), ("timestamp", FieldValue::Int(1))])).unwrap();
    assert_eq!(ok.metadata.len(), 4);
}

#[test]
fn text_helpers() {
    assert_eq!(trim("\t a b \n"), "a b");
    assert_eq!(trim("   "), "");
    assert_eq!(recase_str("hELLO wORLD", CaseType::Title), "Hello world");
    assert_eq!(recase_str("Ab", CaseType::Upper), "AB");
    assert!(check_type(&FieldValue::Str("2024-01-01T10:00".to_string()), DataType::DateTime));
    assert!(!check_type(&FieldValue::Str("2024-01-01".to_string()), DataType::DateTime));
    assert!(check_type(&FieldValue::Int(-1), DataType::Integer));
    assert!(!check_type(&FieldValue::UInt(u64::MAX), DataType::Integer));
    assert!(check_type(&FieldValue::Float(0), DataType::Float));
}

#[test]
fn config_section_checks() {
    let r = validate_config_section("database", ConfigField::Number(2000));
    assert!(r.valid);
    assert_eq!(r.warnings, vec!["数据库连接数过高，可能影响性能".to_string()]);
    let r = validate_config_section("database", ConfigField::Number(5));
    assert_eq!(r.suggestions, vec!["建议增加数据库连接数以提高并发性能".to_string()]);
    let r = validate_config_section("cache", ConfigField::NotNumber);
    assert!(!r.valid);
    assert_eq!(r.errors, vec!["max_size_mb必须是数字".to_string()]);
    let r = validate_config_section("security", ConfigField::Number(169));
    assert_eq!(r.warnings, vec!["JWT过期时间过长，存在安全风险".to_string()]);
    let r = validate_config_section("network", ConfigField::Absent);
    assert!(r.valid);
    assert_eq!(r.warnings, vec!["未知的配置节点: network".to_string()]);
    assert_eq!(config_key_for("cache"), Some("max_size_mb"));
    assert!(update_config_section("logging").is_ok());
    assert_eq!(update_config_section("x").unwrap_err(), "不支持的配置节点: x");
    assert!(matches!(parse_export_format("csv"), Ok(ExportFormat::Csv)));
    assert_eq!(parse_export_format("xml").err().unwrap(), "不支持的导出格式");
}

#[test]
fn dashboard_windows_and_status() {
    assert_eq!(trend_window(Some("1h")), (12, 5));
    assert_eq!(trend_window(Some("7d")), (28, 360));
    assert_eq!(trend_window(Some("30d")), (30, 1440));
    assert_eq!(trend_window(Some("2w")), (24, 60));
    assert_eq!(trend_window(None), (24, 60));
    assert_eq!(dashboard_status(&vec!["healthy".to_string(), "warning".to_string()]), "warning");
    assert_eq!(dashboard_status(&vec!["warning".to_string(), "critical".to_string()]), "critical");
    assert_eq!(dashboard_status(&vec![]), "healthy");
}

#[test]
fn nlp_intents() {
    let r = analyze_nlp_query("帮我统计一下交易");
    assert_eq!(r.intent, "查询交易统计信息");
    assert_eq!(r.confidence, 92);
    assert_eq!(analyze_nlp_query("用户数量是多少").tables, vec!["users".to_string()]);
    assert_eq!(analyze_nlp_query("最近三天").confidence, 85);
    let r = analyze_nlp_query("hello");
    assert_eq!(r.sql, "SELECT * FROM transactions LIMIT 10");
    assert_eq!(r.tables.len(), 2);
    assert_eq!(suggest_context(&Some(vec!["a".to_string(), "b".to_string()])), Some("可用表: a, b".to_string()));
    assert_eq!(suggest_context(&None), None);
    assert_eq!(history_window(None, None), (50, 0));
    assert_eq!(history_window(Some(500), Some(3)), (200, 3));
}

#[test]
fn query_keys_and_targets() {
    let k = query_cache_key("SELECT 1", None).unwrap();
    assert_eq!(k, format!("query:{:x}", md5::compute("SELECT 1")));
    assert_eq!(query_cache_key("SELECT 1", Some(false)), None);
    assert_eq!(parse_u64("42"), Some(42));
    assert_eq!(parse_u64("+7"), Some(7));
    assert_eq!(parse_u64(""), None);
    assert_eq!(parse_u64("+"), None);
    assert_eq!(parse_u64("-1"), None);
    assert_eq!(parse_u64("18446744073709551615"), Some(u64::MAX));
    assert_eq!(parse_u64("18446744073709551616"), None);
    assert_eq!(parse_u64("12a"), None);
    for s in ["0", "007", "99999999999999999999", " 1", "+0"] {
        assert_eq!(parse_u64(s), s.parse::<u64>().ok());
    }
    assert!(matches!(resolve_target(&TimeTravelTarget::Snapshot("12".to_string())), ResolvedTarget::Version(12)));
    assert!(matches!(resolve_target(&TimeTravelTarget::Snapshot("snap".to_string())), ResolvedTarget::Version(0)));
    assert!(matches!(resolve_target(&TimeTravelTarget::Timestamp(5)), ResolvedTarget::Timestamp(5)));
    assert_eq!(target_kind(&TimeTravelTarget::Version(1)), "version");
}

#[test]
fn websocket_session() {
    let mut c = WebSocketConnection::new();
    let a = c.handle_message_with(
        WebSocketMessage::SubscribeMetrics { metrics: vec!["cpu".to_string()], interval: 5 },
        "sub-1".to_string(),
    );
    assert!(matches!(a, WsAction::SendMetrics { ref subscription_id } if subscription_id == "sub-1"));
    let a = c.handle_message_with(WebSocketMessage::Ping, "unused".to_string());
    assert!(matches!(a, WsAction::SendPong));
    let a = c.handle_message_with(
        WebSocketMessage::LiveQuery { query_id: "q".to_string(), sql: "SELECT 1".to_string(), auto_refresh: true, refresh_interval: None },
        "unused".to_string(),
    );
    assert!(matches!(a, WsAction::SendQueryResult { ref query_id } if query_id == "q"));
    let a = c.handle_websocket_message(WebSocketMessage::Unsubscribe { subscription_id: "sub-1".to_string() });
    assert!(matches!(a, WsAction::NoReply));
    assert_eq!(live_query_rows(None), 10);
    assert_eq!(live_query_rows(Some(500)), 100);
    assert_eq!(metric_names(None), vec!["cpu_usage".to_string(), "memory_usage".to_string()]);
    assert_eq!(metric_names(Some(" a , b,,c")), vec!["a".to_string(), "b".to_string(), "".to_string(), "c".to_string()]);
}

#[test]
fn ingestion_service_health() {
    let h = ingestion_health(Ok(()), &vec![("kafka".to_string(), true)]);
    assert_eq!(h.overall_status, "healthy");
    assert_eq!(h.components[1].0, "source_kafka");
    let h = ingestion_health(Err("down".to_string()), &vec![]);
    assert_eq!(h.overall_status, "unhealthy");
    assert_eq!(h.components[0].1.message.as_deref(), Some("down"));
    let h = ingestion_health(Err("down".to_string()), &vec![("ws".to_string(), false)]);
    assert_eq!(h.overall_status, "degraded");
    assert_eq!(h.components[1].1.message.as_deref(), Some("数据源连接异常"));
}

#[test]
fn system_configuration_constants() {
    let c = get_system_config();
    assert_eq!(c.database.max_connections, 100);
    assert_eq!(c.database.temp_directory, "/tmp/duckhub");
    assert_eq!(c.cache.eviction_policy, "LRU");
    assert_eq!(c.security.jwt_secret, "***hidden***");
    assert_eq!(c.security.allowed_origins, vec!["http://localhost:3000".to_string()]);
    assert_eq!(c.monitoring.retention_days, 30);
    assert_eq!(c.ai.model_name, "deepseek-chat");
    assert_eq!(c.ai.temperature, 70);
    assert_eq!(c.performance.worker_threads, 14);
    assert_eq!(c.logging.max_files, 10);
    assert_eq!(c.version, "1.0.0");
    assert!(!c.last_updated.is_empty());
}

#[test]
fn unsubscribing_undoes_a_subscription() {
    let mut c = WebSocketConnection::new();
    assert!(!c.has_subscription("s1"));
    c.handle_message_with(WebSocketMessage::SubscribeMetrics { metrics: vec![], interval: 1 }, "s1".to_string());
    assert!(c.has_subscription("s1"));
    c.handle_message_with(WebSocketMessage::Unsubscribe { subscription_id: "s1".to_string() }, "x".to_string());
    assert!(!c.has_subscription("s1"));
    c.handle_message_with(
        WebSocketMessage::LiveQuery { query_id: "q9".to_string(), sql: "SELECT 2".to_string(), auto_refresh: false,
            refresh_interval: Some(3) },
        "x".to_string(),
    );
    assert!(c.has_live_query("q9"));
    assert!(!c.has_live_query("q8"));
}

#[test]
fn dashboard_component_states() {
    let s = |v: &[&str]| v.iter().map(|x| x.to_string()).collect::<Vec<String>>();
    assert_eq!(components_status(&s(&["healthy", "healthy"])), "healthy");
    assert_eq!(components_status(&s(&[])), "healthy");
    assert_eq!(components_status(&s(&["healthy", "critical", "warning"])), "critical");
    assert_eq!(components_status(&s(&["healthy", "unknown"])), "warning");
    assert_eq!(query_time_distribution(1000), (700, 250, 50));
    assert_eq!(query_time_distribution(7), (4, 1, 2));
    assert_eq!(query_time_distribution(0), (0, 0, 0));
}

#[test]
fn prometheus_export_lists_four_gauges() {
    let text = prometheus_metrics_text();
    let mut expected = String::new();
    expected.push_str("# HELP duckhub_cpu_usage_percent CPU usage percentage\n");
    expected.push_str("# TYPE duckhub_cpu_usage_percent gauge\n");
    expected.push_str("duckhub_cpu_usage_percent 42.8\n\n");
    expected.push_str("# HELP duckhub_memory_usage_percent Memory usage percentage\n");
    expected.push_str("# TYPE duckhub_memory_usage_percent gauge\n");
    expected.push_str("duckhub_memory_usage_percent 68.2\n\n");
    expected.push_str("# HELP duckhub_queries_per_second Queries per second\n");
    expected.push_str("# TYPE duckhub_queries_per_second gauge\n");
    expected.push_str("duckhub_queries_per_second 125.5\n\n");
    expected.push_str("# HELP duckhub_avg_query_time_ms Average query time in milliseconds\n");
    expected.push_str("# TYPE duckhub_avg_query_time_ms gauge\n");
    expected.push_str("duckhub_avg_query_time_ms 85.3\n\n");
    assert_eq!(text, expected);
    assert_eq!(text.matches("# TYPE").count(), 4);
}

fn is_hyphenated_uuid(s: &str) -> bool {
    s.len() == 36
        && s.char_indices().all(|(i, c)| if [8, 13, 18, 23].contains(&i) { c == '-' } else { c.is_ascii_hexdigit() && !c.is_ascii_uppercase() })
}

#[test]
fn new_subscriptions_get_fresh_uuid_identifiers() {
    let mut c = WebSocketConnection::new();
    assert!(is_hyphenated_uuid(&c.client_id));
    let a = c.handle_websocket_message(WebSocketMessage::SubscribeMetrics { metrics: vec!["cpu".to_string()], interval: 5 });
    let id = match a {
        WsAction::SendMetrics { subscription_id } => subscription_id,
        _ => panic!("a subscription is answered with metrics"),
    };
    assert!(is_hyphenated_uuid(&id));
    assert!(c.has_subscription(&id));
    assert!(matches!(c.handle_websocket_message(WebSocketMessage::Ping), WsAction::SendPong));
    c.handle_websocket_message(WebSocketMessage::Unsubscribe { subscription_id: id.clone() });
    assert!(!c.has_subscription(&id));
}
