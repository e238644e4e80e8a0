use duckhub::sources::{ConnectionStatus, SourceKind, SourceState};

#[test]
fn a_new_source_is_stopped_and_disconnected() {
    let source = SourceState::new("orders".to_string(), SourceKind::Kafka);
    assert_eq!(source.name(), "orders");
    assert!(!source.is_running);
    assert!(!source.health_check());
    let stats = source.get_stats();
    assert_eq!(stats.records_processed, 0);
    assert_eq!(stats.records_failed, 0);
    assert!(stats.last_processed_at.is_none());
    assert!(stats.last_error.is_none());
    assert!(matches!(stats.connection_status, ConnectionStatus::Disconnected));
}

#[test]
fn a_started_source_is_connected_and_healthy() {
    let mut source = SourceState::new("feed".to_string(), SourceKind::WebSocket);
    assert!(source.start().is_ok());
    assert!(source.is_running);
    assert!(source.health_check());
    assert!(matches!(source.get_stats().connection_status, ConnectionStatus::Connected));
}

#[test]
fn a_running_source_refuses_a_second_start() {
    let mut kafka = SourceState::new("orders".to_string(), SourceKind::Kafka);
    kafka.start().unwrap();
    assert_eq!(kafka.start().unwrap_err(), "Kafka数据源已在运行中");
    assert!(kafka.is_running);
    let mut socket = SourceState::new("feed".to_string(), SourceKind::WebSocket);
    socket.start().unwrap();
    assert_eq!(socket.start().unwrap_err(), "WebSocket数据源已在运行中");
    let mut api = SourceState::new("poll".to_string(), SourceKind::RestApi);
    api.start().unwrap();
    assert_eq!(api.start().unwrap_err(), "REST API数据源已在运行中");
}

#[test]
fn a_stopped_source_can_start_again() {
    let mut source = SourceState::new("orders".to_string(), SourceKind::Kafka);
    source.start().unwrap();
    source.stats.records_processed = 7;
    source.stop();
    assert!(!source.is_running);
    assert!(!source.health_check());
    assert_eq!(source.get_stats().records_processed, 7);
    assert!(source.start().is_ok());
    assert!(source.health_check());
}

#[test]
fn stats_copies_keep_the_error() {
    let mut source = SourceState::new("poll".to_string(), SourceKind::RestApi);
    source.stats.connection_status = ConnectionStatus::Error("timeout".to_string());
    source.stats.last_error = Some("timeout".to_string());
    let stats = source.get_stats();
    assert!(matches!(stats.connection_status, ConnectionStatus::Error(ref e) if e == "timeout"));
    assert_eq!(stats.last_error.as_deref(), Some("timeout"));
    assert!(!source.health_check());
}

use duckhub::ingestion_config::{
    ConnectionConfig, DataFormat, DataSourceConfig, DataSourceType, IngestionConfig, ProcessorConfig, ProcessorType,
    QualityCheckConfig,
};
use duckhub::ingestion_service::{initialize_processors, initialize_sources};
use duckhub::processors::Processor;
use std::collections::HashMap;

fn source(source_type: DataSourceType, enabled: bool) -> DataSourceConfig {
    DataSourceConfig {
        source_type,
        connection: ConnectionConfig {
            url: "http://localhost".to_string(),
            auth: None,
            timeout_secs: 30,
            max_connections: 4,
            parameters: HashMap::new(),
        },
        enabled,
        poll_interval_secs: None,
        data_format: DataFormat::Json,
        quality_checks: QualityCheckConfig::default(),
    }
}

fn step(processor_type: ProcessorType, enabled: bool) -> ProcessorConfig {
    ProcessorConfig { processor_type, enabled, order: 0, parameters: HashMap::new() }
}

#[test]
fn only_enabled_sources_are_built_in_order() {
    let mut config = IngestionConfig::default();
    config.sources.push(("orders".to_string(), source(DataSourceType::MessageQueue, true)));
    config.sources.push(("feed".to_string(), source(DataSourceType::WebSocket, false)));
    config.sources.push(("poll".to_string(), source(DataSourceType::RestApi, true)));
    let sources = initialize_sources(&config);
    assert_eq!(sources.len(), 2);
    assert_eq!(sources[0].name(), "orders");
    assert!(matches!(sources[0].kind, SourceKind::Kafka));
    assert_eq!(sources[1].name(), "poll");
    assert!(matches!(sources[1].kind, SourceKind::RestApi));
    assert!(sources.iter().all(|s| !s.is_running && !s.health_check()));
}

#[test]
fn only_cleaning_and_validation_steps_get_processors() {
    let mut config = IngestionConfig::default();
    config.processors.push(("clean".to_string(), step(ProcessorType::DataCleaning, true)));
    config.processors.push(("reshape".to_string(), step(ProcessorType::DataTransformation, true)));
    config.processors.push(("check".to_string(), step(ProcessorType::DataValidation, true)));
    config.processors.push(("off".to_string(), step(ProcessorType::DataCleaning, false)));
    let processors = initialize_processors(&config);
    assert_eq!(processors.len(), 2);
    match &processors[0] {
        Processor::Cleaning(p) => assert_eq!(p.name(), "clean"),
        _ => panic!("a cleaner comes first"),
    }
    match &processors[1] {
        Processor::Validation(p) => assert_eq!(p.name(), "check"),
        _ => panic!("a validator comes second"),
    }
    assert!(initialize_sources(&IngestionConfig::default()).is_empty());
}

use duckhub::ingestion_service::DataIngestionService;

#[test]
fn test_data_ingestion_service_creation() {
    let config = IngestionConfig::default();
    let service = DataIngestionService::new(config);
    assert!(service.is_ok());
}

#[test]
fn test_service_start_stop() {
    let config = IngestionConfig::default();
    let mut service = DataIngestionService::new(config).unwrap();

    assert!(service.start().is_ok());

    let status = service.get_status();
    assert!(status.is_running);

    let cancelled = service.stop();
    assert!(cancelled.is_empty());
    assert!(!service.get_status().is_running);
}

#[test]
fn invalid_settings_are_refused_with_their_first_problem() {
    let mut config = IngestionConfig::default();
    config.port = 0;
    assert_eq!(DataIngestionService::new(config).unwrap_err(), "端口号必须大于0");
    let mut config = IngestionConfig::default();
    config.sources.push(("orders".to_string(), source(DataSourceType::MessageQueue, true)));
    config.sources[0].1.connection.url = String::new();
    assert_eq!(DataIngestionService::new(config).unwrap_err(), "数据源'orders'的连接URL不能为空");
}

#[test]
fn a_running_service_refuses_to_start_again_and_stops_its_sources() {
    let mut config = IngestionConfig::default();
    config.sources.push(("orders".to_string(), source(DataSourceType::MessageQueue, true)));
    config.sources.push(("feed".to_string(), source(DataSourceType::WebSocket, false)));
    config.processors.push(("clean".to_string(), step(ProcessorType::DataCleaning, true)));
    let mut service = DataIngestionService::new(config).unwrap();
    service.start().unwrap();
    assert_eq!(service.sources.len(), 1);
    assert!(service.sources[0].is_running && service.sources[0].health_check());
    assert_eq!(service.start().unwrap_err(), "数据采集服务已在运行中");
    let status = service.get_status();
    assert_eq!((status.sources_count, status.processors_count, status.active_tasks), (1, 1, 0));
    service.stop();
    assert!(!service.sources[0].is_running && !service.sources[0].health_check());
    assert!(service.start().is_ok());
}

use duckhub::processors::{DataRecord, FieldValue, RecordData};

#[test]
fn processed_and_failed_records_are_counted() {
    let mut config = IngestionConfig::default();
    config.processors.push(("check".to_string(), step(ProcessorType::DataValidation, true)));
    let mut service = DataIngestionService::new(config).unwrap();
    service.start().unwrap();
    let good = DataRecord::new(
        "orders".to_string(),
        RecordData::Object(vec![
            ("id".to_string(), FieldValue::Int(1)),
            ("timestamp".to_string(), FieldValue::Int(1700000000)),
        ]),
    );
    assert!(service.process(good).is_ok());
    let bad = DataRecord::new("orders".to_string(), RecordData::Object(vec![("id".to_string(), FieldValue::Int(2))]));
    assert!(service.process(bad).is_err());
    let status = service.get_status();
    assert_eq!((status.total_records_processed, status.total_records_failed), (1, 1));
}
