//! Settings of the data ingestion service and their validation.
use vstd::prelude::*;
use std::collections::HashMap;
use std::time::Duration;
use crate::format::{duration_from_secs, duration_of_secs};
use crate::text::{chars_of, string_of};
use crate::format::append_chars;

verus! {

/// The kind of a data source.
#[derive(Debug)]
pub enum DataSourceType {
    /// A message queue such as Kafka.
    MessageQueue,
    /// A WebSocket stream.
    WebSocket,
    /// A polled REST API.
    RestApi,
}

/// How the service authenticates to a source.
#[derive(Debug)]
pub enum AuthType {
    /// No authentication.
    NoAuth,
    /// User name and password.
    Basic,
    /// An API key.
    ApiKey,
    /// A bearer token.
    Bearer,
    /// OAuth 2.
    OAuth2,
}

/// The format of incoming data.
#[derive(Debug)]
pub enum DataFormat {
    /// JSON.
    Json,
    /// CSV.
    Csv,
    /// Parquet.
    Parquet,
    /// Avro.
    Avro,
    /// Plain text.
    Text,
}

/// Credentials for a source.
#[derive(Debug)]
pub struct AuthConfig {
    /// The kind of authentication.
    pub auth_type: AuthType,
    /// User name.
    pub username: Option<String>,
    /// Password.
    pub password: Option<String>,
    /// API key.
    pub api_key: Option<String>,
    /// Token.
    pub token: Option<String>,
}

/// How to connect to a source.
#[derive(Debug)]
pub struct ConnectionConfig {
    /// Address of the source.
    pub url: String,
    /// Credentials.
    pub auth: Option<AuthConfig>,
    /// Connection timeout in seconds.
    pub timeout_secs: u64,
    /// Largest number of connections.
    pub max_connections: u32,
    /// Extra parameters.
    pub parameters: HashMap<String, String>,
}

/// Checks applied to incoming records.
#[derive(Debug)]
pub struct QualityCheckConfig {
    /// Whether the checks run.
    pub enabled: bool,
    /// Fields every record must have.
    pub required_fields: Vec<String>,
    /// Whether field types are checked.
    pub type_validation: bool,
    /// Custom rules.
    pub custom_rules: Vec<String>,
}

impl Default for QualityCheckConfig {
    fn default() -> (c: Self)
        ensures
            c.enabled,
            c.required_fields@.len() == 0,
            c.type_validation,
            c.custom_rules@.len() == 0,
    {
        QualityCheckConfig { enabled: true, required_fields: Vec::new(), type_validation: true, custom_rules: Vec::new() }
    }
}

/// A configured source.
#[derive(Debug)]
pub struct DataSourceConfig {
    /// Kind of source.
    pub source_type: DataSourceType,
    /// Connection settings.
    pub connection: ConnectionConfig,
    /// Whether it is read.
    pub enabled: bool,
    /// Polling interval in seconds.
    pub poll_interval_secs: Option<u64>,
    /// Data format.
    pub data_format: DataFormat,
    /// Quality checks.
    pub quality_checks: QualityCheckConfig,
}

/// The kind of a processor.
#[derive(Debug)]
pub enum ProcessorType {
    /// Cleaning.
    DataCleaning,
    /// Transformation.
    DataTransformation,
    /// Validation.
    DataValidation,
    /// Enrichment.
    DataEnrichment,
    /// Filtering.
    DataFiltering,
}

/// A configured processor.
#[derive(Debug)]
pub struct ProcessorConfig {
    /// Kind of processor.
    pub processor_type: ProcessorType,
    /// Whether it runs.
    pub enabled: bool,
    /// Position in the pipeline.
    pub order: u32,
    /// Parameters.
    pub parameters: HashMap<String, String>,
}

/// Monitoring settings of the service.
#[derive(Debug)]
pub struct MonitoringConfig {
    /// Whether monitoring is on.
    pub enabled: bool,
    /// Port of the metrics endpoint.
    pub metrics_port: u16,
    /// Path of the health endpoint.
    pub health_check_path: String,
    /// Log level.
    pub log_level: String,
}

impl Default for MonitoringConfig {
    fn default() -> (c: Self)
        ensures
            c.enabled,
            c.metrics_port == 9090,
            c.health_check_path@ == "/health"@,
            c.log_level@ == "info"@,
    {
        MonitoringConfig {
            enabled: true,
            metrics_port: 9090,
            health_check_path: "/health".to_string(),
            log_level: "info".to_string(),
        }
    }
}

/// Settings of the data ingestion service.
#[derive(Debug)]
pub struct IngestionConfig {
    /// Service name.
    pub service_name: String,
    /// Port.
    pub port: u16,
    /// Worker threads.
    pub worker_threads: usize,
    /// Records per batch.
    pub batch_size: usize,
    /// Seconds before a partial batch is flushed.
    pub batch_timeout_secs: u64,
    /// Retries of a failed write.
    pub max_retries: u32,
    /// Milliseconds between retries.
    pub retry_interval_ms: u64,
    /// Sources by name.
    pub sources: Vec<(String, DataSourceConfig)>,
    /// Processors by name.
    pub processors: Vec<(String, ProcessorConfig)>,
    /// Monitoring settings.
    pub monitoring: MonitoringConfig,
}

impl Default for IngestionConfig {
    fn default() -> (c: Self)
        ensures
            c.service_name@ == "duckhub-data-ingestion"@,
            c.port == 8080,
            c.worker_threads == 4,
            c.batch_size == 1000,
            c.batch_timeout_secs == 30,
            c.max_retries == 3,
            c.retry_interval_ms == 1000,
            c.sources@.len() == 0,
            c.processors@.len() == 0,
    {
        IngestionConfig {
            service_name: "duckhub-data-ingestion".to_string(),
            port: 8080,
            worker_threads: 4,
            batch_size: 1000,
            batch_timeout_secs: 30,
            max_retries: 3,
            retry_interval_ms: 1000,
            sources: Vec::new(),
            processors: Vec::new(),
            monitoring: MonitoringConfig::default(),
        }
    }
}

/// Whether some source has an empty connection address.
pub open spec fn has_source_without_url(sources: Seq<(String, DataSourceConfig)>) -> bool {
    exists|i: int| 0 <= i < sources.len() && (#[trigger] sources[i]).1.connection.url@.len() == 0
}

/// Whether settings pass validation: a service name, a port, workers and a batch size, and a
/// connection address for every source.
pub open spec fn config_ok(c: IngestionConfig) -> bool {
    &&& c.service_name@.len() > 0
    &&& c.port != 0
    &&& c.worker_threads != 0
    &&& c.batch_size != 0
    &&& !has_source_without_url(c.sources@)
}

/// Whether `m` is the message that refuses settings `c`: that of the first missing setting,
/// checked in the order name, port, workers, batch size, then a source without an address,
/// which the message names.
pub open spec fn refusal_message(c: IngestionConfig, m: Seq<char>) -> bool {
    if c.service_name@.len() == 0 {
        m == "服务名称不能为空"@
    } else if c.port == 0 {
        m == "端口号必须大于0"@
    } else if c.worker_threads == 0 {
        m == "工作线程数必须大于0"@
    } else if c.batch_size == 0 {
        m == "批处理大小必须大于0"@
    } else {
        exists|i: int| 0 <= i < c.sources.len() && (#[trigger] c.sources@[i]).1.connection.url@.len() == 0
            && m == "数据源'"@ + c.sources@[i].0@ + "'的连接URL不能为空"@
    }
}

/// The value of `Duration::from_millis(ms)`.
pub uninterp spec fn duration_of_millis(ms: u64) -> Duration;

/// Calls `Duration::from_millis`, which is deterministic in its argument.
#[verifier::external_body]
fn duration_from_millis(ms: u64) -> (d: Duration)
    ensures
        d == duration_of_millis(ms),
{
    Duration::from_millis(ms)
}

impl IngestionConfig {
    /// Checks the settings: the service name must not be empty, the port, the
    /// worker count and the batch size must not be zero, and every source needs a
    /// connection address. The first problem found is reported; for sources, the
    /// message names the first source without an address.
    pub fn validate(&self) -> (r: Result<(), String>)
        ensures
            r is Ok <==> config_ok(*self),
            r matches Err(e) ==> refusal_message(*self, e@),
    {
        if self.service_name.as_str().is_empty() {
            return Err("服务名称不能为空".to_string());
        }
        if self.port == 0 {
            return Err("端口号必须大于0".to_string());
        }
        if self.worker_threads == 0 {
            return Err("工作线程数必须大于0".to_string());
        }
        if self.batch_size == 0 {
            return Err("批处理大小必须大于0".to_string());
        }
        let mut i: usize = 0;
        while i < self.sources.len()
            invariant
                i <= self.sources@.len(),
                self.service_name@.len() > 0,
                self.port != 0,
                self.worker_threads != 0,
                self.batch_size != 0,
                forall|j: int| 0 <= j < i ==> (#[trigger] self.sources@[j]).1.connection.url@.len() != 0,
            decreases self.sources.len() - i,
        {
            if self.sources[i].1.connection.url.as_str().is_empty() {
                let mut msg = chars_of("数据源'");
                let name = chars_of(self.sources[i].0.as_str());
                append_chars(&mut msg, &name);
                let tail = chars_of("'的连接URL不能为空");
                append_chars(&mut msg, &tail);
                return Err(string_of(&msg));
            }
            i = i + 1;
        }
        Ok(())
    }

    /// The batch timeout as a duration.
    pub fn get_batch_timeout(&self) -> (d: Duration)
        ensures
            d == duration_of_secs(self.batch_timeout_secs),
    {
        duration_from_secs(self.batch_timeout_secs)
    }

    /// The retry interval as a duration.
    pub fn get_retry_interval(&self) -> (d: Duration)
        ensures
            d == duration_of_millis(self.retry_interval_ms),
    {
        duration_from_millis(self.retry_interval_ms)
    }
}

} // verus!
