//! System administration: the configuration sections and the checks applied to
//! an update, and the dashboard's time windows and overall status.
use vstd::prelude::*;
use crate::text::{str_eq, chars_of, string_of};
use crate::format::append_chars;
use crate::ambient::now_text;

verus! {

/// Database settings.
#[derive(Debug)]
pub struct DatabaseConfig {
    /// Largest number of connections.
    pub max_connections: u32,
    /// Connection timeout in milliseconds.
    pub connection_timeout_ms: u64,
    /// Query timeout in milliseconds.
    pub query_timeout_ms: u64,
    /// Whether write-ahead logging is on.
    pub enable_wal: bool,
    /// Memory limit in MB.
    pub memory_limit_mb: u64,
    /// Directory for temporary files.
    pub temp_directory: String,
}

/// Cache settings.
#[derive(Debug)]
pub struct CacheConfig {
    /// Whether caching is on.
    pub enabled: bool,
    /// Largest size in MB.
    pub max_size_mb: u64,
    /// Time to live in seconds.
    pub ttl_seconds: u64,
    /// `LRU`, `LFU` or `FIFO`.
    pub eviction_policy: String,
    /// Whether entries are compressed.
    pub compression_enabled: bool,
}

/// Security settings.
#[derive(Debug)]
pub struct SecurityConfig {
    /// Token secret.
    pub jwt_secret: String,
    /// Token lifetime in hours.
    pub jwt_expiry_hours: u64,
    /// Whether requests are rate limited.
    pub enable_rate_limiting: bool,
    /// Requests per minute allowed.
    pub max_requests_per_minute: u32,
    /// Whether cross-origin requests are allowed.
    pub enable_cors: bool,
    /// Allowed origins.
    pub allowed_origins: Vec<String>,
}

/// Performance settings.
#[derive(Debug)]
pub struct PerformanceConfig {
    /// Worker threads.
    pub worker_threads: u32,
    /// Concurrent queries allowed.
    pub max_concurrent_queries: u32,
    /// Parallelism of one query.
    pub query_parallelism: u32,
    /// Whether queries are optimized.
    pub enable_query_optimization: bool,
    /// Whether results are cached.
    pub enable_result_caching: bool,
}

/// Logging settings.
#[derive(Debug)]
pub struct LoggingConfig {
    /// `trace`, `debug`, `info`, `warn` or `error`.
    pub level: String,
    /// Whether logs go to a file.
    pub enable_file_logging: bool,
    /// Log file.
    pub log_file_path: String,
    /// Largest log file in MB.
    pub max_file_size_mb: u64,
    /// Log files kept.
    pub max_files: u32,
}

/// Monitoring settings.
#[derive(Debug)]
pub struct MonitoringConfig {
    /// Whether metrics are collected.
    pub metrics_enabled: bool,
    /// Seconds between metric collections.
    pub metrics_interval_seconds: u64,
    /// Seconds between health checks.
    pub health_check_interval_seconds: u64,
    /// Whether alerts are raised.
    pub alert_enabled: bool,
    /// Log level of the monitor.
    pub log_level: String,
    /// Days metrics are kept.
    pub retention_days: u32,
}

/// Assistant settings.
#[derive(Debug)]
pub struct AIConfig {
    /// Whether the assistant is on.
    pub enabled: bool,
    /// Model used.
    pub model_name: String,
    /// Longest answer, in tokens.
    pub max_tokens: u32,
    /// Sampling temperature, in hundredths (`70` is 0.70).
    pub temperature: u32,
    /// Whether questions in natural language are read.
    pub enable_nlp: bool,
    /// Whether recommendations are made.
    pub enable_recommendations: bool,
}

/// Every section of the system configuration.
#[derive(Debug)]
pub struct SystemConfig {
    pub database: DatabaseConfig,
    pub cache: CacheConfig,
    pub security: SecurityConfig,
    pub monitoring: MonitoringConfig,
    pub ai: AIConfig,
    pub performance: PerformanceConfig,
    pub logging: LoggingConfig,
    /// When it was read, as RFC 3339 text.
    pub last_updated: String,
    pub version: String,
}

/// The configuration the system runs with: 100 database connections with a 30 s
/// connection and 5 min query timeout, write-ahead logging and 4 GB of memory
/// with temporary files in `/tmp/duckhub`; a 1 GB compressed LRU cache keeping
/// entries an hour; a hidden token secret valid 24 hours, 1000 requests a minute
/// and cross-origin requests from `http://localhost:3000`; metrics every 10 s,
/// health checks every 30 s, alerts on, `info` logs kept 30 days; the
/// `deepseek-chat` assistant answering in up to 4000 tokens at temperature 0.7;
/// 14 workers, 50 concurrent queries of parallelism 4, optimized and cached; and
/// `info` logs to `/var/log/duckhub/app.log` in 10 files of up to 100 MB.
pub open spec fn is_system_config(c: SystemConfig) -> bool {
    &&& c.database.max_connections == 100 && c.database.connection_timeout_ms == 30000
    &&& c.database.query_timeout_ms == 300000 && c.database.enable_wal && c.database.memory_limit_mb == 4096
    &&& c.database.temp_directory@ == "/tmp/duckhub"@
    &&& c.cache.enabled && c.cache.max_size_mb == 1024 && c.cache.ttl_seconds == 3600
    &&& c.cache.eviction_policy@ == "LRU"@ && c.cache.compression_enabled
    &&& c.security.jwt_secret@ == "***hidden***"@ && c.security.jwt_expiry_hours == 24
    &&& c.security.enable_rate_limiting && c.security.max_requests_per_minute == 1000 && c.security.enable_cors
    &&& c.security.allowed_origins@.len() == 1 && c.security.allowed_origins@[0]@ == "http://localhost:3000"@
    &&& c.monitoring.metrics_enabled && c.monitoring.metrics_interval_seconds == 10
    &&& c.monitoring.health_check_interval_seconds == 30 && c.monitoring.alert_enabled
    &&& c.monitoring.log_level@ == "info"@ && c.monitoring.retention_days == 30
    &&& c.ai.enabled && c.ai.model_name@ == "deepseek-chat"@ && c.ai.max_tokens == 4000 && c.ai.temperature == 70
    &&& c.ai.enable_nlp && c.ai.enable_recommendations
    &&& c.performance.worker_threads == 14 && c.performance.max_concurrent_queries == 50
    &&& c.performance.query_parallelism == 4 && c.performance.enable_query_optimization
    &&& c.performance.enable_result_caching
    &&& c.logging.level@ == "info"@ && c.logging.enable_file_logging
    &&& c.logging.log_file_path@ == "/var/log/duckhub/app.log"@ && c.logging.max_file_size_mb == 100
    &&& c.logging.max_files == 10
    &&& c.version@ == "1.0.0"@
}

/// The configuration the system runs with (see `is_system_config`), stamped with
/// the current time.
pub fn get_system_config() -> (c: SystemConfig)
    ensures
        is_system_config(c),
{
    SystemConfig {
        database: DatabaseConfig {
            max_connections: 100,
            connection_timeout_ms: 30000,
            query_timeout_ms: 300000,
            enable_wal: true,
            memory_limit_mb: 4096,
            temp_directory: "/tmp/duckhub".to_string(),
        },
        cache: CacheConfig {
            enabled: true,
            max_size_mb: 1024,
            ttl_seconds: 3600,
            eviction_policy: "LRU".to_string(),
            compression_enabled: true,
        },
        security: SecurityConfig {
            jwt_secret: "***hidden***".to_string(),
            jwt_expiry_hours: 24,
            enable_rate_limiting: true,
            max_requests_per_minute: 1000,
            enable_cors: true,
            allowed_origins: vec!["http://localhost:3000".to_string()],
        },
        monitoring: MonitoringConfig {
            metrics_enabled: true,
            metrics_interval_seconds: 10,
            health_check_interval_seconds: 30,
            alert_enabled: true,
            log_level: "info".to_string(),
            retention_days: 30,
        },
        ai: AIConfig {
            enabled: true,
            model_name: "deepseek-chat".to_string(),
            max_tokens: 4000,
            temperature: 70,
            enable_nlp: true,
            enable_recommendations: true,
        },
        performance: PerformanceConfig {
            worker_threads: 14,
            max_concurrent_queries: 50,
            query_parallelism: 4,
            enable_query_optimization: true,
            enable_result_caching: true,
        },
        logging: LoggingConfig {
            level: "info".to_string(),
            enable_file_logging: true,
            log_file_path: "/var/log/duckhub/app.log".to_string(),
            max_file_size_mb: 100,
            max_files: 10,
        },
        last_updated: now_text(),
        version: "1.0.0".to_string(),
    }
}

/// The outcome of checking a configuration update.
#[derive(Debug)]
pub struct ConfigValidationResult {
    /// Whether no error was found.
    pub valid: bool,
    /// Errors.
    pub errors: Vec<String>,
    /// Warnings.
    pub warnings: Vec<String>,
    /// Suggestions.
    pub suggestions: Vec<String>,
}

/// A request to export metrics.
#[derive(Debug)]
pub struct MetricsExportRequest {
    /// `json`, `csv` or `prometheus`.
    pub format: String,
    /// Start of the range.
    pub start_time: Option<String>,
    /// End of the range.
    pub end_time: Option<String>,
    /// Metrics to export.
    pub metrics: Option<Vec<String>>,
}

/// A time range for history queries.
#[derive(Debug)]
pub struct TimeRangeQuery {
    /// `1h`, `6h`, `24h`, `7d` or `30d`.
    pub range: Option<String>,
    /// Start of the range.
    pub start_time: Option<String>,
    /// End of the range.
    pub end_time: Option<String>,
}

/// What an update carries for the field a section checks.
#[derive(Debug)]
pub enum ConfigField {
    /// The field is absent.
    Absent,
    /// The field is present and not an unsigned integer.
    NotNumber,
    /// The field is an unsigned integer.
    Number(u64),
}

/// The field checked in a section: `max_connections` for `database`,
/// `max_size_mb` for `cache`, `jwt_expiry_hours` for `security`.
pub open spec fn checked_field(section: Seq<char>) -> Option<Seq<char>> {
    if section == "database"@ {
        Some("max_connections"@)
    } else if section == "cache"@ {
        Some("max_size_mb"@)
    } else if section == "security"@ {
        Some("jwt_expiry_hours"@)
    } else {
        None
    }
}

/// The field checked in a section (see `checked_field`).
pub fn config_key_for(section: &str) -> (k: Option<&'static str>)
    ensures
        match k {
            Some(s) => checked_field(section@) == Some(s@),
            None => checked_field(section@) is None,
        },
{
    if str_eq(section, "database") {
        Some("max_connections")
    } else if str_eq(section, "cache") {
        Some("max_size_mb")
    } else if str_eq(section, "security") {
        Some("jwt_expiry_hours")
    } else {
        None
    }
}

/// The message `m` when `cond` holds.
pub open spec fn note(cond: bool, m: Seq<char>) -> Seq<Seq<char>> {
    if cond { seq![m] } else { Seq::empty() }
}

/// The errors of an update of `section`.
pub open spec fn section_errors(section: Seq<char>, field: ConfigField) -> Seq<Seq<char>> {
    match checked_field(section) {
        Some(name) => note(field is NotNumber, name + "必须是数字"@),
        None => Seq::empty(),
    }
}

/// The warnings of an update of `section`.
pub open spec fn section_warnings(section: Seq<char>, field: ConfigField) -> Seq<Seq<char>> {
    if section == "database"@ {
        note(field matches ConfigField::Number(n) && n > 1000, "数据库连接数过高，可能影响性能"@)
    } else if section == "cache"@ {
        note(field matches ConfigField::Number(n) && n > 8192, "缓存大小过大，可能占用过多内存"@)
    } else if section == "security"@ {
        note(field matches ConfigField::Number(n) && n > 168, "JWT过期时间过长，存在安全风险"@)
    } else {
        seq!["未知的配置节点: "@ + section]
    }
}

/// The suggestions for an update of `section`.
pub open spec fn section_suggestions(section: Seq<char>, field: ConfigField) -> Seq<Seq<char>> {
    if section == "database"@ {
        note(field matches ConfigField::Number(n) && n < 10, "建议增加数据库连接数以提高并发性能"@)
    } else {
        Seq::empty()
    }
}

/// The views of a list of strings.
pub open spec fn string_list(v: Seq<String>) -> Seq<Seq<char>> {
    v.map_values(|s: String| s@)
}

fn one(m: String) -> (v: Vec<String>)
    ensures
        string_list(v@) == seq![m@],
{
    let v = vec![m];
    assert(string_list(v@) =~= seq![m@]);
    v
}

fn none() -> (v: Vec<String>)
    ensures
        string_list(v@) == Seq::<Seq<char>>::empty(),
{
    let v: Vec<String> = Vec::new();
    assert(string_list(v@) =~= Seq::<Seq<char>>::empty());
    v
}

fn concat(a: &str, b: &str) -> (s: String)
    ensures
        s@ == a@ + b@,
{
    let mut v = chars_of(a);
    let w = chars_of(b);
    append_chars(&mut v, &w);
    string_of(&v)
}

/// Checks an update of `section`, given what it carries for the section's
/// checked field: a field that is not a number is an error; a high connection
/// count, cache size or token lifetime is a warning; a low connection count gets a
/// suggestion; an unknown section a warning. The update is valid when there is no
/// error.
pub fn validate_config_section(section: &str, field: ConfigField) -> (r: ConfigValidationResult)
    ensures
        string_list(r.errors@) == section_errors(section@, field),
        string_list(r.warnings@) == section_warnings(section@, field),
        string_list(r.suggestions@) == section_suggestions(section@, field),
        r.valid == (r.errors@.len() == 0),
{
    proof {
        reveal_strlit("database");
        reveal_strlit("cache");
        reveal_strlit("security");
        assert("database"@[0] != "security"@[0]);
        assert("database"@.len() != "cache"@.len());
        assert("security"@.len() != "cache"@.len());
    }
    let (errors, warnings, suggestions) = if str_eq(section, "database") {
        match field {
            ConfigField::Absent => (none(), none(), none()),
            ConfigField::NotNumber => (one(concat("max_connections", "必须是数字")), none(), none()),
            ConfigField::Number(n) => (
                none(),
                if n > 1000 { one("数据库连接数过高，可能影响性能".to_string()) } else { none() },
                if n < 10 { one("建议增加数据库连接数以提高并发性能".to_string()) } else { none() },
            ),
        }
    } else if str_eq(section, "cache") {
        match field {
            ConfigField::Absent => (none(), none(), none()),
            ConfigField::NotNumber => (one(concat("max_size_mb", "必须是数字")), none(), none()),
            ConfigField::Number(n) => (
                none(),
                if n > 8192 { one("缓存大小过大，可能占用过多内存".to_string()) } else { none() },
                none(),
            ),
        }
    } else if str_eq(section, "security") {
        match field {
            ConfigField::Absent => (none(), none(), none()),
            ConfigField::NotNumber => (one(concat("jwt_expiry_hours", "必须是数字")), none(), none()),
            ConfigField::Number(n) => (
                none(),
                if n > 168 { one("JWT过期时间过长，存在安全风险".to_string()) } else { none() },
                none(),
            ),
        }
    } else {
        (none(), one(concat("未知的配置节点: ", section)), none())
    };
    let valid = errors.len() == 0;
    ConfigValidationResult { valid, errors, warnings, suggestions }
}

/// The sections an update may change.
pub open spec fn known_section(section: Seq<char>) -> bool {
    section == "database"@ || section == "cache"@ || section == "security"@ || section == "monitoring"@
        || section == "ai"@ || section == "performance"@ || section == "logging"@
}

/// Applies an update of `section`; unknown sections are refused.
pub fn update_config_section(section: &str) -> (r: Result<(), String>)
    ensures
        r is Ok <==> known_section(section@),
        r matches Err(e) ==> e@ == "不支持的配置节点: "@ + section@,
{
    if str_eq(section, "database") || str_eq(section, "cache") || str_eq(section, "security")
        || str_eq(section, "monitoring") || str_eq(section, "ai") || str_eq(section, "performance")
        || str_eq(section, "logging") {
        Ok(())
    } else {
        Err(concat("不支持的配置节点: ", section))
    }
}

/// How exported metrics are written.
#[derive(Debug)]
pub enum ExportFormat {
    /// JSON.
    Json,
    /// CSV.
    Csv,
    /// The Prometheus text format.
    Prometheus,
}

/// Reads an export format name; unknown names are refused with `不支持的导出格式`.
pub fn parse_export_format(format: &str) -> (r: Result<ExportFormat, String>)
    ensures
        format@ == "json"@ ==> r matches Ok(ExportFormat::Json),
        format@ == "csv"@ ==> r matches Ok(ExportFormat::Csv),
        format@ == "prometheus"@ ==> r matches Ok(ExportFormat::Prometheus),
        !(format@ == "json"@ || format@ == "csv"@ || format@ == "prometheus"@) ==> (r matches Err(e) && e@
            == "不支持的导出格式"@),
{
    proof {
        reveal_strlit("json");
        reveal_strlit("csv");
        reveal_strlit("prometheus");
        assert("json"@.len() != "csv"@.len());
        assert("json"@.len() != "prometheus"@.len());
        assert("csv"@.len() != "prometheus"@.len());
    }
    if str_eq(format, "json") {
        Ok(ExportFormat::Json)
    } else if str_eq(format, "csv") {
        Ok(ExportFormat::Csv)
    } else if str_eq(format, "prometheus") {
        Ok(ExportFormat::Prometheus)
    } else {
        Err("不支持的导出格式".to_string())
    }
}

/// The metrics exported in the Prometheus text format: help, type and value of the CPU and
/// memory usage, the query rate and the average query time.
pub open spec fn prometheus_export_text() -> Seq<char> {
    "# HELP duckhub_cpu_usage_percent CPU usage percentage\n"@
        + "# TYPE duckhub_cpu_usage_percent gauge\n"@
        + "duckhub_cpu_usage_percent 42.8\n\n"@
        + "# HELP duckhub_memory_usage_percent Memory usage percentage\n"@
        + "# TYPE duckhub_memory_usage_percent gauge\n"@
        + "duckhub_memory_usage_percent 68.2\n\n"@
        + "# HELP duckhub_queries_per_second Queries per second\n"@
        + "# TYPE duckhub_queries_per_second gauge\n"@
        + "duckhub_queries_per_second 125.5\n\n"@
        + "# HELP duckhub_avg_query_time_ms Average query time in milliseconds\n"@
        + "# TYPE duckhub_avg_query_time_ms gauge\n"@
        + "duckhub_avg_query_time_ms 85.3\n\n"@
}

/// The text of a Prometheus export (see `prometheus_export_text`).
pub fn prometheus_metrics_text() -> (s: String)
    ensures
        s@ == prometheus_export_text(),
{
    let mut out: Vec<char> = Vec::new();
    append_chars(&mut out, &chars_of("# HELP duckhub_cpu_usage_percent CPU usage percentage\n"));
    append_chars(&mut out, &chars_of("# TYPE duckhub_cpu_usage_percent gauge\n"));
    append_chars(&mut out, &chars_of("duckhub_cpu_usage_percent 42.8\n\n"));
    append_chars(&mut out, &chars_of("# HELP duckhub_memory_usage_percent Memory usage percentage\n"));
    append_chars(&mut out, &chars_of("# TYPE duckhub_memory_usage_percent gauge\n"));
    append_chars(&mut out, &chars_of("duckhub_memory_usage_percent 68.2\n\n"));
    append_chars(&mut out, &chars_of("# HELP duckhub_queries_per_second Queries per second\n"));
    append_chars(&mut out, &chars_of("# TYPE duckhub_queries_per_second gauge\n"));
    append_chars(&mut out, &chars_of("duckhub_queries_per_second 125.5\n\n"));
    append_chars(&mut out, &chars_of("# HELP duckhub_avg_query_time_ms Average query time in milliseconds\n"));
    append_chars(&mut out, &chars_of("# TYPE duckhub_avg_query_time_ms gauge\n"));
    append_chars(&mut out, &chars_of("duckhub_avg_query_time_ms 85.3\n\n"));
    string_of(&out)
}

/// The number of points and the minutes between them for a time range: `1h` 12
/// by 5, `6h` 24 by 15, `24h` 24 by 60, `7d` 28 by 360, `30d` 30 by 1440; anything
/// else, or no range, as `24h`.
pub open spec fn trend_window_of(range: Option<Seq<char>>) -> (u64, i64) {
    match range {
        Some(r) => if r == "1h"@ {
            (12, 5)
        } else if r == "6h"@ {
            (24, 15)
        } else if r == "24h"@ {
            (24, 60)
        } else if r == "7d"@ {
            (28, 360)
        } else if r == "30d"@ {
            (30, 1440)
        } else {
            (24, 60)
        },
        None => (24, 60),
    }
}

/// The points and spacing of a trend (see `trend_window_of`).
pub fn trend_window(range: Option<&str>) -> (r: (u64, i64))
    ensures
        r == trend_window_of(match range { Some(s) => Some(s@), None => None }),
{
    proof {
        reveal_strlit("1h");
        reveal_strlit("6h");
        reveal_strlit("24h");
        reveal_strlit("7d");
        reveal_strlit("30d");
        assert("1h"@[0] != "6h"@[0]);
        assert("24h"@[0] != "30d"@[0]);
        assert("1h"@.len() != "24h"@.len());
        assert("7d"@.len() != "24h"@.len());
        assert("7d"@[0] != "1h"@[0] && "7d"@[0] != "6h"@[0]);
        assert("1h"@.len() != "30d"@.len() && "6h"@.len() != "30d"@.len() && "6h"@.len() != "24h"@.len());
    }
    match range {
        Some(r) => if str_eq(r, "1h") {
            (12, 5)
        } else if str_eq(r, "6h") {
            (24, 15)
        } else if str_eq(r, "24h") {
            (24, 60)
        } else if str_eq(r, "7d") {
            (28, 360)
        } else if str_eq(r, "30d") {
            (30, 1440)
        } else {
            (24, 60)
        },
        None => (24, 60),
    }
}

/// An alert on the dashboard.
#[derive(Debug)]
pub struct SystemAlert {
    /// Identifier.
    pub id: String,
    /// `info`, `warning`, `error` or `critical`.
    pub level: String,
    /// Title.
    pub title: String,
    /// Message.
    pub message: String,
    /// When it was raised, as text.
    pub timestamp: String,
    /// Whether it is resolved.
    pub resolved: bool,
}

/// The dashboard's overall status: `critical` when a component is critical, else
/// `warning` when one warns, else `healthy`.
pub open spec fn dashboard_status_of(statuses: Seq<Seq<char>>) -> Seq<char> {
    if statuses.contains("critical"@) {
        "critical"@
    } else if statuses.contains("warning"@) {
        "warning"@
    } else {
        "healthy"@
    }
}

/// The dashboard's overall status from the components' statuses.
pub fn dashboard_status(statuses: &Vec<String>) -> (s: String)
    ensures
        s@ == dashboard_status_of(string_list(statuses@)),
{
    let ghost v = string_list(statuses@);
    let mut critical = false;
    let mut warning = false;
    let mut i: usize = 0;
    while i < statuses.len()
        invariant
            v == string_list(statuses@),
            i <= statuses@.len(),
            critical <==> exists|j: int| 0 <= j < i && v[j] == "critical"@,
            warning <==> exists|j: int| 0 <= j < i && v[j] == "warning"@,
        decreases statuses.len() - i,
    {
        if str_eq(statuses[i].as_str(), "critical") {
            critical = true;
        }
        if str_eq(statuses[i].as_str(), "warning") {
            warning = true;
        }
        assert(v[i as int] == statuses@[i as int]@);
        i = i + 1;
    }
    if critical {
        "critical".to_string()
    } else if warning {
        "warning".to_string()
    } else {
        "healthy".to_string()
    }
}

/// The overall state of the monitored components: `healthy` when every one is,
/// else `critical` when one is, else `warning`.
pub open spec fn components_status_of(statuses: Seq<Seq<char>>) -> Seq<char> {
    if forall|j: int| 0 <= j < statuses.len() ==> statuses[j] == "healthy"@ {
        "healthy"@
    } else if statuses.contains("critical"@) {
        "critical"@
    } else {
        "warning"@
    }
}

/// The overall state of the monitored components (see `components_status_of`).
pub fn components_status(statuses: &Vec<String>) -> (s: String)
    ensures
        s@ == components_status_of(string_list(statuses@)),
{
    let ghost v = string_list(statuses@);
    let mut all_healthy = true;
    let mut critical = false;
    let mut i: usize = 0;
    while i < statuses.len()
        invariant
            v == string_list(statuses@),
            i <= statuses@.len(),
            all_healthy <==> forall|j: int| 0 <= j < i ==> v[j] == "healthy"@,
            critical <==> exists|j: int| 0 <= j < i && v[j] == "critical"@,
        decreases statuses.len() - i,
    {
        assert(v[i as int] == statuses@[i as int]@);
        if !str_eq(statuses[i].as_str(), "healthy") {
            all_healthy = false;
        }
        if str_eq(statuses[i].as_str(), "critical") {
            critical = true;
        }
        i = i + 1;
    }
    if all_healthy {
        "healthy".to_string()
    } else if critical {
        "critical".to_string()
    } else {
        "warning".to_string()
    }
}

/// How `total` queries split by duration: 70% (rounded down) under 100 ms, 25%
/// (rounded down) up to a second, and the rest slower.
pub fn query_time_distribution(total: u32) -> (r: (u32, u32, u32))
    requires
        total * 70 <= u32::MAX,
    ensures
        r.0 == total * 70 / 100,
        r.1 == total * 25 / 100,
        r.2 == total - r.0 - r.1,
{
    let fast = total * 70 / 100;
    let medium = total * 25 / 100;
    assert(fast + medium <= total) by (nonlinear_arith)
        requires
            fast == total * 70 / 100,
            medium == total * 25 / 100,
    ;
    (fast, medium, total - fast - medium)
}

} // verus!
