//! Settings of the web API service, their defaults and their validation.
use vstd::prelude::*;
use std::time::Duration;
use crate::format::{duration_from_secs, duration_of_secs};

verus! {

/// Calls `num_cpus::get`, the number of CPUs this process may use; its
/// documentation promises at least 1. The number depends on the machine.
#[verifier::external_body]
fn cpu_count() -> (n: usize)
    ensures
        n >= 1,
{
    num_cpus::get()
}

/// Whether the strings of `v` are, in order, those of `expected`.
pub open spec fn strings_are(v: Seq<String>, expected: Seq<Seq<char>>) -> bool {
    v.len() == expected.len() && forall|i: int| 0 <= i < v.len() ==> #[trigger] v[i]@ == expected[i]
}

/// Settings of the web API service.
#[derive(Debug)]
pub struct WebApiConfig {
    /// Address the server binds to.
    pub host: String,
    /// Port the server listens on.
    pub port: u16,
    /// Number of worker threads.
    pub workers: usize,
    /// Request timeout in seconds.
    pub request_timeout: u64,
    /// Largest accepted request body, in bytes.
    pub max_request_size: usize,
    /// Token settings.
    pub jwt: JwtConfig,
    /// Cross-origin settings.
    pub cors: CorsConfig,
    /// Rate limiting settings.
    pub rate_limit: RateLimitConfig,
    /// Cache settings.
    pub cache: CacheConfig,
    /// Logging settings.
    pub logging: LoggingConfig,
}

/// Token settings.
#[derive(Debug)]
pub struct JwtConfig {
    /// Signing secret.
    pub secret: String,
    /// Lifetime of an access token, in seconds.
    pub access_token_expiry: u64,
    /// Lifetime of a refresh token, in seconds.
    pub refresh_token_expiry: u64,
    /// Token issuer.
    pub issuer: String,
    /// Token audience.
    pub audience: String,
}

/// Cross-origin settings.
#[derive(Debug)]
pub struct CorsConfig {
    /// Allowed origins.
    pub allowed_origins: Vec<String>,
    /// Allowed methods.
    pub allowed_methods: Vec<String>,
    /// Allowed headers.
    pub allowed_headers: Vec<String>,
    /// How long a preflight answer may be cached, in seconds.
    pub max_age: u64,
    /// Whether credentials are allowed.
    pub allow_credentials: bool,
}

/// Rate limiting settings.
#[derive(Debug)]
pub struct RateLimitConfig {
    /// Whether requests are limited.
    pub enabled: bool,
    /// Requests allowed per minute.
    pub requests_per_minute: u32,
    /// Burst size.
    pub burst_size: u32,
    /// Window length in seconds.
    pub window_size: u64,
}

/// Cache settings.
#[derive(Debug)]
pub struct CacheConfig {
    /// Whether caching is on.
    pub enabled: bool,
    /// Default time to live, in seconds.
    pub default_ttl: u64,
    /// Time to live of query results, in seconds.
    pub query_result_ttl: u64,
    /// Time to live of sessions, in seconds.
    pub session_ttl: u64,
    /// Largest number of entries.
    pub max_size: usize,
}

/// Logging settings.
#[derive(Debug)]
pub struct LoggingConfig {
    /// Log level name.
    pub level: String,
    /// Whether logs are written as JSON.
    pub json_format: bool,
    /// Whether requests are logged.
    pub log_requests: bool,
    /// Whether responses are logged.
    pub log_responses: bool,
    /// Slow query threshold in milliseconds.
    pub slow_query_threshold: u64,
}

impl JwtConfig {
    /// Whether this holds the default token settings.
    pub open spec fn is_default(&self) -> bool {
        &&& self.secret@ == "duckhub-secret-key-change-in-production"@
        &&& self.access_token_expiry == 3600
        &&& self.refresh_token_expiry == 604800
        &&& self.issuer@ == "duckhub"@
        &&& self.audience@ == "duckhub-users"@
    }
}

impl Default for JwtConfig {
    fn default() -> (c: Self)
        ensures
            c.is_default(),
    {
        JwtConfig {
            secret: "duckhub-secret-key-change-in-production".to_string(),
            access_token_expiry: 3600,
            refresh_token_expiry: 86400 * 7,
            issuer: "duckhub".to_string(),
            audience: "duckhub-users".to_string(),
        }
    }
}

impl CorsConfig {
    /// Whether this holds the default cross-origin settings.
    pub open spec fn is_default(&self) -> bool {
        &&& strings_are(self.allowed_origins@, seq!["*"@])
        &&& strings_are(self.allowed_methods@, seq!["GET"@, "POST"@, "PUT"@, "DELETE"@, "OPTIONS"@])
        &&& strings_are(
            self.allowed_headers@,
            seq!["Content-Type"@, "Authorization"@, "X-Requested-With"@],
        )
        &&& self.max_age == 3600
        &&& self.allow_credentials
    }
}

impl Default for CorsConfig {
    fn default() -> (c: Self)
        ensures
            c.is_default(),
    {
        let origins = vec!["*".to_string()];
        let methods = vec![
            "GET".to_string(),
            "POST".to_string(),
            "PUT".to_string(),
            "DELETE".to_string(),
            "OPTIONS".to_string(),
        ];
        let headers = vec![
            "Content-Type".to_string(),
            "Authorization".to_string(),
            "X-Requested-With".to_string(),
        ];
        let c = CorsConfig {
            allowed_origins: origins,
            allowed_methods: methods,
            allowed_headers: headers,
            max_age: 3600,
            allow_credentials: true,
        };
        assert(strings_are(c.allowed_origins@, seq!["*"@]));
        assert(strings_are(c.allowed_methods@, seq!["GET"@, "POST"@, "PUT"@, "DELETE"@, "OPTIONS"@]));
        assert(strings_are(
            c.allowed_headers@,
            seq!["Content-Type"@, "Authorization"@, "X-Requested-With"@],
        ));
        c
    }
}

impl RateLimitConfig {
    /// Whether this holds the default rate limiting settings.
    pub open spec fn is_default(&self) -> bool {
        self.enabled && self.requests_per_minute == 1000 && self.burst_size == 100
            && self.window_size == 60
    }
}

impl Default for RateLimitConfig {
    fn default() -> (c: Self)
        ensures
            c.is_default(),
    {
        RateLimitConfig { enabled: true, requests_per_minute: 1000, burst_size: 100, window_size: 60 }
    }
}

impl CacheConfig {
    /// Whether this holds the default cache settings.
    pub open spec fn is_default(&self) -> bool {
        self.enabled && self.default_ttl == 300 && self.query_result_ttl == 600
            && self.session_ttl == 3600 && self.max_size == 10000
    }
}

impl Default for CacheConfig {
    fn default() -> (c: Self)
        ensures
            c.is_default(),
    {
        CacheConfig {
            enabled: true,
            default_ttl: 300,
            query_result_ttl: 600,
            session_ttl: 3600,
            max_size: 10000,
        }
    }
}

impl LoggingConfig {
    /// Whether this holds the default logging settings.
    pub open spec fn is_default(&self) -> bool {
        &&& self.level@ == "info"@
        &&& !self.json_format
        &&& self.log_requests
        &&& !self.log_responses
        &&& self.slow_query_threshold == 1000
    }
}

impl Default for LoggingConfig {
    fn default() -> (c: Self)
        ensures
            c.is_default(),
    {
        LoggingConfig {
            level: "info".to_string(),
            json_format: false,
            log_requests: true,
            log_responses: false,
            slow_query_threshold: 1000,
        }
    }
}

/// Why a configuration is refused.
pub open spec fn config_error(c: WebApiConfig) -> Option<Seq<char>> {
    if c.port == 0 {
        Some("端口号不能为0"@)
    } else if c.workers == 0 {
        Some("工作线程数不能为0"@)
    } else if c.request_timeout == 0 {
        Some("请求超时时间不能为0"@)
    } else if c.max_request_size == 0 {
        Some("最大请求体大小不能为0"@)
    } else if c.jwt.secret@.len() == 0 {
        Some("JWT密钥不能为空"@)
    } else if c.jwt.access_token_expiry == 0 {
        Some("访问令牌过期时间不能为0"@)
    } else {
        None
    }
}

impl WebApiConfig {
    /// Whether this holds the default settings, whatever the number of workers.
    pub open spec fn is_default_but_workers(&self) -> bool {
        &&& self.host@ == "0.0.0.0"@
        &&& self.port == 8080
        &&& self.request_timeout == 30
        &&& self.max_request_size == 10485760
        &&& self.jwt.is_default()
        &&& self.cors.is_default()
        &&& self.rate_limit.is_default()
        &&& self.cache.is_default()
        &&& self.logging.is_default()
    }

    /// Checks the settings, reporting the first zero or empty one among the port,
    /// the workers, the request timeout, the request size limit, the token secret
    /// and the access token lifetime.
    pub fn validate(&self) -> (r: Result<(), String>)
        ensures
            r is Ok <==> config_error(*self) is None,
            r matches Err(e) ==> config_error(*self) == Some(e@),
    {
        if self.port == 0 {
            return Err("端口号不能为0".to_string());
        }
        if self.workers == 0 {
            return Err("工作线程数不能为0".to_string());
        }
        if self.request_timeout == 0 {
            return Err("请求超时时间不能为0".to_string());
        }
        if self.max_request_size == 0 {
            return Err("最大请求体大小不能为0".to_string());
        }
        if self.jwt.secret.as_str().is_empty() {
            return Err("JWT密钥不能为空".to_string());
        }
        if self.jwt.access_token_expiry == 0 {
            return Err("访问令牌过期时间不能为0".to_string());
        }
        Ok(())
    }

    /// The request timeout as a duration.
    pub fn request_timeout_duration(&self) -> (d: Duration)
        ensures
            d == duration_of_secs(self.request_timeout),
    {
        duration_from_secs(self.request_timeout)
    }

    /// The access token lifetime as a duration.
    pub fn access_token_duration(&self) -> (d: Duration)
        ensures
            d == duration_of_secs(self.jwt.access_token_expiry),
    {
        duration_from_secs(self.jwt.access_token_expiry)
    }

    /// The refresh token lifetime as a duration.
    pub fn refresh_token_duration(&self) -> (d: Duration)
        ensures
            d == duration_of_secs(self.jwt.refresh_token_expiry),
    {
        duration_from_secs(self.jwt.refresh_token_expiry)
    }
}

impl Default for WebApiConfig {
    fn default() -> (c: Self)
        ensures
            c.is_default_but_workers(),
            c.workers >= 1,
    {
        WebApiConfig {
            host: "0.0.0.0".to_string(),
            port: 8080,
            workers: cpu_count(),
            request_timeout: 30,
            max_request_size: 10 * 1024 * 1024,
            jwt: JwtConfig::default(),
            cors: CorsConfig::default(),
            rate_limit: RateLimitConfig::default(),
            cache: CacheConfig::default(),
            logging: LoggingConfig::default(),
        }
    }
}

/// A default configuration passes validation.
pub proof fn lemma_default_config_valid(c: WebApiConfig)
    requires
        c.is_default_but_workers(),
        c.workers >= 1,
    ensures
        config_error(c) is None,
{
    reveal_strlit("duckhub-secret-key-change-in-production");
}

} // verus!
