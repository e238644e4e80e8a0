use duckhub::config::WebApiConfig;
use std::time::Duration;

#[test]
fn config_test_default_config() {
    let config = WebApiConfig::default();
    assert_eq!(config.host, "0.0.0.0");
    assert_eq!(config.port, 8080);
    assert!(config.workers > 0);
}

#[test]
fn config_test_config_validation() {
    let mut config = WebApiConfig::default();
    assert!(config.validate().is_ok());

    config.port = 0;
    assert!(config.validate().is_err());

    config.port = 8080;
    config.jwt.secret = "".to_string();
    assert!(config.validate().is_err());
}

#[test]
fn test_duration_methods() {
    let config = WebApiConfig::default();
    assert_eq!(config.request_timeout_duration(), Duration::from_secs(30));
    assert_eq!(config.access_token_duration(), Duration::from_secs(3600));
}

#[test]
fn validation_reports_the_first_problem() {
    let mut config = WebApiConfig::default();
    config.workers = 0;
    config.request_timeout = 0;
    assert_eq!(config.validate().unwrap_err(), "工作线程数不能为0");
    config.workers = 2;
    assert_eq!(config.validate().unwrap_err(), "请求超时时间不能为0");
    config.request_timeout = 5;
    config.max_request_size = 0;
    assert_eq!(config.validate().unwrap_err(), "最大请求体大小不能为0");
    config.max_request_size = 1;
    config.jwt.secret = String::new();
    assert_eq!(config.validate().unwrap_err(), "JWT密钥不能为空");
    config.jwt.secret = "s".to_string();
    config.jwt.access_token_expiry = 0;
    assert_eq!(config.validate().unwrap_err(), "访问令牌过期时间不能为0");
    config.port = 0;
    assert_eq!(config.validate().unwrap_err(), "端口号不能为0");
}

#[test]
fn default_sections() {
    let config = WebApiConfig::default();
    assert_eq!(config.request_timeout, 30);
    assert_eq!(config.max_request_size, 10 * 1024 * 1024);
    assert_eq!(config.jwt.refresh_token_expiry, 604800);
    assert_eq!(config.refresh_token_duration(), Duration::from_secs(604800));
    assert_eq!(config.cors.allowed_methods, vec!["GET", "POST", "PUT", "DELETE", "OPTIONS"]);
    assert_eq!(config.rate_limit.requests_per_minute, 1000);
    assert_eq!(config.cache.max_size, 10000);
    assert_eq!(config.logging.level, "info");
}

#[test]
fn main_test_config_validation() {
    let config = WebApiConfig::default();
    assert!(config.validate().is_ok());
}

#[test]
fn main_test_default_config() {
    let config = WebApiConfig::default();
    assert_eq!(config.host, "0.0.0.0");
    assert_eq!(config.port, 8080);
    assert!(config.workers > 0);
}
