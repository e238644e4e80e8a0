use duckhub::requests::{
    AIChatRequest, AISuggestRequest, QueryType, LoginRequest, RefreshTokenRequest, CreateSnapshotRequest,
    TimeTravelQueryRequest, TimeTravelTarget, QueryRequest, CreateDataSourceRequest, UpdateProfileRequest,
    CreateDatabaseRequest,
};

fn fields(r: Result<(), duckhub::validation::ValidationErrors>) -> Vec<String> {
    match r {
        Ok(()) => vec![],
        Err(e) => e.errors.iter().map(|f| f.field.clone()).collect(),
    }
}

#[test]
fn test_ai_chat_request_validation() {
    let valid_request = AIChatRequest {
        message: "帮我查询用户数据".to_string(),
        session_id: Some("session123".to_string()),
        context: None,
    };
    assert!(valid_request.validate().is_ok());

    let invalid_request = AIChatRequest { message: "".to_string(), session_id: None, context: None };
    assert!(invalid_request.validate().is_err());
}

#[test]
fn test_ai_suggest_request_validation() {
    let valid_request = AISuggestRequest {
        description: "查询最近一周的销售数据".to_string(),
        tables: Some(vec!["sales".to_string()]),
        query_type: Some(QueryType::Select),
    };
    assert!(valid_request.validate().is_ok());
}

#[test]
fn test_login_request_validation() {
    let valid_request = LoginRequest {
        username: "testuser".to_string(),
        password: "password123".to_string(),
        remember_me: Some(true),
    };
    assert!(valid_request.validate().is_ok());

    let invalid_request = LoginRequest { username: "ab".to_string(), password: "123".to_string(), remember_me: None };
    assert!(invalid_request.validate().is_err());
}

#[test]
fn test_refresh_token_request_validation() {
    let valid_request = RefreshTokenRequest { refresh_token: "valid_token".to_string() };
    assert!(valid_request.validate().is_ok());

    let invalid_request = RefreshTokenRequest { refresh_token: "".to_string() };
    assert!(invalid_request.validate().is_err());
}

#[test]
fn test_time_travel_query_request_validation() {
    let valid_request = TimeTravelQueryRequest {
        sql: "SELECT * FROM users".to_string(),
        target: TimeTravelTarget::Timestamp(1_700_000_000_000),
        parameters: None,
    };
    assert!(valid_request.validate().is_ok());

    let invalid_request =
        TimeTravelQueryRequest { sql: "".to_string(), target: TimeTravelTarget::Version(1), parameters: None };
    assert!(invalid_request.validate().is_err());
}

#[test]
fn test_create_snapshot_request_validation() {
    let valid_request = CreateSnapshotRequest {
        description: Some("Test snapshot".to_string()),
        include_all_tables: Some(true),
        tables: None,
    };
    assert!(valid_request.validate().is_ok());
}

#[test]
fn test_query_request_validation() {
    let valid_request = QueryRequest {
        sql: "SELECT * FROM test".to_string(),
        parameters: None,
        use_cache: Some(true),
        timeout: Some(30),
        limit: Some(100),
    };
    assert!(valid_request.validate().is_ok());

    let invalid_request = QueryRequest {
        sql: "".to_string(),
        parameters: None,
        use_cache: Some(true),
        timeout: Some(30),
        limit: Some(100),
    };
    assert!(invalid_request.validate().is_err());
}

#[test]
fn test_create_data_source_request_validation() {
    let mut config = serde_json::Map::new();
    config.insert("broker".to_string(), serde_json::Value::String("localhost:9092".to_string()));
    let valid_request = CreateDataSourceRequest {
        name: "test_source".to_string(),
        source_type: "kafka".to_string(),
        config: serde_json::Value::Object(config),
        description: Some("Test data source".to_string()),
        enabled: Some(true),
    };
    assert!(valid_request.validate().is_ok());

    let invalid_request = CreateDataSourceRequest {
        name: "".to_string(),
        source_type: "kafka".to_string(),
        config: serde_json::Value::Object(serde_json::Map::new()),
        description: None,
        enabled: None,
    };
    assert!(invalid_request.validate().is_err());
}

#[test]
fn login_errors_name_each_failing_field_in_order() {
    let r = LoginRequest { username: "ab".to_string(), password: "123".to_string(), remember_me: None };
    let e = r.validate().unwrap_err();
    assert_eq!(e.errors.len(), 2);
    assert_eq!(e.errors[0].field, "username");
    assert_eq!(e.errors[0].code, "length");
    assert_eq!(e.errors[0].message.as_deref(), Some("用户名长度必须在3-100字符之间"));
    assert_eq!(e.errors[1].field, "password");
    let r = LoginRequest { username: "用户名".to_string(), password: "x".repeat(101), remember_me: None };
    assert_eq!(fields(r.validate()), vec!["password"]);
}

#[test]
fn lengths_count_characters_not_bytes() {
    let r = LoginRequest { username: "张三丰".to_string(), password: "密码密码密码".to_string(), remember_me: None };
    assert!(r.validate().is_ok());
}

#[test]
fn query_ranges_checked_when_present() {
    let mut r = QueryRequest { sql: "SELECT 1".to_string(), parameters: None, use_cache: None, timeout: Some(0), limit: Some(10001) };
    assert_eq!(fields(r.validate()), vec!["timeout", "limit"]);
    r.timeout = Some(300);
    r.limit = None;
    assert!(r.validate().is_ok());
    r.timeout = Some(301);
    let e = r.validate().unwrap_err();
    assert_eq!(e.errors[0].code, "range");
}

#[test]
fn optional_fields_pass_when_absent() {
    let r = UpdateProfileRequest { display_name: None, email: None };
    assert!(r.validate().is_ok());
    let r = UpdateProfileRequest { display_name: Some("".to_string()), email: Some("not-an-email".to_string()) };
    assert_eq!(fields(r.validate()), vec!["display_name", "email"]);
    let r = UpdateProfileRequest { display_name: Some("Ann".to_string()), email: Some("ann@example.com".to_string()) };
    assert!(r.validate().is_ok());
    let r = CreateDatabaseRequest { name: "db".to_string(), description: Some("x".repeat(501)) };
    assert_eq!(fields(r.validate()), vec!["description"]);
    let r = CreateSnapshotRequest { description: Some("x".repeat(500)), include_all_tables: None, tables: None };
    assert!(r.validate().is_ok());
}
