use duckhub::cli::{ducklake_action_sql, DuckLakeAction};
use duckhub::db_connectors::{connection_string, postgres_connection_string, read_gate, DatabaseConnection, DatabaseKind};
use duckhub::format::format_size;
use duckhub::requests::LoginRequest;
use duckhub::security::{AuthService, LoginOutcome};
use duckhub::sql::sanitize_sql;

fn normalized(s: &str) -> String {
    s.split_whitespace().collect::<Vec<_>>().join(" ")
}

#[test]
fn sanitized_sql_is_normalized_and_not_longer() {
    for sql in ["SELECT  *\n\tFROM t -- note\nWHERE a = 1", "  /* c */ SELECT 1  ", "SELECT 'a  b'\r\n", ""] {
        let r = sanitize_sql(sql);
        assert_eq!(r, normalized(&r));
        assert!(r.chars().count() <= sql.chars().count());
    }
    let plain = "SELECT a,\n   b FROM\tt  WHERE x > 1 ";
    assert_eq!(sanitize_sql(plain), normalized(plain));
}

#[test]
fn sizes_below_a_kilobyte_are_bytes_and_larger_ones_have_one_decimal() {
    assert_eq!(format_size(0), "0 B");
    assert_eq!(format_size(1023), "1023 B");
    assert_eq!(format_size(1024), "1.0 KB");
    assert_eq!(format_size(1536), "1.5 KB");
    assert_eq!(format_size(5 * 1024 * 1024), "5.0 MB");
    assert_eq!(format_size(1 << 50), "1024.0 TB");
}

fn login(username: &str, password: &str) -> LoginOutcome {
    let service = AuthService::new("secret".to_string());
    service.check_login(&LoginRequest { username: username.to_string(), password: password.to_string(), remember_me: None })
}

#[test]
fn malformed_logins_are_refused_before_their_credentials_are_checked() {
    let outcome = login("ab", "123");
    assert_eq!(outcome.http_status(), 400);
    match outcome {
        LoginOutcome::Invalid(e) => assert_eq!(e.errors.len(), 2),
        _ => panic!("a malformed request is refused as such"),
    }
    let outcome = login("admin", "wrong-password");
    assert_eq!(outcome.http_status(), 401);
    assert!(matches!(outcome, LoginOutcome::Unauthorized(ref m) if m == "用户名或密码错误"));
    let outcome = login("admin", "admin123");
    assert_eq!(outcome.http_status(), 200);
    assert!(matches!(outcome, LoginOutcome::Authenticated(ref u) if u.username == "admin"));
}

#[test]
fn ducklake_commands_build_their_sql() {
    let create = DuckLakeAction::Create { name: "lake".to_string(), metadata_path: "meta.db".to_string(), data_path: None };
    assert_eq!(ducklake_action_sql(&create).unwrap(), "CREATE SECRET lake (TYPE DUCKLAKE, METADATA_PATH 'meta.db')");
    let create = DuckLakeAction::Create {
        name: "lake".to_string(),
        metadata_path: "meta.db".to_string(),
        data_path: Some("s3://b/".to_string()),
    };
    assert_eq!(
        ducklake_action_sql(&create).unwrap(),
        "CREATE SECRET lake (TYPE DUCKLAKE, METADATA_PATH 'meta.db', DATA_PATH 's3://b/')"
    );
    let attach = DuckLakeAction::Attach { name: "lake".to_string(), metadata_path: "meta.db".to_string(), read_only: true };
    assert_eq!(ducklake_action_sql(&attach).unwrap(), "ATTACH 'ducklake:meta.db' (READ_ONLY) AS lake");
    let attach = DuckLakeAction::Attach { name: "lake".to_string(), metadata_path: "meta.db".to_string(), read_only: false };
    assert_eq!(ducklake_action_sql(&attach).unwrap(), "ATTACH 'ducklake:meta.db' AS lake");
    let snaps = DuckLakeAction::Snapshots { database: "lake".to_string() };
    assert_eq!(ducklake_action_sql(&snaps).unwrap(), "SELECT * FROM lake.snapshots() ORDER BY snapshot_id DESC LIMIT 10");
    let travel = |version: Option<u64>, timestamp: Option<&str>| DuckLakeAction::TimeTravel {
        database: "lake".to_string(),
        table: "orders".to_string(),
        version,
        timestamp: timestamp.map(|t| t.to_string()),
        sql: "SELECT * FROM lake.orders JOIN lake.orders o2 ON 1=1".to_string(),
    };
    assert_eq!(
        ducklake_action_sql(&travel(Some(3), Some("2024-01-01"))).unwrap(),
        "SELECT * FROM lake.orders AT (VERSION => 3) JOIN lake.orders AT (VERSION => 3) o2 ON 1=1"
    );
    assert_eq!(
        ducklake_action_sql(&travel(None, Some("2024-01-01"))).unwrap(),
        "SELECT * FROM lake.orders AT (TIMESTAMP => '2024-01-01') JOIN lake.orders AT (TIMESTAMP => '2024-01-01') o2 ON 1=1"
    );
    assert_eq!(ducklake_action_sql(&travel(None, None)).unwrap_err(), "Either version or timestamp must be specified");
}

#[test]
fn connection_strings_take_the_drivers_defaults() {
    let empty = DatabaseConnection { host: None, port: None, username: None, password: None, database: None };
    assert_eq!(postgres_connection_string(&empty), "postgresql://postgres:@localhost:5432/postgres");
    assert_eq!(connection_string(DatabaseKind::MySQL, &empty), "mysql://root:@localhost:3306/test");
    let full = DatabaseConnection {
        host: Some("db".to_string()),
        port: Some(6543),
        username: Some("u".to_string()),
        password: Some("p".to_string()),
        database: Some("d".to_string()),
    };
    assert_eq!(postgres_connection_string(&full), "postgresql://u:p@db:6543/d");
}

#[test]
fn connectors_work_only_once_connected() {
    assert!(read_gate(DatabaseKind::PostgreSQL, true).is_ok());
    assert_eq!(read_gate(DatabaseKind::PostgreSQL, false).unwrap_err(), "PostgreSQL连接未建立");
    assert_eq!(read_gate(DatabaseKind::MySQL, false).unwrap_err(), "MySQL连接未建立");
}
