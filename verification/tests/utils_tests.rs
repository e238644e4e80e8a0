use duckhub::format::{format_number, format_bytes, format_size, format_duration, format_duration_secs};
use duckhub::sql::{sanitize_sql, calculate_query_complexity, extract_table_names};
use duckhub::utils::{validate_password_strength, is_valid_email, generate_random_string, generate_cache_key};
use std::time::Duration;
use std::hash::{Hash, Hasher};

#[test]
fn test_format_number() {
    assert_eq!(format_number(1234), "1,234");
    assert_eq!(format_number(1234567), "1,234,567");
    assert_eq!(format_number(123), "123");
}

#[test]
fn test_format_bytes() {
    assert_eq!(format_bytes(0), "0 B");
    assert_eq!(format_bytes(1024), "1.00 KB");
    assert_eq!(format_bytes(1048576), "1.00 MB");
    assert_eq!(format_bytes(512), "512 B");
}

#[test]
fn test_is_valid_email() {
    assert!(is_valid_email("test@example.com"));
    assert!(is_valid_email("user.name+tag@domain.co.uk"));
    assert!(!is_valid_email("invalid.email"));
    assert!(!is_valid_email("@domain.com"));
}

#[test]
fn test_validate_password_strength() {
    assert!(validate_password_strength("Password123!").is_ok());
    assert!(validate_password_strength("weak").is_err());
    assert!(validate_password_strength("NoNumbers!").is_err());
}

#[test]
fn test_sanitize_sql() {
    let sql = "SELECT * FROM users -- this is a comment\nWHERE id = 1";
    let sanitized = sanitize_sql(sql);
    assert_eq!(sanitized, "SELECT * FROM users WHERE id = 1");
}

#[test]
fn test_calculate_query_complexity() {
    let simple_query = "SELECT * FROM users";
    assert_eq!(calculate_query_complexity(simple_query), 3);

    let complex_query = "SELECT u.*, COUNT(*) FROM users u JOIN orders o ON u.id = o.user_id GROUP BY u.id";
    assert!(calculate_query_complexity(complex_query) > 5);
}

#[test]
fn test_extract_table_names() {
    let sql = "SELECT * FROM users u JOIN orders o ON u.id = o.user_id";
    let tables = extract_table_names(sql);
    assert!(tables.contains(&"users".to_string()));
    assert!(tables.contains(&"orders".to_string()));
}

#[test]
fn format_number_groups_and_small_values() {
    assert_eq!(format_number(0), "0");
    assert_eq!(format_number(999), "999");
    assert_eq!(format_number(1000), "1,000");
    assert_eq!(format_number(18446744073709551615), "18,446,744,073,709,551,615");
}

#[test]
fn format_bytes_rounding_and_largest_unit() {
    assert_eq!(format_bytes(1023), "1023 B");
    assert_eq!(format_bytes(1536), "1.50 KB");
    assert_eq!(format_bytes(1073741824), "1.00 GB");
    assert_eq!(format_bytes(1099511627776), "1.00 TB");
    assert_eq!(format_bytes(1125899906842624), "1.00 PB");
    assert_eq!(format_bytes(1152921504606846976), "1024.00 PB");
    assert_eq!(format_bytes(u64::MAX), "16384.00 PB");
    // 1.005 KB would round up in decimal; the binary value rounds to even.
    assert_eq!(format_bytes(1029), format!("{:.2} KB", 1029f64 / 1024.0));
    assert_eq!(format_bytes(123456789), format!("{:.2} MB", 123456789f64 / 1048576.0));
}

#[test]
fn format_size_one_decimal_up_to_terabytes() {
    assert_eq!(format_size(0), "0 B");
    assert_eq!(format_size(1023), "1023 B");
    assert_eq!(format_size(1024), "1.0 KB");
    assert_eq!(format_size(1536), "1.5 KB");
    assert_eq!(format_size(1125899906842624), "1024.0 TB");
    assert_eq!(format_size(125000000), format!("{:.1} MB", 125000000f64 / 1048576.0));
}

#[test]
fn format_duration_units() {
    assert_eq!(format_duration(Duration::from_secs(45)), "45秒");
    assert_eq!(format_duration(Duration::from_secs(120)), "2分钟");
    assert_eq!(format_duration(Duration::from_secs(90)), "1分30秒");
    assert_eq!(format_duration(Duration::from_secs(7200)), "2小时");
    assert_eq!(format_duration(Duration::from_secs(3660)), "1小时1分钟");
    assert_eq!(format_duration(Duration::from_secs(86400)), "1天");
    assert_eq!(format_duration(Duration::from_secs(90000)), "1天1小时");
    assert_eq!(format_duration(Duration::from_millis(59999)), "59秒");
    assert_eq!(format_duration_secs(0), "0秒");
}

#[test]
fn password_errors_by_rule() {
    assert_eq!(validate_password_strength("Ab1!").unwrap_err(), "密码长度至少8位");
    let long = "Aa1!".repeat(33);
    assert_eq!(validate_password_strength(&long).unwrap_err(), "密码长度不能超过128位");
    assert_eq!(
        validate_password_strength("password123!").unwrap_err(),
        "密码必须包含大写字母、小写字母、数字和特殊字符中的至少3种"
    );
    assert!(validate_password_strength("Aa1!Aa1!").is_ok());
    assert!(validate_password_strength(&"Aa1!".repeat(32)).is_ok());
}

#[test]
fn email_shapes() {
    assert!(is_valid_email("a@b.cd"));
    assert!(!is_valid_email("a@b.c"));
    assert!(!is_valid_email("a@.com"));
    assert!(!is_valid_email("a b@c.com"));
    assert!(!is_valid_email("a@b.c1"));
}

#[test]
fn random_strings_are_alphanumeric_of_the_length_asked() {
    let s = generate_random_string(32);
    assert_eq!(s.chars().count(), 32);
    assert!(s.chars().all(|c| c.is_ascii_alphanumeric()));
    assert_eq!(generate_random_string(0), "");
}

#[test]
fn cache_keys_are_prefixed_and_deterministic() {
    let a = generate_cache_key("query", &["users", "10"]);
    let b = generate_cache_key("query", &["users", "10"]);
    let c = generate_cache_key("query", &["users", "11"]);
    assert_eq!(a, b);
    assert_ne!(a, c);
    assert!(a.starts_with("query:"));
    let hex = &a["query:".len()..];
    assert!(!hex.is_empty());
    assert!(hex.chars().all(|ch| ch.is_ascii_hexdigit() && !ch.is_ascii_uppercase()));
    let mut h = std::collections::hash_map::DefaultHasher::new();
    "query".hash(&mut h);
    "users".hash(&mut h);
    "10".hash(&mut h);
    assert_eq!(a, format!("query:{:x}", h.finish()));
}

#[test]
fn sanitize_sql_comments_and_strings() {
    assert_eq!(sanitize_sql("SELECT /* note */ 1"), "SELECT 1");
    assert_eq!(sanitize_sql("SELECT '--not a comment' FROM t"), "SELECT '--not a comment' FROM t");
    assert_eq!(sanitize_sql("SELECT 1 /* open"), "SELECT 1 /*");
    assert_eq!(sanitize_sql("  a   b\t\nc  "), "a b c");
    assert_eq!(sanitize_sql("a - b"), "a - b");
}

#[test]
fn query_complexity_is_capped() {
    assert_eq!(calculate_query_complexity(""), 1);
    let q = "WITH x AS (SELECT COUNT(*) FROM a JOIN b JOIN c) SELECT SUM(v) OVER () FROM x";
    assert_eq!(calculate_query_complexity(q), 10);
    assert_eq!(calculate_query_complexity("select * from t order by x"), 4);
}

#[test]
fn table_names_sorted_and_unique() {
    let tables = extract_table_names("insert into Logs select * from events, users; update logs set a=1");
    assert_eq!(tables, vec!["events".to_string(), "logs".to_string()]);
    assert_eq!(extract_table_names("SELECT * FROM (SELECT 1)"), Vec::<String>::new());
    assert_eq!(extract_table_names("SELECT * FROM"), Vec::<String>::new());
}

#[test]
fn sanitized_sql_is_single_spaced() {
    for sql in ["  SELECT\t*  FROM   t -- note\n  WHERE a = 1  ", "/* x */ SELECT 1", "\n\nSELECT\r\n2\n", ""] {
        let s = sanitize_sql(sql);
        assert!(!s.starts_with(char::is_whitespace));
        assert!(!s.ends_with(char::is_whitespace));
        assert!(!s.contains("  "));
        assert!(s.chars().all(|c| c == ' ' || !c.is_whitespace()));
    }
    assert_eq!(sanitize_sql("  SELECT\t*  FROM   t -- note\n  WHERE a = 1  "), "SELECT * FROM t WHERE a = 1");
}

#[test]
fn formatted_numbers_read_back_without_separators() {
    for n in [0u64, 7, 999, 1000, 1234567, u64::MAX] {
        assert_eq!(format_number(n).replace(',', ""), n.to_string());
    }
}
