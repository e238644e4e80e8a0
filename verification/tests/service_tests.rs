use duckhub::auth::{AuthMiddleware, AuthDecision, bearer_token, user_id_from_subject};
use duckhub::security::PermissionService;
use duckhub::scheduler::{TaskScheduler, SchedulerConfig, TaskDefinition, TaskType, TaskStatus, should_execute_task};
use duckhub::catalog::{table_schema, schema_history, schema_evolution, SchemaEvolutionQuery, TableDataQuery,
    table_data_window, has_more_rows, table_stats};

#[test]
fn default_middleware_skips_public_paths() {
    let svc = AuthMiddleware::new().new_transform(());
    assert!(svc.skips("/health"));
    assert!(svc.skips("/health/live"));
    assert!(svc.skips("/api/v1/auth/login"));
    assert!(!svc.skips("/api/v1/query"));
    let svc = AuthMiddleware::new().with_skip_paths(vec!["/docs".to_string()]).new_transform(());
    assert!(svc.skips("/docs/index.html"));
    assert!(matches!(svc.decide("/metrics", None), AuthDecision::Pass));
    assert!(matches!(svc.decide("/api/v1/data", None), AuthDecision::Unauthorized));
    assert!(matches!(svc.decide("/api/v1/data", Some(Err("bad".to_string()))), AuthDecision::Unauthorized));
    assert!(matches!(svc.decide("/api/v1/data", Some(Ok(7))), AuthDecision::Authenticated(7)));
}

#[test]
fn bearer_tokens_are_read_after_the_prefix() {
    assert_eq!(bearer_token("Bearer abc.def"), Some("abc.def".to_string()));
    assert_eq!(bearer_token("Bearer "), Some(String::new()));
    assert_eq!(bearer_token("bearer abc"), None);
    assert_eq!(bearer_token("Basic xyz"), None);
}

#[test]
fn subjects_must_be_uuids() {
    let id = user_id_from_subject("67e55044-10b1-426f-9247-bb680e5fe0c8").unwrap();
    assert_eq!(id, 0x67e5504410b1426f9247bb680e5fe0c8);
    let e = user_id_from_subject("not-a-uuid").unwrap_err();
    assert!(e.starts_with("无效的用户ID格式: "));
}

#[test]
fn permissions_by_role() {
    let svc = PermissionService::new();
    let admin = vec!["admin".to_string()];
    assert!(svc.check_permission(&admin, "manage:users"));
    assert!(!svc.check_permission(&admin, "read:own"));
    let roles = vec!["viewer".to_string(), "user".to_string(), "ghost".to_string(), "user".to_string()];
    assert!(svc.check_permission(&roles, "write:own"));
    assert!(!svc.check_permission(&roles, "read:all"));
    assert_eq!(
        svc.get_user_permissions(&roles),
        vec!["read:own".to_string(), "read:public".to_string(), "write:own".to_string()]
    );
    assert_eq!(svc.get_user_permissions(&[]), Vec::<String>::new());
    for p in svc.get_user_permissions(&roles) {
        assert!(svc.check_permission(&roles, &p));
    }
}

fn def(name: &str, enabled: bool, last: Option<i64>) -> TaskDefinition {
    TaskDefinition {
        id: String::new(),
        name: name.to_string(),
        task_type: TaskType::BatchImport,
        schedule: "* * * * *".to_string(),
        source_name: "src".to_string(),
        processors: vec![],
        target_connector: "sink".to_string(),
        config: std::collections::HashMap::new(),
        enabled,
        created_at: 0,
        last_executed_at: last,
    }
}

#[test]
fn scheduler_round_and_cleanup() {
    let mut s = TaskScheduler::new(SchedulerConfig::default());
    assert!(s.start().is_ok());
    assert_eq!(s.start().unwrap_err(), "调度器已在运行中");
    s.add_task_with(def("a", true, None), "t1".to_string(), 100);
    s.add_task_with(def("b", false, None), "t2".to_string(), 100);
    s.add_task_with(def("c", true, Some(90)), "t3".to_string(), 100);
    s.add_task_with(def("d", true, Some(30)), "t4".to_string(), 100);
    let started = s.check_and_execute_tasks(100);
    assert_eq!(started, vec!["t1".to_string(), "t4".to_string()]);
    assert!(matches!(s.get_task_status("t1"), Some(TaskStatus::Running)));
    assert!(s.get_task_status("t2").is_none());
    let stats = s.get_task_stats();
    assert_eq!(stats.total_tasks, 4);
    assert_eq!(stats.running_tasks, 2);
    s.mark_completed("t1", 105);
    let stats = s.get_task_stats();
    assert_eq!(stats.completed_tasks, 1);
    assert_eq!(stats.total_records_processed, 100);
    s.cleanup_completed_tasks();
    assert!(s.get_task_status("t1").is_none());
    assert!(matches!(s.get_task_status("t4"), Some(TaskStatus::Running)));
    assert!(s.remove_task("t4"));
    assert!(!s.remove_task("t4"));
    assert_eq!(s.get_task_stats().total_tasks, 3);
    s.check_and_execute_tasks(200);
    let cancelled = s.stop();
    assert_eq!(cancelled.len(), 2);
    assert!(!s.is_active());
    assert_eq!(s.get_task_stats().running_tasks, 0);
}

#[test]
fn scheduler_respects_the_concurrency_limit() {
    let mut cfg = SchedulerConfig::default();
    cfg.max_concurrent_tasks = 1;
    let mut s = TaskScheduler::new(cfg);
    s.add_task_with(def("a", true, None), "t1".to_string(), 0);
    s.add_task_with(def("b", true, None), "t2".to_string(), 0);
    assert_eq!(s.check_and_execute_tasks(0).len(), 2);
    assert!(s.check_and_execute_tasks(0).is_empty());
    assert!(should_execute_task(None, 0));
    assert!(should_execute_task(Some(0), 60));
    assert!(!should_execute_task(Some(0), 59));
}

#[test]
fn catalog_schemas_and_history() {
    let t = table_schema("transactions").unwrap();
    assert_eq!(t.columns.len(), 8);
    assert_eq!(t.columns[3].default_value.as_deref(), Some("'USD'"));
    assert_eq!(table_schema("users").unwrap().row_count, 50000);
    assert!(table_schema("orders").is_none());
    let q = SchemaEvolutionQuery { table: Some("transactions".to_string()), limit: Some(2), offset: Some(1) };
    let page: Vec<u32> = schema_evolution(schema_history(), &q).iter().map(|v| v.version).collect();
    assert_eq!(page, vec![4, 3]);
    let q = SchemaEvolutionQuery { table: Some("users".to_string()), limit: None, offset: None };
    assert!(schema_evolution(schema_history(), &q).is_empty());
    let q = SchemaEvolutionQuery { table: None, limit: None, offset: Some(10) };
    assert!(schema_evolution(schema_history(), &q).is_empty());
    let q = TableDataQuery { limit: Some(5000), offset: None, order_by: None, order_direction: None, filters: None };
    assert_eq!(table_data_window(&q), (1000, 0));
    assert!(has_more_rows(10, 5, 16));
    assert!(!has_more_rows(10, 6, 16));
}

#[test]
fn table_statistics() {
    let t = table_stats("transactions").unwrap();
    assert_eq!(t.row_count, 1_250_000);
    assert_eq!(t.column_stats.len(), 4);
    assert_eq!(t.column_stats[3].avg_length, Some(85));
    assert_eq!(t.column_stats[1].max_value.as_deref(), Some("999999.99"));
    let u = table_stats("users").unwrap();
    assert_eq!(u.column_stats[2].avg_length, Some(253));
    assert!(table_stats("orders").is_none());
    let s = table_schema("transactions").unwrap();
    assert_eq!(s.columns[3].default_value.as_deref(), Some("'USD'"));
    assert_eq!(s.indexes[1].name, "idx_transactions_created_at");
}
