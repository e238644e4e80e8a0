use duckhub::file_source::{file_kind, FileKind, full_pattern, text_lines, jsonl_entries};
use duckhub::cli::{parse_interactive_command, InteractiveCommand, QueryHistoryEntry, append_to_history, find_entry,
    recent_positions, export_plan, ExportTarget, Cell, csv_export_line, csv_print_line, cell_display, column_widths,
    display_option};

fn entry(id: &str, sql: &str) -> QueryHistoryEntry {
    QueryHistoryEntry::new(id.to_string(), sql.to_string(), 3, 1, true, None)
}

#[test]
fn interactive_lines_are_read_as_commands() {
    assert!(matches!(parse_interactive_command("   "), InteractiveCommand::Empty));
    assert!(matches!(parse_interactive_command(" exit\n"), InteractiveCommand::Exit));
    assert!(matches!(parse_interactive_command("quit"), InteractiveCommand::Exit));
    assert!(matches!(parse_interactive_command("help"), InteractiveCommand::Help));
    assert!(matches!(parse_interactive_command("history"), InteractiveCommand::History));
    assert!(matches!(parse_interactive_command("clear"), InteractiveCommand::Clear));
    match parse_interactive_command("\\h  ab12 ") {
        InteractiveCommand::Rerun(id) => assert_eq!(id, "ab12"),
        _ => panic!("expected a rerun"),
    }
    match parse_interactive_command("  SELECT 1; ") {
        InteractiveCommand::Sql(q) => assert_eq!(q, "SELECT 1;"),
        _ => panic!("expected a query"),
    }
    match parse_interactive_command("helpme") {
        InteractiveCommand::Sql(q) => assert_eq!(q, "helpme"),
        _ => panic!("expected a query"),
    }
}

#[test]
fn history_keeps_the_most_recent_thousand() {
    let mut h: Vec<QueryHistoryEntry> = Vec::new();
    for i in 0..1005 {
        h = append_to_history(h, entry(&format!("id{}", i), "SELECT 1"));
    }
    assert_eq!(h.len(), 1000);
    assert_eq!(h[0].id, "id5");
    assert_eq!(h[999].id, "id1004");
    let e = entry("x", "SELECT 2");
    assert_eq!(e.execution_time_ms, 3);
    assert!(e.timestamp > 0);
}

#[test]
fn history_lookup_and_order() {
    let h = vec![entry("abc-1", "a"), entry("abd-2", "b"), entry("abc-3", "c")];
    assert_eq!(find_entry(&h, "abc"), Some(0));
    assert_eq!(find_entry(&h, "abd"), Some(1));
    assert_eq!(find_entry(&h, "zz"), None);
    assert_eq!(recent_positions(5, 3), vec![4, 3, 2]);
    assert_eq!(recent_positions(2, 20), vec![1, 0]);
    assert_eq!(recent_positions(0, 20), Vec::<usize>::new());
}

#[test]
fn export_formats() {
    assert!(matches!(export_plan("csv", "SELECT 1", "o.csv"), Ok(ExportTarget::Csv)));
    assert!(matches!(export_plan("json", "SELECT 1", "o.json"), Ok(ExportTarget::Json)));
    match export_plan("parquet", "SELECT * FROM t", "/tmp/o.parquet") {
        Ok(ExportTarget::Parquet(c)) => assert_eq!(c, "COPY (SELECT * FROM t) TO '/tmp/o.parquet' (FORMAT PARQUET)"),
        _ => panic!("expected parquet"),
    }
    match export_plan("xlsx", "SELECT 1", "o") {
        Err(e) => assert_eq!(e, "Unsupported export format: xlsx"),
        _ => panic!("expected a refusal"),
    }
}

#[test]
fn csv_lines_quote_text() {
    let row = vec![Cell::Text("say \"hi\"".to_string()), Cell::Null, Cell::Json("42".to_string())];
    assert_eq!(csv_export_line(&row), "\"say \"\"hi\"\"\",,42");
    assert_eq!(csv_print_line(&row), "\"say \"hi\"\",null,42");
    assert_eq!(csv_export_line(&[]), "");
    assert_eq!(cell_display(&Cell::Null), "NULL");
    assert_eq!(cell_display(&Cell::Text("x".to_string())), "x");
}

#[test]
fn table_columns_are_as_wide_as_their_widest_value() {
    let cols = vec!["id".to_string(), "description".to_string(), "n".to_string()];
    let long = "x".repeat(40);
    let rows = vec![
        vec![Some(Cell::Json("12345".to_string())), Some(Cell::Text(long)), Some(Cell::Null)],
        vec![Some(Cell::Json("7".to_string())), None],
    ];
    assert_eq!(column_widths(&cols, &rows), vec![5, 30, 4]);
    assert_eq!(column_widths(&cols, &[]), vec![2, 11, 1]);
    assert_eq!(display_option(&Some("pk".to_string())), "pk");
    assert_eq!(display_option(&None), "None");
}

#[test]
fn files_are_read_by_extension() {
    assert!(matches!(file_kind("CSV"), FileKind::Csv));
    assert!(matches!(file_kind("json"), FileKind::Json));
    assert!(matches!(file_kind("NdJson"), FileKind::JsonLines));
    assert!(matches!(file_kind("jsonl"), FileKind::JsonLines));
    assert!(matches!(file_kind("txt"), FileKind::Text));
    assert!(matches!(file_kind(""), FileKind::Text));
    assert_eq!(full_pattern("/tmp/duckhub", "*.csv"), "/tmp/duckhub/*.csv");
    assert_eq!(full_pattern("/tmp/duckhub", "/data/*.json"), "/data/*.json");
}

#[test]
fn json_lines_skip_blank_lines_but_keep_numbers() {
    assert_eq!(text_lines("a\r\nb\n\nc"), vec!["a".to_string(), "b".to_string(), String::new(), "c".to_string()]);
    assert_eq!(text_lines("a\n"), vec!["a".to_string()]);
    assert_eq!(text_lines(""), Vec::<String>::new());
    let e = jsonl_entries("{\"a\":1}\n  \n{\"b\":2}\n");
    assert_eq!(e, vec![(1, "{\"a\":1}".to_string()), (3, "{\"b\":2}".to_string())]);
}
