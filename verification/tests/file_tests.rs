use duckhub::files::{upload_file, export_data, export_at, import_data, preview_file, get_file_info, DataExportRequest,
    DataImportRequest, FilePreviewRequest};
use duckhub::processors::FieldValue;

#[test]
fn uploads_are_stored_under_their_identifier() {
    let r = upload_file();
    assert_eq!(r.file_path, format!("/uploads/{}.csv", r.file_id));
    assert_eq!(r.file_id.len(), 36);
    assert_eq!(r.size, 1024000);
    let info = get_file_info("abc");
    assert_eq!(info.file_path, "/uploads/abc.csv");
    assert_eq!(info.metadata[2], ("delimiter".to_string(), ",".to_string()));
    assert_eq!(info.metadata[0].1, "upload");
}

#[test]
fn exports_are_named_after_table_time_and_format() {
    let req = DataExportRequest {
        table_name: "sales".to_string(),
        format: "csv".to_string(),
        filters: None,
        columns: None,
        limit: Some(10),
        compression: None,
    };
    let e = export_data(&req).unwrap();
    assert!(e.filename.starts_with("sales_"));
    assert!(e.filename.ends_with(".csv"));
    assert_eq!(e.filename.len(), "sales_".len() + 15 + ".csv".len());
    assert_eq!(e.download_url, format!("/api/v1/files/download/{}", e.export_id));
    assert_eq!(e.row_count, 10000);
    assert!(e.expires_at.ends_with("+00:00"));
}

#[test]
fn imports_report_their_counts() {
    let req = DataImportRequest {
        file_id: "f".to_string(),
        table_name: "t".to_string(),
        import_mode: "append".to_string(),
        column_mapping: None,
        skip_rows: None,
        delimiter: None,
        encoding: None,
    };
    let r = import_data(&req);
    assert_eq!(r.table_name, "t");
    assert_eq!(r.rows_imported + r.rows_skipped, r.rows_processed);
    assert_eq!(r.errors[0].row_number, 125);
}

#[test]
fn previews_describe_three_columns() {
    let r = preview_file(&FilePreviewRequest { file_id: "f1".to_string(), preview_type: "head".to_string(), rows: None });
    let schema = r.schema.unwrap();
    assert_eq!(schema.len(), 3);
    assert_eq!(schema[2].sample_values[0], "100.50");
    let data = r.data.unwrap();
    match data[0][2].1 {
        FieldValue::Float(bits) => assert_eq!(f64::from_bits(bits), 100.50),
        _ => panic!("expected a number"),
    }
    match data[1][2].1 {
        FieldValue::Float(bits) => assert_eq!(f64::from_bits(bits), 250.75),
        _ => panic!("expected a number"),
    }
    assert_eq!(r.sample_rows, 2);
}

#[test]
fn an_export_at_a_given_time_is_named_and_expires_a_day_later() {
    let req = DataExportRequest {
        table_name: "sales".to_string(),
        format: "parquet".to_string(),
        filters: None,
        columns: None,
        limit: None,
        compression: None,
    };
    let e = export_at(&req, 1_700_000_000, 250_000_000, "exp-1".to_string()).unwrap();
    assert_eq!(e.export_id, "exp-1");
    assert_eq!(e.filename, "sales_20231114_221320.parquet");
    assert_eq!(e.format, "parquet");
    assert_eq!(e.size, 2048000);
    assert_eq!(e.download_url, "/api/v1/files/download/exp-1");
    assert_eq!(e.expires_at, "2023-11-15T22:13:20.250+00:00");
    assert_eq!(e.created_at, "2023-11-14T22:13:20.250+00:00");
    assert!(export_at(&req, 8_210_266_800_000, 0, "exp-2".to_string()).is_none());
}
