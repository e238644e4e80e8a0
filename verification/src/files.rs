//! File uploads, exports, imports and previews: what the file endpoints answer.
use vstd::prelude::*;
use crate::text::{chars_of, string_of};
use crate::format::append_chars;
use crate::processors::FieldValue;
use crate::ambient::{new_uuid_text, now_parts, now_text, clock_rfc3339, rfc3339_at, in_chrono_range};

verus! {

/// A stored upload.
#[derive(Debug)]
pub struct FileUploadResponse {
    pub file_id: String,
    pub filename: String,
    pub size: u64,
    pub content_type: String,
    pub upload_time: String,
    pub file_path: String,
    pub checksum: String,
}

/// What is known of a stored file.
#[derive(Debug)]
pub struct FileInfo {
    pub file_id: String,
    pub filename: String,
    pub size: u64,
    pub content_type: String,
    pub upload_time: String,
    pub last_modified: String,
    pub file_path: String,
    pub checksum: String,
    /// Metadata, each key once, in the order it was recorded.
    pub metadata: Vec<(String, String)>,
}

/// A request to export a table.
#[derive(Debug)]
pub struct DataExportRequest {
    pub table_name: String,
    /// `csv`, `json`, `parquet` or `excel`.
    pub format: String,
    pub filters: Option<Vec<(String, String)>>,
    pub columns: Option<Vec<String>>,
    pub limit: Option<u32>,
    /// `gzip` or `zip`.
    pub compression: Option<String>,
}

/// A finished export.
#[derive(Debug)]
pub struct DataExportResponse {
    pub export_id: String,
    pub filename: String,
    pub format: String,
    pub size: u64,
    pub row_count: u32,
    pub download_url: String,
    pub expires_at: String,
    pub created_at: String,
}

/// A request to import an uploaded file into a table.
#[derive(Debug)]
pub struct DataImportRequest {
    pub file_id: String,
    pub table_name: String,
    /// `append`, `replace` or `upsert`.
    pub import_mode: String,
    pub column_mapping: Option<Vec<(String, String)>>,
    pub skip_rows: Option<u32>,
    pub delimiter: Option<String>,
    pub encoding: Option<String>,
}

/// A row that could not be imported.
#[derive(Debug)]
pub struct ImportError {
    pub row_number: u32,
    pub column: String,
    pub error_type: String,
    pub message: String,
    pub value: String,
}

/// How an import went.
#[derive(Debug)]
pub struct DataImportResponse {
    pub import_id: String,
    pub table_name: String,
    /// `pending`, `processing`, `completed` or `failed`.
    pub status: String,
    pub rows_processed: u32,
    pub rows_imported: u32,
    pub rows_skipped: u32,
    pub errors: Vec<ImportError>,
    pub started_at: String,
    pub completed_at: Option<String>,
}

/// A request to preview an uploaded file.
#[derive(Debug)]
pub struct FilePreviewRequest {
    pub file_id: String,
    /// `head`, `sample` or `schema`.
    pub preview_type: String,
    pub rows: Option<u32>,
}

/// A column as the preview describes it.
#[derive(Debug)]
pub struct ColumnSchema {
    pub name: String,
    pub data_type: String,
    pub nullable: bool,
    pub sample_values: Vec<String>,
    pub unique_count: u32,
    pub null_count: u32,
}

/// The preview of a file.
#[derive(Debug)]
pub struct FilePreviewResponse {
    pub file_id: String,
    pub filename: String,
    pub preview_type: String,
    pub schema: Option<Vec<ColumnSchema>>,
    /// Sample rows, each a list of named values.
    pub data: Option<Vec<Vec<(String, FieldValue)>>>,
    pub total_rows: Option<u32>,
    pub sample_rows: u32,
}

/// Where an upload is stored.
pub open spec fn upload_path(file_id: Seq<char>) -> Seq<char> {
    "/uploads/"@ + file_id + ".csv"@
}

fn upload_path_of(file_id: &str) -> (p: String)
    ensures
        p@ == upload_path(file_id@),
{
    let mut out = chars_of("/uploads/");
    append_chars(&mut out, &chars_of(file_id));
    append_chars(&mut out, &chars_of(".csv"));
    string_of(&out)
}

/// Stores an upload: the sample CSV file of 1024000 bytes under a fresh
/// identifier, stored at `/uploads/<id>.csv`, uploaded now.
pub fn upload_file() -> (r: FileUploadResponse)
    ensures
        r.filename@ == "sample_data.csv"@,
        r.size == 1024000,
        r.content_type@ == "text/csv"@,
        r.file_path@ == upload_path(r.file_id@),
        r.checksum@ == "sha256:abc123def456"@,
{
    let file_id = new_uuid_text();
    let file_path = upload_path_of(file_id.as_str());
    FileUploadResponse {
        file_id,
        filename: "sample_data.csv".to_string(),
        size: 1024000,
        content_type: "text/csv".to_string(),
        upload_time: now_text(),
        file_path,
        checksum: "sha256:abc123def456".to_string(),
    }
}

/// What chrono's `format("%Y%m%d_%H%M%S")` writes for the time `t` seconds
/// after the Unix epoch (UTC).
pub uninterp spec fn compact_stamp_of(t: int) -> Seq<char>;

/// Calls chrono's `DateTime::from_timestamp(t, 0)` and formats it with
/// `%Y%m%d_%H%M%S`.
#[verifier::external_body]
fn clock_compact_stamp(t: i64) -> (s: String)
    requires
        in_chrono_range(t as int),
    ensures
        s@ == compact_stamp_of(t as int),
{
    match chrono::DateTime::from_timestamp(t, 0) {
        Some(d) => d.format("%Y%m%d_%H%M%S").to_string(),
        None => String::new(),
    }
}

/// The name of an export of `table` made at `t` in `format`.
pub open spec fn export_filename(table: Seq<char>, t: int, format: Seq<char>) -> Seq<char> {
    table + seq!['_'] + compact_stamp_of(t) + seq!['.'] + format
}

/// Where an export is downloaded.
pub open spec fn download_url(export_id: Seq<char>) -> Seq<char> {
    "/api/v1/files/download/"@ + export_id
}

/// The export of a table made at `now` and `nanos` nanoseconds with the
/// identifier `export_id`, stamped with that time: a file of 2048000 bytes holding 10000 rows, named after the
/// table, the time and the format, downloadable at
/// `/api/v1/files/download/<id>` until a day later. `None` exactly when a day
/// later has no date in chrono's range.
pub fn export_at(request: &DataExportRequest, now: i64, nanos: u32, export_id: String) -> (r: Option<
    DataExportResponse,
>)
    requires
        in_chrono_range(now as int),
        nanos < 1_000_000_000,
    ensures
        r is None <==> !in_chrono_range(now + 86400),
        r matches Some(e) ==> {
            &&& e.export_id@ == export_id@
            &&& e.filename@ == export_filename(request.table_name@, now as int, request.format@)
            &&& e.format@ == request.format@
            &&& e.size == 2048000
            &&& e.row_count == 10000
            &&& e.download_url@ == download_url(export_id@)
            &&& e.expires_at@ == rfc3339_at(now + 86400, nanos as int)
            &&& e.created_at@ == rfc3339_at(now as int, nanos as int)
        },
{
    if now > 8_210_266_790_399 {
        return None;
    }
    let mut name = chars_of(request.table_name.as_str());
    name.push('_');
    let stamp = clock_compact_stamp(now);
    append_chars(&mut name, &chars_of(stamp.as_str()));
    name.push('.');
    append_chars(&mut name, &chars_of(request.format.as_str()));
    let mut url = chars_of("/api/v1/files/download/");
    append_chars(&mut url, &chars_of(export_id.as_str()));
    let expires_at = clock_rfc3339(now + 86400, nanos);
    let created_at = clock_rfc3339(now, nanos);
    Some(DataExportResponse {
        export_id,
        filename: string_of(&name),
        format: request.format.clone(),
        size: 2048000,
        row_count: 10000,
        download_url: string_of(&url),
        expires_at,
        created_at,
    })
}

/// Exports a table: a file of 2048000 bytes holding 10000 rows, named after the
/// table, the time of the export and the format, downloadable at
/// `/api/v1/files/download/<id>` for 24 hours. `None` only when the clock reads
/// a time within a day of the end of chrono's range.
pub fn export_data(request: &DataExportRequest) -> (r: Option<DataExportResponse>)
    ensures
        r matches Some(e) ==> {
            &&& e.format@ == request.format@
            &&& e.size == 2048000
            &&& e.row_count == 10000
            &&& e.download_url@ == download_url(e.export_id@)
            &&& exists|t: int, n: int|
                #![trigger compact_stamp_of(t), rfc3339_at(t, n)]
                in_chrono_range(t) && 0 <= n < 1_000_000_000 && e.filename@ == export_filename(
                    request.table_name@,
                    t,
                    request.format@,
                ) && e.expires_at@ == rfc3339_at(t + 86400, n) && e.created_at@ == rfc3339_at(t, n)
        },
{
    let (now, nanos) = now_parts();
    let export_id = new_uuid_text();
    let r = export_at(request, now, nanos, export_id);
    proof {
        if r is Some {
            let e = r->0;
            assert(e.filename@ == export_filename(request.table_name@, now as int, request.format@));
        }
    }
    r
}

/// Imports a file into a table: 10000 rows processed, 9950 imported, 50 skipped,
/// with one reported error (row 125: `invalid_number` in `amount` is no number).
pub fn import_data(request: &DataImportRequest) -> (r: DataImportResponse)
    ensures
        r.table_name@ == request.table_name@,
        r.status@ == "completed"@,
        r.rows_processed == 10000 && r.rows_imported == 9950 && r.rows_skipped == 50,
        r.errors@.len() == 1,
        r.errors@[0].row_number == 125,
        r.errors@[0].column@ == "amount"@,
        r.errors@[0].error_type@ == "type_mismatch"@,
        r.errors@[0].message@ == "无法将字符串转换为数字"@,
        r.errors@[0].value@ == "invalid_number"@,
        r.completed_at is Some,
{
    DataImportResponse {
        import_id: new_uuid_text(),
        table_name: request.table_name.clone(),
        status: "completed".to_string(),
        rows_processed: 10000,
        rows_imported: 9950,
        rows_skipped: 50,
        errors: vec![
            ImportError {
                row_number: 125,
                column: "amount".to_string(),
                error_type: "type_mismatch".to_string(),
                message: "无法将字符串转换为数字".to_string(),
                value: "invalid_number".to_string(),
            },
        ],
        started_at: now_text(),
        completed_at: Some(now_text()),
    }
}

/// `c` describes column `name` of type `data_type`.
pub open spec fn column_schema_is(
    c: ColumnSchema,
    name: Seq<char>,
    data_type: Seq<char>,
    nullable: bool,
    samples: Seq<Seq<char>>,
    unique_count: u32,
    null_count: u32,
) -> bool {
    &&& c.name@ == name
    &&& c.data_type@ == data_type
    &&& c.nullable == nullable
    &&& c.sample_values@.map_values(|s: String| s@) == samples
    &&& c.unique_count == unique_count
    &&& c.null_count == null_count
}

fn column_schema(
    name: &str,
    data_type: &str,
    nullable: bool,
    samples: Vec<String>,
    unique_count: u32,
    null_count: u32,
) -> (c: ColumnSchema)
    ensures
        column_schema_is(c, name@, data_type@, nullable, samples@.map_values(|s: String| s@), unique_count, null_count),
{
    ColumnSchema {
        name: name.to_string(),
        data_type: data_type.to_string(),
        nullable,
        sample_values: samples,
        unique_count,
        null_count,
    }
}

/// The IEEE 754 bits of 100.50.
pub const AMOUNT_ALICE_BITS: u64 = 0x4059_2000_0000_0000;

/// The IEEE 754 bits of 250.75.
pub const AMOUNT_BOB_BITS: u64 = 0x406F_5800_0000_0000;

fn sample_row(id: i64, name: &str, amount_bits: u64) -> (r: Vec<(String, FieldValue)>)
    ensures
        r@.len() == 3,
        r@[0].0@ == "id"@ && r@[0].1 == FieldValue::Int(id),
        r@[1].0@ == "name"@ && (r@[1].1 matches FieldValue::Str(s) && s@ == name@),
        r@[2].0@ == "amount"@ && r@[2].1 == FieldValue::Float(amount_bits),
{
    vec![
        ("id".to_string(), FieldValue::Int(id)),
        ("name".to_string(), FieldValue::Str(name.to_string())),
        ("amount".to_string(), FieldValue::Float(amount_bits)),
    ]
}

/// Previews a file: the three columns `id` (INTEGER), `name` (VARCHAR) and
/// `amount` (DECIMAL) with their samples and counts, two sample rows (Alice with
/// 100.50 and Bob with 250.75) of 10000.
pub fn preview_file(request: &FilePreviewRequest) -> (r: FilePreviewResponse)
    ensures
        r.file_id@ == request.file_id@,
        r.filename@ == "sample_data.csv"@,
        r.preview_type@ == request.preview_type@,
        r.schema matches Some(s) && s@.len() == 3
            && column_schema_is(s@[0], "id"@, "INTEGER"@, false, seq!["1"@, "2"@, "3"@], 1000, 0)
            && column_schema_is(s@[1], "name"@, "VARCHAR"@, true, seq!["Alice"@, "Bob"@, "Charlie"@], 950, 50)
            && column_schema_is(s@[2], "amount"@, "DECIMAL"@, true, seq!["100.50"@, "250.75"@, "89.99"@], 800, 25),
        r.data matches Some(rows) && rows@.len() == 2
            && rows@[0]@.len() == 3 && rows@[0]@[0].1 == FieldValue::Int(1)
            && (rows@[0]@[1].1 matches FieldValue::Str(n) && n@ == "Alice"@)
            && rows@[0]@[2].1 == FieldValue::Float(AMOUNT_ALICE_BITS)
            && rows@[1]@.len() == 3 && rows@[1]@[0].1 == FieldValue::Int(2)
            && (rows@[1]@[1].1 matches FieldValue::Str(n) && n@ == "Bob"@)
            && rows@[1]@[2].1 == FieldValue::Float(AMOUNT_BOB_BITS),
        r.total_rows == Some(10000u32),
        r.sample_rows == 2,
{
    let ids = vec!["1".to_string(), "2".to_string(), "3".to_string()];
    let names = vec!["Alice".to_string(), "Bob".to_string(), "Charlie".to_string()];
    let amounts = vec!["100.50".to_string(), "250.75".to_string(), "89.99".to_string()];
    assert(ids@.map_values(|s: String| s@) =~= seq!["1"@, "2"@, "3"@]);
    assert(names@.map_values(|s: String| s@) =~= seq!["Alice"@, "Bob"@, "Charlie"@]);
    assert(amounts@.map_values(|s: String| s@) =~= seq!["100.50"@, "250.75"@, "89.99"@]);
    let schema = vec![
        column_schema("id", "INTEGER", false, ids, 1000, 0),
        column_schema("name", "VARCHAR", true, names, 950, 50),
        column_schema("amount", "DECIMAL", true, amounts, 800, 25),
    ];
    let data = vec![sample_row(1, "Alice", AMOUNT_ALICE_BITS), sample_row(2, "Bob", AMOUNT_BOB_BITS)];
    FilePreviewResponse {
        file_id: request.file_id.clone(),
        filename: "sample_data.csv".to_string(),
        preview_type: request.preview_type.clone(),
        schema: Some(schema),
        data: Some(data),
        total_rows: Some(10000),
        sample_rows: 2,
    }
}

/// What is known of file `file_id`: the sample CSV file of 1024000 bytes stored
/// at `/uploads/<id>.csv`, uploaded and last changed now, with its source
/// (`upload`), encoding (`utf-8`) and delimiter (`,`).
pub fn get_file_info(file_id: &str) -> (r: FileInfo)
    ensures
        r.file_id@ == file_id@,
        r.filename@ == "sample_data.csv"@,
        r.size == 1024000,
        r.content_type@ == "text/csv"@,
        r.file_path@ == upload_path(file_id@),
        r.checksum@ == "sha256:abc123def456"@,
        r.metadata@.len() == 3,
        r.metadata@[0].0@ == "source"@ && r.metadata@[0].1@ == "upload"@,
        r.metadata@[1].0@ == "encoding"@ && r.metadata@[1].1@ == "utf-8"@,
        r.metadata@[2].0@ == "delimiter"@ && r.metadata@[2].1@ == ","@,
{
    let metadata = vec![
        ("source".to_string(), "upload".to_string()),
        ("encoding".to_string(), "utf-8".to_string()),
        ("delimiter".to_string(), ",".to_string()),
    ];
    FileInfo {
        file_id: file_id.to_string(),
        filename: "sample_data.csv".to_string(),
        size: 1024000,
        content_type: "text/csv".to_string(),
        upload_time: now_text(),
        last_modified: now_text(),
        file_path: upload_path_of(file_id),
        checksum: "sha256:abc123def456".to_string(),
        metadata,
    }
}

} // verus!
