//! The command-line client's decisions: what a line typed in interactive mode
//! asks for, how the query history is kept and searched, and how query results
//! are written out as CSV or laid out as a table.
use vstd::prelude::*;
use crate::text::{str_eq, str_starts_with, is_prefix, chars_of, string_of, replace_chars, replace_all};
use crate::format::{append_chars, dec, dec_chars};
use crate::processors::{trim, trim_spec};
use crate::analytics::{join_with, join_sep};
use crate::ambient::now_millis;

verus! {

/// What a line typed in interactive mode asks for.
#[derive(Debug)]
pub enum InteractiveCommand {
    /// A blank line: nothing to do.
    Empty,
    /// `exit` or `quit`.
    Exit,
    /// `help`.
    Help,
    /// `history`.
    History,
    /// `clear`.
    Clear,
    /// `\h <id>`: run again the query of the history whose identifier starts with `<id>`.
    Rerun(String),
    /// Any other line: a query to run.
    Sql(String),
}

/// The words interactive mode reads as commands.
pub open spec fn is_keyword(t: Seq<char>) -> bool {
    t == "exit"@ || t == "quit"@ || t == "help"@ || t == "history"@ || t == "clear"@
}

/// No keyword starts with `\h `, and the keywords differ from one another.
proof fn lemma_keywords(t: Seq<char>)
    ensures
        is_prefix("\\h "@, t) ==> !is_keyword(t),
        "exit"@ != "quit"@ && "exit"@ != "help"@ && "quit"@ != "help"@,
        "history"@.len() == 7 && "clear"@.len() == 5 && "exit"@.len() == 4 && "quit"@.len() == 4
            && "help"@.len() == 4,
{
    reveal_strlit("exit");
    reveal_strlit("quit");
    reveal_strlit("help");
    reveal_strlit("history");
    reveal_strlit("clear");
    reveal_strlit("\\h ");
    assert("exit"@[0] != "quit"@[0]);
    assert("exit"@[0] != "help"@[0]);
    assert("quit"@[0] != "help"@[0]);
    if is_prefix("\\h "@, t) {
        assert(t[0] == t.subrange(0, 3)[0]);
        assert(t[0] == '\\');
        assert(t != "exit"@ && t != "quit"@ && t != "help"@ && t != "history"@ && t != "clear"@) by {
            assert("exit"@[0] == 'e');
            assert("quit"@[0] == 'q');
            assert("help"@[0] == 'h');
            assert("history"@[0] == 'h');
            assert("clear"@[0] == 'c');
        }
    }
}

/// Reads a line typed in interactive mode, with surrounding whitespace removed.
pub fn parse_interactive_command(line: &str) -> (c: InteractiveCommand)
    ensures
        (c is Empty) <==> trim_spec(line@).len() == 0,
        (c is Exit) <==> (trim_spec(line@) == "exit"@ || trim_spec(line@) == "quit"@),
        (c is Help) <==> trim_spec(line@) == "help"@,
        (c is History) <==> trim_spec(line@) == "history"@,
        (c is Clear) <==> trim_spec(line@) == "clear"@,
        (c is Rerun) <==> (trim_spec(line@).len() > 0 && !is_keyword(trim_spec(line@)) && is_prefix(
            "\\h "@,
            trim_spec(line@),
        )),
        (c is Sql) <==> (trim_spec(line@).len() > 0 && !is_keyword(trim_spec(line@)) && !is_prefix(
            "\\h "@,
            trim_spec(line@),
        )),
        c matches InteractiveCommand::Rerun(id) ==> id@ == trim_spec(
            trim_spec(line@).subrange(3, trim_spec(line@).len() as int),
        ),
        c matches InteractiveCommand::Sql(q) ==> q@ == trim_spec(line@),
{
    proof {
        reveal_strlit("exit");
        reveal_strlit("quit");
        reveal_strlit("help");
        reveal_strlit("history");
        reveal_strlit("clear");
        reveal_strlit("\\h ");
    }
    let t = trim(line);
    proof {
        lemma_keywords(t@);
    }
    let ts = t.as_str();
    if ts.unicode_len() == 0 {
        return InteractiveCommand::Empty;
    }
    if str_eq(ts, "exit") || str_eq(ts, "quit") {
        return InteractiveCommand::Exit;
    }
    if str_eq(ts, "help") {
        return InteractiveCommand::Help;
    }
    if str_eq(ts, "history") {
        return InteractiveCommand::History;
    }
    if str_eq(ts, "clear") {
        return InteractiveCommand::Clear;
    }
    if str_starts_with(ts, "\\h ") {
        let cs = chars_of(ts);
        let mut rest: Vec<char> = Vec::new();
        let mut i: usize = 3;
        while i < cs.len()
            invariant
                3 <= i <= cs@.len(),
                cs@ == t@,
                rest@ == t@.subrange(3, i as int),
            decreases cs.len() - i,
        {
            rest.push(cs[i]);
            i = i + 1;
            assert(rest@ =~= t@.subrange(3, i as int));
        }
        let r = string_of(&rest);
        return InteractiveCommand::Rerun(trim(r.as_str()));
    }
    InteractiveCommand::Sql(t)
}

/// One query run by the client.
#[derive(Debug)]
pub struct QueryHistoryEntry {
    pub id: String,
    pub sql: String,
    /// When it ran, in milliseconds since the Unix epoch.
    pub timestamp: i64,
    pub execution_time_ms: u64,
    pub row_count: u64,
    pub success: bool,
    pub error_message: Option<String>,
}

impl QueryHistoryEntry {
    /// An entry for a query that ran now.
    pub fn new(
        id: String,
        sql: String,
        execution_time_ms: u64,
        row_count: u64,
        success: bool,
        error_message: Option<String>,
    ) -> (e: Self)
        ensures
            e.id@ == id@,
            e.sql@ == sql@,
            e.execution_time_ms == execution_time_ms,
            e.row_count == row_count,
            e.success == success,
            e.error_message == error_message,
    {
        QueryHistoryEntry {
            id,
            sql,
            timestamp: now_millis(),
            execution_time_ms,
            row_count,
            success,
            error_message,
        }
    }
}

/// How many entries the history keeps.
pub const HISTORY_LIMIT: usize = 1000;

/// The last `n` items of `s` (all of them when there are fewer).
pub open spec fn most_recent<T>(s: Seq<T>, n: nat) -> Seq<T> {
    if s.len() > n {
        s.subrange(s.len() - n, s.len() as int)
    } else {
        s
    }
}

/// The history with `entry` added last, keeping only the most recent 1000 entries.
pub fn append_to_history(history: Vec<QueryHistoryEntry>, entry: QueryHistoryEntry) -> (r: Vec<
    QueryHistoryEntry,
>)
    ensures
        r@ == most_recent(history@.push(entry), HISTORY_LIMIT as nat),
{
    let mut h = history;
    h.push(entry);
    if h.len() > HISTORY_LIMIT {
        let skip = h.len() - HISTORY_LIMIT;
        let kept = h.split_off(skip);
        return kept;
    }
    h
}

/// Adding an entry to a history never leaves more than 1000 entries: the new
/// entry is last, the ones kept are the most recent in their order, and none is
/// dropped while there is room.
pub proof fn lemma_history_bounded(h: Seq<QueryHistoryEntry>, e: QueryHistoryEntry)
    ensures
        most_recent(h.push(e), HISTORY_LIMIT as nat).len() <= HISTORY_LIMIT,
        most_recent(h.push(e), HISTORY_LIMIT as nat).last() == e,
        h.len() < HISTORY_LIMIT ==> most_recent(h.push(e), HISTORY_LIMIT as nat) == h.push(e),
        forall|k: int|
            0 <= k < most_recent(h.push(e), HISTORY_LIMIT as nat).len() ==> #[trigger] most_recent(
                h.push(e),
                HISTORY_LIMIT as nat,
            )[k] == h.push(e)[h.push(e).len() - most_recent(h.push(e), HISTORY_LIMIT as nat).len() + k],
{
}

/// The first entry whose identifier starts with `prefix`.
pub fn find_entry(history: &[QueryHistoryEntry], prefix: &str) -> (r: Option<usize>)
    ensures
        match r {
            Some(i) => i < history@.len() && is_prefix(prefix@, history@[i as int].id@) && forall|j: int|
                0 <= j < i ==> !is_prefix(prefix@, #[trigger] history@[j].id@),
            None => forall|j: int| 0 <= j < history@.len() ==> !is_prefix(prefix@, #[trigger] history@[j].id@),
        },
{
    let mut i: usize = 0;
    while i < history.len()
        invariant
            i <= history@.len(),
            forall|j: int| 0 <= j < i ==> !is_prefix(prefix@, #[trigger] history@[j].id@),
        decreases history.len() - i,
    {
        if str_starts_with(history[i].id.as_str(), prefix) {
            return Some(i);
        }
        i = i + 1;
    }
    None
}

/// The positions of the most recent `limit` entries of a history of `len`
/// entries, newest first.
pub fn recent_positions(len: usize, limit: usize) -> (r: Vec<usize>)
    ensures
        r@.len() == (if len < limit { len } else { limit }),
        forall|k: int| 0 <= k < r@.len() ==> r@[k] == len - 1 - k,
{
    let n = if len < limit { len } else { limit };
    let mut r: Vec<usize> = Vec::new();
    let mut k: usize = 0;
    while k < n
        invariant
            n <= len,
            k <= n,
            r@.len() == k,
            forall|m: int| 0 <= m < k ==> r@[m] == len - 1 - m,
        decreases n - k,
    {
        r.push(len - 1 - k);
        k = k + 1;
    }
    r
}

/// Where exported results go.
#[derive(Debug)]
pub enum ExportTarget {
    /// A CSV file written by the client.
    Csv,
    /// A JSON file written by the client.
    Json,
    /// A Parquet file written by the database with this statement.
    Parquet(String),
}

/// The statement that has the database write the results of `sql` to `output`
/// as Parquet.
pub open spec fn parquet_copy(sql: Seq<char>, output: Seq<char>) -> Seq<char> {
    "COPY ("@ + sql + ") TO '"@ + output + "' (FORMAT PARQUET)"@
}

/// How results are exported in `format` (`csv`, `json` or `parquet`); any other
/// format is refused with `Unsupported export format: ` and the format.
pub fn export_plan(format: &str, sql: &str, output: &str) -> (r: Result<ExportTarget, String>)
    ensures
        format@ == "csv"@ ==> r matches Ok(ExportTarget::Csv),
        format@ == "json"@ ==> r matches Ok(ExportTarget::Json),
        format@ == "parquet"@ ==> (r matches Ok(ExportTarget::Parquet(c)) && c@ == parquet_copy(sql@, output@)),
        !(format@ == "csv"@ || format@ == "json"@ || format@ == "parquet"@) ==> (r matches Err(e) && e@
            == "Unsupported export format: "@ + format@),
{
    proof {
        reveal_strlit("csv");
        reveal_strlit("json");
        reveal_strlit("parquet");
        assert("csv"@.len() == 3 && "json"@.len() == 4 && "parquet"@.len() == 7);
    }
    if str_eq(format, "csv") {
        Ok(ExportTarget::Csv)
    } else if str_eq(format, "json") {
        Ok(ExportTarget::Json)
    } else if str_eq(format, "parquet") {
        let mut out = chars_of("COPY (");
        append_chars(&mut out, &chars_of(sql));
        append_chars(&mut out, &chars_of(") TO '"));
        append_chars(&mut out, &chars_of(output));
        append_chars(&mut out, &chars_of("' (FORMAT PARQUET)"));
        Ok(ExportTarget::Parquet(string_of(&out)))
    } else {
        let mut out = chars_of("Unsupported export format: ");
        append_chars(&mut out, &chars_of(format));
        Err(string_of(&out))
    }
}

/// A value of a result row.
#[derive(Debug)]
pub enum Cell {
    Null,
    Text(String),
    /// Any other value, as its JSON text.
    Json(String),
}

/// A value as the result table shows it: `NULL`, the text itself, or the JSON.
pub open spec fn display_text(c: Cell) -> Seq<char> {
    match c {
        Cell::Null => "NULL"@,
        Cell::Text(s) => s@,
        Cell::Json(j) => j@,
    }
}

/// A value as an exported CSV file holds it: nothing for null, text quoted with
/// inner quotes doubled, other values as JSON.
pub open spec fn export_field(c: Cell) -> Seq<char> {
    match c {
        Cell::Null => Seq::empty(),
        Cell::Text(s) => seq!['"'] + replace_all(s@, seq!['"'], seq!['"', '"']) + seq!['"'],
        Cell::Json(j) => j@,
    }
}

/// A value as the `csv` output of a query prints it: text quoted as it is, other
/// values as JSON (`null` for null).
pub open spec fn print_field(c: Cell) -> Seq<char> {
    match c {
        Cell::Null => "null"@,
        Cell::Text(s) => seq!['"'] + s@ + seq!['"'],
        Cell::Json(j) => j@,
    }
}

/// The text of a value as the result table shows it.
pub fn cell_display(c: &Cell) -> (s: String)
    ensures
        s@ == display_text(*c),
{
    match c {
        Cell::Null => "NULL".to_string(),
        Cell::Text(s) => s.clone(),
        Cell::Json(j) => j.clone(),
    }
}

/// The text of a value in an exported CSV file.
pub fn csv_export_field(c: &Cell) -> (s: String)
    ensures
        s@ == export_field(*c),
{
    match c {
        Cell::Null => String::new(),
        Cell::Text(t) => {
            let mut out: Vec<char> = vec!['"'];
            let quote: Vec<char> = vec!['"'];
            let two: Vec<char> = vec!['"', '"'];
            assert(quote@ =~= seq!['"']);
            assert(two@ =~= seq!['"', '"']);
            let doubled = replace_chars(&chars_of(t.as_str()), &quote, &two);
            append_chars(&mut out, &doubled);
            out.push('"');
            string_of(&out)
        },
        Cell::Json(j) => j.clone(),
    }
}

/// The text of a value in the `csv` output of a query.
pub fn csv_print_field(c: &Cell) -> (s: String)
    ensures
        s@ == print_field(*c),
{
    match c {
        Cell::Null => "null".to_string(),
        Cell::Text(t) => {
            let mut out: Vec<char> = vec!['"'];
            append_chars(&mut out, &chars_of(t.as_str()));
            out.push('"');
            string_of(&out)
        },
        Cell::Json(j) => j.clone(),
    }
}

/// A row of an exported CSV file: its values, comma separated.
pub fn csv_export_line(cells: &[Cell]) -> (s: String)
    ensures
        s@ == join_sep(cells@.map_values(|c: Cell| export_field(c)), ","@),
{
    let mut fields: Vec<String> = Vec::new();
    let mut i: usize = 0;
    while i < cells.len()
        invariant
            i <= cells@.len(),
            fields@.len() == i,
            forall|k: int| 0 <= k < i ==> #[trigger] fields@[k]@ == export_field(cells@[k]),
        decreases cells.len() - i,
    {
        fields.push(csv_export_field(&cells[i]));
        i = i + 1;
    }
    assert(fields@.map_values(|x: String| x@) =~= cells@.map_values(|c: Cell| export_field(c)));
    join_with(fields.as_slice(), ",")
}

/// A row of the `csv` output of a query: its values, comma separated.
pub fn csv_print_line(cells: &[Cell]) -> (s: String)
    ensures
        s@ == join_sep(cells@.map_values(|c: Cell| print_field(c)), ","@),
{
    let mut fields: Vec<String> = Vec::new();
    let mut i: usize = 0;
    while i < cells.len()
        invariant
            i <= cells@.len(),
            fields@.len() == i,
            forall|k: int| 0 <= k < i ==> #[trigger] fields@[k]@ == print_field(cells@[k]),
        decreases cells.len() - i,
    {
        fields.push(csv_print_field(&cells[i]));
        i = i + 1;
    }
    assert(fields@.map_values(|x: String| x@) =~= cells@.map_values(|c: Cell| print_field(c)));
    join_with(fields.as_slice(), ",")
}

/// The length of a text in UTF-8 bytes, as `str::len` gives it.
pub open spec fn byte_len(s: Seq<char>) -> nat {
    (vstd::utf8::encode_utf8(s).len() as usize) as nat
}

/// The room a value takes in the result table: its length in bytes, at most 30;
/// none for a missing value.
pub open spec fn cell_width(c: Option<Cell>) -> nat {
    match c {
        Some(v) => if byte_len(display_text(v)) < 30 { byte_len(display_text(v)) } else { 30 },
        None => 0,
    }
}

/// The value of column `i` in `row`, if the row has one.
pub open spec fn cell_at(row: Seq<Option<Cell>>, i: int) -> Option<Cell> {
    if 0 <= i < row.len() { row[i] } else { None }
}

/// The widest value of column `i` among the first `n` rows.
pub open spec fn widest(rows: Seq<Seq<Option<Cell>>>, i: int, n: int) -> nat
    decreases n,
{
    if n <= 0 {
        0
    } else {
        let w = cell_width(cell_at(rows[n - 1], i));
        let before = widest(rows, i, n - 1);
        if before < w { w } else { before }
    }
}

/// The width of column `i` titled `col`: its title or its widest value among
/// the first 100 rows, whichever is wider.
pub open spec fn column_width(col: Seq<char>, rows: Seq<Seq<Option<Cell>>>, i: int) -> nat {
    let n = if rows.len() < 100 { rows.len() as int } else { 100 };
    if byte_len(col) < widest(rows, i, n) { widest(rows, i, n) } else { byte_len(col) }
}

/// The rows as sequences of values.
pub open spec fn rows_view(rows: Seq<Vec<Option<Cell>>>) -> Seq<Seq<Option<Cell>>> {
    rows.map_values(|r: Vec<Option<Cell>>| r@)
}

fn width_of(c: &Option<Cell>) -> (w: usize)
    ensures
        w == cell_width(*c),
{
    match c {
        None => 0,
        Some(v) => {
            let n = match v {
                Cell::Null => "NULL".len(),
                Cell::Text(s) => s.as_str().len(),
                Cell::Json(j) => j.as_str().len(),
            };
            if n < 30 { n } else { 30 }
        },
    }
}

/// The widths of the columns of the result table.
pub fn column_widths(columns: &[String], rows: &[Vec<Option<Cell>>]) -> (w: Vec<usize>)
    ensures
        w@.len() == columns@.len(),
        forall|i: int| 0 <= i < columns@.len() ==> #[trigger] w@[i] == column_width(columns@[i]@, rows_view(rows@), i),
{
    let ghost rv = rows_view(rows@);
    let n = if rows.len() < 100 { rows.len() } else { 100 };
    let mut w: Vec<usize> = Vec::new();
    let mut i: usize = 0;
    while i < columns.len()
        invariant
            rv == rows_view(rows@),
            n == (if rows@.len() < 100 { rows@.len() as int } else { 100 }),
            i <= columns@.len(),
            w@.len() == i,
            forall|k: int| 0 <= k < i ==> #[trigger] w@[k] == column_width(columns@[k]@, rv, k),
        decreases columns.len() - i,
    {
        let mut best: usize = 0;
        let mut r: usize = 0;
        while r < n
            invariant
                rv == rows_view(rows@),
                n <= rows@.len(),
                r <= n,
                best == widest(rv, i as int, r as int),
                best <= 30,
            decreases n - r,
        {
            let cell: Option<&Option<Cell>> = if i < rows[r].len() { Some(&rows[r][i]) } else { None };
            let cw = match cell {
                Some(c) => width_of(c),
                None => 0,
            };
            assert(rv[r as int] == rows@[r as int]@);
            assert(cw == cell_width(cell_at(rv[r as int], i as int)));
            if best < cw {
                best = cw;
            }
            r = r + 1;
        }
        let title = columns[i].as_str().len();
        w.push(if title < best { best } else { title });
        i = i + 1;
    }
    w
}

/// An optional text as the table of tables shows it (`None` when absent).
pub fn display_option(opt: &Option<String>) -> (s: String)
    ensures
        s@ == match opt { Some(t) => t@, None => "None"@ },
{
    match opt {
        Some(t) => t.clone(),
        None => "None".to_string(),
    }
}


/// A DuckLake command of the command-line client.
#[derive(Debug)]
pub enum DuckLakeAction {
    /// Create a DuckLake database, with an optional data path.
    Create { name: String, metadata_path: String, data_path: Option<String> },
    /// Attach an existing DuckLake database, possibly read-only.
    Attach { name: String, metadata_path: String, read_only: bool },
    /// List the latest snapshots of a database.
    Snapshots { database: String },
    /// Run a query with `database.table` read at a version or a time.
    TimeTravel { database: String, table: String, version: Option<u64>, timestamp: Option<String>, sql: String },
}

/// The error of a time-travel query that names neither a version nor a time.
pub open spec fn no_travel_point() -> Seq<char> {
    "Either version or timestamp must be specified"@
}

/// The clause that reads a table at a version, else at a time.
pub open spec fn travel_clause(version: Option<u64>, timestamp: Option<Seq<char>>) -> Option<Seq<char>> {
    match version {
        Some(v) => Some("AT (VERSION => "@ + dec(v as nat) + ")"@),
        None => match timestamp {
            Some(t) => Some("AT (TIMESTAMP => '"@ + t + "')"@),
            None => None,
        },
    }
}

/// The SQL a DuckLake command runs: the secret that creates a database (with its
/// data path when one is given), the attachment (read-only when asked), the ten
/// latest snapshots, or the query with each `database.table` followed by the
/// time-travel clause; a time-travel query with neither version nor time is refused.
pub open spec fn ducklake_sql(action: DuckLakeAction) -> Result<Seq<char>, Seq<char>> {
    match action {
        DuckLakeAction::Create { name, metadata_path, data_path } => match data_path {
            Some(d) => Ok("CREATE SECRET "@ + name@ + " (TYPE DUCKLAKE, METADATA_PATH '"@ + metadata_path@
                + "', DATA_PATH '"@ + d@ + "')"@),
            None => Ok("CREATE SECRET "@ + name@ + " (TYPE DUCKLAKE, METADATA_PATH '"@ + metadata_path@ + "')"@),
        },
        DuckLakeAction::Attach { name, metadata_path, read_only } => if read_only {
            Ok("ATTACH 'ducklake:"@ + metadata_path@ + "' (READ_ONLY) AS "@ + name@)
        } else {
            Ok("ATTACH 'ducklake:"@ + metadata_path@ + "' AS "@ + name@)
        },
        DuckLakeAction::Snapshots { database } => Ok("SELECT * FROM "@ + database@
            + ".snapshots() ORDER BY snapshot_id DESC LIMIT 10"@),
        DuckLakeAction::TimeTravel { database, table, version, timestamp, sql } => {
            let ts = match timestamp { Some(t) => Some(t@), None => None };
            match travel_clause(version, ts) {
                None => Err(no_travel_point()),
                Some(c) => {
                    let target = database@ + "."@ + table@;
                    Ok(replace_all(sql@, target, target + " "@ + c))
                },
            }
        },
    }
}

/// The SQL of a DuckLake command (see `ducklake_sql`).
pub fn ducklake_action_sql(action: &DuckLakeAction) -> (r: Result<String, String>)
    ensures
        match r {
            Ok(s) => ducklake_sql(*action) == Ok::<Seq<char>, Seq<char>>(s@),
            Err(e) => ducklake_sql(*action) == Err::<Seq<char>, Seq<char>>(e@),
        },
{
    match action {
        DuckLakeAction::Create { name, metadata_path, data_path } => {
            let mut v = chars_of("CREATE SECRET ");
            append_chars(&mut v, &chars_of(name.as_str()));
            append_chars(&mut v, &chars_of(" (TYPE DUCKLAKE, METADATA_PATH '"));
            append_chars(&mut v, &chars_of(metadata_path.as_str()));
            match data_path {
                Some(d) => {
                    append_chars(&mut v, &chars_of("', DATA_PATH '"));
                    append_chars(&mut v, &chars_of(d.as_str()));
                    append_chars(&mut v, &chars_of("')"));
                },
                None => {
                    append_chars(&mut v, &chars_of("')"));
                },
            }
            Ok(string_of(&v))
        },
        DuckLakeAction::Attach { name, metadata_path, read_only } => {
            let mut v = chars_of("ATTACH 'ducklake:");
            append_chars(&mut v, &chars_of(metadata_path.as_str()));
            if *read_only {
                append_chars(&mut v, &chars_of("' (READ_ONLY) AS "));
            } else {
                append_chars(&mut v, &chars_of("' AS "));
            }
            append_chars(&mut v, &chars_of(name.as_str()));
            Ok(string_of(&v))
        },
        DuckLakeAction::Snapshots { database } => {
            let mut v = chars_of("SELECT * FROM ");
            append_chars(&mut v, &chars_of(database.as_str()));
            append_chars(&mut v, &chars_of(".snapshots() ORDER BY snapshot_id DESC LIMIT 10"));
            Ok(string_of(&v))
        },
        DuckLakeAction::TimeTravel { database, table, version, timestamp, sql } => {
            let clause = match version {
                Some(n) => {
                    let mut c = chars_of("AT (VERSION => ");
                    append_chars(&mut c, &dec_chars(*n as u128));
                    append_chars(&mut c, &chars_of(")"));
                    c
                },
                None => match timestamp {
                    Some(t) => {
                        let mut c = chars_of("AT (TIMESTAMP => '");
                        append_chars(&mut c, &chars_of(t.as_str()));
                        append_chars(&mut c, &chars_of("')"));
                        c
                    },
                    None => {
                        return Err("Either version or timestamp must be specified".to_string());
                    },
                },
            };
            let mut target = chars_of(database.as_str());
            append_chars(&mut target, &chars_of("."));
            append_chars(&mut target, &chars_of(table.as_str()));
            proof {
                reveal_strlit(".");
            }
            let mut with = target.clone();
            append_chars(&mut with, &chars_of(" "));
            append_chars(&mut with, &clause);
            let out = replace_chars(&chars_of(sql.as_str()), &target, &with);
            Ok(string_of(&out))
        },
    }
}

} // verus!
