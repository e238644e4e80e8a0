//! The table catalog served by the data endpoints: table schemas, the history of
//! schema changes, and the paging of table data.
use vstd::prelude::*;
use crate::text::str_eq;
use crate::ambient::now_text;

verus! {

/// A table in the table list.
#[derive(Debug)]
pub struct TableInfo {
    /// Table name.
    pub name: String,
    /// Number of rows.
    pub rows: u64,
    /// Size on disk, formatted.
    pub size: String,
    /// Schema version.
    pub schema_version: u32,
    /// Last modification, as text.
    pub last_modified: String,
    /// Table comment.
    pub description: Option<String>,
    /// Size on disk in bytes.
    pub size_bytes: u64,
    /// Number of columns.
    pub column_count: u32,
    /// `TABLE`, `VIEW`, ...
    pub table_type: String,
}

/// A column of a table schema.
#[derive(Debug)]
pub struct ColumnInfo {
    /// Column name.
    pub name: String,
    /// SQL type.
    pub data_type: String,
    /// Whether NULL is allowed.
    pub nullable: bool,
    /// Default expression.
    pub default_value: Option<String>,
    /// Position, from 1.
    pub position: u32,
    /// Description.
    pub description: Option<String>,
}

/// A foreign key.
#[derive(Debug)]
pub struct ForeignKeyInfo {
    /// Referencing column.
    pub column_name: String,
    /// Referenced table.
    pub referenced_table: String,
    /// Referenced column.
    pub referenced_column: String,
}

/// An index.
#[derive(Debug)]
pub struct IndexInfo {
    /// Index name.
    pub name: String,
    /// Indexed columns.
    pub columns: Vec<String>,
    /// Whether the index is unique.
    pub unique: bool,
    /// Index kind.
    pub index_type: String,
}

/// The structure of a table.
#[derive(Debug)]
pub struct TableSchema {
    /// Table name.
    pub table_name: String,
    /// Columns, in order.
    pub columns: Vec<ColumnInfo>,
    /// Primary key columns.
    pub primary_keys: Vec<String>,
    /// Foreign keys.
    pub foreign_keys: Vec<ForeignKeyInfo>,
    /// Indexes.
    pub indexes: Vec<IndexInfo>,
    /// Number of rows.
    pub row_count: u64,
    /// Size in bytes.
    pub size_bytes: u64,
}

/// `c` is column `name` at `position` of type `data_type`, nullable or not, with
/// the default `default_value` and the description `description`.
pub open spec fn column_is(
    c: ColumnInfo,
    name: Seq<char>,
    data_type: Seq<char>,
    nullable: bool,
    default_value: Option<Seq<char>>,
    position: u32,
    description: Seq<char>,
) -> bool {
    &&& c.name@ == name
    &&& c.data_type@ == data_type
    &&& c.nullable == nullable
    &&& match c.default_value {
        Some(d) => default_value == Some(d@),
        None => default_value is None,
    }
    &&& c.position == position
    &&& c.description matches Some(d) && d@ == description
}

/// `i` is the B-tree index `name` on `column`, unique or not.
pub open spec fn index_is(i: IndexInfo, name: Seq<char>, column: Seq<char>, unique: bool) -> bool {
    &&& i.name@ == name
    &&& i.columns@.len() == 1 && i.columns@[0]@ == column
    &&& i.unique == unique
    &&& i.index_type@ == "BTREE"@
}

/// The schema of `transactions`.
pub open spec fn is_transactions_schema(s: TableSchema) -> bool {
    &&& s.table_name@ == "transactions"@
    &&& s.columns@.len() == 8
    &&& column_is(s.columns@[0], "id"@, "BIGINT"@, false, None, 1, "交易ID"@)
    &&& column_is(s.columns@[1], "user_id"@, "BIGINT"@, false, None, 2, "用户ID"@)
    &&& column_is(s.columns@[2], "amount"@, "DECIMAL(18,2)"@, false, None, 3, "交易金额"@)
    &&& column_is(s.columns@[3], "currency"@, "VARCHAR(3)"@, false, Some("'USD'"@), 4, "货币类型"@)
    &&& column_is(s.columns@[4], "transaction_type"@, "VARCHAR(20)"@, false, None, 5, "交易类型"@)
    &&& column_is(s.columns@[5], "status"@, "VARCHAR(20)"@, false, Some("'PENDING'"@), 6, "交易状态"@)
    &&& column_is(s.columns@[6], "created_at"@, "TIMESTAMP"@, false, Some("CURRENT_TIMESTAMP"@), 7, "创建时间"@)
    &&& column_is(s.columns@[7], "updated_at"@, "TIMESTAMP"@, true, None, 8, "更新时间"@)
    &&& s.primary_keys@.len() == 1 && s.primary_keys@[0]@ == "id"@
    &&& s.foreign_keys@.len() == 1
    &&& s.foreign_keys@[0].column_name@ == "user_id"@
    &&& s.foreign_keys@[0].referenced_table@ == "users"@
    &&& s.foreign_keys@[0].referenced_column@ == "id"@
    &&& s.indexes@.len() == 2
    &&& index_is(s.indexes@[0], "idx_transactions_user_id"@, "user_id"@, false)
    &&& index_is(s.indexes@[1], "idx_transactions_created_at"@, "created_at"@, false)
    &&& s.row_count == 1250000 && s.size_bytes == 125000000
}

/// The schema of `users`.
pub open spec fn is_users_schema(s: TableSchema) -> bool {
    &&& s.table_name@ == "users"@
    &&& s.columns@.len() == 6
    &&& column_is(s.columns@[0], "id"@, "BIGINT"@, false, None, 1, "用户ID"@)
    &&& column_is(s.columns@[1], "username"@, "VARCHAR(50)"@, false, None, 2, "用户名"@)
    &&& column_is(s.columns@[2], "email"@, "VARCHAR(100)"@, false, None, 3, "邮箱地址"@)
    &&& column_is(s.columns@[3], "first_name"@, "VARCHAR(50)"@, true, None, 4, "名"@)
    &&& column_is(s.columns@[4], "last_name"@, "VARCHAR(50)"@, true, None, 5, "姓"@)
    &&& column_is(s.columns@[5], "created_at"@, "TIMESTAMP"@, false, Some("CURRENT_TIMESTAMP"@), 6, "创建时间"@)
    &&& s.primary_keys@.len() == 1 && s.primary_keys@[0]@ == "id"@
    &&& s.foreign_keys@.len() == 0
    &&& s.indexes@.len() == 2
    &&& index_is(s.indexes@[0], "idx_users_username"@, "username"@, true)
    &&& index_is(s.indexes@[1], "idx_users_email"@, "email"@, true)
    &&& s.row_count == 50000 && s.size_bytes == 5000000
}

fn col(name: &str, data_type: &str, nullable: bool, default_value: Option<&str>, position: u32, description: &str)
    -> (c: ColumnInfo)
    ensures
        column_is(
            c,
            name@,
            data_type@,
            nullable,
            match default_value { Some(d) => Some(d@), None => None },
            position,
            description@,
        ),
{
    ColumnInfo {
        name: name.to_string(),
        data_type: data_type.to_string(),
        nullable,
        default_value: match default_value {
            Some(d) => Some(d.to_string()),
            None => None,
        },
        position,
        description: Some(description.to_string()),
    }
}

fn index(name: &str, column: &str, unique: bool) -> (i: IndexInfo)
    ensures
        index_is(i, name@, column@, unique),
{
    IndexInfo {
        name: name.to_string(),
        columns: vec![column.to_string()],
        unique,
        index_type: "BTREE".to_string(),
    }
}

/// The schema of a known table: `transactions` or `users`; other names are
/// unknown.
pub fn table_schema(table_name: &str) -> (r: Option<TableSchema>)
    ensures
        r is Some <==> (table_name@ == "transactions"@ || table_name@ == "users"@),
        table_name@ == "transactions"@ ==> (r matches Some(s) && is_transactions_schema(s)),
        table_name@ == "users"@ ==> (r matches Some(s) && is_users_schema(s)),
{
    proof {
        reveal_strlit("users");
        reveal_strlit("transactions");
        assert("users"@.len() != "transactions"@.len());
    }
    if str_eq(table_name, "transactions") {
        let columns = vec![
            col("id", "BIGINT", false, None, 1, "交易ID"),
            col("user_id", "BIGINT", false, None, 2, "用户ID"),
            col("amount", "DECIMAL(18,2)", false, None, 3, "交易金额"),
            col("currency", "VARCHAR(3)", false, Some("'USD'"), 4, "货币类型"),
            col("transaction_type", "VARCHAR(20)", false, None, 5, "交易类型"),
            col("status", "VARCHAR(20)", false, Some("'PENDING'"), 6, "交易状态"),
            col("created_at", "TIMESTAMP", false, Some("CURRENT_TIMESTAMP"), 7, "创建时间"),
            col("updated_at", "TIMESTAMP", true, None, 8, "更新时间"),
        ];
        let fk = ForeignKeyInfo {
            column_name: "user_id".to_string(),
            referenced_table: "users".to_string(),
            referenced_column: "id".to_string(),
        };
        let s = TableSchema {
            table_name: "transactions".to_string(),
            columns,
            primary_keys: vec!["id".to_string()],
            foreign_keys: vec![fk],
            indexes: vec![
                index("idx_transactions_user_id", "user_id", false),
                index("idx_transactions_created_at", "created_at", false),
            ],
            row_count: 1250000,
            size_bytes: 125000000,
        };
        Some(s)
    } else if str_eq(table_name, "users") {
        let columns = vec![
            col("id", "BIGINT", false, None, 1, "用户ID"),
            col("username", "VARCHAR(50)", false, None, 2, "用户名"),
            col("email", "VARCHAR(100)", false, None, 3, "邮箱地址"),
            col("first_name", "VARCHAR(50)", true, None, 4, "名"),
            col("last_name", "VARCHAR(50)", true, None, 5, "姓"),
            col("created_at", "TIMESTAMP", false, Some("CURRENT_TIMESTAMP"), 6, "创建时间"),
        ];
        let s = TableSchema {
            table_name: "users".to_string(),
            columns,
            primary_keys: vec!["id".to_string()],
            foreign_keys: Vec::new(),
            indexes: vec![
                index("idx_users_username", "username", true),
                index("idx_users_email", "email", true),
            ],
            row_count: 50000,
            size_bytes: 5000000,
        };
        Some(s)
    } else {
        None
    }
}

/// Statistics of one column.
#[derive(Debug)]
pub struct ColumnStats {
    pub column_name: String,
    pub data_type: String,
    pub null_count: u64,
    pub distinct_count: u64,
    pub min_value: Option<String>,
    pub max_value: Option<String>,
    /// Mean length of the values, in tenths (`85` is 8.5).
    pub avg_length: Option<u32>,
}

/// Statistics of a table.
#[derive(Debug)]
pub struct TableStats {
    pub table_name: String,
    pub row_count: u64,
    pub size_bytes: u64,
    pub column_stats: Vec<ColumnStats>,
    /// When they were taken, as RFC 3339 text.
    pub last_updated: String,
}

/// `c` holds the statistics given for column `name` of type `data_type`.
pub open spec fn column_stats_is(
    c: ColumnStats,
    name: Seq<char>,
    data_type: Seq<char>,
    distinct_count: u64,
    min_value: Seq<char>,
    max_value: Seq<char>,
    avg_length: Option<u32>,
) -> bool {
    &&& c.column_name@ == name
    &&& c.data_type@ == data_type
    &&& c.null_count == 0
    &&& c.distinct_count == distinct_count
    &&& c.min_value matches Some(v) && v@ == min_value
    &&& c.max_value matches Some(v) && v@ == max_value
    &&& c.avg_length == avg_length
}

/// The statistics of `transactions`.
pub open spec fn is_transactions_stats(s: TableStats) -> bool {
    &&& s.table_name@ == "transactions"@
    &&& s.row_count == 1250000 && s.size_bytes == 125000000
    &&& s.column_stats@.len() == 4
    &&& column_stats_is(s.column_stats@[0], "id"@, "BIGINT"@, 1250000, "1"@, "1250000"@, None)
    &&& column_stats_is(s.column_stats@[1], "amount"@, "DECIMAL(18,2)"@, 850000, "0.01"@, "999999.99"@, None)
    &&& column_stats_is(s.column_stats@[2], "currency"@, "VARCHAR(3)"@, 15, "AUD"@, "USD"@, Some(30u32))
    &&& column_stats_is(s.column_stats@[3], "status"@, "VARCHAR(20)"@, 4, "CANCELLED"@, "PENDING"@, Some(85u32))
}

/// The statistics of `users`.
pub open spec fn is_users_stats(s: TableStats) -> bool {
    &&& s.table_name@ == "users"@
    &&& s.row_count == 50000 && s.size_bytes == 5000000
    &&& s.column_stats@.len() == 3
    &&& column_stats_is(s.column_stats@[0], "id"@, "BIGINT"@, 50000, "1"@, "50000"@, None)
    &&& column_stats_is(s.column_stats@[1], "username"@, "VARCHAR(50)"@, 50000, "admin"@, "zzzuser"@, Some(125u32))
    &&& column_stats_is(s.column_stats@[2], "email"@, "VARCHAR(100)"@, 50000, "admin@example.com"@,
        "zzzuser@example.com"@, Some(253u32))
}

fn stats(name: &str, data_type: &str, distinct_count: u64, min_value: &str, max_value: &str, avg_length: Option<u32>)
    -> (c: ColumnStats)
    ensures
        column_stats_is(c, name@, data_type@, distinct_count, min_value@, max_value@, avg_length),
{
    ColumnStats {
        column_name: name.to_string(),
        data_type: data_type.to_string(),
        null_count: 0,
        distinct_count,
        min_value: Some(min_value.to_string()),
        max_value: Some(max_value.to_string()),
        avg_length,
    }
}

/// The statistics of a known table (`transactions` or `users`), taken now;
/// other names are unknown.
pub fn table_stats(table_name: &str) -> (r: Option<TableStats>)
    ensures
        r is Some <==> (table_name@ == "transactions"@ || table_name@ == "users"@),
        table_name@ == "transactions"@ ==> (r matches Some(s) && is_transactions_stats(s)),
        table_name@ == "users"@ ==> (r matches Some(s) && is_users_stats(s)),
{
    proof {
        reveal_strlit("users");
        reveal_strlit("transactions");
        assert("users"@.len() != "transactions"@.len());
    }
    if str_eq(table_name, "transactions") {
        Some(TableStats {
            table_name: "transactions".to_string(),
            row_count: 1250000,
            size_bytes: 125000000,
            column_stats: vec![
                stats("id", "BIGINT", 1250000, "1", "1250000", None),
                stats("amount", "DECIMAL(18,2)", 850000, "0.01", "999999.99", None),
                stats("currency", "VARCHAR(3)", 15, "AUD", "USD", Some(30)),
                stats("status", "VARCHAR(20)", 4, "CANCELLED", "PENDING", Some(85)),
            ],
            last_updated: now_text(),
        })
    } else if str_eq(table_name, "users") {
        Some(TableStats {
            table_name: "users".to_string(),
            row_count: 50000,
            size_bytes: 5000000,
            column_stats: vec![
                stats("id", "BIGINT", 50000, "1", "50000", None),
                stats("username", "VARCHAR(50)", 50000, "admin", "zzzuser", Some(125)),
                stats("email", "VARCHAR(100)", 50000, "admin@example.com", "zzzuser@example.com", Some(253)),
            ],
            last_updated: now_text(),
        })
    } else {
        None
    }
}

/// One change of a table's structure.
/// The rows that a version added, modified and deleted.
#[derive(Debug, Clone, Copy)]
pub struct VersionChanges {
    pub added: u64,
    pub modified: u64,
    pub deleted: u64,
}

/// A version of the lake: who did what to which table, and when.
#[derive(Debug, Clone)]
pub struct VersionInfo {
    pub id: String,
    pub version: u64,
    pub timestamp: String,
    pub author: String,
    pub operation: String,
    pub table: String,
    pub description: String,
    pub changes: VersionChanges,
}

#[derive(Debug)]
pub struct SchemaChange {
    /// `add_column`, `drop_column`, `modify_column`, `add_index` or `drop_index`.
    pub change_type: String,
    /// The table changed.
    pub table: String,
    /// The column changed.
    pub column: Option<String>,
    /// Definition before the change.
    pub old_definition: Option<String>,
    /// Definition after the change.
    pub new_definition: Option<String>,
    /// What the change does.
    pub description: String,
    /// `low`, `medium` or `high`.
    pub impact: String,
}

/// A version of the schema and the changes that led to it.
#[derive(Debug)]
pub struct SchemaVersion {
    /// Version number.
    pub version: u32,
    /// When it was made, as text.
    pub timestamp: String,
    /// Who made it.
    pub author: String,
    /// What it is about.
    pub description: String,
    /// The changes.
    pub changes: Vec<SchemaChange>,
    /// `backward`, `forward`, `breaking` or `full`.
    pub compatibility: String,
}

/// Which part of the schema history to return.
#[derive(Debug)]
pub struct SchemaEvolutionQuery {
    /// Only versions that change this table.
    pub table: Option<String>,
    /// Most versions to return (50 when absent).
    pub limit: Option<u32>,
    /// Versions to skip (none when absent).
    pub offset: Option<u32>,
}

/// Whether a version changes table `t`.
pub open spec fn touches(v: SchemaVersion, t: Seq<char>) -> bool {
    exists|i: int| 0 <= i < v.changes@.len() && (#[trigger] v.changes@[i]).table@ == t
}

/// The part of `s` from `offset` on, at most `limit` long.
pub open spec fn page_of<T>(s: Seq<T>, offset: nat, limit: nat) -> Seq<T> {
    let lo = if offset < s.len() { offset } else { s.len() };
    let hi = if offset + limit < s.len() { offset + limit } else { s.len() };
    s.subrange(lo as int, hi as int)
}

/// The version numbers of a list of versions.
pub open spec fn version_numbers(vs: Seq<SchemaVersion>) -> Seq<u32> {
    vs.map_values(|v: SchemaVersion| v.version)
}

/// Whether version `v` changes table `t`.
pub fn touches_table(v: &SchemaVersion, t: &str) -> (b: bool)
    ensures
        b == touches(*v, t@),
{
    let mut i: usize = 0;
    while i < v.changes.len()
        invariant
            i <= v.changes@.len(),
            forall|j: int| 0 <= j < i ==> (#[trigger] v.changes@[j]).table@ != t@,
        decreases v.changes.len() - i,
    {
        if str_eq(v.changes[i].table.as_str(), t) {
            return true;
        }
        i = i + 1;
    }
    false
}

/// The versions that change table `t`, in order.
pub fn filter_by_table(versions: Vec<SchemaVersion>, t: &str) -> (r: Vec<SchemaVersion>)
    ensures
        r@ == versions@.filter(|v: SchemaVersion| touches(v, t@)),
{
    let ghost all = versions@;
    let ghost tv = t@;
    let ghost pred = |x: SchemaVersion| touches(x, tv);
    let mut rest = versions;
    let mut out: Vec<SchemaVersion> = Vec::new();
    let mut k: usize = 0;
    let n = rest.len();
    while rest.len() > 0
        invariant
            n == all.len(),
            k + rest@.len() == n,
            rest@ == all.subrange(k as int, n as int),
            out@ == all.subrange(0, k as int).filter(pred),
            tv == t@,
            forall|x: SchemaVersion| #[trigger] pred(x) == touches(x, tv),
        decreases rest.len(),
    {
        let v = rest.remove(0);
        proof {
            assert(all.subrange(0, k + 1) =~= all.subrange(0, k as int).push(v));
            all.subrange(0, k as int).lemma_filter_push(v, pred);
            assert(rest@ =~= all.subrange(k + 1, n as int));
        }
        let keep = touches_table(&v, t);
        if keep {
            out.push(v);
        }
        k = k + 1;
    }
    assert(all.subrange(0, n as int) =~= all);
    out
}

/// The part of `v` from `offset` on, at most `limit` long.
pub fn take_page<T>(v: Vec<T>, offset: usize, limit: usize) -> (r: Vec<T>)
    ensures
        r@ == page_of(v@, offset as nat, limit as nat),
{
    let ghost all = v@;
    let n = v.len();
    let lo = if offset < n { offset } else { n };
    let hi = if offset < n && limit < n - offset { offset + limit } else { n };
    let mut rest = v;
    let mut out: Vec<T> = Vec::new();
    let mut k: usize = 0;
    while rest.len() > 0
        invariant
            n == all.len(),
            lo <= hi <= n,
            k + rest@.len() == n,
            rest@ == all.subrange(k as int, n as int),
            k <= lo ==> out@.len() == 0,
            lo <= k ==> out@ == all.subrange(lo as int, if k < hi { k as int } else { hi as int }),
        decreases rest.len(),
    {
        let x = rest.remove(0);
        proof {
            assert(rest@ =~= all.subrange(k + 1, n as int));
        }
        if k >= lo && k < hi {
            out.push(x);
            proof {
                assert(out@ =~= all.subrange(lo as int, k + 1));
            }
        }
        k = k + 1;
    }
    proof {
        if lo == hi {
            assert(out@ =~= all.subrange(lo as int, hi as int));
        }
    }
    out
}

/// `c` changes column `column` of `transactions` in the way `change_type`, from
/// `old_definition` to `new_definition`, as `description` says, with `impact`.
pub open spec fn change_is(
    c: SchemaChange,
    change_type: Seq<char>,
    column: Seq<char>,
    old_definition: Option<Seq<char>>,
    new_definition: Seq<char>,
    description: Seq<char>,
    impact: Seq<char>,
) -> bool {
    &&& c.change_type@ == change_type
    &&& c.table@ == "transactions"@
    &&& c.column matches Some(col) && col@ == column
    &&& match c.old_definition {
        Some(d) => old_definition == Some(d@),
        None => old_definition is None,
    }
    &&& c.new_definition matches Some(d) && d@ == new_definition
    &&& c.description@ == description
    &&& c.impact@ == impact
}

/// `v` is version `version`, made at `timestamp` by `author`, described by
/// `description`, with compatibility `compatibility` and the one change `c`.
pub open spec fn version_is(
    v: SchemaVersion,
    version: u32,
    timestamp: Seq<char>,
    author: Seq<char>,
    description: Seq<char>,
    compatibility: Seq<char>,
) -> bool {
    &&& v.version == version
    &&& v.timestamp@ == timestamp
    &&& v.author@ == author
    &&& v.description@ == description
    &&& v.compatibility@ == compatibility
    &&& v.changes@.len() == 1
}

/// The recorded history of the `transactions` schema, newest first.
pub open spec fn is_schema_history(h: Seq<SchemaVersion>) -> bool {
    &&& h.len() == 4
    &&& version_is(h[0], 5, "2024-01-11 14:30:25"@, "admin"@, "添加交易状态字段"@, "backward"@)
    &&& change_is(h[0].changes@[0], "add_column"@, "status"@, None, "VARCHAR(50) NOT NULL DEFAULT 'pending'"@,
        "添加交易状态字段，支持pending/completed/failed状态"@, "low"@)
    &&& version_is(h[1], 4, "2024-01-10 16:20:15"@, "developer"@, "修改金额字段精度"@, "breaking"@)
    &&& change_is(h[1].changes@[0], "modify_column"@, "amount"@, Some("DECIMAL(8,2)"@), "DECIMAL(10,2)"@,
        "增加金额字段精度以支持更大金额"@, "medium"@)
    &&& version_is(h[2], 3, "2024-01-09 10:15:30"@, "dba"@, "添加索引优化查询性能"@, "full"@)
    &&& change_is(h[2].changes@[0], "add_index"@, "user_id"@, None, "INDEX idx_user_id (user_id)"@,
        "为user_id字段添加索引"@, "low"@)
    &&& version_is(h[3], 2, "2024-01-08 14:45:20"@, "admin"@, "初始Schema设计"@, "full"@)
    &&& change_is(h[3].changes@[0], "add_column"@, "created_at"@, None, "TIMESTAMP NOT NULL DEFAULT CURRENT_TIMESTAMP"@,
        "添加创建时间字段"@, "low"@)
}

fn change(change_type: &str, column: &str, old_definition: Option<&str>, new_definition: &str, description: &str,
    impact: &str) -> (c: SchemaChange)
    ensures
        change_is(
            c,
            change_type@,
            column@,
            match old_definition { Some(d) => Some(d@), None => None },
            new_definition@,
            description@,
            impact@,
        ),
{
    SchemaChange {
        change_type: change_type.to_string(),
        table: "transactions".to_string(),
        column: Some(column.to_string()),
        old_definition: match old_definition {
            Some(d) => Some(d.to_string()),
            None => None,
        },
        new_definition: Some(new_definition.to_string()),
        description: description.to_string(),
        impact: impact.to_string(),
    }
}

fn version_entry(version: u32, timestamp: &str, author: &str, description: &str, compatibility: &str, c: SchemaChange)
    -> (v: SchemaVersion)
    ensures
        version_is(v, version, timestamp@, author@, description@, compatibility@),
        v.changes@ == seq![c],
{
    let v = SchemaVersion {
        version,
        timestamp: timestamp.to_string(),
        author: author.to_string(),
        description: description.to_string(),
        changes: vec![c],
        compatibility: compatibility.to_string(),
    };
    assert(v.changes@ =~= seq![c]);
    v
}

/// The recorded history of the `transactions` schema, newest first (see
/// `is_schema_history`).
pub fn schema_history() -> (h: Vec<SchemaVersion>)
    ensures
        is_schema_history(h@),
        version_numbers(h@) == seq![5u32, 4, 3, 2],
        forall|i: int| 0 <= i < h@.len() ==> touches(#[trigger] h@[i], "transactions"@),
{
    let c5 = change("add_column", "status", None, "VARCHAR(50) NOT NULL DEFAULT 'pending'",
        "添加交易状态字段，支持pending/completed/failed状态", "low");
    let c4 = change("modify_column", "amount", Some("DECIMAL(8,2)"), "DECIMAL(10,2)",
        "增加金额字段精度以支持更大金额", "medium");
    let c3 = change("add_index", "user_id", None, "INDEX idx_user_id (user_id)", "为user_id字段添加索引", "low");
    let c2 = change("add_column", "created_at", None, "TIMESTAMP NOT NULL DEFAULT CURRENT_TIMESTAMP",
        "添加创建时间字段", "low");
    let h = vec![
        version_entry(5, "2024-01-11 14:30:25", "admin", "添加交易状态字段", "backward", c5),
        version_entry(4, "2024-01-10 16:20:15", "developer", "修改金额字段精度", "breaking", c4),
        version_entry(3, "2024-01-09 10:15:30", "dba", "添加索引优化查询性能", "full", c3),
        version_entry(2, "2024-01-08 14:45:20", "admin", "初始Schema设计", "full", c2),
    ];
    assert(version_numbers(h@) =~= seq![5u32, 4, 3, 2]);
    assert forall|i: int| 0 <= i < h@.len() implies touches(#[trigger] h@[i], "transactions"@) by {
        assert(h@[i].changes@[0].table@ == "transactions"@);
    }
    h
}

/// The schema history, kept to the versions that change `query.table` when it is
/// given, then paged by `query.offset` (default 0) and `query.limit` (default 50).
pub fn schema_evolution(history: Vec<SchemaVersion>, query: &SchemaEvolutionQuery) -> (r: Vec<SchemaVersion>)
    ensures
        r@ == page_of(
            match query.table {
                Some(t) => history@.filter(|v: SchemaVersion| touches(v, t@)),
                None => history@,
            },
            match query.offset { Some(o) => o as nat, None => 0 },
            match query.limit { Some(l) => l as nat, None => 50 },
        ),
{
    let filtered = match &query.table {
        Some(t) => filter_by_table(history, t.as_str()),
        None => history,
    };
    let limit: usize = match query.limit {
        Some(l) => l as usize,
        None => 50,
    };
    let offset: usize = match query.offset {
        Some(o) => o as usize,
        None => 0,
    };
    take_page(filtered, offset, limit)
}

/// Paging of table data.
#[derive(Debug)]
pub struct TableDataQuery {
    /// Most rows to return (100 when absent, never more than 1000).
    pub limit: Option<u32>,
    /// Rows to skip.
    pub offset: Option<u32>,
    /// Column to order by.
    pub order_by: Option<String>,
    /// `ASC` or `DESC`.
    pub order_direction: Option<String>,
    /// Equality filters by column.
    pub filters: Option<std::collections::HashMap<String, String>>,
}

/// The row limit and offset for a table data request: the limit defaults to 100
/// and is capped at 1000, the offset defaults to 0.
pub fn table_data_window(query: &TableDataQuery) -> (r: (u32, u32))
    ensures
        r.0 == match query.limit { Some(l) => if l < 1000 { l } else { 1000 }, None => 100 },
        r.1 == match query.offset { Some(o) => o, None => 0 },
{
    let limit = match query.limit {
        Some(l) => if l < 1000 { l } else { 1000 },
        None => 100,
    };
    let offset = match query.offset {
        Some(o) => o,
        None => 0,
    };
    (limit, offset)
}

/// Whether rows remain after a page of `returned` rows starting at `offset`.
pub fn has_more_rows(offset: u32, returned: usize, total_rows: u64) -> (b: bool)
    ensures
        b == (offset + returned < total_rows),
{
    (offset as u128 + returned as u128) < total_rows as u128
}

} // verus!
