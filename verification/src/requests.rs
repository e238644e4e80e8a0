//! Request bodies of the API and the field checks each one declares.
use vstd::prelude::*;
use std::collections::HashMap;
use serde_json::Value;
use crate::validation::{
    FieldError, ValidationErrors, check_length, check_opt_length, check_opt_range, check_opt_email,
    finish, field_names, failing, length_ok, opt_length_ok, opt_range_ok, opt_email_ok,
};

verus! {

/// A JSON value of `serde_json`, carried as it is.
#[verifier::external_type_specification]
#[verifier::external_body]
pub struct ExJsonValue(Value);

/// A chat message for the assistant.
#[derive(Debug)]
pub struct AIChatRequest {
    /// The message, 1 to 5000 characters.
    pub message: String,
    /// The session to continue.
    pub session_id: Option<String>,
    /// Extra context for the assistant.
    pub context: Option<Value>,
}

impl AIChatRequest {
    /// The fields that fail their checks, in order.
    pub open spec fn failing_fields(&self) -> Seq<Seq<char>> {
        failing(length_ok(self.message@.len(), Some(1), Some(5000)), "message"@)
    }

    /// Checks the message length.
    pub fn validate(&self) -> (r: Result<(), ValidationErrors>)
        ensures
            r is Ok <==> self.failing_fields().len() == 0,
            r matches Err(e) ==> field_names(e.errors@) == self.failing_fields(),
    {
        let mut errs: Vec<FieldError> = Vec::new();
        check_length(&mut errs, "message", self.message.as_str(), Some(1), Some(5000),
            Some("消息长度必须在1-5000字符之间"));
        assert(field_names(Seq::<FieldError>::empty()) =~= Seq::<Seq<char>>::empty());
        assert(field_names(errs@) =~= self.failing_fields());
        finish(errs)
    }
}

/// What the assistant is asked to analyse.
#[derive(Debug)]
pub enum AnalysisType {
    /// Analyse SQL.
    SqlAnalysis,
    /// Analyse a schema.
    SchemaAnalysis,
    /// Analyse performance.
    PerformanceAnalysis,
    /// Look for anomalies.
    AnomalyDetection,
}

/// A request for an analysis by the assistant.
#[derive(Debug)]
pub struct AIAnalyzeRequest {
    /// The content, 1 to 10000 characters.
    pub content: String,
    /// The kind of analysis.
    pub analysis_type: AnalysisType,
    /// Extra parameters.
    pub parameters: Option<Value>,
}

impl AIAnalyzeRequest {
    /// The fields that fail their checks, in order.
    pub open spec fn failing_fields(&self) -> Seq<Seq<char>> {
        failing(length_ok(self.content@.len(), Some(1), Some(10000)), "content"@)
    }

    /// Checks the content length.
    pub fn validate(&self) -> (r: Result<(), ValidationErrors>)
        ensures
            r is Ok <==> self.failing_fields().len() == 0,
            r matches Err(e) ==> field_names(e.errors@) == self.failing_fields(),
    {
        let mut errs: Vec<FieldError> = Vec::new();
        check_length(&mut errs, "content", self.content.as_str(), Some(1), Some(10000),
            Some("分析内容长度必须在1-10000字符之间"));
        assert(field_names(Seq::<FieldError>::empty()) =~= Seq::<Seq<char>>::empty());
        assert(field_names(errs@) =~= self.failing_fields());
        finish(errs)
    }
}

/// The kind of query a suggestion should be.
#[derive(Debug)]
pub enum QueryType {
    /// A plain selection.
    Select,
    /// An aggregation.
    Aggregate,
    /// A join.
    Join,
    /// An analytical query.
    Analytics,
}

/// A request for query suggestions.
#[derive(Debug)]
pub struct AISuggestRequest {
    /// What the query should do, 1 to 1000 characters.
    pub description: String,
    /// Tables the query may use.
    pub tables: Option<Vec<String>>,
    /// The kind of query wanted.
    pub query_type: Option<QueryType>,
}

impl AISuggestRequest {
    /// The fields that fail their checks, in order.
    pub open spec fn failing_fields(&self) -> Seq<Seq<char>> {
        failing(length_ok(self.description@.len(), Some(1), Some(1000)), "description"@)
    }

    /// Checks the description length.
    pub fn validate(&self) -> (r: Result<(), ValidationErrors>)
        ensures
            r is Ok <==> self.failing_fields().len() == 0,
            r matches Err(e) ==> field_names(e.errors@) == self.failing_fields(),
    {
        let mut errs: Vec<FieldError> = Vec::new();
        check_length(&mut errs, "description", self.description.as_str(), Some(1), Some(1000),
            Some("描述长度必须在1-1000字符之间"));
        assert(field_names(Seq::<FieldError>::empty()) =~= Seq::<Seq<char>>::empty());
        assert(field_names(errs@) =~= self.failing_fields());
        finish(errs)
    }
}

/// A suggested query.
#[derive(Debug)]
pub struct SuggestedQuery {
    /// The SQL text.
    pub sql: String,
    /// What it does.
    pub description: String,
    /// Its complexity score.
    pub complexity: u8,
    /// Its estimated running time, as text.
    pub estimated_time: String,
}

/// A conversation with the assistant.
#[derive(Debug)]
pub struct AISession {
    /// Session identifier.
    pub session_id: String,
    /// `chat`, `analysis` or `query_builder`.
    pub session_type: String,
    /// Creation time, as text.
    pub created_at: String,
    /// Last activity, as text.
    pub last_activity: String,
    /// Number of messages.
    pub message_count: u32,
    /// Owner.
    pub user_id: String,
    /// Title.
    pub title: Option<String>,
    /// `active`, `archived` or `expired`.
    pub status: String,
}

/// A request to open a session.
#[derive(Debug)]
pub struct CreateSessionRequest {
    /// The kind of session, 1 to 50 characters.
    pub session_type: String,
    /// Title.
    pub title: Option<String>,
    /// Initial context.
    pub initial_context: Option<Value>,
}

impl CreateSessionRequest {
    /// The fields that fail their checks, in order.
    pub open spec fn failing_fields(&self) -> Seq<Seq<char>> {
        failing(length_ok(self.session_type@.len(), Some(1), Some(50)), "session_type"@)
    }

    /// Checks the session type length.
    pub fn validate(&self) -> (r: Result<(), ValidationErrors>)
        ensures
            r is Ok <==> self.failing_fields().len() == 0,
            r matches Err(e) ==> field_names(e.errors@) == self.failing_fields(),
    {
        let mut errs: Vec<FieldError> = Vec::new();
        check_length(&mut errs, "session_type", self.session_type.as_str(), Some(1), Some(50), None);
        assert(field_names(Seq::<FieldError>::empty()) =~= Seq::<Seq<char>>::empty());
        assert(field_names(errs@) =~= self.failing_fields());
        finish(errs)
    }
}

/// Paging of a session's history.
#[derive(Debug)]
pub struct SessionHistoryQuery {
    /// Most messages to return.
    pub limit: Option<u32>,
    /// Messages to skip.
    pub offset: Option<u32>,
    /// Whether to include metadata.
    pub include_metadata: Option<bool>,
}

/// A question in natural language to turn into SQL.
#[derive(Debug)]
pub struct NLPQueryRequest {
    /// The question, 1 to 1000 characters.
    pub query: String,
    /// Extra context.
    pub context: Option<Value>,
    /// The session to continue.
    pub session_id: Option<String>,
}

impl NLPQueryRequest {
    /// The fields that fail their checks, in order.
    pub open spec fn failing_fields(&self) -> Seq<Seq<char>> {
        failing(length_ok(self.query@.len(), Some(1), Some(1000)), "query"@)
    }

    /// Checks the question length.
    pub fn validate(&self) -> (r: Result<(), ValidationErrors>)
        ensures
            r is Ok <==> self.failing_fields().len() == 0,
            r matches Err(e) ==> field_names(e.errors@) == self.failing_fields(),
    {
        let mut errs: Vec<FieldError> = Vec::new();
        check_length(&mut errs, "query", self.query.as_str(), Some(1), Some(1000), None);
        assert(field_names(Seq::<FieldError>::empty()) =~= Seq::<Seq<char>>::empty());
        assert(field_names(errs@) =~= self.failing_fields());
        finish(errs)
    }
}

/// A login attempt.
#[derive(Debug)]
pub struct LoginRequest {
    /// User name, 3 to 100 characters.
    pub username: String,
    /// Password, 6 to 100 characters.
    pub password: String,
    /// Whether to stay logged in.
    pub remember_me: Option<bool>,
}

impl LoginRequest {
    /// The fields that fail their checks, in order.
    pub open spec fn failing_fields(&self) -> Seq<Seq<char>> {
        failing(length_ok(self.username@.len(), Some(3), Some(100)), "username"@)
            + failing(length_ok(self.password@.len(), Some(6), Some(100)), "password"@)
    }

    /// Checks the lengths of the user name and the password.
    pub fn validate(&self) -> (r: Result<(), ValidationErrors>)
        ensures
            r is Ok <==> self.failing_fields().len() == 0,
            r matches Err(e) ==> field_names(e.errors@) == self.failing_fields(),
    {
        let mut errs: Vec<FieldError> = Vec::new();
        check_length(&mut errs, "username", self.username.as_str(), Some(3), Some(100),
            Some("用户名长度必须在3-100字符之间"));
        check_length(&mut errs, "password", self.password.as_str(), Some(6), Some(100),
            Some("密码长度必须在6-100字符之间"));
        assert(field_names(Seq::<FieldError>::empty()) =~= Seq::<Seq<char>>::empty());
        assert(field_names(errs@) =~= self.failing_fields());
        finish(errs)
    }
}

/// A request for a new access token.
#[derive(Debug)]
pub struct RefreshTokenRequest {
    /// The refresh token, not empty.
    pub refresh_token: String,
}

impl RefreshTokenRequest {
    /// The fields that fail their checks, in order.
    pub open spec fn failing_fields(&self) -> Seq<Seq<char>> {
        failing(length_ok(self.refresh_token@.len(), Some(1), None), "refresh_token"@)
    }

    /// Checks that the token is not empty.
    pub fn validate(&self) -> (r: Result<(), ValidationErrors>)
        ensures
            r is Ok <==> self.failing_fields().len() == 0,
            r matches Err(e) ==> field_names(e.errors@) == self.failing_fields(),
    {
        let mut errs: Vec<FieldError> = Vec::new();
        check_length(&mut errs, "refresh_token", self.refresh_token.as_str(), Some(1), None,
            Some("刷新令牌不能为空"));
        assert(field_names(Seq::<FieldError>::empty()) =~= Seq::<Seq<char>>::empty());
        assert(field_names(errs@) =~= self.failing_fields());
        finish(errs)
    }
}

/// Changes to a user's profile.
#[derive(Debug)]
pub struct UpdateProfileRequest {
    /// New display name, 1 to 100 characters.
    pub display_name: Option<String>,
    /// New e-mail address.
    pub email: Option<String>,
}

impl UpdateProfileRequest {
    /// The fields that fail their checks, in order.
    pub open spec fn failing_fields(&self) -> Seq<Seq<char>> {
        failing(opt_length_ok(self.display_name, Some(1), Some(100)), "display_name"@)
            + failing(opt_email_ok(self.email), "email"@)
    }

    /// Checks the display name length and the e-mail address, when present.
    pub fn validate(&self) -> (r: Result<(), ValidationErrors>)
        ensures
            r is Ok <==> self.failing_fields().len() == 0,
            r matches Err(e) ==> field_names(e.errors@) == self.failing_fields(),
    {
        let mut errs: Vec<FieldError> = Vec::new();
        check_opt_length(&mut errs, "display_name", &self.display_name, Some(1), Some(100),
            Some("显示名称长度必须在1-100字符之间"));
        check_opt_email(&mut errs, "email", &self.email, Some("邮箱格式不正确"));
        assert(field_names(Seq::<FieldError>::empty()) =~= Seq::<Seq<char>>::empty());
        assert(field_names(errs@) =~= self.failing_fields());
        finish(errs)
    }
}

/// A request to create a database.
#[derive(Debug)]
pub struct CreateDatabaseRequest {
    /// Name, 1 to 100 characters.
    pub name: String,
    /// Description, at most 500 characters.
    pub description: Option<String>,
}

impl CreateDatabaseRequest {
    /// The fields that fail their checks, in order.
    pub open spec fn failing_fields(&self) -> Seq<Seq<char>> {
        failing(length_ok(self.name@.len(), Some(1), Some(100)), "name"@)
            + failing(opt_length_ok(self.description, None, Some(500)), "description"@)
    }

    /// Checks the name and description lengths.
    pub fn validate(&self) -> (r: Result<(), ValidationErrors>)
        ensures
            r is Ok <==> self.failing_fields().len() == 0,
            r matches Err(e) ==> field_names(e.errors@) == self.failing_fields(),
    {
        let mut errs: Vec<FieldError> = Vec::new();
        check_length(&mut errs, "name", self.name.as_str(), Some(1), Some(100),
            Some("数据库名称长度必须在1-100字符之间"));
        check_opt_length(&mut errs, "description", &self.description, None, Some(500),
            Some("描述长度不能超过500字符"));
        assert(field_names(Seq::<FieldError>::empty()) =~= Seq::<Seq<char>>::empty());
        assert(field_names(errs@) =~= self.failing_fields());
        finish(errs)
    }
}

/// A request to take a snapshot.
#[derive(Debug)]
pub struct CreateSnapshotRequest {
    /// Description, at most 500 characters.
    pub description: Option<String>,
    /// Whether all tables are included.
    pub include_all_tables: Option<bool>,
    /// The tables to include.
    pub tables: Option<Vec<String>>,
}

impl CreateSnapshotRequest {
    /// The fields that fail their checks, in order.
    pub open spec fn failing_fields(&self) -> Seq<Seq<char>> {
        failing(opt_length_ok(self.description, None, Some(500)), "description"@)
    }

    /// Checks the description length.
    pub fn validate(&self) -> (r: Result<(), ValidationErrors>)
        ensures
            r is Ok <==> self.failing_fields().len() == 0,
            r matches Err(e) ==> field_names(e.errors@) == self.failing_fields(),
    {
        let mut errs: Vec<FieldError> = Vec::new();
        check_opt_length(&mut errs, "description", &self.description, None, Some(500),
            Some("描述长度不能超过500字符"));
        assert(field_names(Seq::<FieldError>::empty()) =~= Seq::<Seq<char>>::empty());
        assert(field_names(errs@) =~= self.failing_fields());
        finish(errs)
    }
}

/// The point in time a query is run against.
#[derive(Debug)]
pub enum TimeTravelTarget {
    /// An instant, in milliseconds since the Unix epoch.
    Timestamp(i64),
    /// A snapshot, by identifier.
    Snapshot(String),
    /// A version number.
    Version(u64),
}

/// A query against an earlier state of the data.
#[derive(Debug)]
pub struct TimeTravelQueryRequest {
    /// The SQL, 1 to 10000 characters.
    pub sql: String,
    /// Which earlier state.
    pub target: TimeTravelTarget,
    /// Query parameters.
    pub parameters: Option<HashMap<String, Value>>,
}

impl TimeTravelQueryRequest {
    /// The fields that fail their checks, in order.
    pub open spec fn failing_fields(&self) -> Seq<Seq<char>> {
        failing(length_ok(self.sql@.len(), Some(1), Some(10000)), "sql"@)
    }

    /// Checks the SQL length.
    pub fn validate(&self) -> (r: Result<(), ValidationErrors>)
        ensures
            r is Ok <==> self.failing_fields().len() == 0,
            r matches Err(e) ==> field_names(e.errors@) == self.failing_fields(),
    {
        let mut errs: Vec<FieldError> = Vec::new();
        check_length(&mut errs, "sql", self.sql.as_str(), Some(1), Some(10000),
            Some("SQL查询长度必须在1-10000字符之间"));
        assert(field_names(Seq::<FieldError>::empty()) =~= Seq::<Seq<char>>::empty());
        assert(field_names(errs@) =~= self.failing_fields());
        finish(errs)
    }
}

/// A query to run.
#[derive(Debug)]
pub struct QueryRequest {
    /// The SQL, 1 to 10000 characters.
    pub sql: String,
    /// Query parameters.
    pub parameters: Option<HashMap<String, Value>>,
    /// Whether a cached result may be used.
    pub use_cache: Option<bool>,
    /// Timeout in seconds, 1 to 300.
    pub timeout: Option<u64>,
    /// Most rows to return, 1 to 10000.
    pub limit: Option<u32>,
}

/// The optional row limit widened to `u64`.
pub open spec fn widen(v: Option<u32>) -> Option<u64> {
    match v {
        Some(x) => Some(x as u64),
        None => None,
    }
}

impl QueryRequest {
    /// The fields that fail their checks, in order.
    pub open spec fn failing_fields(&self) -> Seq<Seq<char>> {
        failing(length_ok(self.sql@.len(), Some(1), Some(10000)), "sql"@)
            + failing(opt_range_ok(self.timeout, 1, 300), "timeout"@)
            + failing(opt_range_ok(widen(self.limit), 1, 10000), "limit"@)
    }

    /// Checks the SQL length, the timeout and the row limit.
    pub fn validate(&self) -> (r: Result<(), ValidationErrors>)
        ensures
            r is Ok <==> self.failing_fields().len() == 0,
            r matches Err(e) ==> field_names(e.errors@) == self.failing_fields(),
    {
        let mut errs: Vec<FieldError> = Vec::new();
        check_length(&mut errs, "sql", self.sql.as_str(), Some(1), Some(10000),
            Some("SQL查询长度必须在1-10000字符之间"));
        check_opt_range(&mut errs, "timeout", self.timeout, 1, 300,
            Some("查询超时时间必须在1-300秒之间"));
        let limit: Option<u64> = match self.limit {
            Some(x) => Some(x as u64),
            None => None,
        };
        check_opt_range(&mut errs, "limit", limit, 1, 10000, Some("结果限制必须在1-10000之间"));
        assert(field_names(Seq::<FieldError>::empty()) =~= Seq::<Seq<char>>::empty());
        assert(field_names(errs@) =~= self.failing_fields());
        finish(errs)
    }
}

/// A request to create a data source.
#[derive(Debug)]
pub struct CreateDataSourceRequest {
    /// Name, 1 to 100 characters.
    pub name: String,
    /// Kind of source.
    pub source_type: String,
    /// Connection settings.
    pub config: Value,
    /// Description.
    pub description: Option<String>,
    /// Whether the source is enabled.
    pub enabled: Option<bool>,
}

impl CreateDataSourceRequest {
    /// The fields that fail their checks, in order.
    pub open spec fn failing_fields(&self) -> Seq<Seq<char>> {
        failing(length_ok(self.name@.len(), Some(1), Some(100)), "name"@)
    }

    /// Checks the name length.
    pub fn validate(&self) -> (r: Result<(), ValidationErrors>)
        ensures
            r is Ok <==> self.failing_fields().len() == 0,
            r matches Err(e) ==> field_names(e.errors@) == self.failing_fields(),
    {
        let mut errs: Vec<FieldError> = Vec::new();
        check_length(&mut errs, "name", self.name.as_str(), Some(1), Some(100),
            Some("数据源名称长度必须在1-100字符之间"));
        assert(field_names(Seq::<FieldError>::empty()) =~= Seq::<Seq<char>>::empty());
        assert(field_names(errs@) =~= self.failing_fields());
        finish(errs)
    }
}

} // verus!
