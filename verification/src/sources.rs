//! The life cycle of the ingestion's data sources: a source starts once, stops,
//! and counts as healthy while it is connected.
use vstd::prelude::*;
use crate::text::{chars_of, string_of};
use crate::format::append_chars;

verus! {

/// The state of a source's connection.
#[derive(Debug, Clone)]
pub enum ConnectionStatus {
    Connected,
    Connecting,
    Disconnected,
    /// Failed, with the reason.
    Error(String),
}

/// What a source has done so far; times are Unix seconds.
#[derive(Debug, Clone)]
pub struct DataSourceStats {
    pub records_processed: u64,
    pub records_failed: u64,
    pub last_processed_at: Option<i64>,
    pub connection_status: ConnectionStatus,
    pub last_error: Option<String>,
}

/// The kinds of sources.
#[derive(Debug, Clone, Copy)]
pub enum SourceKind {
    /// A Kafka topic.
    Kafka,
    /// A WebSocket stream.
    WebSocket,
    /// A REST endpoint polled at intervals.
    RestApi,
}

/// How a kind of source is named in messages.
pub open spec fn kind_label(kind: SourceKind) -> Seq<char> {
    match kind {
        SourceKind::Kafka => "Kafka"@,
        SourceKind::WebSocket => "WebSocket"@,
        SourceKind::RestApi => "REST API"@,
    }
}

/// The message that refuses to start a source that is running.
pub open spec fn already_running_message(kind: SourceKind) -> Seq<char> {
    kind_label(kind) + "数据源已在运行中"@
}

/// Whether a connection state is the connected one.
pub open spec fn is_connected(status: ConnectionStatus) -> bool {
    status is Connected
}

/// Whether two stats agree on everything but the connection state.
pub open spec fn same_counts(a: DataSourceStats, b: DataSourceStats) -> bool {
    &&& a.records_processed == b.records_processed
    &&& a.records_failed == b.records_failed
    &&& a.last_processed_at == b.last_processed_at
    &&& a.last_error == b.last_error
}

/// A data source: its name, kind, stats and whether it runs.
#[derive(Debug)]
pub struct SourceState {
    pub name: String,
    pub kind: SourceKind,
    pub stats: DataSourceStats,
    pub is_running: bool,
}

fn label_of(kind: SourceKind) -> (s: &'static str)
    ensures
        s@ == kind_label(kind),
{
    match kind {
        SourceKind::Kafka => "Kafka",
        SourceKind::WebSocket => "WebSocket",
        SourceKind::RestApi => "REST API",
    }
}

fn copy_status(s: &ConnectionStatus) -> (c: ConnectionStatus)
    ensures
        c == *s,
{
    match s {
        ConnectionStatus::Connected => ConnectionStatus::Connected,
        ConnectionStatus::Connecting => ConnectionStatus::Connecting,
        ConnectionStatus::Disconnected => ConnectionStatus::Disconnected,
        ConnectionStatus::Error(e) => ConnectionStatus::Error(e.clone()),
    }
}

fn copy_text(s: &Option<String>) -> (c: Option<String>)
    ensures
        c == *s,
{
    match s {
        Some(t) => Some(t.clone()),
        None => None,
    }
}

impl SourceState {
    /// A stopped, disconnected source that has processed nothing.
    pub fn new(name: String, kind: SourceKind) -> (s: Self)
        ensures
            s.name@ == name@,
            s.kind == kind,
            !s.is_running,
            s.stats.connection_status is Disconnected,
            s.stats.records_processed == 0,
            s.stats.records_failed == 0,
            s.stats.last_processed_at is None,
            s.stats.last_error is None,
    {
        SourceState {
            name,
            kind,
            stats: DataSourceStats {
                records_processed: 0,
                records_failed: 0,
                last_processed_at: None,
                connection_status: ConnectionStatus::Disconnected,
                last_error: None,
            },
            is_running: false,
        }
    }

    /// The source's name.
    pub fn name(&self) -> (s: &str)
        ensures
            s@ == self.name@,
    {
        self.name.as_str()
    }

    /// Starts the source: a running source refuses with a message naming its kind
    /// and stays as it was; a stopped one runs and is connected.
    pub fn start(&mut self) -> (r: Result<(), String>)
        ensures
            old(self).is_running ==> (r matches Err(e) && e@ == already_running_message(old(self).kind)
                && *final(self) == *old(self)),
            !old(self).is_running ==> (r is Ok && final(self).is_running
                && final(self).stats.connection_status is Connected
                && same_counts(final(self).stats, old(self).stats)
                && final(self).name == old(self).name && final(self).kind == old(self).kind),
    {
        if self.is_running {
            let mut v = chars_of(label_of(self.kind));
            append_chars(&mut v, &chars_of("数据源已在运行中"));
            return Err(string_of(&v));
        }
        self.is_running = true;
        self.stats.connection_status = ConnectionStatus::Connected;
        Ok(())
    }

    /// Stops the source: it no longer runs and is disconnected.
    pub fn stop(&mut self)
        ensures
            !final(self).is_running,
            final(self).stats.connection_status is Disconnected,
            same_counts(final(self).stats, old(self).stats),
            final(self).name == old(self).name,
            final(self).kind == old(self).kind,
    {
        self.is_running = false;
        self.stats.connection_status = ConnectionStatus::Disconnected;
    }

    /// The health of a Kafka or WebSocket source: whether it is connected.
    pub fn health_check(&self) -> (b: bool)
        ensures
            b == is_connected(self.stats.connection_status),
    {
        match self.stats.connection_status {
            ConnectionStatus::Connected => true,
            _ => false,
        }
    }

    /// A copy of the source's stats.
    pub fn get_stats(&self) -> (s: DataSourceStats)
        ensures
            s == self.stats,
    {
        DataSourceStats {
            records_processed: self.stats.records_processed,
            records_failed: self.stats.records_failed,
            last_processed_at: self.stats.last_processed_at,
            connection_status: copy_status(&self.stats.connection_status),
            last_error: copy_text(&self.stats.last_error),
        }
    }
}

} // verus!
