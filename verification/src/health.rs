//! Decisions of the health endpoints: uptime, the overall status from the
//! components' checks, and the HTTP status that goes with it.
use vstd::prelude::*;
use crate::text::{str_eq, chars_of, string_of};
use crate::format::append_chars;
use crate::format::duration_whole_secs;
use std::time::{Duration, SystemTime, UNIX_EPOCH};

verus! {

/// A point in time of the system clock, carried as it is.
#[verifier::external_type_specification]
#[verifier::external_body]
pub struct ExSystemTime(SystemTime);

/// Calls `SystemTime::now`: the current time, which depends on the clock, so
/// nothing is claimed of it.
#[verifier::external_body]
fn system_now() -> SystemTime {
    SystemTime::now()
}

/// Calls `SystemTime::duration_since(UNIX_EPOCH)`: the time elapsed since the
/// Unix epoch, or `None` when `t` lies before it (the call's error).
#[verifier::external_body]
fn since_epoch(t: &SystemTime) -> Option<Duration> {
    match t.duration_since(UNIX_EPOCH) {
        Ok(d) => Some(d),
        Err(_) => None,
    }
}

/// The seconds a service started `started_at` seconds after the Unix epoch has
/// run when the clock reads `elapsed` seconds after the epoch: none when the
/// clock reads before the epoch or before the start.
pub open spec fn uptime_of(started_at: u64, elapsed: Option<u64>) -> u64 {
    match elapsed {
        Some(now) => if now >= started_at { (now - started_at) as u64 } else { 0 },
        None => 0,
    }
}

/// The uptime reported for a clock reading (see `uptime_of`).
pub fn uptime_from(started_at: u64, elapsed: Option<u64>) -> (secs: u64)
    ensures
        secs == uptime_of(started_at, elapsed),
{
    match elapsed {
        Some(now) => if now >= started_at { now - started_at } else { 0 },
        None => 0,
    }
}

/// The time in whole seconds that a service started `started_at` seconds after
/// the Unix epoch has been running, by the system clock (see `uptime_of`); the
/// reading depends on the clock.
pub fn get_uptime(started_at: u64) -> (secs: u64)
    ensures
        exists|elapsed: Option<u64>| secs == uptime_of(started_at, elapsed),
{
    let now = system_now();
    let elapsed = match since_epoch(&now) {
        Some(d) => Some(duration_whole_secs(&d)),
        None => None,
    };
    uptime_from(started_at, elapsed)
}

/// The text of a status flag.
pub open spec fn status_text(healthy: bool) -> Seq<char> {
    if healthy { "healthy"@ } else { "unhealthy"@ }
}

/// Whether the ingestion service reported itself healthy.
pub open spec fn ingestion_healthy(status: Option<&str>) -> bool {
    match status {
        Some(st) => st@ == "healthy"@,
        None => false,
    }
}

/// The outcome of the basic health check.
#[derive(Debug)]
pub struct HealthSummary {
    /// Whether every component is healthy.
    pub healthy: bool,
    /// `healthy` or `unhealthy`, overall.
    pub status: String,
    /// `healthy` or `unhealthy`, for the database.
    pub database: String,
    /// `healthy` or `unhealthy`, for the cache.
    pub cache: String,
    /// `healthy` or `unhealthy`, for the ingestion service.
    pub ingestion: String,
    /// The HTTP status to answer with: 200, or 503 when not healthy.
    pub http_status: u16,
}

/// `healthy` or `unhealthy`.
pub fn status_of(healthy: bool) -> (s: String)
    ensures
        s@ == status_text(healthy),
{
    if healthy { "healthy".to_string() } else { "unhealthy".to_string() }
}

/// The basic health check from its three probes: the database connection, the
/// cache, and the status the ingestion service reported (`None` when it could not
/// be asked). The service is healthy when all three are.
pub fn summarize_health(database_ok: bool, cache_ok: bool, ingestion_status: Option<&str>) -> (h: HealthSummary)
    ensures
        h.healthy == (database_ok && cache_ok && ingestion_healthy(ingestion_status)),
        h.status@ == status_text(h.healthy),
        h.database@ == status_text(database_ok),
        h.cache@ == status_text(cache_ok),
        h.ingestion@ == status_text(ingestion_healthy(ingestion_status)),
        h.http_status == if h.healthy { 200u16 } else { 503u16 },
{
    let ingestion_ok = match ingestion_status {
        Some(st) => str_eq(st, "healthy"),
        None => false,
    };
    let healthy = database_ok && cache_ok && ingestion_ok;
    HealthSummary {
        healthy,
        status: status_of(healthy),
        database: status_of(database_ok),
        cache: status_of(cache_ok),
        ingestion: status_of(ingestion_ok),
        http_status: if healthy { 200 } else { 503 },
    }
}

/// Whether every component status of the detailed check reads `healthy`.
pub fn all_components_healthy(statuses: &Vec<String>) -> (b: bool)
    ensures
        b == forall|i: int| 0 <= i < statuses@.len() ==> (#[trigger] statuses@[i])@ == "healthy"@,
{
    let mut i: usize = 0;
    while i < statuses.len()
        invariant
            i <= statuses@.len(),
            forall|j: int| 0 <= j < i ==> (#[trigger] statuses@[j])@ == "healthy"@,
        decreases statuses.len() - i,
    {
        if !str_eq(statuses[i].as_str(), "healthy") {
            return false;
        }
        i = i + 1;
    }
    true
}

/// The health of one component of the ingestion service.
#[derive(Debug)]
pub struct ComponentHealth {
    /// `healthy` or `unhealthy`.
    pub status: String,
    /// What went wrong.
    pub message: Option<String>,
}

/// The health of the ingestion service.
#[derive(Debug)]
pub struct IngestionHealth {
    /// `healthy`, `unhealthy` or `degraded`.
    pub overall_status: String,
    /// Component health by name: `database`, then `source_<name>` per source.
    pub components: Vec<(String, ComponentHealth)>,
}

/// The overall status of the ingestion service: `degraded` when a source is
/// down, else `unhealthy` when the database is down, else `healthy`.
pub open spec fn ingestion_overall(database_ok: bool, sources: Seq<(String, bool)>) -> Seq<char> {
    if exists|i: int| 0 <= i < sources.len() && !(#[trigger] sources[i]).1 {
        "degraded"@
    } else if !database_ok {
        "unhealthy"@
    } else {
        "healthy"@
    }
}

/// The health report of the ingestion service from the database check (its
/// error message when it failed) and each source's check.
pub fn ingestion_health(database: Result<(), String>, sources: &Vec<(String, bool)>) -> (h: IngestionHealth)
    ensures
        h.overall_status@ == ingestion_overall(database is Ok, sources@),
        h.components@.len() == sources@.len() + 1,
        h.components@[0].0@ == "database"@,
        h.components@[0].1.status@ == status_text(database is Ok),
        forall|i: int| 0 <= i < sources@.len() ==> (#[trigger] h.components@[i + 1]).0@ == "source_"@
            + sources@[i].0@ && h.components@[i + 1].1.status@ == status_text(sources@[i].1),
{
    let database_ok = database.is_ok();
    let db = match database {
        Ok(()) => ComponentHealth { status: status_of(true), message: None },
        Err(e) => ComponentHealth { status: status_of(false), message: Some(e) },
    };
    let mut components: Vec<(String, ComponentHealth)> = Vec::new();
    components.push(("database".to_string(), db));
    let mut any_down = false;
    let mut i: usize = 0;
    while i < sources.len()
        invariant
            i <= sources@.len(),
            components@.len() == i + 1,
            components@[0].0@ == "database"@,
            components@[0].1.status@ == status_text(database_ok),
            any_down <==> exists|j: int| 0 <= j < i && !(#[trigger] sources@[j]).1,
            forall|j: int| 0 <= j < i ==> (#[trigger] components@[j + 1]).0@ == "source_"@ + sources@[j].0@
                && components@[j + 1].1.status@ == status_text(sources@[j].1),
        decreases sources.len() - i,
    {
        let (name, ok) = (&sources[i].0, sources[i].1);
        let mut label = chars_of("source_");
        let n = chars_of(name.as_str());
        append_chars(&mut label, &n);
        let c = if ok {
            ComponentHealth { status: status_of(true), message: None }
        } else {
            any_down = true;
            ComponentHealth { status: status_of(false), message: Some("数据源连接异常".to_string()) }
        };
        components.push((string_of(&label), c));
        i = i + 1;
    }
    let overall = if any_down {
        "degraded".to_string()
    } else if !database_ok {
        "unhealthy".to_string()
    } else {
        "healthy".to_string()
    };
    IngestionHealth { overall_status: overall, components }
}

/// A source that is down makes the ingestion service `degraded`, whatever the
/// database check says.
pub proof fn lemma_down_source_degrades(database_ok: bool, sources: Seq<(String, bool)>, i: int)
    requires
        0 <= i < sources.len(),
        !sources[i].1,
    ensures
        ingestion_overall(database_ok, sources) == "degraded"@,
{
}

/// The ingestion service is `healthy` exactly when the database and every source
/// are up; it is `unhealthy` exactly when the database is down and every source is up.
pub proof fn lemma_ingestion_healthy_iff_all_up(database_ok: bool, sources: Seq<(String, bool)>)
    ensures
        ingestion_overall(database_ok, sources) == "healthy"@ <==> database_ok && forall|i: int|
            0 <= i < sources.len() ==> (#[trigger] sources[i]).1,
        ingestion_overall(database_ok, sources) == "unhealthy"@ <==> !database_ok && forall|i: int|
            0 <= i < sources.len() ==> (#[trigger] sources[i]).1,
{
    reveal_strlit("healthy");
    reveal_strlit("unhealthy");
    reveal_strlit("degraded");
    assert("healthy"@ != "degraded"@ && "healthy"@ != "unhealthy"@ && "unhealthy"@ != "degraded"@) by {
        assert("healthy"@.len() != "degraded"@.len());
        assert("healthy"@.len() != "unhealthy"@.len());
        assert("unhealthy"@.len() != "degraded"@.len());
    }
}

} // verus!
