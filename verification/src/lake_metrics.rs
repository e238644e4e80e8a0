//! DuckLake metrics: how a time range is sampled, and the demonstration series
//! the dashboard was first built with. Response times, sizes and rates are held in
//! hundredths (`8500` is 85.00).
use vstd::prelude::*;
use crate::text::str_eq;
use crate::ambient::{now_parts, in_chrono_range, hh_mm, clock_hh_mm, rfc3339_at, clock_rfc3339};

verus! {

/// The number of samples and the seconds between them for a time range (`1h`,
/// `6h`, `24h`, `7d`, `30d`; anything else is read as `24h`).
pub open spec fn plan_of(range: Seq<char>) -> (u32, i64) {
    if range == "1h"@ {
        (12, 300)
    } else if range == "6h"@ {
        (24, 900)
    } else if range == "24h"@ {
        (24, 3600)
    } else if range == "7d"@ {
        (28, 21600)
    } else if range == "30d"@ {
        (30, 86400)
    } else {
        (24, 3600)
    }
}

/// The seconds a time range covers when snapshot activity is read.
pub open spec fn window_of(range: Seq<char>) -> i64 {
    if range == "1h"@ {
        3600
    } else if range == "6h"@ {
        21600
    } else if range == "24h"@ {
        86400
    } else if range == "7d"@ {
        604800
    } else if range == "30d"@ {
        2592000
    } else {
        86400
    }
}

/// How `time_range` is sampled: the number of samples and the seconds between them.
pub fn sampling_plan(time_range: &str) -> (p: (u32, i64))
    ensures
        p == plan_of(time_range@),
{
    if str_eq(time_range, "1h") {
        (12, 300)
    } else if str_eq(time_range, "6h") {
        (24, 900)
    } else if str_eq(time_range, "24h") {
        (24, 3600)
    } else if str_eq(time_range, "7d") {
        (28, 21600)
    } else if str_eq(time_range, "30d") {
        (30, 86400)
    } else {
        (24, 3600)
    }
}

/// How far back snapshot activity is read for `time_range`, in seconds.
pub fn activity_window_secs(time_range: &str) -> (w: i64)
    ensures
        w == window_of(time_range@),
{
    if str_eq(time_range, "1h") {
        3600
    } else if str_eq(time_range, "6h") {
        21600
    } else if str_eq(time_range, "24h") {
        86400
    } else if str_eq(time_range, "7d") {
        604800
    } else if str_eq(time_range, "30d") {
        2592000
    } else {
        86400
    }
}

/// The time of sample `i` of a time range sampled up to `now`: the last sample
/// is `now`, each earlier one a step before.
pub open spec fn sample_time(range: Seq<char>, now: int, i: int) -> int {
    now - plan_of(range).1 * (plan_of(range).0 - 1 - i)
}

/// A time far enough from chrono's earliest date to step back thirty days.
pub open spec fn sampleable(now: int) -> bool {
    in_chrono_range(now) && in_chrono_range(now - 2_592_000)
}

/// The sample times of `time_range` up to `now`, oldest first.
pub fn sample_times(time_range: &str, now: i64) -> (ts: Vec<i64>)
    requires
        sampleable(now as int),
    ensures
        ts@.len() == plan_of(time_range@).0,
        forall|i: int| 0 <= i < ts@.len() ==> ts@[i] == sample_time(time_range@, now as int, i),
        forall|i: int| 0 <= i < ts@.len() ==> in_chrono_range(#[trigger] ts@[i] as int),
{
    let (n, step) = sampling_plan(time_range);
    assert(0 < step <= 86400 && n <= 30 && step * (n as int) <= 2_592_000);
    let mut ts: Vec<i64> = Vec::new();
    let mut i: u32 = 0;
    while i < n
        invariant
            (n, step) == plan_of(time_range@),
            0 < step <= 86400 && n <= 30 && step * (n as int) <= 2_592_000,
            sampleable(now as int),
            i <= n,
            ts@.len() == i,
            forall|k: int| 0 <= k < i ==> ts@[k] == sample_time(time_range@, now as int, k),
            forall|k: int| 0 <= k < i ==> in_chrono_range(#[trigger] ts@[k] as int),
        decreases n - i,
    {
        assert(0 <= step * (n - 1 - i) <= 2_592_000) by (nonlinear_arith)
            requires
                0 < step <= 86400,
                i < n <= 30,
                step * (n as int) <= 2_592_000,
        ;
        let back: i64 = step * ((n - 1 - i) as i64);
        ts.push(now - back);
        i = i + 1;
    }
    ts
}

/// The samples of a time range are evenly spaced: the last is taken at `now`,
/// and each follows the one before by the range's step.
pub proof fn lemma_samples_evenly_spaced(range: Seq<char>, now: int)
    ensures
        sample_time(range, now, plan_of(range).0 - 1) == now,
        forall|i: int|
            0 <= i < plan_of(range).0 - 1 ==> #[trigger] sample_time(range, now, i + 1) - sample_time(range, now, i)
                == plan_of(range).1,
{
    let step = plan_of(range).1 as int;
    let n = plan_of(range).0 as int;
    assert forall|i: int| 0 <= i < n - 1 implies #[trigger] sample_time(range, now, i + 1) - sample_time(range, now, i)
        == step by {
        assert(step * (n - 1 - i) - step * (n - 1 - (i + 1)) == step) by (nonlinear_arith);
    }
}

/// A sample of query performance.
#[derive(Debug)]
pub struct QueryPerformancePoint {
    pub time: String,
    pub version: u32,
    /// Mean response time in milliseconds, in hundredths.
    pub avg_response_time: u64,
    pub throughput: u64,
}

/// Snapshots created and deleted around one sample time.
#[derive(Debug)]
pub struct SnapshotActivityPoint {
    pub time: String,
    pub created: u32,
    pub deleted: u32,
}

/// The size of one database and how fast it grows.
#[derive(Debug)]
pub struct StorageUsagePoint {
    pub database: String,
    /// Size in GB, in hundredths.
    pub size: u64,
    /// Growth in percent, in hundredths.
    pub growth: u64,
}

/// How transactions fare.
#[derive(Debug)]
pub struct TransactionStats {
    /// Percentage of transactions that succeed, in hundredths.
    pub success_rate: u64,
    /// Mean duration in milliseconds, in hundredths.
    pub avg_duration: u64,
    pub total_transactions: u64,
}

/// The DuckLake figures the dashboard shows.
#[derive(Debug)]
pub struct DuckLakeMetrics {
    pub timestamp: String,
    pub active_databases: u32,
    pub total_snapshots: u32,
    pub time_travel_queries: u64,
    pub schema_evolutions: u32,
    pub query_performance: Vec<QueryPerformancePoint>,
    pub snapshot_activity: Vec<SnapshotActivityPoint>,
    pub storage_usage: Vec<StorageUsagePoint>,
    pub transaction_stats: TransactionStats,
}

/// Sample `i` of the demonstration performance series: the version rises every
/// eighth sample from 125, the response time climbs from 85 ms by 5 ms a sample
/// modulo 50 ms, and the throughput from 800 by 50 a sample modulo 600.
pub open spec fn demo_performance(p: QueryPerformancePoint, range: Seq<char>, now: int, i: int) -> bool {
    &&& p.time@ == hh_mm(sample_time(range, now, i))
    &&& p.version == 125 + i / 8
    &&& p.avg_response_time == 8500 + (500 * i) % 5000
    &&& p.throughput == 800 + (50 * i) % 600
}

/// Sample `i` of the demonstration snapshot activity: `i % 5` created, and one
/// deleted every tenth sample.
pub open spec fn demo_activity(a: SnapshotActivityPoint, range: Seq<char>, now: int, i: int) -> bool {
    &&& a.time@ == hh_mm(sample_time(range, now, i))
    &&& a.created == i % 5
    &&& a.deleted == (if i % 10 == 0 { 1int } else { 0int })
}

/// The demonstration storage figures: three databases of 2.3, 1.8 and 5.1 GB
/// growing 12.5%, 8.2% and 3.1%.
pub open spec fn demo_storage(s: Seq<StorageUsagePoint>) -> bool {
    &&& s.len() == 3
    &&& s[0].database@ == "financial_data"@ && s[0].size == 230 && s[0].growth == 1250
    &&& s[1].database@ == "analytics_warehouse"@ && s[1].size == 180 && s[1].growth == 820
    &&& s[2].database@ == "backup_archive"@ && s[2].size == 510 && s[2].growth == 310
}

/// The demonstration series of `time_range` sampled up to `now`.
pub fn demo_series(time_range: &str, now: i64) -> (r: (Vec<QueryPerformancePoint>, Vec<SnapshotActivityPoint>))
    requires
        sampleable(now as int),
    ensures
        r.0@.len() == plan_of(time_range@).0,
        r.1@.len() == plan_of(time_range@).0,
        forall|i: int| 0 <= i < r.0@.len() ==> demo_performance(#[trigger] r.0@[i], time_range@, now as int, i),
        forall|i: int| 0 <= i < r.1@.len() ==> demo_activity(#[trigger] r.1@[i], time_range@, now as int, i),
{
    let ts = sample_times(time_range, now);
    let mut perf: Vec<QueryPerformancePoint> = Vec::new();
    let mut act: Vec<SnapshotActivityPoint> = Vec::new();
    let mut i: usize = 0;
    while i < ts.len()
        invariant
            ts@.len() == plan_of(time_range@).0,
            forall|k: int| 0 <= k < ts@.len() ==> ts@[k] == sample_time(time_range@, now as int, k),
            forall|k: int| 0 <= k < ts@.len() ==> in_chrono_range(#[trigger] ts@[k] as int),
            i <= ts@.len(),
            perf@.len() == i,
            act@.len() == i,
            forall|k: int| 0 <= k < i ==> demo_performance(#[trigger] perf@[k], time_range@, now as int, k),
            forall|k: int| 0 <= k < i ==> demo_activity(#[trigger] act@[k], time_range@, now as int, k),
        decreases ts.len() - i,
    {
        let t = ts[i];
        assert(in_chrono_range(ts@[i as int] as int));
        let j: u64 = i as u64;
        perf.push(QueryPerformancePoint {
            time: clock_hh_mm(t),
            version: (125 + j / 8) as u32,
            avg_response_time: 8500 + (500 * j) % 5000,
            throughput: 800 + (50 * j) % 600,
        });
        act.push(SnapshotActivityPoint {
            time: clock_hh_mm(t),
            created: (j % 5) as u32,
            deleted: if j % 10 == 0 { 1 } else { 0 },
        });
        i = i + 1;
    }
    (perf, act)
}

/// The demonstration storage figures.
fn demo_storage_usage() -> (s: Vec<StorageUsagePoint>)
    ensures
        demo_storage(s@),
{
    vec![
        StorageUsagePoint { database: "financial_data".to_string(), size: 230, growth: 1250 },
        StorageUsagePoint { database: "analytics_warehouse".to_string(), size: 180, growth: 820 },
        StorageUsagePoint { database: "backup_archive".to_string(), size: 510, growth: 310 },
    ]
}

/// The demonstration metrics for `time_range`, sampled up to `now` and stamped
/// with the RFC 3339 text of `now` and `nanos` nanoseconds: three active databases, 127 snapshots, 1250 time-travel queries,
/// 15 schema changes, the demonstration series and storage figures, and
/// transactions that succeed 99.8% of the time in 45.2 ms on average, 125847 of
/// them. `None` exactly when `now` is less than thirty days after chrono's
/// earliest date, so that the first sample has no date.
pub fn ducklake_metrics_at(time_range: &str, now: i64, nanos: u32) -> (r: Option<DuckLakeMetrics>)
    requires
        in_chrono_range(now as int),
        nanos < 1_000_000_000,
    ensures
        r is None <==> !sampleable(now as int),
        r matches Some(m) ==> {
            &&& m.timestamp@ == rfc3339_at(now as int, nanos as int)
            &&& m.active_databases == 3
            &&& m.total_snapshots == 127
            &&& m.time_travel_queries == 1250
            &&& m.schema_evolutions == 15
            &&& demo_storage(m.storage_usage@)
            &&& m.transaction_stats.success_rate == 9980
            &&& m.transaction_stats.avg_duration == 4520
            &&& m.transaction_stats.total_transactions == 125847
            &&& m.query_performance@.len() == plan_of(time_range@).0
            &&& m.snapshot_activity@.len() == plan_of(time_range@).0
            &&& forall|i: int|
                0 <= i < m.query_performance@.len() ==> demo_performance(
                    #[trigger] m.query_performance@[i],
                    time_range@,
                    now as int,
                    i,
                )
            &&& forall|i: int|
                0 <= i < m.snapshot_activity@.len() ==> demo_activity(
                    #[trigger] m.snapshot_activity@[i],
                    time_range@,
                    now as int,
                    i,
                )
        },
{
    if now < -8_334_598_723_200 {
        return None;
    }
    let (perf, act) = demo_series(time_range, now);
    Some(DuckLakeMetrics {
        timestamp: clock_rfc3339(now, nanos),
        active_databases: 3,
        total_snapshots: 127,
        time_travel_queries: 1250,
        schema_evolutions: 15,
        query_performance: perf,
        snapshot_activity: act,
        storage_usage: demo_storage_usage(),
        transaction_stats: TransactionStats { success_rate: 9980, avg_duration: 4520, total_transactions: 125847 },
    })
}

/// The demonstration metrics for `time_range`, sampled up to the current time:
/// three active databases, 127 snapshots, 1250 time-travel queries, 15 schema
/// changes, the demonstration series and storage figures, and transactions that
/// succeed 99.8% of the time in 45.2 ms on average, 125847 of them, stamped with
/// the clock's RFC 3339 text. Always `Some`: the clock reads no time before the
/// epoch, far from chrono's earliest date.
pub fn generate_ducklake_metrics(time_range: &str) -> (r: Option<DuckLakeMetrics>)
    ensures
        r is Some,
        r matches Some(m) ==> {
            &&& m.active_databases == 3
            &&& m.total_snapshots == 127
            &&& m.time_travel_queries == 1250
            &&& m.schema_evolutions == 15
            &&& demo_storage(m.storage_usage@)
            &&& m.transaction_stats.success_rate == 9980
            &&& m.transaction_stats.avg_duration == 4520
            &&& m.transaction_stats.total_transactions == 125847
            &&& m.query_performance@.len() == plan_of(time_range@).0
            &&& m.snapshot_activity@.len() == plan_of(time_range@).0
            &&& exists|now: int, nanos: int|
                {
                    &&& sampleable(now)
                    &&& 0 <= nanos < 1_000_000_000
                    &&& m.timestamp@ == rfc3339_at(now, nanos)
                    &&& forall|i: int|
                        0 <= i < m.query_performance@.len() ==> demo_performance(
                            #[trigger] m.query_performance@[i],
                            time_range@,
                            now,
                            i,
                        )
                    &&& forall|i: int|
                        0 <= i < m.snapshot_activity@.len() ==> demo_activity(
                            #[trigger] m.snapshot_activity@[i],
                            time_range@,
                            now,
                            i,
                        )
                }
        },
{
    let (now, nanos) = now_parts();
    let r = ducklake_metrics_at(time_range, now, nanos);
    proof {
        if r is Some {
            assert(sampleable(now as int));
        }
    }
    r
}

/// Sample `i` of the demonstration performance history: labelled with the RFC
/// 3339 time of the sample, `nanos` nanoseconds past its second, the version rising every eighth sample from 125, the
/// response time climbing from 75 ms by 3 ms a sample modulo 40 ms, and the
/// throughput from 900 by 40 a sample modulo 500.
pub open spec fn demo_history(p: QueryPerformancePoint, range: Seq<char>, now: int, nanos: int, i: int) -> bool {
    &&& p.time@ == rfc3339_at(sample_time(range, now, i), nanos)
    &&& p.version == 125 + i / 8
    &&& p.avg_response_time == 7500 + (300 * i) % 4000
    &&& p.throughput == 900 + (40 * i) % 500
}

/// Whether `n` is a count of nanoseconds below one second.
pub open spec fn subsecond(n: int) -> bool {
    0 <= n < 1_000_000_000
}

/// The demonstration performance history of `time_range`, sampled up to `now`,
/// `nanos` nanoseconds past its second.
/// `None` exactly when `now` is less than thirty days after chrono's earliest
/// date.
pub fn performance_history_at(time_range: &str, now: i64, nanos: u32) -> (r: Option<Vec<QueryPerformancePoint>>)
    requires
        in_chrono_range(now as int),
        nanos < 1_000_000_000,
    ensures
        r is None <==> !sampleable(now as int),
        r matches Some(h) ==> {
            &&& h@.len() == plan_of(time_range@).0
            &&& forall|i: int| 0 <= i < h@.len() ==> demo_history(#[trigger] h@[i], time_range@, now as int, nanos as int, i)
        },
{
    if now < -8_334_598_723_200 {
        return None;
    }
    let ts = sample_times(time_range, now);
    let mut out: Vec<QueryPerformancePoint> = Vec::new();
    let mut i: usize = 0;
    while i < ts.len()
        invariant
            sampleable(now as int),
            nanos < 1_000_000_000,
            ts@.len() == plan_of(time_range@).0,
            forall|k: int| 0 <= k < ts@.len() ==> ts@[k] == sample_time(time_range@, now as int, k),
            forall|k: int| 0 <= k < ts@.len() ==> in_chrono_range(#[trigger] ts@[k] as int),
            i <= ts@.len(),
            out@.len() == i,
            forall|k: int| 0 <= k < i ==> demo_history(#[trigger] out@[k], time_range@, now as int, nanos as int, k),
        decreases ts.len() - i,
    {
        let t = ts[i];
        assert(in_chrono_range(ts@[i as int] as int));
        let j: u64 = i as u64;
        out.push(QueryPerformancePoint {
            time: clock_rfc3339(t, nanos),
            version: (125 + j / 8) as u32,
            avg_response_time: 7500 + (300 * j) % 4000,
            throughput: 900 + (40 * j) % 500,
        });
        i = i + 1;
    }
    Some(out)
}

/// The demonstration performance history of `time_range`, sampled up to the
/// current time. Always `Some`: the clock reads no time before the epoch.
pub fn generate_performance_history(time_range: &str) -> (r: Option<Vec<QueryPerformancePoint>>)
    ensures
        r is Some,
        r matches Some(h) ==> {
            &&& h@.len() == plan_of(time_range@).0
            &&& exists|now: int, nanos: int|
                #![trigger sampleable(now), subsecond(nanos)]
                sampleable(now) && subsecond(nanos) && forall|i: int|
                    0 <= i < h@.len() ==> demo_history(#[trigger] h@[i], time_range@, now, nanos, i)
        },
{
    let (now, nanos) = now_parts();
    let r = performance_history_at(time_range, now, nanos);
    proof {
        if r is Some {
            assert(sampleable(now as int) && subsecond(nanos as int));
        }
    }
    r
}

} // verus!
