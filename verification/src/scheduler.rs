//! The ingestion task scheduler: the queue of task definitions, the table of
//! tasks started, and the decisions of each scheduling round. Waiting, spawning
//! and aborting run outside; they report here what happened.
use vstd::prelude::*;
use std::collections::HashMap;
use crate::text::{str_eq, string_views, clone_strings};
use crate::ambient::{new_uuid_text, now_secs};

verus! {

/// Scheduler settings.
#[derive(Debug)]
pub struct SchedulerConfig {
    /// Most tasks in the running table before a round starts nothing.
    pub max_concurrent_tasks: usize,
    /// Task timeout in seconds.
    pub task_timeout_secs: u64,
    /// Seconds between scheduling rounds.
    pub schedule_interval_secs: u64,
    /// Retries of a failed task.
    pub max_retries: u32,
    /// Seconds between retries.
    pub retry_interval_secs: u64,
}

impl Default for SchedulerConfig {
    fn default() -> (c: Self)
        ensures
            c.max_concurrent_tasks == 10,
            c.task_timeout_secs == 300,
            c.schedule_interval_secs == 60,
            c.max_retries == 3,
            c.retry_interval_secs == 30,
    {
        SchedulerConfig {
            max_concurrent_tasks: 10,
            task_timeout_secs: 300,
            schedule_interval_secs: 60,
            max_retries: 3,
            retry_interval_secs: 30,
        }
    }
}

/// The kind of work a task does.
#[derive(Debug, Clone, Copy)]
pub enum TaskType {
    /// Continuous ingestion.
    RealTimeIngestion,
    /// A one-off import.
    BatchImport,
    /// A periodic synchronisation.
    ScheduledSync,
    /// A data quality check.
    DataQualityCheck,
    /// A clean-up.
    DataCleanup,
}

/// A task to run.
#[derive(Debug)]
pub struct TaskDefinition {
    /// Identifier, given when the task is added.
    pub id: String,
    /// Name.
    pub name: String,
    /// Kind of work.
    pub task_type: TaskType,
    /// Schedule expression.
    pub schedule: String,
    /// Source to read.
    pub source_name: String,
    /// Processors to apply, in order.
    pub processors: Vec<String>,
    /// Connector to write to.
    pub target_connector: String,
    /// Extra settings.
    pub config: HashMap<String, String>,
    /// Whether the task may run.
    pub enabled: bool,
    /// When it was added, in seconds since the Unix epoch.
    pub created_at: i64,
    /// When it last ran, in seconds since the Unix epoch.
    pub last_executed_at: Option<i64>,
}

/// The state of a started task.
#[derive(Debug, Clone, Copy)]
pub enum TaskStatus {
    /// Waiting.
    Pending,
    /// Running.
    Running,
    /// Done.
    Completed,
    /// Failed.
    Failed,
    /// Cancelled.
    Cancelled,
    /// Waiting for a retry.
    Retrying,
}

/// A task in the running table.
#[derive(Debug)]
pub struct ScheduledTask {
    /// The definition it was started from.
    pub definition: TaskDefinition,
    /// Its state.
    pub status: TaskStatus,
    /// When it started, in seconds since the Unix epoch.
    pub started_at: i64,
    /// When it ended.
    pub ended_at: Option<i64>,
    /// Records processed.
    pub records_processed: u64,
    /// Records that failed.
    pub records_failed: u64,
    /// Retries so far.
    pub retry_count: u32,
    /// Why it failed.
    pub error_message: Option<String>,
}

/// Counts over the queue and the running table.
#[derive(Debug)]
pub struct TaskStats {
    /// Task definitions in the queue.
    pub total_tasks: u64,
    /// Started tasks running.
    pub running_tasks: u64,
    /// Started tasks completed.
    pub completed_tasks: u64,
    /// Started tasks failed.
    pub failed_tasks: u64,
    /// Started tasks pending.
    pub pending_tasks: u64,
    /// Records processed by started tasks.
    pub total_records_processed: u64,
    /// Records failed in started tasks.
    pub total_records_failed: u64,
}

/// A started task as the contracts see it: identifier, state, start, end and
/// record counts.
pub open spec fn rec_view(t: ScheduledTask) -> (Seq<char>, TaskStatus, i64, Option<i64>, u64, u64) {
    (t.definition.id@, t.status, t.started_at, t.ended_at, t.records_processed, t.records_failed)
}

/// A queued definition as the contracts see it: identifier, enabled flag, last
/// run.
pub open spec fn def_view(d: TaskDefinition) -> (Seq<char>, bool, Option<i64>) {
    (d.id@, d.enabled, d.last_executed_at)
}

/// Whether a task in this state is over (and may be cleaned away).
pub open spec fn is_finished(s: TaskStatus) -> bool {
    s is Completed || s is Failed || s is Cancelled
}

/// Whether a definition is due at `now`: it never ran, or it last ran at least 60
/// seconds ago.
pub open spec fn is_due(last: Option<i64>, now: i64) -> bool {
    match last {
        None => true,
        Some(t) => now - t >= 60,
    }
}

/// The running table after starting a task: its record replaces one with the same
/// identifier, or is added at the end.
pub open spec fn upsert(
    running: Seq<(Seq<char>, TaskStatus, i64, Option<i64>, u64, u64)>,
    rec: (Seq<char>, TaskStatus, i64, Option<i64>, u64, u64),
) -> Seq<(Seq<char>, TaskStatus, i64, Option<i64>, u64, u64)> {
    if exists|i: int| 0 <= i < running.len() && (#[trigger] running[i]).0 == rec.0 {
        let i = choose|i: int| 0 <= i < running.len() && (#[trigger] running[i]).0 == rec.0;
        running.update(i, rec)
    } else {
        running.push(rec)
    }
}

/// The running table after one pass over `defs` at time `now`: every enabled, due
/// definition is started.
pub open spec fn start_due(
    running: Seq<(Seq<char>, TaskStatus, i64, Option<i64>, u64, u64)>,
    defs: Seq<(Seq<char>, bool, Option<i64>)>,
    now: i64,
) -> Seq<(Seq<char>, TaskStatus, i64, Option<i64>, u64, u64)>
    decreases defs.len(),
{
    if defs.len() == 0 {
        running
    } else {
        let before = start_due(running, defs.drop_last(), now);
        let d = defs.last();
        if d.1 && is_due(d.2, now) {
            upsert(before, (d.0, TaskStatus::Running, now, None, 0, 0))
        } else {
            before
        }
    }
}

/// Whether a started task has another identifier than `id`.
pub open spec fn rec_not(id: Seq<char>) -> spec_fn((Seq<char>, TaskStatus, i64, Option<i64>, u64, u64)) -> bool {
    |r: (Seq<char>, TaskStatus, i64, Option<i64>, u64, u64)| r.0 != id
}

/// Whether a queued definition has another identifier than `id`.
pub open spec fn def_not(id: Seq<char>) -> spec_fn((Seq<char>, bool, Option<i64>)) -> bool {
    |d: (Seq<char>, bool, Option<i64>)| d.0 != id
}

/// Whether a started task is not over.
pub open spec fn unfinished() -> spec_fn((Seq<char>, TaskStatus, i64, Option<i64>, u64, u64)) -> bool {
    |r: (Seq<char>, TaskStatus, i64, Option<i64>, u64, u64)| !is_finished(r.1)
}

/// The identifiers of the entries of a running table.
pub open spec fn rec_ids(running: Seq<(Seq<char>, TaskStatus, i64, Option<i64>, u64, u64)>) -> Seq<Seq<char>> {
    running.map_values(|r: (Seq<char>, TaskStatus, i64, Option<i64>, u64, u64)| r.0)
}

/// Whether no two entries share an identifier.
pub open spec fn ids_distinct(running: Seq<(Seq<char>, TaskStatus, i64, Option<i64>, u64, u64)>) -> bool {
    forall|i: int, j: int| 0 <= i < j < running.len() ==> (#[trigger] running[i]).0 != (#[trigger] running[j]).0
}

/// The number of entries in a state.
pub open spec fn count_status(
    running: Seq<(Seq<char>, TaskStatus, i64, Option<i64>, u64, u64)>,
    p: spec_fn(TaskStatus) -> bool,
) -> nat
    decreases running.len(),
{
    if running.len() == 0 {
        0
    } else {
        count_status(running.drop_last(), p) + if p(running.last().1) { 1nat } else { 0nat }
    }
}

/// The total of the processed records (with `processed`) or failed records.
pub open spec fn sum_records(
    running: Seq<(Seq<char>, TaskStatus, i64, Option<i64>, u64, u64)>,
    processed: bool,
) -> nat
    decreases running.len(),
{
    if running.len() == 0 {
        0
    } else {
        sum_records(running.drop_last(), processed) + if processed { running.last().4 as nat } else {
            running.last().5 as nat
        }
    }
}

/// The scheduler's state.
#[derive(Debug)]
pub struct TaskScheduler {
    config: SchedulerConfig,
    running_tasks: Vec<ScheduledTask>,
    task_queue: Vec<TaskDefinition>,
    is_running: bool,
}

impl TaskScheduler {
    /// The started tasks.
    pub closed spec fn running(&self) -> Seq<(Seq<char>, TaskStatus, i64, Option<i64>, u64, u64)> {
        self.running_tasks@.map_values(|t: ScheduledTask| rec_view(t))
    }

    /// The queued definitions.
    pub closed spec fn queue(&self) -> Seq<(Seq<char>, bool, Option<i64>)> {
        self.task_queue@.map_values(|d: TaskDefinition| def_view(d))
    }

    /// Whether the scheduling loop is meant to run.
    pub closed spec fn active(&self) -> bool {
        self.is_running
    }

    /// The concurrency limit.
    pub closed spec fn max_concurrent(&self) -> usize {
        self.config.max_concurrent_tasks
    }

    /// The seconds between rounds.
    pub closed spec fn interval(&self) -> u64 {
        self.config.schedule_interval_secs
    }

    /// The scheduler's own consistency: no two started tasks share an identifier.
    pub open spec fn wf(&self) -> bool {
        ids_distinct(self.running())
    }

    /// An idle scheduler with no tasks.
    pub fn new(config: SchedulerConfig) -> (s: Self)
        ensures
            s.wf(),
            s.running().len() == 0,
            s.queue().len() == 0,
            !s.active(),
            s.max_concurrent() == config.max_concurrent_tasks,
            s.interval() == config.schedule_interval_secs,
    {
        let s = TaskScheduler { config, running_tasks: Vec::new(), task_queue: Vec::new(), is_running: false };
        assert(s.running() =~= Seq::empty());
        assert(s.queue() =~= Seq::empty());
        s
    }

    /// The seconds between scheduling rounds.
    pub fn schedule_interval_secs(&self) -> (n: u64)
        ensures
            n == self.interval(),
    {
        self.config.schedule_interval_secs
    }

    /// Whether the scheduling loop should go on.
    pub fn is_active(&self) -> (b: bool)
        ensures
            b == self.active(),
    {
        self.is_running
    }

    /// Marks the scheduler as running; refused when it already runs.
    pub fn start(&mut self) -> (r: Result<(), String>)
        ensures
            old(self).active() ==> (r matches Err(e) && e@ == "调度器已在运行中"@),
            !old(self).active() ==> r is Ok,
            final(self).active(),
            final(self).running() == old(self).running(),
            final(self).queue() == old(self).queue(),
            final(self).max_concurrent() == old(self).max_concurrent(),
            final(self).interval() == old(self).interval(),
    {
        if self.is_running {
            return Err("调度器已在运行中".to_string());
        }
        self.is_running = true;
        Ok(())
    }

    /// Stops the scheduler: every started task is cancelled and the running table
    /// emptied. Returns the identifiers of the tasks that were in it, whose work
    /// is to be aborted.
    pub fn stop(&mut self) -> (cancelled: Vec<String>)
        ensures
            !final(self).active(),
            final(self).running().len() == 0,
            final(self).queue() == old(self).queue(),
            final(self).wf(),
            string_views(cancelled@) == rec_ids(old(self).running()),
            final(self).max_concurrent() == old(self).max_concurrent(),
            final(self).interval() == old(self).interval(),
    {
        self.is_running = false;
        let mut ids: Vec<String> = Vec::new();
        let mut i: usize = 0;
        while i < self.running_tasks.len()
            invariant
                i <= self.running_tasks@.len(),
                ids@.len() == i,
                self.running_tasks@ == old(self).running_tasks@,
                string_views(ids@) == rec_ids(self.running()).subrange(0, i as int),
            decreases self.running_tasks.len() - i,
        {
            let ghost prev = ids@;
            ids.push(self.running_tasks[i].definition.id.clone());
            proof {
                assert forall|m: int| 0 <= m < i + 1 implies #[trigger] string_views(ids@)[m]
                    == rec_ids(self.running())[m] by {
                    if m < i {
                        assert(ids@[m] == prev[m]);
                        assert(string_views(prev)[m] == rec_ids(self.running()).subrange(0, i as int)[m]);
                    }
                }
                assert(string_views(ids@) =~= rec_ids(self.running()).subrange(0, i + 1));
            }
            i = i + 1;
        }
        self.running_tasks = Vec::new();
        proof {
            assert(self.running() =~= Seq::empty());
            assert(rec_ids(old(self).running()).subrange(0, i as int) =~= rec_ids(old(self).running()));
        }
        ids
    }

    /// Queues `task_def` under identifier `id`, added at time `now`.
    pub fn add_task_with(&mut self, task_def: TaskDefinition, id: String, now: i64)
        ensures
            final(self).queue() == old(self).queue().push((id@, task_def.enabled, task_def.last_executed_at)),
            final(self).running() == old(self).running(),
            final(self).active() == old(self).active(),
            final(self).max_concurrent() == old(self).max_concurrent(),
            final(self).interval() == old(self).interval(),
    {
        let mut d = task_def;
        d.id = id;
        d.created_at = now;
        self.task_queue.push(d);
        assert(self.queue() =~= old(self).queue().push((id@, task_def.enabled, task_def.last_executed_at)));
    }

    /// Queues `task_def` under a fresh random identifier, added now.
    pub fn add_task(&mut self, task_def: TaskDefinition)
        ensures
            final(self).queue().len() == old(self).queue().len() + 1,
            final(self).queue().subrange(0, old(self).queue().len() as int) == old(self).queue(),
            final(self).queue().last().1 == task_def.enabled,
            final(self).running() == old(self).running(),
            final(self).active() == old(self).active(),
    {
        let id = new_uuid_text();
        let now = now_secs();
        self.add_task_with(task_def, id, now);
        assert(self.queue().subrange(0, old(self).queue().len() as int) =~= old(self).queue());
    }

    /// Removes the definitions with identifier `task_id` from the queue and the
    /// task from the running table. Returns whether a started task was removed
    /// (its work is to be aborted).
    pub fn remove_task(&mut self, task_id: &str) -> (was_running: bool)
        requires
            old(self).wf(),
        ensures
            final(self).wf(),
            final(self).queue() == old(self).queue().filter(def_not(task_id@)),
            final(self).running() == old(self).running().filter(rec_not(task_id@)),
            was_running <==> exists|i: int| 0 <= i < old(self).running().len() && (#[trigger] old(self).running()[i]).0 == task_id@,
            final(self).active() == old(self).active(),
            final(self).max_concurrent() == old(self).max_concurrent(),
            final(self).interval() == old(self).interval(),
    {
        let ghost q0 = self.queue();
        let ghost r0 = self.running();
        let mut queue = Vec::new();
        std::mem::swap(&mut queue, &mut self.task_queue);
        let mut kept: Vec<TaskDefinition> = Vec::new();
        let mut k: usize = 0;
        let n = queue.len();
        let ghost qall = queue@;
        while queue.len() > 0
            invariant
                qall.map_values(|d: TaskDefinition| def_view(d)) == q0,
                n == qall.len(),
                k + queue@.len() == n,
                queue@ == qall.subrange(k as int, n as int),
                kept@.map_values(|d: TaskDefinition| def_view(d)) == q0.subrange(0, k as int).filter(def_not(task_id@)),
            decreases queue.len(),
        {
            let d = queue.remove(0);
            proof {
                assert(queue@ =~= qall.subrange(k + 1, n as int));
                assert(q0[k as int] == def_view(d));
                assert(q0.subrange(0, k + 1) =~= q0.subrange(0, k as int).push(def_view(d)));
                q0.subrange(0, k as int).lemma_filter_push(def_view(d), def_not(task_id@));
            }
            if !str_eq(d.id.as_str(), task_id) {
                kept.push(d);
                proof {
                    assert(kept@.map_values(|d: TaskDefinition| def_view(d)) =~= q0.subrange(0, k as int).filter(def_not(task_id@)).push(def_view(d)));
                }
            }
            k = k + 1;
        }
        assert(q0.subrange(0, n as int) =~= q0);
        self.task_queue = kept;
        let mut tasks = Vec::new();
        std::mem::swap(&mut tasks, &mut self.running_tasks);
        let mut keep_tasks: Vec<ScheduledTask> = Vec::new();
        let mut found = false;
        let m = tasks.len();
        let ghost tall = tasks@;
        let mut j: usize = 0;
        while tasks.len() > 0
            invariant
                tall.map_values(|t: ScheduledTask| rec_view(t)) == r0,
                m == tall.len(),
                j + tasks@.len() == m,
                tasks@ == tall.subrange(j as int, m as int),
                keep_tasks@.map_values(|t: ScheduledTask| rec_view(t)) == r0.subrange(0, j as int).filter(rec_not(task_id@)),
                found <==> exists|i: int| 0 <= i < j && (#[trigger] r0[i]).0 == task_id@,
            decreases tasks.len(),
        {
            let t = tasks.remove(0);
            proof {
                assert(tasks@ =~= tall.subrange(j + 1, m as int));
                assert(r0[j as int] == rec_view(t));
                assert(r0.subrange(0, j + 1) =~= r0.subrange(0, j as int).push(rec_view(t)));
                r0.subrange(0, j as int).lemma_filter_push(rec_view(t), rec_not(task_id@));
            }
            if str_eq(t.definition.id.as_str(), task_id) {
                found = true;
            } else {
                keep_tasks.push(t);
                proof {
                    assert(keep_tasks@.map_values(|t: ScheduledTask| rec_view(t)) =~= r0.subrange(0, j as int).filter(rec_not(task_id@)).push(rec_view(t)));
                }
            }
            j = j + 1;
        }
        assert(r0.subrange(0, m as int) =~= r0);
        self.running_tasks = keep_tasks;
        proof {
            lemma_filter_keeps_distinct(r0, task_id@);
        }
        found
    }

    /// The state of the started task `task_id`, if it is in the running table.
    pub fn get_task_status(&self, task_id: &str) -> (s: Option<TaskStatus>)
        requires
            self.wf(),
        ensures
            match s {
                Some(st) => exists|i: int| 0 <= i < self.running().len() && (#[trigger] self.running()[i]).0
                    == task_id@ && self.running()[i].1 == st,
                None => forall|i: int| 0 <= i < self.running().len() ==> (#[trigger] self.running()[i]).0
                    != task_id@,
            },
    {
        let mut i: usize = 0;
        while i < self.running_tasks.len()
            invariant
                i <= self.running_tasks@.len(),
                forall|j: int| 0 <= j < i ==> (#[trigger] self.running()[j]).0 != task_id@,
            decreases self.running_tasks.len() - i,
        {
            if str_eq(self.running_tasks[i].definition.id.as_str(), task_id) {
                assert(self.running()[i as int].0 == task_id@);
                return Some(self.running_tasks[i].status);
            }
            i = i + 1;
        }
        None
    }

    /// Counts the queue and the running table by state, and totals the records.
    pub fn get_task_stats(&self) -> (st: TaskStats)
        requires
            sum_records(self.running(), true) <= u64::MAX,
            sum_records(self.running(), false) <= u64::MAX,
        ensures
            st.total_tasks == self.queue().len(),
            st.running_tasks == count_status(self.running(), |s: TaskStatus| s is Running),
            st.completed_tasks == count_status(self.running(), |s: TaskStatus| s is Completed),
            st.failed_tasks == count_status(self.running(), |s: TaskStatus| s is Failed),
            st.pending_tasks == count_status(self.running(), |s: TaskStatus| s is Pending),
            st.total_records_processed == sum_records(self.running(), true),
            st.total_records_failed == sum_records(self.running(), false),
    {
        let ghost r = self.running();
        let mut st = TaskStats {
            total_tasks: self.task_queue.len() as u64,
            running_tasks: 0,
            completed_tasks: 0,
            failed_tasks: 0,
            pending_tasks: 0,
            total_records_processed: 0,
            total_records_failed: 0,
        };
        let mut i: usize = 0;
        while i < self.running_tasks.len()
            invariant
                r == self.running(),
                i <= r.len(),
                st.total_tasks == self.queue().len(),
                sum_records(r, true) <= u64::MAX,
                sum_records(r, false) <= u64::MAX,
                st.running_tasks == count_status(r.subrange(0, i as int), |s: TaskStatus| s is Running),
                st.completed_tasks == count_status(r.subrange(0, i as int), |s: TaskStatus| s is Completed),
                st.failed_tasks == count_status(r.subrange(0, i as int), |s: TaskStatus| s is Failed),
                st.pending_tasks == count_status(r.subrange(0, i as int), |s: TaskStatus| s is Pending),
                st.total_records_processed == sum_records(r.subrange(0, i as int), true),
                st.total_records_failed == sum_records(r.subrange(0, i as int), false),
            decreases self.running_tasks.len() - i,
        {
            let t = &self.running_tasks[i];
            proof {
                let pre = r.subrange(0, i as int);
                let next = r.subrange(0, i + 1);
                assert(next.drop_last() =~= pre);
                assert(next.last() == rec_view(*t));
                lemma_count_le_len(pre, |s: TaskStatus| s is Running);
                lemma_count_le_len(pre, |s: TaskStatus| s is Completed);
                lemma_count_le_len(pre, |s: TaskStatus| s is Failed);
                lemma_count_le_len(pre, |s: TaskStatus| s is Pending);
                lemma_sum_prefix(r, i + 1, true);
                lemma_sum_prefix(r, i + 1, false);
            }
            match t.status {
                TaskStatus::Running => st.running_tasks = st.running_tasks + 1,
                TaskStatus::Completed => st.completed_tasks = st.completed_tasks + 1,
                TaskStatus::Failed => st.failed_tasks = st.failed_tasks + 1,
                TaskStatus::Pending => st.pending_tasks = st.pending_tasks + 1,
                _ => {},
            }
            st.total_records_processed = st.total_records_processed + t.records_processed;
            st.total_records_failed = st.total_records_failed + t.records_failed;
            i = i + 1;
        }
        assert(r.subrange(0, r.len() as int) =~= r);
        st
    }
}

/// A copy of a definition.
fn copy_definition(d: &TaskDefinition) -> (r: TaskDefinition)
    ensures
        def_view(r) == def_view(*d),
{
    TaskDefinition {
        id: d.id.clone(),
        name: d.name.clone(),
        task_type: d.task_type,
        schedule: d.schedule.clone(),
        source_name: d.source_name.clone(),
        processors: clone_strings(&d.processors),
        target_connector: d.target_connector.clone(),
        config: d.config.clone(),
        enabled: d.enabled,
        created_at: d.created_at,
        last_executed_at: d.last_executed_at,
    }
}

/// Whether a definition that last ran at `last` is due at `now` (see `is_due`).
pub fn should_execute_task(last_executed_at: Option<i64>, now: i64) -> (b: bool)
    ensures
        b == is_due(last_executed_at, now),
{
    match last_executed_at {
        None => true,
        Some(t) => (now as i128) - (t as i128) >= 60,
    }
}

impl TaskScheduler {
    /// Index of the started task `id`, if any.
    fn find_running(&self, id: &str) -> (r: Option<usize>)
        requires
            self.wf(),
        ensures
            match r {
                Some(i) => i < self.running().len() && self.running()[i as int].0 == id@,
                None => forall|i: int| 0 <= i < self.running().len() ==> (#[trigger] self.running()[i]).0 != id@,
            },
    {
        let mut i: usize = 0;
        while i < self.running_tasks.len()
            invariant
                i <= self.running_tasks@.len(),
                forall|j: int| 0 <= j < i ==> (#[trigger] self.running()[j]).0 != id@,
            decreases self.running_tasks.len() - i,
        {
            if str_eq(self.running_tasks[i].definition.id.as_str(), id) {
                return Some(i);
            }
            i = i + 1;
        }
        None
    }

    /// Starts a task from `def` at `now`: its record, running with no records yet,
    /// replaces a started task with the same identifier or is added.
    fn execute_task(&mut self, def: TaskDefinition, now: i64)
        requires
            old(self).wf(),
        ensures
            final(self).wf(),
            final(self).running() == upsert(old(self).running(), (def.id@, TaskStatus::Running, now, None, 0, 0)),
            final(self).queue() == old(self).queue(),
            final(self).active() == old(self).active(),
            final(self).max_concurrent() == old(self).max_concurrent(),
            final(self).interval() == old(self).interval(),
    {
        let ghost rec = (def.id@, TaskStatus::Running, now, None::<i64>, 0u64, 0u64);
        let ghost r0 = self.running();
        let found = self.find_running(def.id.as_str());
        let task = ScheduledTask {
            definition: def,
            status: TaskStatus::Running,
            started_at: now,
            ended_at: None,
            records_processed: 0,
            records_failed: 0,
            retry_count: 0,
            error_message: None,
        };
        assert(rec_view(task) == rec);
        match found {
            Some(i) => {
                self.running_tasks.set(i, task);
                proof {
                    let k = choose|k: int| 0 <= k < r0.len() && (#[trigger] r0[k]).0 == rec.0;
                    assert(k == i);
                    assert(self.running() =~= r0.update(i as int, rec));
                }
            },
            None => {
                self.running_tasks.push(task);
                proof {
                    assert(self.running() =~= r0.push(rec));
                }
            },
        }
    }

    /// One scheduling round at time `now`: when the running table holds fewer
    /// than the concurrency limit, every enabled definition that is due is
    /// started, in queue order. Returns the identifiers started.
    pub fn check_and_execute_tasks(&mut self, now: i64) -> (started: Vec<String>)
        requires
            old(self).wf(),
        ensures
            final(self).wf(),
            old(self).running().len() >= old(self).max_concurrent() ==> final(self).running() == old(
                self,
            ).running() && started@.len() == 0,
            old(self).running().len() < old(self).max_concurrent() ==> final(self).running() == start_due(
                old(self).running(),
                old(self).queue(),
                now,
            ),
            final(self).queue() == old(self).queue(),
            final(self).active() == old(self).active(),
            final(self).max_concurrent() == old(self).max_concurrent(),
            final(self).interval() == old(self).interval(),
    {
        let mut started: Vec<String> = Vec::new();
        if self.running_tasks.len() >= self.config.max_concurrent_tasks {
            return started;
        }
        let ghost r0 = self.running();
        let ghost q = self.queue();
        let mut i: usize = 0;
        let n = self.task_queue.len();
        assert(q.subrange(0, 0) =~= Seq::<(Seq<char>, bool, Option<i64>)>::empty());
        while i < n
            invariant
                n == q.len(),
                q == self.queue(),
                self.task_queue@.len() == self.queue().len(),
                i <= n,
                self.wf(),
                self.running() == start_due(r0, q.subrange(0, i as int), now),
                self.active() == old(self).active(),
                self.max_concurrent() == old(self).max_concurrent(),
                self.interval() == old(self).interval(),
            decreases n - i,
        {
            proof {
                assert(q.subrange(0, i + 1).drop_last() =~= q.subrange(0, i as int));
                assert(q.subrange(0, i + 1).last() == q[i as int]);
            }
            let enabled = self.task_queue[i].enabled;
            if enabled && should_execute_task(self.task_queue[i].last_executed_at, now) {
                let def = copy_definition(&self.task_queue[i]);
                started.push(def.id.clone());
                self.execute_task(def, now);
            }
            i = i + 1;
        }
        assert(q.subrange(0, n as int) =~= q);
        started
    }

    /// Records that the work of task `task_id` finished at `now`: the task is
    /// completed with 100 records processed. Unknown tasks are ignored.
    pub fn mark_completed(&mut self, task_id: &str, now: i64)
        requires
            old(self).wf(),
        ensures
            final(self).wf(),
            final(self).running().len() == old(self).running().len(),
            forall|i: int| 0 <= i < old(self).running().len() ==> #[trigger] final(self).running()[i] == if old(
                self,
            ).running()[i].0 == task_id@ {
                (task_id@, TaskStatus::Completed, old(self).running()[i].2, Some(now), 100u64, old(
                    self,
                ).running()[i].5)
            } else {
                old(self).running()[i]
            },
            final(self).queue() == old(self).queue(),
            final(self).active() == old(self).active(),
            final(self).max_concurrent() == old(self).max_concurrent(),
            final(self).interval() == old(self).interval(),
    {
        let ghost r0 = self.running();
        match self.find_running(task_id) {
            Some(i) => {
                let mut tasks = Vec::new();
                std::mem::swap(&mut tasks, &mut self.running_tasks);
                let mut t = tasks.remove(i);
                t.status = TaskStatus::Completed;
                t.ended_at = Some(now);
                t.records_processed = 100;
                tasks.insert(i, t);
                self.running_tasks = tasks;
                proof {
                    assert forall|k: int| 0 <= k < r0.len() implies #[trigger] self.running()[k] == if r0[k].0
                        == task_id@ {
                        (task_id@, TaskStatus::Completed, r0[k].2, Some(now), 100u64, r0[k].5)
                    } else {
                        r0[k]
                    } by {
                        if k != i {
                            assert(r0[k].0 != r0[i as int].0);
                        }
                    }
                    assert forall|a: int, b: int| 0 <= a < b < self.running().len() implies (
                        #[trigger] self.running()[a]).0 != (#[trigger] self.running()[b]).0 by {
                        assert(self.running()[a].0 == r0[a].0);
                        assert(self.running()[b].0 == r0[b].0);
                    }
                }
            },
            None => {},
        }
    }

    /// Drops the completed, failed and cancelled tasks from the running table.
    pub fn cleanup_completed_tasks(&mut self)
        requires
            old(self).wf(),
        ensures
            final(self).wf(),
            final(self).running() == old(self).running().filter(unfinished()),
            final(self).queue() == old(self).queue(),
            final(self).active() == old(self).active(),
            final(self).max_concurrent() == old(self).max_concurrent(),
            final(self).interval() == old(self).interval(),
    {
        let ghost r0 = self.running();
        let ghost keep = unfinished();
        let mut tasks = Vec::new();
        std::mem::swap(&mut tasks, &mut self.running_tasks);
        let ghost tall = tasks@;
        let m = tasks.len();
        let mut kept: Vec<ScheduledTask> = Vec::new();
        let mut j: usize = 0;
        while tasks.len() > 0
            invariant
                tall.map_values(|t: ScheduledTask| rec_view(t)) == r0,
                m == tall.len(),
                j + tasks@.len() == m,
                tasks@ == tall.subrange(j as int, m as int),
                keep == unfinished(),
                kept@.map_values(|t: ScheduledTask| rec_view(t)) == r0.subrange(0, j as int).filter(keep),
            decreases tasks.len(),
        {
            let t = tasks.remove(0);
            proof {
                assert(tasks@ =~= tall.subrange(j + 1, m as int));
                assert(r0[j as int] == rec_view(t));
                assert(r0.subrange(0, j + 1) =~= r0.subrange(0, j as int).push(rec_view(t)));
                r0.subrange(0, j as int).lemma_filter_push(rec_view(t), keep);
            }
            let finished = match t.status {
                TaskStatus::Completed | TaskStatus::Failed | TaskStatus::Cancelled => true,
                _ => false,
            };
            if !finished {
                kept.push(t);
                proof {
                    assert(kept@.map_values(|t: ScheduledTask| rec_view(t)) =~= r0.subrange(0, j as int).filter(
                        keep,
                    ).push(rec_view(t)));
                }
            }
            j = j + 1;
        }
        assert(r0.subrange(0, m as int) =~= r0);
        self.running_tasks = kept;
        proof {
            lemma_filter_subseq_distinct(r0, keep);
        }
    }
}

proof fn lemma_filter_subseq_distinct(
    running: Seq<(Seq<char>, TaskStatus, i64, Option<i64>, u64, u64)>,
    f: spec_fn((Seq<char>, TaskStatus, i64, Option<i64>, u64, u64)) -> bool,
)
    requires
        ids_distinct(running),
    ensures
        ids_distinct(running.filter(f)),
    decreases running.len(),
{
    if running.len() > 0 {
        lemma_filter_subseq_distinct(running.drop_last(), f);
        let rest = running.drop_last().filter(f);
        assert(running =~= running.drop_last().push(running.last()));
        running.drop_last().lemma_filter_push(running.last(), f);
        if f(running.last()) {
            assert forall|i: int| 0 <= i < rest.len() implies (#[trigger] rest[i]).0 != running.last().0 by {
                assert(rest.contains(rest[i]));
                running.drop_last().lemma_filter_contains_rev(f, rest[i]);
                let k = choose|k: int| 0 <= k < running.drop_last().len() && running.drop_last()[k] == rest[i];
                assert(running[k] == running.drop_last()[k]);
                assert(running[k].0 != running[running.len() - 1].0);
            }
            assert(ids_distinct(rest.push(running.last())));
        }
    }
}

/// A scheduling round starts only enabled, due definitions: every identifier in
/// the running table after the round was there before or belongs to an enabled
/// definition of the queue that is due at `now`.
pub proof fn lemma_round_starts_only_due_tasks(
    running: Seq<(Seq<char>, TaskStatus, i64, Option<i64>, u64, u64)>,
    defs: Seq<(Seq<char>, bool, Option<i64>)>,
    now: i64,
    id: Seq<char>,
)
    requires
        rec_ids(start_due(running, defs, now)).contains(id),
    ensures
        rec_ids(running).contains(id) || exists|k: int| 0 <= k < defs.len() && (#[trigger] defs[k]).0 == id
            && defs[k].1 && is_due(defs[k].2, now),
    decreases defs.len(),
{
    if defs.len() > 0 {
        let before = start_due(running, defs.drop_last(), now);
        let d = defs.last();
        if d.1 && is_due(d.2, now) && id != d.0 {
            let rec = (d.0, TaskStatus::Running, now, None::<i64>, 0u64, 0u64);
            let after = upsert(before, rec);
            let w = choose|w: int| 0 <= w < rec_ids(after).len() && rec_ids(after)[w] == id;
            if exists|i: int| 0 <= i < before.len() && (#[trigger] before[i]).0 == rec.0 {
                let i = choose|i: int| 0 <= i < before.len() && (#[trigger] before[i]).0 == rec.0;
                assert(after == before.update(i, rec));
                assert(w != i);
                assert(rec_ids(before)[w] == id);
            } else {
                assert(after == before.push(rec));
                assert(w < before.len());
                assert(rec_ids(before)[w] == id);
            }
            assert(rec_ids(before).contains(id));
        }
        if d.1 && is_due(d.2, now) && id == d.0 {
            assert(defs[defs.len() - 1].0 == id);
        } else {
            lemma_round_starts_only_due_tasks(running, defs.drop_last(), now, id);
            if !rec_ids(running).contains(id) {
                let k = choose|k: int| 0 <= k < defs.drop_last().len() && (#[trigger] defs.drop_last()[k]).0 == id
                    && defs.drop_last()[k].1 && is_due(defs.drop_last()[k].2, now);
                assert(defs[k] == defs.drop_last()[k]);
            }
        }
    }
}

/// After clean-up no completed, failed or cancelled task remains.
pub proof fn lemma_cleanup_leaves_unfinished(running: Seq<(Seq<char>, TaskStatus, i64, Option<i64>, u64, u64)>)
    ensures
        forall|i: int| 0 <= i < running.filter(unfinished()).len() ==> !is_finished(
            #[trigger] running.filter(unfinished())[i].1,
        ),
{
    broadcast use vstd::seq_lib::group_filter_ensures;
}

proof fn lemma_count_le_len(
    running: Seq<(Seq<char>, TaskStatus, i64, Option<i64>, u64, u64)>,
    p: spec_fn(TaskStatus) -> bool,
)
    ensures
        count_status(running, p) <= running.len(),
    decreases running.len(),
{
    if running.len() > 0 {
        lemma_count_le_len(running.drop_last(), p);
    }
}

proof fn lemma_sum_prefix(running: Seq<(Seq<char>, TaskStatus, i64, Option<i64>, u64, u64)>, k: int, processed: bool)
    requires
        0 <= k <= running.len(),
    ensures
        sum_records(running.subrange(0, k), processed) <= sum_records(running, processed),
    decreases running.len(),
{
    if k < running.len() {
        assert(running.drop_last().subrange(0, k) =~= running.subrange(0, k));
        lemma_sum_prefix(running.drop_last(), k, processed);
    } else {
        assert(running.subrange(0, k) =~= running);
    }
}

proof fn lemma_filter_keeps_distinct(running: Seq<(Seq<char>, TaskStatus, i64, Option<i64>, u64, u64)>, id: Seq<char>)
    requires
        ids_distinct(running),
    ensures
        ids_distinct(running.filter(rec_not(id))),
    decreases running.len(),
{
    let f = rec_not(id);
    if running.len() > 0 {
        lemma_filter_keeps_distinct(running.drop_last(), id);
        let rest = running.drop_last().filter(f);
        assert(running =~= running.drop_last().push(running.last()));
        running.drop_last().lemma_filter_push(running.last(), f);
        if f(running.last()) {
            assert forall|i: int| 0 <= i < rest.len() implies (#[trigger] rest[i]).0 != running.last().0 by {
                assert(rest.contains(rest[i]));
                running.drop_last().lemma_filter_contains_rev(f, rest[i]);
                let k = choose|k: int| 0 <= k < running.drop_last().len() && running.drop_last()[k] == rest[i];
                assert(running[k] == running.drop_last()[k]);
                assert(running[k].0 != running[running.len() - 1].0);
            }
            assert(ids_distinct(rest.push(running.last())));
        }
    }
}


} // verus!
