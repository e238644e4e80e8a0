//! What the ingestion service builds from its configuration when it starts:
//! a source for each enabled source, and a processor for each enabled cleaning
//! or validation step, in the order of the configuration.
use vstd::prelude::*;
use crate::ingestion_config::{DataSourceType, IngestionConfig, DataSourceConfig, ProcessorConfig, ProcessorType,
    config_ok, refusal_message};
use crate::sources::{SourceKind, SourceState, same_counts};
use crate::processors::{Processor, DataCleaningProcessor, DataValidationProcessor, CleaningRule, CaseType,
    ValidationRule, DataRecord, process_record};
use crate::scheduler::{SchedulerConfig, TaskScheduler, TaskStatus, count_status, sum_records, rec_ids};
use crate::text::string_views;

verus! {

/// The kind of source that serves a configured source type.
pub open spec fn kind_of(t: DataSourceType) -> SourceKind {
    match t {
        DataSourceType::MessageQueue => SourceKind::Kafka,
        DataSourceType::WebSocket => SourceKind::WebSocket,
        DataSourceType::RestApi => SourceKind::RestApi,
    }
}

/// The name and kind of each enabled source, in order.
pub open spec fn enabled_sources(s: Seq<(String, DataSourceConfig)>) -> Seq<(Seq<char>, SourceKind)>
    decreases s.len(),
{
    if s.len() == 0 {
        Seq::empty()
    } else if s.last().1.enabled {
        enabled_sources(s.drop_last()).push((s.last().0@, kind_of(s.last().1.source_type)))
    } else {
        enabled_sources(s.drop_last())
    }
}

/// Whether a processor type has a processor: cleaning and validation have one.
pub open spec fn has_processor(t: ProcessorType) -> bool {
    t is DataCleaning || t is DataValidation
}

/// The name and type of each enabled processor of a type that has one, in order.
pub open spec fn enabled_processors(s: Seq<(String, ProcessorConfig)>) -> Seq<(Seq<char>, ProcessorType)>
    decreases s.len(),
{
    if s.len() == 0 {
        Seq::empty()
    } else if s.last().1.enabled && has_processor(s.last().1.processor_type) {
        enabled_processors(s.drop_last()).push((s.last().0@, s.last().1.processor_type))
    } else {
        enabled_processors(s.drop_last())
    }
}

/// Whether `p` is the processor built for the name and type `e`: a cleaner with the default
/// cleaning rules, or a validator requiring `id` and `timestamp`.
pub open spec fn built_for(p: Processor, e: (Seq<char>, ProcessorType)) -> bool {
    match p {
        Processor::Cleaning(c) => e.1 is DataCleaning && c.name_view() == e.0 && c.rules() == seq![
            CleaningRule::RemoveNulls,
            CleaningRule::TrimWhitespace,
            CleaningRule::NormalizeCase(CaseType::Lower),
        ],
        Processor::Validation(v) => e.1 is DataValidation && v.name_view() == e.0 && v.rules().len() == 2
            && (v.rules()[0] matches ValidationRule::RequiredField(f) && f@ == "id"@)
            && (v.rules()[1] matches ValidationRule::RequiredField(f) && f@ == "timestamp"@),
    }
}

fn source_kind(t: &DataSourceType) -> (k: SourceKind)
    ensures
        k == kind_of(*t),
{
    match t {
        DataSourceType::MessageQueue => SourceKind::Kafka,
        DataSourceType::WebSocket => SourceKind::WebSocket,
        DataSourceType::RestApi => SourceKind::RestApi,
    }
}

/// The sources of a configuration: a stopped, disconnected source for each enabled source,
/// of the kind of its type, in order.
pub fn initialize_sources(config: &IngestionConfig) -> (v: Vec<SourceState>)
    ensures
        v@.len() == enabled_sources(config.sources@).len(),
        forall|i: int| 0 <= i < v@.len() ==> {
            &&& (#[trigger] v@[i]).name@ == enabled_sources(config.sources@)[i].0
            &&& v@[i].kind == enabled_sources(config.sources@)[i].1
            &&& !v@[i].is_running
            &&& v@[i].stats.connection_status is Disconnected
        },
{
    let ghost all = config.sources@;
    let mut v: Vec<SourceState> = Vec::new();
    let mut i: usize = 0;
    while i < config.sources.len()
        invariant
            all == config.sources@,
            i <= all.len(),
            v@.len() == enabled_sources(all.subrange(0, i as int)).len(),
            forall|j: int| 0 <= j < v@.len() ==> {
                &&& (#[trigger] v@[j]).name@ == enabled_sources(all.subrange(0, i as int))[j].0
                &&& v@[j].kind == enabled_sources(all.subrange(0, i as int))[j].1
                &&& !v@[j].is_running
                &&& v@[j].stats.connection_status is Disconnected
            },
        decreases config.sources.len() - i,
    {
        proof {
            assert(all.subrange(0, i + 1).drop_last() =~= all.subrange(0, i as int));
            assert(all.subrange(0, i + 1).last() == all[i as int]);
        }
        let entry = &config.sources[i];
        if entry.1.enabled {
            let kind = source_kind(&entry.1.source_type);
            let source = SourceState::new(entry.0.clone(), kind);
            v.push(source);
        }
        i = i + 1;
    }
    assert(all.subrange(0, all.len() as int) =~= all);
    v
}

fn copy_processor_type(t: &ProcessorType) -> (c: ProcessorType)
    ensures
        c == *t,
{
    match t {
        ProcessorType::DataCleaning => ProcessorType::DataCleaning,
        ProcessorType::DataTransformation => ProcessorType::DataTransformation,
        ProcessorType::DataValidation => ProcessorType::DataValidation,
        ProcessorType::DataEnrichment => ProcessorType::DataEnrichment,
        ProcessorType::DataFiltering => ProcessorType::DataFiltering,
    }
}

fn copy_processor_config(c: &ProcessorConfig) -> (d: ProcessorConfig)
    ensures
        d.processor_type == c.processor_type,
        d.enabled == c.enabled,
        d.order == c.order,
        d.parameters@ == c.parameters@,
{
    ProcessorConfig {
        processor_type: copy_processor_type(&c.processor_type),
        enabled: c.enabled,
        order: c.order,
        parameters: c.parameters.clone(),
    }
}

/// The processors of a configuration: a cleaner or a validator for each enabled cleaning or
/// validation step, in order; steps of the other types have no processor and are left out.
pub fn initialize_processors(config: &IngestionConfig) -> (v: Vec<Processor>)
    ensures
        v@.len() == enabled_processors(config.processors@).len(),
        forall|i: int| 0 <= i < v@.len() ==> built_for(#[trigger] v@[i], enabled_processors(config.processors@)[i]),
{
    let ghost all = config.processors@;
    let mut v: Vec<Processor> = Vec::new();
    let mut i: usize = 0;
    while i < config.processors.len()
        invariant
            all == config.processors@,
            i <= all.len(),
            v@.len() == enabled_processors(all.subrange(0, i as int)).len(),
            forall|j: int| 0 <= j < v@.len() ==> built_for(#[trigger] v@[j], enabled_processors(all.subrange(0, i as int))[j]),
        decreases config.processors.len() - i,
    {
        proof {
            assert(all.subrange(0, i + 1).drop_last() =~= all.subrange(0, i as int));
            assert(all.subrange(0, i + 1).last() == all[i as int]);
        }
        let entry = &config.processors[i];
        if entry.1.enabled {
            match entry.1.processor_type {
                ProcessorType::DataCleaning => {
                    let p = DataCleaningProcessor::new(entry.0.clone(), copy_processor_config(&entry.1));
                    v.push(Processor::Cleaning(p));
                },
                ProcessorType::DataValidation => {
                    let p = DataValidationProcessor::new(entry.0.clone(), copy_processor_config(&entry.1));
                    v.push(Processor::Validation(p));
                },
                _ => {},
            }
        }
        i = i + 1;
    }
    assert(all.subrange(0, all.len() as int) =~= all);
    v
}

/// The service's figures: whether it runs, how many sources and processors it has, how many
/// tasks run, and how many records went through or failed.
#[derive(Debug, Clone, Copy)]
pub struct ServiceStatus {
    pub is_running: bool,
    pub sources_count: u32,
    pub processors_count: u32,
    pub active_tasks: u32,
    pub total_records_processed: u64,
    pub total_records_failed: u64,
}

/// The data ingestion service: its settings, the sources and processors built from them, its
/// task scheduler, whether it runs, and its record counts.
#[derive(Debug)]
pub struct DataIngestionService {
    pub config: IngestionConfig,
    pub sources: Vec<SourceState>,
    pub processors: Vec<Processor>,
    pub scheduler: TaskScheduler,
    pub is_running: bool,
    pub records_processed: u64,
    pub records_failed: u64,
}

/// Whether `v` holds, in order, sources of the names and kinds `e` that run and are connected.
pub open spec fn running_sources(v: Seq<SourceState>, e: Seq<(Seq<char>, SourceKind)>) -> bool {
    &&& v.len() == e.len()
    &&& forall|i: int| 0 <= i < v.len() ==> {
        &&& (#[trigger] v[i]).name@ == e[i].0
        &&& v[i].kind == e[i].1
        &&& v[i].is_running
        &&& v[i].stats.connection_status is Connected
    }
}

/// Whether `v` holds, in order, sources of the names and kinds `e` that are stopped and
/// disconnected.
pub open spec fn stopped_sources(v: Seq<SourceState>, e: Seq<(Seq<char>, SourceKind)>) -> bool {
    &&& v.len() == e.len()
    &&& forall|i: int| 0 <= i < v.len() ==> {
        &&& (#[trigger] v[i]).name@ == e[i].0
        &&& v[i].kind == e[i].1
        &&& !v[i].is_running
        &&& v[i].stats.connection_status is Disconnected
    }
}

/// The names and kinds of sources.
pub open spec fn source_names(v: Seq<SourceState>) -> Seq<(Seq<char>, SourceKind)> {
    v.map_values(|s: SourceState| (s.name@, s.kind))
}

/// Whether `v` holds, in order, the processors built for `e`.
pub open spec fn built_processors(v: Seq<Processor>, e: Seq<(Seq<char>, ProcessorType)>) -> bool {
    &&& v.len() == e.len()
    &&& forall|i: int| 0 <= i < v.len() ==> built_for(#[trigger] v[i], e[i])
}

impl DataIngestionService {
    /// A stopped service for valid settings, with no sources, processors or tasks yet; invalid
    /// settings are refused with the message of their first problem.
    pub fn new(config: IngestionConfig) -> (r: Result<Self, String>)
        ensures
            r is Ok <==> config_ok(config),
            r matches Err(e) ==> refusal_message(config, e@),
            r matches Ok(s) ==> {
                &&& s.config == config
                &&& s.sources@.len() == 0
                &&& s.processors@.len() == 0
                &&& !s.is_running
                &&& !s.scheduler.active()
                &&& s.scheduler.running().len() == 0
                &&& s.scheduler.queue().len() == 0
                &&& s.scheduler.wf()
                &&& s.records_processed == 0
                &&& s.records_failed == 0
            },
    {
        match config.validate() {
            Err(e) => Err(e),
            Ok(()) => {
                let scheduler = TaskScheduler::new(SchedulerConfig::default());
                Ok(DataIngestionService {
                    config,
                    sources: Vec::new(),
                    processors: Vec::new(),
                    scheduler,
                    is_running: false,
                    records_processed: 0,
                    records_failed: 0,
                })
            },
        }
    }

    /// Starts the service. A running service refuses and stays as it was. Otherwise it runs,
    /// builds its sources and processors from its settings and starts its scheduler; when the
    /// scheduler refuses, so does the service, with the sources built but not started; else
    /// every source is started.
    pub fn start(&mut self) -> (r: Result<(), String>)
        requires
            old(self).scheduler.wf(),
        ensures
            old(self).is_running ==> (r matches Err(e) && e@ == "数据采集服务已在运行中"@
                && *final(self) == *old(self)),
            !old(self).is_running ==> {
                &&& final(self).is_running
                &&& final(self).config == old(self).config
                &&& built_processors(final(self).processors@, enabled_processors(old(self).config.processors@))
                &&& final(self).scheduler.active()
                &&& final(self).scheduler.wf()
                &&& final(self).scheduler.running() == old(self).scheduler.running()
                &&& final(self).scheduler.queue() == old(self).scheduler.queue()
                &&& final(self).records_processed == old(self).records_processed
                &&& final(self).records_failed == old(self).records_failed
                &&& old(self).scheduler.active() ==> (r matches Err(e) && e@ == "调度器已在运行中"@
                    && stopped_sources(final(self).sources@, enabled_sources(old(self).config.sources@)))
                &&& !old(self).scheduler.active() ==> (r is Ok
                    && running_sources(final(self).sources@, enabled_sources(old(self).config.sources@)))
            },
    {
        if self.is_running {
            return Err("数据采集服务已在运行中".to_string());
        }
        self.is_running = true;
        self.sources = initialize_sources(&self.config);
        self.processors = initialize_processors(&self.config);
        match self.scheduler.start() {
            Err(e) => return Err(e),
            Ok(()) => {},
        }
        let ghost names = enabled_sources(self.config.sources@);
        let ghost mid = *self;
        let mut i: usize = 0;
        while i < self.sources.len()
            invariant
                names == enabled_sources(self.config.sources@),
                self.is_running,
                self.config == mid.config,
                self.processors == mid.processors,
                self.scheduler == mid.scheduler,
                self.records_processed == mid.records_processed,
                self.records_failed == mid.records_failed,
                self.sources@.len() == names.len(),
                i <= self.sources@.len(),
                forall|j: int| 0 <= j < self.sources@.len() ==> {
                    &&& (#[trigger] self.sources@[j]).name@ == names[j].0
                    &&& self.sources@[j].kind == names[j].1
                },
                forall|j: int| 0 <= j < i ==> {
                    &&& (#[trigger] self.sources@[j]).is_running
                    &&& self.sources@[j].stats.connection_status is Connected
                },
                forall|j: int| i <= j < self.sources@.len() ==> !(#[trigger] self.sources@[j]).is_running,
            decreases self.sources.len() - i,
        {
            let _ = self.sources[i].start();
            i = i + 1;
        }
        Ok(())
    }

    /// Stops the service: it no longer runs, its scheduler stops and cancels its started
    /// tasks, whose identifiers come back, and every source is stopped.
    pub fn stop(&mut self) -> (cancelled: Vec<String>)
        requires
            old(self).scheduler.wf(),
        ensures
            !final(self).is_running,
            final(self).config == old(self).config,
            final(self).processors == old(self).processors,
            !final(self).scheduler.active(),
            final(self).scheduler.running().len() == 0,
            final(self).scheduler.queue() == old(self).scheduler.queue(),
            final(self).scheduler.wf(),
            string_views(cancelled@) == rec_ids(old(self).scheduler.running()),
            stopped_sources(final(self).sources@, source_names(old(self).sources@)),
            final(self).records_processed == old(self).records_processed,
            final(self).records_failed == old(self).records_failed,
    {
        self.is_running = false;
        let cancelled = self.scheduler.stop();
        let ghost names = source_names(self.sources@);
        let ghost mid = *self;
        let mut i: usize = 0;
        while i < self.sources.len()
            invariant
                names == source_names(old(self).sources@),
                !self.is_running,
                self.config == mid.config,
                self.processors == mid.processors,
                self.scheduler == mid.scheduler,
                self.records_processed == mid.records_processed,
                self.records_failed == mid.records_failed,
                self.sources@.len() == names.len(),
                i <= self.sources@.len(),
                forall|j: int| 0 <= j < self.sources@.len() ==> {
                    &&& (#[trigger] self.sources@[j]).name@ == names[j].0
                    &&& self.sources@[j].kind == names[j].1
                },
                forall|j: int| 0 <= j < i ==> {
                    &&& !(#[trigger] self.sources@[j]).is_running
                    &&& self.sources@[j].stats.connection_status is Disconnected
                },
            decreases self.sources.len() - i,
        {
            self.sources[i].stop();
            i = i + 1;
        }
        cancelled
    }

    /// Runs a record through the processors in order and counts it as processed, or as failed
    /// with the refusing processor's message; the counts stop at their largest value.
    pub fn process(&mut self, record: DataRecord) -> (r: Result<DataRecord, String>)
        requires
            forall|i: int| 0 <= i < old(self).processors@.len() ==> match #[trigger] old(self).processors@[i] {
                Processor::Cleaning(c) => c.rules().len() <= u32::MAX,
                Processor::Validation(v) => v.rules().len() <= u32::MAX,
            },
        ensures
            match r {
                Ok(out) => crate::processors::pipeline_ok(old(self).processors@, record, out)
                    && final(self).records_processed == old(self).records_processed.saturating_add(1)
                    && final(self).records_failed == old(self).records_failed,
                Err(e) => crate::processors::pipeline_fails(old(self).processors@, record, e@)
                    && final(self).records_failed == old(self).records_failed.saturating_add(1)
                    && final(self).records_processed == old(self).records_processed,
            },
            final(self).processors == old(self).processors,
            final(self).sources == old(self).sources,
            final(self).is_running == old(self).is_running,
            final(self).config == old(self).config,
    {
        let r = process_record(&self.processors, record);
        match &r {
            Ok(_) => { self.records_processed = self.records_processed.saturating_add(1); },
            Err(_) => { self.records_failed = self.records_failed.saturating_add(1); },
        }
        r
    }

    /// The service's figures; the counts of sources, processors and running tasks are taken
    /// modulo 2^32, cast to 32 bits.
    pub fn get_status(&self) -> (st: ServiceStatus)
        requires
            sum_records(self.scheduler.running(), true) <= u64::MAX,
            sum_records(self.scheduler.running(), false) <= u64::MAX,
        ensures
            st.is_running == self.is_running,
            st.sources_count == self.sources@.len() as u32,
            st.processors_count == self.processors@.len() as u32,
            st.active_tasks == count_status(self.scheduler.running(), |s: TaskStatus| s is Running) as u32,
            st.total_records_processed == self.records_processed,
            st.total_records_failed == self.records_failed,
    {
        let stats = self.scheduler.get_task_stats();
        ServiceStatus {
            is_running: self.is_running,
            sources_count: self.sources.len() as u32,
            processors_count: self.processors.len() as u32,
            active_tasks: stats.running_tasks as u32,
            total_records_processed: self.records_processed,
            total_records_failed: self.records_failed,
        }
    }
}

} // verus!
