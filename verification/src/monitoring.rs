//! Health levels and checks of the monitoring service, and its alert rules.
//! Percentages and metric values are held in hundredths (`8000` is 80.00%).
use vstd::prelude::*;
use std::collections::HashMap;
use crate::text::{str_eq, chars_of, string_of};
use crate::ambient::new_uuid_text;
use crate::format::{append_chars, fixed_chars, fixed_text, div_round_even, div_round_even_exec};

verus! {

/// The health of a component or of the whole service.
#[derive(Debug, Clone, Copy)]
pub enum HealthStatusLevel {
    /// Working.
    Healthy,
    /// Working, with a problem to look at.
    Warning,
    /// Not working.
    Unhealthy,
}

/// The severity of a level: healthy 0, warning 1, unhealthy 2.
pub open spec fn rank(l: HealthStatusLevel) -> nat {
    match l {
        HealthStatusLevel::Healthy => 0,
        HealthStatusLevel::Warning => 1,
        HealthStatusLevel::Unhealthy => 2,
    }
}

/// The worse of two levels.
pub open spec fn worse(a: HealthStatusLevel, b: HealthStatusLevel) -> HealthStatusLevel {
    if rank(b) > rank(a) { b } else { a }
}

/// The overall level of a list of component levels: the worst of them, healthy
/// for none.
pub open spec fn overall_level(levels: Seq<HealthStatusLevel>) -> HealthStatusLevel
    decreases levels.len(),
{
    if levels.len() == 0 {
        HealthStatusLevel::Healthy
    } else {
        worse(overall_level(levels.drop_last()), levels.last())
    }
}

/// The level a stored status name stands for: `Warning`, `Unhealthy`, and healthy
/// for anything else.
pub open spec fn level_of_name(s: Seq<char>) -> HealthStatusLevel {
    if s == "Warning"@ {
        HealthStatusLevel::Warning
    } else if s == "Unhealthy"@ {
        HealthStatusLevel::Unhealthy
    } else {
        HealthStatusLevel::Healthy
    }
}

/// Reads a stored status name (see `level_of_name`).
pub fn parse_status_level(s: &str) -> (l: HealthStatusLevel)
    ensures
        l == level_of_name(s@),
{
    if str_eq(s, "Warning") {
        HealthStatusLevel::Warning
    } else if str_eq(s, "Unhealthy") {
        HealthStatusLevel::Unhealthy
    } else {
        HealthStatusLevel::Healthy
    }
}

/// Folds one component level into the overall level: an unhealthy component
/// makes the whole unhealthy, a warning turns a healthy whole into a warning.
pub fn combine_levels(overall: HealthStatusLevel, status: HealthStatusLevel) -> (l: HealthStatusLevel)
    ensures
        l == worse(overall, status),
{
    match status {
        HealthStatusLevel::Unhealthy => HealthStatusLevel::Unhealthy,
        HealthStatusLevel::Warning => match overall {
            HealthStatusLevel::Healthy => HealthStatusLevel::Warning,
            _ => overall,
        },
        HealthStatusLevel::Healthy => overall,
    }
}

/// The overall level of the latest check results.
pub fn overall_health(levels: &Vec<HealthStatusLevel>) -> (l: HealthStatusLevel)
    ensures
        l == overall_level(levels@),
{
    let mut overall = HealthStatusLevel::Healthy;
    let mut i: usize = 0;
    while i < levels.len()
        invariant
            i <= levels@.len(),
            overall == overall_level(levels@.subrange(0, i as int)),
        decreases levels.len() - i,
    {
        assert(levels@.subrange(0, i + 1).drop_last() =~= levels@.subrange(0, i as int));
        overall = combine_levels(overall, levels[i]);
        i = i + 1;
    }
    assert(levels@.subrange(0, levels@.len() as int) =~= levels@);
    overall
}

/// The overall level is the worst component level: it is at least as severe as
/// every component, and equal to one of them unless there are none.
pub proof fn lemma_overall_is_worst(levels: Seq<HealthStatusLevel>)
    ensures
        forall|i: int| 0 <= i < levels.len() ==> rank(#[trigger] levels[i]) <= rank(overall_level(levels)),
        levels.len() == 0 ==> overall_level(levels) is Healthy,
        levels.len() > 0 ==> exists|i: int| 0 <= i < levels.len() && #[trigger] levels[i] == overall_level(levels),
    decreases levels.len(),
{
    if levels.len() > 0 {
        let rest = levels.drop_last();
        lemma_overall_is_worst(rest);
        assert forall|i: int| 0 <= i < levels.len() implies rank(#[trigger] levels[i]) <= rank(overall_level(levels)) by {
            if i < rest.len() {
                assert(levels[i] == rest[i]);
            }
        }
        if rank(levels.last()) > rank(overall_level(rest)) || rest.len() == 0 {
            assert(levels[levels.len() - 1] == levels.last());
            if rest.len() == 0 {
                assert(overall_level(levels) == worse(HealthStatusLevel::Healthy, levels.last()));
                if !(rank(levels.last()) > 0) {
                    assert(levels.last() is Healthy);
                }
            }
        } else {
            let i = choose|i: int| 0 <= i < rest.len() && #[trigger] rest[i] == overall_level(rest);
            assert(levels[i] == rest[i]);
        }
    }
}

/// The overall level does not depend on the order of the components.
pub proof fn lemma_overall_order_free(a: Seq<HealthStatusLevel>, b: Seq<HealthStatusLevel>)
    requires
        a.to_multiset() == b.to_multiset(),
    ensures
        overall_level(a) == overall_level(b),
{
    lemma_overall_is_worst(a);
    lemma_overall_is_worst(b);
    broadcast use vstd::seq_lib::group_to_multiset_ensures;
    if a.len() > 0 {
        let i = choose|i: int| 0 <= i < a.len() && #[trigger] a[i] == overall_level(a);
        let j = choose|j: int| 0 <= j < b.len() && #[trigger] b[j] == overall_level(b);
        assert(a.to_multiset().count(a[i]) > 0);
        assert(b.contains(a[i]));
        let k = choose|k: int| 0 <= k < b.len() && b[k] == a[i];
        assert(b.to_multiset().count(b[j]) > 0);
        assert(a.contains(b[j]));
        let m = choose|m: int| 0 <= m < a.len() && a[m] == b[j];
        assert(rank(b[k]) <= rank(overall_level(b)));
        assert(rank(a[m]) <= rank(overall_level(a)));
    } else {
        assert(b.to_multiset().len() == 0);
    }
}

/// What a health check looks at. Thresholds are percentages in hundredths.
#[derive(Debug)]
pub enum HealthCheckType {
    /// The database connection.
    DatabaseConnection,
    /// An HTTP endpoint.
    HttpEndpoint { url: String },
    /// A TCP port.
    TcpPort { host: String, port: u16 },
    /// Disk usage of a path.
    DiskSpace { path: String, threshold: u64 },
    /// Memory usage.
    MemoryUsage { threshold: u64 },
    /// CPU usage.
    CpuUsage { threshold: u64 },
}

/// A configured health check.
#[derive(Debug)]
pub struct HealthCheck {
    /// Name of the check.
    pub name: String,
    /// What it looks at.
    pub check_type: HealthCheckType,
    /// Seconds between runs.
    pub interval: u64,
    /// Timeout in seconds.
    pub timeout: u64,
    /// Whether it runs.
    pub enabled: bool,
}

fn check(name: &str, check_type: HealthCheckType, interval: u64, timeout: u64) -> (c: HealthCheck)
    ensures
        c.name@ == name@,
        c.check_type == check_type,
        c.interval == interval,
        c.timeout == timeout,
        c.enabled,
{
    HealthCheck { name: name.to_string(), check_type, interval, timeout, enabled: true }
}

/// The checks run by default: the database connection every minute, disk usage
/// of `/` every five minutes against 90%, memory usage against 85% and CPU usage
/// against 80% every minute; all enabled.
pub fn default_health_checks() -> (v: Vec<HealthCheck>)
    ensures
        v@.len() == 4,
        v@[0].name@ == "database_connection"@ && v@[0].check_type is DatabaseConnection && v@[0].interval == 60
            && v@[0].timeout == 10,
        v@[1].name@ == "disk_space"@ && v@[1].interval == 300 && v@[1].timeout == 5,
        v@[1].check_type matches HealthCheckType::DiskSpace { path, threshold } && path@ == "/"@ && threshold == 9000,
        v@[2].name@ == "memory_usage"@ && v@[2].check_type == (HealthCheckType::MemoryUsage { threshold: 8500 })
            && v@[2].interval == 60 && v@[2].timeout == 5,
        v@[3].name@ == "cpu_usage"@ && v@[3].check_type == (HealthCheckType::CpuUsage { threshold: 8000 })
            && v@[3].interval == 60 && v@[3].timeout == 5,
        forall|i: int| 0 <= i < 4 ==> (#[trigger] v@[i]).enabled,
{
    let disk = HealthCheckType::DiskSpace { path: "/".to_string(), threshold: 9000 };
    vec![
        check("database_connection", HealthCheckType::DatabaseConnection, 60, 10),
        check("disk_space", disk, 300, 5),
        check("memory_usage", HealthCheckType::MemoryUsage { threshold: 8500 }, 60, 5),
        check("cpu_usage", HealthCheckType::CpuUsage { threshold: 8000 }, 60, 5),
    ]
}

/// A percentage in hundredths printed with one decimal, as `{:.1}` prints it.
pub open spec fn percent_text(hundredths: nat) -> Seq<char> {
    fixed_text(div_round_even(hundredths, 10), 1)
}

/// The outcome of a usage check of `label` (`磁盘`, `内存` or `CPU`): a warning
/// when the usage is above the threshold, healthy otherwise, with the message the
/// service stores.
pub open spec fn usage_outcome(label: Seq<char>, usage: nat, threshold: nat) -> (HealthStatusLevel, Seq<char>) {
    if usage > threshold {
        (HealthStatusLevel::Warning, label + "使用率 "@ + percent_text(usage) + "% 超过阈值 "@ + percent_text(threshold)
            + "%"@)
    } else {
        (HealthStatusLevel::Healthy, label + "使用率 "@ + percent_text(usage) + "% 正常"@)
    }
}

fn percent_chars(hundredths: u64) -> (v: Vec<char>)
    ensures
        v@ == percent_text(hundredths as nat),
{
    let t = div_round_even_exec(hundredths as u128, 10);
    fixed_chars(t, 1)
}

fn push_str(v: &mut Vec<char>, s: &str)
    ensures
        final(v)@ == old(v)@ + s@,
{
    let w = chars_of(s);
    append_chars(v, &w);
}

/// Judges a usage reading against its threshold (see `usage_outcome`).
pub fn usage_check(label: &str, usage: u64, threshold: u64) -> (r: (HealthStatusLevel, String))
    ensures
        (r.0, r.1@) == usage_outcome(label@, usage as nat, threshold as nat),
{
    let mut msg = chars_of(label);
    push_str(&mut msg, "使用率 ");
    let u = percent_chars(usage);
    append_chars(&mut msg, &u);
    if usage > threshold {
        push_str(&mut msg, "% 超过阈值 ");
        let t = percent_chars(threshold);
        append_chars(&mut msg, &t);
        push_str(&mut msg, "%");
        (HealthStatusLevel::Warning, string_of(&msg))
    } else {
        push_str(&mut msg, "% 正常");
        (HealthStatusLevel::Healthy, string_of(&msg))
    }
}

/// The disk check: the reading stands at 50% until a real measurement exists.
pub fn check_disk_space(threshold: u64) -> (r: (HealthStatusLevel, String))
    ensures
        (r.0, r.1@) == usage_outcome("磁盘"@, 5000, threshold as nat),
{
    usage_check("磁盘", 5000, threshold)
}

/// The memory check: the reading stands at 60% until a real measurement exists.
pub fn check_memory_usage(threshold: u64) -> (r: (HealthStatusLevel, String))
    ensures
        (r.0, r.1@) == usage_outcome("内存"@, 6000, threshold as nat),
{
    usage_check("内存", 6000, threshold)
}

/// The CPU check: the reading stands at 45% until a real measurement exists.
pub fn check_cpu_usage(threshold: u64) -> (r: (HealthStatusLevel, String))
    ensures
        (r.0, r.1@) == usage_outcome("CPU"@, 4500, threshold as nat),
{
    usage_check("CPU", 4500, threshold)
}

/// Alerting settings.
#[derive(Debug)]
pub struct AlertConfig {
    /// Whether rules are evaluated.
    pub enabled: bool,
    /// Seconds between evaluations.
    pub check_interval: u64,
    /// Days alerts are kept.
    pub retention_days: u32,
    /// Where notifications go.
    pub notifications: NotificationConfig,
}

/// Where notifications go.
#[derive(Debug)]
pub struct NotificationConfig {
    /// E-mail settings.
    pub email: Option<EmailConfig>,
    /// Webhook settings.
    pub webhook: Option<WebhookConfig>,
}

/// E-mail notification settings.
#[derive(Debug)]
pub struct EmailConfig {
    /// SMTP server.
    pub smtp_server: String,
    /// SMTP port.
    pub smtp_port: u16,
    /// SMTP user.
    pub username: String,
    /// SMTP password.
    pub password: String,
    /// Sender.
    pub from: String,
    /// Recipients.
    pub to: Vec<String>,
}

/// Webhook notification settings.
#[derive(Debug)]
pub struct WebhookConfig {
    /// Address called.
    pub url: String,
    /// Headers sent.
    pub headers: HashMap<String, String>,
}

impl Default for NotificationConfig {
    fn default() -> (c: Self)
        ensures
            c.email is None,
            c.webhook is None,
    {
        NotificationConfig { email: None, webhook: None }
    }
}

impl Default for AlertConfig {
    fn default() -> (c: Self)
        ensures
            c.enabled,
            c.check_interval == 60,
            c.retention_days == 30,
            c.notifications.email is None,
            c.notifications.webhook is None,
    {
        AlertConfig { enabled: true, check_interval: 60, retention_days: 30, notifications: NotificationConfig::default() }
    }
}

/// How a metric is compared with a rule's threshold.
#[derive(Debug, Clone, Copy)]
pub enum AlertCondition {
    /// Above the threshold.
    GreaterThan,
    /// Below the threshold.
    LessThan,
    /// Within 0.01 of the threshold.
    Equal,
    /// Not within 0.01 of the threshold.
    NotEqual,
}

/// How serious an alert is.
#[derive(Debug, Clone, Copy)]
pub enum AlertSeverity {
    /// For information.
    Info,
    /// A warning.
    Warning,
    /// An error.
    Error,
    /// Critical.
    Critical,
}

/// Where an alert stands.
#[derive(Debug, Clone, Copy)]
pub enum AlertStatus {
    /// Raised and not resolved.
    Triggered,
    /// Resolved.
    Resolved,
    /// Seen by someone.
    Acknowledged,
}

/// A rule that raises an alert when a metric crosses a threshold. Values are in
/// hundredths.
#[derive(Debug)]
pub struct AlertRule {
    /// Identifier.
    pub id: String,
    /// Name.
    pub name: String,
    /// Description.
    pub description: String,
    /// Metric looked at.
    pub metric_name: String,
    /// Comparison.
    pub condition: AlertCondition,
    /// Threshold, in hundredths.
    pub threshold: i64,
    /// Seconds the condition must hold.
    pub duration: u64,
    /// Severity of the alert raised.
    pub severity: AlertSeverity,
    /// Whether the rule is evaluated.
    pub enabled: bool,
}

/// A raised alert.
#[derive(Debug)]
pub struct Alert {
    /// Identifier.
    pub id: String,
    /// The rule that raised it.
    pub rule_id: String,
    /// Name.
    pub name: String,
    /// Description.
    pub description: String,
    /// Severity.
    pub severity: AlertSeverity,
    /// Where it stands.
    pub status: AlertStatus,
    /// When it was raised, in seconds since the Unix epoch.
    pub triggered_at: i64,
    /// When it was resolved.
    pub resolved_at: Option<i64>,
    /// The metric value, in hundredths.
    pub current_value: i64,
    /// The threshold, in hundredths.
    pub threshold: i64,
    /// Extra details.
    pub details: HashMap<String, String>,
}

/// Whether `value` meets `cond` against `threshold` (both in hundredths, so
/// "within 0.01" means equal).
pub open spec fn condition_holds(cond: AlertCondition, value: int, threshold: int) -> bool {
    match cond {
        AlertCondition::GreaterThan => value > threshold,
        AlertCondition::LessThan => value < threshold,
        AlertCondition::Equal => value == threshold,
        AlertCondition::NotEqual => value != threshold,
    }
}

/// The reading a rule is evaluated against until real metrics are wired in: CPU
/// 75%, memory 82%, disk 65%, and 0 for any other metric (in hundredths).
pub open spec fn simulated_metric(name: Seq<char>) -> i64 {
    if name == "cpu_usage"@ {
        7500
    } else if name == "memory_usage"@ {
        8200
    } else if name == "disk_usage"@ {
        6500
    } else {
        0
    }
}

/// The reading for a metric (see `simulated_metric`).
pub fn metric_value(name: &str) -> (v: i64)
    ensures
        v == simulated_metric(name@),
{
    if str_eq(name, "cpu_usage") {
        7500
    } else if str_eq(name, "memory_usage") {
        8200
    } else if str_eq(name, "disk_usage") {
        6500
    } else {
        0
    }
}

/// Whether `value` meets `cond` against `threshold`.
pub fn condition_met(cond: AlertCondition, value: i64, threshold: i64) -> (b: bool)
    ensures
        b == condition_holds(cond, value as int, threshold as int),
{
    match cond {
        AlertCondition::GreaterThan => value > threshold,
        AlertCondition::LessThan => value < threshold,
        AlertCondition::Equal => value == threshold,
        AlertCondition::NotEqual => value != threshold,
    }
}

/// Whether a rule fires now.
pub open spec fn rule_fires(rule: AlertRule) -> bool {
    condition_holds(rule.condition, simulated_metric(rule.metric_name@) as int, rule.threshold as int)
}

/// Whether an alert is raised and unresolved for rule `rule_id`.
pub open spec fn active_for(alerts: Seq<Alert>, rule_id: Seq<char>) -> bool {
    exists|i: int| 0 <= i < alerts.len() && (#[trigger] alerts[i]).rule_id@ == rule_id && alerts[i].status is Triggered
}

/// Whether one of the rules at the positions `raised` has the identifier `id`.
pub open spec fn raised_id(rules: Seq<AlertRule>, raised: Seq<int>, id: Seq<char>) -> bool {
    exists|j: int| 0 <= j < raised.len() && rules[#[trigger] raised[j]].id@ == id
}

/// The positions of the rules that a round of checks raises an alert for, in rule
/// order, given the alerts before it: each enabled rule that fires while no alert of
/// its identifier is unresolved, neither from before nor raised earlier in the round.
pub open spec fn raised_rules(alerts: Seq<Alert>, rules: Seq<AlertRule>) -> Seq<int>
    decreases rules.len(),
{
    if rules.len() == 0 {
        Seq::empty()
    } else {
        let prev = raised_rules(alerts, rules.drop_last());
        let k = rules.len() - 1;
        let r = rules[k];
        if r.enabled && rule_fires(r) && !active_for(alerts, r.id@) && !raised_id(rules, prev, r.id@) {
            prev.push(k)
        } else {
            prev
        }
    }
}

/// Whether `a` is the alert that rule `r` raises at `now`: unresolved, of the
/// rule's identifier and threshold, at the reading of 75%.
pub open spec fn raised_by(a: Alert, r: AlertRule, now: i64) -> bool {
    &&& a.rule_id@ == r.id@
    &&& a.status is Triggered
    &&& a.triggered_at == now
    &&& a.current_value == 7500
    &&& a.threshold == r.threshold
}

/// Whether no rule has two raised, unresolved alerts.
pub open spec fn one_active_per_rule(alerts: Seq<Alert>) -> bool {
    forall|i: int, j: int|
        0 <= i < j < alerts.len() && (#[trigger] alerts[i]).status is Triggered && (#[trigger] alerts[j]).status is Triggered
            ==> alerts[i].rule_id@ != alerts[j].rule_id@
}

fn rule(name: &str, description: &str, metric: &str, threshold: i64, duration: u64, severity: AlertSeverity)
    -> (r: AlertRule)
    ensures
        r.name@ == name@,
        r.description@ == description@,
        r.metric_name@ == metric@,
        r.condition is GreaterThan,
        r.threshold == threshold,
        r.duration == duration,
        r.severity == severity,
        r.enabled,
{
    AlertRule {
        id: new_uuid_text(),
        name: name.to_string(),
        description: description.to_string(),
        metric_name: metric.to_string(),
        condition: AlertCondition::GreaterThan,
        threshold,
        duration,
        severity,
        enabled: true,
    }
}

/// The rules installed by default: CPU above 80% and memory above 85% for five
/// minutes (warnings), disk above 90% for ten minutes (error).
pub fn default_alert_rules() -> (v: Vec<AlertRule>)
    ensures
        v@.len() == 3,
        v@[0].name@ == "高CPU使用率"@ && v@[0].description@ == "CPU使用率超过80%"@,
        v@[0].metric_name@ == "cpu_usage"@ && v@[0].threshold == 8000 && v@[0].duration == 300
            && v@[0].severity is Warning,
        v@[1].name@ == "高内存使用率"@ && v@[1].description@ == "内存使用率超过85%"@,
        v@[1].metric_name@ == "memory_usage"@ && v@[1].threshold == 8500 && v@[1].duration == 300
            && v@[1].severity is Warning,
        v@[2].name@ == "磁盘空间不足"@ && v@[2].description@ == "磁盘使用率超过90%"@,
        v@[2].metric_name@ == "disk_usage"@ && v@[2].threshold == 9000 && v@[2].duration == 600
            && v@[2].severity is Error,
        forall|i: int| 0 <= i < 3 ==> (#[trigger] v@[i]).enabled && v@[i].condition is GreaterThan,
{
    vec![
        rule("高CPU使用率", "CPU使用率超过80%", "cpu_usage", 8000, 300, AlertSeverity::Warning),
        rule("高内存使用率", "内存使用率超过85%", "memory_usage", 8500, 300, AlertSeverity::Warning),
        rule("磁盘空间不足", "磁盘使用率超过90%", "disk_usage", 9000, 600, AlertSeverity::Error),
    ]
}

/// Evaluates the alert rules and keeps the alerts they raise.
#[derive(Debug)]
pub struct AlertManager {
    config: AlertConfig,
    rules: Vec<AlertRule>,
    alerts: Vec<Alert>,
}

impl AlertManager {
    /// No two unresolved alerts come from the same rule, and the rules can be
    /// counted in 32 bits.
    #[verifier::type_invariant]
    spec fn consistent(self) -> bool {
        one_active_per_rule(self.alerts@) && self.rules@.len() <= u32::MAX
    }

    /// The alerts raised so far, oldest first.
    pub closed spec fn alerts(&self) -> Seq<Alert> {
        self.alerts@
    }

    /// The rules.
    pub closed spec fn rules(&self) -> Seq<AlertRule> {
        self.rules@
    }

    /// Whether evaluation is switched on.
    pub closed spec fn enabled(&self) -> bool {
        self.config.enabled
    }

    /// A manager with the default rules and no alerts.
    pub fn new(config: AlertConfig) -> (m: Self)
        ensures
            m.alerts().len() == 0,
            m.rules().len() == 3,
            m.enabled() == config.enabled,
            one_active_per_rule(m.alerts()),
    {
        AlertManager { config, rules: default_alert_rules(), alerts: Vec::new() }
    }

    /// Whether `rule` fires against its current reading.
    pub fn evaluate_rule(rule: &AlertRule) -> (b: bool)
        ensures
            b == rule_fires(*rule),
    {
        let v = metric_value(rule.metric_name.as_str());
        condition_met(rule.condition, v, rule.threshold)
    }

    fn has_active(&self, rule_id: &str) -> (b: bool)
        ensures
            b == active_for(self.alerts(), rule_id@),
    {
        let mut i: usize = 0;
        while i < self.alerts.len()
            invariant
                i <= self.alerts@.len(),
                forall|j: int| 0 <= j < i ==> !((#[trigger] self.alerts@[j]).rule_id@ == rule_id@
                    && self.alerts@[j].status is Triggered),
            decreases self.alerts.len() - i,
        {
            let a = &self.alerts[i];
            let triggered = match a.status {
                AlertStatus::Triggered => true,
                _ => false,
            };
            if triggered && str_eq(a.rule_id.as_str(), rule_id) {
                return true;
            }
            i = i + 1;
        }
        false
    }

    /// Raises an alert for rule `k` at `now`, unless one raised by the same rule
    /// is still unresolved.
    fn trigger_alert(&mut self, k: usize, now: i64)
        requires
            k < old(self).rules().len(),
            one_active_per_rule(old(self).alerts()),
        ensures
            one_active_per_rule(final(self).alerts()),
            final(self).rules() == old(self).rules(),
            final(self).enabled() == old(self).enabled(),
            active_for(old(self).alerts(), old(self).rules()[k as int].id@) ==> (final(self).alerts()
                == old(self).alerts()),
            !active_for(old(self).alerts(), old(self).rules()[k as int].id@) ==> (final(self).alerts().len()
                == old(self).alerts().len() + 1 && final(self).alerts().drop_last() == old(self).alerts()
                && final(self).alerts().last().rule_id@ == old(self).rules()[k as int].id@
                && final(self).alerts().last().status is Triggered && final(self).alerts().last().triggered_at
                == now && final(self).alerts().last().current_value == 7500
                && final(self).alerts().last().threshold == old(self).rules()[k as int].threshold),
    {
        proof {
            use_type_invariant(&*self);
        }
        if self.has_active(self.rules[k].id.as_str()) {
            return;
        }
        let r = &self.rules[k];
        let alert = Alert {
            id: new_uuid_text(),
            rule_id: r.id.clone(),
            name: r.name.clone(),
            description: r.description.clone(),
            severity: r.severity,
            status: AlertStatus::Triggered,
            triggered_at: now,
            resolved_at: None,
            current_value: 7500,
            threshold: r.threshold,
            details: HashMap::new(),
        };
        let ghost before = self.alerts@;
        let mut alerts: Vec<Alert> = Vec::new();
        std::mem::swap(&mut alerts, &mut self.alerts);
        alerts.push(alert);
        proof {
            assert(alerts@.drop_last() =~= before);
            assert forall|i: int, j: int| 0 <= i < j < alerts@.len() && (#[trigger] alerts@[i]).status is Triggered
                && (#[trigger] alerts@[j]).status is Triggered implies alerts@[i].rule_id@
                != alerts@[j].rule_id@ by {
                if j == before.len() {
                    assert(before[i] == alerts@[i]);
                } else {
                    assert(before[i] == alerts@[i]);
                    assert(before[j] == alerts@[j]);
                }
            }
        }
        self.alerts = alerts;
    }

    /// Evaluates every enabled rule at `now`, raising an alert for each rule that
    /// fires and has no unresolved alert. Returns how many rules fired (whether or
    /// not a new alert was raised); nothing happens when alerting is off.
    pub fn check_alerts(&mut self, now: i64) -> (count: u32)
        ensures
            one_active_per_rule(final(self).alerts()),
            final(self).rules() == old(self).rules(),
            final(self).enabled() == old(self).enabled(),
            !old(self).enabled() ==> (count == 0 && final(self).alerts() == old(self).alerts()),
            old(self).enabled() ==> count == fired_count(old(self).rules()),
            final(self).alerts().subrange(0, old(self).alerts().len() as int) == old(self).alerts(),
            forall|i: int|
                old(self).alerts().len() <= i < final(self).alerts().len() ==> (#[trigger] final(self).alerts()[i]).status is Triggered,
            old(self).enabled() ==> final(self).alerts().len() == old(self).alerts().len() + raised_rules(
                old(self).alerts(),
                old(self).rules(),
            ).len(),
            old(self).enabled() ==> forall|i: int| 0 <= i < raised_rules(old(self).alerts(), old(self).rules()).len() ==> {
                &&& 0 <= raised_rules(old(self).alerts(), old(self).rules())[i] < old(self).rules().len()
                &&& raised_by(
                    #[trigger] final(self).alerts()[old(self).alerts().len() + i],
                    old(self).rules()[raised_rules(old(self).alerts(), old(self).rules())[i]],
                    now,
                )
            },
    {
        proof {
            use_type_invariant(&*self);
        }
        if !self.config.enabled {
            assert(self.alerts@.subrange(0, self.alerts@.len() as int) =~= self.alerts@);
            return 0;
        }
        let ghost a0 = self.alerts@;
        let mut count: u32 = 0;
        let mut k: usize = 0;
        assert(self.alerts@.subrange(0, a0.len() as int) =~= a0);
        while k < self.rules.len()
            invariant
                k <= self.rules@.len(),
                self.rules@ == old(self).rules@,
                self.config.enabled == old(self).config.enabled,
                self.rules@.len() <= u32::MAX,
                one_active_per_rule(self.alerts@),
                count == fired_count(self.rules@.subrange(0, k as int)),
                count <= k,
                a0.len() <= self.alerts@.len(),
                self.alerts@.subrange(0, a0.len() as int) == a0,
                forall|i: int| a0.len() <= i < self.alerts@.len() ==> (#[trigger] self.alerts@[i]).status is Triggered,
                self.alerts@.len() == a0.len() + raised_rules(a0, self.rules@.subrange(0, k as int)).len(),
                forall|i: int| 0 <= i < raised_rules(a0, self.rules@.subrange(0, k as int)).len() ==> {
                    &&& 0 <= #[trigger] raised_rules(a0, self.rules@.subrange(0, k as int))[i] < k
                    &&& raised_by(
                        self.alerts@[a0.len() + i],
                        self.rules@[raised_rules(a0, self.rules@.subrange(0, k as int))[i]],
                        now,
                    )
                },
            decreases self.rules.len() - k,
        {
            let ghost rules = self.rules@;
            let ghost sub = rules.subrange(0, k as int);
            let ghost sub1 = rules.subrange(0, k + 1);
            let ghost rr = raised_rules(a0, sub);
            let ghost before = self.alerts@;
            let ghost id = rules[k as int].id@;
            proof {
                assert(sub1.drop_last() =~= sub);
                lemma_fired_le(sub);
                assert(sub1[k as int] == rules[k as int]);
                assert(raised_id(sub1, rr, id) == raised_id(rules, rr, id)) by {
                    if raised_id(sub1, rr, id) {
                        let j = choose|j: int| 0 <= j < rr.len() && sub1[#[trigger] rr[j]].id@ == id;
                        assert(0 <= rr[j] < k);
                        assert(rules[rr[j]].id@ == id);
                    }
                    if raised_id(rules, rr, id) {
                        let j = choose|j: int| 0 <= j < rr.len() && rules[#[trigger] rr[j]].id@ == id;
                        assert(0 <= rr[j] < k);
                        assert(sub1[rr[j]].id@ == id);
                    }
                }
                assert(active_for(before, id) == (active_for(a0, id) || raised_id(rules, rr, id))) by {
                    if active_for(before, id) {
                        let i = choose|i: int| 0 <= i < before.len() && (#[trigger] before[i]).rule_id@ == id
                            && before[i].status is Triggered;
                        if i < a0.len() {
                            assert(before.subrange(0, a0.len() as int)[i] == before[i]);
                            assert(a0[i] == before[i]);
                        } else {
                            let j = i - a0.len();
                            assert(0 <= rr[j] < k);
                            assert(raised_by(before[a0.len() + j], rules[rr[j]], now));
                        }
                    }
                    if active_for(a0, id) {
                        let i = choose|i: int| 0 <= i < a0.len() && (#[trigger] a0[i]).rule_id@ == id
                            && a0[i].status is Triggered;
                        assert(before.subrange(0, a0.len() as int)[i] == before[i]);
                        assert(before[i] == a0[i]);
                    }
                    if raised_id(rules, rr, id) {
                        let j = choose|j: int| 0 <= j < rr.len() && rules[#[trigger] rr[j]].id@ == id;
                        assert(raised_by(before[a0.len() + j], rules[rr[j]], now));
                        assert(before[a0.len() + j].rule_id@ == id);
                    }
                }
            }
            let r = &self.rules[k];
            if r.enabled && Self::evaluate_rule(r) {
                self.trigger_alert(k, now);
                proof {
                    if self.alerts@.len() > before.len() {
                        assert(self.alerts@.subrange(0, a0.len() as int) =~= before.subrange(0, a0.len() as int));
                        assert forall|i: int| a0.len() <= i < self.alerts@.len() implies (#[trigger] self.alerts@[i]).status is Triggered by {
                            if i < before.len() {
                                assert(self.alerts@[i] == self.alerts@.drop_last()[i]);
                            }
                        }
                        assert(raised_rules(a0, sub1) == rr.push(k as int));
                        assert forall|i: int| 0 <= i < raised_rules(a0, sub1).len() implies {
                            &&& 0 <= #[trigger] raised_rules(a0, sub1)[i] < k + 1
                            &&& raised_by(self.alerts@[a0.len() + i], rules[raised_rules(a0, sub1)[i]], now)
                        } by {
                            if i < rr.len() {
                                assert(raised_rules(a0, sub1)[i] == rr[i]);
                                assert(self.alerts@[a0.len() + i] == self.alerts@.drop_last()[a0.len() + i]);
                            }
                        }
                    } else {
                        assert(raised_rules(a0, sub1) == rr);
                    }
                }
                count = count + 1;
            } else {
                proof {
                    assert(raised_rules(a0, sub1) == rr);
                }
            }
            k = k + 1;
        }
        assert(self.rules@.subrange(0, self.rules@.len() as int) =~= self.rules@);
        count
    }

    /// The unresolved alerts, newest first.
    pub fn get_active_alerts(&self) -> (v: Vec<Alert>)
        ensures
            v@.len() == self.alerts().filter(triggered()).len(),
            forall|i: int| 0 <= i < v@.len() ==> (#[trigger] v@[i]).status is Triggered,
            forall|i: int| 0 <= i < v@.len() ==> same_alert(
                #[trigger] v@[i],
                self.alerts().filter(triggered())[self.alerts().filter(triggered()).len() - 1 - i],
            ),
    {
        let mut out: Vec<Alert> = Vec::new();
        let mut i: usize = self.alerts.len();
        let ghost all = self.alerts@;
        let ghost p = triggered();
        proof {
            assert(all.subrange(all.len() as int, all.len() as int) =~= Seq::<Alert>::empty());
        }
        while i > 0
            invariant
                all == self.alerts@,
                i <= all.len(),
                p == triggered(),
                out@.len() == all.subrange(i as int, all.len() as int).filter(p).len(),
                forall|j: int| 0 <= j < out@.len() ==> (#[trigger] out@[j]).status is Triggered,
                forall|j: int| 0 <= j < out@.len() ==> same_alert(
                    #[trigger] out@[j],
                    all.subrange(i as int, all.len() as int).filter(p)[out@.len() - 1 - j],
                ),
            decreases i,
        {
            i = i - 1;
            let a = &self.alerts[i];
            let ghost tail = all.subrange(i + 1, all.len() as int);
            let ghost ft = tail.filter(p);
            let ghost fi = all.subrange(i as int, all.len() as int).filter(p);
            proof {
                assert(all.subrange(i as int, all.len() as int) =~= seq![all[i as int]] + tail);
                Seq::filter_distributes_over_add(seq![all[i as int]], tail, p);
                assert(seq![all[i as int]] =~= Seq::<Alert>::empty().push(all[i as int]));
                Seq::<Alert>::empty().lemma_filter_push(all[i as int], p);
                assert(Seq::<Alert>::empty().filter(p) =~= Seq::<Alert>::empty());
                if p(all[i as int]) {
                    assert(fi =~= seq![all[i as int]] + ft);
                } else {
                    assert(fi =~= ft);
                }
            }
            let ghost old_out = out@;
            match a.status {
                AlertStatus::Triggered => {
                    out.push(copy_alert(a));
                    proof {
                        assert forall|j: int| 0 <= j < out@.len() implies same_alert(
                            #[trigger] out@[j],
                            fi[out@.len() - 1 - j],
                        ) by {
                            if j < old_out.len() {
                                assert(out@[j] == old_out[j]);
                                assert(fi[out@.len() - 1 - j] == ft[old_out.len() - 1 - j]);
                            } else {
                                assert(fi[0] == all[i as int]);
                            }
                        }
                    }
                },
                _ => {},
            }
        }
        assert(all.subrange(0, all.len() as int) =~= all);
        out
    }
}

/// Whether an alert is raised and unresolved.
pub open spec fn triggered() -> spec_fn(Alert) -> bool {
    |a: Alert| a.status is Triggered
}

/// The number of enabled rules that fire.
pub open spec fn fired_count(rules: Seq<AlertRule>) -> nat
    decreases rules.len(),
{
    if rules.len() == 0 {
        0
    } else {
        fired_count(rules.drop_last()) + if rules.last().enabled && rule_fires(rules.last()) { 1nat } else { 0nat }
    }
}

proof fn lemma_fired_le(rules: Seq<AlertRule>)
    ensures
        fired_count(rules) <= rules.len(),
    decreases rules.len(),
{
    if rules.len() > 0 {
        lemma_fired_le(rules.drop_last());
    }
}

/// Whether two alerts hold the same fields, the details by their entries.
pub open spec fn same_alert(a: Alert, b: Alert) -> bool {
    &&& a.id == b.id
    &&& a.rule_id == b.rule_id
    &&& a.name == b.name
    &&& a.description == b.description
    &&& a.severity == b.severity
    &&& a.status == b.status
    &&& a.triggered_at == b.triggered_at
    &&& a.resolved_at == b.resolved_at
    &&& a.current_value == b.current_value
    &&& a.threshold == b.threshold
    &&& a.details@ == b.details@
}

fn copy_alert(a: &Alert) -> (r: Alert)
    ensures
        same_alert(r, *a),
{
    Alert {
        id: a.id.clone(),
        rule_id: a.rule_id.clone(),
        name: a.name.clone(),
        description: a.description.clone(),
        severity: a.severity,
        status: a.status,
        triggered_at: a.triggered_at,
        resolved_at: a.resolved_at,
        current_value: a.current_value,
        threshold: a.threshold,
        details: a.details.clone(),
    }
}

/// With the default rules and the readings in place of measurements, no rule
/// fires: 75% CPU, 82% memory and 65% disk are under 80%, 85% and 90%.
pub proof fn lemma_default_rules_quiet(rules: Seq<AlertRule>)
    requires
        rules.len() == 3,
        rules[0].metric_name@ == "cpu_usage"@ && rules[0].threshold == 8000,
        rules[1].metric_name@ == "memory_usage"@ && rules[1].threshold == 8500,
        rules[2].metric_name@ == "disk_usage"@ && rules[2].threshold == 9000,
        forall|i: int| 0 <= i < 3 ==> (#[trigger] rules[i]).condition is GreaterThan,
    ensures
        fired_count(rules) == 0,
{
    reveal_strlit("cpu_usage");
    reveal_strlit("memory_usage");
    reveal_strlit("disk_usage");
    reveal_with_fuel(fired_count, 4);
    assert(rules.drop_last().drop_last().drop_last() =~= Seq::<AlertRule>::empty());
    assert(rules[0].condition is GreaterThan);
    assert(rules[1].condition is GreaterThan);
    assert(rules[2].condition is GreaterThan);
    assert(!rule_fires(rules[0]));
    assert(!rule_fires(rules[1]));
    assert(!rule_fires(rules[2]));
    assert(rules.drop_last().drop_last().last() == rules[0]);
    assert(rules.drop_last().last() == rules[1]);
}

} // verus!
