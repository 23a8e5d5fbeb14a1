//! Scripting and automation: scripts, workflows of actions, keyboard macros,
//! their execution logs and the history of executions. Running scripts and
//! commands, touching files and waiting are done by the caller; the library
//! decides what happens next and keeps the records.

use vstd::prelude::*;
use crate::text::copy_opt_string;
use crate::text::{chars_of, push_str, push_all, string_from_chars, to_lowercase, spec_to_lowercase, str_eq, list_contains, string_views, all_ascii, ascii_lower};
use crate::timeutil::{DateTimeUtc, TimeSpan, utc_now, new_uuid, uuid_text, spec_uuid_text};
use crate::strmap::StrMap;
use std::collections::HashMap;

verus! {

#[verifier::external_type_specification]
#[verifier::external_body]
pub struct ExJsonValue(serde_json::Value);

/// `Clone` of `serde_json::Value`, which is derived: the copy is the same value.
pub assume_specification[ <serde_json::Value as Clone>::clone ](v: &serde_json::Value) -> (r: serde_json::Value)
    ensures
        r == *v,
;

/// Supported scripting languages.
#[derive(Debug, Clone)]
pub enum ScriptLanguage {
    Rust,
    JavaScript,
    Python,
    Lua,
    Custom(String),
}

/// Parameter types.
#[derive(Debug, Clone)]
pub enum ParameterType {
    String,
    Number,
    Boolean,
    Date,
    Time,
    DateTime,
    FilePath,
    DirectoryPath,
    Selection,
    Custom(String),
}

/// Validation rules for parameters.
#[derive(Debug, Clone)]
pub struct ValidationRules {
    pub min_value: Option<serde_json::Value>,
    pub max_value: Option<serde_json::Value>,
    pub pattern: Option<String>,
    pub allowed_values: Option<Vec<serde_json::Value>>,
    pub custom_validator: Option<String>,
}

/// Script parameter definition.
#[derive(Debug, Clone)]
pub struct ScriptParameter {
    pub name: String,
    pub parameter_type: ParameterType,
    pub description: Option<String>,
    pub required: bool,
    pub default_value: Option<serde_json::Value>,
    pub validation_rules: ValidationRules,
}

/// File system access permissions (directories as path texts).
#[derive(Debug, Clone)]
pub struct FileAccessPermissions {
    pub allowed_directories: Vec<String>,
    pub forbidden_directories: Vec<String>,
    pub allowed_extensions: Vec<String>,
    pub forbidden_extensions: Vec<String>,
    pub read_allowed: bool,
    pub write_allowed: bool,
    pub execute_allowed: bool,
    pub create_allowed: bool,
    pub delete_allowed: bool,
}

/// Network access permissions.
#[derive(Debug, Clone)]
pub struct NetworkAccessPermissions {
    pub http_allowed: bool,
    pub https_allowed: bool,
    pub ftp_allowed: bool,
    pub local_only: bool,
    pub allowed_hosts: Vec<String>,
    pub forbidden_hosts: Vec<String>,
    pub allowed_ports: Vec<u16>,
    pub timeout: Option<TimeSpan>,
}

/// System access permissions.
#[derive(Debug, Clone)]
pub struct SystemAccessPermissions {
    pub allow_processes: bool,
    pub allow_subprocesses: bool,
    pub allow_environment_variables: bool,
    pub allow_external_commands: bool,
    pub allowed_commands: Vec<String>,
    pub forbidden_commands: Vec<String>,
}

/// Script permissions and security settings.
#[derive(Debug, Clone)]
pub struct ScriptPermissions {
    pub file_access: FileAccessPermissions,
    pub network_access: NetworkAccessPermissions,
    pub system_access: SystemAccessPermissions,
    pub execution_timeout: Option<TimeSpan>,
    pub memory_limit: Option<u64>,
    pub sandboxed: bool,
}

/// Execution context and environment (paths as texts).
#[derive(Debug, Clone)]
pub struct ExecutionContext {
    pub workspace_directory: String,
    pub working_directory: String,
    pub environment_variables: StrMap<String>,
    pub arguments: Vec<String>,
    pub stdin: Option<String>,
    pub stdout_redirect: Option<String>,
    pub stderr_redirect: Option<String>,
    pub current_working_set: Option<u128>,
    pub variables: StrMap<serde_json::Value>,
}

/// Script usage frequency tracking.
#[derive(Debug, Clone, Copy, PartialEq, Eq, Structural)]
pub enum UsageFrequency {
    Never,
    Rarely,
    Occasionally,
    Frequently,
    Daily,
}

/// Dependency types.
#[derive(Debug, Clone, Copy, PartialEq, Eq, Structural)]
pub enum DependencyType {
    Library,
    Module,
    Function,
    Script,
    External,
}

/// Script dependency.
#[derive(Debug, Clone)]
pub struct ScriptDependency {
    pub script_id: u128,
    pub script_name: String,
    pub dependency_type: DependencyType,
    pub version: Option<String>,
}

/// Script metadata and statistics.
#[derive(Debug, Clone)]
pub struct ScriptMetadata {
    pub execution_count: u64,
    pub success_count: u64,
    pub failure_count: u64,
    pub total_execution_time: TimeSpan,
    pub average_execution_time: TimeSpan,
    pub last_executed: Option<DateTimeUtc>,
    pub last_success: Option<DateTimeUtc>,
    pub last_failure: Option<DateTimeUtc>,
    pub rating: Option<String>,
    pub usage_frequency: UsageFrequency,
    pub dependencies: Vec<ScriptDependency>,
}

/// Script definition and metadata.
#[derive(Debug, Clone)]
pub struct Script {
    pub id: u128,
    pub name: String,
    pub description: String,
    pub language: ScriptLanguage,
    pub code: String,
    pub version: String,
    pub author: String,
    pub created_at: DateTimeUtc,
    pub updated_at: DateTimeUtc,
    pub tags: Vec<String>,
    pub parameters: Vec<ScriptParameter>,
    pub permissions: ScriptPermissions,
    pub execution_context: ExecutionContext,
    pub metadata: ScriptMetadata,
    pub is_enabled: bool,
    pub is_system: bool,
}

/// Event types for triggers.
#[derive(Debug, Clone)]
pub enum EventType {
    DocumentCreated,
    DocumentModified,
    DocumentDeleted,
    DocumentRenamed,
    ProjectOpened,
    ProjectClosed,
    Custom(String),
}

/// Condition operators.
#[derive(Debug, Clone, Copy, PartialEq, Eq, Structural)]
pub enum ConditionOperator {
    Equals,
    NotEquals,
    Contains,
    NotContains,
    StartsWith,
    EndsWith,
    GreaterThan,
    LessThan,
    Regex,
}

/// File system events.
#[derive(Debug, Clone, Copy, PartialEq, Eq, Structural)]
pub enum FileSystemEvent {
    Created,
    Modified,
    Deleted,
    Renamed,
    Accessed,
}

/// Notification levels.
#[derive(Debug, Clone, Copy, PartialEq, Eq, Structural)]
pub enum NotificationLevel {
    Info,
    Warning,
    Error,
    Success,
}

/// Condition types.
#[derive(Debug, Clone, Copy, PartialEq, Eq, Structural)]
pub enum ConditionType {
    ScriptExecutionResult,
    FileExists,
    TimeCondition,
    EnvironmentVariable,
    Custom,
}

/// What a workflow does when one of its actions fails.
#[derive(Debug, Clone, Copy, PartialEq, Eq, Structural)]
pub enum ErrorAction {
    Stop,
    Continue,
    Retry,
    Skip,
    CustomScript { script_id: u128 },
}

/// Schedule types.
#[derive(Debug, Clone, Copy, PartialEq, Eq, Structural)]
pub enum ScheduleType {
    Interval,
    Daily,
    Weekly,
    Monthly,
    Cron,
}

/// Keyboard keys.
#[derive(Debug, Clone)]
pub enum Key {
    Function { number: u8 },
    Character { char: char },
    Special { name: String },
}

/// Keyboard modifiers.
#[derive(Debug, Clone, Copy, PartialEq, Eq, Structural)]
pub enum Modifier {
    Ctrl,
    Alt,
    Shift,
    Super,
    Command,
}

/// Keyboard key combination.
#[derive(Debug, Clone)]
pub struct KeyCombination {
    pub keys: Vec<Key>,
    pub modifiers: Vec<Modifier>,
}

/// Mouse buttons.
#[derive(Debug, Clone, Copy, PartialEq, Eq, Structural)]
pub enum MouseButton {
    Left,
    Right,
    Middle,
}

/// Scroll directions.
#[derive(Debug, Clone, Copy, PartialEq, Eq, Structural)]
pub enum ScrollDirection {
    Up,
    Down,
    Left,
    Right,
}

/// View types.
#[derive(Debug, Clone, Copy, PartialEq, Eq, Structural)]
pub enum ViewType {
    Editor,
    Preview,
    Split,
    Fullscreen,
}

/// Log levels.
#[derive(Debug, Clone, Copy, PartialEq, Eq, Structural)]
pub enum LogLevel {
    Debug,
    Info,
    Warning,
    Error,
    Critical,
}

impl LogLevel {
    /// The level's label.
    pub open spec fn spec_label(self) -> Seq<char> {
        match self {
            LogLevel::Debug => "DEBUG"@,
            LogLevel::Info => "INFO"@,
            LogLevel::Warning => "WARN"@,
            LogLevel::Error => "ERROR"@,
            LogLevel::Critical => "CRITICAL"@,
        }
    }

    /// The level's label: `DEBUG`, `INFO`, `WARN`, `ERROR` or `CRITICAL`.
    pub fn as_str(&self) -> (r: &'static str)
        ensures
            r@ == self.spec_label(),
    {
        match self {
            LogLevel::Debug => "DEBUG",
            LogLevel::Info => "INFO",
            LogLevel::Warning => "WARN",
            LogLevel::Error => "ERROR",
            LogLevel::Critical => "CRITICAL",
        }
    }
}

/// Workflow execution status.
#[derive(Debug, Clone, Copy, PartialEq, Eq, Structural)]
pub enum WorkflowStatus {
    Running,
    Paused,
    Completed,
    Failed,
    Cancelled,
}

/// Resource limits for sandboxed execution.
#[derive(Debug, Clone, Copy)]
pub struct ResourceLimits {
    pub max_memory: u64,
    pub max_cpu_time: TimeSpan,
    pub max_disk_space: u64,
    pub max_file_descriptors: u32,
    pub max_processes: u32,
}

/// Security policies for script execution (paths as texts).
#[derive(Debug, Clone)]
pub struct SecurityPolicies {
    pub allow_network_access: bool,
    pub allow_file_system_access: bool,
    pub allow_external_commands: bool,
    pub allowed_file_extensions: Vec<String>,
    pub forbidden_file_paths: Vec<String>,
    pub sandbox_by_default: bool,
}

/// Template parameter definition.
#[derive(Debug, Clone)]
pub struct TemplateParameter {
    pub name: String,
    pub placeholder: String,
    pub description: String,
    pub default_value: Option<String>,
    pub required: bool,
}

/// Log entry of an execution (the structured context a caller may attach
/// is kept by the caller).
#[derive(Debug, Clone)]
pub struct LogEntry {
    pub timestamp: DateTimeUtc,
    pub level: LogLevel,
    pub message: String,
    pub source: String,
}

/// Execution result and status (output files as path texts).
#[derive(Debug, Clone)]
pub struct ExecutionResult {
    pub success: bool,
    pub output: String,
    pub error_message: Option<String>,
    pub execution_time: TimeSpan,
    pub return_code: Option<i32>,
    pub stdout_file: Option<String>,
    pub stderr_file: Option<String>,
    pub logs: Vec<LogEntry>,
}

/// The permissions a script gets by default: no file, network or system
/// access, local network only, thirty seconds for network calls and for the
/// script, a hundred mebibytes of memory, sandboxed.
pub open spec fn is_default_permissions(p: ScriptPermissions) -> bool {
    &&& p.file_access.allowed_directories@.len() == 0
    &&& p.file_access.forbidden_directories@.len() == 0
    &&& p.file_access.allowed_extensions@.len() == 0
    &&& p.file_access.forbidden_extensions@.len() == 0
    &&& !p.file_access.read_allowed
    &&& !p.file_access.write_allowed
    &&& !p.file_access.execute_allowed
    &&& !p.file_access.create_allowed
    &&& !p.file_access.delete_allowed
    &&& !p.network_access.http_allowed
    &&& !p.network_access.https_allowed
    &&& !p.network_access.ftp_allowed
    &&& p.network_access.local_only
    &&& p.network_access.allowed_hosts@.len() == 0
    &&& p.network_access.forbidden_hosts@.len() == 0
    &&& p.network_access.allowed_ports@.len() == 0
    &&& p.network_access.timeout == Some(TimeSpan { secs: 30, nanos: 0 })
    &&& !p.system_access.allow_processes
    &&& !p.system_access.allow_subprocesses
    &&& !p.system_access.allow_environment_variables
    &&& !p.system_access.allow_external_commands
    &&& p.system_access.allowed_commands@.len() == 0
    &&& p.system_access.forbidden_commands@.len() == 0
    &&& p.execution_timeout == Some(TimeSpan { secs: 30, nanos: 0 })
    &&& p.memory_limit == Some(104857600u64)
    &&& p.sandboxed
}

/// The permissions a script gets by default.
pub fn default_permissions() -> (p: ScriptPermissions)
    ensures
        is_default_permissions(p),
{
    ScriptPermissions {
        file_access: FileAccessPermissions {
            allowed_directories: Vec::new(),
            forbidden_directories: Vec::new(),
            allowed_extensions: Vec::new(),
            forbidden_extensions: Vec::new(),
            read_allowed: false,
            write_allowed: false,
            execute_allowed: false,
            create_allowed: false,
            delete_allowed: false,
        },
        network_access: NetworkAccessPermissions {
            http_allowed: false,
            https_allowed: false,
            ftp_allowed: false,
            local_only: true,
            allowed_hosts: Vec::new(),
            forbidden_hosts: Vec::new(),
            allowed_ports: Vec::new(),
            timeout: Some(TimeSpan::from_secs(30)),
        },
        system_access: SystemAccessPermissions {
            allow_processes: false,
            allow_subprocesses: false,
            allow_environment_variables: false,
            allow_external_commands: false,
            allowed_commands: Vec::new(),
            forbidden_commands: Vec::new(),
        },
        execution_timeout: Some(TimeSpan::from_secs(30)),
        memory_limit: Some(100 * 1024 * 1024),
        sandboxed: true,
    }
}

impl Default for Script {
    /// A new enabled, non-system Rust script named `New Script` with no code,
    /// tags or parameters, version `1.0.0` by `System`, the default
    /// permissions, an empty execution context and no executions yet; a fresh
    /// identifier, created and updated now.
    fn default() -> (s: Self)
        ensures
            s.name@ == "New Script"@,
            s.description@ == "A new automation script"@,
            s.language is Rust,
            s.code@.len() == 0,
            s.version@ == "1.0.0"@,
            s.author@ == "System"@,
            s.tags@.len() == 0,
            s.parameters@.len() == 0,
            is_default_permissions(s.permissions),
            s.execution_context.workspace_directory@.len() == 0,
            s.execution_context.working_directory@.len() == 0,
            s.execution_context.environment_variables.wf(),
            s.execution_context.environment_variables.entries@.len() == 0,
            s.execution_context.arguments@.len() == 0,
            s.execution_context.stdin is None,
            s.execution_context.stdout_redirect is None,
            s.execution_context.stderr_redirect is None,
            s.execution_context.current_working_set is None,
            s.execution_context.variables.wf(),
            s.execution_context.variables.entries@.len() == 0,
            s.metadata.execution_count == 0,
            s.metadata.success_count == 0,
            s.metadata.failure_count == 0,
            s.metadata.total_execution_time == (TimeSpan { secs: 0, nanos: 0 }),
            s.metadata.average_execution_time == (TimeSpan { secs: 0, nanos: 0 }),
            s.metadata.last_executed is None,
            s.metadata.last_success is None,
            s.metadata.last_failure is None,
            s.metadata.rating is None,
            s.metadata.usage_frequency == UsageFrequency::Never,
            s.metadata.dependencies@.len() == 0,
            s.is_enabled,
            !s.is_system,
    {
        Script {
            id: new_uuid(),
            name: "New Script".to_string(),
            description: "A new automation script".to_string(),
            language: ScriptLanguage::Rust,
            code: String::new(),
            version: "1.0.0".to_string(),
            author: "System".to_string(),
            created_at: utc_now(),
            updated_at: utc_now(),
            tags: Vec::new(),
            parameters: Vec::new(),
            permissions: default_permissions(),
            execution_context: ExecutionContext {
                workspace_directory: String::new(),
                working_directory: String::new(),
                environment_variables: StrMap::new(),
                arguments: Vec::new(),
                stdin: None,
                stdout_redirect: None,
                stderr_redirect: None,
                current_working_set: None,
                variables: StrMap::new(),
            },
            metadata: ScriptMetadata {
                execution_count: 0,
                success_count: 0,
                failure_count: 0,
                total_execution_time: TimeSpan::from_millis(0),
                average_execution_time: TimeSpan::from_millis(0),
                last_executed: None,
                last_success: None,
                last_failure: None,
                rating: None,
                usage_frequency: UsageFrequency::Never,
                dependencies: Vec::new(),
            },
            is_enabled: true,
            is_system: false,
        }
    }
}

/// The security policies of the sandbox by default: file system access only,
/// to `txt`, `md` and `json` files, sandboxed.
pub fn default_security_policies() -> (p: SecurityPolicies)
    ensures
        !p.allow_network_access,
        p.allow_file_system_access,
        !p.allow_external_commands,
        string_views(p.allowed_file_extensions@) == seq!["txt"@, "md"@, "json"@],
        p.forbidden_file_paths@.len() == 0,
        p.sandbox_by_default,
{
    let mut exts: Vec<String> = Vec::new();
    exts.push("txt".to_string());
    exts.push("md".to_string());
    exts.push("json".to_string());
    assert(string_views(exts@) =~= seq!["txt"@, "md"@, "json"@]);
    SecurityPolicies {
        allow_network_access: false,
        allow_file_system_access: true,
        allow_external_commands: false,
        allowed_file_extensions: exts,
        forbidden_file_paths: Vec::new(),
        sandbox_by_default: true,
    }
}

/// A workflow condition holds: it reads `true` in any letter case, or it
/// names a variable of the context.
pub open spec fn condition_holds(condition: Seq<char>, context: Map<Seq<char>, serde_json::Value>) -> bool {
    spec_to_lowercase(condition) == "true"@ || context.contains_key(condition)
}

/// Evaluates a workflow condition against the variables of a context.
pub fn evaluate_condition(condition: &str, context: &StrMap<serde_json::Value>) -> (r: bool)
    ensures
        r == condition_holds(condition@, context.map()),
        all_ascii(condition@) ==> spec_to_lowercase(condition@) == condition@.map_values(|c: char| ascii_lower(c)),
{
    let lower = to_lowercase(condition);
    str_eq(lower.as_str(), "true") || context.contains_key(condition)
}

/// Event condition.
#[derive(Debug, Clone)]
pub struct EventCondition {
    pub property: String,
    pub operator: ConditionOperator,
    pub value: serde_json::Value,
}

/// Workflow scheduling (days numbered from Sunday, zero, to Saturday, six).
#[derive(Debug, Clone)]
pub struct WorkflowSchedule {
    pub schedule_type: ScheduleType,
    pub interval: Option<TimeSpan>,
    pub time: Option<String>,
    pub days: Vec<u8>,
    pub timezone: String,
    pub start_date: Option<DateTimeUtc>,
    pub end_date: Option<DateTimeUtc>,
}

/// Workflow trigger types (paths as texts).
#[derive(Debug, Clone)]
pub enum WorkflowTrigger {
    Event { event_type: EventType, conditions: Vec<EventCondition> },
    Schedule { schedule: WorkflowSchedule },
    Manual,
    FileSystem { path: String, event: FileSystemEvent, recursive: bool },
    Time { at_time: String, timezone: String },
}

/// Action types (paths as texts).
#[derive(Debug, Clone)]
pub enum ActionType {
    ExecuteScript { script_id: u128 },
    RunCommand { command: String, arguments: Vec<String> },
    CreateFile { path: String, content: String },
    DeleteFile { path: String },
    MoveFile { from: String, to: String },
    CopyFile { from: String, to: String },
    SendNotification { title: String, message: String, level: NotificationLevel },
    OpenDocument { path: String },
    CloseDocument { document_id: u128 },
    CreateProject { name: String, template: Option<String> },
    Custom { kind_name: String, implementation: String },
}

/// Workflow action definition.
#[derive(Debug, Clone)]
pub struct WorkflowAction {
    pub id: u128,
    pub action_type: ActionType,
    pub name: String,
    pub parameters: StrMap<serde_json::Value>,
    pub condition: Option<String>,
    pub on_error: ErrorAction,
    pub timeout: Option<TimeSpan>,
}

/// Workflow condition.
#[derive(Debug, Clone)]
pub struct WorkflowCondition {
    pub id: u128,
    pub name: String,
    pub condition_type: ConditionType,
    pub expression: String,
    pub parameters: StrMap<serde_json::Value>,
}

/// Error handling configuration.
#[derive(Debug, Clone, Copy)]
pub struct ErrorHandling {
    pub on_error: ErrorAction,
    pub retry_count: u32,
    pub retry_delay: TimeSpan,
    pub continue_on_error: bool,
    pub log_errors: bool,
    pub notify_on_error: bool,
}

/// Automation workflow definition.
#[derive(Debug, Clone)]
pub struct AutomationWorkflow {
    pub id: u128,
    pub name: String,
    pub description: String,
    pub version: String,
    pub author: String,
    pub created_at: DateTimeUtc,
    pub updated_at: DateTimeUtc,
    pub enabled: bool,
    pub triggers: Vec<WorkflowTrigger>,
    pub actions: Vec<WorkflowAction>,
    pub conditions: Vec<WorkflowCondition>,
    pub error_handling: ErrorHandling,
    pub schedule: Option<WorkflowSchedule>,
    pub tags: Vec<String>,
}

/// What a log entry says: its level, message and source.
pub open spec fn log_view(e: LogEntry) -> (LogLevel, Seq<char>, Seq<char>) {
    (e.level, e.message@, e.source@)
}

/// What a list of log entries says.
pub open spec fn logs_view(v: Seq<LogEntry>) -> Seq<(LogLevel, Seq<char>, Seq<char>)> {
    v.map_values(|e: LogEntry| log_view(e))
}

/// A log entry stamped now.
pub fn log_entry(level: LogLevel, message: String, source: &str) -> (e: LogEntry)
    ensures
        log_view(e) == (level, message@, source@),
{
    LogEntry { timestamp: utc_now(), level, message, source: source.to_string() }
}

/// The message that starts the action at `index` (counted from one in the text).
pub open spec fn action_start_message(index: nat, name: Seq<char>) -> Seq<char> {
    "Executing action "@ + crate::text::decimal_seq(index + 1) + ": "@ + name
}

/// The message for an action whose condition does not hold.
pub open spec fn condition_skip_message(condition: Seq<char>) -> Seq<char> {
    "Condition '"@ + condition + "' failed, skipping action"@
}

/// The log entries written while moving from action `from` to action `to`:
/// for each action passed over, its start and the failed condition.
pub open spec fn passed_over_logs(actions: Seq<WorkflowAction>, from: int, to: int) -> Seq<(LogLevel, Seq<char>, Seq<char>)>
    decreases to - from,
{
    if to <= from {
        Seq::empty()
    } else {
        passed_over_logs(actions, from, to - 1) + seq![
            (LogLevel::Info, action_start_message((to - 1) as nat, actions[to - 1].name@), "workflow"@),
            (LogLevel::Info, condition_skip_message(actions[to - 1].condition->0@), "workflow"@)
        ]
    }
}

/// The action at `i` is passed over: it has a condition that does not hold.
pub open spec fn passed_over(a: WorkflowAction, context: Map<Seq<char>, serde_json::Value>) -> bool {
    a.condition matches Some(c) && !condition_holds(c@, context)
}

/// What the caller does next in a workflow run.
#[derive(Debug, Clone)]
pub enum WorkflowStep {
    /// Run the action at this position, then report its outcome.
    RunAction(usize),
    /// The run is over with this result.
    Finished(ExecutionResult),
}

/// The state of one run of a workflow: the next action to look at and the log.
#[derive(Debug, Clone)]
pub struct WorkflowRun {
    pub next: usize,
    pub logs: Vec<LogEntry>,
}

impl WorkflowRun {
    /// A run at the first action, with an empty log.
    pub fn new() -> (r: Self)
        ensures
            r.next == 0,
            r.logs@.len() == 0,
    {
        WorkflowRun { next: 0, logs: Vec::new() }
    }

    /// Moves to the next action to run. Each action reached is logged; one
    /// whose condition does not hold is logged as skipped and passed over.
    /// Past the last action the run is finished successfully, taking
    /// `elapsed` and the log.
    pub fn advance(&mut self, actions: &Vec<WorkflowAction>, context: &StrMap<serde_json::Value>, elapsed: TimeSpan) -> (step: WorkflowStep)
        requires
            old(self).next <= actions@.len(),
        ensures
            old(self).next <= final(self).next <= actions@.len(),
            forall|j: int| old(self).next <= j < final(self).next ==> #[trigger] passed_over(actions@[j], context.map()),
            match step {
                WorkflowStep::RunAction(i) => i == final(self).next && i < actions@.len()
                    && !passed_over(actions@[i as int], context.map())
                    && logs_view(final(self).logs@) == logs_view(old(self).logs@)
                        + passed_over_logs(actions@, old(self).next as int, i as int)
                        + seq![(LogLevel::Info, action_start_message(i as nat, actions@[i as int].name@), "workflow"@)],
                WorkflowStep::Finished(res) => final(self).next == actions@.len()
                    && final(self).logs@.len() == 0
                    && res.success && res.output@ == "Workflow completed successfully"@
                    && res.error_message is None && res.execution_time == elapsed
                    && res.return_code == Some(0i32) && res.stdout_file is None && res.stderr_file is None
                    && logs_view(res.logs@) == logs_view(old(self).logs@)
                        + passed_over_logs(actions@, old(self).next as int, actions@.len() as int),
            },
    {
        let ghost start = self.next as int;
        let ghost base = logs_view(self.logs@);
        let mut i = self.next;
        while i < actions.len()
            invariant
                start <= i <= actions@.len(),
                start == old(self).next,
                self.next == old(self).next,
                base == logs_view(old(self).logs@),
                logs_view(self.logs@) == base + passed_over_logs(actions@, start, i as int),
                forall|j: int| start <= j < i ==> #[trigger] passed_over(actions@[j], context.map()),
            decreases actions@.len() - i,
        {
            let a = &actions[i];
            let mut m = chars_of("Executing action ");
            crate::text::push_decimal(&mut m, (i as u64) + 1);
            push_str(&mut m, ": ");
            push_str(&mut m, a.name.as_str());
            assert(m@ =~= action_start_message(i as nat, a.name@));
            let ghost lv0 = logs_view(self.logs@);
            let e1 = log_entry(LogLevel::Info, string_from_chars(&m), "workflow");
            self.logs.push(e1);
            assert(logs_view(self.logs@) =~= lv0.push(log_view(e1)));
            let skip = match &a.condition {
                Some(c) => !evaluate_condition(c.as_str(), context),
                None => false,
            };
            if skip {
                let c = match &a.condition { Some(c) => c.as_str(), None => "" };
                let mut s = chars_of("Condition '");
                push_str(&mut s, c);
                push_str(&mut s, "' failed, skipping action");
                let ghost lv1 = logs_view(self.logs@);
                let e2 = log_entry(LogLevel::Info, string_from_chars(&s), "workflow");
                self.logs.push(e2);
                assert(logs_view(self.logs@) =~= lv1.push(log_view(e2)));
                assert(log_view(e2) == (LogLevel::Info, condition_skip_message(actions@[i as int].condition->0@), "workflow"@));
                assert(logs_view(self.logs@) =~= base + passed_over_logs(actions@, start, i + 1));
                i += 1;
            } else {
                self.next = i;
                return WorkflowStep::RunAction(i);
            }
        }
        self.next = i;
        let mut logs: Vec<LogEntry> = Vec::new();
        std::mem::swap(&mut logs, &mut self.logs);
        WorkflowStep::Finished(ExecutionResult {
            success: true,
            output: "Workflow completed successfully".to_string(),
            error_message: None,
            execution_time: elapsed,
            return_code: Some(0),
            stdout_file: None,
            stderr_file: None,
            logs,
        })
    }

    /// Takes the outcome of the action just run. A success moves on to the
    /// next action. A failure is logged, then the action's error setting
    /// decides: `Stop` ends the run with a failed result; `Continue` and
    /// `Skip` log that they go on; `Retry` and `CustomScript` go on silently.
    pub fn record_outcome(&mut self, action: &WorkflowAction, success: bool, error_message: Option<String>, elapsed: TimeSpan) -> (r: Option<ExecutionResult>)
        requires
            old(self).next < usize::MAX,
        ensures
            match r {
                None => final(self).next == old(self).next + 1
                    && logs_view(final(self).logs@) == logs_view(old(self).logs@)
                        + outcome_logs(action.name@, success, opt_text(error_message), action.on_error),
                Some(res) => !success && action.on_error == ErrorAction::Stop
                    && final(self).logs@.len() == 0
                    && !res.success
                    && res.output@ == "Workflow stopped at action '"@ + action.name@ + "'"@
                    && res.error_message == error_message
                    && res.execution_time == elapsed
                    && res.return_code == Some(-1i32)
                    && res.stdout_file is None && res.stderr_file is None
                    && logs_view(res.logs@) == logs_view(old(self).logs@)
                        + outcome_logs(action.name@, success, opt_text(error_message), action.on_error),
            },
            (!success && action.on_error == ErrorAction::Stop) ==> r is Some,
    {
        if success {
            self.next = self.next + 1;
            assert(logs_view(self.logs@) =~= logs_view(old(self).logs@) + Seq::empty());
            return None;
        }
        let mut m = chars_of("Action '");
        push_str(&mut m, action.name.as_str());
        push_str(&mut m, "' failed: ");
        match &error_message {
            Some(e) => push_str(&mut m, e.as_str()),
            None => push_str(&mut m, "Unknown error"),
        }
        assert(m@ =~= failure_message(action.name@, opt_text(error_message)));
        let ghost lv0 = logs_view(self.logs@);
        let e1 = log_entry(LogLevel::Error, string_from_chars(&m), "workflow");
        self.logs.push(e1);
        assert(logs_view(self.logs@) =~= lv0.push(log_view(e1)));
        match action.on_error {
            ErrorAction::Stop => {
                let mut o = chars_of("Workflow stopped at action '");
                push_str(&mut o, action.name.as_str());
                push_str(&mut o, "'");
                let mut logs: Vec<LogEntry> = Vec::new();
                std::mem::swap(&mut logs, &mut self.logs);
                assert(logs_view(logs@) =~= logs_view(old(self).logs@)
                    + outcome_logs(action.name@, success, opt_text(error_message), action.on_error));
                return Some(ExecutionResult {
                    success: false,
                    output: string_from_chars(&o),
                    error_message,
                    execution_time: elapsed,
                    return_code: Some(-1),
                    stdout_file: None,
                    stderr_file: None,
                    logs,
                });
            },
            ErrorAction::Continue => {
                let mut c = chars_of("Continuing despite error in action '");
                push_str(&mut c, action.name.as_str());
                push_str(&mut c, "'");
                let ghost lv1 = logs_view(self.logs@);
                let e2 = log_entry(LogLevel::Info, string_from_chars(&c), "workflow");
                self.logs.push(e2);
                assert(logs_view(self.logs@) =~= lv1.push(log_view(e2)));
            },
            ErrorAction::Skip => {
                let mut c = chars_of("Skipping action '");
                push_str(&mut c, action.name.as_str());
                push_str(&mut c, "' due to error");
                let ghost lv1 = logs_view(self.logs@);
                let e2 = log_entry(LogLevel::Info, string_from_chars(&c), "workflow");
                self.logs.push(e2);
                assert(logs_view(self.logs@) =~= lv1.push(log_view(e2)));
            },
            _ => {},
        }
        self.next = self.next + 1;
        assert(logs_view(self.logs@) =~= logs_view(old(self).logs@)
            + outcome_logs(action.name@, success, opt_text(error_message), action.on_error));
        None
    }

}

/// The text of an optional string, if any.
pub open spec fn opt_text(o: Option<String>) -> Option<Seq<char>> {
    match o {
        Some(s) => Some(s@),
        None => None,
    }
}

/// The message for a failed action.
pub open spec fn failure_message(name: Seq<char>, error: Option<Seq<char>>) -> Seq<char> {
    "Action '"@ + name + "' failed: "@ + match error {
        Some(e) => e,
        None => "Unknown error"@,
    }
}

/// The log entries written for the outcome of an action.
pub open spec fn outcome_logs(name: Seq<char>, success: bool, error: Option<Seq<char>>, on_error: ErrorAction) -> Seq<(LogLevel, Seq<char>, Seq<char>)> {
    if success {
        Seq::empty()
    } else {
        seq![(LogLevel::Error, failure_message(name, error), "workflow"@)] + match on_error {
            ErrorAction::Continue => seq![(LogLevel::Info, "Continuing despite error in action '"@ + name + "'"@, "workflow"@)],
            ErrorAction::Skip => seq![(LogLevel::Info, "Skipping action '"@ + name + "' due to error"@, "workflow"@)],
            _ => Seq::empty(),
        }
    }
}

/// A copy of a log entry.
pub fn copy_log_entry(e: &LogEntry) -> (r: LogEntry)
    ensures
        r == *e,
{
    LogEntry { timestamp: e.timestamp, level: e.level, message: e.message.clone(), source: e.source.clone() }
}

/// A copy of an execution result.
pub fn copy_execution_result(x: &ExecutionResult) -> (r: ExecutionResult)
    ensures
        r.success == x.success,
        r.output == x.output,
        r.error_message == x.error_message,
        r.execution_time == x.execution_time,
        r.return_code == x.return_code,
        r.stdout_file == x.stdout_file,
        r.stderr_file == x.stderr_file,
        r.logs@ == x.logs@,
{
    let mut logs: Vec<LogEntry> = Vec::new();
    let mut i: usize = 0;
    while i < x.logs.len()
        invariant
            i <= x.logs@.len(),
            logs@ == x.logs@.take(i as int),
        decreases x.logs@.len() - i,
    {
        logs.push(copy_log_entry(&x.logs[i]));
        assert(logs@ =~= x.logs@.take(i + 1));
        i += 1;
    }
    assert(x.logs@.take(i as int) =~= x.logs@);
    ExecutionResult {
        success: x.success,
        output: x.output.clone(),
        error_message: copy_opt_string(&x.error_message),
        execution_time: x.execution_time,
        return_code: x.return_code,
        stdout_file: copy_opt_string(&x.stdout_file),
        stderr_file: copy_opt_string(&x.stderr_file),
        logs,
    }
}

/// How many executions the history keeps.
pub const HISTORY_LIMIT: usize = 1000;

/// The results of the latest executions, oldest first; at most
/// `HISTORY_LIMIT` are kept.
#[derive(Debug, Clone)]
pub struct ExecutionHistory {
    pub entries: Vec<ExecutionResult>,
}

impl ExecutionHistory {
    /// No more than `HISTORY_LIMIT` results are kept.
    pub open spec fn wf(&self) -> bool {
        self.entries@.len() <= HISTORY_LIMIT
    }

    /// An empty history.
    pub fn new() -> (h: Self)
        ensures
            h.wf(),
            h.entries@.len() == 0,
    {
        ExecutionHistory { entries: Vec::new() }
    }

    /// Adds a result as the latest; when that makes more than
    /// `HISTORY_LIMIT`, the oldest is dropped.
    pub fn push(&mut self, result: ExecutionResult)
        requires
            old(self).wf(),
        ensures
            final(self).wf(),
            final(self).entries@ == (if old(self).entries@.len() < HISTORY_LIMIT {
                old(self).entries@.push(result)
            } else {
                old(self).entries@.push(result).drop_first()
            }),
    {
        self.entries.push(result);
        if self.entries.len() > HISTORY_LIMIT {
            self.entries.remove(0);
        }
    }

    /// The latest results, newest first, at most `limit` of them.
    pub fn get_execution_history(&self, limit: usize) -> (r: Vec<ExecutionResult>)
        ensures
            r@.len() == (if limit < self.entries@.len() { limit as int } else { self.entries@.len() as int }),
            forall|i: int| 0 <= i < r@.len() ==> {
                let x = #[trigger] r@[i];
                let y = self.entries@[self.entries@.len() - 1 - i];
                &&& x.success == y.success
                &&& x.output == y.output
                &&& x.error_message == y.error_message
                &&& x.execution_time == y.execution_time
                &&& x.return_code == y.return_code
                &&& x.logs@ == y.logs@
            },
    {
        let n = self.entries.len();
        let mut r: Vec<ExecutionResult> = Vec::new();
        let mut i: usize = 0;
        while i < limit && i < n
            invariant
                n == self.entries@.len(),
                i <= n,
                i <= limit,
                r@.len() == i,
                forall|k: int| 0 <= k < i ==> {
                    let x = #[trigger] r@[k];
                    let y = self.entries@[n - 1 - k];
                    &&& x.success == y.success
                    &&& x.output == y.output
                    &&& x.error_message == y.error_message
                    &&& x.execution_time == y.execution_time
                    &&& x.return_code == y.return_code
                    &&& x.logs@ == y.logs@
                },
            decreases n - i,
        {
            r.push(copy_execution_result(&self.entries[n - 1 - i]));
            i += 1;
        }
        r
    }
}

/// Records one completed run of a script taking `elapsed`, at `now`: one
/// more execution, the time added to the total, the average recomputed as
/// the total over the count (the count taken as a 32-bit number, as
/// `Duration / u32` takes it) and the time of the run kept.
pub fn record_script_run(metadata: &mut ScriptMetadata, elapsed: TimeSpan, now: DateTimeUtc)
    requires
        old(metadata).total_execution_time.wf(),
        elapsed.wf(),
        old(metadata).execution_count < u64::MAX,
        (old(metadata).execution_count + 1) % 4294967296 != 0,
        old(metadata).total_execution_time.total_nanos() + elapsed.total_nanos()
            < (u64::MAX as int + 1) * 1_000_000_000,
    ensures
        final(metadata).execution_count == old(metadata).execution_count + 1,
        final(metadata).total_execution_time.wf(),
        final(metadata).total_execution_time.total_nanos()
            == old(metadata).total_execution_time.total_nanos() + elapsed.total_nanos(),
        final(metadata).average_execution_time.total_nanos()
            == final(metadata).total_execution_time.total_nanos()
                / ((final(metadata).execution_count as int) % 4294967296),
        final(metadata).last_executed == Some(now),
        final(metadata).success_count == old(metadata).success_count,
        final(metadata).failure_count == old(metadata).failure_count,
        final(metadata).last_success == old(metadata).last_success,
        final(metadata).last_failure == old(metadata).last_failure,
        final(metadata).usage_frequency == old(metadata).usage_frequency,
        final(metadata).rating == old(metadata).rating,
        final(metadata).dependencies@ == old(metadata).dependencies@,
{
    metadata.execution_count = metadata.execution_count + 1;
    metadata.total_execution_time = metadata.total_execution_time.add(elapsed);
    metadata.last_executed = Some(now);
    if metadata.execution_count > 0 {
        let c64: u64 = metadata.execution_count;
        let count = c64 as u32;
        assert(count == c64 % 4294967296) by (bit_vector)
            requires
                count == c64 as u32,
        ;
        metadata.average_execution_time = metadata.total_execution_time.div(count);
    }
}

/// Adds the variables of `src` to `target`, replacing values under names
/// that are already there.
pub fn extend_values(target: &mut StrMap<serde_json::Value>, src: &StrMap<serde_json::Value>)
    requires
        old(target).wf(),
        src.wf(),
    ensures
        final(target).wf(),
        final(target).map() == old(target).map().union_prefer_right(src.map()),
{
    let ghost m0 = target.map();
    let mut i: usize = 0;
    while i < src.entries.len()
        invariant
            i <= src.entries@.len(),
            target.wf(),
            target.map() == m0.union_prefer_right(crate::strmap::entries_map(src.entries@.take(i as int))),
        decreases src.entries@.len() - i,
    {
        let k = src.entries[i].0.clone();
        let v = src.entries[i].1.clone();
        let ghost before = crate::strmap::entries_map(src.entries@.take(i as int));
        assert(src.entries@.take(i + 1).drop_last() =~= src.entries@.take(i as int));
        assert(src.entries@.take(i + 1).last() == src.entries@[i as int]);
        target.insert(k, v);
        assert(target.map() =~= m0.union_prefer_right(crate::strmap::entries_map(src.entries@.take(i + 1))));
        i += 1;
    }
    assert(src.entries@.take(i as int) =~= src.entries@);
}

/// The runtime context of the script engine.
#[derive(Debug, Clone)]
pub struct RuntimeContext {
    pub current_execution: Option<u128>,
    pub execution_count: u64,
    pub active_variables: StrMap<serde_json::Value>,
    pub execution_permissions: ScriptPermissions,
    pub workspace_path: String,
}

impl RuntimeContext {
    /// The context of a new engine: nothing running, nothing run, no
    /// variables, the default permissions and an empty workspace path.
    pub fn new() -> (c: Self)
        ensures
            c.current_execution is None,
            c.execution_count == 0,
            c.active_variables.wf(),
            c.active_variables.entries@.len() == 0,
            is_default_permissions(c.execution_permissions),
            c.workspace_path@.len() == 0,
    {
        RuntimeContext {
            current_execution: None,
            execution_count: 0,
            active_variables: StrMap::new(),
            execution_permissions: default_permissions(),
            workspace_path: String::new(),
        }
    }

    /// Starts an execution: it becomes the current one, is counted, and its
    /// parameters join the active variables.
    pub fn begin_execution(&mut self, execution_id: u128, parameters: &StrMap<serde_json::Value>)
        requires
            old(self).active_variables.wf(),
            parameters.wf(),
            old(self).execution_count < u64::MAX,
        ensures
            final(self).current_execution == Some(execution_id),
            final(self).execution_count == old(self).execution_count + 1,
            final(self).active_variables.wf(),
            final(self).active_variables.map() == old(self).active_variables.map().union_prefer_right(parameters.map()),
    {
        self.current_execution = Some(execution_id);
        self.execution_count = self.execution_count + 1;
        extend_values(&mut self.active_variables, parameters);
    }
}

/// What the caller does to perform a workflow action.
#[derive(Debug, Clone)]
pub enum ActionRequest {
    /// Run a script with these parameters.
    ExecuteScript { script_id: u128, parameters: StrMap<serde_json::Value> },
    /// Run a command with arguments and report its outcome.
    RunCommand { command: String, arguments: Vec<String> },
    /// Create a file (and its directory) with this content.
    CreateFile { path: String, content: String },
    /// Print the notification line; the action then has this result.
    Notify { line: String, result: ExecutionResult },
    /// Report the action type as not implemented.
    NotImplemented,
}

/// The label of a notification level.
pub open spec fn level_label(level: NotificationLevel) -> Seq<char> {
    match level {
        NotificationLevel::Info => "INFO"@,
        NotificationLevel::Warning => "WARNING"@,
        NotificationLevel::Error => "ERROR"@,
        NotificationLevel::Success => "SUCCESS"@,
    }
}

/// A successful action result with an output and no logs.
pub open spec fn is_plain_success(r: ExecutionResult, output: Seq<char>) -> bool {
    &&& r.success
    &&& r.output@ == output
    &&& r.error_message is None
    &&& r.execution_time == (TimeSpan { secs: 0, nanos: 0 })
    &&& r.return_code == Some(0i32)
    &&& r.stdout_file is None
    &&& r.stderr_file is None
    &&& r.logs@.len() == 0
}

fn plain_success(output: String) -> (r: ExecutionResult)
    ensures
        is_plain_success(r, output@),
{
    ExecutionResult {
        success: true,
        output,
        error_message: None,
        execution_time: TimeSpan::from_millis(0),
        return_code: Some(0),
        stdout_file: None,
        stderr_file: None,
        logs: Vec::new(),
    }
}

/// How a workflow action is performed: a script runs with the action's
/// parameters joined by the context's variables; a command, a new file and
/// a notification as given; any other action type is not implemented.
pub fn plan_action(action: &WorkflowAction, context: &StrMap<serde_json::Value>) -> (r: ActionRequest)
    requires
        action.parameters.wf(),
        context.wf(),
    ensures
        match action.action_type {
            ActionType::ExecuteScript { script_id } => r matches ActionRequest::ExecuteScript { script_id: s, parameters: p }
                && s == script_id && p.wf()
                && p.map() == action.parameters.map().union_prefer_right(context.map()),
            ActionType::RunCommand { command, arguments } => r matches ActionRequest::RunCommand { command: c, arguments: a }
                && c == command && a@ == arguments@,
            ActionType::CreateFile { path, content } => r matches ActionRequest::CreateFile { path: p, content: c }
                && p == path && c == content,
            ActionType::SendNotification { title, message, level } => r matches ActionRequest::Notify { line, result }
                && line@ == "["@ + level_label(level) + "] "@ + title@ + ": "@ + message@
                && is_plain_success(result, "Notification sent: "@ + title@),
            _ => r is NotImplemented,
        },
{
    match &action.action_type {
        ActionType::ExecuteScript { script_id } => {
            let mut p: StrMap<serde_json::Value> = StrMap::new();
            extend_values(&mut p, &action.parameters);
            extend_values(&mut p, context);
            assert(Map::<Seq<char>, serde_json::Value>::empty().union_prefer_right(action.parameters.map()) =~= action.parameters.map());
            ActionRequest::ExecuteScript { script_id: *script_id, parameters: p }
        },
        ActionType::RunCommand { command, arguments } => {
            let mut a: Vec<String> = Vec::new();
            let mut i: usize = 0;
            while i < arguments.len()
                invariant
                    i <= arguments@.len(),
                    a@ == arguments@.take(i as int),
                decreases arguments@.len() - i,
            {
                a.push(arguments[i].clone());
                assert(a@ =~= arguments@.take(i + 1));
                i += 1;
            }
            assert(arguments@.take(i as int) =~= arguments@);
            ActionRequest::RunCommand { command: command.clone(), arguments: a }
        },
        ActionType::CreateFile { path, content } => {
            ActionRequest::CreateFile { path: path.clone(), content: content.clone() }
        },
        ActionType::SendNotification { title, message, level } => {
            let mut line = chars_of("[");
            match level {
                NotificationLevel::Info => push_str(&mut line, "INFO"),
                NotificationLevel::Warning => push_str(&mut line, "WARNING"),
                NotificationLevel::Error => push_str(&mut line, "ERROR"),
                NotificationLevel::Success => push_str(&mut line, "SUCCESS"),
            }
            push_str(&mut line, "] ");
            push_str(&mut line, title.as_str());
            push_str(&mut line, ": ");
            push_str(&mut line, message.as_str());
            let mut out = chars_of("Notification sent: ");
            push_str(&mut out, title.as_str());
            ActionRequest::Notify { line: string_from_chars(&line), result: plain_success(string_from_chars(&out)) }
        },
        _ => ActionRequest::NotImplemented,
    }
}

/// The result of a command that ran: its success, its standard output, its
/// error output where it failed, and its exit code (`-1` where it has none).
pub fn command_result(success: bool, stdout_text: String, stderr_text: String, code: Option<i32>) -> (r: ExecutionResult)
    ensures
        r.success == success,
        r.output == stdout_text,
        r.error_message == (if success { None } else { Some(stderr_text) }),
        r.execution_time == (TimeSpan { secs: 0, nanos: 0 }),
        r.return_code == Some(match code { Some(c) => c, None => -1i32 }),
        r.stdout_file is None,
        r.stderr_file is None,
        r.logs@.len() == 0,
{
    ExecutionResult {
        success,
        output: stdout_text,
        error_message: if success { None } else { Some(stderr_text) },
        execution_time: TimeSpan::from_millis(0),
        return_code: Some(match code { Some(c) => c, None => -1 }),
        stdout_file: None,
        stderr_file: None,
        logs: Vec::new(),
    }
}

/// The result of creating a file, given the path as it is displayed.
pub fn file_created_result(path_display: &str) -> (r: ExecutionResult)
    ensures
        is_plain_success(r, "File created: "@ + path_display@),
{
    let mut v = chars_of("File created: ");
    push_str(&mut v, path_display);
    plain_success(string_from_chars(&v))
}

/// Macro action type.
#[derive(Debug, Clone)]
pub enum MacroActionType {
    TypeText { text: String },
    PressKey { key: Key },
    ExecuteScript { script_id: u128 },
    Navigate { path: String },
    Select { selector: String },
    Focus { element: String },
    Click { element: String, button: MouseButton },
    Scroll { direction: ScrollDirection, amount: u32 },
    Delay { duration: TimeSpan },
}

/// One step of a macro.
#[derive(Debug, Clone)]
pub struct MacroAction {
    pub action_type: MacroActionType,
    pub parameters: StrMap<serde_json::Value>,
}

/// Workspace state information.
#[derive(Debug, Clone)]
pub struct WorkspaceState {
    pub open_documents: Vec<u128>,
    pub active_tool: Option<String>,
    pub sidebar_visible: bool,
    pub toolbar_visible: bool,
    pub current_view: ViewType,
}

/// Macro context.
#[derive(Debug, Clone)]
pub struct MacroContext {
    pub active_tool: Option<String>,
    pub selected_text: Option<String>,
    pub cursor_position: Option<(u32, u32)>,
    pub active_document: Option<u128>,
    pub workspace_state: WorkspaceState,
}

/// Macro definition and configuration.
#[derive(Debug, Clone)]
pub struct Macro {
    pub id: u128,
    pub name: String,
    pub description: String,
    pub key_combination: KeyCombination,
    pub actions: Vec<MacroAction>,
    pub context: MacroContext,
    pub enabled: bool,
    pub created_at: DateTimeUtc,
    pub updated_at: DateTimeUtc,
}

/// What the caller does for one macro action.
#[derive(Debug, Clone, Copy, PartialEq, Eq, Structural)]
pub enum MacroStep {
    /// Nothing beyond the log.
    Logged,
    /// Run a script.
    RunScript(u128),
    /// Wait for a while.
    Wait(TimeSpan),
}

/// Logs one macro action, given its description (its `Debug` text), and
/// says what the caller does for it: typed text is logged as typed, a
/// script is run, a delay is waited; other actions are only logged.
pub fn macro_action_step(action: &MacroAction, description: &str, logs: &mut Vec<LogEntry>) -> (step: MacroStep)
    ensures
        logs_view(final(logs)@) == logs_view(old(logs)@)
            + seq![(LogLevel::Info, "Executing macro action: "@ + description@, "macro"@)]
            + match action.action_type {
                MacroActionType::TypeText { text } => seq![(LogLevel::Debug, "Typing text: "@ + text@, "macro"@)],
                _ => Seq::empty(),
            },
        step == match action.action_type {
            MacroActionType::ExecuteScript { script_id } => MacroStep::RunScript(script_id),
            MacroActionType::Delay { duration } => MacroStep::Wait(duration),
            _ => MacroStep::Logged,
        },
{
    let mut m = chars_of("Executing macro action: ");
    push_str(&mut m, description);
    let ghost lv0 = logs_view(logs@);
    let e1 = log_entry(LogLevel::Info, string_from_chars(&m), "macro");
    logs.push(e1);
    assert(logs_view(logs@) =~= lv0.push(log_view(e1)));
    match &action.action_type {
        MacroActionType::TypeText { text } => {
            let mut t = chars_of("Typing text: ");
            push_str(&mut t, text.as_str());
            let ghost lv1 = logs_view(logs@);
            let e2 = log_entry(LogLevel::Debug, string_from_chars(&t), "macro");
            logs.push(e2);
            assert(logs_view(logs@) =~= lv1.push(log_view(e2)));
            MacroStep::Logged
        },
        MacroActionType::ExecuteScript { script_id } => {
            assert(logs_view(logs@) =~= lv0.push(log_view(e1)) + Seq::empty());
            MacroStep::RunScript(*script_id)
        },
        MacroActionType::Delay { duration } => {
            assert(logs_view(logs@) =~= lv0.push(log_view(e1)) + Seq::empty());
            MacroStep::Wait(*duration)
        },
        _ => {
            assert(logs_view(logs@) =~= lv0.push(log_view(e1)) + Seq::empty());
            MacroStep::Logged
        },
    }
}

/// The result of a macro that ran all its actions.
pub fn macro_result(logs: Vec<LogEntry>, elapsed: TimeSpan) -> (r: ExecutionResult)
    ensures
        r.success,
        r.output@ == "Macro executed successfully"@,
        r.error_message is None,
        r.execution_time == elapsed,
        r.return_code == Some(0i32),
        r.stdout_file is None,
        r.stderr_file is None,
        r.logs@ == logs@,
{
    ExecutionResult {
        success: true,
        output: "Macro executed successfully".to_string(),
        error_message: None,
        execution_time: elapsed,
        return_code: Some(0),
        stdout_file: None,
        stderr_file: None,
        logs,
    }
}

/// Error types for automation.
#[derive(Debug, Clone, Copy, PartialEq, Eq, Structural)]
pub enum AutomationError {
    ScriptNotFound(u128),
    WorkflowNotFound(u128),
    MacroNotFound(u128),
    ExecutionTimeout,
    PermissionDenied,
    InvalidScript,
    SandboxViolation,
}

impl AutomationError {
    /// The text that the error displays.
    pub open spec fn spec_message(self) -> Seq<char> {
        match self {
            AutomationError::ScriptNotFound(id) => "Script not found: "@ + spec_uuid_text(id),
            AutomationError::WorkflowNotFound(id) => "Workflow not found: "@ + spec_uuid_text(id),
            AutomationError::MacroNotFound(id) => "Macro not found: "@ + spec_uuid_text(id),
            AutomationError::ExecutionTimeout => "Script execution timed out"@,
            AutomationError::PermissionDenied => "Permission denied for script execution"@,
            AutomationError::InvalidScript => "Invalid script content"@,
            AutomationError::SandboxViolation => "Sandbox security violation detected"@,
        }
    }

    /// The text that the error displays (its `Display`).
    pub fn message(&self) -> (r: String)
        ensures
            r@ == self.spec_message(),
    {
        let mut v: Vec<char> = Vec::new();
        match self {
            AutomationError::ScriptNotFound(id) => {
                push_str(&mut v, "Script not found: ");
                push_str(&mut v, uuid_text(*id).as_str());
            },
            AutomationError::WorkflowNotFound(id) => {
                push_str(&mut v, "Workflow not found: ");
                push_str(&mut v, uuid_text(*id).as_str());
            },
            AutomationError::MacroNotFound(id) => {
                push_str(&mut v, "Macro not found: ");
                push_str(&mut v, uuid_text(*id).as_str());
            },
            AutomationError::ExecutionTimeout => push_str(&mut v, "Script execution timed out"),
            AutomationError::PermissionDenied => push_str(&mut v, "Permission denied for script execution"),
            AutomationError::InvalidScript => push_str(&mut v, "Invalid script content"),
            AutomationError::SandboxViolation => push_str(&mut v, "Sandbox security violation detected"),
        }
        assert(v@ =~= self.spec_message());
        string_from_chars(&v)
    }
}

/// The script engine's records: scripts, workflows and macros by
/// identifier, the history of executions, the runtime context and the
/// sandbox's security policies.
pub struct ScriptEngine {
    pub scripts: HashMap<u128, Script>,
    pub workflows: HashMap<u128, AutomationWorkflow>,
    pub macros: HashMap<u128, Macro>,
    pub execution_history: ExecutionHistory,
    pub runtime_context: RuntimeContext,
    pub security_policies: SecurityPolicies,
}

impl ScriptEngine {
    /// An engine without scripts, workflows, macros or history, with a fresh
    /// runtime context and the default security policies.
    pub fn new() -> (e: Self)
        ensures
            e.scripts@ == Map::<u128, Script>::empty(),
            e.workflows@ == Map::<u128, AutomationWorkflow>::empty(),
            e.macros@ == Map::<u128, Macro>::empty(),
            e.execution_history.wf(),
            e.execution_history.entries@.len() == 0,
            e.runtime_context.current_execution is None,
            e.runtime_context.execution_count == 0,
            e.runtime_context.active_variables.wf(),
            e.runtime_context.active_variables.entries@.len() == 0,
            is_default_permissions(e.runtime_context.execution_permissions),
            !e.security_policies.allow_network_access,
            e.security_policies.allow_file_system_access,
            !e.security_policies.allow_external_commands,
            string_views(e.security_policies.allowed_file_extensions@) == seq!["txt"@, "md"@, "json"@],
            e.security_policies.sandbox_by_default,
    {
        ScriptEngine {
            scripts: HashMap::new(),
            workflows: HashMap::new(),
            macros: HashMap::new(),
            execution_history: ExecutionHistory::new(),
            runtime_context: RuntimeContext::new(),
            security_policies: default_security_policies(),
        }
    }

    /// Stores a script under its identifier (replacing one stored there) and
    /// gives the identifier.
    pub fn create_script(&mut self, script: Script) -> (id: u128)
        ensures
            id == script.id,
            final(self).scripts@ == old(self).scripts@.insert(script.id, script),
            final(self).workflows@ == old(self).workflows@,
            final(self).macros@ == old(self).macros@,
    {
        broadcast use vstd::std_specs::hash::group_hash_axioms;
        let id = script.id;
        self.scripts.insert(id, script);
        id
    }

    /// The script stored under an identifier.
    pub fn get_script(&self, script_id: u128) -> (r: Option<&Script>)
        ensures
            match r {
                Some(s) => self.scripts@.contains_key(script_id) && *s == self.scripts@[script_id],
                None => !self.scripts@.contains_key(script_id),
            },
    {
        broadcast use vstd::std_specs::hash::group_hash_axioms;
        self.scripts.get(&script_id)
    }

    /// Stores a workflow under its identifier and gives the identifier.
    pub fn create_workflow(&mut self, workflow: AutomationWorkflow) -> (id: u128)
        ensures
            id == workflow.id,
            final(self).workflows@ == old(self).workflows@.insert(workflow.id, workflow),
            final(self).scripts@ == old(self).scripts@,
            final(self).macros@ == old(self).macros@,
    {
        broadcast use vstd::std_specs::hash::group_hash_axioms;
        let id = workflow.id;
        self.workflows.insert(id, workflow);
        id
    }

    /// The workflow stored under an identifier; an error naming the
    /// identifier where there is none.
    pub fn get_workflow(&self, workflow_id: u128) -> (r: Result<&AutomationWorkflow, AutomationError>)
        ensures
            match r {
                Ok(w) => self.workflows@.contains_key(workflow_id) && *w == self.workflows@[workflow_id],
                Err(e) => !self.workflows@.contains_key(workflow_id) && e == AutomationError::WorkflowNotFound(workflow_id),
            },
    {
        broadcast use vstd::std_specs::hash::group_hash_axioms;
        match self.workflows.get(&workflow_id) {
            Some(w) => Ok(w),
            None => Err(AutomationError::WorkflowNotFound(workflow_id)),
        }
    }

    /// Stores a macro under its identifier and gives the identifier.
    pub fn create_macro(&mut self, macro_def: Macro) -> (id: u128)
        ensures
            id == macro_def.id,
            final(self).macros@ == old(self).macros@.insert(macro_def.id, macro_def),
            final(self).scripts@ == old(self).scripts@,
            final(self).workflows@ == old(self).workflows@,
    {
        broadcast use vstd::std_specs::hash::group_hash_axioms;
        let id = macro_def.id;
        self.macros.insert(id, macro_def);
        id
    }

    /// The macro stored under an identifier; an error naming the identifier
    /// where there is none.
    pub fn get_macro(&self, macro_id: u128) -> (r: Result<&Macro, AutomationError>)
        ensures
            match r {
                Ok(m) => self.macros@.contains_key(macro_id) && *m == self.macros@[macro_id],
                Err(e) => !self.macros@.contains_key(macro_id) && e == AutomationError::MacroNotFound(macro_id),
            },
    {
        broadcast use vstd::std_specs::hash::group_hash_axioms;
        match self.macros.get(&macro_id) {
            Some(m) => Ok(m),
            None => Err(AutomationError::MacroNotFound(macro_id)),
        }
    }
}

} // verus!

verus! {

/// The limits of a sandboxed run: the script's own memory limit and
/// timeout, else 100 MB and 30 s; 100 MB of disk, 64 open files, one
/// process.
pub fn sandbox_limits(p: &ScriptPermissions) -> (r: ResourceLimits)
    ensures
        r.max_memory == match p.memory_limit { Some(m) => m, None => 104_857_600 },
        r.max_cpu_time == match p.execution_timeout { Some(t) => t, None => TimeSpan { secs: 30, nanos: 0 } },
        r.max_disk_space == 104_857_600,
        r.max_file_descriptors == 64,
        r.max_processes == 1,
{
    ResourceLimits {
        max_memory: match p.memory_limit { Some(m) => m, None => 104_857_600 },
        max_cpu_time: match p.execution_timeout { Some(t) => t, None => TimeSpan::from_secs(30) },
        max_disk_space: 104_857_600,
        max_file_descriptors: 64,
        max_processes: 1,
    }
}

/// The directory a sandboxed run works in.
pub open spec fn spec_sandbox_workspace(execution_id: u128) -> Seq<char> {
    "sandbox/"@ + spec_uuid_text(execution_id)
}

/// The directory a sandboxed run works in.
pub fn sandbox_workspace(execution_id: u128) -> (r: String)
    ensures
        r@ == spec_sandbox_workspace(execution_id),
{
    let mut v = chars_of("sandbox/");
    push_str(&mut v, uuid_text(execution_id).as_str());
    string_from_chars(&v)
}

/// A name for the text `{:?}` prints for a string: quoted, with
/// `str::escape_debug` applied.
pub uninterp spec fn spec_debug_text(s: Seq<char>) -> Seq<char>;

/// The debug form of a string (`format!("{:?}", s)`); the escaping is
/// std's and is not restated, the text is named by `spec_debug_text`.
#[verifier::external_body]
fn debug_text(s: &str) -> (r: String)
    ensures
        r@ == spec_debug_text(s@),
{
    format!("{:?}", s)
}

/// What running a script in the sandbox comes to: a Rust script is
/// compiled and run; the other languages are answered at once.
#[derive(Debug)]
pub enum SandboxRun {
    CompileRust,
    Finished(ExecutionResult),
}

/// The answer for a script that is not yet run for real, taking 10 ms.
pub open spec fn is_placeholder_run(r: ExecutionResult, output: Seq<char>) -> bool {
    &&& r.success
    &&& r.output@ == output
    &&& r.error_message is None
    &&& r.execution_time == (TimeSpan { secs: 0, nanos: 10_000_000 })
    &&& r.return_code == Some(0i32)
    &&& r.stdout_file is None
    &&& r.stderr_file is None
    &&& r.logs@.len() == 0
}

fn placeholder_run(output: String) -> (r: ExecutionResult)
    ensures
        is_placeholder_run(r, output@),
{
    ExecutionResult {
        success: true,
        output,
        error_message: None,
        execution_time: TimeSpan::from_millis(10),
        return_code: Some(0),
        stdout_file: None,
        stderr_file: None,
        logs: Vec::new(),
    }
}

/// How a sandboxed script of a language is run.
pub fn sandbox_dispatch(language: &ScriptLanguage) -> (r: SandboxRun)
    ensures
        match language {
            ScriptLanguage::Rust => r is CompileRust,
            ScriptLanguage::JavaScript => r matches SandboxRun::Finished(x)
                && is_placeholder_run(x, "JavaScript execution not yet implemented"@),
            ScriptLanguage::Python => r matches SandboxRun::Finished(x)
                && is_placeholder_run(x, "Python execution not yet implemented"@),
            ScriptLanguage::Lua => r matches SandboxRun::Finished(x)
                && is_placeholder_run(x, "Lua execution not yet implemented"@),
            ScriptLanguage::Custom(name) => r matches SandboxRun::Finished(x)
                && is_placeholder_run(x, "Custom script execution for language: Custom("@ + spec_debug_text(name@) + ")"@),
        },
{
    match language {
        ScriptLanguage::Rust => SandboxRun::CompileRust,
        ScriptLanguage::JavaScript => SandboxRun::Finished(placeholder_run("JavaScript execution not yet implemented".to_string())),
        ScriptLanguage::Python => SandboxRun::Finished(placeholder_run("Python execution not yet implemented".to_string())),
        ScriptLanguage::Lua => SandboxRun::Finished(placeholder_run("Lua execution not yet implemented".to_string())),
        ScriptLanguage::Custom(name) => {
            let mut v = chars_of("Custom script execution for language: Custom(");
            push_str(&mut v, debug_text(name.as_str()).as_str());
            push_str(&mut v, ")");
            SandboxRun::Finished(placeholder_run(string_from_chars(&v)))
        },
    }
}

/// The refusal of a script run outside the sandbox.
pub fn direct_execution_error() -> (e: crate::error::AppError)
    ensures
        e matches crate::error::AppError::ToolPermissionError { tool, operation, error }
            && tool@ == "script"@ && operation@ == "direct_execution"@
            && error@ == "Direct execution not allowed for security reasons"@,
{
    crate::error::AppError::ToolPermissionError {
        tool: "script".to_string(),
        operation: "direct_execution".to_string(),
        error: "Direct execution not allowed for security reasons".to_string(),
    }
}

/// The error for a script that is not registered.
pub fn script_not_found(script_id: u128) -> (e: crate::error::AppError)
    ensures
        e matches crate::error::AppError::ToolNotFound { tool } && tool@ == "script_"@ + spec_uuid_text(script_id),
{
    let mut v = chars_of("script_");
    push_str(&mut v, uuid_text(script_id).as_str());
    crate::error::AppError::ToolNotFound { tool: string_from_chars(&v) }
}

} // verus!
