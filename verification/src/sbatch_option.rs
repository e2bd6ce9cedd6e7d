//! The closed catalog of `sbatch` options: one variant per flag, each
//! validated independently, rendered as its long form, and parsed from
//! a `--key=value`, `--key value`, `-k value`, `--key`, or `-k` argument.

use vstd::prelude::*;
use vstd::string::*;

use crate::dependency::seg_valid;
use crate::num;
use crate::num::{all_digits, dec_str, dec_val, int_ok, int_str, int_val};
use crate::regex_match::{arg_key, arg_value, arg_shape_some, RegexMatch};
use crate::sbatch_dependency::{canon_clauses, expr_clause_views, expr_ok, expr_sep,
    expr_text, SbatchDependency, SbatchDependencyError};
use crate::text::trim_seq;

verus! {

/// One `sbatch` option, named after its long flag. String payloads are
/// raw values; numeric payloads are strictly positive numbers.
#[derive(Debug, Clone, PartialEq, Eq, Hash)]
pub enum SbatchOption {
    Account(String),
    AcctgFreq(String),
    Array(String),
    Batch(String),
    Bb(String),
    Bbf(String),
    Begin(String),
    Chdir(String),
    ClusterConstraint(String),
    Clusters(String),
    Comment(String),
    Constraint(String),
    Container(String),
    ContainerID(String),
    Contiguous,
    CoreSpec(u32),
    CoresPerSocket(u32),
    CPUFreq(String),
    CPUsPerGPU(u32),
    CPUsPerTask(u32),
    Deadline(String),
    DelayBoot(u32),
    Dependency(SbatchDependency),
    Distribution(String),
    Error(String),
    Exclude(String),
    Exclusive(Option<String>),
    Export(String),
    ExportFile(String),
    Extra(String),
    ExtraNodeInfo(String),
    GetUserEnv(Option<String>),
    GID(String),
    GPUBind(String),
    GPUFreq(String),
    GPUs(String),
    GPUsPerNode(String),
    GPUsPerSocket(String),
    GPUsPerTask(String),
    Gres(String),
    GresFlags(String),
    Help,
    Hint(String),
    Hold,
    IgnorePbs,
    Input(String),
    JobName(String),
    KillOnInvalidDep(String),
    Licenses(String),
    MailType(String),
    MailUser(String),
    McsLabel(String),
    Mem(String),
    MemBind(String),
    MemPerCPU(String),
    MemPerGPU(String),
    MinCPUs(u32),
    Network(String),
    Nice(Option<i32>),
    NoKill(Option<String>),
    NoRequeue,
    NodeFile(String),
    NodeList(String),
    Nodes(String),
    NTasks(u32),
    NTasksPerCore(u32),
    NTasksPerGPU(u32),
    NTasksPerNode(u32),
    NTasksPerSocket(u32),
    OOMKillStep(Option<String>),
    OpenMode(String),
    Output(String),
    Overcommit,
    Oversubscribe,
    Parsable,
    Partition(String),
    Prefer(String),
    Priority(String),
    Profile(String),
    Propagate(Option<String>),
    Qos(String),
    Quiet,
    Reboot,
    Requeue,
    Reservation(String),
    ResvPorts(Option<String>),
    Segment(String),
    Signal(String),
    SocketsPerNode(String),
    SpreadJob,
    Stepmgr,
    Switches(String),
    TestOnly,
    ThreadSpec(u32),
    ThreadsPerCore(u32),
    Time(String),
    TimeMin(String),
    Tmp(String),
    TresBind(String),
    TresPerTask(String),
    UID(String),
    Usage,
    UseMinNodes,
    Verbose,
    Version,
    Wait,
    WaitAllNodes(String),
    WCKey(String),
    Wrap(String),
}

/// Errors raised when building or parsing an option.
#[derive(Debug, Clone, PartialEq, Eq)]
pub enum SbatchOptionError {
    /// A string value is empty or whitespace only.
    EmptyString,
    /// A string value has leading or trailing whitespace.
    LeadingOrTrailingSpaces,
    /// A numeric value does not parse; carries the raw text.
    ParseValueError(String),
    /// A dependency expression does not parse.
    ParseDependencyError(SbatchDependencyError),
    /// A numeric value is zero where a positive number is required.
    ValueMustBeGreaterThanZero,
    /// The key, or the key and value arity, is not recognised; carries
    /// the raw text.
    UnknownArgument(String),
}

/// The rendered form of an option: its long flag, and `=value` where
/// one is carried.
pub open spec fn option_text(o: &SbatchOption) -> Seq<char> {
    match o {
        SbatchOption::Account(v) => "--account="@ + v@,
        SbatchOption::AcctgFreq(v) => "--acctg-freq="@ + v@,
        SbatchOption::Array(v) => "--array="@ + v@,
        SbatchOption::Batch(v) => "--batch="@ + v@,
        SbatchOption::Bb(v) => "--bb="@ + v@,
        SbatchOption::Bbf(v) => "--bbf="@ + v@,
        SbatchOption::Begin(v) => "--begin="@ + v@,
        SbatchOption::Chdir(v) => "--chdir="@ + v@,
        SbatchOption::ClusterConstraint(v) => "--cluster-constraint="@ + v@,
        SbatchOption::Clusters(v) => "--clusters="@ + v@,
        SbatchOption::Comment(v) => "--comment="@ + v@,
        SbatchOption::Constraint(v) => "--constraint="@ + v@,
        SbatchOption::Container(v) => "--container="@ + v@,
        SbatchOption::ContainerID(v) => "--container-id="@ + v@,
        SbatchOption::Contiguous => "--contiguous"@,
        SbatchOption::CoreSpec(v) => "--core-spec="@ + dec_str(*v as nat),
        SbatchOption::CoresPerSocket(v) => "--cores-per-socket="@ + dec_str(*v as nat),
        SbatchOption::CPUFreq(v) => "--cpu-freq="@ + v@,
        SbatchOption::CPUsPerGPU(v) => "--cpus-per-gpu="@ + dec_str(*v as nat),
        SbatchOption::CPUsPerTask(v) => "--cpus-per-task="@ + dec_str(*v as nat),
        SbatchOption::Deadline(v) => "--deadline="@ + v@,
        SbatchOption::DelayBoot(v) => "--delay-boot="@ + dec_str(*v as nat),
        SbatchOption::Dependency(d) => "--dependency="@ + expr_text(d@),
        SbatchOption::Distribution(v) => "--distribution="@ + v@,
        SbatchOption::Error(v) => "--error="@ + v@,
        SbatchOption::Exclude(v) => "--exclude="@ + v@,
        SbatchOption::Exclusive(Some(v)) => "--exclusive="@ + v@,
        SbatchOption::Exclusive(None) => "--exclusive"@,
        SbatchOption::Export(v) => "--export="@ + v@,
        SbatchOption::ExportFile(v) => "--export-file="@ + v@,
        SbatchOption::Extra(v) => "--extra="@ + v@,
        SbatchOption::ExtraNodeInfo(v) => "--extra-node-info="@ + v@,
        SbatchOption::GetUserEnv(Some(v)) => "--get-user-env="@ + v@,
        SbatchOption::GetUserEnv(None) => "--get-user-env"@,
        SbatchOption::GID(v) => "--gid="@ + v@,
        SbatchOption::GPUBind(v) => "--gpu-bind="@ + v@,
        SbatchOption::GPUFreq(v) => "--gpu-freq="@ + v@,
        SbatchOption::GPUs(v) => "--gpus="@ + v@,
        SbatchOption::GPUsPerNode(v) => "--gpus-per-node="@ + v@,
        SbatchOption::GPUsPerSocket(v) => "--gpus-per-socket="@ + v@,
        SbatchOption::GPUsPerTask(v) => "--gpus-per-task="@ + v@,
        SbatchOption::Gres(v) => "--gres="@ + v@,
        SbatchOption::GresFlags(v) => "--gres-flags="@ + v@,
        SbatchOption::Help => "--help"@,
        SbatchOption::Hint(v) => "--hint="@ + v@,
        SbatchOption::Hold => "--hold"@,
        SbatchOption::IgnorePbs => "--ignore-pbs"@,
        SbatchOption::Input(v) => "--input="@ + v@,
        SbatchOption::JobName(v) => "--job-name="@ + v@,
        SbatchOption::KillOnInvalidDep(v) => "--kill-on-invalid-dep="@ + v@,
        SbatchOption::Licenses(v) => "--licenses="@ + v@,
        SbatchOption::MailType(v) => "--mail-type="@ + v@,
        SbatchOption::MailUser(v) => "--mail-user="@ + v@,
        SbatchOption::McsLabel(v) => "--mcs-label="@ + v@,
        SbatchOption::Mem(v) => "--mem="@ + v@,
        SbatchOption::MemBind(v) => "--mem-bind="@ + v@,
        SbatchOption::MemPerCPU(v) => "--mem-per-cpu="@ + v@,
        SbatchOption::MemPerGPU(v) => "--mem-per-gpu="@ + v@,
        SbatchOption::MinCPUs(v) => "--min-cpus="@ + dec_str(*v as nat),
        SbatchOption::Network(v) => "--network="@ + v@,
        SbatchOption::Nice(Some(v)) => "--nice="@ + int_str(*v as int),
        SbatchOption::Nice(None) => "--nice"@,
        SbatchOption::NoKill(Some(v)) => "--no-kill="@ + v@,
        SbatchOption::NoKill(None) => "--no-kill"@,
        SbatchOption::NoRequeue => "--no-requeue"@,
        SbatchOption::NodeFile(v) => "--nodefile="@ + v@,
        SbatchOption::NodeList(v) => "--nodelist="@ + v@,
        SbatchOption::Nodes(v) => "--nodes="@ + v@,
        SbatchOption::NTasks(v) => "--ntasks="@ + dec_str(*v as nat),
        SbatchOption::NTasksPerCore(v) => "--ntasks-per-core="@ + dec_str(*v as nat),
        SbatchOption::NTasksPerGPU(v) => "--ntasks-per-gpu="@ + dec_str(*v as nat),
        SbatchOption::NTasksPerNode(v) => "--ntasks-per-node="@ + dec_str(*v as nat),
        SbatchOption::NTasksPerSocket(v) => "--ntasks-per-socket="@ + dec_str(*v as nat),
        SbatchOption::OOMKillStep(Some(v)) => "--oom-kill-step="@ + v@,
        SbatchOption::OOMKillStep(None) => "--oom-kill-step"@,
        SbatchOption::OpenMode(v) => "--open-mode="@ + v@,
        SbatchOption::Output(v) => "--output="@ + v@,
        SbatchOption::Overcommit => "--overcommit"@,
        SbatchOption::Oversubscribe => "--oversubscribe"@,
        SbatchOption::Parsable => "--parsable"@,
        SbatchOption::Partition(v) => "--partition="@ + v@,
        SbatchOption::Prefer(v) => "--prefer="@ + v@,
        SbatchOption::Priority(v) => "--priority="@ + v@,
        SbatchOption::Profile(v) => "--profile="@ + v@,
        SbatchOption::Propagate(Some(v)) => "--propagate="@ + v@,
        SbatchOption::Propagate(None) => "--propagate"@,
        SbatchOption::Qos(v) => "--qos="@ + v@,
        SbatchOption::Quiet => "--quiet"@,
        SbatchOption::Reboot => "--reboot"@,
        SbatchOption::Requeue => "--requeue"@,
        SbatchOption::Reservation(v) => "--reservation="@ + v@,
        SbatchOption::ResvPorts(Some(v)) => "--resv-ports="@ + v@,
        SbatchOption::ResvPorts(None) => "--resv-ports"@,
        SbatchOption::Segment(v) => "--segment="@ + v@,
        SbatchOption::Signal(v) => "--signal="@ + v@,
        SbatchOption::SocketsPerNode(v) => "--sockets-per-node="@ + v@,
        SbatchOption::SpreadJob => "--spread-job"@,
        SbatchOption::Stepmgr => "--stepmgr"@,
        SbatchOption::Switches(v) => "--switches="@ + v@,
        SbatchOption::TestOnly => "--test-only"@,
        SbatchOption::ThreadSpec(v) => "--thread-spec="@ + dec_str(*v as nat),
        SbatchOption::ThreadsPerCore(v) => "--threads-per-core="@ + dec_str(*v as nat),
        SbatchOption::Time(v) => "--time="@ + v@,
        SbatchOption::TimeMin(v) => "--time-min="@ + v@,
        SbatchOption::Tmp(v) => "--tmp="@ + v@,
        SbatchOption::TresBind(v) => "--tres-bind="@ + v@,
        SbatchOption::TresPerTask(v) => "--tres-per-task="@ + v@,
        SbatchOption::UID(v) => "--uid="@ + v@,
        SbatchOption::Usage => "--usage"@,
        SbatchOption::UseMinNodes => "--use-min-nodes"@,
        SbatchOption::Verbose => "--verbose"@,
        SbatchOption::Version => "--version"@,
        SbatchOption::Wait => "--wait"@,
        SbatchOption::WaitAllNodes(v) => "--wait-all-nodes="@ + v@,
        SbatchOption::WCKey(v) => "--wckey="@ + v@,
        SbatchOption::Wrap(v) => "--wrap="@ + v@,
    }
}

/// A distinct rank for each variant, used to compare options by flag
/// identity alone.
pub open spec fn tag(o: &SbatchOption) -> int {
    match o {
        SbatchOption::Account(_) => 0,
        SbatchOption::AcctgFreq(_) => 1,
        SbatchOption::Array(_) => 2,
        SbatchOption::Batch(_) => 3,
        SbatchOption::Bb(_) => 4,
        SbatchOption::Bbf(_) => 5,
        SbatchOption::Begin(_) => 6,
        SbatchOption::Chdir(_) => 7,
        SbatchOption::ClusterConstraint(_) => 8,
        SbatchOption::Clusters(_) => 9,
        SbatchOption::Comment(_) => 10,
        SbatchOption::Constraint(_) => 11,
        SbatchOption::Container(_) => 12,
        SbatchOption::ContainerID(_) => 13,
        SbatchOption::Contiguous => 14,
        SbatchOption::CoreSpec(_) => 15,
        SbatchOption::CoresPerSocket(_) => 16,
        SbatchOption::CPUFreq(_) => 17,
        SbatchOption::CPUsPerGPU(_) => 18,
        SbatchOption::CPUsPerTask(_) => 19,
        SbatchOption::Deadline(_) => 20,
        SbatchOption::DelayBoot(_) => 21,
        SbatchOption::Dependency(_) => 22,
        SbatchOption::Distribution(_) => 23,
        SbatchOption::Error(_) => 24,
        SbatchOption::Exclude(_) => 25,
        SbatchOption::Exclusive(_) => 26,
        SbatchOption::Export(_) => 27,
        SbatchOption::ExportFile(_) => 28,
        SbatchOption::Extra(_) => 29,
        SbatchOption::ExtraNodeInfo(_) => 30,
        SbatchOption::GetUserEnv(_) => 31,
        SbatchOption::GID(_) => 32,
        SbatchOption::GPUBind(_) => 33,
        SbatchOption::GPUFreq(_) => 34,
        SbatchOption::GPUs(_) => 35,
        SbatchOption::GPUsPerNode(_) => 36,
        SbatchOption::GPUsPerSocket(_) => 37,
        SbatchOption::GPUsPerTask(_) => 38,
        SbatchOption::Gres(_) => 39,
        SbatchOption::GresFlags(_) => 40,
        SbatchOption::Help => 41,
        SbatchOption::Hint(_) => 42,
        SbatchOption::Hold => 43,
        SbatchOption::IgnorePbs => 44,
        SbatchOption::Input(_) => 45,
        SbatchOption::JobName(_) => 46,
        SbatchOption::KillOnInvalidDep(_) => 47,
        SbatchOption::Licenses(_) => 48,
        SbatchOption::MailType(_) => 49,
        SbatchOption::MailUser(_) => 50,
        SbatchOption::McsLabel(_) => 51,
        SbatchOption::Mem(_) => 52,
        SbatchOption::MemBind(_) => 53,
        SbatchOption::MemPerCPU(_) => 54,
        SbatchOption::MemPerGPU(_) => 55,
        SbatchOption::MinCPUs(_) => 56,
        SbatchOption::Network(_) => 57,
        SbatchOption::Nice(_) => 58,
        SbatchOption::NoKill(_) => 59,
        SbatchOption::NoRequeue => 60,
        SbatchOption::NodeFile(_) => 61,
        SbatchOption::NodeList(_) => 62,
        SbatchOption::Nodes(_) => 63,
        SbatchOption::NTasks(_) => 64,
        SbatchOption::NTasksPerCore(_) => 65,
        SbatchOption::NTasksPerGPU(_) => 66,
        SbatchOption::NTasksPerNode(_) => 67,
        SbatchOption::NTasksPerSocket(_) => 68,
        SbatchOption::OOMKillStep(_) => 69,
        SbatchOption::OpenMode(_) => 70,
        SbatchOption::Output(_) => 71,
        SbatchOption::Overcommit => 72,
        SbatchOption::Oversubscribe => 73,
        SbatchOption::Parsable => 74,
        SbatchOption::Partition(_) => 75,
        SbatchOption::Prefer(_) => 76,
        SbatchOption::Priority(_) => 77,
        SbatchOption::Profile(_) => 78,
        SbatchOption::Propagate(_) => 79,
        SbatchOption::Qos(_) => 80,
        SbatchOption::Quiet => 81,
        SbatchOption::Reboot => 82,
        SbatchOption::Requeue => 83,
        SbatchOption::Reservation(_) => 84,
        SbatchOption::ResvPorts(_) => 85,
        SbatchOption::Segment(_) => 86,
        SbatchOption::Signal(_) => 87,
        SbatchOption::SocketsPerNode(_) => 88,
        SbatchOption::SpreadJob => 89,
        SbatchOption::Stepmgr => 90,
        SbatchOption::Switches(_) => 91,
        SbatchOption::TestOnly => 92,
        SbatchOption::ThreadSpec(_) => 93,
        SbatchOption::ThreadsPerCore(_) => 94,
        SbatchOption::Time(_) => 95,
        SbatchOption::TimeMin(_) => 96,
        SbatchOption::Tmp(_) => 97,
        SbatchOption::TresBind(_) => 98,
        SbatchOption::TresPerTask(_) => 99,
        SbatchOption::UID(_) => 100,
        SbatchOption::Usage => 101,
        SbatchOption::UseMinNodes => 102,
        SbatchOption::Verbose => 103,
        SbatchOption::Version => 104,
        SbatchOption::Wait => 105,
        SbatchOption::WaitAllNodes(_) => 106,
        SbatchOption::WCKey(_) => 107,
        SbatchOption::Wrap(_) => 108,
    }
}

/// Whether the option's value is acceptable: string values must be
/// non-empty and free of outer whitespace; flags, numbers, dependency
/// expressions, and `--wrap` carry no further constraint.
pub open spec fn option_valid(o: &SbatchOption) -> bool {
    match o {
        SbatchOption::Account(v) => seg_valid(v@),
        SbatchOption::AcctgFreq(v) => seg_valid(v@),
        SbatchOption::Array(v) => seg_valid(v@),
        SbatchOption::Batch(v) => seg_valid(v@),
        SbatchOption::Bb(v) => seg_valid(v@),
        SbatchOption::Bbf(v) => seg_valid(v@),
        SbatchOption::Begin(v) => seg_valid(v@),
        SbatchOption::Chdir(v) => seg_valid(v@),
        SbatchOption::ClusterConstraint(v) => seg_valid(v@),
        SbatchOption::Clusters(v) => seg_valid(v@),
        SbatchOption::Comment(v) => seg_valid(v@),
        SbatchOption::Constraint(v) => seg_valid(v@),
        SbatchOption::Container(v) => seg_valid(v@),
        SbatchOption::ContainerID(v) => seg_valid(v@),
        SbatchOption::Contiguous => true,
        SbatchOption::CoreSpec(_) => true,
        SbatchOption::CoresPerSocket(_) => true,
        SbatchOption::CPUFreq(v) => seg_valid(v@),
        SbatchOption::CPUsPerGPU(_) => true,
        SbatchOption::CPUsPerTask(_) => true,
        SbatchOption::Deadline(v) => seg_valid(v@),
        SbatchOption::DelayBoot(_) => true,
        SbatchOption::Dependency(_) => true,
        SbatchOption::Distribution(v) => seg_valid(v@),
        SbatchOption::Error(v) => seg_valid(v@),
        SbatchOption::Exclude(v) => seg_valid(v@),
        SbatchOption::Exclusive(Some(v)) => seg_valid(v@),
        SbatchOption::Exclusive(None) => true,
        SbatchOption::Export(v) => seg_valid(v@),
        SbatchOption::ExportFile(v) => seg_valid(v@),
        SbatchOption::Extra(v) => seg_valid(v@),
        SbatchOption::ExtraNodeInfo(v) => seg_valid(v@),
        SbatchOption::GetUserEnv(Some(v)) => seg_valid(v@),
        SbatchOption::GetUserEnv(None) => true,
        SbatchOption::GID(v) => seg_valid(v@),
        SbatchOption::GPUBind(v) => seg_valid(v@),
        SbatchOption::GPUFreq(v) => seg_valid(v@),
        SbatchOption::GPUs(v) => seg_valid(v@),
        SbatchOption::GPUsPerNode(v) => seg_valid(v@),
        SbatchOption::GPUsPerSocket(v) => seg_valid(v@),
        SbatchOption::GPUsPerTask(v) => seg_valid(v@),
        SbatchOption::Gres(v) => seg_valid(v@),
        SbatchOption::GresFlags(v) => seg_valid(v@),
        SbatchOption::Help => true,
        SbatchOption::Hint(v) => seg_valid(v@),
        SbatchOption::Hold => true,
        SbatchOption::IgnorePbs => true,
        SbatchOption::Input(v) => seg_valid(v@),
        SbatchOption::JobName(v) => seg_valid(v@),
        SbatchOption::KillOnInvalidDep(v) => seg_valid(v@),
        SbatchOption::Licenses(v) => seg_valid(v@),
        SbatchOption::MailType(v) => seg_valid(v@),
        SbatchOption::MailUser(v) => seg_valid(v@),
        SbatchOption::McsLabel(v) => seg_valid(v@),
        SbatchOption::Mem(v) => seg_valid(v@),
        SbatchOption::MemBind(v) => seg_valid(v@),
        SbatchOption::MemPerCPU(v) => seg_valid(v@),
        SbatchOption::MemPerGPU(v) => seg_valid(v@),
        SbatchOption::MinCPUs(_) => true,
        SbatchOption::Network(v) => seg_valid(v@),
        SbatchOption::Nice(_) => true,
        SbatchOption::NoKill(Some(v)) => seg_valid(v@),
        SbatchOption::NoKill(None) => true,
        SbatchOption::NoRequeue => true,
        SbatchOption::NodeFile(v) => seg_valid(v@),
        SbatchOption::NodeList(v) => seg_valid(v@),
        SbatchOption::Nodes(v) => seg_valid(v@),
        SbatchOption::NTasks(_) => true,
        SbatchOption::NTasksPerCore(_) => true,
        SbatchOption::NTasksPerGPU(_) => true,
        SbatchOption::NTasksPerNode(_) => true,
        SbatchOption::NTasksPerSocket(_) => true,
        SbatchOption::OOMKillStep(Some(v)) => seg_valid(v@),
        SbatchOption::OOMKillStep(None) => true,
        SbatchOption::OpenMode(v) => seg_valid(v@),
        SbatchOption::Output(v) => seg_valid(v@),
        SbatchOption::Overcommit => true,
        SbatchOption::Oversubscribe => true,
        SbatchOption::Parsable => true,
        SbatchOption::Partition(v) => seg_valid(v@),
        SbatchOption::Prefer(v) => seg_valid(v@),
        SbatchOption::Priority(v) => seg_valid(v@),
        SbatchOption::Profile(v) => seg_valid(v@),
        SbatchOption::Propagate(Some(v)) => seg_valid(v@),
        SbatchOption::Propagate(None) => true,
        SbatchOption::Qos(v) => seg_valid(v@),
        SbatchOption::Quiet => true,
        SbatchOption::Reboot => true,
        SbatchOption::Requeue => true,
        SbatchOption::Reservation(v) => seg_valid(v@),
        SbatchOption::ResvPorts(Some(v)) => seg_valid(v@),
        SbatchOption::ResvPorts(None) => true,
        SbatchOption::Segment(v) => seg_valid(v@),
        SbatchOption::Signal(v) => seg_valid(v@),
        SbatchOption::SocketsPerNode(v) => seg_valid(v@),
        SbatchOption::SpreadJob => true,
        SbatchOption::Stepmgr => true,
        SbatchOption::Switches(v) => seg_valid(v@),
        SbatchOption::TestOnly => true,
        SbatchOption::ThreadSpec(_) => true,
        SbatchOption::ThreadsPerCore(_) => true,
        SbatchOption::Time(v) => seg_valid(v@),
        SbatchOption::TimeMin(v) => seg_valid(v@),
        SbatchOption::Tmp(v) => seg_valid(v@),
        SbatchOption::TresBind(v) => seg_valid(v@),
        SbatchOption::TresPerTask(v) => seg_valid(v@),
        SbatchOption::UID(v) => seg_valid(v@),
        SbatchOption::Usage => true,
        SbatchOption::UseMinNodes => true,
        SbatchOption::Verbose => true,
        SbatchOption::Version => true,
        SbatchOption::Wait => true,
        SbatchOption::WaitAllNodes(v) => seg_valid(v@),
        SbatchOption::WCKey(v) => seg_valid(v@),
        SbatchOption::Wrap(_) => true,
    }
}

/// Which error a rejected string value is owed.
pub open spec fn value_err_matches(s: Seq<char>, e: &SbatchOptionError) -> bool {
    match e {
        SbatchOptionError::EmptyString => trim_seq(s).len() == 0,
        SbatchOptionError::LeadingOrTrailingSpaces => trim_seq(s).len() > 0 && trim_seq(s)
            != s,
        _ => false,
    }
}

/// The string value an invalid option is rejected for.
pub open spec fn invalid_value_of(o: &SbatchOption) -> Seq<char> {
    match o {
        SbatchOption::Account(v) => v@,
        SbatchOption::AcctgFreq(v) => v@,
        SbatchOption::Array(v) => v@,
        SbatchOption::Batch(v) => v@,
        SbatchOption::Bb(v) => v@,
        SbatchOption::Bbf(v) => v@,
        SbatchOption::Begin(v) => v@,
        SbatchOption::Chdir(v) => v@,
        SbatchOption::ClusterConstraint(v) => v@,
        SbatchOption::Clusters(v) => v@,
        SbatchOption::Comment(v) => v@,
        SbatchOption::Constraint(v) => v@,
        SbatchOption::Container(v) => v@,
        SbatchOption::ContainerID(v) => v@,
        SbatchOption::Contiguous => Seq::empty(),
        SbatchOption::CoreSpec(_) => Seq::empty(),
        SbatchOption::CoresPerSocket(_) => Seq::empty(),
        SbatchOption::CPUFreq(v) => v@,
        SbatchOption::CPUsPerGPU(_) => Seq::empty(),
        SbatchOption::CPUsPerTask(_) => Seq::empty(),
        SbatchOption::Deadline(v) => v@,
        SbatchOption::DelayBoot(_) => Seq::empty(),
        SbatchOption::Dependency(_) => Seq::empty(),
        SbatchOption::Distribution(v) => v@,
        SbatchOption::Error(v) => v@,
        SbatchOption::Exclude(v) => v@,
        SbatchOption::Exclusive(Some(v)) => v@,
        SbatchOption::Exclusive(None) => Seq::empty(),
        SbatchOption::Export(v) => v@,
        SbatchOption::ExportFile(v) => v@,
        SbatchOption::Extra(v) => v@,
        SbatchOption::ExtraNodeInfo(v) => v@,
        SbatchOption::GetUserEnv(Some(v)) => v@,
        SbatchOption::GetUserEnv(None) => Seq::empty(),
        SbatchOption::GID(v) => v@,
        SbatchOption::GPUBind(v) => v@,
        SbatchOption::GPUFreq(v) => v@,
        SbatchOption::GPUs(v) => v@,
        SbatchOption::GPUsPerNode(v) => v@,
        SbatchOption::GPUsPerSocket(v) => v@,
        SbatchOption::GPUsPerTask(v) => v@,
        SbatchOption::Gres(v) => v@,
        SbatchOption::GresFlags(v) => v@,
        SbatchOption::Help => Seq::empty(),
        SbatchOption::Hint(v) => v@,
        SbatchOption::Hold => Seq::empty(),
        SbatchOption::IgnorePbs => Seq::empty(),
        SbatchOption::Input(v) => v@,
        SbatchOption::JobName(v) => v@,
        SbatchOption::KillOnInvalidDep(v) => v@,
        SbatchOption::Licenses(v) => v@,
        SbatchOption::MailType(v) => v@,
        SbatchOption::MailUser(v) => v@,
        SbatchOption::McsLabel(v) => v@,
        SbatchOption::Mem(v) => v@,
        SbatchOption::MemBind(v) => v@,
        SbatchOption::MemPerCPU(v) => v@,
        SbatchOption::MemPerGPU(v) => v@,
        SbatchOption::MinCPUs(_) => Seq::empty(),
        SbatchOption::Network(v) => v@,
        SbatchOption::Nice(_) => Seq::empty(),
        SbatchOption::NoKill(Some(v)) => v@,
        SbatchOption::NoKill(None) => Seq::empty(),
        SbatchOption::NoRequeue => Seq::empty(),
        SbatchOption::NodeFile(v) => v@,
        SbatchOption::NodeList(v) => v@,
        SbatchOption::Nodes(v) => v@,
        SbatchOption::NTasks(_) => Seq::empty(),
        SbatchOption::NTasksPerCore(_) => Seq::empty(),
        SbatchOption::NTasksPerGPU(_) => Seq::empty(),
        SbatchOption::NTasksPerNode(_) => Seq::empty(),
        SbatchOption::NTasksPerSocket(_) => Seq::empty(),
        SbatchOption::OOMKillStep(Some(v)) => v@,
        SbatchOption::OOMKillStep(None) => Seq::empty(),
        SbatchOption::OpenMode(v) => v@,
        SbatchOption::Output(v) => v@,
        SbatchOption::Overcommit => Seq::empty(),
        SbatchOption::Oversubscribe => Seq::empty(),
        SbatchOption::Parsable => Seq::empty(),
        SbatchOption::Partition(v) => v@,
        SbatchOption::Prefer(v) => v@,
        SbatchOption::Priority(v) => v@,
        SbatchOption::Profile(v) => v@,
        SbatchOption::Propagate(Some(v)) => v@,
        SbatchOption::Propagate(None) => Seq::empty(),
        SbatchOption::Qos(v) => v@,
        SbatchOption::Quiet => Seq::empty(),
        SbatchOption::Reboot => Seq::empty(),
        SbatchOption::Requeue => Seq::empty(),
        SbatchOption::Reservation(v) => v@,
        SbatchOption::ResvPorts(Some(v)) => v@,
        SbatchOption::ResvPorts(None) => Seq::empty(),
        SbatchOption::Segment(v) => v@,
        SbatchOption::Signal(v) => v@,
        SbatchOption::SocketsPerNode(v) => v@,
        SbatchOption::SpreadJob => Seq::empty(),
        SbatchOption::Stepmgr => Seq::empty(),
        SbatchOption::Switches(v) => v@,
        SbatchOption::TestOnly => Seq::empty(),
        SbatchOption::ThreadSpec(_) => Seq::empty(),
        SbatchOption::ThreadsPerCore(_) => Seq::empty(),
        SbatchOption::Time(v) => v@,
        SbatchOption::TimeMin(v) => v@,
        SbatchOption::Tmp(v) => v@,
        SbatchOption::TresBind(v) => v@,
        SbatchOption::TresPerTask(v) => v@,
        SbatchOption::UID(v) => v@,
        SbatchOption::Usage => Seq::empty(),
        SbatchOption::UseMinNodes => Seq::empty(),
        SbatchOption::Verbose => Seq::empty(),
        SbatchOption::Version => Seq::empty(),
        SbatchOption::Wait => Seq::empty(),
        SbatchOption::WaitAllNodes(v) => v@,
        SbatchOption::WCKey(v) => v@,
        SbatchOption::Wrap(_) => Seq::empty(),
    }
}

/// Whether `k` names an option that takes a raw string value.
pub open spec fn key_is_string(k: Seq<char>) -> bool {
    ||| k == "account"@ || k == "A"@
    ||| k == "acctg-freq"@
    ||| k == "array"@ || k == "a"@
    ||| k == "batch"@
    ||| k == "bb"@
    ||| k == "bbf"@
    ||| k == "begin"@ || k == "b"@
    ||| k == "chdir"@ || k == "D"@
    ||| k == "cluster-constraint"@
    ||| k == "clusters"@ || k == "M"@
    ||| k == "comment"@
    ||| k == "constraint"@ || k == "C"@
    ||| k == "container"@
    ||| k == "container-id"@
    ||| k == "cpu-freq"@
    ||| k == "deadline"@
    ||| k == "distribution"@ || k == "m"@
    ||| k == "error"@ || k == "e"@
    ||| k == "exclude"@ || k == "x"@
    ||| k == "export"@
    ||| k == "export-file"@
    ||| k == "extra"@
    ||| k == "extra-node-info"@ || k == "B"@
    ||| k == "gid"@
    ||| k == "gpu-bind"@
    ||| k == "gpu-freq"@
    ||| k == "gpus"@ || k == "G"@
    ||| k == "gpus-per-node"@
    ||| k == "gpus-per-socket"@
    ||| k == "gpus-per-task"@
    ||| k == "gres"@
    ||| k == "gres-flags"@
    ||| k == "hint"@
    ||| k == "input"@ || k == "i"@
    ||| k == "job-name"@ || k == "J"@
    ||| k == "kill-on-invalid-dep"@
    ||| k == "licenses"@ || k == "L"@
    ||| k == "mail-type"@
    ||| k == "mail-user"@
    ||| k == "mcs-label"@
    ||| k == "mem"@
    ||| k == "mem-bind"@
    ||| k == "mem-per-cpu"@
    ||| k == "mem-per-gpu"@
    ||| k == "network"@
    ||| k == "nodefile"@ || k == "F"@
    ||| k == "nodelist"@ || k == "w"@
    ||| k == "nodes"@ || k == "N"@
    ||| k == "open-mode"@
    ||| k == "output"@ || k == "o"@
    ||| k == "partition"@ || k == "p"@
    ||| k == "prefer"@
    ||| k == "priority"@
    ||| k == "profile"@
    ||| k == "qos"@ || k == "q"@
    ||| k == "reservation"@
    ||| k == "segment"@
    ||| k == "signal"@
    ||| k == "sockets-per-node"@
    ||| k == "switches"@
    ||| k == "time"@ || k == "t"@
    ||| k == "time-min"@
    ||| k == "tmp"@
    ||| k == "tres-bind"@
    ||| k == "tres-per-task"@
    ||| k == "uid"@
    ||| k == "wait-all-nodes"@
    ||| k == "wckey"@
    ||| k == "wrap"@
}

/// Whether `k` names an option that takes no value.
pub open spec fn key_is_flag(k: Seq<char>) -> bool {
    ||| k == "contiguous"@
    ||| k == "help"@ || k == "h"@
    ||| k == "hold"@ || k == "H"@
    ||| k == "ignore-pbs"@
    ||| k == "no-requeue"@
    ||| k == "overcommit"@ || k == "O"@
    ||| k == "oversubscribe"@ || k == "s"@
    ||| k == "parsable"@
    ||| k == "quiet"@ || k == "Q"@
    ||| k == "reboot"@
    ||| k == "requeue"@
    ||| k == "spread-job"@
    ||| k == "stepmgr"@
    ||| k == "test-only"@
    ||| k == "usage"@
    ||| k == "use-min-nodes"@
    ||| k == "verbose"@ || k == "v"@
    ||| k == "version"@ || k == "V"@
    ||| k == "wait"@
}

/// Whether `k` names an option that takes a positive number.
pub open spec fn key_is_u32(k: Seq<char>) -> bool {
    ||| k == "core-spec"@ || k == "S"@
    ||| k == "cores-per-socket"@
    ||| k == "cpus-per-gpu"@
    ||| k == "cpus-per-task"@ || k == "c"@
    ||| k == "delay-boot"@
    ||| k == "min-cpus"@
    ||| k == "ntasks"@ || k == "n"@
    ||| k == "ntasks-per-core"@
    ||| k == "ntasks-per-gpu"@
    ||| k == "ntasks-per-node"@
    ||| k == "ntasks-per-socket"@
    ||| k == "thread-spec"@
    ||| k == "threads-per-core"@
}

/// Whether `k` names an option whose string value is optional.
pub open spec fn key_is_optstr(k: Seq<char>) -> bool {
    ||| k == "exclusive"@
    ||| k == "get-user-env"@
    ||| k == "no-kill"@ || k == "k"@
    ||| k == "oom-kill-step"@
    ||| k == "propagate"@
    ||| k == "resv-ports"@
}

/// Whether `k` names the dependency option.
pub open spec fn key_is_dep(k: Seq<char>) -> bool {
    k == "dependency"@ || k == "d"@
}

/// The view of an optional value argument.
pub open spec fn opt_view(v: Option<&str>) -> Option<Seq<char>> {
    match v {
        Some(s) => Some(s@),
        None => None,
    }
}

/// Whether a positive number in `1..=u32::MAX` is written in `x`.
pub open spec fn pos_u32_ok(x: Seq<char>) -> bool {
    x.len() > 0 && all_digits(x) && 1 <= dec_val(x) <= u32::MAX
}

/// Whether the key and value pair is accepted.
pub open spec fn kv_ok(k: Seq<char>, v: Option<Seq<char>>) -> bool {
    ||| key_is_string(k) && v is Some
    ||| key_is_flag(k) && v is None
    ||| key_is_u32(k) && (v matches Some(x) && pos_u32_ok(x))
    ||| k == "nice"@ && (v is None || (v matches Some(x) && int_ok(x)))
    ||| key_is_optstr(k)
    ||| key_is_dep(k) && (v matches Some(x) && expr_ok(x))
}

/// Whether the key and value arity alone is recognised; a pair outside
/// this set is an unknown argument.
pub open spec fn kv_arity_known(k: Seq<char>, v: Option<Seq<char>>) -> bool {
    ||| key_is_string(k) && v is Some
    ||| key_is_flag(k) && v is None
    ||| key_is_u32(k) && v is Some
    ||| k == "nice"@
    ||| key_is_optstr(k)
    ||| key_is_dep(k) && v is Some
}

/// Whether option `o` is the one owed for the key and value pair.
pub open spec fn kv_matches(k: Seq<char>, v: Option<Seq<char>>, o: &SbatchOption) -> bool {
    match o {
        SbatchOption::Account(s) => (k == "account"@ || k == "A"@) && (v matches Some(x) && x == s@),
        SbatchOption::AcctgFreq(s) => (k == "acctg-freq"@) && (v matches Some(x) && x == s@),
        SbatchOption::Array(s) => (k == "array"@ || k == "a"@) && (v matches Some(x) && x == s@),
        SbatchOption::Batch(s) => (k == "batch"@) && (v matches Some(x) && x == s@),
        SbatchOption::Bb(s) => (k == "bb"@) && (v matches Some(x) && x == s@),
        SbatchOption::Bbf(s) => (k == "bbf"@) && (v matches Some(x) && x == s@),
        SbatchOption::Begin(s) => (k == "begin"@ || k == "b"@) && (v matches Some(x) && x == s@),
        SbatchOption::Chdir(s) => (k == "chdir"@ || k == "D"@) && (v matches Some(x) && x == s@),
        SbatchOption::ClusterConstraint(s) => (k == "cluster-constraint"@) && (v matches Some(x) && x == s@),
        SbatchOption::Clusters(s) => (k == "clusters"@ || k == "M"@) && (v matches Some(x) && x == s@),
        SbatchOption::Comment(s) => (k == "comment"@) && (v matches Some(x) && x == s@),
        SbatchOption::Constraint(s) => (k == "constraint"@ || k == "C"@) && (v matches Some(x) && x == s@),
        SbatchOption::Container(s) => (k == "container"@) && (v matches Some(x) && x == s@),
        SbatchOption::ContainerID(s) => (k == "container-id"@) && (v matches Some(x) && x == s@),
        SbatchOption::Contiguous => (k == "contiguous"@) && v is None,
        SbatchOption::CoreSpec(n) => (k == "core-spec"@ || k == "S"@) && (v matches Some(x) && pos_u32_ok(x) && *n as nat
            == dec_val(x)),
        SbatchOption::CoresPerSocket(n) => (k == "cores-per-socket"@) && (v matches Some(x) && pos_u32_ok(x) && *n as nat
            == dec_val(x)),
        SbatchOption::CPUFreq(s) => (k == "cpu-freq"@) && (v matches Some(x) && x == s@),
        SbatchOption::CPUsPerGPU(n) => (k == "cpus-per-gpu"@) && (v matches Some(x) && pos_u32_ok(x) && *n as nat
            == dec_val(x)),
        SbatchOption::CPUsPerTask(n) => (k == "cpus-per-task"@ || k == "c"@) && (v matches Some(x) && pos_u32_ok(x) && *n as nat
            == dec_val(x)),
        SbatchOption::Deadline(s) => (k == "deadline"@) && (v matches Some(x) && x == s@),
        SbatchOption::DelayBoot(n) => (k == "delay-boot"@) && (v matches Some(x) && pos_u32_ok(x) && *n as nat
            == dec_val(x)),
        SbatchOption::Dependency(d) => (k == "dependency"@ || k == "d"@) && (v matches Some(x) && expr_ok(x) && d@.clauses
            == canon_clauses(expr_clause_views(x)) && d@.separator == expr_sep(x)),
        SbatchOption::Distribution(s) => (k == "distribution"@ || k == "m"@) && (v matches Some(x) && x == s@),
        SbatchOption::Error(s) => (k == "error"@ || k == "e"@) && (v matches Some(x) && x == s@),
        SbatchOption::Exclude(s) => (k == "exclude"@ || k == "x"@) && (v matches Some(x) && x == s@),
        SbatchOption::Exclusive(s) => (k == "exclusive"@) && ((v is None && s is None) || (v matches Some(x)
            && s matches Some(sv) && sv@ == x)),
        SbatchOption::Export(s) => (k == "export"@) && (v matches Some(x) && x == s@),
        SbatchOption::ExportFile(s) => (k == "export-file"@) && (v matches Some(x) && x == s@),
        SbatchOption::Extra(s) => (k == "extra"@) && (v matches Some(x) && x == s@),
        SbatchOption::ExtraNodeInfo(s) => (k == "extra-node-info"@ || k == "B"@) && (v matches Some(x) && x == s@),
        SbatchOption::GetUserEnv(s) => (k == "get-user-env"@) && ((v is None && s is None) || (v matches Some(x)
            && s matches Some(sv) && sv@ == x)),
        SbatchOption::GID(s) => (k == "gid"@) && (v matches Some(x) && x == s@),
        SbatchOption::GPUBind(s) => (k == "gpu-bind"@) && (v matches Some(x) && x == s@),
        SbatchOption::GPUFreq(s) => (k == "gpu-freq"@) && (v matches Some(x) && x == s@),
        SbatchOption::GPUs(s) => (k == "gpus"@ || k == "G"@) && (v matches Some(x) && x == s@),
        SbatchOption::GPUsPerNode(s) => (k == "gpus-per-node"@) && (v matches Some(x) && x == s@),
        SbatchOption::GPUsPerSocket(s) => (k == "gpus-per-socket"@) && (v matches Some(x) && x == s@),
        SbatchOption::GPUsPerTask(s) => (k == "gpus-per-task"@) && (v matches Some(x) && x == s@),
        SbatchOption::Gres(s) => (k == "gres"@) && (v matches Some(x) && x == s@),
        SbatchOption::GresFlags(s) => (k == "gres-flags"@) && (v matches Some(x) && x == s@),
        SbatchOption::Help => (k == "help"@ || k == "h"@) && v is None,
        SbatchOption::Hint(s) => (k == "hint"@) && (v matches Some(x) && x == s@),
        SbatchOption::Hold => (k == "hold"@ || k == "H"@) && v is None,
        SbatchOption::IgnorePbs => (k == "ignore-pbs"@) && v is None,
        SbatchOption::Input(s) => (k == "input"@ || k == "i"@) && (v matches Some(x) && x == s@),
        SbatchOption::JobName(s) => (k == "job-name"@ || k == "J"@) && (v matches Some(x) && x == s@),
        SbatchOption::KillOnInvalidDep(s) => (k == "kill-on-invalid-dep"@) && (v matches Some(x) && x == s@),
        SbatchOption::Licenses(s) => (k == "licenses"@ || k == "L"@) && (v matches Some(x) && x == s@),
        SbatchOption::MailType(s) => (k == "mail-type"@) && (v matches Some(x) && x == s@),
        SbatchOption::MailUser(s) => (k == "mail-user"@) && (v matches Some(x) && x == s@),
        SbatchOption::McsLabel(s) => (k == "mcs-label"@) && (v matches Some(x) && x == s@),
        SbatchOption::Mem(s) => (k == "mem"@) && (v matches Some(x) && x == s@),
        SbatchOption::MemBind(s) => (k == "mem-bind"@) && (v matches Some(x) && x == s@),
        SbatchOption::MemPerCPU(s) => (k == "mem-per-cpu"@) && (v matches Some(x) && x == s@),
        SbatchOption::MemPerGPU(s) => (k == "mem-per-gpu"@) && (v matches Some(x) && x == s@),
        SbatchOption::MinCPUs(n) => (k == "min-cpus"@) && (v matches Some(x) && pos_u32_ok(x) && *n as nat
            == dec_val(x)),
        SbatchOption::Network(s) => (k == "network"@) && (v matches Some(x) && x == s@),
        SbatchOption::Nice(n) => (k == "nice"@) && ((v is None && n is None) || (v matches Some(x)
            && n matches Some(nv) && int_ok(x) && *nv as int == int_val(x))),
        SbatchOption::NoKill(s) => (k == "no-kill"@ || k == "k"@) && ((v is None && s is None) || (v matches Some(x)
            && s matches Some(sv) && sv@ == x)),
        SbatchOption::NoRequeue => (k == "no-requeue"@) && v is None,
        SbatchOption::NodeFile(s) => (k == "nodefile"@ || k == "F"@) && (v matches Some(x) && x == s@),
        SbatchOption::NodeList(s) => (k == "nodelist"@ || k == "w"@) && (v matches Some(x) && x == s@),
        SbatchOption::Nodes(s) => (k == "nodes"@ || k == "N"@) && (v matches Some(x) && x == s@),
        SbatchOption::NTasks(n) => (k == "ntasks"@ || k == "n"@) && (v matches Some(x) && pos_u32_ok(x) && *n as nat
            == dec_val(x)),
        SbatchOption::NTasksPerCore(n) => (k == "ntasks-per-core"@) && (v matches Some(x) && pos_u32_ok(x) && *n as nat
            == dec_val(x)),
        SbatchOption::NTasksPerGPU(n) => (k == "ntasks-per-gpu"@) && (v matches Some(x) && pos_u32_ok(x) && *n as nat
            == dec_val(x)),
        SbatchOption::NTasksPerNode(n) => (k == "ntasks-per-node"@) && (v matches Some(x) && pos_u32_ok(x) && *n as nat
            == dec_val(x)),
        SbatchOption::NTasksPerSocket(n) => (k == "ntasks-per-socket"@) && (v matches Some(x) && pos_u32_ok(x) && *n as nat
            == dec_val(x)),
        SbatchOption::OOMKillStep(s) => (k == "oom-kill-step"@) && ((v is None && s is None) || (v matches Some(x)
            && s matches Some(sv) && sv@ == x)),
        SbatchOption::OpenMode(s) => (k == "open-mode"@) && (v matches Some(x) && x == s@),
        SbatchOption::Output(s) => (k == "output"@ || k == "o"@) && (v matches Some(x) && x == s@),
        SbatchOption::Overcommit => (k == "overcommit"@ || k == "O"@) && v is None,
        SbatchOption::Oversubscribe => (k == "oversubscribe"@ || k == "s"@) && v is None,
        SbatchOption::Parsable => (k == "parsable"@) && v is None,
        SbatchOption::Partition(s) => (k == "partition"@ || k == "p"@) && (v matches Some(x) && x == s@),
        SbatchOption::Prefer(s) => (k == "prefer"@) && (v matches Some(x) && x == s@),
        SbatchOption::Priority(s) => (k == "priority"@) && (v matches Some(x) && x == s@),
        SbatchOption::Profile(s) => (k == "profile"@) && (v matches Some(x) && x == s@),
        SbatchOption::Propagate(s) => (k == "propagate"@) && ((v is None && s is None) || (v matches Some(x)
            && s matches Some(sv) && sv@ == x)),
        SbatchOption::Qos(s) => (k == "qos"@ || k == "q"@) && (v matches Some(x) && x == s@),
        SbatchOption::Quiet => (k == "quiet"@ || k == "Q"@) && v is None,
        SbatchOption::Reboot => (k == "reboot"@) && v is None,
        SbatchOption::Requeue => (k == "requeue"@) && v is None,
        SbatchOption::Reservation(s) => (k == "reservation"@) && (v matches Some(x) && x == s@),
        SbatchOption::ResvPorts(s) => (k == "resv-ports"@) && ((v is None && s is None) || (v matches Some(x)
            && s matches Some(sv) && sv@ == x)),
        SbatchOption::Segment(s) => (k == "segment"@) && (v matches Some(x) && x == s@),
        SbatchOption::Signal(s) => (k == "signal"@) && (v matches Some(x) && x == s@),
        SbatchOption::SocketsPerNode(s) => (k == "sockets-per-node"@) && (v matches Some(x) && x == s@),
        SbatchOption::SpreadJob => (k == "spread-job"@) && v is None,
        SbatchOption::Stepmgr => (k == "stepmgr"@) && v is None,
        SbatchOption::Switches(s) => (k == "switches"@) && (v matches Some(x) && x == s@),
        SbatchOption::TestOnly => (k == "test-only"@) && v is None,
        SbatchOption::ThreadSpec(n) => (k == "thread-spec"@) && (v matches Some(x) && pos_u32_ok(x) && *n as nat
            == dec_val(x)),
        SbatchOption::ThreadsPerCore(n) => (k == "threads-per-core"@) && (v matches Some(x) && pos_u32_ok(x) && *n as nat
            == dec_val(x)),
        SbatchOption::Time(s) => (k == "time"@ || k == "t"@) && (v matches Some(x) && x == s@),
        SbatchOption::TimeMin(s) => (k == "time-min"@) && (v matches Some(x) && x == s@),
        SbatchOption::Tmp(s) => (k == "tmp"@) && (v matches Some(x) && x == s@),
        SbatchOption::TresBind(s) => (k == "tres-bind"@) && (v matches Some(x) && x == s@),
        SbatchOption::TresPerTask(s) => (k == "tres-per-task"@) && (v matches Some(x) && x == s@),
        SbatchOption::UID(s) => (k == "uid"@) && (v matches Some(x) && x == s@),
        SbatchOption::Usage => (k == "usage"@) && v is None,
        SbatchOption::UseMinNodes => (k == "use-min-nodes"@) && v is None,
        SbatchOption::Verbose => (k == "verbose"@ || k == "v"@) && v is None,
        SbatchOption::Version => (k == "version"@ || k == "V"@) && v is None,
        SbatchOption::Wait => (k == "wait"@) && v is None,
        SbatchOption::WaitAllNodes(s) => (k == "wait-all-nodes"@) && (v matches Some(x) && x == s@),
        SbatchOption::WCKey(s) => (k == "wckey"@) && (v matches Some(x) && x == s@),
        SbatchOption::Wrap(s) => (k == "wrap"@) && (v matches Some(x) && x == s@),
    }
}

/// Which error a rejected key and value pair is owed.
pub open spec fn kv_err_matches(k: Seq<char>, v: Option<Seq<char>>, e: &SbatchOptionError) -> bool {
    if !kv_arity_known(k, v) {
        e matches SbatchOptionError::UnknownArgument(t) && t@ == k
    } else if key_is_u32(k) {
        v matches Some(x) && (if x.len() > 0 && all_digits(x) && dec_val(x) <= u32::MAX
            && dec_val(x) == 0 {
            e == SbatchOptionError::ValueMustBeGreaterThanZero
        } else {
            e matches SbatchOptionError::ParseValueError(t) && t@ == x
        })
    } else if k == "nice"@ {
        v matches Some(x) && !int_ok(x) && (e matches SbatchOptionError::ParseValueError(t)
            && t@ == x)
    } else if key_is_dep(k) {
        v matches Some(x) && !expr_ok(x) && e matches SbatchOptionError::ParseDependencyError(_)
    } else {
        false
    }
}

/// Validates one string value: non-empty, no outer whitespace.
fn validate_value(s: &str) -> (r: Result<(), SbatchOptionError>)
    ensures
        r is Ok <==> seg_valid(s@),
        r matches Err(e) ==> value_err_matches(s@, &e),
{
    let t = crate::text::trim(s);
    if t.is_empty() {
        Err(SbatchOptionError::EmptyString)
    } else if !crate::text::str_eq(t, s) {
        Err(SbatchOptionError::LeadingOrTrailingSpaces)
    } else {
        Ok(())
    }
}

/// Parses a strictly positive number for a numeric option.
fn parse_positive(v: &str) -> (r: Result<u32, SbatchOptionError>)
    ensures
        r is Ok <==> pos_u32_ok(v@),
        r matches Ok(n) ==> n as nat == dec_val(v@),
        r matches Err(e) ==> if v@.len() > 0 && all_digits(v@) && dec_val(v@) <= u32::MAX
            && dec_val(v@) == 0 {
            e == SbatchOptionError::ValueMustBeGreaterThanZero
        } else {
            e matches SbatchOptionError::ParseValueError(t) && t@ == v@
        },
{
    match num::parse_u32(v) {
        Some(n) => {
            if n == 0 {
                Err(SbatchOptionError::ValueMustBeGreaterThanZero)
            } else {
                Ok(n)
            }
        },
        None => Err(SbatchOptionError::ParseValueError(String::from_str(v))),
    }
}

/// The key groups are mutually exclusive: no key names two kinds of
/// option.
proof fn lemma_key_groups(k: Seq<char>)
    ensures
        key_is_string(k) ==> !key_is_flag(k) && !key_is_u32(k) && !key_is_optstr(k)
            && !key_is_dep(k) && k != "nice"@,
        key_is_flag(k) ==> !key_is_string(k) && !key_is_u32(k) && !key_is_optstr(k)
            && !key_is_dep(k) && k != "nice"@,
        key_is_u32(k) ==> !key_is_string(k) && !key_is_flag(k) && !key_is_optstr(k)
            && !key_is_dep(k) && k != "nice"@,
        key_is_optstr(k) ==> !key_is_string(k) && !key_is_flag(k) && !key_is_u32(k)
            && !key_is_dep(k) && k != "nice"@,
        key_is_dep(k) ==> !key_is_string(k) && !key_is_flag(k) && !key_is_u32(k)
            && !key_is_optstr(k) && k != "nice"@,
        k == "nice"@ ==> !key_is_string(k) && !key_is_flag(k) && !key_is_u32(k)
            && !key_is_optstr(k) && !key_is_dep(k),
    {
        reveal_strlit("A");
        reveal_strlit("B");
        reveal_strlit("C");
        reveal_strlit("D");
        reveal_strlit("F");
        reveal_strlit("G");
        reveal_strlit("H");
        reveal_strlit("J");
        reveal_strlit("L");
        reveal_strlit("M");
        reveal_strlit("N");
        reveal_strlit("O");
        reveal_strlit("Q");
        reveal_strlit("S");
        reveal_strlit("V");
        reveal_strlit("a");
        reveal_strlit("account");
        reveal_strlit("acctg-freq");
        reveal_strlit("array");
        reveal_strlit("b");
        reveal_strlit("batch");
        reveal_strlit("bb");
        reveal_strlit("bbf");
        reveal_strlit("begin");
        reveal_strlit("c");
        reveal_strlit("chdir");
        reveal_strlit("cluster-constraint");
        reveal_strlit("clusters");
        reveal_strlit("comment");
        reveal_strlit("constraint");
        reveal_strlit("container");
        reveal_strlit("container-id");
        reveal_strlit("contiguous");
        reveal_strlit("core-spec");
        reveal_strlit("cores-per-socket");
        reveal_strlit("cpu-freq");
        reveal_strlit("cpus-per-gpu");
        reveal_strlit("cpus-per-task");
        reveal_strlit("d");
        reveal_strlit("deadline");
        reveal_strlit("delay-boot");
        reveal_strlit("dependency");
        reveal_strlit("distribution");
        reveal_strlit("e");
        reveal_strlit("error");
        reveal_strlit("exclude");
        reveal_strlit("exclusive");
        reveal_strlit("export");
        reveal_strlit("export-file");
        reveal_strlit("extra");
        reveal_strlit("extra-node-info");
        reveal_strlit("get-user-env");
        reveal_strlit("gid");
        reveal_strlit("gpu-bind");
        reveal_strlit("gpu-freq");
        reveal_strlit("gpus");
        reveal_strlit("gpus-per-node");
        reveal_strlit("gpus-per-socket");
        reveal_strlit("gpus-per-task");
        reveal_strlit("gres");
        reveal_strlit("gres-flags");
        reveal_strlit("h");
        reveal_strlit("help");
        reveal_strlit("hint");
        reveal_strlit("hold");
        reveal_strlit("i");
        reveal_strlit("ignore-pbs");
        reveal_strlit("input");
        reveal_strlit("job-name");
        reveal_strlit("k");
        reveal_strlit("kill-on-invalid-dep");
        reveal_strlit("licenses");
        reveal_strlit("m");
        reveal_strlit("mail-type");
        reveal_strlit("mail-user");
        reveal_strlit("mcs-label");
        reveal_strlit("mem");
        reveal_strlit("mem-bind");
        reveal_strlit("mem-per-cpu");
        reveal_strlit("mem-per-gpu");
        reveal_strlit("min-cpus");
        reveal_strlit("n");
        reveal_strlit("network");
        reveal_strlit("nice");
        reveal_strlit("no-kill");
        reveal_strlit("no-requeue");
        reveal_strlit("nodefile");
        reveal_strlit("nodelist");
        reveal_strlit("nodes");
        reveal_strlit("ntasks");
        reveal_strlit("ntasks-per-core");
        reveal_strlit("ntasks-per-gpu");
        reveal_strlit("ntasks-per-node");
        reveal_strlit("ntasks-per-socket");
        reveal_strlit("o");
        reveal_strlit("oom-kill-step");
        reveal_strlit("open-mode");
        reveal_strlit("output");
        reveal_strlit("overcommit");
        reveal_strlit("oversubscribe");
        reveal_strlit("p");
        reveal_strlit("parsable");
        reveal_strlit("partition");
        reveal_strlit("prefer");
        reveal_strlit("priority");
        reveal_strlit("profile");
        reveal_strlit("propagate");
        reveal_strlit("q");
        reveal_strlit("qos");
        reveal_strlit("quiet");
        reveal_strlit("reboot");
        reveal_strlit("requeue");
        reveal_strlit("reservation");
        reveal_strlit("resv-ports");
        reveal_strlit("s");
        reveal_strlit("segment");
        reveal_strlit("signal");
        reveal_strlit("sockets-per-node");
        reveal_strlit("spread-job");
        reveal_strlit("stepmgr");
        reveal_strlit("switches");
        reveal_strlit("t");
        reveal_strlit("test-only");
        reveal_strlit("thread-spec");
        reveal_strlit("threads-per-core");
        reveal_strlit("time");
        reveal_strlit("time-min");
        reveal_strlit("tmp");
        reveal_strlit("tres-bind");
        reveal_strlit("tres-per-task");
        reveal_strlit("uid");
        reveal_strlit("usage");
        reveal_strlit("use-min-nodes");
        reveal_strlit("v");
        reveal_strlit("verbose");
        reveal_strlit("version");
        reveal_strlit("w");
        reveal_strlit("wait");
        reveal_strlit("wait-all-nodes");
        reveal_strlit("wckey");
        reveal_strlit("wrap");
        reveal_strlit("x");
        assert("A"@.len() == 1);
        assert("B"@.len() == 1);
        assert("C"@.len() == 1);
        assert("D"@.len() == 1);
        assert("F"@.len() == 1);
        assert("G"@.len() == 1);
        assert("H"@.len() == 1);
        assert("J"@.len() == 1);
        assert("L"@.len() == 1);
        assert("M"@.len() == 1);
        assert("N"@.len() == 1);
        assert("O"@.len() == 1);
        assert("Q"@.len() == 1);
        assert("S"@.len() == 1);
        assert("V"@.len() == 1);
        assert("a"@.len() == 1);
        assert("account"@.len() == 7);
        assert("acctg-freq"@.len() == 10);
        assert("array"@.len() == 5);
        assert("b"@.len() == 1);
        assert("batch"@.len() == 5);
        assert("bb"@.len() == 2);
        assert("bbf"@.len() == 3);
        assert("begin"@.len() == 5);
        assert("c"@.len() == 1);
        assert("chdir"@.len() == 5);
        assert("cluster-constraint"@.len() == 18);
        assert("clusters"@.len() == 8);
        assert("comment"@.len() == 7);
        assert("constraint"@.len() == 10);
        assert("container"@.len() == 9);
        assert("container-id"@.len() == 12);
        assert("contiguous"@.len() == 10);
        assert("core-spec"@.len() == 9);
        assert("cores-per-socket"@.len() == 16);
        assert("cpu-freq"@.len() == 8);
        assert("cpus-per-gpu"@.len() == 12);
        assert("cpus-per-task"@.len() == 13);
        assert("d"@.len() == 1);
        assert("deadline"@.len() == 8);
        assert("delay-boot"@.len() == 10);
        assert("dependency"@.len() == 10);
        assert("distribution"@.len() == 12);
        assert("e"@.len() == 1);
        assert("error"@.len() == 5);
        assert("exclude"@.len() == 7);
        assert("exclusive"@.len() == 9);
        assert("export"@.len() == 6);
        assert("export-file"@.len() == 11);
        assert("extra"@.len() == 5);
        assert("extra-node-info"@.len() == 15);
        assert("get-user-env"@.len() == 12);
        assert("gid"@.len() == 3);
        assert("gpu-bind"@.len() == 8);
        assert("gpu-freq"@.len() == 8);
        assert("gpus"@.len() == 4);
        assert("gpus-per-node"@.len() == 13);
        assert("gpus-per-socket"@.len() == 15);
        assert("gpus-per-task"@.len() == 13);
        assert("gres"@.len() == 4);
        assert("gres-flags"@.len() == 10);
        assert("h"@.len() == 1);
        assert("help"@.len() == 4);
        assert("hint"@.len() == 4);
        assert("hold"@.len() == 4);
        assert("i"@.len() == 1);
        assert("ignore-pbs"@.len() == 10);
        assert("input"@.len() == 5);
        assert("job-name"@.len() == 8);
        assert("k"@.len() == 1);
        assert("kill-on-invalid-dep"@.len() == 19);
        assert("licenses"@.len() == 8);
        assert("m"@.len() == 1);
        assert("mail-type"@.len() == 9);
        assert("mail-user"@.len() == 9);
        assert("mcs-label"@.len() == 9);
        assert("mem"@.len() == 3);
        assert("mem-bind"@.len() == 8);
        assert("mem-per-cpu"@.len() == 11);
        assert("mem-per-gpu"@.len() == 11);
        assert("min-cpus"@.len() == 8);
        assert("n"@.len() == 1);
        assert("network"@.len() == 7);
        assert("nice"@.len() == 4);
        assert("no-kill"@.len() == 7);
        assert("no-requeue"@.len() == 10);
        assert("nodefile"@.len() == 8);
        assert("nodelist"@.len() == 8);
        assert("nodes"@.len() == 5);
        assert("ntasks"@.len() == 6);
        assert("ntasks-per-core"@.len() == 15);
        assert("ntasks-per-gpu"@.len() == 14);
        assert("ntasks-per-node"@.len() == 15);
        assert("ntasks-per-socket"@.len() == 17);
        assert("o"@.len() == 1);
        assert("oom-kill-step"@.len() == 13);
        assert("open-mode"@.len() == 9);
        assert("output"@.len() == 6);
        assert("overcommit"@.len() == 10);
        assert("oversubscribe"@.len() == 13);
        assert("p"@.len() == 1);
        assert("parsable"@.len() == 8);
        assert("partition"@.len() == 9);
        assert("prefer"@.len() == 6);
        assert("priority"@.len() == 8);
        assert("profile"@.len() == 7);
        assert("propagate"@.len() == 9);
        assert("q"@.len() == 1);
        assert("qos"@.len() == 3);
        assert("quiet"@.len() == 5);
        assert("reboot"@.len() == 6);
        assert("requeue"@.len() == 7);
        assert("reservation"@.len() == 11);
        assert("resv-ports"@.len() == 10);
        assert("s"@.len() == 1);
        assert("segment"@.len() == 7);
        assert("signal"@.len() == 6);
        assert("sockets-per-node"@.len() == 16);
        assert("spread-job"@.len() == 10);
        assert("stepmgr"@.len() == 7);
        assert("switches"@.len() == 8);
        assert("t"@.len() == 1);
        assert("test-only"@.len() == 9);
        assert("thread-spec"@.len() == 11);
        assert("threads-per-core"@.len() == 16);
        assert("time"@.len() == 4);
        assert("time-min"@.len() == 8);
        assert("tmp"@.len() == 3);
        assert("tres-bind"@.len() == 9);
        assert("tres-per-task"@.len() == 13);
        assert("uid"@.len() == 3);
        assert("usage"@.len() == 5);
        assert("use-min-nodes"@.len() == 13);
        assert("v"@.len() == 1);
        assert("verbose"@.len() == 7);
        assert("version"@.len() == 7);
        assert("w"@.len() == 1);
        assert("wait"@.len() == 4);
        assert("wait-all-nodes"@.len() == 14);
        assert("wckey"@.len() == 5);
        assert("wrap"@.len() == 4);
        assert("x"@.len() == 1);
        assert("A"@[0] != "H"@[0]);
        assert("A"@[0] != "O"@[0]);
        assert("A"@[0] != "Q"@[0]);
        assert("A"@[0] != "S"@[0]);
        assert("A"@[0] != "V"@[0]);
        assert("A"@[0] != "c"@[0]);
        assert("A"@[0] != "d"@[0]);
        assert("A"@[0] != "h"@[0]);
        assert("A"@[0] != "k"@[0]);
        assert("A"@[0] != "n"@[0]);
        assert("A"@[0] != "s"@[0]);
        assert("A"@[0] != "v"@[0]);
        assert("B"@[0] != "H"@[0]);
        assert("B"@[0] != "O"@[0]);
        assert("B"@[0] != "Q"@[0]);
        assert("B"@[0] != "S"@[0]);
        assert("B"@[0] != "V"@[0]);
        assert("B"@[0] != "c"@[0]);
        assert("B"@[0] != "d"@[0]);
        assert("B"@[0] != "h"@[0]);
        assert("B"@[0] != "k"@[0]);
        assert("B"@[0] != "n"@[0]);
        assert("B"@[0] != "s"@[0]);
        assert("B"@[0] != "v"@[0]);
        assert("C"@[0] != "H"@[0]);
        assert("C"@[0] != "O"@[0]);
        assert("C"@[0] != "Q"@[0]);
        assert("C"@[0] != "S"@[0]);
        assert("C"@[0] != "V"@[0]);
        assert("C"@[0] != "c"@[0]);
        assert("C"@[0] != "d"@[0]);
        assert("C"@[0] != "h"@[0]);
        assert("C"@[0] != "k"@[0]);
        assert("C"@[0] != "n"@[0]);
        assert("C"@[0] != "s"@[0]);
        assert("C"@[0] != "v"@[0]);
        assert("D"@[0] != "H"@[0]);
        assert("D"@[0] != "O"@[0]);
        assert("D"@[0] != "Q"@[0]);
        assert("D"@[0] != "S"@[0]);
        assert("D"@[0] != "V"@[0]);
        assert("D"@[0] != "c"@[0]);
        assert("D"@[0] != "d"@[0]);
        assert("D"@[0] != "h"@[0]);
        assert("D"@[0] != "k"@[0]);
        assert("D"@[0] != "n"@[0]);
        assert("D"@[0] != "s"@[0]);
        assert("D"@[0] != "v"@[0]);
        assert("F"@[0] != "H"@[0]);
        assert("F"@[0] != "O"@[0]);
        assert("F"@[0] != "Q"@[0]);
        assert("F"@[0] != "S"@[0]);
        assert("F"@[0] != "V"@[0]);
        assert("F"@[0] != "c"@[0]);
        assert("F"@[0] != "d"@[0]);
        assert("F"@[0] != "h"@[0]);
        assert("F"@[0] != "k"@[0]);
        assert("F"@[0] != "n"@[0]);
        assert("F"@[0] != "s"@[0]);
        assert("F"@[0] != "v"@[0]);
        assert("G"@[0] != "H"@[0]);
        assert("G"@[0] != "O"@[0]);
        assert("G"@[0] != "Q"@[0]);
        assert("G"@[0] != "S"@[0]);
        assert("G"@[0] != "V"@[0]);
        assert("G"@[0] != "c"@[0]);
        assert("G"@[0] != "d"@[0]);
        assert("G"@[0] != "h"@[0]);
        assert("G"@[0] != "k"@[0]);
        assert("G"@[0] != "n"@[0]);
        assert("G"@[0] != "s"@[0]);
        assert("G"@[0] != "v"@[0]);
        assert("H"@[0] != "S"@[0]);
        assert("H"@[0] != "c"@[0]);
        assert("H"@[0] != "d"@[0]);
        assert("H"@[0] != "k"@[0]);
        assert("H"@[0] != "n"@[0]);
        assert("J"@[0] != "H"@[0]);
        assert("J"@[0] != "O"@[0]);
        assert("J"@[0] != "Q"@[0]);
        assert("J"@[0] != "S"@[0]);
        assert("J"@[0] != "V"@[0]);
        assert("J"@[0] != "c"@[0]);
        assert("J"@[0] != "d"@[0]);
        assert("J"@[0] != "h"@[0]);
        assert("J"@[0] != "k"@[0]);
        assert("J"@[0] != "n"@[0]);
        assert("J"@[0] != "s"@[0]);
        assert("J"@[0] != "v"@[0]);
        assert("L"@[0] != "H"@[0]);
        assert("L"@[0] != "O"@[0]);
        assert("L"@[0] != "Q"@[0]);
        assert("L"@[0] != "S"@[0]);
        assert("L"@[0] != "V"@[0]);
        assert("L"@[0] != "c"@[0]);
        assert("L"@[0] != "d"@[0]);
        assert("L"@[0] != "h"@[0]);
        assert("L"@[0] != "k"@[0]);
        assert("L"@[0] != "n"@[0]);
        assert("L"@[0] != "s"@[0]);
        assert("L"@[0] != "v"@[0]);
        assert("M"@[0] != "H"@[0]);
        assert("M"@[0] != "O"@[0]);
        assert("M"@[0] != "Q"@[0]);
        assert("M"@[0] != "S"@[0]);
        assert("M"@[0] != "V"@[0]);
        assert("M"@[0] != "c"@[0]);
        assert("M"@[0] != "d"@[0]);
        assert("M"@[0] != "h"@[0]);
        assert("M"@[0] != "k"@[0]);
        assert("M"@[0] != "n"@[0]);
        assert("M"@[0] != "s"@[0]);
        assert("M"@[0] != "v"@[0]);
        assert("N"@[0] != "H"@[0]);
        assert("N"@[0] != "O"@[0]);
        assert("N"@[0] != "Q"@[0]);
        assert("N"@[0] != "S"@[0]);
        assert("N"@[0] != "V"@[0]);
        assert("N"@[0] != "c"@[0]);
        assert("N"@[0] != "d"@[0]);
        assert("N"@[0] != "h"@[0]);
        assert("N"@[0] != "k"@[0]);
        assert("N"@[0] != "n"@[0]);
        assert("N"@[0] != "s"@[0]);
        assert("N"@[0] != "v"@[0]);
        assert("O"@[0] != "S"@[0]);
        assert("O"@[0] != "c"@[0]);
        assert("O"@[0] != "d"@[0]);
        assert("O"@[0] != "k"@[0]);
        assert("O"@[0] != "n"@[0]);
        assert("Q"@[0] != "S"@[0]);
        assert("Q"@[0] != "c"@[0]);
        assert("Q"@[0] != "d"@[0]);
        assert("Q"@[0] != "k"@[0]);
        assert("Q"@[0] != "n"@[0]);
        assert("S"@[0] != "d"@[0]);
        assert("S"@[0] != "k"@[0]);
        assert("V"@[0] != "S"@[0]);
        assert("V"@[0] != "c"@[0]);
        assert("V"@[0] != "d"@[0]);
        assert("V"@[0] != "k"@[0]);
        assert("V"@[0] != "n"@[0]);
        assert("a"@[0] != "H"@[0]);
        assert("a"@[0] != "O"@[0]);
        assert("a"@[0] != "Q"@[0]);
        assert("a"@[0] != "S"@[0]);
        assert("a"@[0] != "V"@[0]);
        assert("a"@[0] != "c"@[0]);
        assert("a"@[0] != "d"@[0]);
        assert("a"@[0] != "h"@[0]);
        assert("a"@[0] != "k"@[0]);
        assert("a"@[0] != "n"@[0]);
        assert("a"@[0] != "s"@[0]);
        assert("a"@[0] != "v"@[0]);
        assert("account"@[0] != "no-kill"@[0]);
        assert("account"@[0] != "requeue"@[0]);
        assert("account"@[0] != "stepmgr"@[0]);
        assert("account"@[0] != "verbose"@[0]);
        assert("account"@[0] != "version"@[0]);
        assert("acctg-freq"@[0] != "contiguous"@[0]);
        assert("acctg-freq"@[0] != "delay-boot"@[0]);
        assert("acctg-freq"@[0] != "dependency"@[0]);
        assert("acctg-freq"@[0] != "ignore-pbs"@[0]);
        assert("acctg-freq"@[0] != "no-requeue"@[0]);
        assert("acctg-freq"@[0] != "overcommit"@[0]);
        assert("acctg-freq"@[0] != "resv-ports"@[0]);
        assert("acctg-freq"@[0] != "spread-job"@[0]);
        assert("array"@[0] != "quiet"@[0]);
        assert("array"@[0] != "usage"@[0]);
        assert("b"@[0] != "H"@[0]);
        assert("b"@[0] != "O"@[0]);
        assert("b"@[0] != "Q"@[0]);
        assert("b"@[0] != "S"@[0]);
        assert("b"@[0] != "V"@[0]);
        assert("b"@[0] != "c"@[0]);
        assert("b"@[0] != "d"@[0]);
        assert("b"@[0] != "h"@[0]);
        assert("b"@[0] != "k"@[0]);
        assert("b"@[0] != "n"@[0]);
        assert("b"@[0] != "s"@[0]);
        assert("b"@[0] != "v"@[0]);
        assert("batch"@[0] != "quiet"@[0]);
        assert("batch"@[0] != "usage"@[0]);
        assert("begin"@[0] != "quiet"@[0]);
        assert("begin"@[0] != "usage"@[0]);
        assert("c"@[0] != "d"@[0]);
        assert("c"@[0] != "k"@[0]);
        assert("chdir"@[0] != "quiet"@[0]);
        assert("chdir"@[0] != "usage"@[0]);
        assert("clusters"@[0] != "min-cpus"@[0]);
        assert("clusters"@[0] != "parsable"@[0]);
        assert("comment"@[0] != "no-kill"@[0]);
        assert("comment"@[0] != "requeue"@[0]);
        assert("comment"@[0] != "stepmgr"@[0]);
        assert("comment"@[0] != "verbose"@[0]);
        assert("comment"@[0] != "version"@[0]);
        assert("constraint"@[3] != "contiguous"@[3]);
        assert("constraint"@[0] != "delay-boot"@[0]);
        assert("constraint"@[0] != "dependency"@[0]);
        assert("constraint"@[0] != "ignore-pbs"@[0]);
        assert("constraint"@[0] != "no-requeue"@[0]);
        assert("constraint"@[0] != "overcommit"@[0]);
        assert("constraint"@[0] != "resv-ports"@[0]);
        assert("constraint"@[0] != "spread-job"@[0]);
        assert("container"@[2] != "core-spec"@[2]);
        assert("container"@[0] != "exclusive"@[0]);
        assert("container"@[0] != "propagate"@[0]);
        assert("container"@[0] != "test-only"@[0]);
        assert("container-id"@[1] != "cpus-per-gpu"@[1]);
        assert("container-id"@[0] != "get-user-env"@[0]);
        assert("contiguous"@[0] != "delay-boot"@[0]);
        assert("contiguous"@[0] != "dependency"@[0]);
        assert("contiguous"@[0] != "resv-ports"@[0]);
        assert("core-spec"@[0] != "exclusive"@[0]);
        assert("core-spec"@[0] != "propagate"@[0]);
        assert("cpu-freq"@[0] != "min-cpus"@[0]);
        assert("cpu-freq"@[0] != "parsable"@[0]);
        assert("cpus-per-gpu"@[0] != "get-user-env"@[0]);
        assert("cpus-per-task"@[0] != "oom-kill-step"@[0]);
        assert("deadline"@[0] != "min-cpus"@[0]);
        assert("deadline"@[0] != "parsable"@[0]);
        assert("delay-boot"@[2] != "dependency"@[2]);
        assert("delay-boot"@[0] != "resv-ports"@[0]);
        assert("distribution"@[0] != "cpus-per-gpu"@[0]);
        assert("distribution"@[0] != "get-user-env"@[0]);
        assert("e"@[0] != "H"@[0]);
        assert("e"@[0] != "O"@[0]);
        assert("e"@[0] != "Q"@[0]);
        assert("e"@[0] != "S"@[0]);
        assert("e"@[0] != "V"@[0]);
        assert("e"@[0] != "c"@[0]);
        assert("e"@[0] != "d"@[0]);
        assert("e"@[0] != "h"@[0]);
        assert("e"@[0] != "k"@[0]);
        assert("e"@[0] != "n"@[0]);
        assert("e"@[0] != "s"@[0]);
        assert("e"@[0] != "v"@[0]);
        assert("error"@[0] != "quiet"@[0]);
        assert("error"@[0] != "usage"@[0]);
        assert("exclude"@[0] != "no-kill"@[0]);
        assert("exclude"@[0] != "requeue"@[0]);
        assert("exclude"@[0] != "stepmgr"@[0]);
        assert("exclude"@[0] != "verbose"@[0]);
        assert("exclude"@[0] != "version"@[0]);
        assert("export"@[0] != "ntasks"@[0]);
        assert("export"@[0] != "reboot"@[0]);
        assert("export-file"@[0] != "thread-spec"@[0]);
        assert("extra"@[0] != "quiet"@[0]);
        assert("extra"@[0] != "usage"@[0]);
        assert("extra-node-info"@[0] != "ntasks-per-core"@[0]);
        assert("extra-node-info"@[0] != "ntasks-per-node"@[0]);
        assert("gpu-bind"@[0] != "min-cpus"@[0]);
        assert("gpu-bind"@[0] != "parsable"@[0]);
        assert("gpu-freq"@[0] != "min-cpus"@[0]);
        assert("gpu-freq"@[0] != "parsable"@[0]);
        assert("gpus"@[0] != "help"@[0]);
        assert("gpus"@[0] != "hold"@[0]);
        assert("gpus"@[0] != "nice"@[0]);
        assert("gpus"@[0] != "wait"@[0]);
        assert("gpus-per-node"@[0] != "cpus-per-task"@[0]);
        assert("gpus-per-node"@[0] != "oom-kill-step"@[0]);
        assert("gpus-per-node"@[0] != "oversubscribe"@[0]);
        assert("gpus-per-node"@[0] != "use-min-nodes"@[0]);
        assert("gpus-per-socket"@[0] != "ntasks-per-core"@[0]);
        assert("gpus-per-socket"@[0] != "ntasks-per-node"@[0]);
        assert("gpus-per-task"@[0] != "cpus-per-task"@[0]);
        assert("gpus-per-task"@[0] != "oom-kill-step"@[0]);
        assert("gpus-per-task"@[0] != "oversubscribe"@[0]);
        assert("gpus-per-task"@[0] != "use-min-nodes"@[0]);
        assert("gres"@[0] != "help"@[0]);
        assert("gres"@[0] != "hold"@[0]);
        assert("gres"@[0] != "nice"@[0]);
        assert("gres"@[0] != "wait"@[0]);
        assert("gres-flags"@[0] != "contiguous"@[0]);
        assert("gres-flags"@[0] != "delay-boot"@[0]);
        assert("gres-flags"@[0] != "dependency"@[0]);
        assert("gres-flags"@[0] != "ignore-pbs"@[0]);
        assert("gres-flags"@[0] != "no-requeue"@[0]);
        assert("gres-flags"@[0] != "overcommit"@[0]);
        assert("gres-flags"@[0] != "resv-ports"@[0]);
        assert("gres-flags"@[0] != "spread-job"@[0]);
        assert("h"@[0] != "S"@[0]);
        assert("h"@[0] != "c"@[0]);
        assert("h"@[0] != "d"@[0]);
        assert("h"@[0] != "k"@[0]);
        assert("h"@[0] != "n"@[0]);
        assert("help"@[0] != "nice"@[0]);
        assert("hint"@[1] != "help"@[1]);
        assert("hint"@[1] != "hold"@[1]);
        assert("hint"@[0] != "nice"@[0]);
        assert("hint"@[0] != "wait"@[0]);
        assert("hold"@[0] != "nice"@[0]);
        assert("i"@[0] != "H"@[0]);
        assert("i"@[0] != "O"@[0]);
        assert("i"@[0] != "Q"@[0]);
        assert("i"@[0] != "S"@[0]);
        assert("i"@[0] != "V"@[0]);
        assert("i"@[0] != "c"@[0]);
        assert("i"@[0] != "d"@[0]);
        assert("i"@[0] != "h"@[0]);
        assert("i"@[0] != "k"@[0]);
        assert("i"@[0] != "n"@[0]);
        assert("i"@[0] != "s"@[0]);
        assert("i"@[0] != "v"@[0]);
        assert("ignore-pbs"@[0] != "delay-boot"@[0]);
        assert("ignore-pbs"@[0] != "dependency"@[0]);
        assert("ignore-pbs"@[0] != "resv-ports"@[0]);
        assert("input"@[0] != "quiet"@[0]);
        assert("input"@[0] != "usage"@[0]);
        assert("job-name"@[0] != "min-cpus"@[0]);
        assert("job-name"@[0] != "parsable"@[0]);
        assert("k"@[0] != "d"@[0]);
        assert("licenses"@[0] != "min-cpus"@[0]);
        assert("licenses"@[0] != "parsable"@[0]);
        assert("m"@[0] != "H"@[0]);
        assert("m"@[0] != "O"@[0]);
        assert("m"@[0] != "Q"@[0]);
        assert("m"@[0] != "S"@[0]);
        assert("m"@[0] != "V"@[0]);
        assert("m"@[0] != "c"@[0]);
        assert("m"@[0] != "d"@[0]);
        assert("m"@[0] != "h"@[0]);
        assert("m"@[0] != "k"@[0]);
        assert("m"@[0] != "n"@[0]);
        assert("m"@[0] != "s"@[0]);
        assert("m"@[0] != "v"@[0]);
        assert("mail-type"@[0] != "core-spec"@[0]);
        assert("mail-type"@[0] != "exclusive"@[0]);
        assert("mail-type"@[0] != "propagate"@[0]);
        assert("mail-type"@[0] != "test-only"@[0]);
        assert("mail-user"@[0] != "core-spec"@[0]);
        assert("mail-user"@[0] != "exclusive"@[0]);
        assert("mail-user"@[0] != "propagate"@[0]);
        assert("mail-user"@[0] != "test-only"@[0]);
        assert("mcs-label"@[0] != "core-spec"@[0]);
        assert("mcs-label"@[0] != "exclusive"@[0]);
        assert("mcs-label"@[0] != "propagate"@[0]);
        assert("mcs-label"@[0] != "test-only"@[0]);
        assert("mem-bind"@[1] != "min-cpus"@[1]);
        assert("mem-bind"@[0] != "parsable"@[0]);
        assert("mem-per-cpu"@[0] != "thread-spec"@[0]);
        assert("mem-per-gpu"@[0] != "thread-spec"@[0]);
        assert("n"@[0] != "d"@[0]);
        assert("n"@[0] != "k"@[0]);
        assert("network"@[1] != "no-kill"@[1]);
        assert("network"@[0] != "requeue"@[0]);
        assert("network"@[0] != "stepmgr"@[0]);
        assert("network"@[0] != "verbose"@[0]);
        assert("network"@[0] != "version"@[0]);
        assert("no-requeue"@[0] != "delay-boot"@[0]);
        assert("no-requeue"@[0] != "dependency"@[0]);
        assert("no-requeue"@[0] != "resv-ports"@[0]);
        assert("nodefile"@[0] != "min-cpus"@[0]);
        assert("nodefile"@[0] != "parsable"@[0]);
        assert("nodelist"@[0] != "min-cpus"@[0]);
        assert("nodelist"@[0] != "parsable"@[0]);
        assert("nodes"@[0] != "quiet"@[0]);
        assert("nodes"@[0] != "usage"@[0]);
        assert("o"@[0] != "H"@[0]);
        assert("o"@[0] != "O"@[0]);
        assert("o"@[0] != "Q"@[0]);
        assert("o"@[0] != "S"@[0]);
        assert("o"@[0] != "V"@[0]);
        assert("o"@[0] != "c"@[0]);
        assert("o"@[0] != "d"@[0]);
        assert("o"@[0] != "h"@[0]);
        assert("o"@[0] != "k"@[0]);
        assert("o"@[0] != "n"@[0]);
        assert("o"@[0] != "s"@[0]);
        assert("o"@[0] != "v"@[0]);
        assert("open-mode"@[0] != "core-spec"@[0]);
        assert("open-mode"@[0] != "exclusive"@[0]);
        assert("open-mode"@[0] != "propagate"@[0]);
        assert("open-mode"@[0] != "test-only"@[0]);
        assert("output"@[0] != "ntasks"@[0]);
        assert("output"@[0] != "reboot"@[0]);
        assert("overcommit"@[0] != "delay-boot"@[0]);
        assert("overcommit"@[0] != "dependency"@[0]);
        assert("overcommit"@[0] != "resv-ports"@[0]);
        assert("oversubscribe"@[0] != "cpus-per-task"@[0]);
        assert("oversubscribe"@[1] != "oom-kill-step"@[1]);
        assert("p"@[0] != "H"@[0]);
        assert("p"@[0] != "O"@[0]);
        assert("p"@[0] != "Q"@[0]);
        assert("p"@[0] != "S"@[0]);
        assert("p"@[0] != "V"@[0]);
        assert("p"@[0] != "c"@[0]);
        assert("p"@[0] != "d"@[0]);
        assert("p"@[0] != "h"@[0]);
        assert("p"@[0] != "k"@[0]);
        assert("p"@[0] != "n"@[0]);
        assert("p"@[0] != "s"@[0]);
        assert("p"@[0] != "v"@[0]);
        assert("parsable"@[0] != "min-cpus"@[0]);
        assert("partition"@[0] != "core-spec"@[0]);
        assert("partition"@[0] != "exclusive"@[0]);
        assert("partition"@[1] != "propagate"@[1]);
        assert("partition"@[0] != "test-only"@[0]);
        assert("prefer"@[0] != "ntasks"@[0]);
        assert("prefer"@[0] != "reboot"@[0]);
        assert("priority"@[0] != "min-cpus"@[0]);
        assert("priority"@[1] != "parsable"@[1]);
        assert("profile"@[0] != "no-kill"@[0]);
        assert("profile"@[0] != "requeue"@[0]);
        assert("profile"@[0] != "stepmgr"@[0]);
        assert("profile"@[0] != "verbose"@[0]);
        assert("profile"@[0] != "version"@[0]);
        assert("q"@[0] != "H"@[0]);
        assert("q"@[0] != "O"@[0]);
        assert("q"@[0] != "Q"@[0]);
        assert("q"@[0] != "S"@[0]);
        assert("q"@[0] != "V"@[0]);
        assert("q"@[0] != "c"@[0]);
        assert("q"@[0] != "d"@[0]);
        assert("q"@[0] != "h"@[0]);
        assert("q"@[0] != "k"@[0]);
        assert("q"@[0] != "n"@[0]);
        assert("q"@[0] != "s"@[0]);
        assert("q"@[0] != "v"@[0]);
        assert("reboot"@[0] != "ntasks"@[0]);
        assert("requeue"@[0] != "no-kill"@[0]);
        assert("reservation"@[0] != "thread-spec"@[0]);
        assert("resv-ports"@[0] != "dependency"@[0]);
        assert("s"@[0] != "S"@[0]);
        assert("s"@[0] != "c"@[0]);
        assert("s"@[0] != "d"@[0]);
        assert("s"@[0] != "k"@[0]);
        assert("s"@[0] != "n"@[0]);
        assert("segment"@[0] != "no-kill"@[0]);
        assert("segment"@[0] != "requeue"@[0]);
        assert("segment"@[1] != "stepmgr"@[1]);
        assert("segment"@[0] != "verbose"@[0]);
        assert("segment"@[0] != "version"@[0]);
        assert("signal"@[0] != "ntasks"@[0]);
        assert("signal"@[0] != "reboot"@[0]);
        assert("sockets-per-node"@[0] != "cores-per-socket"@[0]);
        assert("sockets-per-node"@[0] != "threads-per-core"@[0]);
        assert("spread-job"@[0] != "delay-boot"@[0]);
        assert("spread-job"@[0] != "dependency"@[0]);
        assert("spread-job"@[0] != "resv-ports"@[0]);
        assert("stepmgr"@[0] != "no-kill"@[0]);
        assert("switches"@[0] != "min-cpus"@[0]);
        assert("switches"@[0] != "parsable"@[0]);
        assert("t"@[0] != "H"@[0]);
        assert("t"@[0] != "O"@[0]);
        assert("t"@[0] != "Q"@[0]);
        assert("t"@[0] != "S"@[0]);
        assert("t"@[0] != "V"@[0]);
        assert("t"@[0] != "c"@[0]);
        assert("t"@[0] != "d"@[0]);
        assert("t"@[0] != "h"@[0]);
        assert("t"@[0] != "k"@[0]);
        assert("t"@[0] != "n"@[0]);
        assert("t"@[0] != "s"@[0]);
        assert("t"@[0] != "v"@[0]);
        assert("test-only"@[0] != "core-spec"@[0]);
        assert("test-only"@[0] != "exclusive"@[0]);
        assert("test-only"@[0] != "propagate"@[0]);
        assert("time"@[0] != "help"@[0]);
        assert("time"@[0] != "hold"@[0]);
        assert("time"@[0] != "nice"@[0]);
        assert("time"@[0] != "wait"@[0]);
        assert("time-min"@[0] != "min-cpus"@[0]);
        assert("time-min"@[0] != "parsable"@[0]);
        assert("tres-bind"@[0] != "core-spec"@[0]);
        assert("tres-bind"@[0] != "exclusive"@[0]);
        assert("tres-bind"@[0] != "propagate"@[0]);
        assert("tres-bind"@[1] != "test-only"@[1]);
        assert("tres-per-task"@[0] != "cpus-per-task"@[0]);
        assert("tres-per-task"@[0] != "oom-kill-step"@[0]);
        assert("tres-per-task"@[0] != "oversubscribe"@[0]);
        assert("tres-per-task"@[0] != "use-min-nodes"@[0]);
        assert("use-min-nodes"@[0] != "cpus-per-task"@[0]);
        assert("use-min-nodes"@[0] != "oom-kill-step"@[0]);
        assert("v"@[0] != "S"@[0]);
        assert("v"@[0] != "c"@[0]);
        assert("v"@[0] != "d"@[0]);
        assert("v"@[0] != "k"@[0]);
        assert("v"@[0] != "n"@[0]);
        assert("verbose"@[0] != "no-kill"@[0]);
        assert("version"@[0] != "no-kill"@[0]);
        assert("w"@[0] != "H"@[0]);
        assert("w"@[0] != "O"@[0]);
        assert("w"@[0] != "Q"@[0]);
        assert("w"@[0] != "S"@[0]);
        assert("w"@[0] != "V"@[0]);
        assert("w"@[0] != "c"@[0]);
        assert("w"@[0] != "d"@[0]);
        assert("w"@[0] != "h"@[0]);
        assert("w"@[0] != "k"@[0]);
        assert("w"@[0] != "n"@[0]);
        assert("w"@[0] != "s"@[0]);
        assert("w"@[0] != "v"@[0]);
        assert("wait"@[0] != "nice"@[0]);
        assert("wait-all-nodes"@[0] != "ntasks-per-gpu"@[0]);
        assert("wckey"@[0] != "quiet"@[0]);
        assert("wckey"@[0] != "usage"@[0]);
        assert("wrap"@[0] != "help"@[0]);
        assert("wrap"@[0] != "hold"@[0]);
        assert("wrap"@[0] != "nice"@[0]);
        assert("wrap"@[1] != "wait"@[1]);
        assert("x"@[0] != "H"@[0]);
        assert("x"@[0] != "O"@[0]);
        assert("x"@[0] != "Q"@[0]);
        assert("x"@[0] != "S"@[0]);
        assert("x"@[0] != "V"@[0]);
        assert("x"@[0] != "c"@[0]);
        assert("x"@[0] != "d"@[0]);
        assert("x"@[0] != "h"@[0]);
        assert("x"@[0] != "k"@[0]);
        assert("x"@[0] != "n"@[0]);
        assert("x"@[0] != "s"@[0]);
        assert("x"@[0] != "v"@[0]);
    }

impl SbatchOption {
    /// Validates the option's value.
    pub fn validate(&self) -> (r: Result<(), SbatchOptionError>)
        ensures
            r is Ok <==> option_valid(self),
            r matches Err(e) ==> value_err_matches(invalid_value_of(self), &e),
    {
        match self {
            SbatchOption::Account(v) => validate_value(v.as_str()),
            SbatchOption::AcctgFreq(v) => validate_value(v.as_str()),
            SbatchOption::Array(v) => validate_value(v.as_str()),
            SbatchOption::Batch(v) => validate_value(v.as_str()),
            SbatchOption::Bb(v) => validate_value(v.as_str()),
            SbatchOption::Bbf(v) => validate_value(v.as_str()),
            SbatchOption::Begin(v) => validate_value(v.as_str()),
            SbatchOption::Chdir(v) => validate_value(v.as_str()),
            SbatchOption::ClusterConstraint(v) => validate_value(v.as_str()),
            SbatchOption::Clusters(v) => validate_value(v.as_str()),
            SbatchOption::Comment(v) => validate_value(v.as_str()),
            SbatchOption::Constraint(v) => validate_value(v.as_str()),
            SbatchOption::Container(v) => validate_value(v.as_str()),
            SbatchOption::ContainerID(v) => validate_value(v.as_str()),
            SbatchOption::Contiguous => Ok(()),
            SbatchOption::CoreSpec(_) => Ok(()),
            SbatchOption::CoresPerSocket(_) => Ok(()),
            SbatchOption::CPUFreq(v) => validate_value(v.as_str()),
            SbatchOption::CPUsPerGPU(_) => Ok(()),
            SbatchOption::CPUsPerTask(_) => Ok(()),
            SbatchOption::Deadline(v) => validate_value(v.as_str()),
            SbatchOption::DelayBoot(_) => Ok(()),
            SbatchOption::Dependency(_) => Ok(()),
            SbatchOption::Distribution(v) => validate_value(v.as_str()),
            SbatchOption::Error(v) => validate_value(v.as_str()),
            SbatchOption::Exclude(v) => validate_value(v.as_str()),
            SbatchOption::Exclusive(Some(v)) => validate_value(v.as_str()),
            SbatchOption::Exclusive(None) => Ok(()),
            SbatchOption::Export(v) => validate_value(v.as_str()),
            SbatchOption::ExportFile(v) => validate_value(v.as_str()),
            SbatchOption::Extra(v) => validate_value(v.as_str()),
            SbatchOption::ExtraNodeInfo(v) => validate_value(v.as_str()),
            SbatchOption::GetUserEnv(Some(v)) => validate_value(v.as_str()),
            SbatchOption::GetUserEnv(None) => Ok(()),
            SbatchOption::GID(v) => validate_value(v.as_str()),
            SbatchOption::GPUBind(v) => validate_value(v.as_str()),
            SbatchOption::GPUFreq(v) => validate_value(v.as_str()),
            SbatchOption::GPUs(v) => validate_value(v.as_str()),
            SbatchOption::GPUsPerNode(v) => validate_value(v.as_str()),
            SbatchOption::GPUsPerSocket(v) => validate_value(v.as_str()),
            SbatchOption::GPUsPerTask(v) => validate_value(v.as_str()),
            SbatchOption::Gres(v) => validate_value(v.as_str()),
            SbatchOption::GresFlags(v) => validate_value(v.as_str()),
            SbatchOption::Help => Ok(()),
            SbatchOption::Hint(v) => validate_value(v.as_str()),
            SbatchOption::Hold => Ok(()),
            SbatchOption::IgnorePbs => Ok(()),
            SbatchOption::Input(v) => validate_value(v.as_str()),
            SbatchOption::JobName(v) => validate_value(v.as_str()),
            SbatchOption::KillOnInvalidDep(v) => validate_value(v.as_str()),
            SbatchOption::Licenses(v) => validate_value(v.as_str()),
            SbatchOption::MailType(v) => validate_value(v.as_str()),
            SbatchOption::MailUser(v) => validate_value(v.as_str()),
            SbatchOption::McsLabel(v) => validate_value(v.as_str()),
            SbatchOption::Mem(v) => validate_value(v.as_str()),
            SbatchOption::MemBind(v) => validate_value(v.as_str()),
            SbatchOption::MemPerCPU(v) => validate_value(v.as_str()),
            SbatchOption::MemPerGPU(v) => validate_value(v.as_str()),
            SbatchOption::MinCPUs(_) => Ok(()),
            SbatchOption::Network(v) => validate_value(v.as_str()),
            SbatchOption::Nice(_) => Ok(()),
            SbatchOption::NoKill(Some(v)) => validate_value(v.as_str()),
            SbatchOption::NoKill(None) => Ok(()),
            SbatchOption::NoRequeue => Ok(()),
            SbatchOption::NodeFile(v) => validate_value(v.as_str()),
            SbatchOption::NodeList(v) => validate_value(v.as_str()),
            SbatchOption::Nodes(v) => validate_value(v.as_str()),
            SbatchOption::NTasks(_) => Ok(()),
            SbatchOption::NTasksPerCore(_) => Ok(()),
            SbatchOption::NTasksPerGPU(_) => Ok(()),
            SbatchOption::NTasksPerNode(_) => Ok(()),
            SbatchOption::NTasksPerSocket(_) => Ok(()),
            SbatchOption::OOMKillStep(Some(v)) => validate_value(v.as_str()),
            SbatchOption::OOMKillStep(None) => Ok(()),
            SbatchOption::OpenMode(v) => validate_value(v.as_str()),
            SbatchOption::Output(v) => validate_value(v.as_str()),
            SbatchOption::Overcommit => Ok(()),
            SbatchOption::Oversubscribe => Ok(()),
            SbatchOption::Parsable => Ok(()),
            SbatchOption::Partition(v) => validate_value(v.as_str()),
            SbatchOption::Prefer(v) => validate_value(v.as_str()),
            SbatchOption::Priority(v) => validate_value(v.as_str()),
            SbatchOption::Profile(v) => validate_value(v.as_str()),
            SbatchOption::Propagate(Some(v)) => validate_value(v.as_str()),
            SbatchOption::Propagate(None) => Ok(()),
            SbatchOption::Qos(v) => validate_value(v.as_str()),
            SbatchOption::Quiet => Ok(()),
            SbatchOption::Reboot => Ok(()),
            SbatchOption::Requeue => Ok(()),
            SbatchOption::Reservation(v) => validate_value(v.as_str()),
            SbatchOption::ResvPorts(Some(v)) => validate_value(v.as_str()),
            SbatchOption::ResvPorts(None) => Ok(()),
            SbatchOption::Segment(v) => validate_value(v.as_str()),
            SbatchOption::Signal(v) => validate_value(v.as_str()),
            SbatchOption::SocketsPerNode(v) => validate_value(v.as_str()),
            SbatchOption::SpreadJob => Ok(()),
            SbatchOption::Stepmgr => Ok(()),
            SbatchOption::Switches(v) => validate_value(v.as_str()),
            SbatchOption::TestOnly => Ok(()),
            SbatchOption::ThreadSpec(_) => Ok(()),
            SbatchOption::ThreadsPerCore(_) => Ok(()),
            SbatchOption::Time(v) => validate_value(v.as_str()),
            SbatchOption::TimeMin(v) => validate_value(v.as_str()),
            SbatchOption::Tmp(v) => validate_value(v.as_str()),
            SbatchOption::TresBind(v) => validate_value(v.as_str()),
            SbatchOption::TresPerTask(v) => validate_value(v.as_str()),
            SbatchOption::UID(v) => validate_value(v.as_str()),
            SbatchOption::Usage => Ok(()),
            SbatchOption::UseMinNodes => Ok(()),
            SbatchOption::Verbose => Ok(()),
            SbatchOption::Version => Ok(()),
            SbatchOption::Wait => Ok(()),
            SbatchOption::WaitAllNodes(v) => validate_value(v.as_str()),
            SbatchOption::WCKey(v) => validate_value(v.as_str()),
            SbatchOption::Wrap(_) => Ok(()),
        }
    }

    /// Renders the option as its long command-line form.
    pub fn render(&self) -> (r: String)
        ensures
            r@ == option_text(self),
    {
        match self {
            SbatchOption::Account(v) => {
                let mut s = String::from_str("--account=");
                s.append(v.as_str());
                s
            },
            SbatchOption::AcctgFreq(v) => {
                let mut s = String::from_str("--acctg-freq=");
                s.append(v.as_str());
                s
            },
            SbatchOption::Array(v) => {
                let mut s = String::from_str("--array=");
                s.append(v.as_str());
                s
            },
            SbatchOption::Batch(v) => {
                let mut s = String::from_str("--batch=");
                s.append(v.as_str());
                s
            },
            SbatchOption::Bb(v) => {
                let mut s = String::from_str("--bb=");
                s.append(v.as_str());
                s
            },
            SbatchOption::Bbf(v) => {
                let mut s = String::from_str("--bbf=");
                s.append(v.as_str());
                s
            },
            SbatchOption::Begin(v) => {
                let mut s = String::from_str("--begin=");
                s.append(v.as_str());
                s
            },
            SbatchOption::Chdir(v) => {
                let mut s = String::from_str("--chdir=");
                s.append(v.as_str());
                s
            },
            SbatchOption::ClusterConstraint(v) => {
                let mut s = String::from_str("--cluster-constraint=");
                s.append(v.as_str());
                s
            },
            SbatchOption::Clusters(v) => {
                let mut s = String::from_str("--clusters=");
                s.append(v.as_str());
                s
            },
            SbatchOption::Comment(v) => {
                let mut s = String::from_str("--comment=");
                s.append(v.as_str());
                s
            },
            SbatchOption::Constraint(v) => {
                let mut s = String::from_str("--constraint=");
                s.append(v.as_str());
                s
            },
            SbatchOption::Container(v) => {
                let mut s = String::from_str("--container=");
                s.append(v.as_str());
                s
            },
            SbatchOption::ContainerID(v) => {
                let mut s = String::from_str("--container-id=");
                s.append(v.as_str());
                s
            },
            SbatchOption::Contiguous => String::from_str("--contiguous"),
            SbatchOption::CoreSpec(v) => {
                let mut s = String::from_str("--core-spec=");
                let d = num::u32_text(*v);
                s.append(d.as_str());
                s
            },
            SbatchOption::CoresPerSocket(v) => {
                let mut s = String::from_str("--cores-per-socket=");
                let d = num::u32_text(*v);
                s.append(d.as_str());
                s
            },
            SbatchOption::CPUFreq(v) => {
                let mut s = String::from_str("--cpu-freq=");
                s.append(v.as_str());
                s
            },
            SbatchOption::CPUsPerGPU(v) => {
                let mut s = String::from_str("--cpus-per-gpu=");
                let d = num::u32_text(*v);
                s.append(d.as_str());
                s
            },
            SbatchOption::CPUsPerTask(v) => {
                let mut s = String::from_str("--cpus-per-task=");
                let d = num::u32_text(*v);
                s.append(d.as_str());
                s
            },
            SbatchOption::Deadline(v) => {
                let mut s = String::from_str("--deadline=");
                s.append(v.as_str());
                s
            },
            SbatchOption::DelayBoot(v) => {
                let mut s = String::from_str("--delay-boot=");
                let d = num::u32_text(*v);
                s.append(d.as_str());
                s
            },
            SbatchOption::Dependency(d) => {
                let mut s = String::from_str("--dependency=");
                let e = d.render();
                s.append(e.as_str());
                s
            },
            SbatchOption::Distribution(v) => {
                let mut s = String::from_str("--distribution=");
                s.append(v.as_str());
                s
            },
            SbatchOption::Error(v) => {
                let mut s = String::from_str("--error=");
                s.append(v.as_str());
                s
            },
            SbatchOption::Exclude(v) => {
                let mut s = String::from_str("--exclude=");
                s.append(v.as_str());
                s
            },
            SbatchOption::Exclusive(Some(v)) => {
                let mut s = String::from_str("--exclusive=");
                s.append(v.as_str());
                s
            },
            SbatchOption::Exclusive(None) => String::from_str("--exclusive"),
            SbatchOption::Export(v) => {
                let mut s = String::from_str("--export=");
                s.append(v.as_str());
                s
            },
            SbatchOption::ExportFile(v) => {
                let mut s = String::from_str("--export-file=");
                s.append(v.as_str());
                s
            },
            SbatchOption::Extra(v) => {
                let mut s = String::from_str("--extra=");
                s.append(v.as_str());
                s
            },
            SbatchOption::ExtraNodeInfo(v) => {
                let mut s = String::from_str("--extra-node-info=");
                s.append(v.as_str());
                s
            },
            SbatchOption::GetUserEnv(Some(v)) => {
                let mut s = String::from_str("--get-user-env=");
                s.append(v.as_str());
                s
            },
            SbatchOption::GetUserEnv(None) => String::from_str("--get-user-env"),
            SbatchOption::GID(v) => {
                let mut s = String::from_str("--gid=");
                s.append(v.as_str());
                s
            },
            SbatchOption::GPUBind(v) => {
                let mut s = String::from_str("--gpu-bind=");
                s.append(v.as_str());
                s
            },
            SbatchOption::GPUFreq(v) => {
                let mut s = String::from_str("--gpu-freq=");
                s.append(v.as_str());
                s
            },
            SbatchOption::GPUs(v) => {
                let mut s = String::from_str("--gpus=");
                s.append(v.as_str());
                s
            },
            SbatchOption::GPUsPerNode(v) => {
                let mut s = String::from_str("--gpus-per-node=");
                s.append(v.as_str());
                s
            },
            SbatchOption::GPUsPerSocket(v) => {
                let mut s = String::from_str("--gpus-per-socket=");
                s.append(v.as_str());
                s
            },
            SbatchOption::GPUsPerTask(v) => {
                let mut s = String::from_str("--gpus-per-task=");
                s.append(v.as_str());
                s
            },
            SbatchOption::Gres(v) => {
                let mut s = String::from_str("--gres=");
                s.append(v.as_str());
                s
            },
            SbatchOption::GresFlags(v) => {
                let mut s = String::from_str("--gres-flags=");
                s.append(v.as_str());
                s
            },
            SbatchOption::Help => String::from_str("--help"),
            SbatchOption::Hint(v) => {
                let mut s = String::from_str("--hint=");
                s.append(v.as_str());
                s
            },
            SbatchOption::Hold => String::from_str("--hold"),
            SbatchOption::IgnorePbs => String::from_str("--ignore-pbs"),
            SbatchOption::Input(v) => {
                let mut s = String::from_str("--input=");
                s.append(v.as_str());
                s
            },
            SbatchOption::JobName(v) => {
                let mut s = String::from_str("--job-name=");
                s.append(v.as_str());
                s
            },
            SbatchOption::KillOnInvalidDep(v) => {
                let mut s = String::from_str("--kill-on-invalid-dep=");
                s.append(v.as_str());
                s
            },
            SbatchOption::Licenses(v) => {
                let mut s = String::from_str("--licenses=");
                s.append(v.as_str());
                s
            },
            SbatchOption::MailType(v) => {
                let mut s = String::from_str("--mail-type=");
                s.append(v.as_str());
                s
            },
            SbatchOption::MailUser(v) => {
                let mut s = String::from_str("--mail-user=");
                s.append(v.as_str());
                s
            },
            SbatchOption::McsLabel(v) => {
                let mut s = String::from_str("--mcs-label=");
                s.append(v.as_str());
                s
            },
            SbatchOption::Mem(v) => {
                let mut s = String::from_str("--mem=");
                s.append(v.as_str());
                s
            },
            SbatchOption::MemBind(v) => {
                let mut s = String::from_str("--mem-bind=");
                s.append(v.as_str());
                s
            },
            SbatchOption::MemPerCPU(v) => {
                let mut s = String::from_str("--mem-per-cpu=");
                s.append(v.as_str());
                s
            },
            SbatchOption::MemPerGPU(v) => {
                let mut s = String::from_str("--mem-per-gpu=");
                s.append(v.as_str());
                s
            },
            SbatchOption::MinCPUs(v) => {
                let mut s = String::from_str("--min-cpus=");
                let d = num::u32_text(*v);
                s.append(d.as_str());
                s
            },
            SbatchOption::Network(v) => {
                let mut s = String::from_str("--network=");
                s.append(v.as_str());
                s
            },
            SbatchOption::Nice(Some(v)) => {
                let mut s = String::from_str("--nice=");
                let d = num::i32_text(*v);
                s.append(d.as_str());
                s
            },
            SbatchOption::Nice(None) => String::from_str("--nice"),
            SbatchOption::NoKill(Some(v)) => {
                let mut s = String::from_str("--no-kill=");
                s.append(v.as_str());
                s
            },
            SbatchOption::NoKill(None) => String::from_str("--no-kill"),
            SbatchOption::NoRequeue => String::from_str("--no-requeue"),
            SbatchOption::NodeFile(v) => {
                let mut s = String::from_str("--nodefile=");
                s.append(v.as_str());
                s
            },
            SbatchOption::NodeList(v) => {
                let mut s = String::from_str("--nodelist=");
                s.append(v.as_str());
                s
            },
            SbatchOption::Nodes(v) => {
                let mut s = String::from_str("--nodes=");
                s.append(v.as_str());
                s
            },
            SbatchOption::NTasks(v) => {
                let mut s = String::from_str("--ntasks=");
                let d = num::u32_text(*v);
                s.append(d.as_str());
                s
            },
            SbatchOption::NTasksPerCore(v) => {
                let mut s = String::from_str("--ntasks-per-core=");
                let d = num::u32_text(*v);
                s.append(d.as_str());
                s
            },
            SbatchOption::NTasksPerGPU(v) => {
                let mut s = String::from_str("--ntasks-per-gpu=");
                let d = num::u32_text(*v);
                s.append(d.as_str());
                s
            },
            SbatchOption::NTasksPerNode(v) => {
                let mut s = String::from_str("--ntasks-per-node=");
                let d = num::u32_text(*v);
                s.append(d.as_str());
                s
            },
            SbatchOption::NTasksPerSocket(v) => {
                let mut s = String::from_str("--ntasks-per-socket=");
                let d = num::u32_text(*v);
                s.append(d.as_str());
                s
            },
            SbatchOption::OOMKillStep(Some(v)) => {
                let mut s = String::from_str("--oom-kill-step=");
                s.append(v.as_str());
                s
            },
            SbatchOption::OOMKillStep(None) => String::from_str("--oom-kill-step"),
            SbatchOption::OpenMode(v) => {
                let mut s = String::from_str("--open-mode=");
                s.append(v.as_str());
                s
            },
            SbatchOption::Output(v) => {
                let mut s = String::from_str("--output=");
                s.append(v.as_str());
                s
            },
            SbatchOption::Overcommit => String::from_str("--overcommit"),
            SbatchOption::Oversubscribe => String::from_str("--oversubscribe"),
            SbatchOption::Parsable => String::from_str("--parsable"),
            SbatchOption::Partition(v) => {
                let mut s = String::from_str("--partition=");
                s.append(v.as_str());
                s
            },
            SbatchOption::Prefer(v) => {
                let mut s = String::from_str("--prefer=");
                s.append(v.as_str());
                s
            },
            SbatchOption::Priority(v) => {
                let mut s = String::from_str("--priority=");
                s.append(v.as_str());
                s
            },
            SbatchOption::Profile(v) => {
                let mut s = String::from_str("--profile=");
                s.append(v.as_str());
                s
            },
            SbatchOption::Propagate(Some(v)) => {
                let mut s = String::from_str("--propagate=");
                s.append(v.as_str());
                s
            },
            SbatchOption::Propagate(None) => String::from_str("--propagate"),
            SbatchOption::Qos(v) => {
                let mut s = String::from_str("--qos=");
                s.append(v.as_str());
                s
            },
            SbatchOption::Quiet => String::from_str("--quiet"),
            SbatchOption::Reboot => String::from_str("--reboot"),
            SbatchOption::Requeue => String::from_str("--requeue"),
            SbatchOption::Reservation(v) => {
                let mut s = String::from_str("--reservation=");
                s.append(v.as_str());
                s
            },
            SbatchOption::ResvPorts(Some(v)) => {
                let mut s = String::from_str("--resv-ports=");
                s.append(v.as_str());
                s
            },
            SbatchOption::ResvPorts(None) => String::from_str("--resv-ports"),
            SbatchOption::Segment(v) => {
                let mut s = String::from_str("--segment=");
                s.append(v.as_str());
                s
            },
            SbatchOption::Signal(v) => {
                let mut s = String::from_str("--signal=");
                s.append(v.as_str());
                s
            },
            SbatchOption::SocketsPerNode(v) => {
                let mut s = String::from_str("--sockets-per-node=");
                s.append(v.as_str());
                s
            },
            SbatchOption::SpreadJob => String::from_str("--spread-job"),
            SbatchOption::Stepmgr => String::from_str("--stepmgr"),
            SbatchOption::Switches(v) => {
                let mut s = String::from_str("--switches=");
                s.append(v.as_str());
                s
            },
            SbatchOption::TestOnly => String::from_str("--test-only"),
            SbatchOption::ThreadSpec(v) => {
                let mut s = String::from_str("--thread-spec=");
                let d = num::u32_text(*v);
                s.append(d.as_str());
                s
            },
            SbatchOption::ThreadsPerCore(v) => {
                let mut s = String::from_str("--threads-per-core=");
                let d = num::u32_text(*v);
                s.append(d.as_str());
                s
            },
            SbatchOption::Time(v) => {
                let mut s = String::from_str("--time=");
                s.append(v.as_str());
                s
            },
            SbatchOption::TimeMin(v) => {
                let mut s = String::from_str("--time-min=");
                s.append(v.as_str());
                s
            },
            SbatchOption::Tmp(v) => {
                let mut s = String::from_str("--tmp=");
                s.append(v.as_str());
                s
            },
            SbatchOption::TresBind(v) => {
                let mut s = String::from_str("--tres-bind=");
                s.append(v.as_str());
                s
            },
            SbatchOption::TresPerTask(v) => {
                let mut s = String::from_str("--tres-per-task=");
                s.append(v.as_str());
                s
            },
            SbatchOption::UID(v) => {
                let mut s = String::from_str("--uid=");
                s.append(v.as_str());
                s
            },
            SbatchOption::Usage => String::from_str("--usage"),
            SbatchOption::UseMinNodes => String::from_str("--use-min-nodes"),
            SbatchOption::Verbose => String::from_str("--verbose"),
            SbatchOption::Version => String::from_str("--version"),
            SbatchOption::Wait => String::from_str("--wait"),
            SbatchOption::WaitAllNodes(v) => {
                let mut s = String::from_str("--wait-all-nodes=");
                s.append(v.as_str());
                s
            },
            SbatchOption::WCKey(v) => {
                let mut s = String::from_str("--wckey=");
                s.append(v.as_str());
                s
            },
            SbatchOption::Wrap(v) => {
                let mut s = String::from_str("--wrap=");
                s.append(v.as_str());
                s
            },
        }
    }

    /// The rank of the option's variant.
    pub fn variant_id(&self) -> (t: u32)
        ensures
            t as int == tag(self),
    {
        match self {
            SbatchOption::Account(_) => 0,
            SbatchOption::AcctgFreq(_) => 1,
            SbatchOption::Array(_) => 2,
            SbatchOption::Batch(_) => 3,
            SbatchOption::Bb(_) => 4,
            SbatchOption::Bbf(_) => 5,
            SbatchOption::Begin(_) => 6,
            SbatchOption::Chdir(_) => 7,
            SbatchOption::ClusterConstraint(_) => 8,
            SbatchOption::Clusters(_) => 9,
            SbatchOption::Comment(_) => 10,
            SbatchOption::Constraint(_) => 11,
            SbatchOption::Container(_) => 12,
            SbatchOption::ContainerID(_) => 13,
            SbatchOption::Contiguous => 14,
            SbatchOption::CoreSpec(_) => 15,
            SbatchOption::CoresPerSocket(_) => 16,
            SbatchOption::CPUFreq(_) => 17,
            SbatchOption::CPUsPerGPU(_) => 18,
            SbatchOption::CPUsPerTask(_) => 19,
            SbatchOption::Deadline(_) => 20,
            SbatchOption::DelayBoot(_) => 21,
            SbatchOption::Dependency(_) => 22,
            SbatchOption::Distribution(_) => 23,
            SbatchOption::Error(_) => 24,
            SbatchOption::Exclude(_) => 25,
            SbatchOption::Exclusive(_) => 26,
            SbatchOption::Export(_) => 27,
            SbatchOption::ExportFile(_) => 28,
            SbatchOption::Extra(_) => 29,
            SbatchOption::ExtraNodeInfo(_) => 30,
            SbatchOption::GetUserEnv(_) => 31,
            SbatchOption::GID(_) => 32,
            SbatchOption::GPUBind(_) => 33,
            SbatchOption::GPUFreq(_) => 34,
            SbatchOption::GPUs(_) => 35,
            SbatchOption::GPUsPerNode(_) => 36,
            SbatchOption::GPUsPerSocket(_) => 37,
            SbatchOption::GPUsPerTask(_) => 38,
            SbatchOption::Gres(_) => 39,
            SbatchOption::GresFlags(_) => 40,
            SbatchOption::Help => 41,
            SbatchOption::Hint(_) => 42,
            SbatchOption::Hold => 43,
            SbatchOption::IgnorePbs => 44,
            SbatchOption::Input(_) => 45,
            SbatchOption::JobName(_) => 46,
            SbatchOption::KillOnInvalidDep(_) => 47,
            SbatchOption::Licenses(_) => 48,
            SbatchOption::MailType(_) => 49,
            SbatchOption::MailUser(_) => 50,
            SbatchOption::McsLabel(_) => 51,
            SbatchOption::Mem(_) => 52,
            SbatchOption::MemBind(_) => 53,
            SbatchOption::MemPerCPU(_) => 54,
            SbatchOption::MemPerGPU(_) => 55,
            SbatchOption::MinCPUs(_) => 56,
            SbatchOption::Network(_) => 57,
            SbatchOption::Nice(_) => 58,
            SbatchOption::NoKill(_) => 59,
            SbatchOption::NoRequeue => 60,
            SbatchOption::NodeFile(_) => 61,
            SbatchOption::NodeList(_) => 62,
            SbatchOption::Nodes(_) => 63,
            SbatchOption::NTasks(_) => 64,
            SbatchOption::NTasksPerCore(_) => 65,
            SbatchOption::NTasksPerGPU(_) => 66,
            SbatchOption::NTasksPerNode(_) => 67,
            SbatchOption::NTasksPerSocket(_) => 68,
            SbatchOption::OOMKillStep(_) => 69,
            SbatchOption::OpenMode(_) => 70,
            SbatchOption::Output(_) => 71,
            SbatchOption::Overcommit => 72,
            SbatchOption::Oversubscribe => 73,
            SbatchOption::Parsable => 74,
            SbatchOption::Partition(_) => 75,
            SbatchOption::Prefer(_) => 76,
            SbatchOption::Priority(_) => 77,
            SbatchOption::Profile(_) => 78,
            SbatchOption::Propagate(_) => 79,
            SbatchOption::Qos(_) => 80,
            SbatchOption::Quiet => 81,
            SbatchOption::Reboot => 82,
            SbatchOption::Requeue => 83,
            SbatchOption::Reservation(_) => 84,
            SbatchOption::ResvPorts(_) => 85,
            SbatchOption::Segment(_) => 86,
            SbatchOption::Signal(_) => 87,
            SbatchOption::SocketsPerNode(_) => 88,
            SbatchOption::SpreadJob => 89,
            SbatchOption::Stepmgr => 90,
            SbatchOption::Switches(_) => 91,
            SbatchOption::TestOnly => 92,
            SbatchOption::ThreadSpec(_) => 93,
            SbatchOption::ThreadsPerCore(_) => 94,
            SbatchOption::Time(_) => 95,
            SbatchOption::TimeMin(_) => 96,
            SbatchOption::Tmp(_) => 97,
            SbatchOption::TresBind(_) => 98,
            SbatchOption::TresPerTask(_) => 99,
            SbatchOption::UID(_) => 100,
            SbatchOption::Usage => 101,
            SbatchOption::UseMinNodes => 102,
            SbatchOption::Verbose => 103,
            SbatchOption::Version => 104,
            SbatchOption::Wait => 105,
            SbatchOption::WaitAllNodes(_) => 106,
            SbatchOption::WCKey(_) => 107,
            SbatchOption::Wrap(_) => 108,
        }
    }

    /// Whether the two options set the same flag, whatever the values.
    pub fn is_same_variant(&self, other: &SbatchOption) -> (r: bool)
        ensures
            r == (tag(self) == tag(other)),
    {
        self.variant_id() == other.variant_id()
    }

    /// Builds the option owed for a key and value pair; an unknown key
    /// or a wrong arity is rejected.
    #[verifier::rlimit(100)]
    pub fn from_key_value(key: &str, value: Option<&str>) -> (r: Result<
        SbatchOption,
        SbatchOptionError,
    >)
        ensures
            r is Ok <==> kv_ok(key@, opt_view(value)),
            r matches Ok(o) ==> kv_matches(key@, opt_view(value), &o),
            r matches Err(e) ==> kv_err_matches(key@, opt_view(value), &e),
    {
        proof {
            lemma_key_groups(key@);
        }
        if crate::text::str_eq(key, "account") || crate::text::str_eq(key, "A") {
            match value {
                Some(v) => Ok(SbatchOption::Account(String::from_str(v))),
                None => Err(SbatchOptionError::UnknownArgument(String::from_str(key))),
            }
        } else if crate::text::str_eq(key, "acctg-freq") {
            match value {
                Some(v) => Ok(SbatchOption::AcctgFreq(String::from_str(v))),
                None => Err(SbatchOptionError::UnknownArgument(String::from_str(key))),
            }
        } else if crate::text::str_eq(key, "array") || crate::text::str_eq(key, "a") {
            match value {
                Some(v) => Ok(SbatchOption::Array(String::from_str(v))),
                None => Err(SbatchOptionError::UnknownArgument(String::from_str(key))),
            }
        } else if crate::text::str_eq(key, "batch") {
            match value {
                Some(v) => Ok(SbatchOption::Batch(String::from_str(v))),
                None => Err(SbatchOptionError::UnknownArgument(String::from_str(key))),
            }
        } else if crate::text::str_eq(key, "bb") {
            match value {
                Some(v) => Ok(SbatchOption::Bb(String::from_str(v))),
                None => Err(SbatchOptionError::UnknownArgument(String::from_str(key))),
            }
        } else if crate::text::str_eq(key, "bbf") {
            match value {
                Some(v) => Ok(SbatchOption::Bbf(String::from_str(v))),
                None => Err(SbatchOptionError::UnknownArgument(String::from_str(key))),
            }
        } else if crate::text::str_eq(key, "begin") || crate::text::str_eq(key, "b") {
            match value {
                Some(v) => Ok(SbatchOption::Begin(String::from_str(v))),
                None => Err(SbatchOptionError::UnknownArgument(String::from_str(key))),
            }
        } else if crate::text::str_eq(key, "chdir") || crate::text::str_eq(key, "D") {
            match value {
                Some(v) => Ok(SbatchOption::Chdir(String::from_str(v))),
                None => Err(SbatchOptionError::UnknownArgument(String::from_str(key))),
            }
        } else if crate::text::str_eq(key, "cluster-constraint") {
            match value {
                Some(v) => Ok(SbatchOption::ClusterConstraint(String::from_str(v))),
                None => Err(SbatchOptionError::UnknownArgument(String::from_str(key))),
            }
        } else if crate::text::str_eq(key, "clusters") || crate::text::str_eq(key, "M") {
            match value {
                Some(v) => Ok(SbatchOption::Clusters(String::from_str(v))),
                None => Err(SbatchOptionError::UnknownArgument(String::from_str(key))),
            }
        } else if crate::text::str_eq(key, "comment") {
            match value {
                Some(v) => Ok(SbatchOption::Comment(String::from_str(v))),
                None => Err(SbatchOptionError::UnknownArgument(String::from_str(key))),
            }
        } else if crate::text::str_eq(key, "constraint") || crate::text::str_eq(key, "C") {
            match value {
                Some(v) => Ok(SbatchOption::Constraint(String::from_str(v))),
                None => Err(SbatchOptionError::UnknownArgument(String::from_str(key))),
            }
        } else if crate::text::str_eq(key, "container") {
            match value {
                Some(v) => Ok(SbatchOption::Container(String::from_str(v))),
                None => Err(SbatchOptionError::UnknownArgument(String::from_str(key))),
            }
        } else if crate::text::str_eq(key, "container-id") {
            match value {
                Some(v) => Ok(SbatchOption::ContainerID(String::from_str(v))),
                None => Err(SbatchOptionError::UnknownArgument(String::from_str(key))),
            }
        } else if crate::text::str_eq(key, "contiguous") {
            match value {
                None => Ok(SbatchOption::Contiguous),
                Some(_) => Err(SbatchOptionError::UnknownArgument(String::from_str(key))),
            }
        } else if crate::text::str_eq(key, "core-spec") || crate::text::str_eq(key, "S") {
            match value {
                Some(v) => match parse_positive(v) {
                    Ok(n) => Ok(SbatchOption::CoreSpec(n)),
                    Err(e) => Err(e),
                },
                None => Err(SbatchOptionError::UnknownArgument(String::from_str(key))),
            }
        } else if crate::text::str_eq(key, "cores-per-socket") {
            match value {
                Some(v) => match parse_positive(v) {
                    Ok(n) => Ok(SbatchOption::CoresPerSocket(n)),
                    Err(e) => Err(e),
                },
                None => Err(SbatchOptionError::UnknownArgument(String::from_str(key))),
            }
        } else if crate::text::str_eq(key, "cpu-freq") {
            match value {
                Some(v) => Ok(SbatchOption::CPUFreq(String::from_str(v))),
                None => Err(SbatchOptionError::UnknownArgument(String::from_str(key))),
            }
        } else if crate::text::str_eq(key, "cpus-per-gpu") {
            match value {
                Some(v) => match parse_positive(v) {
                    Ok(n) => Ok(SbatchOption::CPUsPerGPU(n)),
                    Err(e) => Err(e),
                },
                None => Err(SbatchOptionError::UnknownArgument(String::from_str(key))),
            }
        } else if crate::text::str_eq(key, "cpus-per-task") || crate::text::str_eq(key, "c") {
            match value {
                Some(v) => match parse_positive(v) {
                    Ok(n) => Ok(SbatchOption::CPUsPerTask(n)),
                    Err(e) => Err(e),
                },
                None => Err(SbatchOptionError::UnknownArgument(String::from_str(key))),
            }
        } else if crate::text::str_eq(key, "deadline") {
            match value {
                Some(v) => Ok(SbatchOption::Deadline(String::from_str(v))),
                None => Err(SbatchOptionError::UnknownArgument(String::from_str(key))),
            }
        } else if crate::text::str_eq(key, "delay-boot") {
            match value {
                Some(v) => match parse_positive(v) {
                    Ok(n) => Ok(SbatchOption::DelayBoot(n)),
                    Err(e) => Err(e),
                },
                None => Err(SbatchOptionError::UnknownArgument(String::from_str(key))),
            }
        } else if crate::text::str_eq(key, "dependency") || crate::text::str_eq(key, "d") {
            match value {
                Some(v) => match SbatchDependency::from_str(v) {
                    Ok(d) => Ok(SbatchOption::Dependency(d)),
                    Err(e) => Err(SbatchOptionError::ParseDependencyError(e)),
                },
                None => Err(SbatchOptionError::UnknownArgument(String::from_str(key))),
            }
        } else if crate::text::str_eq(key, "distribution") || crate::text::str_eq(key, "m") {
            match value {
                Some(v) => Ok(SbatchOption::Distribution(String::from_str(v))),
                None => Err(SbatchOptionError::UnknownArgument(String::from_str(key))),
            }
        } else if crate::text::str_eq(key, "error") || crate::text::str_eq(key, "e") {
            match value {
                Some(v) => Ok(SbatchOption::Error(String::from_str(v))),
                None => Err(SbatchOptionError::UnknownArgument(String::from_str(key))),
            }
        } else if crate::text::str_eq(key, "exclude") || crate::text::str_eq(key, "x") {
            match value {
                Some(v) => Ok(SbatchOption::Exclude(String::from_str(v))),
                None => Err(SbatchOptionError::UnknownArgument(String::from_str(key))),
            }
        } else if crate::text::str_eq(key, "exclusive") {
            match value {
                Some(v) => Ok(SbatchOption::Exclusive(Some(String::from_str(v)))),
                None => Ok(SbatchOption::Exclusive(None)),
            }
        } else if crate::text::str_eq(key, "export") {
            match value {
                Some(v) => Ok(SbatchOption::Export(String::from_str(v))),
                None => Err(SbatchOptionError::UnknownArgument(String::from_str(key))),
            }
        } else if crate::text::str_eq(key, "export-file") {
            match value {
                Some(v) => Ok(SbatchOption::ExportFile(String::from_str(v))),
                None => Err(SbatchOptionError::UnknownArgument(String::from_str(key))),
            }
        } else if crate::text::str_eq(key, "extra") {
            match value {
                Some(v) => Ok(SbatchOption::Extra(String::from_str(v))),
                None => Err(SbatchOptionError::UnknownArgument(String::from_str(key))),
            }
        } else if crate::text::str_eq(key, "extra-node-info") || crate::text::str_eq(key, "B") {
            match value {
                Some(v) => Ok(SbatchOption::ExtraNodeInfo(String::from_str(v))),
                None => Err(SbatchOptionError::UnknownArgument(String::from_str(key))),
            }
        } else if crate::text::str_eq(key, "get-user-env") {
            match value {
                Some(v) => Ok(SbatchOption::GetUserEnv(Some(String::from_str(v)))),
                None => Ok(SbatchOption::GetUserEnv(None)),
            }
        } else if crate::text::str_eq(key, "gid") {
            match value {
                Some(v) => Ok(SbatchOption::GID(String::from_str(v))),
                None => Err(SbatchOptionError::UnknownArgument(String::from_str(key))),
            }
        } else if crate::text::str_eq(key, "gpu-bind") {
            match value {
                Some(v) => Ok(SbatchOption::GPUBind(String::from_str(v))),
                None => Err(SbatchOptionError::UnknownArgument(String::from_str(key))),
            }
        } else if crate::text::str_eq(key, "gpu-freq") {
            match value {
                Some(v) => Ok(SbatchOption::GPUFreq(String::from_str(v))),
                None => Err(SbatchOptionError::UnknownArgument(String::from_str(key))),
            }
        } else if crate::text::str_eq(key, "gpus") || crate::text::str_eq(key, "G") {
            match value {
                Some(v) => Ok(SbatchOption::GPUs(String::from_str(v))),
                None => Err(SbatchOptionError::UnknownArgument(String::from_str(key))),
            }
        } else if crate::text::str_eq(key, "gpus-per-node") {
            match value {
                Some(v) => Ok(SbatchOption::GPUsPerNode(String::from_str(v))),
                None => Err(SbatchOptionError::UnknownArgument(String::from_str(key))),
            }
        } else if crate::text::str_eq(key, "gpus-per-socket") {
            match value {
                Some(v) => Ok(SbatchOption::GPUsPerSocket(String::from_str(v))),
                None => Err(SbatchOptionError::UnknownArgument(String::from_str(key))),
            }
        } else if crate::text::str_eq(key, "gpus-per-task") {
            match value {
                Some(v) => Ok(SbatchOption::GPUsPerTask(String::from_str(v))),
                None => Err(SbatchOptionError::UnknownArgument(String::from_str(key))),
            }
        } else if crate::text::str_eq(key, "gres") {
            match value {
                Some(v) => Ok(SbatchOption::Gres(String::from_str(v))),
                None => Err(SbatchOptionError::UnknownArgument(String::from_str(key))),
            }
        } else if crate::text::str_eq(key, "gres-flags") {
            match value {
                Some(v) => Ok(SbatchOption::GresFlags(String::from_str(v))),
                None => Err(SbatchOptionError::UnknownArgument(String::from_str(key))),
            }
        } else if crate::text::str_eq(key, "help") || crate::text::str_eq(key, "h") {
            match value {
                None => Ok(SbatchOption::Help),
                Some(_) => Err(SbatchOptionError::UnknownArgument(String::from_str(key))),
            }
        } else if crate::text::str_eq(key, "hint") {
            match value {
                Some(v) => Ok(SbatchOption::Hint(String::from_str(v))),
                None => Err(SbatchOptionError::UnknownArgument(String::from_str(key))),
            }
        } else if crate::text::str_eq(key, "hold") || crate::text::str_eq(key, "H") {
            match value {
                None => Ok(SbatchOption::Hold),
                Some(_) => Err(SbatchOptionError::UnknownArgument(String::from_str(key))),
            }
        } else if crate::text::str_eq(key, "ignore-pbs") {
            match value {
                None => Ok(SbatchOption::IgnorePbs),
                Some(_) => Err(SbatchOptionError::UnknownArgument(String::from_str(key))),
            }
        } else if crate::text::str_eq(key, "input") || crate::text::str_eq(key, "i") {
            match value {
                Some(v) => Ok(SbatchOption::Input(String::from_str(v))),
                None => Err(SbatchOptionError::UnknownArgument(String::from_str(key))),
            }
        } else if crate::text::str_eq(key, "job-name") || crate::text::str_eq(key, "J") {
            match value {
                Some(v) => Ok(SbatchOption::JobName(String::from_str(v))),
                None => Err(SbatchOptionError::UnknownArgument(String::from_str(key))),
            }
        } else if crate::text::str_eq(key, "kill-on-invalid-dep") {
            match value {
                Some(v) => Ok(SbatchOption::KillOnInvalidDep(String::from_str(v))),
                None => Err(SbatchOptionError::UnknownArgument(String::from_str(key))),
            }
        } else if crate::text::str_eq(key, "licenses") || crate::text::str_eq(key, "L") {
            match value {
                Some(v) => Ok(SbatchOption::Licenses(String::from_str(v))),
                None => Err(SbatchOptionError::UnknownArgument(String::from_str(key))),
            }
        } else if crate::text::str_eq(key, "mail-type") {
            match value {
                Some(v) => Ok(SbatchOption::MailType(String::from_str(v))),
                None => Err(SbatchOptionError::UnknownArgument(String::from_str(key))),
            }
        } else if crate::text::str_eq(key, "mail-user") {
            match value {
                Some(v) => Ok(SbatchOption::MailUser(String::from_str(v))),
                None => Err(SbatchOptionError::UnknownArgument(String::from_str(key))),
            }
        } else if crate::text::str_eq(key, "mcs-label") {
            match value {
                Some(v) => Ok(SbatchOption::McsLabel(String::from_str(v))),
                None => Err(SbatchOptionError::UnknownArgument(String::from_str(key))),
            }
        } else if crate::text::str_eq(key, "mem") {
            match value {
                Some(v) => Ok(SbatchOption::Mem(String::from_str(v))),
                None => Err(SbatchOptionError::UnknownArgument(String::from_str(key))),
            }
        } else if crate::text::str_eq(key, "mem-bind") {
            match value {
                Some(v) => Ok(SbatchOption::MemBind(String::from_str(v))),
                None => Err(SbatchOptionError::UnknownArgument(String::from_str(key))),
            }
        } else if crate::text::str_eq(key, "mem-per-cpu") {
            match value {
                Some(v) => Ok(SbatchOption::MemPerCPU(String::from_str(v))),
                None => Err(SbatchOptionError::UnknownArgument(String::from_str(key))),
            }
        } else if crate::text::str_eq(key, "mem-per-gpu") {
            match value {
                Some(v) => Ok(SbatchOption::MemPerGPU(String::from_str(v))),
                None => Err(SbatchOptionError::UnknownArgument(String::from_str(key))),
            }
        } else if crate::text::str_eq(key, "min-cpus") {
            match value {
                Some(v) => match parse_positive(v) {
                    Ok(n) => Ok(SbatchOption::MinCPUs(n)),
                    Err(e) => Err(e),
                },
                None => Err(SbatchOptionError::UnknownArgument(String::from_str(key))),
            }
        } else if crate::text::str_eq(key, "network") {
            match value {
                Some(v) => Ok(SbatchOption::Network(String::from_str(v))),
                None => Err(SbatchOptionError::UnknownArgument(String::from_str(key))),
            }
        } else if crate::text::str_eq(key, "nice") {
            match value {
                Some(v) => match num::parse_i32(v) {
                    Some(n) => Ok(SbatchOption::Nice(Some(n))),
                    None => Err(SbatchOptionError::ParseValueError(String::from_str(v))),
                },
                None => Ok(SbatchOption::Nice(None)),
            }
        } else if crate::text::str_eq(key, "no-kill") || crate::text::str_eq(key, "k") {
            match value {
                Some(v) => Ok(SbatchOption::NoKill(Some(String::from_str(v)))),
                None => Ok(SbatchOption::NoKill(None)),
            }
        } else if crate::text::str_eq(key, "no-requeue") {
            match value {
                None => Ok(SbatchOption::NoRequeue),
                Some(_) => Err(SbatchOptionError::UnknownArgument(String::from_str(key))),
            }
        } else if crate::text::str_eq(key, "nodefile") || crate::text::str_eq(key, "F") {
            match value {
                Some(v) => Ok(SbatchOption::NodeFile(String::from_str(v))),
                None => Err(SbatchOptionError::UnknownArgument(String::from_str(key))),
            }
        } else if crate::text::str_eq(key, "nodelist") || crate::text::str_eq(key, "w") {
            match value {
                Some(v) => Ok(SbatchOption::NodeList(String::from_str(v))),
                None => Err(SbatchOptionError::UnknownArgument(String::from_str(key))),
            }
        } else if crate::text::str_eq(key, "nodes") || crate::text::str_eq(key, "N") {
            match value {
                Some(v) => Ok(SbatchOption::Nodes(String::from_str(v))),
                None => Err(SbatchOptionError::UnknownArgument(String::from_str(key))),
            }
        } else if crate::text::str_eq(key, "ntasks") || crate::text::str_eq(key, "n") {
            match value {
                Some(v) => match parse_positive(v) {
                    Ok(n) => Ok(SbatchOption::NTasks(n)),
                    Err(e) => Err(e),
                },
                None => Err(SbatchOptionError::UnknownArgument(String::from_str(key))),
            }
        } else if crate::text::str_eq(key, "ntasks-per-core") {
            match value {
                Some(v) => match parse_positive(v) {
                    Ok(n) => Ok(SbatchOption::NTasksPerCore(n)),
                    Err(e) => Err(e),
                },
                None => Err(SbatchOptionError::UnknownArgument(String::from_str(key))),
            }
        } else if crate::text::str_eq(key, "ntasks-per-gpu") {
            match value {
                Some(v) => match parse_positive(v) {
                    Ok(n) => Ok(SbatchOption::NTasksPerGPU(n)),
                    Err(e) => Err(e),
                },
                None => Err(SbatchOptionError::UnknownArgument(String::from_str(key))),
            }
        } else if crate::text::str_eq(key, "ntasks-per-node") {
            match value {
                Some(v) => match parse_positive(v) {
                    Ok(n) => Ok(SbatchOption::NTasksPerNode(n)),
                    Err(e) => Err(e),
                },
                None => Err(SbatchOptionError::UnknownArgument(String::from_str(key))),
            }
        } else if crate::text::str_eq(key, "ntasks-per-socket") {
            match value {
                Some(v) => match parse_positive(v) {
                    Ok(n) => Ok(SbatchOption::NTasksPerSocket(n)),
                    Err(e) => Err(e),
                },
                None => Err(SbatchOptionError::UnknownArgument(String::from_str(key))),
            }
        } else if crate::text::str_eq(key, "oom-kill-step") {
            match value {
                Some(v) => Ok(SbatchOption::OOMKillStep(Some(String::from_str(v)))),
                None => Ok(SbatchOption::OOMKillStep(None)),
            }
        } else if crate::text::str_eq(key, "open-mode") {
            match value {
                Some(v) => Ok(SbatchOption::OpenMode(String::from_str(v))),
                None => Err(SbatchOptionError::UnknownArgument(String::from_str(key))),
            }
        } else if crate::text::str_eq(key, "output") || crate::text::str_eq(key, "o") {
            match value {
                Some(v) => Ok(SbatchOption::Output(String::from_str(v))),
                None => Err(SbatchOptionError::UnknownArgument(String::from_str(key))),
            }
        } else if crate::text::str_eq(key, "overcommit") || crate::text::str_eq(key, "O") {
            match value {
                None => Ok(SbatchOption::Overcommit),
                Some(_) => Err(SbatchOptionError::UnknownArgument(String::from_str(key))),
            }
        } else if crate::text::str_eq(key, "oversubscribe") || crate::text::str_eq(key, "s") {
            match value {
                None => Ok(SbatchOption::Oversubscribe),
                Some(_) => Err(SbatchOptionError::UnknownArgument(String::from_str(key))),
            }
        } else if crate::text::str_eq(key, "parsable") {
            match value {
                None => Ok(SbatchOption::Parsable),
                Some(_) => Err(SbatchOptionError::UnknownArgument(String::from_str(key))),
            }
        } else if crate::text::str_eq(key, "partition") || crate::text::str_eq(key, "p") {
            match value {
                Some(v) => Ok(SbatchOption::Partition(String::from_str(v))),
                None => Err(SbatchOptionError::UnknownArgument(String::from_str(key))),
            }
        } else if crate::text::str_eq(key, "prefer") {
            match value {
                Some(v) => Ok(SbatchOption::Prefer(String::from_str(v))),
                None => Err(SbatchOptionError::UnknownArgument(String::from_str(key))),
            }
        } else if crate::text::str_eq(key, "priority") {
            match value {
                Some(v) => Ok(SbatchOption::Priority(String::from_str(v))),
                None => Err(SbatchOptionError::UnknownArgument(String::from_str(key))),
            }
        } else if crate::text::str_eq(key, "profile") {
            match value {
                Some(v) => Ok(SbatchOption::Profile(String::from_str(v))),
                None => Err(SbatchOptionError::UnknownArgument(String::from_str(key))),
            }
        } else if crate::text::str_eq(key, "propagate") {
            match value {
                Some(v) => Ok(SbatchOption::Propagate(Some(String::from_str(v)))),
                None => Ok(SbatchOption::Propagate(None)),
            }
        } else if crate::text::str_eq(key, "qos") || crate::text::str_eq(key, "q") {
            match value {
                Some(v) => Ok(SbatchOption::Qos(String::from_str(v))),
                None => Err(SbatchOptionError::UnknownArgument(String::from_str(key))),
            }
        } else if crate::text::str_eq(key, "quiet") || crate::text::str_eq(key, "Q") {
            match value {
                None => Ok(SbatchOption::Quiet),
                Some(_) => Err(SbatchOptionError::UnknownArgument(String::from_str(key))),
            }
        } else if crate::text::str_eq(key, "reboot") {
            match value {
                None => Ok(SbatchOption::Reboot),
                Some(_) => Err(SbatchOptionError::UnknownArgument(String::from_str(key))),
            }
        } else if crate::text::str_eq(key, "requeue") {
            match value {
                None => Ok(SbatchOption::Requeue),
                Some(_) => Err(SbatchOptionError::UnknownArgument(String::from_str(key))),
            }
        } else if crate::text::str_eq(key, "reservation") {
            match value {
                Some(v) => Ok(SbatchOption::Reservation(String::from_str(v))),
                None => Err(SbatchOptionError::UnknownArgument(String::from_str(key))),
            }
        } else if crate::text::str_eq(key, "resv-ports") {
            match value {
                Some(v) => Ok(SbatchOption::ResvPorts(Some(String::from_str(v)))),
                None => Ok(SbatchOption::ResvPorts(None)),
            }
        } else if crate::text::str_eq(key, "segment") {
            match value {
                Some(v) => Ok(SbatchOption::Segment(String::from_str(v))),
                None => Err(SbatchOptionError::UnknownArgument(String::from_str(key))),
            }
        } else if crate::text::str_eq(key, "signal") {
            match value {
                Some(v) => Ok(SbatchOption::Signal(String::from_str(v))),
                None => Err(SbatchOptionError::UnknownArgument(String::from_str(key))),
            }
        } else if crate::text::str_eq(key, "sockets-per-node") {
            match value {
                Some(v) => Ok(SbatchOption::SocketsPerNode(String::from_str(v))),
                None => Err(SbatchOptionError::UnknownArgument(String::from_str(key))),
            }
        } else if crate::text::str_eq(key, "spread-job") {
            match value {
                None => Ok(SbatchOption::SpreadJob),
                Some(_) => Err(SbatchOptionError::UnknownArgument(String::from_str(key))),
            }
        } else if crate::text::str_eq(key, "stepmgr") {
            match value {
                None => Ok(SbatchOption::Stepmgr),
                Some(_) => Err(SbatchOptionError::UnknownArgument(String::from_str(key))),
            }
        } else if crate::text::str_eq(key, "switches") {
            match value {
                Some(v) => Ok(SbatchOption::Switches(String::from_str(v))),
                None => Err(SbatchOptionError::UnknownArgument(String::from_str(key))),
            }
        } else if crate::text::str_eq(key, "test-only") {
            match value {
                None => Ok(SbatchOption::TestOnly),
                Some(_) => Err(SbatchOptionError::UnknownArgument(String::from_str(key))),
            }
        } else if crate::text::str_eq(key, "thread-spec") {
            match value {
                Some(v) => match parse_positive(v) {
                    Ok(n) => Ok(SbatchOption::ThreadSpec(n)),
                    Err(e) => Err(e),
                },
                None => Err(SbatchOptionError::UnknownArgument(String::from_str(key))),
            }
        } else if crate::text::str_eq(key, "threads-per-core") {
            match value {
                Some(v) => match parse_positive(v) {
                    Ok(n) => Ok(SbatchOption::ThreadsPerCore(n)),
                    Err(e) => Err(e),
                },
                None => Err(SbatchOptionError::UnknownArgument(String::from_str(key))),
            }
        } else if crate::text::str_eq(key, "time") || crate::text::str_eq(key, "t") {
            match value {
                Some(v) => Ok(SbatchOption::Time(String::from_str(v))),
                None => Err(SbatchOptionError::UnknownArgument(String::from_str(key))),
            }
        } else if crate::text::str_eq(key, "time-min") {
            match value {
                Some(v) => Ok(SbatchOption::TimeMin(String::from_str(v))),
                None => Err(SbatchOptionError::UnknownArgument(String::from_str(key))),
            }
        } else if crate::text::str_eq(key, "tmp") {
            match value {
                Some(v) => Ok(SbatchOption::Tmp(String::from_str(v))),
                None => Err(SbatchOptionError::UnknownArgument(String::from_str(key))),
            }
        } else if crate::text::str_eq(key, "tres-bind") {
            match value {
                Some(v) => Ok(SbatchOption::TresBind(String::from_str(v))),
                None => Err(SbatchOptionError::UnknownArgument(String::from_str(key))),
            }
        } else if crate::text::str_eq(key, "tres-per-task") {
            match value {
                Some(v) => Ok(SbatchOption::TresPerTask(String::from_str(v))),
                None => Err(SbatchOptionError::UnknownArgument(String::from_str(key))),
            }
        } else if crate::text::str_eq(key, "uid") {
            match value {
                Some(v) => Ok(SbatchOption::UID(String::from_str(v))),
                None => Err(SbatchOptionError::UnknownArgument(String::from_str(key))),
            }
        } else if crate::text::str_eq(key, "usage") {
            match value {
                None => Ok(SbatchOption::Usage),
                Some(_) => Err(SbatchOptionError::UnknownArgument(String::from_str(key))),
            }
        } else if crate::text::str_eq(key, "use-min-nodes") {
            match value {
                None => Ok(SbatchOption::UseMinNodes),
                Some(_) => Err(SbatchOptionError::UnknownArgument(String::from_str(key))),
            }
        } else if crate::text::str_eq(key, "verbose") || crate::text::str_eq(key, "v") {
            match value {
                None => Ok(SbatchOption::Verbose),
                Some(_) => Err(SbatchOptionError::UnknownArgument(String::from_str(key))),
            }
        } else if crate::text::str_eq(key, "version") || crate::text::str_eq(key, "V") {
            match value {
                None => Ok(SbatchOption::Version),
                Some(_) => Err(SbatchOptionError::UnknownArgument(String::from_str(key))),
            }
        } else if crate::text::str_eq(key, "wait") {
            match value {
                None => Ok(SbatchOption::Wait),
                Some(_) => Err(SbatchOptionError::UnknownArgument(String::from_str(key))),
            }
        } else if crate::text::str_eq(key, "wait-all-nodes") {
            match value {
                Some(v) => Ok(SbatchOption::WaitAllNodes(String::from_str(v))),
                None => Err(SbatchOptionError::UnknownArgument(String::from_str(key))),
            }
        } else if crate::text::str_eq(key, "wckey") {
            match value {
                Some(v) => Ok(SbatchOption::WCKey(String::from_str(v))),
                None => Err(SbatchOptionError::UnknownArgument(String::from_str(key))),
            }
        } else if crate::text::str_eq(key, "wrap") {
            match value {
                Some(v) => Ok(SbatchOption::Wrap(String::from_str(v))),
                None => Err(SbatchOptionError::UnknownArgument(String::from_str(key))),
            }
        } else {
            Err(SbatchOptionError::UnknownArgument(String::from_str(key)))
        }
    }

    /// Parses an option from one command-line argument.
    pub fn from_str(s: &str) -> (r: Result<SbatchOption, SbatchOptionError>)
        ensures
            !arg_shape_some(trim_seq(s@)) ==> (r matches Err(e) && e matches
                SbatchOptionError::UnknownArgument(t) && t@ == s@),
            arg_shape_some(trim_seq(s@)) ==> {
                let k = arg_key(trim_seq(s@));
                let v = arg_value(trim_seq(s@));
                &&& r is Ok <==> kv_ok(k, v)
                &&& (r matches Ok(o) ==> kv_matches(k, v, &o))
                &&& (r matches Err(e) ==> kv_err_matches(k, v, &e))
            },
    {
        let m = match RegexMatch::from_str(s) {
            Some(m) => m,
            None => {
                return Err(SbatchOptionError::UnknownArgument(String::from_str(s)));
            },
        };
        let key = m.key();
        let value = m.value();
        SbatchOption::from_key_value(key, value)
    }
}

} // verus!
