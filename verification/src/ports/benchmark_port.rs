//! Benchmarking: configurations, what running a command gives, and the
//! errors of a benchmark.

use crate::text::{chars_of, join};
use vstd::prelude::*;

verus! {

/// A benchmarking tool.
#[derive(Debug, Clone, Copy, PartialEq, Eq, Structural)]
pub enum BenchmarkTool {
    /// The I/O generator `fio`.
    FIO,
    /// The stress tool `stress-ng`.
    StressNg,
}

/// Kind of I/O of a job of `fio`.
#[derive(Debug, Clone, Copy, PartialEq, Eq, Structural)]
pub enum IOType {
    /// Sequential reads.
    SequentialRead,
    /// Random reads.
    RandomRead,
    /// Sequential writes.
    SequentialWrite,
    /// Random writes.
    RandomWrite,
}

/// Parameters of a run of `fio`.
#[derive(Debug, Clone)]
pub struct FIOParams {
    /// Directory of the scratch files.
    pub directory: String,
    /// Block size, as the tool takes it.
    pub block_size: String,
    /// Kind of I/O.
    pub io_type: IOType,
    /// Size, as the tool takes it.
    pub size: String,
    /// Run time in seconds.
    pub runtime: u32,
    /// Number of jobs.
    pub num_jobs: u32,
    /// Depth of the I/O queue.
    pub io_depth: u32,
}

/// Parameters of a run of `stress-ng`.
#[derive(Debug, Clone, Copy, PartialEq, Eq, Structural)]
pub struct StressNgParams {
    /// CPU load in percent.
    pub cpu_load: u32,
    /// Duration in seconds.
    pub duration: u32,
    /// Number of workers.
    pub workers: u32,
}

/// Parameters of a run, by tool.
#[derive(Debug, Clone)]
pub enum BenchmarkParams {
    /// Of `fio`.
    FIO(FIOParams),
    /// Of `stress-ng`.
    StressNg(StressNgParams),
}

/// One benchmark to run.
#[derive(Debug, Clone)]
pub struct BenchmarkConfig {
    /// Name of the benchmark.
    pub name: String,
    /// Tool.
    pub tool: BenchmarkTool,
    /// Parameters.
    pub params: BenchmarkParams,
}

/// What running a command gave.
#[derive(Debug, Clone)]
pub enum CommandOutcome {
    /// The command could not be started; why.
    SpawnFailed(String),
    /// The command ran and ended.
    Exited {
        /// It ended with status zero.
        success: bool,
        /// What it wrote to standard output.
        stdout: String,
        /// What it wrote to standard error.
        stderr: String,
    },
}

/// Errors of a benchmark.
#[derive(Debug, Clone)]
pub enum BenchmarkError {
    /// The directories could not be set up.  Ends the whole matrix.
    Environment(String),
    /// The tool is missing or broken.  Ends the whole matrix.
    ToolUnavailable(String),
    /// The tool could not be started for one workload.
    Invocation(String),
    /// The tool ran for one workload and reported failure; its standard
    /// error.
    NonZeroExit(String),
}

/// Kind of an error of a benchmark.
#[derive(Debug, Clone, Copy, PartialEq, Eq, Structural)]
pub enum ErrorKind {
    /// The directories could not be set up.
    Environment,
    /// The tool is missing or broken.
    ToolUnavailable,
    /// The tool could not be started.
    Invocation,
    /// The tool reported failure.
    NonZeroExit,
}

/// The mathematical model of [`BenchmarkError`].
pub struct BenchmarkErrorView {
    pub kind: ErrorKind,
    pub detail: Seq<char>,
}

impl View for BenchmarkError {
    type V = BenchmarkErrorView;

    open spec fn view(&self) -> BenchmarkErrorView {
        match *self {
            BenchmarkError::Environment(m) => BenchmarkErrorView {
                kind: ErrorKind::Environment,
                detail: m@,
            },
            BenchmarkError::ToolUnavailable(m) => BenchmarkErrorView {
                kind: ErrorKind::ToolUnavailable,
                detail: m@,
            },
            BenchmarkError::Invocation(m) => BenchmarkErrorView {
                kind: ErrorKind::Invocation,
                detail: m@,
            },
            BenchmarkError::NonZeroExit(m) => BenchmarkErrorView {
                kind: ErrorKind::NonZeroExit,
                detail: m@,
            },
        }
    }
}

impl BenchmarkError {
    /// The error ends the whole matrix; the others fail one workload.
    pub open spec fn fatal(self) -> bool {
        self is Environment || self is ToolUnavailable
    }

    /// Tells whether the error ends the whole matrix.
    pub fn is_fatal(&self) -> (b: bool)
        ensures
            b == self.fatal(),
    {
        match self {
            BenchmarkError::Environment(_) => true,
            BenchmarkError::ToolUnavailable(_) => true,
            _ => false,
        }
    }

    /// The error as a sentence.
    pub fn message(&self) -> (text: String)
        ensures
            text@ == match *self {
                BenchmarkError::Environment(m) => "Environment error: "@ + m@,
                BenchmarkError::ToolUnavailable(m) => "Tool unavailable: "@ + m@,
                BenchmarkError::Invocation(m) => "Failed to spawn FIO: "@ + m@,
                BenchmarkError::NonZeroExit(m) => "Tool failed: "@ + m@,
            },
    {
        match self {
            BenchmarkError::Environment(m) => join("Environment error: ", m.as_str()),
            BenchmarkError::ToolUnavailable(m) => join("Tool unavailable: ", m.as_str()),
            BenchmarkError::Invocation(m) => join("Failed to spawn FIO: ", m.as_str()),
            BenchmarkError::NonZeroExit(m) => join("Tool failed: ", m.as_str()),
        }
    }
}

/// A runner of benchmarks.
pub trait BenchmarkPort {
    /// Runs the whole matrix of workloads.
    fn run(&self) -> Result<(), BenchmarkError>;

    /// Probes the tool; its version.
    fn run_fio(&self) -> Result<String, BenchmarkError>;

    /// Makes sure that the directories are there.
    fn validate(&self) -> Result<(), BenchmarkError>;

    /// Runs a command with one argument; its standard output.
    fn run_command(&self, command: &str, args: &str) -> Result<String, BenchmarkError>;
}

/// What the tool option of the command line selects.
#[derive(Debug, Clone)]
pub enum ToolChoice {
    /// The I/O generator.
    Fio,
    /// A tool that is not supported; its name.
    Unsupported(String),
    /// No tool was named.
    Missing,
}

/// The name is `fio`, in any case of letters.
pub open spec fn names_fio(name: Seq<char>) -> bool {
    &&& name.len() == 3
    &&& (name[0] == 'f' || name[0] == 'F')
    &&& (name[1] == 'i' || name[1] == 'I')
    &&& (name[2] == 'o' || name[2] == 'O')
}

/// Decides which tool the tool option selects.
pub fn select_tool(tool: Option<&str>) -> (choice: ToolChoice)
    ensures
        match tool {
            None => choice is Missing,
            Some(t) => if names_fio(t@) {
                choice is Fio
            } else {
                choice matches ToolChoice::Unsupported(n) && n@ == t@
            },
        },
{
    match tool {
        None => ToolChoice::Missing,
        Some(t) => {
            let c = chars_of(t);
            if c.len() == 3 && (c[0] == 'f' || c[0] == 'F') && (c[1] == 'i' || c[1] == 'I') && (c[2]
                == 'o' || c[2] == 'O') {
                ToolChoice::Fio
            } else {
                ToolChoice::Unsupported(t.to_owned())
            }
        },
    }
}

} // verus!
