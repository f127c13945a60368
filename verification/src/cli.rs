//! The command line, as plain values, and what it asks the application to
//! do.

use crate::ports::benchmark_port::{
    names_fio, select_tool, BenchmarkConfig, BenchmarkParams, BenchmarkTool, FIOParams, IOType,
    ToolChoice,
};
use crate::ports::log_port::{level_for, log_level_for, LogLevel};
use crate::text::join;
use vstd::prelude::*;

verus! {

/// A subcommand.
#[derive(Debug, Clone)]
pub enum Commands {
    /// Run a benchmark.
    Benchmark {
        /// The tool to run.
        tool: Option<String>,
    },
    /// Collect metrics.
    Collect {
        /// The metric to collect.
        metric: Option<String>,
    },
}

/// The arguments of the command line.
#[derive(Debug, Clone)]
pub struct Cli {
    /// A name.
    pub name: Option<String>,
    /// Path of a configuration file.
    pub config: Option<String>,
    /// Number of `--debug` flags.
    pub debug: u8,
    /// The subcommand; none asks for the interactive menu.
    pub command: Option<Commands>,
}

/// What the application is to do.
#[derive(Debug, Clone)]
pub enum CliAction {
    /// Run the storage benchmark.
    RunFio,
    /// Report that the named tool is not supported.
    UnsupportedTool(String),
    /// Report that no tool was named.
    MissingTool,
    /// Collect the named metric, or all.
    Collect(Option<String>),
    /// Show the menu.
    Interactive,
    /// Nothing.
    Exit,
}

impl Cli {
    /// The least severity that is logged.
    pub fn log_level(&self) -> (level: LogLevel)
        ensures
            level == level_for(self.debug),
    {
        log_level_for(self.debug)
    }

    /// What the arguments ask for.
    pub fn action(&self) -> (action: CliAction)
        ensures
            match self.command {
                None => action is Interactive,
                Some(Commands::Collect { metric }) => action matches CliAction::Collect(m) && m
                    == metric,
                Some(Commands::Benchmark { tool }) => match tool {
                    None => action is MissingTool,
                    Some(t) => if names_fio(t@) {
                        action is RunFio
                    } else {
                        action matches CliAction::UnsupportedTool(n) && n@ == t@
                    },
                },
            },
    {
        match &self.command {
            None => CliAction::Interactive,
            Some(Commands::Collect { metric }) => CliAction::Collect(metric.clone()),
            Some(Commands::Benchmark { tool }) => {
                let choice = match tool {
                    Some(t) => select_tool(Some(t.as_str())),
                    None => select_tool(None),
                };
                match choice {
                    ToolChoice::Fio => CliAction::RunFio,
                    ToolChoice::Unsupported(n) => CliAction::UnsupportedTool(n),
                    ToolChoice::Missing => CliAction::MissingTool,
                }
            },
        }
    }
}

/// The entries of the interactive menu, in order.
pub fn menu_options() -> (options: Vec<&'static str>)
    ensures
        options@.len() == 3,
        options@[0]@ == "FIO Benchmark"@,
        options@[1]@ == "System Metrics"@,
        options@[2]@ == "Exit"@,
{
    let mut options: Vec<&'static str> = Vec::new();
    options.push("FIO Benchmark");
    options.push("System Metrics");
    options.push("Exit");
    options
}

/// What an entry of the interactive menu asks for: the benchmark for the
/// first, all metrics for the second, nothing for any other.
pub fn menu_action(selection: usize) -> (action: CliAction)
    ensures
        selection == 0 ==> action is RunFio,
        selection == 1 ==> (action matches CliAction::Collect(m) && m is None),
        selection > 1 ==> action is Exit,
{
    if selection == 0 {
        CliAction::RunFio
    } else if selection == 1 {
        CliAction::Collect(None)
    } else {
        CliAction::Exit
    }
}

/// The block sizes of the sweep that the command line runs, in order.
pub open spec fn sweep_sizes() -> Seq<Seq<char>> {
    seq!["4k"@, "8k"@, "16k"@, "32k"@, "64k"@, "128k"@, "256k"@, "512k"@, "1m"@]
}

/// The benchmark of the sweep for a block size: random reads of 1G for
/// thirty seconds with four jobs and a queue of 32, in the given directory.
pub fn sweep_config(directory: &str, block_size: &str) -> (config: BenchmarkConfig)
    ensures
        config.name@ == "fio_test_"@ + block_size@,
        config.tool == BenchmarkTool::FIO,
        config.params matches BenchmarkParams::FIO(p) && p.directory@ == directory@
            && p.block_size@ == block_size@ && p.io_type == IOType::RandomRead && p.size@ == "1G"@
            && p.runtime == 30 && p.num_jobs == 4 && p.io_depth == 32,
{
    BenchmarkConfig {
        name: join("fio_test_", block_size),
        tool: BenchmarkTool::FIO,
        params: BenchmarkParams::FIO(
            FIOParams {
                directory: directory.to_owned(),
                block_size: block_size.to_owned(),
                io_type: IOType::RandomRead,
                size: "1G".to_owned(),
                runtime: 30,
                num_jobs: 4,
                io_depth: 32,
            },
        ),
    }
}

/// The block sizes of the sweep.
pub fn block_sizes() -> (sizes: Vec<&'static str>)
    ensures
        sizes@.len() == 9,
        forall|i: int| 0 <= i < 9 ==> (#[trigger] sizes@[i])@ == sweep_sizes()[i],
{
    let mut sizes: Vec<&'static str> = Vec::new();
    sizes.push("4k");
    sizes.push("8k");
    sizes.push("16k");
    sizes.push("32k");
    sizes.push("64k");
    sizes.push("128k");
    sizes.push("256k");
    sizes.push("512k");
    sizes.push("1m");
    sizes
}

} // verus!
