//! System load averages from the one line of `/proc/loadavg`.
//!
//! The line has at least five white-space separated fields: the load
//! averages over one, five and fifteen minutes, the tasks as
//! `running/total`, and the last process id.  The fields are checked in that
//! order, and the first that is malformed is the error.

use crate::domain::metrics::sampling::{Interval, SamplingPlan, SourceRead};
use crate::number::{decimal_of, parse_decimal, parse_u32, unsigned_of, Decimal};
use crate::text::{
    chars_of, copy_range, fields_of, join, run_len, scan_run, split_fields, string_of, CharClass,
};
use vstd::prelude::*;

verus! {

/// Load averages of one CPU.
#[derive(Debug, Clone, Copy, PartialEq, Eq, Structural)]
pub struct CpuLoad {
    /// Load average over one minute.
    pub load_1: Decimal,
    /// Load average over five minutes.
    pub load_5: Decimal,
    /// Load average over fifteen minutes.
    pub load_15: Decimal,
}

/// Errors of the load-average collector.
#[derive(Debug)]
pub enum LoadavgError {
    /// The source could not be read.
    IoError(String),
    /// The line has not the expected shape.
    ParseError(String),
    /// A field is no number; the payload is the field.
    InvalidValue(String),
}

impl LoadavgError {
    /// The error as a sentence.
    pub fn message(&self) -> (text: String)
        ensures
            text@ == match *self {
                LoadavgError::IoError(m) => "Failed to read /proc/loadavg: "@ + m@,
                LoadavgError::ParseError(m) => "Failed to parse load average data: "@ + m@,
                LoadavgError::InvalidValue(m) => "Invalid load average value: "@ + m@,
            },
    {
        match self {
            LoadavgError::IoError(m) => join("Failed to read /proc/loadavg: ", m.as_str()),
            LoadavgError::ParseError(m) => join("Failed to parse load average data: ", m.as_str()),
            LoadavgError::InvalidValue(m) => join("Invalid load average value: ", m.as_str()),
        }
    }
}

/// Options of the load-average collector.
#[derive(Debug, Clone, Copy)]
pub struct LoadavgConfig {
    /// Time between samples.
    pub interval: Interval,
    /// Number of samples; `None` samples until cancelled.
    pub count: Option<u32>,
    /// Attach process statistics to each sample.
    pub include_process_stats: bool,
    /// Attach per-CPU load averages to each sample.
    pub per_cpu_stats: bool,
}

impl Default for LoadavgConfig {
    fn default() -> (config: LoadavgConfig)
        ensures
            config.interval == (Interval { secs: 1, subsec_nanos: 0 }),
            config.count == Some(1u32),
            config.include_process_stats,
            config.per_cpu_stats,
    {
        LoadavgConfig {
            interval: Interval::from_secs(1),
            count: Some(1),
            include_process_stats: true,
            per_cpu_stats: true,
        }
    }
}

/// Processes by state.
#[derive(Debug, Clone, Copy, PartialEq, Eq, Structural)]
pub struct ProcessStats {
    /// Running.
    pub running: u32,
    /// Sleeping.
    pub sleeping: u32,
    /// In uninterruptible sleep.
    pub uninterruptible: u32,
    /// Zombies.
    pub zombie: u32,
    /// Stopped.
    pub stopped: u32,
}

/// One sample of the load averages.
#[derive(Debug, Clone)]
pub struct LoadavgStats {
    /// Load average over one minute.
    pub load_1: Decimal,
    /// Load average over five minutes.
    pub load_5: Decimal,
    /// Load average over fifteen minutes.
    pub load_15: Decimal,
    /// Tasks that are running.
    pub running_tasks: u32,
    /// All tasks.
    pub total_tasks: u32,
    /// The process id given out last.
    pub last_pid: u32,
    /// Per-CPU load averages, where the options ask for them.  The source
    /// holds none, so the list is empty.
    pub per_cpu_load: Option<Vec<CpuLoad>>,
    /// Process statistics, where the options ask for them.  The source holds
    /// none, so every count is zero.
    pub process_stats: Option<ProcessStats>,
}

/// The mathematical model of [`LoadavgStats`].
pub struct LoadavgStatsView {
    pub load_1: Decimal,
    pub load_5: Decimal,
    pub load_15: Decimal,
    pub running_tasks: u32,
    pub total_tasks: u32,
    pub last_pid: u32,
    pub per_cpu_load: Option<Seq<CpuLoad>>,
    pub process_stats: Option<ProcessStats>,
}

impl View for LoadavgStats {
    type V = LoadavgStatsView;

    open spec fn view(&self) -> LoadavgStatsView {
        LoadavgStatsView {
            load_1: self.load_1,
            load_5: self.load_5,
            load_15: self.load_15,
            running_tasks: self.running_tasks,
            total_tasks: self.total_tasks,
            last_pid: self.last_pid,
            per_cpu_load: match self.per_cpu_load {
                Some(v) => Some(v@),
                None => None,
            },
            process_stats: self.process_stats,
        }
    }
}

/// What is wrong with a line.
pub enum LoadavgFault {
    /// Fewer than five fields.
    Format,
    /// The tasks field is not two parts around one `/`.
    TaskFormat,
    /// The given field is no number.
    Value(Seq<char>),
}

/// The part of the tasks field before its first `/`.
pub open spec fn tasks_running(t: Seq<char>) -> Seq<char> {
    t.take(run_len(t, CharClass::Except('/')))
}

/// The part of the tasks field after its first `/`.
pub open spec fn tasks_total(t: Seq<char>) -> Seq<char> {
    t.skip(run_len(t, CharClass::Except('/')) + 1)
}

/// The tasks field holds exactly one `/`.
pub open spec fn has_one_slash(t: Seq<char>) -> bool {
    let n = run_len(t, CharClass::Except('/'));
    0 <= n < t.len() && run_len(tasks_total(t), CharClass::Except('/')) == tasks_total(t).len()
}

/// The first thing wrong with a line, if anything is.
pub open spec fn loadavg_fault(content: Seq<char>) -> Option<LoadavgFault> {
    let f = fields_of(content);
    if f.len() < 5 {
        Some(LoadavgFault::Format)
    } else if decimal_of(f[0]) is None {
        Some(LoadavgFault::Value(f[0]))
    } else if decimal_of(f[1]) is None {
        Some(LoadavgFault::Value(f[1]))
    } else if decimal_of(f[2]) is None {
        Some(LoadavgFault::Value(f[2]))
    } else if !has_one_slash(f[3]) {
        Some(LoadavgFault::TaskFormat)
    } else if unsigned_of(tasks_running(f[3]), u32::MAX as nat) is None {
        Some(LoadavgFault::Value(tasks_running(f[3])))
    } else if unsigned_of(tasks_total(f[3]), u32::MAX as nat) is None {
        Some(LoadavgFault::Value(tasks_total(f[3])))
    } else if unsigned_of(f[4], u32::MAX as nat) is None {
        Some(LoadavgFault::Value(f[4]))
    } else {
        None
    }
}

/// The error says what the fault is.
pub open spec fn reports(e: LoadavgError, fault: LoadavgFault) -> bool {
    match fault {
        LoadavgFault::Format => e matches LoadavgError::ParseError(m) && m@
            == "Invalid /proc/loadavg format"@,
        LoadavgFault::TaskFormat => e matches LoadavgError::ParseError(m) && m@
            == "Invalid task count format"@,
        LoadavgFault::Value(field) => e matches LoadavgError::InvalidValue(m) && m@ == field,
    }
}

/// The sample that a well-formed line denotes under the given options.
pub open spec fn loadavg_of(content: Seq<char>, config: LoadavgConfig) -> LoadavgStatsView {
    let f = fields_of(content);
    LoadavgStatsView {
        load_1: decimal_of(f[0])->0,
        load_5: decimal_of(f[1])->0,
        load_15: decimal_of(f[2])->0,
        running_tasks: unsigned_of(tasks_running(f[3]), u32::MAX as nat)->0 as u32,
        total_tasks: unsigned_of(tasks_total(f[3]), u32::MAX as nat)->0 as u32,
        last_pid: unsigned_of(f[4], u32::MAX as nat)->0 as u32,
        per_cpu_load: if config.per_cpu_stats {
            Some(Seq::empty())
        } else {
            None
        },
        process_stats: if config.include_process_stats {
            Some(
                ProcessStats { running: 0, sleeping: 0, uninterruptible: 0, zombie: 0, stopped: 0 },
            )
        } else {
            None
        },
    }
}

/// Collector of load averages.
#[derive(Debug)]
pub struct LoadavgCollector {
    config: LoadavgConfig,
}

impl LoadavgCollector {
    /// A collector with the given options.
    pub fn new(config: LoadavgConfig) -> (collector: LoadavgCollector)
        ensures
            collector.config() == config,
    {
        LoadavgCollector { config }
    }

    /// The options of the collector.
    pub closed spec fn config(&self) -> LoadavgConfig {
        self.config
    }

    /// The file that is the source.
    pub fn source_path(&self) -> (path: &'static str)
        ensures
            path@ == "/proc/loadavg"@,
    {
        "/proc/loadavg"
    }

    /// The sampling policy of the collector: its interval and count.
    pub fn plan(&self) -> (plan: SamplingPlan)
        ensures
            plan == (SamplingPlan {
                interval: self.config().interval,
                count: self.config().count,
            }),
    {
        SamplingPlan { interval: self.config.interval, count: self.config.count }
    }

    /// Reads the text of the source as one sample.
    pub fn parse_sample(&self, content: &str) -> (r: Result<LoadavgStats, LoadavgError>)
        ensures
            r is Ok <==> loadavg_fault(content@) is None,
            r matches Ok(stats) ==> stats@ == loadavg_of(content@, self.config()),
            r matches Err(e) ==> loadavg_fault(content@) is Some && reports(
                e,
                loadavg_fault(content@)->0,
            ),
    {
        let chars = chars_of(content);
        let parts = split_fields(chars.as_slice());
        let ghost f = fields_of(content@);
        if parts.len() < 5 {
            return Err(LoadavgError::ParseError("Invalid /proc/loadavg format".to_owned()));
        }
        proof {
            assert(f[0] == parts@[0]@);
            assert(f[1] == parts@[1]@);
            assert(f[2] == parts@[2]@);
            assert(f[3] == parts@[3]@);
            assert(f[4] == parts@[4]@);
        }
        let load_1 = match parse_decimal(parts[0].as_slice()) {
            Some(d) => d,
            None => {
                return Err(LoadavgError::InvalidValue(string_of(parts[0].as_slice())));
            },
        };
        let load_5 = match parse_decimal(parts[1].as_slice()) {
            Some(d) => d,
            None => {
                return Err(LoadavgError::InvalidValue(string_of(parts[1].as_slice())));
            },
        };
        let load_15 = match parse_decimal(parts[2].as_slice()) {
            Some(d) => d,
            None => {
                return Err(LoadavgError::InvalidValue(string_of(parts[2].as_slice())));
            },
        };
        let tasks = parts[3].as_slice();
        let slash = scan_run(tasks, 0, CharClass::Except('/'));
        proof {
            assert(tasks@.skip(0) =~= tasks@);
        }
        if slash >= tasks.len() {
            return Err(LoadavgError::ParseError("Invalid task count format".to_owned()));
        }
        let second = scan_run(tasks, slash + 1, CharClass::Except('/'));
        if second < tasks.len() {
            return Err(LoadavgError::ParseError("Invalid task count format".to_owned()));
        }
        let running_text = copy_range(tasks, 0, slash);
        let total_text = copy_range(tasks, slash + 1, tasks.len());
        proof {
            assert(running_text@ =~= tasks_running(tasks@));
            assert(total_text@ =~= tasks_total(tasks@));
        }
        let running_tasks = match parse_u32(running_text.as_slice()) {
            Some(n) => n,
            None => {
                return Err(LoadavgError::InvalidValue(string_of(running_text.as_slice())));
            },
        };
        let total_tasks = match parse_u32(total_text.as_slice()) {
            Some(n) => n,
            None => {
                return Err(LoadavgError::InvalidValue(string_of(total_text.as_slice())));
            },
        };
        let last_pid = match parse_u32(parts[4].as_slice()) {
            Some(n) => n,
            None => {
                return Err(LoadavgError::InvalidValue(string_of(parts[4].as_slice())));
            },
        };
        let per_cpu_load = if self.config.per_cpu_stats {
            Some(self.collect_per_cpu_load())
        } else {
            None
        };
        let process_stats = if self.config.include_process_stats {
            Some(self.collect_process_stats())
        } else {
            None
        };
        Ok(
            LoadavgStats {
                load_1,
                load_5,
                load_15,
                running_tasks,
                total_tasks,
                last_pid,
                per_cpu_load,
                process_stats,
            },
        )
    }

    /// Turns what the source handed back into one sample: an unavailable
    /// source is an error before anything is parsed.
    pub fn collect_single(&self, source: &SourceRead) -> (r: Result<LoadavgStats, LoadavgError>)
        ensures
            source matches SourceRead::Unavailable(why) ==> r matches Err(
                LoadavgError::IoError(m),
            ) && m@ == why@,
            source matches SourceRead::Text(content) ==> {
                &&& r is Ok <==> loadavg_fault(content@) is None
                &&& r matches Ok(stats) ==> stats@ == loadavg_of(content@, self.config())
                &&& r matches Err(e) ==> loadavg_fault(content@) is Some && reports(
                    e,
                    loadavg_fault(content@)->0,
                )
            },
    {
        match source {
            SourceRead::Unavailable(why) => Err(LoadavgError::IoError(why.clone())),
            SourceRead::Text(content) => self.parse_sample(content.as_str()),
        }
    }

    /// The per-CPU load averages: the source holds none.
    pub fn collect_per_cpu_load(&self) -> (loads: Vec<CpuLoad>)
        ensures
            loads@ == Seq::<CpuLoad>::empty(),
    {
        Vec::new()
    }

    /// The process statistics: the source holds none, so all are zero.
    pub fn collect_process_stats(&self) -> (stats: ProcessStats)
        ensures
            stats == (ProcessStats {
                running: 0,
                sleeping: 0,
                uninterruptible: 0,
                zombie: 0,
                stopped: 0,
            }),
    {
        ProcessStats { running: 0, sleeping: 0, uninterruptible: 0, zombie: 0, stopped: 0 }
    }
}

} // verus!
