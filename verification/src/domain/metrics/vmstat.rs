//! Virtual-memory statistics from the tabular output of `vmstat`.
//!
//! The first two lines that are not blank are the column headers and are
//! passed over; blank lines are passed over wherever they stand.  Of the
//! lines after the headers, one with fewer than seventeen white-space
//! separated fields is passed over; one with the fields is a sample, and its
//! first sixteen fields must be decimal literals: the first such line that
//! is malformed is an error that names the line.  An output without any
//! sample is an error.

use crate::clock::unix_now;
use crate::domain::metrics::sampling::{Interval, SourceRead};
use crate::number::{decimal_of, decimals_at, digits_of, parse_decimals, u64_to_chars, Decimal};
use crate::text::{
    blank, chars_of, fields_of, first_where, is_blank, join, label, lemma_first_where_prefix,
    lines_of, rows, split_fields, split_lines, string_of, views,
};
use vstd::prelude::*;

verus! {

/// Errors of the vmstat collector.
#[derive(Debug)]
pub enum VmstatError {
    /// The command could not be run.
    ExecutionError(String),
    /// A sample line is malformed.
    ParseError(String),
    /// The interval is not usable.
    InvalidInterval(String),
    /// The output holds no sample.
    EmptyResult,
}

impl VmstatError {
    /// The error as a sentence.
    pub fn message(&self) -> (text: String)
        ensures
            text@ == match *self {
                VmstatError::ExecutionError(m) => "Failed to execute vmstat command: "@ + m@,
                VmstatError::ParseError(m) => "Failed to parse vmstat output: "@ + m@,
                VmstatError::InvalidInterval(m) => "Invalid interval specified: "@ + m@,
                VmstatError::EmptyResult => "No valid statistics found"@,
            },
    {
        match self {
            VmstatError::ExecutionError(m) => join("Failed to execute vmstat command: ", m.as_str()),
            VmstatError::ParseError(m) => join("Failed to parse vmstat output: ", m.as_str()),
            VmstatError::InvalidInterval(m) => join("Invalid interval specified: ", m.as_str()),
            VmstatError::EmptyResult => "No valid statistics found".to_owned(),
        }
    }
}

/// Processes by state.
#[derive(Debug, Clone, Copy, PartialEq, Eq, Structural)]
pub struct ProcessStats {
    /// Processes that are runnable.
    pub running: u32,
    /// Processes blocked for resources.
    pub blocked: u32,
}

/// Memory figures, as the command prints them.
#[derive(Debug, Clone, Copy, PartialEq, Eq, Structural)]
pub struct MemoryStats {
    /// Free memory.
    pub free_mb: u64,
    /// Memory used as buffers.
    pub buffer_mb: u64,
    /// Memory used as cache.
    pub cache_mb: u64,
    /// Swap in use.
    pub swap_used_mb: u64,
    /// Taken from the free-memory column.
    pub swap_free_mb: u64,
}

/// Swap activity.
#[derive(Debug, Clone, Copy, PartialEq, Eq, Structural)]
pub struct SwapStats {
    /// Swapped in per second.
    pub pages_in_per_sec: Decimal,
    /// Swapped out per second.
    pub pages_out_per_sec: Decimal,
}

/// Block I/O activity.
#[derive(Debug, Clone, Copy, PartialEq, Eq, Structural)]
pub struct IoStats {
    /// Blocks received from a device per second.
    pub blocks_in_per_sec: Decimal,
    /// Blocks sent to a device per second.
    pub blocks_out_per_sec: Decimal,
}

/// System activity.
#[derive(Debug, Clone, Copy, PartialEq, Eq, Structural)]
pub struct SystemStats {
    /// Interrupts per second.
    pub interrupts_per_sec: Decimal,
    /// Context switches per second.
    pub context_switches_per_sec: Decimal,
}

/// CPU time by kind, in percent.
#[derive(Debug, Clone, Copy, PartialEq, Eq, Structural)]
pub struct CpuStats {
    /// Time in user space.
    pub user: Decimal,
    /// Time in the kernel.
    pub system: Decimal,
    /// Time idle.
    pub idle: Decimal,
    /// Time waiting for I/O.
    pub iowait: Decimal,
}

/// One sample of the command.
#[derive(Debug, Clone, Copy, PartialEq, Eq, Structural)]
pub struct VmstatData {
    /// Processes by state.
    pub procs: ProcessStats,
    /// Memory figures.
    pub memory: MemoryStats,
    /// Swap activity.
    pub swap: SwapStats,
    /// Block I/O activity.
    pub io: IoStats,
    /// System activity.
    pub system: SystemStats,
    /// CPU time by kind.
    pub cpu: CpuStats,
    /// Unix time at which the sample was collected.
    pub timestamp: i64,
}

/// Options of the vmstat collector.
#[derive(Debug, Clone, Copy)]
pub struct VmstatConfig {
    /// Time between samples.
    pub interval: Interval,
    /// Number of samples; `None` samples without end.
    pub count: Option<u32>,
}

impl Default for VmstatConfig {
    fn default() -> (config: VmstatConfig)
        ensures
            config.interval == (Interval { secs: 1, subsec_nanos: 0 }),
            config.count == Some(1u32),
    {
        VmstatConfig { interval: Interval::from_secs(1), count: Some(1) }
    }
}

/// Number of header lines at the start of an output.
pub const VMSTAT_HEADER_LINES: usize = 2;

/// Least number of fields of a sample line.
pub const VMSTAT_MIN_FIELDS: usize = 17;

/// Number of lines that are not blank.
pub open spec fn solid_count(lines: Seq<Seq<char>>) -> nat
    decreases lines.len(),
{
    if lines.len() == 0 {
        0
    } else {
        solid_count(lines.drop_last()) + if is_blank(lines.last()) {
            0nat
        } else {
            1nat
        }
    }
}

/// The sample lines: the lines that are not blank, have at least two lines
/// before them that are not blank, and have at least seventeen fields.
pub open spec fn sample_lines(lines: Seq<Seq<char>>) -> Seq<Seq<char>>
    decreases lines.len(),
{
    if lines.len() == 0 {
        Seq::empty()
    } else {
        let before = sample_lines(lines.drop_last());
        let line = lines.last();
        if !is_blank(line) && solid_count(lines.drop_last()) >= 2 && fields_of(line).len() >= 17 {
            before.push(line)
        } else {
            before
        }
    }
}

/// The first sixteen fields of the line are decimal literals.
pub open spec fn is_sample(line: Seq<char>) -> bool {
    let f = fields_of(line);
    f.len() >= 16 && decimals_at(f, 0, 16)
}

/// The sample that the fields of a well-formed sample line denote.  Counts
/// and sizes are the decimals rounded toward zero.
pub open spec fn sample_of_fields(f: Seq<Seq<char>>, timestamp: i64) -> VmstatData {
    VmstatData {
        procs: ProcessStats {
            running: (decimal_of(f[0])->0).clamp_u32(),
            blocked: (decimal_of(f[1])->0).clamp_u32(),
        },
        memory: MemoryStats {
            free_mb: (decimal_of(f[3])->0).clamp_u64(),
            buffer_mb: (decimal_of(f[4])->0).clamp_u64(),
            cache_mb: (decimal_of(f[5])->0).clamp_u64(),
            swap_used_mb: (decimal_of(f[2])->0).clamp_u64(),
            swap_free_mb: (decimal_of(f[3])->0).clamp_u64(),
        },
        swap: SwapStats {
            pages_in_per_sec: decimal_of(f[6])->0,
            pages_out_per_sec: decimal_of(f[7])->0,
        },
        io: IoStats {
            blocks_in_per_sec: decimal_of(f[8])->0,
            blocks_out_per_sec: decimal_of(f[9])->0,
        },
        system: SystemStats {
            interrupts_per_sec: decimal_of(f[10])->0,
            context_switches_per_sec: decimal_of(f[11])->0,
        },
        cpu: CpuStats {
            user: decimal_of(f[12])->0,
            system: decimal_of(f[13])->0,
            idle: decimal_of(f[14])->0,
            iowait: decimal_of(f[15])->0,
        },
        timestamp,
    }
}

/// The sample that a well-formed sample line denotes.
pub open spec fn sample_of(line: Seq<char>, timestamp: i64) -> VmstatData {
    sample_of_fields(fields_of(line), timestamp)
}

/// The samples of the sample lines.
pub open spec fn samples_of(data: Seq<Seq<char>>, timestamp: i64) -> Seq<VmstatData> {
    Seq::new(data.len(), |i: int| sample_of(data[i], timestamp))
}

/// The line is a malformed sample.
pub open spec fn malformed() -> spec_fn(Seq<char>) -> bool {
    |line: Seq<char>| !is_sample(line)
}

/// Index of the first line that is no well-formed sample; the number of
/// lines if all are.
pub open spec fn first_malformed(data: Seq<Seq<char>>) -> int {
    first_where(data, malformed())
}

/// The first malformed sample line of an output, if it has one.
pub open spec fn malformed_line(output: Seq<char>) -> Option<Seq<char>> {
    let data = sample_lines(lines_of(output));
    let k = first_malformed(data);
    if 0 <= k < data.len() {
        Some(data[k])
    } else {
        None
    }
}

/// The arguments of the command for a configuration: `-n`, so that the
/// headers are printed once, the interval in whole seconds, and the count
/// if there is one.
pub open spec fn vmstat_args(config: VmstatConfig) -> Seq<Seq<char>> {
    seq!["-n"@, digits_of(config.interval.secs as nat)] + (match config.count {
        Some(n) => seq![digits_of(n as nat)],
        None => Seq::empty(),
    })
}

/// What one more line adds to the sample lines and to the count of lines
/// that are not blank.
pub proof fn lemma_sample_lines_step(lines: Seq<Seq<char>>, i: int)
    requires
        0 <= i < lines.len(),
    ensures
        solid_count(lines.take(i + 1)) == solid_count(lines.take(i)) + if is_blank(lines[i]) {
            0nat
        } else {
            1nat
        },
        sample_lines(lines.take(i + 1)) == if !is_blank(lines[i]) && solid_count(lines.take(i))
            >= 2 && fields_of(lines[i]).len() >= 17 {
            sample_lines(lines.take(i)).push(lines[i])
        } else {
            sample_lines(lines.take(i))
        },
{
    assert(lines.take(i + 1).drop_last() =~= lines.take(i));
    assert(lines.take(i + 1).last() == lines[i]);
}

/// A malformed line right after well-formed ones is the first malformed
/// line of the whole output.
pub proof fn lemma_malformed_found(lines: Seq<Seq<char>>, i: int)
    requires
        0 <= i < lines.len(),
        first_malformed(sample_lines(lines.take(i))) == sample_lines(lines.take(i)).len(),
        sample_lines(lines.take(i + 1)) == sample_lines(lines.take(i)).push(lines[i]),
        !is_sample(lines[i]),
    ensures
        first_malformed(sample_lines(lines)) == sample_lines(lines.take(i)).len(),
        sample_lines(lines.take(i)).len() < sample_lines(lines).len(),
        sample_lines(lines)[sample_lines(lines.take(i)).len() as int] == lines[i],
{
    let before = sample_lines(lines.take(i));
    let now = sample_lines(lines.take(i + 1));
    let whole = sample_lines(lines);
    assert(now.drop_last() =~= before);
    assert(first_malformed(now) == now.len() - 1);
    lemma_sample_lines_prefix(lines, i + 1);
    assert(whole.take(now.len() as int) == now);
    lemma_first_where_prefix(whole, malformed(), now.len() as int);
    assert(whole[now.len() - 1] == whole.take(now.len() as int)[now.len() - 1]);
}

/// A well-formed line after well-formed ones leaves all well-formed.
pub proof fn lemma_well_formed_extends(before: Seq<Seq<char>>, line: Seq<char>, timestamp: i64)
    requires
        first_malformed(before) == before.len(),
        is_sample(line),
    ensures
        first_malformed(before.push(line)) == before.len() + 1,
        samples_of(before.push(line), timestamp) == samples_of(before, timestamp).push(
            sample_of(line, timestamp),
        ),
{
    assert(before.push(line).drop_last() =~= before);
    assert(samples_of(before.push(line), timestamp) =~= samples_of(before, timestamp).push(
        sample_of(line, timestamp),
    ));
}

/// The sample lines of a prefix start the sample lines of the whole.
pub proof fn lemma_sample_lines_prefix(lines: Seq<Seq<char>>, n: int)
    requires
        0 <= n <= lines.len(),
    ensures
        sample_lines(lines.take(n)).len() <= sample_lines(lines).len(),
        sample_lines(lines).take(sample_lines(lines.take(n)).len() as int) == sample_lines(
            lines.take(n),
        ),
    decreases lines.len() - n,
{
    if n < lines.len() {
        assert(lines.take(n + 1).drop_last() =~= lines.take(n));
        lemma_sample_lines_prefix(lines, n + 1);
        let a = sample_lines(lines.take(n));
        let b = sample_lines(lines.take(n + 1));
        let whole = sample_lines(lines);
        assert(whole.take(b.len() as int).take(a.len() as int) =~= whole.take(a.len() as int));
        assert(b.take(a.len() as int) =~= a);
    } else {
        assert(lines.take(n) =~= lines);
        assert(sample_lines(lines).take(sample_lines(lines).len() as int) =~= sample_lines(lines));
    }
}

/// Collector of virtual-memory statistics through `vmstat`.
#[derive(Debug)]
pub struct VmstatCollector {
    config: VmstatConfig,
}

impl VmstatCollector {
    /// A collector with the given options.
    pub fn new(config: VmstatConfig) -> (collector: VmstatCollector)
        ensures
            collector.config() == config,
    {
        VmstatCollector { config }
    }

    /// The options of the collector.
    pub closed spec fn config(&self) -> VmstatConfig {
        self.config
    }

    /// The name of the command that is the source.
    pub fn program(&self) -> (name: &'static str)
        ensures
            name@ == "vmstat"@,
    {
        "vmstat"
    }

    /// The arguments to run the command with.
    pub fn command_args(&self) -> (args: Vec<String>)
        ensures
            views(args@) == vmstat_args(self.config()),
    {
        let mut args: Vec<String> = Vec::new();
        args.push("-n".to_owned());
        args.push(string_of(u64_to_chars(self.config.interval.as_secs()).as_slice()));
        if let Some(n) = self.config.count {
            args.push(string_of(u64_to_chars(n as u64).as_slice()));
        }
        assert(views(args@) =~= vmstat_args(self.config()));
        args
    }

    /// Reads the samples of an output, stamped with the given time.
    pub fn parse_vmstat_output_at(&self, output: &str, timestamp: i64) -> (r: Result<
        Vec<VmstatData>,
        VmstatError,
    >)
        ensures
            r is Ok <==> malformed_line(output@) is None && sample_lines(lines_of(output@)).len()
                > 0,
            r matches Ok(stats) ==> stats@ == samples_of(
                sample_lines(lines_of(output@)),
                timestamp,
            ),
            r matches Err(e) ==> match malformed_line(output@) {
                Some(line) => e matches VmstatError::ParseError(m) && m@
                    == "Invalid number in line: "@ + line,
                None => e is EmptyResult,
            },
    {
        let chars = chars_of(output);
        let lines = split_lines(chars.as_slice());
        let mut stats: Vec<VmstatData> = Vec::new();
        let mut headers: usize = 0;
        let mut i: usize = 0;
        let ghost all = lines_of(output@);
        assert(all.take(0) =~= Seq::<Seq<char>>::empty());
        while i < lines.len()
            invariant
                0 <= i <= lines@.len(),
                rows(lines@) == all,
                all == lines_of(output@),
                headers <= 2,
                headers == 2 <==> solid_count(all.take(i as int)) >= 2,
                headers < 2 ==> headers == solid_count(all.take(i as int)),
                first_malformed(sample_lines(all.take(i as int))) == sample_lines(
                    all.take(i as int),
                ).len(),
                stats@ == samples_of(sample_lines(all.take(i as int)), timestamp),
            decreases lines@.len() - i,
        {
            let line = lines[i].as_slice();
            proof {
                assert(rows(lines@)[i as int] == line@);
                lemma_sample_lines_step(all, i as int);
            }
            if !blank(line) {
                if headers < VMSTAT_HEADER_LINES {
                    headers = headers + 1;
                } else {
                    let fields = split_fields(line);
                    if fields.len() >= VMSTAT_MIN_FIELDS {
                        match sample_from(&fields, timestamp) {
                            Some(sample) => {
                                proof {
                                    lemma_well_formed_extends(
                                        sample_lines(all.take(i as int)),
                                        line@,
                                        timestamp,
                                    );
                                }
                                stats.push(sample);
                            },
                            None => {
                                proof {
                                    lemma_malformed_found(all, i as int);
                                    let k = sample_lines(all.take(i as int)).len() as int;
                                    assert(first_malformed(sample_lines(all)) == k);
                                    assert(sample_lines(all)[k] == line@);
                                    assert(malformed_line(output@) == Some(line@));
                                }
                                return Err(
                                    VmstatError::ParseError(label("Invalid number in line: ", line)),
                                );
                            },
                        }
                    }
                }
            }
            i = i + 1;
        }
        assert(all.take(i as int) =~= all);
        if stats.len() == 0 {
            Err(VmstatError::EmptyResult)
        } else {
            Ok(stats)
        }
    }

    /// Reads the samples of an output, stamped with the current time: every
    /// sample carries the same time, read once from the clock.
    pub fn parse_vmstat_output(&self, output: &str) -> (r: Result<Vec<VmstatData>, VmstatError>)
        ensures
            r is Ok <==> malformed_line(output@) is None && sample_lines(lines_of(output@)).len()
                > 0,
            r matches Ok(stats) ==> stats@.len() > 0 && stats@ == samples_of(
                sample_lines(lines_of(output@)),
                stats@[0].timestamp,
            ),
            r matches Err(e) ==> match malformed_line(output@) {
                Some(line) => e matches VmstatError::ParseError(m) && m@
                    == "Invalid number in line: "@ + line,
                None => e is EmptyResult,
            },
    {
        let timestamp = unix_now();
        self.parse_vmstat_output_at(output, timestamp)
    }

    /// Turns what the command handed back into samples: an unavailable
    /// command is an error before anything is parsed.
    pub fn collect(&self, source: &SourceRead) -> (r: Result<Vec<VmstatData>, VmstatError>)
        ensures
            source matches SourceRead::Unavailable(why) ==> r matches Err(
                VmstatError::ExecutionError(m),
            ) && m@ == why@,
            source matches SourceRead::Text(output) ==> {
                &&& r is Ok <==> malformed_line(output@) is None && sample_lines(
                    lines_of(output@),
                ).len() > 0
                &&& r matches Ok(stats) ==> stats@.len() > 0 && stats@ == samples_of(
                    sample_lines(lines_of(output@)),
                    stats@[0].timestamp,
                )
                &&& r matches Err(e) ==> match malformed_line(output@) {
                    Some(line) => e matches VmstatError::ParseError(m) && m@
                        == "Invalid number in line: "@ + line,
                    None => e is EmptyResult,
                }
            },
    {
        match source {
            SourceRead::Unavailable(why) => Err(VmstatError::ExecutionError(why.clone())),
            SourceRead::Text(output) => self.parse_vmstat_output(output.as_str()),
        }
    }
}

/// Reads the fields of a sample line.
fn sample_from(fields: &Vec<Vec<char>>, timestamp: i64) -> (r: Option<VmstatData>)
    requires
        fields@.len() >= 16,
    ensures
        r is Some <==> decimals_at(rows(fields@), 0, 16),
        r matches Some(sample) ==> sample == sample_of_fields(rows(fields@), timestamp),
{
    let v = match parse_decimals(fields, 0, 16) {
        Some(v) => v,
        None => {
            return None;
        },
    };
    proof {
        let f = rows(fields@);
        assert(Some(v@[0]) == decimal_of(f[0]));
        assert(Some(v@[1]) == decimal_of(f[1]));
        assert(Some(v@[2]) == decimal_of(f[2]));
        assert(Some(v@[3]) == decimal_of(f[3]));
        assert(Some(v@[4]) == decimal_of(f[4]));
        assert(Some(v@[5]) == decimal_of(f[5]));
        assert(Some(v@[6]) == decimal_of(f[6]));
        assert(Some(v@[7]) == decimal_of(f[7]));
        assert(Some(v@[8]) == decimal_of(f[8]));
        assert(Some(v@[9]) == decimal_of(f[9]));
        assert(Some(v@[10]) == decimal_of(f[10]));
        assert(Some(v@[11]) == decimal_of(f[11]));
        assert(Some(v@[12]) == decimal_of(f[12]));
        assert(Some(v@[13]) == decimal_of(f[13]));
        assert(Some(v@[14]) == decimal_of(f[14]));
        assert(Some(v@[15]) == decimal_of(f[15]));
    }
    Some(
        VmstatData {
            procs: ProcessStats { running: v[0].to_u32(), blocked: v[1].to_u32() },
            memory: MemoryStats {
                free_mb: v[3].to_u64(),
                buffer_mb: v[4].to_u64(),
                cache_mb: v[5].to_u64(),
                swap_used_mb: v[2].to_u64(),
                swap_free_mb: v[3].to_u64(),
            },
            swap: SwapStats { pages_in_per_sec: v[6], pages_out_per_sec: v[7] },
            io: IoStats { blocks_in_per_sec: v[8], blocks_out_per_sec: v[9] },
            system: SystemStats { interrupts_per_sec: v[10], context_switches_per_sec: v[11] },
            cpu: CpuStats { user: v[12], system: v[13], idle: v[14], iowait: v[15] },
            timestamp,
        },
    )
}

} // verus!
