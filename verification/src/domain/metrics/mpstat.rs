//! Per-CPU performance statistics from the tabular output of `mpstat`.
//!
//! A record line has at least thirteen white-space separated fields: two of
//! time, the CPU (`all` or a number), then ten percentages in the order
//! usr, nice, sys, iowait, irq, soft, steal, guest, gnice, idle.
//!
//! Parsing a whole output is best effort: blank lines, the banner line
//! (`Linux ...`), the `Average` lines and every line that is no record (the
//! column header among them) are passed over.  An output without any record
//! is an error.

use crate::clock::unix_now;
use crate::domain::metrics::sampling::{Interval, SourceRead};
use crate::number::{decimal_of, decimals_at, digits_of, parse_decimals, u64_to_chars, Decimal};
use crate::text::{
    blank, chars_of, fields_of, has_prefix, is_blank, join, label, lines_of, rows, split_fields,
    split_lines, starts_with, string_of, views,
};
use vstd::prelude::*;

verus! {

/// Errors of the mpstat collector.
#[derive(Debug)]
pub enum MpstatError {
    /// The command could not be run.
    ExecutionError(String),
    /// A line is not a record.
    ParseError(String),
    /// The interval is not usable.
    InvalidInterval(String),
    /// The output holds no record.
    EmptyResult,
}

impl MpstatError {
    /// The error as a sentence.
    pub fn message(&self) -> (text: String)
        ensures
            text@ == match *self {
                MpstatError::ExecutionError(m) => "Failed to execute mpstat command: "@ + m@,
                MpstatError::ParseError(m) => "Failed to parse mpstat output: "@ + m@,
                MpstatError::InvalidInterval(m) => "Invalid interval specified: "@ + m@,
                MpstatError::EmptyResult => "No valid statistics found"@,
            },
    {
        match self {
            MpstatError::ExecutionError(m) => join("Failed to execute mpstat command: ", m.as_str()),
            MpstatError::ParseError(m) => join("Failed to parse mpstat output: ", m.as_str()),
            MpstatError::InvalidInterval(m) => join("Invalid interval specified: ", m.as_str()),
            MpstatError::EmptyResult => "No valid statistics found".to_owned(),
        }
    }
}

/// Statistics of one CPU, or of all CPUs together.
#[derive(Debug, Clone)]
pub struct CpuStats {
    /// `all`, or the number of the CPU.
    pub cpu_id: String,
    /// Percentage of time at the user level.
    pub usr: Decimal,
    /// Percentage of time at the user level with nice priority.
    pub nice: Decimal,
    /// Percentage of time at the system level.
    pub sys: Decimal,
    /// Percentage of time waiting for I/O.
    pub iowait: Decimal,
    /// Percentage of time servicing hardware interrupts.
    pub irq: Decimal,
    /// Percentage of time servicing software interrupts.
    pub soft: Decimal,
    /// Percentage of time in involuntary wait for the hypervisor.
    pub steal: Decimal,
    /// Percentage of time running a virtual processor.
    pub guest: Decimal,
    /// Percentage of time running a niced guest.
    pub gnice: Decimal,
    /// Percentage of time idle.
    pub idle: Decimal,
    /// Unix time at which the statistics were collected.
    pub timestamp: i64,
}

/// The mathematical model of [`CpuStats`].
pub struct CpuStatsView {
    pub cpu_id: Seq<char>,
    pub usr: Decimal,
    pub nice: Decimal,
    pub sys: Decimal,
    pub iowait: Decimal,
    pub irq: Decimal,
    pub soft: Decimal,
    pub steal: Decimal,
    pub guest: Decimal,
    pub gnice: Decimal,
    pub idle: Decimal,
    pub timestamp: i64,
}

impl View for CpuStats {
    type V = CpuStatsView;

    open spec fn view(&self) -> CpuStatsView {
        CpuStatsView {
            cpu_id: self.cpu_id@,
            usr: self.usr,
            nice: self.nice,
            sys: self.sys,
            iowait: self.iowait,
            irq: self.irq,
            soft: self.soft,
            steal: self.steal,
            guest: self.guest,
            gnice: self.gnice,
            idle: self.idle,
            timestamp: self.timestamp,
        }
    }
}

/// Options of the mpstat collector.
#[derive(Debug, Clone, Copy)]
pub struct MpstatConfig {
    /// Time between samples.
    pub interval: Interval,
    /// Number of samples; `None` samples without end.
    pub count: Option<u32>,
    /// Statistics for each CPU, not only for all together.
    pub per_cpu: bool,
    /// Include idle time.
    pub include_idle: bool,
}

impl Default for MpstatConfig {
    fn default() -> (config: MpstatConfig)
        ensures
            config.interval == (Interval { secs: 1, subsec_nanos: 0 }),
            config.count == Some(1u32),
            config.per_cpu,
            config.include_idle,
    {
        MpstatConfig {
            interval: Interval::from_secs(1),
            count: Some(1),
            per_cpu: true,
            include_idle: true,
        }
    }
}

/// Least number of fields of a record line.
pub const MPSTAT_MIN_FIELDS: usize = 13;

/// The line is a record: it has the fields, and the ten percentages are
/// decimal literals.
pub open spec fn is_stat_line(line: Seq<char>) -> bool {
    let f = fields_of(line);
    f.len() >= 13 && decimals_at(f, 3, 13)
}

/// The record that a record line denotes.
pub open spec fn stat_of(line: Seq<char>, timestamp: i64) -> CpuStatsView {
    let f = fields_of(line);
    CpuStatsView {
        cpu_id: f[2],
        usr: decimal_of(f[3])->0,
        nice: decimal_of(f[4])->0,
        sys: decimal_of(f[5])->0,
        iowait: decimal_of(f[6])->0,
        irq: decimal_of(f[7])->0,
        soft: decimal_of(f[8])->0,
        steal: decimal_of(f[9])->0,
        guest: decimal_of(f[10])->0,
        gnice: decimal_of(f[11])->0,
        idle: decimal_of(f[12])->0,
        timestamp,
    }
}

/// What the error of a line that is no record says.
pub open spec fn stat_line_complaint(line: Seq<char>) -> Seq<char> {
    if fields_of(line).len() < 13 {
        "Invalid line format: "@ + line
    } else {
        "Invalid number in line: "@ + line
    }
}

/// The line is passed over without being looked at: it is blank, the banner
/// or an average.
pub open spec fn is_noise(line: Seq<char>) -> bool {
    is_blank(line) || has_prefix(line, "Linux"@) || has_prefix(line, "Average"@)
}

/// The records of the lines, in order.
pub open spec fn records_of(lines: Seq<Seq<char>>, timestamp: i64) -> Seq<CpuStatsView>
    decreases lines.len(),
{
    if lines.len() == 0 {
        Seq::empty()
    } else {
        let before = records_of(lines.drop_last(), timestamp);
        let line = lines.last();
        if !is_noise(line) && is_stat_line(line) {
            before.push(stat_of(line, timestamp))
        } else {
            before
        }
    }
}

/// The arguments of the command for a configuration: the interval in whole
/// seconds, the count if there is one, and `-P ALL` for per-CPU statistics.
pub open spec fn mpstat_args(config: MpstatConfig) -> Seq<Seq<char>> {
    seq![digits_of(config.interval.secs as nat)] + (match config.count {
        Some(n) => seq![digits_of(n as nat)],
        None => Seq::empty(),
    }) + (if config.per_cpu {
        seq!["-P"@, "ALL"@]
    } else {
        Seq::empty()
    })
}

/// Collector of CPU statistics through `mpstat`.
#[derive(Debug)]
pub struct MpstatCollector {
    config: MpstatConfig,
}

impl MpstatCollector {
    /// A collector with the given options.
    pub fn new(config: MpstatConfig) -> (collector: MpstatCollector)
        ensures
            collector.config() == config,
    {
        MpstatCollector { config }
    }

    /// The options of the collector.
    pub closed spec fn config(&self) -> MpstatConfig {
        self.config
    }

    /// The name of the command that is the source.
    pub fn program(&self) -> (name: &'static str)
        ensures
            name@ == "mpstat"@,
    {
        "mpstat"
    }

    /// The arguments to run the command with.
    pub fn command_args(&self) -> (args: Vec<String>)
        ensures
            views(args@) == mpstat_args(self.config()),
    {
        let mut args: Vec<String> = Vec::new();
        args.push(string_of(u64_to_chars(self.config.interval.as_secs()).as_slice()));
        if let Some(n) = self.config.count {
            args.push(string_of(u64_to_chars(n as u64).as_slice()));
        }
        if self.config.per_cpu {
            args.push("-P".to_owned());
            args.push("ALL".to_owned());
        }
        assert(views(args@) =~= mpstat_args(self.config()));
        args
    }

    /// Reads one line as a record.  A line with fewer than thirteen fields,
    /// or with a percentage that is no decimal literal, is an error that
    /// names the line.
    pub fn parse_stat_line(&self, line: &str, timestamp: i64) -> (r: Result<CpuStats, MpstatError>)
        ensures
            r is Ok <==> is_stat_line(line@),
            r matches Ok(stat) ==> stat@ == stat_of(line@, timestamp),
            r matches Err(e) ==> e matches MpstatError::ParseError(m) && m@ == stat_line_complaint(
                line@,
            ),
    {
        let chars = chars_of(line);
        stat_line(chars.as_slice(), timestamp)
    }

    /// Reads the records of an output, stamped with the given time.
    pub fn parse_mpstat_output_at(&self, output: &str, timestamp: i64) -> (r: Result<
        Vec<CpuStats>,
        MpstatError,
    >)
        ensures
            r is Ok <==> records_of(lines_of(output@), timestamp).len() > 0,
            r matches Ok(stats) ==> views(stats@) == records_of(lines_of(output@), timestamp),
            r matches Err(e) ==> e is EmptyResult,
    {
        let chars = chars_of(output);
        let lines = split_lines(chars.as_slice());
        let mut stats: Vec<CpuStats> = Vec::new();
        let mut i: usize = 0;
        let ghost all = lines_of(output@);
        assert(all.take(0) =~= Seq::<Seq<char>>::empty());
        while i < lines.len()
            invariant
                0 <= i <= lines@.len(),
                rows(lines@) == all,
                views(stats@) == records_of(all.take(i as int), timestamp),
            decreases lines@.len() - i,
        {
            let line = lines[i].as_slice();
            let ghost before = views(stats@);
            proof {
                assert(all.take(i + 1).drop_last() =~= all.take(i as int));
                assert(all.take(i + 1).last() == line@);
                assert(rows(lines@)[i as int] == line@);
            }
            let noise = blank(line) || starts_with(line, chars_of("Linux").as_slice())
                || starts_with(line, chars_of("Average").as_slice());
            if !noise {
                match stat_line(line, timestamp) {
                    Ok(stat) => {
                        stats.push(stat);
                        assert(views(stats@) =~= before.push(stat@));
                    },
                    Err(_) => {},
                }
            }
            i = i + 1;
        }
        assert(all.take(i as int) =~= all);
        if stats.len() == 0 {
            Err(MpstatError::EmptyResult)
        } else {
            Ok(stats)
        }
    }

    /// Reads the records of an output, stamped with the current time: every
    /// record carries the same time, read once from the clock.
    pub fn parse_mpstat_output(&self, output: &str) -> (r: Result<Vec<CpuStats>, MpstatError>)
        ensures
            r is Ok <==> records_of(lines_of(output@), 0).len() > 0,
            r matches Ok(stats) ==> stats@.len() > 0 && views(stats@) == records_of(
                lines_of(output@),
                stats@[0].timestamp,
            ),
            r matches Err(e) ==> e is EmptyResult && forall|t: i64|
                records_of(lines_of(output@), t).len() == 0,
    {
        let timestamp = unix_now();
        proof {
            lemma_records_count(lines_of(output@), timestamp, 0);
        }
        let r = self.parse_mpstat_output_at(output, timestamp);
        proof {
            if r is Ok {
                assert(views(r->Ok_0@)[0] == r->Ok_0@[0]@);
                lemma_records_stamp(lines_of(output@), timestamp);
            } else {
                assert forall|t: i64| records_of(lines_of(output@), t).len() == 0 by {
                    lemma_records_count(lines_of(output@), timestamp, t);
                }
            }
        }
        r
    }

    /// Turns what the command handed back into records: an unavailable
    /// command is an error before anything is parsed.
    pub fn collect(&self, source: &SourceRead) -> (r: Result<Vec<CpuStats>, MpstatError>)
        ensures
            source matches SourceRead::Unavailable(why) ==> r matches Err(
                MpstatError::ExecutionError(m),
            ) && m@ == why@,
            source matches SourceRead::Text(output) ==> {
                &&& r is Ok <==> records_of(lines_of(output@), 0).len() > 0
                &&& r matches Ok(stats) ==> stats@.len() > 0 && views(stats@) == records_of(
                    lines_of(output@),
                    stats@[0].timestamp,
                )
                &&& r matches Err(e) ==> e is EmptyResult && forall|t: i64|
                    records_of(lines_of(output@), t).len() == 0
            },
    {
        match source {
            SourceRead::Unavailable(why) => Err(MpstatError::ExecutionError(why.clone())),
            SourceRead::Text(output) => self.parse_mpstat_output(output.as_str()),
        }
    }
}

/// Reads one line, given as characters, as a record.
fn stat_line(line: &[char], timestamp: i64) -> (r: Result<CpuStats, MpstatError>)
    ensures
        r is Ok <==> is_stat_line(line@),
        r matches Ok(stat) ==> stat@ == stat_of(line@, timestamp),
        r matches Err(e) ==> e matches MpstatError::ParseError(m) && m@ == stat_line_complaint(
            line@,
        ),
{
    let parts = split_fields(line);
    if parts.len() < MPSTAT_MIN_FIELDS {
        return Err(MpstatError::ParseError(label("Invalid line format: ", line)));
    }
    let values = match parse_decimals(&parts, 3, 13) {
        Some(v) => v,
        None => {
            return Err(MpstatError::ParseError(label("Invalid number in line: ", line)));
        },
    };
    let ghost f = fields_of(line@);
    proof {
        assert(f[2] == parts@[2]@);
        assert(forall|i: int| 0 <= i < 10 ==> Some(#[trigger] values@[i]) == decimal_of(f[3 + i]));
        assert(Some(values@[0]) == decimal_of(f[3]));
        assert(Some(values@[1]) == decimal_of(f[4]));
        assert(Some(values@[2]) == decimal_of(f[5]));
        assert(Some(values@[3]) == decimal_of(f[6]));
        assert(Some(values@[4]) == decimal_of(f[7]));
        assert(Some(values@[5]) == decimal_of(f[8]));
        assert(Some(values@[6]) == decimal_of(f[9]));
        assert(Some(values@[7]) == decimal_of(f[10]));
        assert(Some(values@[8]) == decimal_of(f[11]));
        assert(Some(values@[9]) == decimal_of(f[12]));
    }
    Ok(
        CpuStats {
            cpu_id: string_of(parts[2].as_slice()),
            usr: values[0],
            nice: values[1],
            sys: values[2],
            iowait: values[3],
            irq: values[4],
            soft: values[5],
            steal: values[6],
            guest: values[7],
            gnice: values[8],
            idle: values[9],
            timestamp,
        },
    )
}

/// The number of records does not depend on the time they are stamped with.
pub proof fn lemma_records_count(lines: Seq<Seq<char>>, t1: i64, t2: i64)
    ensures
        records_of(lines, t1).len() == records_of(lines, t2).len(),
    decreases lines.len(),
{
    if lines.len() > 0 {
        lemma_records_count(lines.drop_last(), t1, t2);
    }
}

/// Every record carries the time it was stamped with.
pub proof fn lemma_records_stamp(lines: Seq<Seq<char>>, timestamp: i64)
    ensures
        forall|i: int|
            0 <= i < records_of(lines, timestamp).len() ==> (#[trigger] records_of(
                lines,
                timestamp,
            )[i]).timestamp == timestamp,
    decreases lines.len(),
{
    if lines.len() > 0 {
        lemma_records_stamp(lines.drop_last(), timestamp);
        let before = records_of(lines.drop_last(), timestamp);
        assert forall|i: int| 0 <= i < records_of(lines, timestamp).len() implies (
        #[trigger] records_of(lines, timestamp)[i]).timestamp == timestamp by {
            if i < before.len() {
                assert(records_of(lines, timestamp)[i] == before[i]);
            }
        }
    }
}

} // verus!
