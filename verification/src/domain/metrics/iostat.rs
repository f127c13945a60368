//! Per-device I/O statistics from the tabular output of `iostat`.
//!
//! A device line has at least nine white-space separated fields: the device,
//! then eight decimals in the order transfers per second, KB read per
//! second, KB written per second, average read request size, average write
//! request size, average queue size, average service time, and utilization
//! in percent.  Formats differ between versions of the tool: an output in
//! another column order has to be brought into this one before it is parsed.
//!
//! Parsing a whole output is best effort: every line that is no device line
//! (the banner, the CPU report, the column headers, blank lines) is passed
//! over.  An output without any device line is an error.

use crate::domain::metrics::sampling::{Interval, SourceRead};
use crate::number::{decimal_of, decimals_at, digits_of, parse_decimals, u64_to_chars, Decimal};
use crate::text::{
    chars_of, fields_of, join, label, lines_of, rows, split_fields, split_lines, string_of, views,
};
use vstd::prelude::*;

verus! {

/// Errors of the iostat collector.
#[derive(Debug)]
pub enum IostatError {
    /// The command could not be run.
    ExecutionError(String),
    /// A line is no device line.
    ParseError(String),
    /// The interval is not usable.
    InvalidInterval(String),
    /// The output holds no device line.
    EmptyResult,
}

impl IostatError {
    /// The error as a sentence.
    pub fn message(&self) -> (text: String)
        ensures
            text@ == match *self {
                IostatError::ExecutionError(m) => "Failed to execute iostat command: "@ + m@,
                IostatError::ParseError(m) => "Failed to parse iostat output: "@ + m@,
                IostatError::InvalidInterval(m) => "Invalid interval specified: "@ + m@,
                IostatError::EmptyResult => "No valid statistics found"@,
            },
    {
        match self {
            IostatError::ExecutionError(m) => join("Failed to execute iostat command: ", m.as_str()),
            IostatError::ParseError(m) => join("Failed to parse iostat output: ", m.as_str()),
            IostatError::InvalidInterval(m) => join("Invalid interval specified: ", m.as_str()),
            IostatError::EmptyResult => "No valid statistics found".to_owned(),
        }
    }
}

/// Statistics of one device.
#[derive(Debug, Clone)]
pub struct DeviceStats {
    /// Name of the device.
    pub device: String,
    /// Transfers per second.
    pub tps: Decimal,
    /// KB read per second.
    pub kb_read_per_sec: Decimal,
    /// KB written per second.
    pub kb_wrtn_per_sec: Decimal,
    /// Average size of a read request.
    pub rareq_sz: Decimal,
    /// Average size of a write request.
    pub wareq_sz: Decimal,
    /// Average length of the queue.
    pub aqu_sz: Decimal,
    /// Average service time in milliseconds.
    pub await_ms: Decimal,
    /// Utilization in percent.
    pub util: Decimal,
}

/// The mathematical model of [`DeviceStats`].
pub struct DeviceStatsView {
    pub device: Seq<char>,
    pub tps: Decimal,
    pub kb_read_per_sec: Decimal,
    pub kb_wrtn_per_sec: Decimal,
    pub rareq_sz: Decimal,
    pub wareq_sz: Decimal,
    pub aqu_sz: Decimal,
    pub await_ms: Decimal,
    pub util: Decimal,
}

impl View for DeviceStats {
    type V = DeviceStatsView;

    open spec fn view(&self) -> DeviceStatsView {
        DeviceStatsView {
            device: self.device@,
            tps: self.tps,
            kb_read_per_sec: self.kb_read_per_sec,
            kb_wrtn_per_sec: self.kb_wrtn_per_sec,
            rareq_sz: self.rareq_sz,
            wareq_sz: self.wareq_sz,
            aqu_sz: self.aqu_sz,
            await_ms: self.await_ms,
            util: self.util,
        }
    }
}

/// Options of the iostat collector.
#[derive(Debug, Clone, Copy)]
pub struct IostatConfig {
    /// Time between samples.
    pub interval: Interval,
    /// Number of samples; `None` samples without end.
    pub count: Option<u32>,
    /// Statistics for each device.
    pub per_device: bool,
    /// Extended statistics.
    pub include_extended: bool,
}

impl Default for IostatConfig {
    fn default() -> (config: IostatConfig)
        ensures
            config.interval == (Interval { secs: 1, subsec_nanos: 0 }),
            config.count == Some(1u32),
            config.per_device,
            config.include_extended,
    {
        IostatConfig {
            interval: Interval::from_secs(1),
            count: Some(1),
            per_device: true,
            include_extended: true,
        }
    }
}

/// Least number of fields of a device line.
pub const IOSTAT_MIN_FIELDS: usize = 9;

/// The line is a device line.
pub open spec fn is_device_line(line: Seq<char>) -> bool {
    let f = fields_of(line);
    f.len() >= 9 && decimals_at(f, 1, 9)
}

/// The record that a device line denotes.
pub open spec fn device_of(line: Seq<char>) -> DeviceStatsView {
    let f = fields_of(line);
    DeviceStatsView {
        device: f[0],
        tps: decimal_of(f[1])->0,
        kb_read_per_sec: decimal_of(f[2])->0,
        kb_wrtn_per_sec: decimal_of(f[3])->0,
        rareq_sz: decimal_of(f[4])->0,
        wareq_sz: decimal_of(f[5])->0,
        aqu_sz: decimal_of(f[6])->0,
        await_ms: decimal_of(f[7])->0,
        util: decimal_of(f[8])->0,
    }
}

/// What the error of a line that is no device line says.
pub open spec fn device_line_complaint(line: Seq<char>) -> Seq<char> {
    if fields_of(line).len() < 9 {
        "Invalid line format: "@ + line
    } else {
        "Invalid number in line: "@ + line
    }
}

/// The records of the device lines, in order.
pub open spec fn devices_of(lines: Seq<Seq<char>>) -> Seq<DeviceStatsView>
    decreases lines.len(),
{
    if lines.len() == 0 {
        Seq::empty()
    } else {
        let before = devices_of(lines.drop_last());
        if is_device_line(lines.last()) {
            before.push(device_of(lines.last()))
        } else {
            before
        }
    }
}

/// The arguments of the command for a configuration: `-x` for extended
/// statistics, the interval in whole seconds, and the count if there is one.
pub open spec fn iostat_args(config: IostatConfig) -> Seq<Seq<char>> {
    (if config.include_extended {
        seq!["-x"@]
    } else {
        Seq::empty()
    }) + seq![digits_of(config.interval.secs as nat)] + (match config.count {
        Some(n) => seq![digits_of(n as nat)],
        None => Seq::empty(),
    })
}

/// Collector of I/O statistics through `iostat`.
#[derive(Debug)]
pub struct IostatCollector {
    config: IostatConfig,
}

impl IostatCollector {
    /// A collector with the given options.
    pub fn new(config: IostatConfig) -> (collector: IostatCollector)
        ensures
            collector.config() == config,
    {
        IostatCollector { config }
    }

    /// The options of the collector.
    pub closed spec fn config(&self) -> IostatConfig {
        self.config
    }

    /// The name of the command that is the source.
    pub fn program(&self) -> (name: &'static str)
        ensures
            name@ == "iostat"@,
    {
        "iostat"
    }

    /// The arguments to run the command with.
    pub fn command_args(&self) -> (args: Vec<String>)
        ensures
            views(args@) == iostat_args(self.config()),
    {
        let mut args: Vec<String> = Vec::new();
        if self.config.include_extended {
            args.push("-x".to_owned());
        }
        args.push(string_of(u64_to_chars(self.config.interval.as_secs()).as_slice()));
        if let Some(n) = self.config.count {
            args.push(string_of(u64_to_chars(n as u64).as_slice()));
        }
        assert(views(args@) =~= iostat_args(self.config()));
        args
    }

    /// Reads one line as a device line.  A line with fewer than nine fields,
    /// or with a number that is no decimal literal, is an error that names
    /// the line.
    pub fn parse_device_line(&self, line: &str) -> (r: Result<DeviceStats, IostatError>)
        ensures
            r is Ok <==> is_device_line(line@),
            r matches Ok(stat) ==> stat@ == device_of(line@),
            r matches Err(e) ==> e matches IostatError::ParseError(m) && m@
                == device_line_complaint(line@),
    {
        let chars = chars_of(line);
        device_line(chars.as_slice())
    }

    /// Reads the device lines of an output.
    pub fn parse_iostat_output(&self, output: &str) -> (r: Result<Vec<DeviceStats>, IostatError>)
        ensures
            r is Ok <==> devices_of(lines_of(output@)).len() > 0,
            r matches Ok(stats) ==> views(stats@) == devices_of(lines_of(output@)),
            r matches Err(e) ==> e is EmptyResult,
    {
        let chars = chars_of(output);
        let lines = split_lines(chars.as_slice());
        let mut stats: Vec<DeviceStats> = Vec::new();
        let mut i: usize = 0;
        let ghost all = lines_of(output@);
        assert(all.take(0) =~= Seq::<Seq<char>>::empty());
        while i < lines.len()
            invariant
                0 <= i <= lines@.len(),
                rows(lines@) == all,
                views(stats@) == devices_of(all.take(i as int)),
            decreases lines@.len() - i,
        {
            let line = lines[i].as_slice();
            let ghost before = views(stats@);
            proof {
                assert(all.take(i + 1).drop_last() =~= all.take(i as int));
                assert(all.take(i + 1).last() == line@);
                assert(rows(lines@)[i as int] == line@);
            }
            match device_line(line) {
                Ok(stat) => {
                    stats.push(stat);
                    assert(views(stats@) =~= before.push(stat@));
                },
                Err(_) => {},
            }
            i = i + 1;
        }
        assert(all.take(i as int) =~= all);
        if stats.len() == 0 {
            Err(IostatError::EmptyResult)
        } else {
            Ok(stats)
        }
    }

    /// Turns what the command handed back into records: an unavailable
    /// command is an error before anything is parsed.
    pub fn collect(&self, source: &SourceRead) -> (r: Result<Vec<DeviceStats>, IostatError>)
        ensures
            source matches SourceRead::Unavailable(why) ==> r matches Err(
                IostatError::ExecutionError(m),
            ) && m@ == why@,
            source matches SourceRead::Text(output) ==> {
                &&& r is Ok <==> devices_of(lines_of(output@)).len() > 0
                &&& r matches Ok(stats) ==> views(stats@) == devices_of(lines_of(output@))
                &&& r matches Err(e) ==> e is EmptyResult
            },
    {
        match source {
            SourceRead::Unavailable(why) => Err(IostatError::ExecutionError(why.clone())),
            SourceRead::Text(output) => self.parse_iostat_output(output.as_str()),
        }
    }
}

/// Reads one line, given as characters, as a device line.
fn device_line(line: &[char]) -> (r: Result<DeviceStats, IostatError>)
    ensures
        r is Ok <==> is_device_line(line@),
        r matches Ok(stat) ==> stat@ == device_of(line@),
        r matches Err(e) ==> e matches IostatError::ParseError(m) && m@ == device_line_complaint(
            line@,
        ),
{
    let parts = split_fields(line);
    if parts.len() < IOSTAT_MIN_FIELDS {
        return Err(IostatError::ParseError(label("Invalid line format: ", line)));
    }
    let values = match parse_decimals(&parts, 1, 9) {
        Some(v) => v,
        None => {
            return Err(IostatError::ParseError(label("Invalid number in line: ", line)));
        },
    };
    let ghost f = fields_of(line@);
    proof {
        assert(f[0] == parts@[0]@);
        assert(Some(values@[0]) == decimal_of(f[1]));
        assert(Some(values@[1]) == decimal_of(f[2]));
        assert(Some(values@[2]) == decimal_of(f[3]));
        assert(Some(values@[3]) == decimal_of(f[4]));
        assert(Some(values@[4]) == decimal_of(f[5]));
        assert(Some(values@[5]) == decimal_of(f[6]));
        assert(Some(values@[6]) == decimal_of(f[7]));
        assert(Some(values@[7]) == decimal_of(f[8]));
    }
    Ok(
        DeviceStats {
            device: string_of(parts[0].as_slice()),
            tps: values[0],
            kb_read_per_sec: values[1],
            kb_wrtn_per_sec: values[2],
            rareq_sz: values[3],
            wareq_sz: values[4],
            aqu_sz: values[5],
            await_ms: values[6],
            util: values[7],
        },
    )
}

} // verus!
