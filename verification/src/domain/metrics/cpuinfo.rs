//! CPU information from the blocks of `/proc/cpuinfo`.
//!
//! The text is a sequence of blocks separated by blank lines, one block per
//! logical processor.  A line with a colon is an entry: its key is the text
//! before the first colon, its value the text after it, both trimmed.  A line
//! without a colon is passed over.
//!
//! A block that names a processor gives one record, whether or not a blank
//! line follows it; a block without a `processor` entry gives none.  Within a
//! block the last entry of a key counts, and a record holds nothing of other
//! blocks.  Vendor, model name, flags and bugs of the whole are those of the
//! last entry of their key in the text.  Every other key is a feature: each
//! key once, in the order of its first entry, with the value of its last.
//!
//! The first malformed number (`processor`, `cpu MHz`, `core id`,
//! `physical id`) in the text is an error that names the value.  A text
//! without any record is an error too.

use crate::clock::unix_now;
use crate::domain::metrics::sampling::SourceRead;
use crate::number::{decimal_of, parse_decimal, parse_u32, unsigned_of, Decimal};
use crate::text::{
    blank, chars_of, copy_range, fields_of, first_where, is_blank, join, label,
    lemma_first_where_step, lines_of, rows,
    run_len, same_text, scan_run, split_fields, split_lines, string_of, strings_of, trim, trim_of,
    CharClass,
};
use vstd::prelude::*;

verus! {

/// Errors of the CPU collector.
#[derive(Debug)]
pub enum CpuInfoError {
    /// The source could not be read.
    ReadError(String),
    /// A number is malformed.
    ParseError(String),
    /// The text describes no processor.
    EmptyResult,
}

impl CpuInfoError {
    /// The error as a sentence.
    pub fn message(&self) -> (text: String)
        ensures
            text@ == match *self {
                CpuInfoError::ReadError(m) => "Failed to read CPU information: "@ + m@,
                CpuInfoError::ParseError(m) => "Failed to parse CPU information: "@ + m@,
                CpuInfoError::EmptyResult => "No processor found"@,
            },
    {
        match self {
            CpuInfoError::ReadError(m) => join("Failed to read CPU information: ", m.as_str()),
            CpuInfoError::ParseError(m) => join("Failed to parse CPU information: ", m.as_str()),
            CpuInfoError::EmptyResult => "No processor found".to_owned(),
        }
    }
}

/// One cache of a core.
#[derive(Debug, Clone)]
pub struct CacheInfo {
    /// Size in KiB.
    pub size_kb: u32,
    /// Level: 1, 2 or 3.
    pub level: u8,
    /// Data, instruction or unified.
    pub cache_type: String,
    /// Ways of associativity.
    pub ways: Option<u32>,
}

/// One logical processor, as its block describes it.
#[derive(Debug, Clone)]
pub struct CoreInfo {
    /// Id of the physical core.
    pub core_id: u32,
    /// Id of the socket.
    pub physical_id: u32,
    /// Logical processors of the core; the source names none.
    pub processor_ids: Vec<u32>,
    /// Flags of the block.
    pub flags: Vec<String>,
    /// Frequency in MHz.
    pub cpu_mhz: Decimal,
    /// Caches by name; the source names none.
    pub caches: Vec<(String, CacheInfo)>,
}

/// One NUMA node.
#[derive(Debug, Clone)]
pub struct NumaInfo {
    /// Id of the node.
    pub node_id: u32,
    /// Processors of the node.
    pub cpus: Vec<u32>,
    /// Memory of the node in bytes.
    pub memory_bytes: u64,
    /// Distance to other nodes, by node id.
    pub distances: Vec<(u32, u32)>,
}

/// The processors of the machine.
#[derive(Debug, Clone)]
pub struct CpuInfo {
    /// Vendor.
    pub vendor_id: String,
    /// Model name.
    pub model_name: String,
    /// Architecture; the source does not name it.
    pub architecture: String,
    /// Operating mode; the source does not name it.
    pub op_mode: String,
    /// Number of distinct core ids among the records.
    pub total_cores: u32,
    /// Number of records.
    pub total_threads: u32,
    /// Number of distinct socket ids among the records.
    pub num_sockets: u32,
    /// Base frequency; the source does not name it.
    pub cpu_mhz: Decimal,
    /// Greatest frequency; the source does not name it.
    pub max_cpu_mhz: Option<Decimal>,
    /// Least frequency; the source does not name it.
    pub min_cpu_mhz: Option<Decimal>,
    /// The records, by processor id, in the order of the text.
    pub cores: Vec<(u32, CoreInfo)>,
    /// NUMA nodes by id; the source names none.
    pub numa_nodes: Vec<(u32, NumaInfo)>,
    /// Flags.
    pub flags: Vec<String>,
    /// Bugs.
    pub bugs: Vec<String>,
    /// Features: every other key with its value.
    pub features: Vec<(String, String)>,
    /// Unix time at which the information was collected.
    pub timestamp: i64,
}

/// The mathematical model of a record.
pub struct CoreView {
    pub processor: u32,
    pub core_id: u32,
    pub physical_id: u32,
    pub cpu_mhz: Decimal,
    pub flags: Seq<Seq<char>>,
}

/// The mathematical model of [`CpuInfo`].
pub struct CpuInfoView {
    pub vendor_id: Seq<char>,
    pub model_name: Seq<char>,
    pub total_cores: u32,
    pub total_threads: u32,
    pub num_sockets: u32,
    pub cores: Seq<CoreView>,
    pub flags: Seq<Seq<char>>,
    pub bugs: Seq<Seq<char>>,
    pub features: Seq<(Seq<char>, Seq<char>)>,
    pub timestamp: i64,
}

/// The texts of strings.
pub open spec fn texts(v: Seq<String>) -> Seq<Seq<char>> {
    Seq::new(v.len(), |i: int| v[i]@)
}

impl CoreInfo {
    /// The record of the processor `processor`.
    pub open spec fn record(self, processor: u32) -> CoreView {
        CoreView {
            processor,
            core_id: self.core_id,
            physical_id: self.physical_id,
            cpu_mhz: self.cpu_mhz,
            flags: texts(self.flags@),
        }
    }

    /// The fields that the source does not fill are empty.
    pub open spec fn bare(self) -> bool {
        self.processor_ids@.len() == 0 && self.caches@.len() == 0
    }
}

impl CpuInfo {
    /// The fields that the source does not fill are empty or zero.
    pub open spec fn bare(self) -> bool {
        &&& self.architecture@.len() == 0
        &&& self.op_mode@.len() == 0
        &&& self.cpu_mhz == (Decimal { negative: false, mantissa: 0, scale: 0 })
        &&& self.max_cpu_mhz is None
        &&& self.min_cpu_mhz is None
        &&& self.numa_nodes@.len() == 0
        &&& forall|i: int| 0 <= i < self.cores@.len() ==> (#[trigger] self.cores@[i]).1.bare()
    }
}

impl View for CpuInfo {
    type V = CpuInfoView;

    open spec fn view(&self) -> CpuInfoView {
        CpuInfoView {
            vendor_id: self.vendor_id@,
            model_name: self.model_name@,
            total_cores: self.total_cores,
            total_threads: self.total_threads,
            num_sockets: self.num_sockets,
            cores: Seq::new(
                self.cores@.len(),
                |i: int| self.cores@[i].1.record(self.cores@[i].0),
            ),
            flags: texts(self.flags@),
            bugs: texts(self.bugs@),
            features: Seq::new(
                self.features@.len(),
                |i: int| (self.features@[i].0@, self.features@[i].1@),
            ),
            timestamp: self.timestamp,
        }
    }
}

/// What a line says.
pub enum LineKind {
    /// Nothing: the line is blank and ends a block.
    Blank,
    /// Nothing: the line has no colon.
    Skip,
    /// The processor id.
    Processor(Seq<char>),
    /// The vendor.
    Vendor(Seq<char>),
    /// The model name.
    Model(Seq<char>),
    /// The frequency.
    Mhz(Seq<char>),
    /// The core id.
    CoreId(Seq<char>),
    /// The socket id.
    PhysicalId(Seq<char>),
    /// The flags.
    Flags(Seq<char>),
    /// The bugs.
    Bugs(Seq<char>),
    /// A feature: key and value.
    Feature(Seq<char>, Seq<char>),
}

/// What a line says.
pub open spec fn line_kind(line: Seq<char>) -> LineKind {
    let colon = run_len(line, CharClass::Except(':'));
    if is_blank(line) {
        LineKind::Blank
    } else if !(0 <= colon < line.len()) {
        LineKind::Skip
    } else {
        let key = trim_of(line.take(colon));
        let value = trim_of(line.skip(colon + 1));
        if key == "processor"@ {
            LineKind::Processor(value)
        } else if key == "vendor_id"@ {
            LineKind::Vendor(value)
        } else if key == "model name"@ {
            LineKind::Model(value)
        } else if key == "cpu MHz"@ {
            LineKind::Mhz(value)
        } else if key == "core id"@ {
            LineKind::CoreId(value)
        } else if key == "physical id"@ {
            LineKind::PhysicalId(value)
        } else if key == "flags"@ {
            LineKind::Flags(value)
        } else if key == "bugs"@ {
            LineKind::Bugs(value)
        } else {
            LineKind::Feature(key, value)
        }
    }
}

/// The line holds a malformed number.
pub open spec fn is_bad_line(line: Seq<char>) -> bool {
    match line_kind(line) {
        LineKind::Processor(v) => unsigned_of(v, u32::MAX as nat) is None,
        LineKind::CoreId(v) => unsigned_of(v, u32::MAX as nat) is None,
        LineKind::PhysicalId(v) => unsigned_of(v, u32::MAX as nat) is None,
        LineKind::Mhz(v) => decimal_of(v) is None,
        _ => false,
    }
}

/// What the error of a line with a malformed number says.
pub open spec fn complaint(line: Seq<char>) -> Seq<char> {
    match line_kind(line) {
        LineKind::Processor(v) => "Invalid processor ID: "@ + v,
        LineKind::CoreId(v) => "Invalid core ID: "@ + v,
        LineKind::PhysicalId(v) => "Invalid physical ID: "@ + v,
        LineKind::Mhz(v) => "Invalid CPU MHz: "@ + v,
        _ => Seq::empty(),
    }
}

/// What is known of the block that is being read.
pub struct Block {
    pub processor: Option<u32>,
    pub core_id: u32,
    pub physical_id: u32,
    pub cpu_mhz: Decimal,
    pub flags: Seq<Seq<char>>,
}

/// A block of which nothing is known.
pub open spec fn empty_block() -> Block {
    Block {
        processor: None,
        core_id: 0,
        physical_id: 0,
        cpu_mhz: Decimal { negative: false, mantissa: 0, scale: 0 },
        flags: Seq::empty(),
    }
}

/// The block after one more line, which holds no malformed number.
pub open spec fn block_after(b: Block, line: Seq<char>) -> Block {
    match line_kind(line) {
        LineKind::Blank => empty_block(),
        LineKind::Processor(v) => Block {
            processor: Some(unsigned_of(v, u32::MAX as nat)->0 as u32),
            ..b
        },
        LineKind::CoreId(v) => Block { core_id: unsigned_of(v, u32::MAX as nat)->0 as u32, ..b },
        LineKind::PhysicalId(v) => Block {
            physical_id: unsigned_of(v, u32::MAX as nat)->0 as u32,
            ..b
        },
        LineKind::Mhz(v) => Block { cpu_mhz: decimal_of(v)->0, ..b },
        LineKind::Flags(v) => Block { flags: fields_of(v), ..b },
        _ => b,
    }
}

/// The block that the last lines of a text describe: what follows its last
/// blank line.
pub open spec fn block_at(lines: Seq<Seq<char>>) -> Block
    decreases lines.len(),
{
    if lines.len() == 0 {
        empty_block()
    } else {
        block_after(block_at(lines.drop_last()), lines.last())
    }
}

/// The record of a block that names a processor.
pub open spec fn record_of(b: Block) -> CoreView {
    CoreView {
        processor: b.processor->0,
        core_id: b.core_id,
        physical_id: b.physical_id,
        cpu_mhz: b.cpu_mhz,
        flags: b.flags,
    }
}

/// The records of the blocks that a blank line ends.
pub open spec fn closed_records(lines: Seq<Seq<char>>) -> Seq<CoreView>
    decreases lines.len(),
{
    if lines.len() == 0 {
        Seq::empty()
    } else {
        let before = closed_records(lines.drop_last());
        if line_kind(lines.last()) is Blank && block_at(lines.drop_last()).processor is Some {
            before.push(record_of(block_at(lines.drop_last())))
        } else {
            before
        }
    }
}

/// The records of all blocks: those that a blank line ends, and the last
/// block.
pub open spec fn records_of(lines: Seq<Seq<char>>) -> Seq<CoreView> {
    if block_at(lines).processor is Some {
        closed_records(lines).push(record_of(block_at(lines)))
    } else {
        closed_records(lines)
    }
}

/// The values that are taken from the last entry of their key.
pub struct Summary {
    pub vendor_id: Seq<char>,
    pub model_name: Seq<char>,
    pub flags: Seq<char>,
    pub bugs: Seq<char>,
}

/// The summary of a text: for each key the value of its last entry, empty
/// where it has none.
pub open spec fn summary_of(lines: Seq<Seq<char>>) -> Summary
    decreases lines.len(),
{
    if lines.len() == 0 {
        Summary {
            vendor_id: Seq::empty(),
            model_name: Seq::empty(),
            flags: Seq::empty(),
            bugs: Seq::empty(),
        }
    } else {
        let s = summary_of(lines.drop_last());
        match line_kind(lines.last()) {
            LineKind::Vendor(v) => Summary { vendor_id: v, ..s },
            LineKind::Model(v) => Summary { model_name: v, ..s },
            LineKind::Flags(v) => Summary { flags: v, ..s },
            LineKind::Bugs(v) => Summary { bugs: v, ..s },
            _ => s,
        }
    }
}

/// The pair has the key.
pub open spec fn has_key(key: Seq<char>) -> spec_fn((Seq<char>, Seq<char>)) -> bool {
    |p: (Seq<char>, Seq<char>)| p.0 == key
}

/// The list with the value of the key set: in place where the key is in the
/// list, at the end where it is not.
pub open spec fn upsert(
    list: Seq<(Seq<char>, Seq<char>)>,
    key: Seq<char>,
    value: Seq<char>,
) -> Seq<(Seq<char>, Seq<char>)> {
    let j = first_where(list, has_key(key));
    if 0 <= j < list.len() {
        list.update(j, (key, value))
    } else {
        list.push((key, value))
    }
}

/// The features of a text.
pub open spec fn features_of(lines: Seq<Seq<char>>) -> Seq<(Seq<char>, Seq<char>)>
    decreases lines.len(),
{
    if lines.len() == 0 {
        Seq::empty()
    } else {
        let before = features_of(lines.drop_last());
        match line_kind(lines.last()) {
            LineKind::Feature(k, v) => upsert(before, k, v),
            _ => before,
        }
    }
}

/// The core ids of records.
pub open spec fn core_ids(records: Seq<CoreView>) -> Seq<u32> {
    Seq::new(records.len(), |i: int| records[i].core_id)
}

/// The socket ids of records.
pub open spec fn socket_ids(records: Seq<CoreView>) -> Seq<u32> {
    Seq::new(records.len(), |i: int| records[i].physical_id)
}

/// A count brought into the range of `u32`.
pub open spec fn count_u32(n: nat) -> u32 {
    if n > u32::MAX {
        u32::MAX
    } else {
        n as u32
    }
}

/// The first line with a malformed number, if there is one.
pub open spec fn bad_line(lines: Seq<Seq<char>>) -> Option<Seq<char>> {
    let k = first_where(lines, |l: Seq<char>| is_bad_line(l));
    if 0 <= k < lines.len() {
        Some(lines[k])
    } else {
        None
    }
}

/// What is wrong with a text.
pub enum CpuInfoFault {
    /// This line holds a malformed number.
    Number(Seq<char>),
    /// No block names a processor.
    Empty,
}

/// The first thing wrong with the lines, if anything is: a malformed number
/// first, then the lack of any record.
pub open spec fn cpuinfo_fault(lines: Seq<Seq<char>>) -> Option<CpuInfoFault> {
    match bad_line(lines) {
        Some(line) => Some(CpuInfoFault::Number(line)),
        None => if records_of(lines).len() == 0 {
            Some(CpuInfoFault::Empty)
        } else {
            None
        },
    }
}

/// The error says what the fault is.
pub open spec fn reports(e: CpuInfoError, fault: CpuInfoFault) -> bool {
    match fault {
        CpuInfoFault::Number(line) => e matches CpuInfoError::ParseError(m) && m@ == complaint(
            line,
        ),
        CpuInfoFault::Empty => e is EmptyResult,
    }
}

/// The information that well-formed lines denote.
pub open spec fn cpuinfo_of(lines: Seq<Seq<char>>, timestamp: i64) -> CpuInfoView {
    let records = records_of(lines);
    let summary = summary_of(lines);
    CpuInfoView {
        vendor_id: summary.vendor_id,
        model_name: summary.model_name,
        total_cores: count_u32(core_ids(records).to_set().len()),
        total_threads: count_u32(records.len()),
        num_sockets: count_u32(socket_ids(records).to_set().len()),
        cores: records,
        flags: fields_of(summary.flags),
        bugs: fields_of(summary.bugs),
        features: features_of(lines),
        timestamp,
    }
}

/// What a line says, as the parser holds it.
enum Line {
    Blank,
    Skip,
    Processor(Vec<char>),
    Vendor(Vec<char>),
    Model(Vec<char>),
    Mhz(Vec<char>),
    CoreId(Vec<char>),
    PhysicalId(Vec<char>),
    Flags(Vec<char>),
    Bugs(Vec<char>),
    Feature(Vec<char>, Vec<char>),
}

impl Line {
    spec fn kind(self) -> LineKind {
        match self {
            Line::Blank => LineKind::Blank,
            Line::Skip => LineKind::Skip,
            Line::Processor(v) => LineKind::Processor(v@),
            Line::Vendor(v) => LineKind::Vendor(v@),
            Line::Model(v) => LineKind::Model(v@),
            Line::Mhz(v) => LineKind::Mhz(v@),
            Line::CoreId(v) => LineKind::CoreId(v@),
            Line::PhysicalId(v) => LineKind::PhysicalId(v@),
            Line::Flags(v) => LineKind::Flags(v@),
            Line::Bugs(v) => LineKind::Bugs(v@),
            Line::Feature(k, v) => LineKind::Feature(k@, v@),
        }
    }
}

/// Tells whether a text is the given word.
fn is_word(text: &[char], word: &str) -> (b: bool)
    ensures
        b == (text@ == word@),
{
    let w = chars_of(word);
    same_text(text, w.as_slice())
}

/// Reads what a line says.
fn classify(line: &[char]) -> (r: Line)
    ensures
        r.kind() == line_kind(line@),
{
    if blank(line) {
        return Line::Blank;
    }
    let colon = scan_run(line, 0, CharClass::Except(':'));
    proof {
        assert(line@.skip(0) =~= line@);
    }
    if colon >= line.len() {
        return Line::Skip;
    }
    let left = copy_range(line, 0, colon);
    let right = copy_range(line, colon + 1, line.len());
    proof {
        assert(left@ =~= line@.take(colon as int));
        assert(right@ =~= line@.skip(colon + 1));
    }
    let key = trim(left.as_slice());
    let value = trim(right.as_slice());
    if is_word(key.as_slice(), "processor") {
        Line::Processor(value)
    } else if is_word(key.as_slice(), "vendor_id") {
        Line::Vendor(value)
    } else if is_word(key.as_slice(), "model name") {
        Line::Model(value)
    } else if is_word(key.as_slice(), "cpu MHz") {
        Line::Mhz(value)
    } else if is_word(key.as_slice(), "core id") {
        Line::CoreId(value)
    } else if is_word(key.as_slice(), "physical id") {
        Line::PhysicalId(value)
    } else if is_word(key.as_slice(), "flags") {
        Line::Flags(value)
    } else if is_word(key.as_slice(), "bugs") {
        Line::Bugs(value)
    } else {
        Line::Feature(key, value)
    }
}

/// A record, as the parser holds it.
struct Record {
    processor: u32,
    core_id: u32,
    physical_id: u32,
    cpu_mhz: Decimal,
    flags: Vec<Vec<char>>,
}

impl Record {
    spec fn model(self) -> CoreView {
        CoreView {
            processor: self.processor,
            core_id: self.core_id,
            physical_id: self.physical_id,
            cpu_mhz: self.cpu_mhz,
            flags: rows(self.flags@),
        }
    }
}

/// The models of records.
spec fn models(v: Seq<Record>) -> Seq<CoreView> {
    Seq::new(v.len(), |i: int| v[i].model())
}

/// The pairs of texts that pairs of character vectors hold.
spec fn pairs(v: Seq<(Vec<char>, Vec<char>)>) -> Seq<(Seq<char>, Seq<char>)> {
    Seq::new(v.len(), |i: int| (v[i].0@, v[i].1@))
}

/// Sets the value of a key in a list of features.
fn set_feature(list: &mut Vec<(Vec<char>, Vec<char>)>, key: Vec<char>, value: Vec<char>)
    ensures
        pairs(final(list)@) == upsert(pairs(old(list)@), key@, value@),
{
    let ghost before = pairs(list@);
    let ghost p = has_key(key@);
    let mut j: usize = 0;
    assert(before.take(0) =~= Seq::<(Seq<char>, Seq<char>)>::empty());
    while j < list.len()
        invariant
            0 <= j <= list@.len(),
            before == pairs(list@),
            list@ == old(list)@,
            p == has_key(key@),
            first_where(before.take(j as int), p) == j,
        decreases list@.len() - j,
    {
        proof {
            lemma_first_where_step(before, p, j as int);
            assert(before[j as int] == (list@[j as int].0@, list@[j as int].1@));
        }
        if same_text(list[j].0.as_slice(), key.as_slice()) {
            list.set(j, (key, value));
            proof {
                assert(pairs(list@) =~= before.update(j as int, (key@, value@)));
            }
            return ;
        }
        j = j + 1;
    }
    proof {
        assert(before.take(j as int) =~= before);
    }
    list.push((key, value));
    proof {
        assert(pairs(list@) =~= before.push((key@, value@)));
    }
}

/// Counts the distinct numbers of a list.
fn count_distinct(v: &Vec<u32>) -> (n: u32)
    ensures
        n == count_u32(v@.to_set().len()),
{
    let mut seen: Vec<u32> = Vec::new();
    let mut i: usize = 0;
    assert(v@.take(0) =~= Seq::<u32>::empty());
    assert(seen@.to_set() =~= v@.take(0).to_set());
    while i < v.len()
        invariant
            0 <= i <= v@.len(),
            seen@.no_duplicates(),
            seen@.to_set() == v@.take(i as int).to_set(),
        decreases v@.len() - i,
    {
        let x = v[i];
        let mut known = false;
        let mut k: usize = 0;
        while k < seen.len()
            invariant
                0 <= k <= seen@.len(),
                known <==> exists|m: int| 0 <= m < k && seen@[m] == x,
            decreases seen@.len() - k,
        {
            if seen[k] == x {
                known = true;
            }
            k = k + 1;
        }
        proof {
            assert(v@.take(i + 1) =~= v@.take(i as int).push(x));
            v@.take(i as int).lemma_push_to_set_commute(x);
            if known {
                let m = choose|m: int| 0 <= m < seen@.len() && seen@[m] == x;
                assert(seen@.contains(x));
                assert(seen@.to_set().contains(x));
                assert(seen@.to_set().insert(x) =~= seen@.to_set());
            } else {
                seen@.lemma_push_to_set_commute(x);
                assert forall|a: int, b: int|
                    0 <= a < seen@.push(x).len() && 0 <= b < seen@.push(x).len() && a
                        != b implies seen@.push(x)[a] != seen@.push(x)[b] by {
                    if a < seen@.len() && b < seen@.len() {
                    } else if a < seen@.len() {
                        assert(seen@[a] != x);
                    } else {
                        assert(seen@[b] != x);
                    }
                }
            }
        }
        if !known {
            seen.push(x);
        }
        i = i + 1;
    }
    proof {
        assert(v@.take(i as int) =~= v@);
        seen@.unique_seq_to_set();
    }
    if seen.len() > 0xFFFF_FFFF {
        0xFFFF_FFFF
    } else {
        seen.len() as u32
    }
}

/// What reading the lines gives, before it is made into strings.
struct Reading {
    vendor_id: Vec<char>,
    model_name: Vec<char>,
    flags: Vec<char>,
    bugs: Vec<char>,
    features: Vec<(Vec<char>, Vec<char>)>,
    records: Vec<Record>,
}

/// Reads the lines: the summary, the features and the records, or the first
/// line with a malformed number.
fn read_lines(lines: &Vec<Vec<char>>) -> (r: Result<Reading, usize>)
    ensures
        r is Ok <==> bad_line(rows(lines@)) is None,
        r matches Ok(x) ==> {
            &&& x.vendor_id@ == summary_of(rows(lines@)).vendor_id
            &&& x.model_name@ == summary_of(rows(lines@)).model_name
            &&& x.flags@ == summary_of(rows(lines@)).flags
            &&& x.bugs@ == summary_of(rows(lines@)).bugs
            &&& pairs(x.features@) == features_of(rows(lines@))
            &&& models(x.records@) == records_of(rows(lines@))
        },
        r matches Err(k) ==> k < lines@.len() && bad_line(rows(lines@)) == Some(lines@[k as int]@)
            && is_bad_line(lines@[k as int]@),
{
    let ghost all = rows(lines@);
    let ghost bad = |l: Seq<char>| is_bad_line(l);
    let mut vendor_id: Vec<char> = Vec::new();
    let mut model_name: Vec<char> = Vec::new();
    let mut flags: Vec<char> = Vec::new();
    let mut bugs: Vec<char> = Vec::new();
    let mut features: Vec<(Vec<char>, Vec<char>)> = Vec::new();
    let mut records: Vec<Record> = Vec::new();
    let mut processor: Option<u32> = None;
    let mut core_id: u32 = 0;
    let mut physical_id: u32 = 0;
    let mut cpu_mhz = Decimal { negative: false, mantissa: 0, scale: 0 };
    let mut block_flags: Vec<Vec<char>> = Vec::new();
    let mut i: usize = 0;
    proof {
        assert(all.take(0) =~= Seq::<Seq<char>>::empty());
        assert(pairs(features@) =~= features_of(all.take(0)));
        assert(models(records@) =~= closed_records(all.take(0)));
        assert(rows(block_flags@) =~= empty_block().flags);
    }
    while i < lines.len()
        invariant
            0 <= i <= lines@.len(),
            all == rows(lines@),
            bad == (|l: Seq<char>| is_bad_line(l)),
            first_where(all.take(i as int), bad) == i,
            vendor_id@ == summary_of(all.take(i as int)).vendor_id,
            model_name@ == summary_of(all.take(i as int)).model_name,
            flags@ == summary_of(all.take(i as int)).flags,
            bugs@ == summary_of(all.take(i as int)).bugs,
            pairs(features@) == features_of(all.take(i as int)),
            models(records@) == closed_records(all.take(i as int)),
            block_at(all.take(i as int)) == (Block {
                processor,
                core_id,
                physical_id,
                cpu_mhz,
                flags: rows(block_flags@),
            }),
        decreases lines@.len() - i,
    {
        let ghost line = all[i as int];
        proof {
            assert(line == lines@[i as int]@);
            assert(all.take(i + 1).drop_last() =~= all.take(i as int));
            assert(all.take(i + 1).last() == line);
            lemma_first_where_step(all, bad, i as int);
        }
        match classify(lines[i].as_slice()) {
            Line::Blank => {
                if let Some(p) = processor {
                    let ghost before = models(records@);
                    let record = Record {
                        processor: p,
                        core_id,
                        physical_id,
                        cpu_mhz,
                        flags: block_flags,
                    };
                    records.push(record);
                    proof {
                        assert(models(records@) =~= before.push(record.model()));
                    }
                }
                processor = None;
                core_id = 0;
                physical_id = 0;
                cpu_mhz = Decimal { negative: false, mantissa: 0, scale: 0 };
                block_flags = Vec::new();
                proof {
                    assert(rows(block_flags@) =~= empty_block().flags);
                }
            },
            Line::Skip => {},
            Line::Processor(v) => {
                match parse_u32(v.as_slice()) {
                    Some(n) => {
                        processor = Some(n);
                    },
                    None => {
                        proof {
                            lemma_bad_found(all, i as int);
                        }
                        return Err(i);
                    },
                }
            },
            Line::Vendor(v) => {
                vendor_id = v;
            },
            Line::Model(v) => {
                model_name = v;
            },
            Line::Mhz(v) => {
                match parse_decimal(v.as_slice()) {
                    Some(d) => {
                        cpu_mhz = d;
                    },
                    None => {
                        proof {
                            lemma_bad_found(all, i as int);
                        }
                        return Err(i);
                    },
                }
            },
            Line::CoreId(v) => {
                match parse_u32(v.as_slice()) {
                    Some(n) => {
                        core_id = n;
                    },
                    None => {
                        proof {
                            lemma_bad_found(all, i as int);
                        }
                        return Err(i);
                    },
                }
            },
            Line::PhysicalId(v) => {
                match parse_u32(v.as_slice()) {
                    Some(n) => {
                        physical_id = n;
                    },
                    None => {
                        proof {
                            lemma_bad_found(all, i as int);
                        }
                        return Err(i);
                    },
                }
            },
            Line::Flags(v) => {
                block_flags = split_fields(v.as_slice());
                flags = v;
            },
            Line::Bugs(v) => {
                bugs = v;
            },
            Line::Feature(k, v) => {
                set_feature(&mut features, k, v);
            },
        }
        i = i + 1;
    }
    proof {
        assert(all.take(i as int) =~= all);
    }
    if let Some(p) = processor {
        let ghost before = models(records@);
        let record = Record { processor: p, core_id, physical_id, cpu_mhz, flags: block_flags };
        records.push(record);
        proof {
            assert(models(records@) =~= before.push(record.model()));
        }
    }
    Ok(Reading { vendor_id, model_name, flags, bugs, features, records })
}

/// A line with a malformed number after lines without one is the first of
/// the whole text.
proof fn lemma_bad_found(lines: Seq<Seq<char>>, i: int)
    requires
        0 <= i < lines.len(),
        first_where(lines.take(i), |l: Seq<char>| is_bad_line(l)) == i,
        is_bad_line(lines[i]),
    ensures
        bad_line(lines) == Some(lines[i]),
{
    lemma_first_where_step(lines, |l: Seq<char>| is_bad_line(l), i);
}

/// Collector of CPU information.
#[derive(Debug)]
pub struct CpuInfoCollector {
    proc_cpuinfo_path: String,
}

impl Default for CpuInfoCollector {
    fn default() -> (collector: CpuInfoCollector)
        ensures
            collector.path() == "/proc/cpuinfo"@,
    {
        CpuInfoCollector::new()
    }
}

impl CpuInfoCollector {
    /// A collector of the usual source.
    pub fn new() -> (collector: CpuInfoCollector)
        ensures
            collector.path() == "/proc/cpuinfo"@,
    {
        CpuInfoCollector { proc_cpuinfo_path: "/proc/cpuinfo".to_owned() }
    }

    /// The path of the source.
    pub closed spec fn path(&self) -> Seq<char> {
        self.proc_cpuinfo_path@
    }

    /// The file that is the source.
    pub fn source_path(&self) -> (path: &str)
        ensures
            path@ == self.path(),
    {
        self.proc_cpuinfo_path.as_str()
    }

    /// Reads a text as CPU information, stamped with the given time.
    pub fn parse_cpuinfo_at(&self, content: &str, timestamp: i64) -> (r: Result<
        CpuInfo,
        CpuInfoError,
    >)
        ensures
            r is Ok <==> cpuinfo_fault(lines_of(content@)) is None,
            r matches Ok(info) ==> info@ == cpuinfo_of(lines_of(content@), timestamp)
                && info.bare(),
            r matches Err(e) ==> cpuinfo_fault(lines_of(content@)) is Some && reports(
                e,
                cpuinfo_fault(lines_of(content@))->0,
            ),
    {
        let chars = chars_of(content);
        let lines = split_lines(chars.as_slice());
        match read_lines(&lines) {
            Ok(reading) => {
                if reading.records.len() == 0 {
                    assert(models(reading.records@).len() == 0);
                    Err(CpuInfoError::EmptyResult)
                } else {
                    assert(models(reading.records@).len() > 0);
                    Ok(assemble(reading, timestamp, Ghost(lines_of(content@))))
                }
            },
            Err(k) => Err(CpuInfoError::ParseError(complain(lines[k].as_slice()))),
        }
    }

    /// Reads a text as CPU information, stamped with the current time.
    pub fn parse_cpuinfo(&self, content: &str) -> (r: Result<CpuInfo, CpuInfoError>)
        ensures
            r is Ok <==> cpuinfo_fault(lines_of(content@)) is None,
            r matches Ok(info) ==> info@ == cpuinfo_of(lines_of(content@), info.timestamp)
                && info.bare(),
            r matches Err(e) ==> cpuinfo_fault(lines_of(content@)) is Some && reports(
                e,
                cpuinfo_fault(lines_of(content@))->0,
            ),
    {
        let timestamp = unix_now();
        self.parse_cpuinfo_at(content, timestamp)
    }

    /// Turns what the source handed back into CPU information: an
    /// unavailable source is an error before anything is parsed.
    pub fn collect(&self, source: &SourceRead) -> (r: Result<CpuInfo, CpuInfoError>)
        ensures
            source matches SourceRead::Unavailable(why) ==> r matches Err(
                CpuInfoError::ReadError(m),
            ) && m@ == why@,
            source matches SourceRead::Text(content) ==> {
                &&& r is Ok <==> cpuinfo_fault(lines_of(content@)) is None
                &&& r matches Ok(info) ==> info@ == cpuinfo_of(
                    lines_of(content@),
                    info.timestamp,
                ) && info.bare()
                &&& r matches Err(e) ==> cpuinfo_fault(lines_of(content@)) is Some && reports(
                e,
                cpuinfo_fault(lines_of(content@))->0,
            )
            },
    {
        match source {
            SourceRead::Unavailable(why) => Err(CpuInfoError::ReadError(why.clone())),
            SourceRead::Text(content) => self.parse_cpuinfo(content.as_str()),
        }
    }
}

/// Writes what is wrong with a line that holds a malformed number.
fn complain(line: &[char]) -> (text: String)
    requires
        is_bad_line(line@),
    ensures
        text@ == complaint(line@),
{
    match classify(line) {
        Line::Processor(v) => label("Invalid processor ID: ", v.as_slice()),
        Line::CoreId(v) => label("Invalid core ID: ", v.as_slice()),
        Line::PhysicalId(v) => label("Invalid physical ID: ", v.as_slice()),
        Line::Mhz(v) => label("Invalid CPU MHz: ", v.as_slice()),
        _ => String::new(),
    }
}

/// Makes the result of a reading.
fn assemble(reading: Reading, timestamp: i64, Ghost(lines): Ghost<Seq<Seq<char>>>) -> (info:
    CpuInfo)
    requires
        reading.vendor_id@ == summary_of(lines).vendor_id,
        reading.model_name@ == summary_of(lines).model_name,
        reading.flags@ == summary_of(lines).flags,
        reading.bugs@ == summary_of(lines).bugs,
        pairs(reading.features@) == features_of(lines),
        models(reading.records@) == records_of(lines),
    ensures
        info@ == cpuinfo_of(lines, timestamp),
        info.bare(),
{
    let ghost wanted = records_of(lines);
    let records = reading.records;
    let mut cores: Vec<(u32, CoreInfo)> = Vec::new();
    let mut ids: Vec<u32> = Vec::new();
    let mut sockets: Vec<u32> = Vec::new();
    let mut i: usize = 0;
    while i < records.len()
        invariant
            0 <= i <= records@.len(),
            models(records@) == wanted,
            cores@.len() == i,
            ids@.len() == i,
            sockets@.len() == i,
            forall|k: int|
                0 <= k < i ==> (#[trigger] cores@[k]).1.record(cores@[k].0) == wanted[k]
                    && cores@[k].1.bare(),
            forall|k: int| 0 <= k < i ==> #[trigger] ids@[k] == wanted[k].core_id,
            forall|k: int| 0 <= k < i ==> #[trigger] sockets@[k] == wanted[k].physical_id,
        decreases records@.len() - i,
    {
        let r = &records[i];
        let flags = strings_of(&r.flags);
        proof {
            assert(wanted[i as int] == records@[i as int].model());
            assert(texts(flags@) =~= rows(r.flags@));
        }
        let core = CoreInfo {
            core_id: r.core_id,
            physical_id: r.physical_id,
            processor_ids: Vec::new(),
            flags,
            cpu_mhz: r.cpu_mhz,
            caches: Vec::new(),
        };
        cores.push((r.processor, core));
        ids.push(r.core_id);
        sockets.push(r.physical_id);
        i = i + 1;
    }
    let total_threads: u32 = if cores.len() > 0xFFFF_FFFF {
        0xFFFF_FFFF
    } else {
        cores.len() as u32
    };
    let total_cores = count_distinct(&ids);
    let num_sockets = count_distinct(&sockets);
    let flag_words = split_fields(reading.flags.as_slice());
    let bug_words = split_fields(reading.bugs.as_slice());
    let flags = strings_of(&flag_words);
    let bugs = strings_of(&bug_words);
    let mut features: Vec<(String, String)> = Vec::new();
    let mut j: usize = 0;
    while j < reading.features.len()
        invariant
            0 <= j <= reading.features@.len(),
            features@.len() == j,
            forall|k: int|
                0 <= k < j ==> (#[trigger] features@[k]).0@ == reading.features@[k].0@
                    && features@[k].1@ == reading.features@[k].1@,
        decreases reading.features@.len() - j,
    {
        let k = string_of(reading.features[j].0.as_slice());
        let v = string_of(reading.features[j].1.as_slice());
        features.push((k, v));
        j = j + 1;
    }
    let info = CpuInfo {
        vendor_id: string_of(reading.vendor_id.as_slice()),
        model_name: string_of(reading.model_name.as_slice()),
        architecture: String::new(),
        op_mode: String::new(),
        total_cores,
        total_threads,
        num_sockets,
        cpu_mhz: Decimal { negative: false, mantissa: 0, scale: 0 },
        max_cpu_mhz: None,
        min_cpu_mhz: None,
        cores,
        numa_nodes: Vec::new(),
        flags,
        bugs,
        features,
        timestamp,
    };
    proof {
        assert(ids@ =~= core_ids(wanted));
        assert(sockets@ =~= socket_ids(wanted));
        assert(info@.cores =~= wanted);
        assert(info@.flags =~= fields_of(summary_of(lines).flags));
        assert(info@.bugs =~= fields_of(summary_of(lines).bugs));
        assert(info@.features =~= features_of(lines)) by {
            assert(pairs(reading.features@) == features_of(lines));
            assert forall|k: int| 0 <= k < info@.features.len() implies info@.features[k]
                == features_of(lines)[k] by {
                assert(pairs(reading.features@)[k] == (
                    reading.features@[k].0@,
                    reading.features@[k].1@,
                ));
            }
        }
    }
    info
}

} // verus!
