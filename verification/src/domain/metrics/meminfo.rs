//! Memory information from the `key: value` lines of `/proc/meminfo`.
//!
//! A line with at least two white-space separated fields is an entry: its
//! key is the first field without trailing colons, its value the second
//! field, an unsigned number of KiB.  Other lines are passed over.  The first
//! entry whose value is no number, or does not fit into 64 bits once
//! converted to bytes, is an error that names the key.  Of several entries
//! with one key the last counts; a key without entry counts as zero.  A text
//! without any entry is an error.

use crate::clock::unix_now;
use crate::domain::metrics::sampling::SourceRead;
use crate::number::{parse_u64, unsigned_of};
use crate::text::{
    chars_of, copy_range, fields_of, first_where, join, label,
    lemma_first_where_step, lines_of, rows, same_text, scan_run_back, split_fields, split_lines,
    string_of, tail_run_len, trim, trim_of, CharClass,
};
use vstd::prelude::*;

verus! {

/// Errors of the memory collector.
#[derive(Debug)]
pub enum MemInfoError {
    /// A source could not be read.
    ReadError(String),
    /// A value is malformed.
    ParseError(String),
    /// A cgroup file could not be read.
    CgroupError(String),
    /// The text holds no entry.
    EmptyResult,
}

impl MemInfoError {
    /// The error as a sentence.
    pub fn message(&self) -> (text: String)
        ensures
            text@ == match *self {
                MemInfoError::ReadError(m) => "Failed to read memory information: "@ + m@,
                MemInfoError::ParseError(m) => "Failed to parse memory information: "@ + m@,
                MemInfoError::CgroupError(m) => "Failed to access cgroup information: "@ + m@,
                MemInfoError::EmptyResult => "No memory information found"@,
            },
    {
        match self {
            MemInfoError::ReadError(m) => join("Failed to read memory information: ", m.as_str()),
            MemInfoError::ParseError(m) => join("Failed to parse memory information: ", m.as_str()),
            MemInfoError::CgroupError(m) => join(
                "Failed to access cgroup information: ",
                m.as_str(),
            ),
            MemInfoError::EmptyResult => "No memory information found".to_owned(),
        }
    }
}

/// Memory use of one cgroup, in bytes.
#[derive(Debug, Clone, Copy, PartialEq, Eq, Structural)]
pub struct CgroupMemoryInfo {
    /// Memory in use.
    pub usage_bytes: u64,
    /// Memory in use beyond what the statistics file reports.
    pub working_set_bytes: u64,
    /// Resident set size.
    pub rss_bytes: u64,
    /// Cache.
    pub cache_bytes: u64,
    /// Swap in use.
    pub swap_bytes: u64,
    /// Limit; zero if there is none.
    pub limit_bytes: u64,
    /// Inactive file memory.
    pub inactive_file_bytes: u64,
}

/// A snapshot of the memory, in bytes.
#[derive(Debug, Clone)]
pub struct MemInfo {
    /// Physical memory.
    pub total_memory: u64,
    /// Memory available to new work.
    pub available_memory: u64,
    /// Free memory.
    pub free_memory: u64,
    /// Total less available.
    pub used_memory: u64,
    /// Buffers.
    pub buffers: u64,
    /// Page cache.
    pub cached: u64,
    /// Active memory.
    pub active: u64,
    /// Inactive memory.
    pub inactive: u64,
    /// Swap space.
    pub swap_total: u64,
    /// Free swap space.
    pub swap_free: u64,
    /// Swap total less swap free.
    pub swap_used: u64,
    /// Memory waiting to be written back.
    pub dirty: u64,
    /// Memory being written back.
    pub writeback: u64,
    /// Reclaimable slab memory.
    pub reclaimable: u64,
    /// Memory use by cgroup name.
    pub cgroups: Vec<(String, CgroupMemoryInfo)>,
    /// Low watermark.
    pub low_watermark: u64,
    /// High watermark.
    pub high_watermark: u64,
    /// Unix time at which the snapshot was taken.
    pub timestamp: i64,
}

/// The mathematical model of [`MemInfo`].
pub struct MemInfoView {
    pub total_memory: u64,
    pub available_memory: u64,
    pub free_memory: u64,
    pub used_memory: u64,
    pub buffers: u64,
    pub cached: u64,
    pub active: u64,
    pub inactive: u64,
    pub swap_total: u64,
    pub swap_free: u64,
    pub swap_used: u64,
    pub dirty: u64,
    pub writeback: u64,
    pub reclaimable: u64,
    pub cgroups: Seq<(Seq<char>, CgroupMemoryInfo)>,
    pub low_watermark: u64,
    pub high_watermark: u64,
    pub timestamp: i64,
}

impl View for MemInfo {
    type V = MemInfoView;

    open spec fn view(&self) -> MemInfoView {
        MemInfoView {
            total_memory: self.total_memory,
            available_memory: self.available_memory,
            free_memory: self.free_memory,
            used_memory: self.used_memory,
            buffers: self.buffers,
            cached: self.cached,
            active: self.active,
            inactive: self.inactive,
            swap_total: self.swap_total,
            swap_free: self.swap_free,
            swap_used: self.swap_used,
            dirty: self.dirty,
            writeback: self.writeback,
            reclaimable: self.reclaimable,
            cgroups: Seq::new(self.cgroups@.len(), |i: int| (self.cgroups@[i].0@, self.cgroups@[i].1)),
            low_watermark: self.low_watermark,
            high_watermark: self.high_watermark,
            timestamp: self.timestamp,
        }
    }
}

impl MemInfo {
    /// Physical memory in MiB, rounded down.
    pub fn total_memory_mb(&self) -> (mb: u64)
        ensures
            mb == self.total_memory / 1024 / 1024,
    {
        self.total_memory / 1024 / 1024
    }

    /// Available memory in MiB, rounded down.
    pub fn available_memory_mb(&self) -> (mb: u64)
        ensures
            mb == self.available_memory / 1024 / 1024,
    {
        self.available_memory / 1024 / 1024
    }

    /// Used memory in MiB, rounded down.
    pub fn used_memory_mb(&self) -> (mb: u64)
        ensures
            mb == self.used_memory / 1024 / 1024,
    {
        self.used_memory / 1024 / 1024
    }
}

/// Greatest number of KiB whose bytes fit into 64 bits.
pub const MAX_KIB: u64 = 0x3F_FFFF_FFFF_FFFF;

/// The key of an entry: its first field without trailing colons.
pub open spec fn entry_key(line: Seq<char>) -> Seq<char> {
    let k = fields_of(line)[0];
    k.take(k.len() - tail_run_len(k, CharClass::Only(':')))
}

/// The line is an entry.
pub open spec fn is_entry(line: Seq<char>) -> bool {
    fields_of(line).len() >= 2
}

/// The value of an entry in KiB, where it is a number whose bytes fit.
pub open spec fn entry_kib(line: Seq<char>) -> Option<nat> {
    unsigned_of(fields_of(line)[1], MAX_KIB as nat)
}

/// The line is an entry with a malformed value.
pub open spec fn is_bad_entry(line: Seq<char>) -> bool {
    is_entry(line) && entry_kib(line) is None
}

/// The bytes of the last well-formed entry with the key; zero without one.
pub open spec fn value_of(lines: Seq<Seq<char>>, key: Seq<char>) -> u64
    decreases lines.len(),
{
    if lines.len() == 0 {
        0
    } else {
        let line = lines.last();
        if is_entry(line) && entry_kib(line) is Some && entry_key(line) == key {
            (entry_kib(line)->0 * 1024) as u64
        } else {
            value_of(lines.drop_last(), key)
        }
    }
}

/// What is wrong with a text.
pub enum MemInfoFault {
    /// The entry on this line has a malformed value.
    Value(Seq<char>),
    /// There is no entry.
    Empty,
    /// More memory is available than there is.
    Available,
    /// More swap is free than there is.
    Swap,
}

/// The number of entries.
pub open spec fn entry_count(lines: Seq<Seq<char>>) -> nat
    decreases lines.len(),
{
    if lines.len() == 0 {
        0
    } else {
        entry_count(lines.drop_last()) + if is_entry(lines.last()) {
            1nat
        } else {
            0nat
        }
    }
}

/// The first thing wrong with the lines, if anything is: a malformed entry
/// first, then the lack of any entry, then available memory above the
/// total, then free swap above the total.
pub open spec fn meminfo_fault(lines: Seq<Seq<char>>) -> Option<MemInfoFault> {
    let k = first_where(lines, |l: Seq<char>| is_bad_entry(l));
    if 0 <= k < lines.len() {
        Some(MemInfoFault::Value(lines[k]))
    } else if entry_count(lines) == 0 {
        Some(MemInfoFault::Empty)
    } else if value_of(lines, "MemAvailable"@) > value_of(lines, "MemTotal"@) {
        Some(MemInfoFault::Available)
    } else if value_of(lines, "SwapFree"@) > value_of(lines, "SwapTotal"@) {
        Some(MemInfoFault::Swap)
    } else {
        None
    }
}

/// The error says what the fault is.
pub open spec fn reports(e: MemInfoError, fault: MemInfoFault) -> bool {
    match fault {
        MemInfoFault::Value(line) => e matches MemInfoError::ParseError(m) && m@
            == "Failed to parse value for "@ + entry_key(line),
        MemInfoFault::Empty => e is EmptyResult,
        MemInfoFault::Available => e matches MemInfoError::ParseError(m) && m@
            == "MemAvailable exceeds MemTotal"@,
        MemInfoFault::Swap => e matches MemInfoError::ParseError(m) && m@
            == "SwapFree exceeds SwapTotal"@,
    }
}

/// The snapshot that well-formed lines denote, without cgroups.
pub open spec fn meminfo_of(lines: Seq<Seq<char>>, low: u64, high: u64, timestamp: i64) -> MemInfoView {
    MemInfoView {
        total_memory: value_of(lines, "MemTotal"@),
        available_memory: value_of(lines, "MemAvailable"@),
        free_memory: value_of(lines, "MemFree"@),
        used_memory: (value_of(lines, "MemTotal"@) - value_of(lines, "MemAvailable"@)) as u64,
        buffers: value_of(lines, "Buffers"@),
        cached: value_of(lines, "Cached"@),
        active: value_of(lines, "Active"@),
        inactive: value_of(lines, "Inactive"@),
        swap_total: value_of(lines, "SwapTotal"@),
        swap_free: value_of(lines, "SwapFree"@),
        swap_used: (value_of(lines, "SwapTotal"@) - value_of(lines, "SwapFree"@)) as u64,
        dirty: value_of(lines, "Dirty"@),
        writeback: value_of(lines, "Writeback"@),
        reclaimable: value_of(lines, "SReclaimable"@),
        cgroups: Seq::empty(),
        low_watermark: low,
        high_watermark: high,
        timestamp,
    }
}

/// The number that a text denotes once trimmed, where it is one.
pub open spec fn trimmed_number(text: Seq<char>) -> Option<nat> {
    unsigned_of(trim_of(text), u64::MAX as nat)
}

/// The low watermark that the watermark source denotes: its number of KiB
/// in bytes, where the source is available, holds a number, and the bytes
/// fit into 64 bits.
pub open spec fn low_watermark_of(source: SourceRead) -> Option<u64> {
    match source {
        SourceRead::Text(t) => match trimmed_number(t@) {
            Some(kib) => if kib * 1024 <= u64::MAX {
                Some((kib * 1024) as u64)
            } else {
                None
            },
            None => None,
        },
        SourceRead::Unavailable(_) => None,
    }
}

/// The high watermark: twice the low one, where that fits into 64 bits.
pub open spec fn high_watermark_of(source: SourceRead) -> Option<u64> {
    match low_watermark_of(source) {
        Some(low) => if low * 2 <= u64::MAX {
            Some((low * 2) as u64)
        } else {
            None
        },
        None => None,
    }
}

/// A watermark, or zero where there is none.
pub open spec fn or_zero(w: Option<u64>) -> u64 {
    match w {
        Some(v) => v,
        None => 0,
    }
}

/// The cgroups that are looked at, in order.
pub open spec fn cgroup_names_spec() -> Seq<Seq<char>> {
    seq![
        "system.slice"@,
        "user.slice"@,
        "docker.service"@,
        "kubelet.service"@,
        "kubepods.slice"@,
    ]
}

/// The memory use that four numbers denote: usage, statistics, usage with
/// swap, and limit.
pub open spec fn cgroup_of(usage: u64, stat: u64, memsw: u64, limit: u64) -> CgroupMemoryInfo {
    CgroupMemoryInfo {
        usage_bytes: usage,
        working_set_bytes: if usage >= stat {
            (usage - stat) as u64
        } else {
            0
        },
        rss_bytes: stat,
        cache_bytes: stat,
        swap_bytes: if memsw >= usage {
            (memsw - usage) as u64
        } else {
            0
        },
        limit_bytes: limit,
        inactive_file_bytes: stat,
    }
}

/// What reading one cgroup file as a number gives: the number, or whether
/// the file was unavailable (`false`) or malformed (`true`).
pub open spec fn cgroup_number(source: SourceRead) -> Result<u64, bool> {
    match source {
        SourceRead::Unavailable(_) => Err(false),
        SourceRead::Text(t) => match trimmed_number(t@) {
            Some(n) => Ok(n as u64),
            None => Err(true),
        },
    }
}

/// Collector of memory information.
#[derive(Debug)]
pub struct MemInfoCollector {
    proc_meminfo_path: String,
    cgroup_memory_path: String,
}

impl Default for MemInfoCollector {
    fn default() -> (collector: MemInfoCollector)
        ensures
            collector.meminfo_path() == "/proc/meminfo"@,
            collector.cgroup_path() == "/sys/fs/cgroup/memory"@,
    {
        MemInfoCollector::new()
    }
}

impl MemInfoCollector {
    /// A collector of the usual sources.
    pub fn new() -> (collector: MemInfoCollector)
        ensures
            collector.meminfo_path() == "/proc/meminfo"@,
            collector.cgroup_path() == "/sys/fs/cgroup/memory"@,
    {
        MemInfoCollector {
            proc_meminfo_path: "/proc/meminfo".to_owned(),
            cgroup_memory_path: "/sys/fs/cgroup/memory".to_owned(),
        }
    }

    /// The path of the memory file.
    pub closed spec fn meminfo_path(&self) -> Seq<char> {
        self.proc_meminfo_path@
    }

    /// The directory of the cgroup memory files.
    pub closed spec fn cgroup_path(&self) -> Seq<char> {
        self.cgroup_memory_path@
    }

    /// The file that is the source.
    pub fn source_path(&self) -> (path: &str)
        ensures
            path@ == self.meminfo_path(),
    {
        self.proc_meminfo_path.as_str()
    }

    /// The file that holds the low watermark in KiB.
    pub fn watermark_path(&self) -> (path: &'static str)
        ensures
            path@ == "/proc/sys/vm/min_free_kbytes"@,
    {
        "/proc/sys/vm/min_free_kbytes"
    }

    /// The names of the cgroups that are looked at.
    pub fn cgroup_names(&self) -> (names: Vec<&'static str>)
        ensures
            names@.len() == 5,
            forall|i: int| 0 <= i < 5 ==> (#[trigger] names@[i])@ == cgroup_names_spec()[i],
    {
        let mut names: Vec<&'static str> = Vec::new();
        names.push("system.slice");
        names.push("user.slice");
        names.push("docker.service");
        names.push("kubelet.service");
        names.push("kubepods.slice");
        names
    }

    /// The path of a file of a cgroup: directory, cgroup and file, joined
    /// by `/`.
    pub fn cgroup_file_path(&self, cgroup: &str, file: &str) -> (path: String)
        ensures
            path@ == self.cgroup_path() + "/"@ + cgroup@ + "/"@ + file@,
    {
        let a = join(self.cgroup_memory_path.as_str(), "/");
        let b = join(a.as_str(), cgroup);
        let c = join(b.as_str(), "/");
        join(c.as_str(), file)
    }

    /// The low watermark in bytes.
    pub fn get_low_watermark(&self, source: &SourceRead) -> (r: Result<u64, MemInfoError>)
        ensures
            r is Ok <==> low_watermark_of(*source) is Some,
            r matches Ok(w) ==> Some(w) == low_watermark_of(*source),
            r matches Err(e) ==> match *source {
                SourceRead::Unavailable(why) => e matches MemInfoError::ReadError(m) && m@ == why@,
                SourceRead::Text(t) => e matches MemInfoError::ParseError(m) && m@ == trim_of(t@),
            },
    {
        match source {
            SourceRead::Unavailable(why) => Err(MemInfoError::ReadError(why.clone())),
            SourceRead::Text(t) => {
                let chars = chars_of(t.as_str());
                let body = trim(chars.as_slice());
                match parse_u64(body.as_slice()) {
                    Some(kib) => {
                        if kib <= MAX_KIB {
                            Ok(kib * 1024)
                        } else {
                            Err(MemInfoError::ParseError(string_of(body.as_slice())))
                        }
                    },
                    None => Err(MemInfoError::ParseError(string_of(body.as_slice()))),
                }
            },
        }
    }

    /// The high watermark in bytes: twice the low one.
    pub fn get_high_watermark(&self, source: &SourceRead) -> (r: Result<u64, MemInfoError>)
        ensures
            r is Ok <==> high_watermark_of(*source) is Some,
            r matches Ok(w) ==> Some(w) == high_watermark_of(*source),
            r matches Err(e) ==> match *source {
                SourceRead::Unavailable(why) => e matches MemInfoError::ReadError(m) && m@ == why@,
                SourceRead::Text(t) => e matches MemInfoError::ParseError(m) && m@ == trim_of(t@),
            },
    {
        match self.get_low_watermark(source) {
            Ok(low) => {
                if low <= u64::MAX / 2 {
                    Ok(low * 2)
                } else {
                    match source {
                        SourceRead::Unavailable(why) => Err(MemInfoError::ReadError(why.clone())),
                        SourceRead::Text(t) => {
                            let chars = chars_of(t.as_str());
                            let body = trim(chars.as_slice());
                            Err(MemInfoError::ParseError(string_of(body.as_slice())))
                        },
                    }
                }
            },
            Err(e) => Err(e),
        }
    }

    /// Reads the memory use of one cgroup from its four files: usage,
    /// statistics, usage with swap, and limit.  The files are looked at in
    /// that order; the first that is unavailable or holds no number is the
    /// error.
    pub fn read_cgroup_memory_info(
        &self,
        usage: &SourceRead,
        stat: &SourceRead,
        memsw: &SourceRead,
        limit: &SourceRead,
    ) -> (r: Result<CgroupMemoryInfo, MemInfoError>)
        ensures
            r is Ok <==> cgroup_number(*usage) is Ok && cgroup_number(*stat) is Ok
                && cgroup_number(*memsw) is Ok && cgroup_number(*limit) is Ok,
            r matches Ok(info) ==> info == cgroup_of(
                cgroup_number(*usage)->Ok_0,
                cgroup_number(*stat)->Ok_0,
                cgroup_number(*memsw)->Ok_0,
                cgroup_number(*limit)->Ok_0,
            ),
            r matches Err(e) ==> {
                let bad = if cgroup_number(*usage) is Err {
                    cgroup_number(*usage)
                } else if cgroup_number(*stat) is Err {
                    cgroup_number(*stat)
                } else if cgroup_number(*memsw) is Err {
                    cgroup_number(*memsw)
                } else {
                    cgroup_number(*limit)
                };
                bad is Err && (bad->Err_0 ==> e is ParseError) && (!bad->Err_0 ==> e is CgroupError)
            },
    {
        let usage_bytes = cgroup_value(usage)?;
        let memory_stat = cgroup_value(stat)?;
        let memsw_usage = cgroup_value(memsw)?;
        let limit_bytes = cgroup_value(limit)?;
        Ok(
            CgroupMemoryInfo {
                usage_bytes,
                working_set_bytes: if usage_bytes >= memory_stat {
                    usage_bytes - memory_stat
                } else {
                    0
                },
                rss_bytes: memory_stat,
                cache_bytes: memory_stat,
                swap_bytes: if memsw_usage >= usage_bytes {
                    memsw_usage - usage_bytes
                } else {
                    0
                },
                limit_bytes,
                inactive_file_bytes: memory_stat,
            },
        )
    }

    /// Reads a text as a snapshot with the given watermark source and time.
    pub fn parse_meminfo_at(&self, content: &str, watermark: &SourceRead, timestamp: i64) -> (r:
        Result<MemInfo, MemInfoError>)
        ensures
            r is Ok <==> meminfo_fault(lines_of(content@)) is None,
            r matches Ok(info) ==> info@ == meminfo_of(
                lines_of(content@),
                or_zero(low_watermark_of(*watermark)),
                or_zero(high_watermark_of(*watermark)),
                timestamp,
            ),
            r matches Err(e) ==> meminfo_fault(lines_of(content@)) is Some && reports(
                e,
                meminfo_fault(lines_of(content@))->0,
            ),
    {
        let chars = chars_of(content);
        let lines = split_lines(chars.as_slice());
        let ghost all = lines_of(content@);
        let ghost bad = |l: Seq<char>| is_bad_entry(l);
        let mut entries: Vec<(Vec<char>, u64)> = Vec::new();
        let mut i: usize = 0;
        assert(all.take(0) =~= Seq::<Seq<char>>::empty());
        while i < lines.len()
            invariant
                0 <= i <= lines@.len(),
                rows(lines@) == all,
                all == lines_of(content@),
                bad == (|l: Seq<char>| is_bad_entry(l)),
                first_where(all.take(i as int), bad) == i,
                entries@.len() == entry_count(all.take(i as int)),
                forall|key: Seq<char>| #[trigger]
                    lookup(entries@, key) == value_of(all.take(i as int), key),
            decreases lines@.len() - i,
        {
            let line = lines[i].as_slice();
            proof {
                assert(rows(lines@)[i as int] == line@);
                assert(all.take(i + 1).drop_last() =~= all.take(i as int));
                assert(all.take(i + 1).last() == line@);
                lemma_first_where_step(all, bad, i as int);
            }
            let fields = split_fields(line);
            if fields.len() >= 2 {
                let first = fields[0].as_slice();
                let end = scan_run_back(first, 0, first.len(), CharClass::Only(':'));
                let key = copy_range(first, 0, end);
                proof {
                    assert(rows(fields@)[0] == first@);
                    assert(rows(fields@)[1] == fields@[1]@);
                    assert(first@.subrange(0, first@.len() as int) =~= first@);
                    assert(key@ =~= entry_key(line@));
                }
                let kib = match parse_u64(fields[1].as_slice()) {
                    Some(v) => v,
                    None => {
                        return Err(
                            MemInfoError::ParseError(
                                label("Failed to parse value for ", key.as_slice()),
                            ),
                        );
                    },
                };
                if kib > MAX_KIB {
                    return Err(
                        MemInfoError::ParseError(label("Failed to parse value for ", key.as_slice())),
                    );
                }
                let ghost before = entries@;
                entries.push((key, kib * 1024));
                proof {
                    assert(entries@.drop_last() =~= before);
                    assert forall|k: Seq<char>| #[trigger]
                        lookup(entries@, k) == value_of(all.take(i + 1), k) by {
                        assert(lookup(before, k) == value_of(all.take(i as int), k));
                    }
                }
            } else {
                proof {
                    assert forall|k: Seq<char>| #[trigger]
                        lookup(entries@, k) == value_of(all.take(i + 1), k) by {
                        assert(lookup(entries@, k) == value_of(all.take(i as int), k));
                    }
                }
            }
            i = i + 1;
        }
        proof {
            assert(all.take(i as int) =~= all);
        }
        if entries.len() == 0 {
            return Err(MemInfoError::EmptyResult);
        }
        let total = find(&entries, "MemTotal");
        let available = find(&entries, "MemAvailable");
        let swap_total = find(&entries, "SwapTotal");
        let swap_free = find(&entries, "SwapFree");
        if available > total {
            return Err(MemInfoError::ParseError("MemAvailable exceeds MemTotal".to_owned()));
        }
        if swap_free > swap_total {
            return Err(MemInfoError::ParseError("SwapFree exceeds SwapTotal".to_owned()));
        }
        let low = match self.get_low_watermark(watermark) {
            Ok(w) => w,
            Err(_) => 0,
        };
        let high = match self.get_high_watermark(watermark) {
            Ok(w) => w,
            Err(_) => 0,
        };
        let info = MemInfo {
            total_memory: total,
            available_memory: available,
            free_memory: find(&entries, "MemFree"),
            used_memory: total - available,
            buffers: find(&entries, "Buffers"),
            cached: find(&entries, "Cached"),
            active: find(&entries, "Active"),
            inactive: find(&entries, "Inactive"),
            swap_total,
            swap_free,
            swap_used: swap_total - swap_free,
            dirty: find(&entries, "Dirty"),
            writeback: find(&entries, "Writeback"),
            reclaimable: find(&entries, "SReclaimable"),
            cgroups: Vec::new(),
            low_watermark: low,
            high_watermark: high,
            timestamp,
        };
        proof {
            assert(info@.cgroups =~= Seq::empty());
        }
        Ok(info)
    }

    /// Reads a text as a snapshot, stamped with the current time.
    pub fn parse_meminfo(&self, content: &str, watermark: &SourceRead) -> (r: Result<
        MemInfo,
        MemInfoError,
    >)
        ensures
            r is Ok <==> meminfo_fault(lines_of(content@)) is None,
            r matches Ok(info) ==> info@ == meminfo_of(
                lines_of(content@),
                or_zero(low_watermark_of(*watermark)),
                or_zero(high_watermark_of(*watermark)),
                info.timestamp,
            ),
            r matches Err(e) ==> meminfo_fault(lines_of(content@)) is Some && reports(
                e,
                meminfo_fault(lines_of(content@))->0,
            ),
    {
        let timestamp = unix_now();
        self.parse_meminfo_at(content, watermark, timestamp)
    }

    /// Turns what the sources handed back into a snapshot with the given
    /// cgroups: an unavailable memory file is an error before anything is
    /// parsed.
    pub fn collect(
        &self,
        source: &SourceRead,
        watermark: &SourceRead,
        cgroups: Vec<(String, CgroupMemoryInfo)>,
    ) -> (r: Result<MemInfo, MemInfoError>)
        ensures
            source matches SourceRead::Unavailable(why) ==> r matches Err(
                MemInfoError::ReadError(m),
            ) && m@ == why@,
            source matches SourceRead::Text(content) ==> {
                &&& r is Ok <==> meminfo_fault(lines_of(content@)) is None
                &&& r matches Ok(info) ==> info.cgroups == cgroups && info@ == (MemInfoView {
                    cgroups: info@.cgroups,
                    ..meminfo_of(
                        lines_of(content@),
                        or_zero(low_watermark_of(*watermark)),
                        or_zero(high_watermark_of(*watermark)),
                        info.timestamp,
                    )
                })
                &&& r matches Err(e) ==> meminfo_fault(lines_of(content@)) is Some && reports(
                    e,
                    meminfo_fault(lines_of(content@))->0,
                )
            },
    {
        match source {
            SourceRead::Unavailable(why) => Err(MemInfoError::ReadError(why.clone())),
            SourceRead::Text(content) => {
                match self.parse_meminfo(content.as_str(), watermark) {
                    Ok(parsed) => {
                        let mut info = parsed;
                        info.cgroups = cgroups;
                        Ok(info)
                    },
                    Err(e) => Err(e),
                }
            },
        }
    }
}

/// The bytes of the last entry with the key; zero without one.
pub open spec fn lookup(entries: Seq<(Vec<char>, u64)>, key: Seq<char>) -> u64
    decreases entries.len(),
{
    if entries.len() == 0 {
        0
    } else if entries.last().0@ == key {
        entries.last().1
    } else {
        lookup(entries.drop_last(), key)
    }
}

/// Finds the bytes of the last entry with the key.
fn find(entries: &Vec<(Vec<char>, u64)>, key: &str) -> (v: u64)
    ensures
        v == lookup(entries@, key@),
{
    let wanted = chars_of(key);
    let mut i: usize = entries.len();
    assert(entries@.take(i as int) =~= entries@);
    while i > 0
        invariant
            0 <= i <= entries@.len(),
            wanted@ == key@,
            lookup(entries@, key@) == lookup(entries@.take(i as int), key@),
        decreases i,
    {
        proof {
            assert(entries@.take(i as int).drop_last() =~= entries@.take(i - 1));
            assert(entries@.take(i as int).last() == entries@[i - 1]);
        }
        if same_text(entries[i - 1].0.as_slice(), wanted.as_slice()) {
            return entries[i - 1].1;
        }
        i = i - 1;
    }
    0
}

/// Reads one cgroup file as a number.
fn cgroup_value(source: &SourceRead) -> (r: Result<u64, MemInfoError>)
    ensures
        r is Ok <==> cgroup_number(*source) is Ok,
        r matches Ok(v) ==> cgroup_number(*source) == Ok::<u64, bool>(v),
        r matches Err(e) ==> cgroup_number(*source) is Err && (cgroup_number(*source)->Err_0
            ==> e is ParseError) && (!cgroup_number(*source)->Err_0 ==> e is CgroupError),
{
    match source {
        SourceRead::Unavailable(why) => Err(MemInfoError::CgroupError(why.clone())),
        SourceRead::Text(t) => {
            let chars = chars_of(t.as_str());
            let body = trim(chars.as_slice());
            match parse_u64(body.as_slice()) {
                Some(v) => Ok(v),
                None => Err(MemInfoError::ParseError(string_of(body.as_slice()))),
            }
        },
    }
}

} // verus!
