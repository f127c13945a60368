//! Configuration of jobs of the I/O generator `fio` and of their targets.

use vstd::prelude::*;

verus! {

/// I/O engine of a job.
#[derive(Debug, Clone)]
pub enum IoEngine {
    /// Synchronous reads and writes.
    Sync,
    /// Positioned synchronous reads and writes.
    Psync,
    /// Linux native asynchronous I/O.
    Libaio,
    /// Linux `io_uring`.
    IoUring,
    /// An engine loaded from the given object file.
    External(String),
    /// Any other engine.
    Other,
}

/// I/O pattern of a job.
#[derive(Debug, Clone, Copy, PartialEq, Eq, Structural)]
pub enum IoPattern {
    /// Sequential reads.
    Read,
    /// Sequential writes.
    Write,
    /// Random reads.
    RandRead,
    /// Random writes.
    RandWrite,
    /// Random reads and writes, mixed.
    RandRW,
    /// Sequential trims.
    Trim,
}

impl IoPattern {
    /// The name of the pattern in the tool's `--rw` option.
    pub open spec fn name(self) -> Seq<char> {
        match self {
            IoPattern::Read => "read"@,
            IoPattern::Write => "write"@,
            IoPattern::RandRead => "randread"@,
            IoPattern::RandWrite => "randwrite"@,
            IoPattern::RandRW => "randrw"@,
            IoPattern::Trim => "trim"@,
        }
    }

    /// The pattern accesses the target at random offsets.
    pub open spec fn random(self) -> bool {
        self is RandRead || self is RandWrite || self is RandRW
    }

    /// The pattern mixes reads and writes, and so takes a read percentage.
    pub open spec fn mixed(self) -> bool {
        self is RandRW
    }

    /// The name of the pattern in the tool's `--rw` option.
    pub fn fio_name(&self) -> (name: &'static str)
        ensures
            name@ == self.name(),
    {
        match self {
            IoPattern::Read => "read",
            IoPattern::Write => "write",
            IoPattern::RandRead => "randread",
            IoPattern::RandWrite => "randwrite",
            IoPattern::RandRW => "randrw",
            IoPattern::Trim => "trim",
        }
    }

    /// Tells whether the pattern accesses the target at random offsets.
    pub fn is_random(&self) -> (b: bool)
        ensures
            b == self.random(),
    {
        match self {
            IoPattern::RandRead | IoPattern::RandWrite | IoPattern::RandRW => true,
            _ => false,
        }
    }

    /// Tells whether the pattern mixes reads and writes.
    pub fn is_mixed(&self) -> (b: bool)
        ensures
            b == self.mixed(),
    {
        match self {
            IoPattern::RandRW => true,
            _ => false,
        }
    }
}

/// One job of the I/O generator.
#[derive(Debug, Clone)]
pub struct FioJobConfig {
    /// I/O engine.
    pub ioengine: IoEngine,
    /// I/O pattern.
    pub rw: IoPattern,
    /// Block size, as the tool takes it (`4k`, `1M`).
    pub bs: String,
    /// Size of the file or device region, as the tool takes it.
    pub size: String,
    /// Number of concurrent jobs.
    pub numjobs: u32,
    /// Depth of the I/O queue.
    pub iodepth: u32,
    /// Bypass the page cache.
    pub direct: bool,
    /// Use buffered I/O.
    pub buffered: bool,
    /// Percentage of reads, for a mixed pattern.
    pub rwmixread: Option<u32>,
    /// Further options by name.
    pub extra_options: Vec<(String, String)>,
}

impl FioJobConfig {
    /// The job has the engine, pattern and direct flag given, the sizes and
    /// counts given, and nothing else set.
    pub open spec fn is_job(
        self,
        libaio: bool,
        rw: IoPattern,
        bs: Seq<char>,
        size: Seq<char>,
        numjobs: u32,
        iodepth: u32,
        direct: bool,
    ) -> bool {
        &&& (if libaio {
            self.ioengine is Libaio
        } else {
            self.ioengine is Sync
        })
        &&& self.rw == rw
        &&& self.bs@ == bs
        &&& self.size@ == size
        &&& self.numjobs == numjobs
        &&& self.iodepth == iodepth
        &&& self.direct == direct
        &&& self.buffered
        &&& self.rwmixread is None
        &&& self.extra_options@.len() == 0
    }

    /// A job of sequential reads through `libaio`, bypassing the page cache.
    pub fn new_sequential_read(bs: &str, size: &str, numjobs: u32, iodepth: u32) -> (job: Self)
        ensures
            job.is_job(true, IoPattern::Read, bs@, size@, numjobs, iodepth, true),
    {
        FioJobConfig {
            ioengine: IoEngine::Libaio,
            rw: IoPattern::Read,
            bs: bs.to_owned(),
            size: size.to_owned(),
            numjobs,
            iodepth,
            direct: true,
            buffered: true,
            rwmixread: None,
            extra_options: Vec::new(),
        }
    }

    /// A job of random writes through `libaio`, bypassing the page cache.
    pub fn new_random_write(bs: &str, size: &str, numjobs: u32, iodepth: u32) -> (job: Self)
        ensures
            job.is_job(true, IoPattern::RandWrite, bs@, size@, numjobs, iodepth, true),
    {
        FioJobConfig {
            ioengine: IoEngine::Libaio,
            rw: IoPattern::RandWrite,
            bs: bs.to_owned(),
            size: size.to_owned(),
            numjobs,
            iodepth,
            direct: true,
            buffered: true,
            rwmixread: None,
            extra_options: Vec::new(),
        }
    }
}

impl Default for FioJobConfig {
    /// One synchronous, buffered job of sequential reads of 1G in blocks of
    /// 4k.
    fn default() -> (job: Self)
        ensures
            job.is_job(false, IoPattern::Read, "4k"@, "1G"@, 1, 1, false),
    {
        FioJobConfig {
            ioengine: IoEngine::Sync,
            rw: IoPattern::Read,
            bs: "4k".to_owned(),
            size: "1G".to_owned(),
            numjobs: 1,
            iodepth: 1,
            direct: false,
            buffered: true,
            rwmixread: None,
            extra_options: Vec::new(),
        }
    }
}

/// What a job runs against.
#[derive(Debug, Clone)]
pub struct StorageTarget {
    /// Path of the file, device or directory.
    pub path: String,
    /// Kind of target: `file`, `device` or `directory`.
    pub target_type: String,
    /// Options of the target by name.
    pub options: Vec<(String, String)>,
}

impl StorageTarget {
    /// A target that is a file.  Without options it has none.
    pub fn new_file(path: &str, options: Option<Vec<(String, String)>>) -> (target: Self)
        ensures
            target.path@ == path@,
            target.target_type@ == "file"@,
            match options {
                Some(o) => target.options == o,
                None => target.options@.len() == 0,
            },
    {
        StorageTarget {
            path: path.to_owned(),
            target_type: "file".to_owned(),
            options: match options {
                Some(o) => o,
                None => Vec::new(),
            },
        }
    }

    /// A target that is a device.  Without options it has none.
    pub fn new_device(path: &str, options: Option<Vec<(String, String)>>) -> (target: Self)
        ensures
            target.path@ == path@,
            target.target_type@ == "device"@,
            match options {
                Some(o) => target.options == o,
                None => target.options@.len() == 0,
            },
    {
        StorageTarget {
            path: path.to_owned(),
            target_type: "device".to_owned(),
            options: match options {
                Some(o) => o,
                None => Vec::new(),
            },
        }
    }
}

} // verus!
