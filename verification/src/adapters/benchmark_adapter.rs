//! The storage benchmark: its catalog of workloads, the names of its
//! artifacts, the arguments of the tool, and what the tool's answers mean.
//!
//! | Workload                      | Reads / writes | `--rw`, `--rwmixread` |
//! |-------------------------------|----------------|------------------------|
//! | AI training                   | 95 / 5         | `randrw`, 95           |
//! | AI checkpoint burst           | 10 / 90        | `randrw`, 10           |
//! | AI pipeline aggregate         | 48 / 52        | `randrw`, 48           |
//! | AI feature-store ingest       | 20 / 80        | `randrw`, 20           |
//! | AI real-time inference        | 99 / 1         | `randrw`, 99           |
//!
//! A new workload is a new entry of the catalog and nothing else.
//!
//! Every run has a token: the local time of its start and the number of the
//! run within this adapter.  The scratch file and the result file of a run
//! carry its name and its token, so no two runs of one adapter share a file,
//! whatever the clock says.

use crate::domain::storage::fio::IoPattern;
use crate::number::{digits_of, is_digit, lemma_digits_of_value, u64_to_chars};
use crate::ports::benchmark_port::{BenchmarkError, CommandOutcome};
use crate::text::{
    chars_of, join, lemma_tail_run_len_is, string_of, views, CharClass,
};
use vstd::prelude::*;

verus! {

/// One workload of the catalog.
#[derive(Debug, Clone)]
pub struct TestConfig {
    /// I/O pattern.
    pub rw_type: IoPattern,
    /// Percentage of reads, for a mixed pattern.
    pub rwmixread: Option<u8>,
    /// Name, unique in the catalog.
    pub name: String,
}

/// The mathematical model of [`TestConfig`].
pub struct TestConfigView {
    pub rw_type: IoPattern,
    pub rwmixread: Option<u8>,
    pub name: Seq<char>,
}

impl View for TestConfig {
    type V = TestConfigView;

    open spec fn view(&self) -> TestConfigView {
        TestConfigView { rw_type: self.rw_type, rwmixread: self.rwmixread, name: self.name@ }
    }
}

impl TestConfigView {
    /// A mixed pattern has a percentage of reads, no other pattern has one,
    /// and a percentage is at most 100.
    pub open spec fn wf(self) -> bool {
        &&& self.rw_type.mixed() <==> self.rwmixread is Some
        &&& self.rwmixread matches Some(m) ==> m <= 100
    }
}

impl TestConfig {
    /// A workload, if the pattern and the percentage of reads fit together:
    /// a mixed pattern with a percentage of at most 100, or another pattern
    /// without one.
    pub fn new(name: &str, rw_type: IoPattern, rwmixread: Option<u8>) -> (config: Option<
        TestConfig,
    >)
        ensures
            config is Some <==> (TestConfigView { rw_type, rwmixread, name: name@ }).wf(),
            config matches Some(c) ==> c@ == (TestConfigView { rw_type, rwmixread, name: name@ }),
    {
        let fits = match rwmixread {
            Some(m) => rw_type.is_mixed() && m <= 100,
            None => !rw_type.is_mixed(),
        };
        if fits {
            Some(TestConfig { rw_type, rwmixread, name: name.to_owned() })
        } else {
            None
        }
    }

    /// Tells whether the pattern and the percentage of reads fit together.
    pub fn is_valid(&self) -> (valid: bool)
        ensures
            valid == self@.wf(),
    {
        match self.rwmixread {
            Some(m) => self.rw_type.is_mixed() && m <= 100,
            None => !self.rw_type.is_mixed(),
        }
    }
}

/// An entry of the catalog: a mixed random workload.
pub open spec fn mix(name: Seq<char>, reads: u8) -> TestConfigView {
    TestConfigView { rw_type: IoPattern::RandRW, rwmixread: Some(reads), name }
}

/// The catalog of workloads, in the order in which they run.
pub open spec fn catalog() -> Seq<TestConfigView> {
    seq![
        mix("ai_train_95r_5w"@, 95),
        mix("ai_checkpoint_10r_90w"@, 10),
        mix("ai_pipeline_48r_52w"@, 48),
        mix("ai_feature_ingest_20r_80w"@, 20),
        mix("ai_inference_99r_1w"@, 99),
    ]
}

/// Every entry of the catalog is well formed: its percentage of reads is
/// between 0 and 100, and it has one exactly if its pattern is mixed.
pub proof fn law_catalog_well_formed()
    ensures
        forall|i: int| 0 <= i < catalog().len() ==> (#[trigger] catalog()[i]).wf(),
        forall|i: int|
            0 <= i < catalog().len() ==> ((#[trigger] catalog()[i]).rwmixread matches Some(m)
                ==> 0 <= m <= 100),
{
}

/// No two entries of the catalog share a name.
pub proof fn law_catalog_names_distinct()
    ensures
        forall|i: int, j: int|
            0 <= i < j < catalog().len() ==> (#[trigger] catalog()[i]).name != (
            #[trigger] catalog()[j]).name,
{
    reveal_strlit("ai_train_95r_5w");
    reveal_strlit("ai_checkpoint_10r_90w");
    reveal_strlit("ai_pipeline_48r_52w");
    reveal_strlit("ai_feature_ingest_20r_80w");
    reveal_strlit("ai_inference_99r_1w");
    assert("ai_pipeline_48r_52w"@[3] != "ai_inference_99r_1w"@[3]);
    assert forall|i: int, j: int| 0 <= i < j < catalog().len() implies (#[trigger] catalog()[i]).name
        != (#[trigger] catalog()[j]).name by {
        if catalog()[i].name.len() == catalog()[j].name.len() {
            assert(i == 2 && j == 4);
        }
    }
}

/// The token of a run: the stamp of its start, `_`, and its number.
pub open spec fn token_of(stamp: Seq<char>, seq: nat) -> Seq<char> {
    stamp + "_"@ + digits_of(seq)
}

/// The name of the scratch file of a run.
pub open spec fn scratch_name(name: Seq<char>, token: Seq<char>) -> Seq<char> {
    "fio_"@ + name + "_"@ + token + ".dat"@
}

/// The name of the result file of a run.
pub open spec fn result_name(name: Seq<char>, token: Seq<char>) -> Seq<char> {
    "results_"@ + name + "_"@ + token + ".json"@
}

/// The path of a file in a directory: the two joined by one `/`, but for an
/// empty directory, which gives the file alone.
pub open spec fn path_in(dir: Seq<char>, file: Seq<char>) -> Seq<char> {
    if dir.len() == 0 {
        file
    } else if dir.last() == '/' {
        dir + file
    } else {
        dir + "/"@ + file
    }
}

/// Texts that end in different numbers after a `_`, and then in the same
/// extension, differ.
pub proof fn lemma_numbered_differ(
    p1: Seq<char>,
    n1: nat,
    p2: Seq<char>,
    n2: nat,
    ext: Seq<char>,
)
    requires
        p1.len() > 0 && p1.last() == '_',
        p2.len() > 0 && p2.last() == '_',
        n1 != n2,
    ensures
        p1 + digits_of(n1) + ext != p2 + digits_of(n2) + ext,
{
    let d1 = digits_of(n1);
    let d2 = digits_of(n2);
    let x1 = p1 + d1;
    let x2 = p2 + d2;
    lemma_digits_of_value(n1);
    lemma_digits_of_value(n2);
    if x1 + ext == x2 + ext {
        assert((x1 + ext).len() == x1.len() + ext.len());
        assert((x2 + ext).len() == x2.len() + ext.len());
        assert(x1.len() == x2.len());
        assert(x1 =~= (x1 + ext).take(x1.len() as int));
        assert(x2 =~= (x2 + ext).take(x2.len() as int));
        assert(x1 == x2);
        assert forall|k: int| x1.len() - d1.len() <= k < x1.len() implies CharClass::Digit.has(
            #[trigger] x1[k],
        ) by {
            assert(x1[k] == d1[k - p1.len()]);
            assert(is_digit(d1[k - p1.len()]));
        }
        assert(x1[x1.len() - d1.len() - 1] == p1.last());
        lemma_tail_run_len_is(x1, CharClass::Digit, d1.len() as int);
        assert forall|k: int| x2.len() - d2.len() <= k < x2.len() implies CharClass::Digit.has(
            #[trigger] x2[k],
        ) by {
            assert(x2[k] == d2[k - p2.len()]);
            assert(is_digit(d2[k - p2.len()]));
        }
        assert(x2[x2.len() - d2.len() - 1] == p2.last());
        lemma_tail_run_len_is(x2, CharClass::Digit, d2.len() as int);
        assert(d1.len() == d2.len());
        assert(d1 =~= x1.skip(x1.len() - d1.len()));
        assert(d2 =~= x2.skip(x2.len() - d2.len()));
        assert(d1 == d2);
        assert(false);
    }
}

/// Runs with different numbers have different result files and different
/// scratch files, whatever their names and the stamps of their start: no
/// two runs of one adapter overwrite each other's artifacts, even within
/// one second.
pub proof fn law_artifact_names_differ(
    name1: Seq<char>,
    stamp1: Seq<char>,
    seq1: nat,
    name2: Seq<char>,
    stamp2: Seq<char>,
    seq2: nat,
)
    requires
        seq1 != seq2,
    ensures
        result_name(name1, token_of(stamp1, seq1)) != result_name(name2, token_of(stamp2, seq2)),
        scratch_name(name1, token_of(stamp1, seq1)) != scratch_name(name2, token_of(stamp2, seq2)),
{
    reveal_strlit("_");
    let r1 = "results_"@ + name1 + "_"@ + stamp1 + "_"@;
    let r2 = "results_"@ + name2 + "_"@ + stamp2 + "_"@;
    lemma_numbered_differ(r1, seq1, r2, seq2, ".json"@);
    assert(result_name(name1, token_of(stamp1, seq1)) =~= r1 + digits_of(seq1) + ".json"@);
    assert(result_name(name2, token_of(stamp2, seq2)) =~= r2 + digits_of(seq2) + ".json"@);
    let s1 = "fio_"@ + name1 + "_"@ + stamp1 + "_"@;
    let s2 = "fio_"@ + name2 + "_"@ + stamp2 + "_"@;
    lemma_numbered_differ(s1, seq1, s2, seq2, ".dat"@);
    assert(scratch_name(name1, token_of(stamp1, seq1)) =~= s1 + digits_of(seq1) + ".dat"@);
    assert(scratch_name(name2, token_of(stamp2, seq2)) =~= s2 + digits_of(seq2) + ".dat"@);
}

/// Different files of one directory have different paths.
pub proof fn law_paths_differ(dir: Seq<char>, file1: Seq<char>, file2: Seq<char>)
    requires
        file1 != file2,
    ensures
        path_in(dir, file1) != path_in(dir, file2),
{
    if path_in(dir, file1) == path_in(dir, file2) {
        if dir.len() == 0 {
        } else if dir.last() == '/' {
            assert(file1 =~= (dir + file1).skip(dir.len() as int));
            assert(file2 =~= (dir + file2).skip(dir.len() as int));
        } else {
            let d = dir + "/"@;
            assert(file1 =~= (d + file1).skip(d.len() as int));
            assert(file2 =~= (d + file2).skip(d.len() as int));
        }
    }
}

/// The arguments of the tool for a workload with the given scratch and
/// result files: `io_uring` engine, direct I/O, small blocks for a random
/// pattern and large ones for a sequential one, sixteen jobs with a queue of
/// 128 each, a run bounded by time, output as JSON into the result file, and
/// the percentage of reads where the workload has one.
pub open spec fn fio_args(config: TestConfigView, scratch: Seq<char>, result: Seq<char>) -> Seq<
    Seq<char>,
> {
    seq![
        "--filename="@ + scratch,
        "--ioengine=uring"@,
        "--direct=1"@,
        "--rw="@ + config.rw_type.name(),
        if config.rw_type.random() {
            "--bs=4k"@
        } else {
            "--bs=1M"@
        },
        "--size=256G"@,
        "--numjobs=16"@,
        "--iodepth=128"@,
        "--runtime=600"@,
        "--time_based"@,
        "--group_reporting"@,
        "--name=fio_"@ + config.name + "_nvme"@,
        "--output-format=json"@,
        "--output="@ + result,
    ] + (match config.rwmixread {
        Some(m) => seq!["--rwmixread="@ + digits_of(m as nat)],
        None => Seq::empty(),
    })
}

/// The arguments with which a new adapter for the tool probes it.
pub open spec fn default_fio_args(dir: Seq<char>) -> Seq<Seq<char>> {
    seq![
        "--name=test"@,
        "--ioengine=libaio"@,
        "--rw=randread"@,
        "--bs=4k"@,
        "--size=1G"@,
        "--numjobs=1"@,
        "--group_reporting"@,
        "--output-format=json"@,
        "--filename="@ + dir + "/testfile"@,
    ]
}

/// What the output of a command looks like in a message.
pub open spec fn formatted(output: Seq<char>, is_error: bool) -> Seq<char> {
    if is_error {
        "Error output: "@ + output
    } else {
        "Command output: "@ + output
    }
}

/// One run that is ready to start.
#[derive(Debug, Clone)]
pub struct Invocation {
    /// Name of the workload.
    pub name: String,
    /// The program to run.
    pub program: String,
    /// Its arguments.
    pub args: Vec<String>,
    /// Path of the scratch file.
    pub scratch_file: String,
    /// Path of the result file.
    pub result_file: String,
}

/// The mathematical model of [`Invocation`].
pub struct InvocationView {
    pub name: Seq<char>,
    pub program: Seq<char>,
    pub args: Seq<Seq<char>>,
    pub scratch_file: Seq<char>,
    pub result_file: Seq<char>,
}

impl View for Invocation {
    type V = InvocationView;

    open spec fn view(&self) -> InvocationView {
        InvocationView {
            name: self.name@,
            program: self.program@,
            args: views(self.args@),
            scratch_file: self.scratch_file@,
            result_file: self.result_file@,
        }
    }
}

/// The run of a workload in a directory with a token.
pub open spec fn invocation_of(config: TestConfigView, dir: Seq<char>, token: Seq<char>) -> InvocationView {
    let scratch = path_in(dir, scratch_name(config.name, token));
    let result = path_in(dir, result_name(config.name, token));
    InvocationView {
        name: config.name,
        program: "fio"@,
        args: fio_args(config, scratch, result),
        scratch_file: scratch,
        result_file: result,
    }
}

/// Two runs in one directory with different numbers share neither their
/// result file nor their scratch file, whatever their workloads and the
/// stamps of their start.
pub proof fn law_runs_never_share_files(
    dir: Seq<char>,
    config1: TestConfigView,
    stamp1: Seq<char>,
    seq1: nat,
    config2: TestConfigView,
    stamp2: Seq<char>,
    seq2: nat,
)
    requires
        seq1 != seq2,
    ensures
        invocation_of(config1, dir, token_of(stamp1, seq1)).result_file != invocation_of(
            config2,
            dir,
            token_of(stamp2, seq2),
        ).result_file,
        invocation_of(config1, dir, token_of(stamp1, seq1)).scratch_file != invocation_of(
            config2,
            dir,
            token_of(stamp2, seq2),
        ).scratch_file,
{
    let t1 = token_of(stamp1, seq1);
    let t2 = token_of(stamp2, seq2);
    law_artifact_names_differ(config1.name, stamp1, seq1, config2.name, stamp2, seq2);
    law_paths_differ(dir, result_name(config1.name, t1), result_name(config2.name, t2));
    law_paths_differ(dir, scratch_name(config1.name, t1), scratch_name(config2.name, t2));
}

/// Runner of the storage benchmark.
#[derive(Debug)]
pub struct BenchmarkAdapter {
    command: String,
    args: Vec<String>,
    benchmark_dir: String,
    next_seq: u64,
}

impl BenchmarkAdapter {
    /// The command of the adapter.
    pub closed spec fn command(&self) -> Seq<char> {
        self.command@
    }

    /// The arguments of the adapter.
    pub closed spec fn args(&self) -> Seq<Seq<char>> {
        views(self.args@)
    }

    /// The directory of the scratch and result files.
    pub closed spec fn dir(&self) -> Seq<char> {
        self.benchmark_dir@
    }

    /// The number that the next run gets.
    pub closed spec fn next_seq(&self) -> u64 {
        self.next_seq
    }

    /// The catalog of workloads.
    pub fn get_test_configs() -> (configs: Vec<TestConfig>)
        ensures
            views(configs@) == catalog(),
    {
        let mut configs: Vec<TestConfig> = Vec::new();
        configs.push(
            TestConfig {
                rw_type: IoPattern::RandRW,
                rwmixread: Some(95),
                name: "ai_train_95r_5w".to_owned(),
            },
        );
        configs.push(
            TestConfig {
                rw_type: IoPattern::RandRW,
                rwmixread: Some(10),
                name: "ai_checkpoint_10r_90w".to_owned(),
            },
        );
        configs.push(
            TestConfig {
                rw_type: IoPattern::RandRW,
                rwmixread: Some(48),
                name: "ai_pipeline_48r_52w".to_owned(),
            },
        );
        configs.push(
            TestConfig {
                rw_type: IoPattern::RandRW,
                rwmixread: Some(20),
                name: "ai_feature_ingest_20r_80w".to_owned(),
            },
        );
        configs.push(
            TestConfig {
                rw_type: IoPattern::RandRW,
                rwmixread: Some(99),
                name: "ai_inference_99r_1w".to_owned(),
            },
        );
        assert(views(configs@) =~= catalog());
        configs
    }

    /// An adapter for a command, with its files in the directory
    /// `benchmark` of the given working directory.
    pub fn new(command: String, args: Vec<String>, working_dir: &str) -> (adapter: Self)
        ensures
            adapter.command() == command@,
            adapter.args() == views(args@),
            adapter.dir() == path_in(working_dir@, "benchmark"@),
            adapter.next_seq() == 0,
    {
        BenchmarkAdapter {
            command,
            args,
            benchmark_dir: join_path(working_dir, "benchmark"),
            next_seq: 0,
        }
    }

    /// An adapter for `fio` with the default arguments of a probe run, with
    /// its files in the directory `benchmark` of the given working
    /// directory.
    pub fn new_fio(working_dir: &str) -> (adapter: Self)
        ensures
            adapter.command() == "fio"@,
            adapter.dir() == path_in(working_dir@, "benchmark"@),
            adapter.args() == default_fio_args(adapter.dir()),
            adapter.next_seq() == 0,
    {
        let benchmark_dir = join_path(working_dir, "benchmark");
        let mut args: Vec<String> = Vec::new();
        args.push("--name=test".to_owned());
        args.push("--ioengine=libaio".to_owned());
        args.push("--rw=randread".to_owned());
        args.push("--bs=4k".to_owned());
        args.push("--size=1G".to_owned());
        args.push("--numjobs=1".to_owned());
        args.push("--group_reporting".to_owned());
        args.push("--output-format=json".to_owned());
        let with_dir = join("--filename=", benchmark_dir.as_str());
        args.push(join(with_dir.as_str(), "/testfile"));
        assert(views(args@) =~= default_fio_args(benchmark_dir@));
        BenchmarkAdapter { command: "fio".to_owned(), args, benchmark_dir, next_seq: 0 }
    }

    /// The directory of the scratch and result files.
    pub fn benchmark_dir(&self) -> (dir: &str)
        ensures
            dir@ == self.dir(),
    {
        self.benchmark_dir.as_str()
    }

    /// The output of a command as it stands in a message.
    pub fn format_output(&self, output: &str, is_error: bool) -> (text: String)
        ensures
            text@ == formatted(output@, is_error),
    {
        if is_error {
            join("Error output: ", output)
        } else {
            join("Command output: ", output)
        }
    }

    /// What the attempt to make the directory means: an error of the
    /// environment where it failed.
    pub fn validate(&self, made: &Result<(), String>) -> (r: Result<(), BenchmarkError>)
        ensures
            made is Ok ==> r is Ok,
            made matches Err(why) ==> r matches Err(BenchmarkError::Environment(m)) && m@
                == "Failed to create benchmark directory "@ + self.dir() + ": "@ + why@,
    {
        match made {
            Ok(_) => Ok(()),
            Err(why) => {
                let a = join("Failed to create benchmark directory ", self.benchmark_dir.as_str());
                let b = join(a.as_str(), ": ");
                Err(BenchmarkError::Environment(join(b.as_str(), why.as_str())))
            },
        }
    }

    /// What the probe of the tool means: the tool is there if it started and
    /// ended with status zero.
    pub fn check_fio_installation(&self, probe: &CommandOutcome) -> (r: Result<
        (),
        BenchmarkError,
    >)
        ensures
            match *probe {
                CommandOutcome::SpawnFailed(why) => r matches Err(
                    BenchmarkError::ToolUnavailable(m),
                ) && m@ == "FIO not found. Please install FIO: "@ + why@,
                CommandOutcome::Exited { success, stdout, stderr } => if success {
                    r is Ok
                } else {
                    r matches Err(BenchmarkError::ToolUnavailable(m)) && m@
                        == "FIO check failed: "@ + stderr@
                },
            },
    {
        match probe {
            CommandOutcome::SpawnFailed(why) => Err(
                BenchmarkError::ToolUnavailable(
                    join("FIO not found. Please install FIO: ", why.as_str()),
                ),
            ),
            CommandOutcome::Exited { success, stdout, stderr } => {
                if *success {
                    Ok(())
                } else {
                    Err(BenchmarkError::ToolUnavailable(join("FIO check failed: ", stderr.as_str())))
                }
            },
        }
    }

    /// What the probe of the tool gives: its version, which is what it
    /// wrote to standard output.
    pub fn run_fio(&self, probe: &CommandOutcome) -> (r: Result<String, BenchmarkError>)
        ensures
            match *probe {
                CommandOutcome::SpawnFailed(why) => r matches Err(
                    BenchmarkError::ToolUnavailable(m),
                ) && m@ == "Failed to execute FIO command: "@ + why@,
                CommandOutcome::Exited { success, stdout, stderr } => if success {
                    r matches Ok(version) && version@ == stdout@
                } else {
                    r matches Err(BenchmarkError::ToolUnavailable(m)) && m@
                        == "Failed to run fio command: "@ + formatted(stderr@, true)
                },
            },
    {
        match probe {
            CommandOutcome::SpawnFailed(why) => Err(
                BenchmarkError::ToolUnavailable(join("Failed to execute FIO command: ", why.as_str())),
            ),
            CommandOutcome::Exited { success, stdout, stderr } => {
                if *success {
                    Ok(stdout.clone())
                } else {
                    let detail = self.format_output(stderr.as_str(), true);
                    Err(
                        BenchmarkError::ToolUnavailable(
                            join("Failed to run fio command: ", detail.as_str()),
                        ),
                    )
                }
            },
        }
    }

    /// What running a command gives: its standard output if it started and
    /// ended with status zero.
    pub fn run_command(&self, ran: &CommandOutcome) -> (r: Result<String, BenchmarkError>)
        ensures
            match *ran {
                CommandOutcome::SpawnFailed(why) => r matches Err(BenchmarkError::Invocation(m))
                    && m@ == "Failed to execute command: "@ + why@,
                CommandOutcome::Exited { success, stdout, stderr } => if success {
                    r matches Ok(out) && out@ == stdout@
                } else {
                    r matches Err(BenchmarkError::NonZeroExit(m)) && m@ == formatted(
                        stderr@,
                        true,
                    )
                },
            },
    {
        match ran {
            CommandOutcome::SpawnFailed(why) => Err(
                BenchmarkError::Invocation(join("Failed to execute command: ", why.as_str())),
            ),
            CommandOutcome::Exited { success, stdout, stderr } => {
                if *success {
                    Ok(stdout.clone())
                } else {
                    Err(BenchmarkError::NonZeroExit(self.format_output(stderr.as_str(), true)))
                }
            },
        }
    }

    /// Prepares the next run: gives it the next number of this adapter and
    /// builds its files and arguments.  The number of an adapter only grows,
    /// so no two runs that it prepares share a number; when the numbers are
    /// used up, no run is prepared.
    pub fn prepare_run(&mut self, config: &TestConfig, stamp: &str) -> (r: Option<Invocation>)
        ensures
            final(self).command() == old(self).command(),
            final(self).args() == old(self).args(),
            final(self).dir() == old(self).dir(),
            r is Some <==> old(self).next_seq() < u64::MAX,
            r matches Some(run) ==> run@ == invocation_of(
                config@,
                old(self).dir(),
                token_of(stamp@, old(self).next_seq() as nat),
            ) && final(self).next_seq() == old(self).next_seq() + 1,
            r is None ==> final(self).next_seq() == old(self).next_seq(),
    {
        if self.next_seq == u64::MAX {
            return None;
        }
        let seq = self.next_seq;
        self.next_seq = seq + 1;
        let token = run_token(stamp, seq);
        let scratch = join_path(
            self.benchmark_dir.as_str(),
            scratch_file_name(config.name.as_str(), token.as_str()).as_str(),
        );
        let result = join_path(
            self.benchmark_dir.as_str(),
            result_file_name(config.name.as_str(), token.as_str()).as_str(),
        );
        let args = build_fio_args(config, scratch.as_str(), result.as_str());
        Some(
            Invocation {
                name: config.name.clone(),
                program: "fio".to_owned(),
                args,
                scratch_file: scratch,
                result_file: result,
            },
        )
    }
}

/// Builds the token of a run.
pub fn run_token(stamp: &str, seq: u64) -> (token: String)
    ensures
        token@ == token_of(stamp@, seq as nat),
{
    let head = join(stamp, "_");
    let digits = string_of(u64_to_chars(seq).as_slice());
    join(head.as_str(), digits.as_str())
}

/// Builds the name of the scratch file of a run.
pub fn scratch_file_name(name: &str, token: &str) -> (file: String)
    ensures
        file@ == scratch_name(name@, token@),
{
    let a = join("fio_", name);
    let b = join(a.as_str(), "_");
    let c = join(b.as_str(), token);
    join(c.as_str(), ".dat")
}

/// Builds the name of the result file of a run.
pub fn result_file_name(name: &str, token: &str) -> (file: String)
    ensures
        file@ == result_name(name@, token@),
{
    let a = join("results_", name);
    let b = join(a.as_str(), "_");
    let c = join(b.as_str(), token);
    join(c.as_str(), ".json")
}

/// Builds the path of a file in a directory.
pub fn join_path(dir: &str, file: &str) -> (path: String)
    ensures
        path@ == path_in(dir@, file@),
{
    let d = chars_of(dir);
    if d.len() == 0 {
        file.to_owned()
    } else if d[d.len() - 1] == '/' {
        join(dir, file)
    } else {
        let with_slash = join(dir, "/");
        join(with_slash.as_str(), file)
    }
}

/// Builds the arguments of the tool for a workload.
pub fn build_fio_args(config: &TestConfig, scratch: &str, result: &str) -> (args: Vec<String>)
    ensures
        views(args@) == fio_args(config@, scratch@, result@),
{
    let mut args: Vec<String> = Vec::new();
    args.push(join("--filename=", scratch));
    args.push("--ioengine=uring".to_owned());
    args.push("--direct=1".to_owned());
    args.push(join("--rw=", config.rw_type.fio_name()));
    if config.rw_type.is_random() {
        args.push("--bs=4k".to_owned());
    } else {
        args.push("--bs=1M".to_owned());
    }
    args.push("--size=256G".to_owned());
    args.push("--numjobs=16".to_owned());
    args.push("--iodepth=128".to_owned());
    args.push("--runtime=600".to_owned());
    args.push("--time_based".to_owned());
    args.push("--group_reporting".to_owned());
    let named = join("--name=fio_", config.name.as_str());
    args.push(join(named.as_str(), "_nvme"));
    args.push("--output-format=json".to_owned());
    args.push(join("--output=", result));
    if let Some(m) = config.rwmixread {
        let digits = string_of(u64_to_chars(m as u64).as_slice());
        args.push(join("--rwmixread=", digits.as_str()));
    }
    assert(views(args@) =~= fio_args(config@, scratch@, result@));
    args
}

} // verus!
