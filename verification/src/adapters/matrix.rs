//! The run of the whole matrix of workloads, as a machine that decides and
//! leaves the doing to its caller.
//!
//! The caller starts a run and gets the first action.  It performs each
//! action and hands back what happened as an event, until the machine says
//! that it is finished:
//!
//! 1. make sure that the directory is there; a failure ends the run with an
//!    error of the environment;
//! 2. probe the tool; a failure ends the run with an error of the tool;
//! 3. for every workload of the catalog, in order, run the tool once.  A
//!    workload that cannot be started or that ends in failure is recorded as
//!    failed, and the run goes on with the next workload.
//!
//! So the run as a whole fails only before the first workload; after that
//! it always ends with one outcome per workload.
//!
//! The machine also says what there is to tell: a message for every action,
//! and at the end a summary with one line per workload, or the one error
//! that ended the run before the first workload.

use crate::adapters::benchmark_adapter::{
    catalog, invocation_of, token_of, BenchmarkAdapter, Invocation, InvocationView, TestConfig,
    TestConfigView,
};
use crate::clock::local_stamp;
use crate::number::{digits_of, u64_to_chars};
use crate::ports::benchmark_port::{BenchmarkError, BenchmarkErrorView, CommandOutcome, ErrorKind};
use crate::ports::log_port::{entry, LogEntry, LogEntryView, LogLevel};
use crate::text::{join, string_of, views};
use vstd::prelude::*;

verus! {

/// How a run of one workload ended.
#[derive(Debug, Clone, Copy, PartialEq, Eq, Structural)]
pub enum RunStatus {
    /// The tool ran and ended with status zero.
    Succeeded,
    /// The tool could not be started.
    SpawnFailed,
    /// The tool ran and ended in failure.
    NonZeroExit,
}

/// The outcome of the run of one workload.
#[derive(Debug, Clone)]
pub struct RunOutcome {
    /// Name of the workload.
    pub name: String,
    /// Path of the result file.
    pub result_file: String,
    /// How the run ended.
    pub status: RunStatus,
    /// Detail of a failure; empty after a success.
    pub detail: String,
    /// How long the run took, in milliseconds.
    pub duration_ms: u64,
}

/// The mathematical model of [`RunOutcome`].
pub struct RunOutcomeView {
    pub name: Seq<char>,
    pub result_file: Seq<char>,
    pub status: RunStatus,
    pub detail: Seq<char>,
    pub duration_ms: u64,
}

impl View for RunOutcome {
    type V = RunOutcomeView;

    open spec fn view(&self) -> RunOutcomeView {
        RunOutcomeView {
            name: self.name@,
            result_file: self.result_file@,
            status: self.status,
            detail: self.detail@,
            duration_ms: self.duration_ms,
        }
    }
}

impl RunOutcome {
    /// Tells whether the run succeeded.
    pub fn is_ok(&self) -> (ok: bool)
        ensures
            ok == (self.status is Succeeded),
    {
        match self.status {
            RunStatus::Succeeded => true,
            _ => false,
        }
    }

    /// The error of a failed run.
    pub fn error(&self) -> (e: Option<BenchmarkError>)
        ensures
            match self.status {
                RunStatus::Succeeded => e is None,
                RunStatus::SpawnFailed => e matches Some(BenchmarkError::Invocation(m)) && m@
                    == self.detail@,
                RunStatus::NonZeroExit => e matches Some(BenchmarkError::NonZeroExit(m)) && m@
                    == self.detail@,
            },
    {
        match self.status {
            RunStatus::Succeeded => None,
            RunStatus::SpawnFailed => Some(BenchmarkError::Invocation(self.detail.clone())),
            RunStatus::NonZeroExit => Some(BenchmarkError::NonZeroExit(self.detail.clone())),
        }
    }
}

/// How running the tool ended.
pub open spec fn status_of(outcome: CommandOutcome) -> RunStatus {
    match outcome {
        CommandOutcome::SpawnFailed(_) => RunStatus::SpawnFailed,
        CommandOutcome::Exited { success, stdout, stderr } => if success {
            RunStatus::Succeeded
        } else {
            RunStatus::NonZeroExit
        },
    }
}

/// The detail of a failure of the tool for a workload.
pub open spec fn detail_of(name: Seq<char>, outcome: CommandOutcome) -> Seq<char> {
    match outcome {
        CommandOutcome::SpawnFailed(why) => "Failed to spawn FIO: "@ + why@,
        CommandOutcome::Exited { success, stdout, stderr } => if success {
            Seq::empty()
        } else {
            name + " failed: "@ + stderr@
        },
    }
}

/// The outcome of a run of a workload.
pub open spec fn outcome_of(run: InvocationView, outcome: CommandOutcome, duration_ms: u64) -> RunOutcomeView {
    RunOutcomeView {
        name: run.name,
        result_file: run.result_file,
        status: status_of(outcome),
        detail: detail_of(run.name, outcome),
        duration_ms,
    }
}

/// Where a run of the matrix stands.
#[derive(Debug, Clone, Copy, PartialEq, Eq, Structural)]
pub enum Phase {
    /// Waiting for the directory.
    Validating,
    /// Waiting for the probe of the tool.
    Probing,
    /// Waiting for the tool to end the workload with this index.
    Running(usize),
    /// Finished.
    Done,
}

/// What happened to the last action.
#[derive(Debug, Clone)]
pub enum RunEvent {
    /// The directory is there.
    DirectoryReady,
    /// The directory could not be made; why.
    DirectoryFailed(String),
    /// The probe of the tool ended.
    Probed(CommandOutcome),
    /// The run of the workload ended.
    Invoked {
        /// How it ended.
        outcome: CommandOutcome,
        /// How long it took, in milliseconds.
        duration_ms: u64,
    },
}

/// What the caller is to do next.
#[derive(Debug, Clone)]
pub enum RunAction {
    /// Make sure that this directory is there.
    EnsureDirectory(String),
    /// Run the tool with these arguments to see that it is there.
    ProbeTool {
        /// The program.
        program: String,
        /// Its arguments.
        args: Vec<String>,
    },
    /// Run the tool for a workload and wait for it to end.
    Invoke(Invocation),
    /// Nothing: the run of the matrix is finished.
    Finish,
}

/// The mathematical model of [`RunAction`].
pub enum RunActionView {
    EnsureDirectory(Seq<char>),
    ProbeTool(Seq<char>, Seq<Seq<char>>),
    Invoke(InvocationView),
    Finish,
}

impl View for RunAction {
    type V = RunActionView;

    open spec fn view(&self) -> RunActionView {
        match *self {
            RunAction::EnsureDirectory(d) => RunActionView::EnsureDirectory(d@),
            RunAction::ProbeTool { program, args } => RunActionView::ProbeTool(
                program@,
                views(args@),
            ),
            RunAction::Invoke(run) => RunActionView::Invoke(run@),
            RunAction::Finish => RunActionView::Finish,
        }
    }
}

/// A run of the matrix of workloads.
#[derive(Debug)]
pub struct MatrixRun {
    phase: Phase,
    catalog: Vec<TestConfig>,
    outcomes: Vec<RunOutcome>,
    current: Option<Invocation>,
    failure: Option<BenchmarkError>,
}

/// The mathematical model of [`MatrixRun`].
pub struct MatrixView {
    pub phase: Phase,
    pub catalog: Seq<TestConfigView>,
    pub outcomes: Seq<RunOutcomeView>,
    pub current: Option<InvocationView>,
    pub failure: Option<BenchmarkErrorView>,
}

impl View for MatrixRun {
    type V = MatrixView;

    closed spec fn view(&self) -> MatrixView {
        MatrixView {
            phase: self.phase,
            catalog: views(self.catalog@),
            outcomes: views(self.outcomes@),
            current: match self.current {
                Some(run) => Some(run@),
                None => None,
            },
            failure: match self.failure {
                Some(e) => Some(e@),
                None => None,
            },
        }
    }
}

impl MatrixView {
    /// A run that waits for the tool has a workload that it waits for, and
    /// one outcome for every workload before that one; a run that has not
    /// come to the workloads has no outcome.
    pub open spec fn wf(self) -> bool {
        match self.phase {
            Phase::Running(i) => i < self.catalog.len() && self.outcomes.len() == i
                && self.current is Some,
            Phase::Done => self.current is None,
            _ => self.outcomes.len() == 0 && self.current is None,
        }
    }

    /// The run as it ends with this failure.
    pub open spec fn failed(self, kind: ErrorKind, detail: Seq<char>) -> MatrixView {
        MatrixView {
            phase: Phase::Done,
            current: None,
            failure: Some(BenchmarkErrorView { kind, detail }),
            ..self
        }
    }
}

/// The run at its start.
pub open spec fn initial(catalog: Seq<TestConfigView>) -> MatrixView {
    MatrixView {
        phase: Phase::Validating,
        catalog,
        outcomes: Seq::empty(),
        current: None,
        failure: None,
    }
}

/// What a step of the machine gives.
pub struct Step {
    /// The run after the step.
    pub run: MatrixView,
    /// What the caller is to do.
    pub action: RunActionView,
    /// The number that the next run of a workload gets.
    pub next_seq: u64,
}

/// The step that turns to the workload with index `i`: the run is finished
/// if there is no such workload; else the tool is invoked for it.  A run
/// whose adapter has used up its numbers ends with an error.
pub open spec fn turn_to(m: MatrixView, i: int, dir: Seq<char>, seq: u64, stamp: Seq<char>) -> Step {
    if !(0 <= i < m.catalog.len()) {
        Step {
            run: MatrixView { phase: Phase::Done, current: None, ..m },
            action: RunActionView::Finish,
            next_seq: seq,
        }
    } else if seq == u64::MAX {
        Step {
            run: m.failed(ErrorKind::Environment, "Run numbers are used up"@),
            action: RunActionView::Finish,
            next_seq: seq,
        }
    } else {
        let run = invocation_of(m.catalog[i], dir, token_of(stamp, seq as nat));
        Step {
            run: MatrixView { phase: Phase::Running(i as usize), current: Some(run), ..m },
            action: RunActionView::Invoke(run),
            next_seq: (seq + 1) as u64,
        }
    }
}

/// The step of the machine: the run `m` of an adapter with directory `dir`
/// and next number `seq` gets `event`, at the local time `stamp`.
pub open spec fn step(m: MatrixView, dir: Seq<char>, seq: u64, event: RunEvent, stamp: Seq<char>) -> Step {
    match (m.phase, event) {
        (Phase::Validating, RunEvent::DirectoryReady) => Step {
            run: MatrixView { phase: Phase::Probing, ..m },
            action: RunActionView::ProbeTool("fio"@, seq!["--version"@]),
            next_seq: seq,
        },
        (Phase::Validating, RunEvent::DirectoryFailed(why)) => Step {
            run: m.failed(
                ErrorKind::Environment,
                "Failed to create benchmark directory "@ + dir + ": "@ + why@,
            ),
            action: RunActionView::Finish,
            next_seq: seq,
        },
        (Phase::Probing, RunEvent::Probed(CommandOutcome::SpawnFailed(why))) => Step {
            run: m.failed(
                ErrorKind::ToolUnavailable,
                "FIO not found. Please install FIO: "@ + why@,
            ),
            action: RunActionView::Finish,
            next_seq: seq,
        },
        (Phase::Probing, RunEvent::Probed(CommandOutcome::Exited { success, stdout, stderr })) => {
            if success {
                turn_to(m, 0, dir, seq, stamp)
            } else {
                Step {
                    run: m.failed(ErrorKind::ToolUnavailable, "FIO check failed: "@ + stderr@),
                    action: RunActionView::Finish,
                    next_seq: seq,
                }
            }
        },
        (Phase::Running(i), RunEvent::Invoked { outcome, duration_ms }) => {
            if m.current is Some && i < m.catalog.len() {
                turn_to(
                    MatrixView {
                        outcomes: m.outcomes.push(outcome_of(m.current->0, outcome, duration_ms)),
                        ..m
                    },
                    i + 1,
                    dir,
                    seq,
                    stamp,
                )
            } else {
                Step {
                    run: m.failed(ErrorKind::Invocation, "Unexpected event"@),
                    action: RunActionView::Finish,
                    next_seq: seq,
                }
            }
        },
        _ => Step {
            run: m.failed(ErrorKind::Invocation, "Unexpected event"@),
            action: RunActionView::Finish,
            next_seq: seq,
        },
    }
}

impl MatrixRun {
    /// Where the run stands.
    pub fn phase(&self) -> (phase: Phase)
        ensures
            phase == self@.phase,
    {
        self.phase
    }

    /// Tells whether the run is finished.
    pub fn is_done(&self) -> (done: bool)
        ensures
            done == (self@.phase is Done),
    {
        match self.phase {
            Phase::Done => true,
            _ => false,
        }
    }

    /// The outcomes so far, one per workload that was run, in the order of
    /// the catalog.
    pub fn outcomes(&self) -> (outcomes: &Vec<RunOutcome>)
        ensures
            views(outcomes@) == self@.outcomes,
    {
        &self.outcomes
    }

    /// The number of workloads that failed so far.
    pub fn failed_count(&self) -> (n: usize)
        ensures
            n == failures(self@.outcomes),
    {
        let mut n: usize = 0;
        let mut i: usize = 0;
        assert(self@.outcomes.take(0) =~= Seq::<RunOutcomeView>::empty());
        while i < self.outcomes.len()
            invariant
                0 <= i <= self.outcomes@.len(),
                n <= i,
                n == failures(views(self.outcomes@).take(i as int)),
            decreases self.outcomes@.len() - i,
        {
            proof {
                let all = views(self.outcomes@);
                assert(all.take(i + 1).drop_last() =~= all.take(i as int));
                assert(all.take(i + 1).last() == self.outcomes@[i as int]@);
            }
            if !self.outcomes[i].is_ok() {
                n = n + 1;
            }
            i = i + 1;
        }
        assert(views(self.outcomes@).take(i as int) =~= views(self.outcomes@));
        n
    }

    /// The result of the run: the error that ended it before the first
    /// workload, or else the outcomes, failed ones among them.
    pub fn result(self) -> (r: Result<Vec<RunOutcome>, BenchmarkError>)
        ensures
            match self@.failure {
                Some(e) => r matches Err(err) && err@ == e,
                None => r matches Ok(outcomes) && views(outcomes@) == self@.outcomes,
            },
    {
        match self.failure {
            Some(e) => Err(e),
            None => Ok(self.outcomes),
        }
    }
}

/// What there is to tell of an action.
pub open spec fn announcement(action: RunActionView) -> LogEntryView {
    match action {
        RunActionView::EnsureDirectory(dir) => entry(
            LogLevel::Debug,
            "Validating benchmark directory "@ + dir,
        ),
        RunActionView::ProbeTool(program, args) => entry(
            LogLevel::Debug,
            "Checking installation of "@ + program,
        ),
        RunActionView::Invoke(run) => entry(
            LogLevel::Info,
            "Running "@ + run.name + " -> "@ + run.result_file,
        ),
        RunActionView::Finish => entry(LogLevel::Info, "All benchmarks completed"@),
    }
}

/// The line of the summary for one workload.
pub open spec fn outcome_line(o: RunOutcomeView) -> LogEntryView {
    if o.status is Succeeded {
        entry(
            LogLevel::Info,
            o.name + ": completed in "@ + digits_of(o.duration_ms as nat) + " ms -> "@
                + o.result_file,
        )
    } else {
        entry(LogLevel::Error, o.name + ": FAILED: "@ + o.detail)
    }
}

/// The summary of a run: the error that ended it before the first workload,
/// or else one line per workload in the order of the catalog and a last
/// line that counts the failures.
pub open spec fn summary_of(m: MatrixView) -> Seq<LogEntryView> {
    match m.failure {
        Some(e) => seq![entry(LogLevel::Error, "Fatal: "@ + e.detail)],
        None => Seq::new(m.outcomes.len(), |i: int| outcome_line(m.outcomes[i])).push(
            entry(
                if failures(m.outcomes) == 0 {
                    LogLevel::Info
                } else {
                    LogLevel::Warn
                },
                digits_of(failures(m.outcomes)) + " of "@ + digits_of(m.outcomes.len())
                    + " workloads failed"@,
            ),
        ),
    }
}

impl RunAction {
    /// What there is to tell of the action.
    pub fn announce(&self) -> (told: LogEntry)
        ensures
            told@ == announcement(self@),
    {
        match self {
            RunAction::EnsureDirectory(dir) => LogEntry {
                level: LogLevel::Debug,
                message: join("Validating benchmark directory ", dir.as_str()),
            },
            RunAction::ProbeTool { program, args } => LogEntry {
                level: LogLevel::Debug,
                message: join("Checking installation of ", program.as_str()),
            },
            RunAction::Invoke(run) => {
                let a = join("Running ", run.name.as_str());
                let b = join(a.as_str(), " -> ");
                LogEntry { level: LogLevel::Info, message: join(b.as_str(), run.result_file.as_str()) }
            },
            RunAction::Finish => LogEntry {
                level: LogLevel::Info,
                message: "All benchmarks completed".to_owned(),
            },
        }
    }
}

impl RunOutcome {
    /// The line of the summary for the workload.
    pub fn summary_line(&self) -> (line: LogEntry)
        ensures
            line@ == outcome_line(self@),
    {
        if self.is_ok() {
            let digits = string_of(u64_to_chars(self.duration_ms).as_slice());
            let a = join(self.name.as_str(), ": completed in ");
            let b = join(a.as_str(), digits.as_str());
            let c = join(b.as_str(), " ms -> ");
            LogEntry { level: LogLevel::Info, message: join(c.as_str(), self.result_file.as_str()) }
        } else {
            let a = join(self.name.as_str(), ": FAILED: ");
            LogEntry { level: LogLevel::Error, message: join(a.as_str(), self.detail.as_str()) }
        }
    }
}

impl MatrixRun {
    /// The summary of the run.
    pub fn summary(&self) -> (lines: Vec<LogEntry>)
        ensures
            views(lines@) == summary_of(self@),
    {
        let mut lines: Vec<LogEntry> = Vec::new();
        match &self.failure {
            Some(e) => {
                let detail = match e {
                    BenchmarkError::Environment(m) => m,
                    BenchmarkError::ToolUnavailable(m) => m,
                    BenchmarkError::Invocation(m) => m,
                    BenchmarkError::NonZeroExit(m) => m,
                };
                lines.push(
                    LogEntry { level: LogLevel::Error, message: join("Fatal: ", detail.as_str()) },
                );
                assert(views(lines@) =~= summary_of(self@));
                lines
            },
            None => {
                let mut i: usize = 0;
                while i < self.outcomes.len()
                    invariant
                        0 <= i <= self.outcomes@.len(),
                        lines@.len() == i,
                        forall|k: int|
                            0 <= k < i ==> (#[trigger] lines@[k])@ == outcome_line(
                                self.outcomes@[k]@,
                            ),
                    decreases self.outcomes@.len() - i,
                {
                    lines.push(self.outcomes[i].summary_line());
                    i = i + 1;
                }
                let failed = self.failed_count();
                let level = if failed == 0 {
                    LogLevel::Info
                } else {
                    LogLevel::Warn
                };
                let a = string_of(u64_to_chars(failed as u64).as_slice());
                let b = join(a.as_str(), " of ");
                let c = string_of(u64_to_chars(self.outcomes.len() as u64).as_slice());
                let d = join(b.as_str(), c.as_str());
                lines.push(LogEntry { level, message: join(d.as_str(), " workloads failed") });
                assert(views(lines@) =~= summary_of(self@));
                lines
            },
        }
    }
}

/// The number of outcomes that are failures.
pub open spec fn failures(outcomes: Seq<RunOutcomeView>) -> nat
    decreases outcomes.len(),
{
    if outcomes.len() == 0 {
        0
    } else {
        failures(outcomes.drop_last()) + if outcomes.last().status is Succeeded {
            0nat
        } else {
            1nat
        }
    }
}

/// The event that the tool has ended a workload.
pub open spec fn invoked(result: (CommandOutcome, u64)) -> RunEvent {
    RunEvent::Invoked { outcome: result.0, duration_ms: result.1 }
}

/// The machine after the tool has ended one workload after the other in the
/// given ways; `stamps` gives the local time of each step.
pub open spec fn after_workloads(
    start: Step,
    dir: Seq<char>,
    results: Seq<(CommandOutcome, u64)>,
    stamps: spec_fn(int) -> Seq<char>,
) -> Step
    decreases results.len(),
{
    if results.len() == 0 {
        start
    } else {
        let before = after_workloads(start, dir, results.drop_last(), stamps);
        step(before.run, dir, before.next_seq, invoked(results.last()), stamps(results.len() as int))
    }
}

/// The run has come to the workload with index `k` and has recorded the
/// workloads before it as the tool ended them.
pub open spec fn recorded_upto(
    s: Step,
    catalog: Seq<TestConfigView>,
    results: Seq<(CommandOutcome, u64)>,
    k: int,
) -> bool {
    &&& s.run.catalog == catalog
    &&& s.run.failure is None
    &&& s.run.outcomes.len() == k
    &&& forall|i: int|
        0 <= i < k ==> (#[trigger] s.run.outcomes[i]).status == status_of(results[i].0)
            && s.run.outcomes[i].name == catalog[i].name && s.run.outcomes[i].duration_ms
            == results[i].1
    &&& if k < catalog.len() {
        s.run.phase == Phase::Running(k as usize) && s.run.current is Some && (s.run.current->0).name
            == catalog[k].name && s.action is Invoke
    } else {
        s.run.phase is Done && s.action is Finish
    }
}

/// One step of the induction behind the law of the matrix.
proof fn lemma_workloads_recorded(
    probed: Step,
    catalog: Seq<TestConfigView>,
    dir: Seq<char>,
    seq: u64,
    results: Seq<(CommandOutcome, u64)>,
    stamps: spec_fn(int) -> Seq<char>,
    k: int,
)
    requires
        catalog.len() <= usize::MAX,
        results.len() == catalog.len(),
        seq + catalog.len() < u64::MAX,
        0 <= k <= catalog.len(),
        recorded_upto(probed, catalog, results, 0),
        probed.next_seq == seq + if catalog.len() > 0 {
            1int
        } else {
            0int
        },
    ensures
        recorded_upto(after_workloads(probed, dir, results.take(k), stamps), catalog, results, k),
        after_workloads(probed, dir, results.take(k), stamps).next_seq == seq + if k
            < catalog.len() {
            k + 1
        } else {
            k
        },
    decreases k,
{
    if k == 0 {
        assert(results.take(0) =~= Seq::<(CommandOutcome, u64)>::empty());
    } else {
        lemma_workloads_recorded(probed, catalog, dir, seq, results, stamps, k - 1);
        assert(results.take(k).drop_last() =~= results.take(k - 1));
        assert(results.take(k).last() == results[k - 1]);
        let before = after_workloads(probed, dir, results.take(k - 1), stamps);
        let after = after_workloads(probed, dir, results.take(k), stamps);
        assert(after == step(before.run, dir, before.next_seq, invoked(results[k - 1]), stamps(k)));
        let grown = before.run.outcomes.push(
            outcome_of(before.run.current->0, results[k - 1].0, results[k - 1].1),
        );
        assert(after.run.outcomes == grown);
        assert forall|i: int| 0 <= i < k implies (#[trigger] after.run.outcomes[i]).status
            == status_of(results[i].0) && after.run.outcomes[i].name == catalog[i].name
            && after.run.outcomes[i].duration_ms == results[i].1 by {
            if i < k - 1 {
                assert(grown[i] == before.run.outcomes[i]);
            }
        }
    }
}

/// Failures of single workloads never end the run of the matrix.  Once the
/// directory is there and the tool has been probed, the machine runs every
/// workload of the catalog, whatever happens to the others: it ends with no
/// error of its own and with one outcome per workload, in the order of the
/// catalog, each saying how the tool ended that workload.
pub proof fn law_matrix_runs_every_workload(
    catalog: Seq<TestConfigView>,
    dir: Seq<char>,
    seq: u64,
    probe: CommandOutcome,
    results: Seq<(CommandOutcome, u64)>,
    stamps: spec_fn(int) -> Seq<char>,
)
    requires
        catalog.len() <= usize::MAX,
        results.len() == catalog.len(),
        seq + catalog.len() < u64::MAX,
        probe matches CommandOutcome::Exited { success, stdout, stderr } && success,
    ensures
        ({
            let ready = step(initial(catalog), dir, seq, RunEvent::DirectoryReady, stamps(0));
            let probed = step(ready.run, dir, ready.next_seq, RunEvent::Probed(probe), stamps(0));
            let end = after_workloads(probed, dir, results, stamps);
            &&& end.run.phase is Done
            &&& end.action is Finish
            &&& end.run.failure is None
            &&& end.run.outcomes.len() == catalog.len()
            &&& forall|i: int|
                0 <= i < catalog.len() ==> (#[trigger] end.run.outcomes[i]).status == status_of(
                    results[i].0,
                ) && end.run.outcomes[i].name == catalog[i].name
        }),
{
    let ready = step(initial(catalog), dir, seq, RunEvent::DirectoryReady, stamps(0));
    let probed = step(ready.run, dir, ready.next_seq, RunEvent::Probed(probe), stamps(0));
    assert(recorded_upto(probed, catalog, results, 0));
    lemma_workloads_recorded(probed, catalog, dir, seq, results, stamps, catalog.len() as int);
    assert(results.take(catalog.len() as int) =~= results);
}

/// A run starts well formed, and every step keeps it so: whenever the
/// machine waits for the tool, it has recorded exactly the workloads before
/// the one that it waits for.
pub proof fn law_steps_keep_runs_well_formed(
    m: MatrixView,
    dir: Seq<char>,
    seq: u64,
    event: RunEvent,
    stamp: Seq<char>,
)
    requires
        m.wf(),
        m.catalog.len() <= usize::MAX,
    ensures
        initial(m.catalog).wf(),
        step(m, dir, seq, event, stamp).run.wf(),
{
}

impl BenchmarkAdapter {
    /// Starts a run of the catalog of workloads.
    pub fn begin(&self) -> (started: (MatrixRun, RunAction))
        ensures
            started.0@ == initial(catalog()),
            started.1@ == RunActionView::EnsureDirectory(self.dir()),
    {
        self.begin_with(BenchmarkAdapter::get_test_configs())
    }

    /// Starts a run of the given workloads.
    pub fn begin_with(&self, catalog: Vec<TestConfig>) -> (started: (MatrixRun, RunAction))
        ensures
            started.0@ == initial(views(catalog@)),
            started.1@ == RunActionView::EnsureDirectory(self.dir()),
    {
        let run = MatrixRun {
            phase: Phase::Validating,
            catalog,
            outcomes: Vec::new(),
            current: None,
            failure: None,
        };
        assert(run@.outcomes =~= Seq::empty());
        (run, RunAction::EnsureDirectory(self.benchmark_dir().to_owned()))
    }

    /// Takes what happened to the last action and says what to do next, at
    /// the given local time.
    pub fn advance_at(&mut self, run: &mut MatrixRun, event: RunEvent, stamp: &str) -> (action:
        RunAction)
        ensures
            final(self).command() == old(self).command(),
            final(self).args() == old(self).args(),
            final(self).dir() == old(self).dir(),
            final(run)@ == step(
                old(run)@,
                old(self).dir(),
                old(self).next_seq(),
                event,
                stamp@,
            ).run,
            action@ == step(
                old(run)@,
                old(self).dir(),
                old(self).next_seq(),
                event,
                stamp@,
            ).action,
            final(self).next_seq() == step(
                old(run)@,
                old(self).dir(),
                old(self).next_seq(),
                event,
                stamp@,
            ).next_seq,
    {
        match (run.phase, event) {
            (Phase::Validating, RunEvent::DirectoryReady) => {
                run.phase = Phase::Probing;
                let mut args: Vec<String> = Vec::new();
                args.push("--version".to_owned());
                let action = RunAction::ProbeTool { program: "fio".to_owned(), args };
                assert(views(args@) =~= seq!["--version"@]);
                action
            },
            (Phase::Validating, RunEvent::DirectoryFailed(why)) => {
                let a = join("Failed to create benchmark directory ", self.benchmark_dir());
                let b = join(a.as_str(), ": ");
                fail(run, BenchmarkError::Environment(join(b.as_str(), why.as_str())))
            },
            (Phase::Probing, RunEvent::Probed(CommandOutcome::SpawnFailed(why))) => {
                fail(
                    run,
                    BenchmarkError::ToolUnavailable(
                        join("FIO not found. Please install FIO: ", why.as_str()),
                    ),
                )
            },
            (
                Phase::Probing,
                RunEvent::Probed(CommandOutcome::Exited { success, stdout, stderr }),
            ) => {
                if success {
                    self.turn(run, 0, stamp)
                } else {
                    fail(
                        run,
                        BenchmarkError::ToolUnavailable(join("FIO check failed: ", stderr.as_str())),
                    )
                }
            },
            (Phase::Running(i), RunEvent::Invoked { outcome, duration_ms }) => {
                if i < run.catalog.len() {
                    let current = run.current.take();
                    match current {
                        Some(done) => {
                            let ghost before = run@.outcomes;
                            let recorded = record(done, outcome, duration_ms);
                            run.outcomes.push(recorded);
                            assert(run@.outcomes =~= before.push(recorded@));
                            self.turn(run, i + 1, stamp)
                        },
                        None => fail(
                            run,
                            BenchmarkError::Invocation("Unexpected event".to_owned()),
                        ),
                    }
                } else {
                    fail(run, BenchmarkError::Invocation("Unexpected event".to_owned()))
                }
            },
            _ => fail(run, BenchmarkError::Invocation("Unexpected event".to_owned())),
        }
    }

    /// Takes what happened to the last action and says what to do next.
    /// The local time of the step is read from the clock, so two steps on
    /// equal runs may name their files differently; all else is as
    /// [`BenchmarkAdapter::advance_at`] says for some time.
    pub fn advance(&mut self, run: &mut MatrixRun, event: RunEvent) -> (action: RunAction)
        ensures
            final(self).command() == old(self).command(),
            final(self).args() == old(self).args(),
            final(self).dir() == old(self).dir(),
            exists|stamp: Seq<char>|
                {
                    let s = #[trigger] step(
                        old(run)@,
                        old(self).dir(),
                        old(self).next_seq(),
                        event,
                        stamp,
                    );
                    final(run)@ == s.run && action@ == s.action && final(self).next_seq()
                        == s.next_seq
                },
    {
        let stamp = local_stamp("%Y%m%d_%H%M%S");
        let ghost before = run@;
        let ghost ev = event;
        let ghost dir = self.dir();
        let ghost seq = self.next_seq();
        let action = self.advance_at(run, event, stamp.as_str());
        proof {
            let s = step(before, dir, seq, ev, stamp@);
            assert(run@ == s.run && action@ == s.action && self.next_seq() == s.next_seq);
        }
        action
    }

    /// Turns to the workload with index `i`.
    fn turn(&mut self, run: &mut MatrixRun, i: usize, stamp: &str) -> (action: RunAction)
        ensures
            final(self).command() == old(self).command(),
            final(self).args() == old(self).args(),
            final(self).dir() == old(self).dir(),
            final(run)@ == turn_to(
                old(run)@,
                i as int,
                old(self).dir(),
                old(self).next_seq(),
                stamp@,
            ).run,
            action@ == turn_to(
                old(run)@,
                i as int,
                old(self).dir(),
                old(self).next_seq(),
                stamp@,
            ).action,
            final(self).next_seq() == turn_to(
                old(run)@,
                i as int,
                old(self).dir(),
                old(self).next_seq(),
                stamp@,
            ).next_seq,
    {
        if i >= run.catalog.len() {
            run.phase = Phase::Done;
            run.current = None;
            return RunAction::Finish;
        }
        proof {
            assert(views(run.catalog@)[i as int] == run.catalog@[i as int]@);
        }
        match self.prepare_run(&run.catalog[i], stamp) {
            Some(next) => {
                run.phase = Phase::Running(i);
                run.current = Some(next.clone_invocation());
                RunAction::Invoke(next)
            },
            None => fail(run, BenchmarkError::Environment("Run numbers are used up".to_owned())),
        }
    }
}

impl Invocation {
    /// A copy of the run.
    pub fn clone_invocation(&self) -> (copy: Invocation)
        ensures
            copy@ == self@,
    {
        let mut args: Vec<String> = Vec::new();
        let mut i: usize = 0;
        while i < self.args.len()
            invariant
                0 <= i <= self.args@.len(),
                args@.len() == i,
                forall|k: int| 0 <= k < i ==> (#[trigger] args@[k])@ == self.args@[k]@,
            decreases self.args@.len() - i,
        {
            args.push(self.args[i].clone());
            i = i + 1;
        }
        assert(views(args@) =~= views(self.args@));
        Invocation {
            name: self.name.clone(),
            program: self.program.clone(),
            args,
            scratch_file: self.scratch_file.clone(),
            result_file: self.result_file.clone(),
        }
    }
}

/// Ends a run with a failure.
fn fail(run: &mut MatrixRun, error: BenchmarkError) -> (action: RunAction)
    ensures
        final(run)@ == old(run)@.failed(error@.kind, error@.detail),
        action@ == RunActionView::Finish,
{
    run.phase = Phase::Done;
    run.current = None;
    run.failure = Some(error);
    RunAction::Finish
}

/// Makes the outcome of a run of a workload.
fn record(run: Invocation, outcome: CommandOutcome, duration_ms: u64) -> (recorded: RunOutcome)
    ensures
        recorded@ == outcome_of(run@, outcome, duration_ms),
{
    match outcome {
        CommandOutcome::SpawnFailed(why) => RunOutcome {
            name: run.name,
            result_file: run.result_file,
            status: RunStatus::SpawnFailed,
            detail: join("Failed to spawn FIO: ", why.as_str()),
            duration_ms,
        },
        CommandOutcome::Exited { success, stdout, stderr } => {
            if success {
                RunOutcome {
                    name: run.name,
                    result_file: run.result_file,
                    status: RunStatus::Succeeded,
                    detail: String::new(),
                    duration_ms,
                }
            } else {
                let head = join(run.name.as_str(), " failed: ");
                let detail = join(head.as_str(), stderr.as_str());
                RunOutcome {
                    name: run.name,
                    result_file: run.result_file,
                    status: RunStatus::NonZeroExit,
                    detail,
                    duration_ms,
                }
            }
        },
    }
}

} // verus!
