use sysperf_svr::adapters::benchmark_adapter::{
    build_fio_args, join_path, result_file_name, run_token, scratch_file_name, BenchmarkAdapter,
    TestConfig,
};
use sysperf_svr::adapters::database_adapter::DatabaseAdapter;
use sysperf_svr::adapters::matrix::{Phase, RunAction, RunEvent, RunStatus};
use sysperf_svr::cli::{block_sizes, menu_action, menu_options, sweep_config, Cli, CliAction, Commands};
use sysperf_svr::database::{EmbeddedStore, KeyValueStore};
use sysperf_svr::domain::storage::fio::{FioJobConfig, IoEngine, IoPattern, StorageTarget};
use sysperf_svr::ports::benchmark_port::{
    select_tool, BenchmarkError, BenchmarkParams, BenchmarkTool, CommandOutcome, IOType, ToolChoice,
};
use sysperf_svr::ports::log_port::{log_level_for, LogLevel};

fn told(entries: Vec<sysperf_svr::ports::log_port::LogEntry>) -> Vec<(LogLevel, String)> {
    entries.into_iter().map(|e| (e.level, e.message)).collect()
}

fn exited(success: bool, stdout: &str, stderr: &str) -> CommandOutcome {
    CommandOutcome::Exited {
        success,
        stdout: String::from(stdout),
        stderr: String::from(stderr),
    }
}

fn mixed(name: &str, reads: u8) -> TestConfig {
    TestConfig { rw_type: IoPattern::RandRW, rwmixread: Some(reads), name: String::from(name) }
}

#[test]
fn catalog_entries() {
    let configs = BenchmarkAdapter::get_test_configs();
    let names: Vec<&str> = configs.iter().map(|c| c.name.as_str()).collect();
    assert_eq!(
        names,
        vec![
            "ai_train_95r_5w",
            "ai_checkpoint_10r_90w",
            "ai_pipeline_48r_52w",
            "ai_feature_ingest_20r_80w",
            "ai_inference_99r_1w"
        ]
    );
    let mixes: Vec<Option<u8>> = configs.iter().map(|c| c.rwmixread).collect();
    assert_eq!(mixes, vec![Some(95), Some(10), Some(48), Some(20), Some(99)]);
    for c in &configs {
        assert_eq!(c.rw_type, IoPattern::RandRW);
        assert!(c.is_valid());
        assert!(c.rwmixread.unwrap() <= 100);
    }
    for i in 0..names.len() {
        for j in 0..i {
            assert_ne!(names[i], names[j]);
        }
    }
}

#[test]
fn workload_needs_a_fitting_mix() {
    assert!(TestConfig::new("a", IoPattern::RandRW, Some(100)).is_some());
    assert!(TestConfig::new("a", IoPattern::RandRW, Some(0)).is_some());
    assert!(TestConfig::new("a", IoPattern::RandRW, Some(101)).is_none());
    assert!(TestConfig::new("a", IoPattern::RandRW, None).is_none());
    assert!(TestConfig::new("a", IoPattern::Read, Some(50)).is_none());
    let read = TestConfig::new("seq", IoPattern::Read, None).unwrap();
    assert_eq!(read.name, "seq");
    assert!(read.is_valid());
}

#[test]
fn artifact_names() {
    assert_eq!(run_token("20250425_120000", 0), "20250425_120000_0");
    assert_eq!(run_token("20250425_120000", 1234567890123), "20250425_120000_1234567890123");
    assert_eq!(run_token("s", u64::MAX), "s_18446744073709551615");
    assert_eq!(
        result_file_name("ai_train_95r_5w", "20250425_120000_7"),
        "results_ai_train_95r_5w_20250425_120000_7.json"
    );
    assert_eq!(
        scratch_file_name("ai_train_95r_5w", "20250425_120000_7"),
        "fio_ai_train_95r_5w_20250425_120000_7.dat"
    );
    assert_eq!(join_path("/work", "benchmark"), "/work/benchmark");
    assert_eq!(join_path("/work/", "benchmark"), "/work/benchmark");
    assert_eq!(join_path("", "benchmark"), "benchmark");
    assert_eq!(join_path("/", "benchmark"), "/benchmark");
}

#[test]
fn runs_of_one_adapter_never_share_a_file() {
    let mut adapter = BenchmarkAdapter::new_fio("/work");
    let config = mixed("same", 50);
    let mut seen: Vec<String> = Vec::new();
    for _ in 0..50 {
        let run = adapter.prepare_run(&config, "20250425_120000").unwrap();
        assert!(!seen.contains(&run.result_file));
        assert!(!seen.contains(&run.scratch_file));
        seen.push(run.result_file);
        seen.push(run.scratch_file);
    }
    assert_eq!(seen[0], "/work/benchmark/results_same_20250425_120000_0.json");
    assert_eq!(seen[1], "/work/benchmark/fio_same_20250425_120000_0.dat");
    assert_eq!(seen[99], "/work/benchmark/fio_same_20250425_120000_49.dat");
}

#[test]
fn tool_arguments_of_a_mixed_random_workload() {
    let args = build_fio_args(&mixed("w", 95), "/b/fio_w_t.dat", "/b/results_w_t.json");
    assert_eq!(
        args,
        vec![
            "--filename=/b/fio_w_t.dat",
            "--ioengine=uring",
            "--direct=1",
            "--rw=randrw",
            "--bs=4k",
            "--size=256G",
            "--numjobs=16",
            "--iodepth=128",
            "--runtime=600",
            "--time_based",
            "--group_reporting",
            "--name=fio_w_nvme",
            "--output-format=json",
            "--output=/b/results_w_t.json",
            "--rwmixread=95",
        ]
    );
}

#[test]
fn tool_arguments_by_pattern() {
    let seq = TestConfig { rw_type: IoPattern::Write, rwmixread: None, name: String::from("s") };
    let args = build_fio_args(&seq, "a", "b");
    assert_eq!(args.len(), 14);
    assert_eq!(args[3], "--rw=write");
    assert_eq!(args[4], "--bs=1M");
    let rnd = TestConfig { rw_type: IoPattern::RandRead, rwmixread: None, name: String::from("r") };
    let args = build_fio_args(&rnd, "a", "b");
    assert_eq!(args[3], "--rw=randread");
    assert_eq!(args[4], "--bs=4k");
    let zero = build_fio_args(&mixed("z", 0), "a", "b");
    assert_eq!(zero[14], "--rwmixread=0");
    assert_eq!(IoPattern::Trim.fio_name(), "trim");
    assert_eq!(IoPattern::Read.fio_name(), "read");
    assert_eq!(IoPattern::RandWrite.fio_name(), "randwrite");
    assert!(!IoPattern::Trim.is_random());
    assert!(IoPattern::RandWrite.is_random());
    assert!(IoPattern::RandRW.is_mixed());
    assert!(!IoPattern::RandRead.is_mixed());
}

#[test]
fn adapter_construction() {
    let adapter = BenchmarkAdapter::new(
        String::from("fio"),
        vec![String::from("--version")],
        "/home/user/project",
    );
    assert_eq!(adapter.benchmark_dir(), "/home/user/project/benchmark");
    let fio = BenchmarkAdapter::new_fio("/p");
    assert_eq!(fio.benchmark_dir(), "/p/benchmark");
    assert_eq!(fio.format_output("boom", true), "Error output: boom");
    assert_eq!(fio.format_output("fine", false), "Command output: fine");
}

#[test]
fn answers_of_the_tool() {
    let adapter = BenchmarkAdapter::new_fio("/p");
    assert!(adapter.validate(&Ok(())).is_ok());
    match adapter.validate(&Err(String::from("denied"))) {
        Err(BenchmarkError::Environment(m)) => {
            assert_eq!(m, "Failed to create benchmark directory /p/benchmark: denied")
        }
        _ => panic!("expected an error of the environment"),
    }
    assert!(adapter.check_fio_installation(&exited(true, "fio-3.33", "")).is_ok());
    match adapter.check_fio_installation(&exited(false, "", "bad")) {
        Err(BenchmarkError::ToolUnavailable(m)) => assert_eq!(m, "FIO check failed: bad"),
        _ => panic!("expected an unavailable tool"),
    }
    match adapter.check_fio_installation(&CommandOutcome::SpawnFailed(String::from("ENOENT"))) {
        Err(BenchmarkError::ToolUnavailable(m)) => {
            assert_eq!(m, "FIO not found. Please install FIO: ENOENT")
        }
        _ => panic!("expected an unavailable tool"),
    }
    assert_eq!(adapter.run_fio(&exited(true, "fio-3.33\n", "")).unwrap(), "fio-3.33\n");
    match adapter.run_fio(&exited(false, "", "bad")) {
        Err(BenchmarkError::ToolUnavailable(m)) => {
            assert_eq!(m, "Failed to run fio command: Error output: bad")
        }
        _ => panic!("expected an unavailable tool"),
    }
    match adapter.run_fio(&CommandOutcome::SpawnFailed(String::from("ENOENT"))) {
        Err(BenchmarkError::ToolUnavailable(m)) => {
            assert_eq!(m, "Failed to execute FIO command: ENOENT")
        }
        _ => panic!("expected an unavailable tool"),
    }
    assert_eq!(adapter.run_command(&exited(true, "out", "")).unwrap(), "out");
    match adapter.run_command(&exited(false, "", "bad")) {
        Err(BenchmarkError::NonZeroExit(m)) => assert_eq!(m, "Error output: bad"),
        _ => panic!("expected a failure of the tool"),
    }
    match adapter.run_command(&CommandOutcome::SpawnFailed(String::from("ENOENT"))) {
        Err(BenchmarkError::Invocation(m)) => assert_eq!(m, "Failed to execute command: ENOENT"),
        _ => panic!("expected a failure to start"),
    }
    assert!(BenchmarkError::Environment(String::new()).is_fatal());
    assert!(BenchmarkError::ToolUnavailable(String::new()).is_fatal());
    assert!(!BenchmarkError::Invocation(String::new()).is_fatal());
    assert!(!BenchmarkError::NonZeroExit(String::new()).is_fatal());
    assert_eq!(BenchmarkError::NonZeroExit(String::from("x")).message(), "Tool failed: x");
}

#[test]
fn matrix_with_one_failing_workload_runs_all_five() {
    let mut adapter = BenchmarkAdapter::new_fio("/p");
    let (mut run, first) = adapter.begin();
    match first {
        RunAction::EnsureDirectory(dir) => assert_eq!(dir, "/p/benchmark"),
        _ => panic!("expected the directory first"),
    }
    match adapter.advance(&mut run, RunEvent::DirectoryReady) {
        RunAction::ProbeTool { program, args } => {
            assert_eq!(program, "fio");
            assert_eq!(args, vec!["--version"]);
        }
        _ => panic!("expected the probe"),
    }
    let mut action = adapter.advance(&mut run, RunEvent::Probed(exited(true, "fio-3.33", "")));
    let mut invoked = 0;
    let mut files: Vec<String> = Vec::new();
    loop {
        let name = match action {
            RunAction::Invoke(invocation) => {
                assert_eq!(invocation.program, "fio");
                assert!(!files.contains(&invocation.result_file));
                files.push(invocation.result_file.clone());
                invocation.name
            }
            RunAction::Finish => break,
            _ => panic!("expected a workload or the end"),
        };
        invoked += 1;
        assert!(invoked <= 5);
        assert_eq!(run.phase(), Phase::Running(invoked - 1));
        let outcome = if invoked == 3 {
            exited(false, "", "device busy")
        } else {
            exited(true, "", "")
        };
        assert_eq!(name, BenchmarkAdapter::get_test_configs()[invoked - 1].name);
        action = adapter.advance(&mut run, RunEvent::Invoked { outcome, duration_ms: 10 });
    }
    assert_eq!(invoked, 5);
    assert!(run.is_done());
    assert_eq!(run.failed_count(), 1);
    let outcomes = run.result().unwrap();
    assert_eq!(outcomes.len(), 5);
    let failed: Vec<&str> =
        outcomes.iter().filter(|o| !o.is_ok()).map(|o| o.name.as_str()).collect();
    assert_eq!(failed, vec!["ai_pipeline_48r_52w"]);
    assert_eq!(outcomes[2].status, RunStatus::NonZeroExit);
    assert_eq!(outcomes[2].detail, "ai_pipeline_48r_52w failed: device busy");
    assert!(matches!(outcomes[2].error(), Some(BenchmarkError::NonZeroExit(_))));
    assert!(outcomes[0].error().is_none());
    assert_eq!(outcomes[4].duration_ms, 10);
    assert_eq!(outcomes[4].result_file, files[4]);
}

#[test]
fn matrix_names_files_by_the_local_time() {
    let mut adapter = BenchmarkAdapter::new_fio("/p");
    let (mut run, _) = adapter.begin_with(vec![mixed("w", 1)]);
    adapter.advance(&mut run, RunEvent::DirectoryReady);
    let action = adapter.advance(&mut run, RunEvent::Probed(exited(true, "", "")));
    let file = match action {
        RunAction::Invoke(invocation) => invocation.result_file,
        _ => panic!("expected a workload"),
    };
    let stamp = file
        .strip_prefix("/p/benchmark/results_w_")
        .and_then(|rest| rest.strip_suffix("_0.json"))
        .unwrap();
    assert_eq!(stamp.len(), 15);
    for (i, c) in stamp.chars().enumerate() {
        if i == 8 {
            assert_eq!(c, '_');
        } else {
            assert!(c.is_ascii_digit());
        }
    }
}

#[test]
fn matrix_fatal_errors_come_before_the_first_workload() {
    let mut adapter = BenchmarkAdapter::new_fio("/p");
    let (mut run, _) = adapter.begin();
    let action =
        adapter.advance_at(&mut run, RunEvent::DirectoryFailed(String::from("denied")), "t");
    assert!(matches!(action, RunAction::Finish));
    assert!(run.is_done());
    match run.result() {
        Err(BenchmarkError::Environment(m)) => {
            assert_eq!(m, "Failed to create benchmark directory /p/benchmark: denied")
        }
        _ => panic!("expected an error of the environment"),
    }

    let (mut run, _) = adapter.begin();
    adapter.advance_at(&mut run, RunEvent::DirectoryReady, "t");
    let action = adapter.advance_at(
        &mut run,
        RunEvent::Probed(CommandOutcome::SpawnFailed(String::from("ENOENT"))),
        "t",
    );
    assert!(matches!(action, RunAction::Finish));
    match run.result() {
        Err(BenchmarkError::ToolUnavailable(m)) => {
            assert_eq!(m, "FIO not found. Please install FIO: ENOENT")
        }
        _ => panic!("expected an unavailable tool"),
    }

    let (mut run, _) = adapter.begin();
    adapter.advance_at(&mut run, RunEvent::DirectoryReady, "t");
    adapter.advance_at(&mut run, RunEvent::Probed(exited(false, "", "broken")), "t");
    match run.result() {
        Err(BenchmarkError::ToolUnavailable(m)) => assert_eq!(m, "FIO check failed: broken"),
        _ => panic!("expected an unavailable tool"),
    }
}

#[test]
fn matrix_records_a_workload_that_cannot_start_and_goes_on() {
    let mut adapter = BenchmarkAdapter::new_fio("/p");
    let (mut run, _) = adapter.begin_with(vec![mixed("a", 1), mixed("b", 2)]);
    adapter.advance_at(&mut run, RunEvent::DirectoryReady, "t");
    adapter.advance_at(&mut run, RunEvent::Probed(exited(true, "", "")), "t");
    let action = adapter.advance_at(
        &mut run,
        RunEvent::Invoked {
            outcome: CommandOutcome::SpawnFailed(String::from("EAGAIN")),
            duration_ms: 0,
        },
        "t",
    );
    match action {
        RunAction::Invoke(next) => {
            assert_eq!(next.name, "b");
            assert_eq!(next.result_file, "/p/benchmark/results_b_t_1.json");
            assert_eq!(next.scratch_file, "/p/benchmark/fio_b_t_1.dat");
        }
        _ => panic!("expected the second workload"),
    }
    assert_eq!(run.outcomes().len(), 1);
    assert_eq!(run.outcomes()[0].status, RunStatus::SpawnFailed);
    assert_eq!(run.outcomes()[0].detail, "Failed to spawn FIO: EAGAIN");
    assert!(matches!(run.outcomes()[0].error(), Some(BenchmarkError::Invocation(_))));
}

#[test]
fn matrix_of_no_workload_and_unexpected_events() {
    let mut adapter = BenchmarkAdapter::new_fio("/p");
    let (mut run, _) = adapter.begin_with(Vec::new());
    adapter.advance_at(&mut run, RunEvent::DirectoryReady, "t");
    let action = adapter.advance_at(&mut run, RunEvent::Probed(exited(true, "", "")), "t");
    assert!(matches!(action, RunAction::Finish));
    assert_eq!(run.result().unwrap().len(), 0);

    let (mut run, _) = adapter.begin();
    let action = adapter.advance_at(&mut run, RunEvent::Probed(exited(true, "", "")), "t");
    assert!(matches!(action, RunAction::Finish));
    match run.result() {
        Err(BenchmarkError::Invocation(m)) => assert_eq!(m, "Unexpected event"),
        _ => panic!("expected an error"),
    }
}

#[test]
fn fio_job_configurations() {
    let job = FioJobConfig::new_sequential_read("4k", "1G", 4, 32);
    assert!(matches!(job.ioengine, IoEngine::Libaio));
    assert_eq!(job.rw, IoPattern::Read);
    assert_eq!(job.bs, "4k");
    assert_eq!(job.size, "1G");
    assert_eq!(job.numjobs, 4);
    assert_eq!(job.iodepth, 32);
    assert!(job.direct);
    assert!(job.buffered);
    assert!(job.rwmixread.is_none());
    assert!(job.extra_options.is_empty());
    let job = FioJobConfig::new_random_write("1M", "2G", 1, 2);
    assert_eq!(job.rw, IoPattern::RandWrite);
    assert_eq!(job.bs, "1M");
    assert!(job.direct);
    let job = FioJobConfig::default();
    assert!(matches!(job.ioengine, IoEngine::Sync));
    assert_eq!(job.rw, IoPattern::Read);
    assert_eq!((job.bs.as_str(), job.size.as_str(), job.numjobs, job.iodepth), ("4k", "1G", 1, 1));
    assert!(!job.direct);
    assert!(job.buffered);
}

#[test]
fn storage_targets() {
    let file = StorageTarget::new_file("/data/test.dat", None);
    assert_eq!(file.path, "/data/test.dat");
    assert_eq!(file.target_type, "file");
    assert!(file.options.is_empty());
    let options = vec![(String::from("sync"), String::from("1"))];
    let device = StorageTarget::new_device("/dev/nvme0n1", Some(options.clone()));
    assert_eq!(device.path, "/dev/nvme0n1");
    assert_eq!(device.target_type, "device");
    assert_eq!(device.options, options);
}

#[test]
fn store_get_set_delete() {
    let mut store = EmbeddedStore::new();
    assert_eq!(store.get("a").unwrap(), None);
    store.set("a", "1").unwrap();
    store.set("b", "2").unwrap();
    assert_eq!(store.get("a").unwrap(), Some(String::from("1")));
    store.set("a", "3").unwrap();
    assert_eq!(store.get("a").unwrap(), Some(String::from("3")));
    assert_eq!(store.len(), 2);
    store.delete("a").unwrap();
    assert_eq!(store.get("a").unwrap(), None);
    assert_eq!(store.get("b").unwrap(), Some(String::from("2")));
    store.delete("missing").unwrap();
    assert_eq!(store.len(), 1);

    let mut db = DatabaseAdapter::new();
    assert_eq!(db.get("k").unwrap(), None);
    db.set("k", "v").unwrap();
    assert_eq!(db.get("k").unwrap(), Some(String::from("v")));
    db.delete("k").unwrap();
    assert_eq!(db.get("k").unwrap(), None);
}

#[test]
fn command_line_decisions() {
    let cli = |debug: u8, command: Option<Commands>| Cli { name: None, config: None, debug, command };
    assert_eq!(cli(0, None).log_level(), LogLevel::Info);
    assert_eq!(cli(1, None).log_level(), LogLevel::Debug);
    assert_eq!(cli(2, None).log_level(), LogLevel::Trace);
    assert_eq!(log_level_for(255), LogLevel::Trace);
    assert!(matches!(cli(0, None).action(), CliAction::Interactive));
    let bench = |tool: Option<&str>| Some(Commands::Benchmark { tool: tool.map(String::from) });
    assert!(matches!(cli(0, bench(Some("fio"))).action(), CliAction::RunFio));
    assert!(matches!(cli(0, bench(Some("FIO"))).action(), CliAction::RunFio));
    assert!(matches!(cli(0, bench(None)).action(), CliAction::MissingTool));
    match cli(0, bench(Some("stress-ng"))).action() {
        CliAction::UnsupportedTool(name) => assert_eq!(name, "stress-ng"),
        _ => panic!("expected an unsupported tool"),
    }
    match cli(0, Some(Commands::Collect { metric: Some(String::from("cpu")) })).action() {
        CliAction::Collect(metric) => assert_eq!(metric, Some(String::from("cpu"))),
        _ => panic!("expected a collection"),
    }
    assert!(matches!(select_tool(Some("Fio")), ToolChoice::Fio));
    assert!(matches!(select_tool(Some("fio ")), ToolChoice::Unsupported(_)));
    assert!(matches!(select_tool(None), ToolChoice::Missing));
    assert!(matches!(menu_action(0), CliAction::RunFio));
    assert!(matches!(menu_action(1), CliAction::Collect(None)));
    assert!(matches!(menu_action(2), CliAction::Exit));
    assert_eq!(menu_options(), vec!["FIO Benchmark", "System Metrics", "Exit"]);
}

#[test]
fn block_size_sweep() {
    assert_eq!(
        block_sizes(),
        vec!["4k", "8k", "16k", "32k", "64k", "128k", "256k", "512k", "1m"]
    );
    let config = sweep_config("/mnt/benchmark", "64k");
    assert_eq!(config.name, "fio_test_64k");
    assert_eq!(config.tool, BenchmarkTool::FIO);
    match config.params {
        BenchmarkParams::FIO(p) => {
            assert_eq!(p.directory, "/mnt/benchmark");
            assert_eq!(p.block_size, "64k");
            assert_eq!(p.io_type, IOType::RandomRead);
            assert_eq!(p.size, "1G");
            assert_eq!((p.runtime, p.num_jobs, p.io_depth), (30, 4, 32));
        }
        _ => panic!("expected parameters of fio"),
    }
}

#[test]
fn summary_of_a_run_with_a_failure() {
    let mut adapter = BenchmarkAdapter::new_fio("/p");
    let (mut run, first) = adapter.begin_with(vec![mixed("a", 1), mixed("b", 2)]);
    let e = first.announce();
    assert_eq!((e.level, e.message.as_str()), (LogLevel::Debug, "Validating benchmark directory /p/benchmark"));
    let probe = adapter.advance_at(&mut run, RunEvent::DirectoryReady, "t");
    assert_eq!(probe.announce().message, "Checking installation of fio");
    let invoke = adapter.advance_at(&mut run, RunEvent::Probed(exited(true, "", "")), "t");
    let e = invoke.announce();
    assert_eq!(
        (e.level, e.message.as_str()),
        (LogLevel::Info, "Running a -> /p/benchmark/results_a_t_0.json")
    );
    adapter.advance_at(
        &mut run,
        RunEvent::Invoked { outcome: exited(true, "", ""), duration_ms: 1500 },
        "t",
    );
    let end = adapter.advance_at(
        &mut run,
        RunEvent::Invoked { outcome: exited(false, "", "no space"), duration_ms: 3 },
        "t",
    );
    assert_eq!(end.announce().message, "All benchmarks completed");
    assert_eq!(
        told(run.summary()),
        vec![
            (
                LogLevel::Info,
                String::from("a: completed in 1500 ms -> /p/benchmark/results_a_t_0.json")
            ),
            (LogLevel::Error, String::from("b: FAILED: b failed: no space")),
            (LogLevel::Warn, String::from("1 of 2 workloads failed")),
        ]
    );
}

#[test]
fn summary_of_a_run_that_ended_before_the_first_workload() {
    let mut adapter = BenchmarkAdapter::new_fio("/p");
    let (mut run, _) = adapter.begin();
    adapter.advance_at(&mut run, RunEvent::DirectoryReady, "t");
    adapter.advance_at(&mut run, RunEvent::Probed(exited(false, "", "broken")), "t");
    assert_eq!(
        told(run.summary()),
        vec![(LogLevel::Error, String::from("Fatal: FIO check failed: broken"))]
    );
    let (mut run, _) = adapter.begin_with(Vec::new());
    adapter.advance_at(&mut run, RunEvent::DirectoryReady, "t");
    adapter.advance_at(&mut run, RunEvent::Probed(exited(true, "", "")), "t");
    assert_eq!(
        told(run.summary()),
        vec![(LogLevel::Info, String::from("0 of 0 workloads failed"))]
    );
}
