use sysperf_svr::domain::metrics::cpuinfo::{CpuInfoCollector, CpuInfoError};
use sysperf_svr::domain::metrics::iostat::{IostatCollector, IostatConfig, IostatError};
use sysperf_svr::domain::metrics::loadavg::{LoadavgCollector, LoadavgConfig, LoadavgError};
use sysperf_svr::domain::metrics::meminfo::{MemInfoCollector, MemInfoError};
use sysperf_svr::domain::metrics::mpstat::{MpstatCollector, MpstatConfig, MpstatError};
use sysperf_svr::domain::metrics::sampling::{Interval, NextStep, SamplingPlan, SourceRead};
use sysperf_svr::domain::metrics::vmstat::{VmstatCollector, VmstatConfig, VmstatError};
use sysperf_svr::number::Decimal;

fn as_f64(d: Decimal) -> f64 {
    let magnitude = d.mantissa as f64 / 10f64.powi(d.scale as i32);
    if d.negative {
        -magnitude
    } else {
        magnitude
    }
}

fn no_watermark() -> SourceRead {
    SourceRead::Unavailable(String::from("missing"))
}

const CPUINFO_SAMPLE: &str = "
processor       : 0
vendor_id       : GenuineIntel
cpu family      : 6
model           : 142
model name      : Intel(R) Core(TM) i7-8565U CPU @ 1.80GHz
stepping        : 11
microcode       : 0xde
cpu MHz         : 2000.000
cache size      : 8192 KB
physical id     : 0
siblings        : 8
core id         : 0
cpu cores       : 4
apicid          : 0
initial apicid  : 0
fpu             : yes
fpu_exception   : yes
cpuid level     : 22
wp              : yes
flags           : fpu vme de pse tsc msr pae mce cx8 apic sep mtrr pge mca cmov
bugs            : spectre_v1 spectre_v2 spec_store_bypass
";

const MEMINFO_SAMPLE: &str = "
MemTotal:       16384000 kB
MemFree:         8192000 kB
MemAvailable:   12288000 kB
Buffers:         1048576 kB
Cached:          4194304 kB
SwapCached:            0 kB
Active:          4194304 kB
Inactive:        2097152 kB
SwapTotal:      16384000 kB
SwapFree:       16384000 kB
Dirty:             4096 kB
Writeback:           0 kB
";

#[test]
fn test_parse_cpuinfo() {
    let collector = CpuInfoCollector::new();
    let result = collector.parse_cpuinfo(CPUINFO_SAMPLE);
    assert!(result.is_ok());

    let cpu_info = result.unwrap();
    assert_eq!(cpu_info.vendor_id, "GenuineIntel");
    assert!(cpu_info.flags.len() > 0);
    assert!(cpu_info.bugs.len() > 0);
}

#[test]
fn test_parse_meminfo() {
    let collector = MemInfoCollector::new();
    let result = collector.parse_meminfo(MEMINFO_SAMPLE, &no_watermark());
    assert!(result.is_ok());

    let mem_info = result.unwrap();
    assert_eq!(mem_info.total_memory, 16384000 * 1024);
    assert_eq!(mem_info.free_memory, 8192000 * 1024);
    assert_eq!(mem_info.swap_total, 16384000 * 1024);
}

#[test]
fn test_parse_stat_line() {
    let collector = MpstatCollector::new(MpstatConfig::default());
    let timestamp = chrono::Utc::now().timestamp();

    let line = "12:00:00 PM  all    2.34    0.00    1.23    0.45    0.12    0.34    0.00    0.00    0.00   95.52";
    let result = collector.parse_stat_line(line, timestamp);

    assert!(result.is_ok());
    let stat = result.unwrap();
    assert_eq!(stat.cpu_id, "all");
    assert_eq!(as_f64(stat.usr), 2.34);
    assert_eq!(as_f64(stat.idle), 95.52);
}

#[test]
fn test_parse_vmstat_output() {
    let collector = VmstatCollector::new(VmstatConfig::default());
    let sample_output = "
procs -----------memory---------- ---swap-- -----io---- --system-- -----cpu------
 r  b   swpd   free   buff  cache   si   so    bi    bo   in   cs us sy id wa st
 1  0      0 781916 195988 457784    0    0     0     0   95  142  1  1 98  0  0
";
    let result = collector.parse_vmstat_output(sample_output);
    assert!(result.is_ok());
}

#[test]
fn cpuinfo_record_of_the_sample_block() {
    let info = CpuInfoCollector::new().parse_cpuinfo_at(CPUINFO_SAMPLE, 42).unwrap();
    assert_eq!(info.timestamp, 42);
    assert_eq!(info.model_name, "Intel(R) Core(TM) i7-8565U CPU @ 1.80GHz");
    assert_eq!(info.total_threads, 1);
    assert_eq!(info.total_cores, 1);
    assert_eq!(info.num_sockets, 1);
    assert_eq!(info.cores.len(), 1);
    assert_eq!(info.cores[0].0, 0);
    assert_eq!(info.cores[0].1.core_id, 0);
    assert_eq!(info.cores[0].1.cpu_mhz, Decimal { negative: false, mantissa: 2000000, scale: 3 });
    assert_eq!(info.cores[0].1.flags.len(), 15);
    assert_eq!(info.flags[0], "fpu");
    assert_eq!(info.flags[14], "cmov");
    assert_eq!(info.bugs, vec!["spectre_v1", "spectre_v2", "spec_store_bypass"]);
    let family = info.features.iter().find(|f| f.0 == "cpu family").unwrap();
    assert_eq!(family.1, "6");
    assert_eq!(info.features[0].0, "cpu family");
}

#[test]
fn cpuinfo_counts_cores_threads_and_sockets() {
    let text = "processor : 0\ncore id : 0\nphysical id : 0\n\n\
                processor : 1\ncore id : 0\nphysical id : 0\n\n\
                processor : 2\ncore id : 1\nphysical id : 0\n\n\
                processor : 3\ncore id : 1\nphysical id : 1\n";
    let info = CpuInfoCollector::new().parse_cpuinfo_at(text, 0).unwrap();
    assert_eq!(info.total_threads, 4);
    assert_eq!(info.total_cores, 2);
    assert_eq!(info.num_sockets, 2);
    assert_eq!(info.cores[3].0, 3);
    assert_eq!(info.cores[3].1.physical_id, 1);
}

#[test]
fn cpuinfo_block_without_processor_gives_no_record() {
    let text = "vendor_id : X\ncore id : 5\n\nprocessor : 7\n\n";
    let info = CpuInfoCollector::new().parse_cpuinfo_at(text, 0).unwrap();
    assert_eq!(info.total_threads, 1);
    assert_eq!(info.cores[0].0, 7);
    assert_eq!(info.cores[0].1.core_id, 0);
    assert_eq!(info.vendor_id, "X");
}

#[test]
fn cpuinfo_feature_keeps_last_value_once() {
    let text = "processor : 0\nstepping : 1\n\nprocessor : 1\nstepping : 2\n";
    let info = CpuInfoCollector::new().parse_cpuinfo_at(text, 0).unwrap();
    assert_eq!(info.features.len(), 1);
    assert_eq!(info.features[0], (String::from("stepping"), String::from("2")));
}

#[test]
fn cpuinfo_malformed_number_is_a_parse_error() {
    let r = CpuInfoCollector::new().parse_cpuinfo_at("processor : zero\n", 0);
    match r {
        Err(CpuInfoError::ParseError(m)) => assert_eq!(m, "Invalid processor ID: zero"),
        _ => panic!("expected a parse error"),
    }
    let r = CpuInfoCollector::new().parse_cpuinfo_at("processor : 0\ncpu MHz : fast\n", 0);
    match r {
        Err(CpuInfoError::ParseError(m)) => assert_eq!(m, "Invalid CPU MHz: fast"),
        _ => panic!("expected a parse error"),
    }
    let r = CpuInfoCollector::new().parse_cpuinfo_at("core id : -1\n", 0);
    assert!(matches!(r, Err(CpuInfoError::ParseError(_))));
    let r = CpuInfoCollector::new().parse_cpuinfo_at("physical id : 4294967296\n", 0);
    assert!(matches!(r, Err(CpuInfoError::ParseError(_))));
}

#[test]
fn cpuinfo_without_processor_is_an_error() {
    let c = CpuInfoCollector::new();
    assert!(matches!(c.parse_cpuinfo_at("", 0), Err(CpuInfoError::EmptyResult)));
    assert!(matches!(c.parse_cpuinfo_at("vendor_id : X\n\n", 0), Err(CpuInfoError::EmptyResult)));
    assert!(matches!(
        c.parse_cpuinfo_at("vendor_id : X\ncore id : x\n", 0),
        Err(CpuInfoError::ParseError(_))
    ));
    assert_eq!(CpuInfoError::EmptyResult.message(), "No processor found");
    assert_eq!(c.source_path(), "/proc/cpuinfo");
}

#[test]
fn cpuinfo_unavailable_source_is_a_read_error() {
    let r = CpuInfoCollector::new().collect(&SourceRead::Unavailable(String::from("gone")));
    match r {
        Err(CpuInfoError::ReadError(m)) => assert_eq!(m, "gone"),
        _ => panic!("expected a read error"),
    }
    let e = CpuInfoError::ReadError(String::from("gone"));
    assert_eq!(e.message(), "Failed to read CPU information: gone");
}

#[test]
fn cpuinfo_timestamp_comes_from_the_clock() {
    let info = CpuInfoCollector::new().parse_cpuinfo("processor : 0\n").unwrap();
    assert!(info.timestamp > 1_600_000_000);
}

#[test]
fn meminfo_snapshot_values() {
    let text = "MemTotal: 16384000 kB\nMemFree: 8192000 kB\nMemAvailable: 12288000 kB\n\
                SwapTotal: 16384000 kB\nSwapFree: 16384000 kB\n";
    let info = MemInfoCollector::new().parse_meminfo_at(text, &no_watermark(), 7).unwrap();
    assert_eq!(info.total_memory, 16384000 * 1024);
    assert_eq!(info.free_memory, 8192000 * 1024);
    assert_eq!(info.available_memory, 12288000 * 1024);
    assert_eq!(info.swap_total, 16384000 * 1024);
    assert_eq!(info.used_memory, 4096000 * 1024);
    assert_eq!(info.swap_used, 0);
    assert_eq!(info.buffers, 0);
    assert_eq!(info.low_watermark, 0);
    assert_eq!(info.high_watermark, 0);
    assert_eq!(info.timestamp, 7);
    assert_eq!(info.total_memory_mb(), 16000);
    assert_eq!(info.available_memory_mb(), 12000);
    assert_eq!(info.used_memory_mb(), 4000);
    assert!(info.cgroups.is_empty());
}

#[test]
fn meminfo_last_entry_of_a_key_counts() {
    let text = "MemTotal: 10 kB\nMemTotal: 20 kB\n";
    let info = MemInfoCollector::new().parse_meminfo_at(text, &no_watermark(), 0).unwrap();
    assert_eq!(info.total_memory, 20 * 1024);
}

#[test]
fn meminfo_watermarks() {
    let c = MemInfoCollector::new();
    let w = SourceRead::Text(String::from(" 67584\n"));
    assert_eq!(c.get_low_watermark(&w).unwrap(), 67584 * 1024);
    assert_eq!(c.get_high_watermark(&w).unwrap(), 67584 * 2048);
    let info = c.parse_meminfo_at("MemTotal: 1 kB\n", &w, 0).unwrap();
    assert_eq!(info.low_watermark, 67584 * 1024);
    assert_eq!(info.high_watermark, 67584 * 2048);
    assert!(matches!(c.get_low_watermark(&no_watermark()), Err(MemInfoError::ReadError(_))));
    let bad = SourceRead::Text(String::from("many"));
    assert!(matches!(c.get_low_watermark(&bad), Err(MemInfoError::ParseError(_))));
    let huge = SourceRead::Text(String::from("18014398509481984"));
    assert!(matches!(c.get_low_watermark(&huge), Err(MemInfoError::ParseError(_))));
    let half = SourceRead::Text(String::from("9007199254740992"));
    assert!(c.get_low_watermark(&half).is_ok());
    assert!(matches!(c.get_high_watermark(&half), Err(MemInfoError::ParseError(_))));
}

#[test]
fn meminfo_errors() {
    let c = MemInfoCollector::new();
    match c.parse_meminfo_at("MemTotal: lots kB\n", &no_watermark(), 0) {
        Err(MemInfoError::ParseError(m)) => assert_eq!(m, "Failed to parse value for MemTotal"),
        _ => panic!("expected a parse error"),
    }
    match c.parse_meminfo_at("MemTotal: 18014398509481984 kB\n", &no_watermark(), 0) {
        Err(MemInfoError::ParseError(m)) => assert_eq!(m, "Failed to parse value for MemTotal"),
        _ => panic!("expected a parse error"),
    }
    match c.parse_meminfo_at("MemTotal: 1 kB\nMemAvailable: 2 kB\n", &no_watermark(), 0) {
        Err(MemInfoError::ParseError(m)) => assert_eq!(m, "MemAvailable exceeds MemTotal"),
        _ => panic!("expected a parse error"),
    }
    match c.parse_meminfo_at("SwapTotal: 1 kB\nSwapFree: 2 kB\n", &no_watermark(), 0) {
        Err(MemInfoError::ParseError(m)) => assert_eq!(m, "SwapFree exceeds SwapTotal"),
        _ => panic!("expected a parse error"),
    }
    assert!(matches!(
        c.parse_meminfo_at("", &no_watermark(), 0),
        Err(MemInfoError::EmptyResult)
    ));
    assert!(matches!(
        c.parse_meminfo_at("nothing\n\n", &no_watermark(), 0),
        Err(MemInfoError::EmptyResult)
    ));
    assert_eq!(MemInfoError::EmptyResult.message(), "No memory information found");
    let gone = SourceRead::Unavailable(String::from("gone"));
    match c.collect(&gone, &no_watermark(), Vec::new()) {
        Err(MemInfoError::ReadError(m)) => assert_eq!(m, "gone"),
        _ => panic!("expected a read error"),
    }
    assert_eq!(
        MemInfoError::CgroupError(String::from("x")).message(),
        "Failed to access cgroup information: x"
    );
}

#[test]
fn meminfo_cgroup_figures() {
    let c = MemInfoCollector::new();
    let text = |s: &str| SourceRead::Text(String::from(s));
    let info = c
        .read_cgroup_memory_info(&text("1000\n"), &text("300"), &text(" 1500 "), &text("0"))
        .unwrap();
    assert_eq!(info.usage_bytes, 1000);
    assert_eq!(info.working_set_bytes, 700);
    assert_eq!(info.rss_bytes, 300);
    assert_eq!(info.cache_bytes, 300);
    assert_eq!(info.swap_bytes, 500);
    assert_eq!(info.limit_bytes, 0);
    assert_eq!(info.inactive_file_bytes, 300);
    let low = c
        .read_cgroup_memory_info(&text("100"), &text("300"), &text("50"), &text("1"))
        .unwrap();
    assert_eq!(low.working_set_bytes, 0);
    assert_eq!(low.swap_bytes, 0);
    let gone = SourceRead::Unavailable(String::from("gone"));
    assert!(matches!(
        c.read_cgroup_memory_info(&text("1"), &gone, &text("1"), &text("1")),
        Err(MemInfoError::CgroupError(_))
    ));
    assert!(matches!(
        c.read_cgroup_memory_info(&text("1"), &text("x"), &gone, &text("1")),
        Err(MemInfoError::ParseError(_))
    ));
    assert_eq!(
        c.cgroup_file_path("user.slice", "memory.stat"),
        "/sys/fs/cgroup/memory/user.slice/memory.stat"
    );
    assert_eq!(c.cgroup_names().len(), 5);
    assert_eq!(c.cgroup_names()[4], "kubepods.slice");
    assert_eq!(c.source_path(), "/proc/meminfo");
    assert_eq!(c.watermark_path(), "/proc/sys/vm/min_free_kbytes");
}

#[test]
fn meminfo_collect_attaches_cgroups() {
    let c = MemInfoCollector::new();
    let text = |s: &str| SourceRead::Text(String::from(s));
    let group = c
        .read_cgroup_memory_info(&text("4"), &text("1"), &text("4"), &text("9"))
        .unwrap();
    let info = c
        .collect(&text(MEMINFO_SAMPLE), &no_watermark(), vec![(String::from("user.slice"), group)])
        .unwrap();
    assert_eq!(info.cgroups.len(), 1);
    assert_eq!(info.cgroups[0].0, "user.slice");
    assert_eq!(info.cgroups[0].1.limit_bytes, 9);
    assert_eq!(info.dirty, 4096 * 1024);
}

#[test]
fn loadavg_line_values() {
    let collector = LoadavgCollector::new(LoadavgConfig::default());
    let stats = collector.parse_sample("0.52 0.58 0.59 2/245 12345").unwrap();
    assert_eq!(as_f64(stats.load_1), 0.52);
    assert_eq!(as_f64(stats.load_5), 0.58);
    assert_eq!(as_f64(stats.load_15), 0.59);
    assert_eq!(stats.load_1, Decimal { negative: false, mantissa: 52, scale: 2 });
    assert_eq!(stats.running_tasks, 2);
    assert_eq!(stats.total_tasks, 245);
    assert_eq!(stats.last_pid, 12345);
    assert_eq!(stats.per_cpu_load, Some(Vec::new()));
    let p = stats.process_stats.unwrap();
    assert_eq!((p.running, p.sleeping, p.uninterruptible, p.zombie, p.stopped), (0, 0, 0, 0, 0));
}

#[test]
fn loadavg_options_decide_the_attachments() {
    let config = LoadavgConfig {
        interval: Interval::from_secs(0),
        count: Some(3),
        include_process_stats: false,
        per_cpu_stats: false,
    };
    let collector = LoadavgCollector::new(config);
    let stats = collector.parse_sample("0.52 0.58 0.59 2/245 12345\n").unwrap();
    assert!(stats.per_cpu_load.is_none());
    assert!(stats.process_stats.is_none());
    assert_eq!(collector.plan().count, Some(3));
    assert!(collector.plan().interval.is_zero());
    assert_eq!(collector.source_path(), "/proc/loadavg");
}

#[test]
fn loadavg_errors_in_field_order() {
    let c = LoadavgCollector::new(LoadavgConfig::default());
    match c.parse_sample("0.52 0.58 0.59 2/245") {
        Err(LoadavgError::ParseError(m)) => assert_eq!(m, "Invalid /proc/loadavg format"),
        _ => panic!("expected a parse error"),
    }
    match c.parse_sample("0.52 high 0.59 2-245 x") {
        Err(LoadavgError::InvalidValue(m)) => assert_eq!(m, "high"),
        _ => panic!("expected an invalid value"),
    }
    match c.parse_sample("0.52 0.58 0.59 2-245 12345") {
        Err(LoadavgError::ParseError(m)) => assert_eq!(m, "Invalid task count format"),
        _ => panic!("expected a parse error"),
    }
    match c.parse_sample("0.52 0.58 0.59 2/245/7 12345") {
        Err(LoadavgError::ParseError(m)) => assert_eq!(m, "Invalid task count format"),
        _ => panic!("expected a parse error"),
    }
    match c.parse_sample("0.52 0.58 0.59 two/245 12345") {
        Err(LoadavgError::InvalidValue(m)) => assert_eq!(m, "two"),
        _ => panic!("expected an invalid value"),
    }
    match c.parse_sample("0.52 0.58 0.59 2/ 12345") {
        Err(LoadavgError::InvalidValue(m)) => assert_eq!(m, ""),
        _ => panic!("expected an invalid value"),
    }
    match c.parse_sample("0.52 0.58 0.59 2/245 -1") {
        Err(LoadavgError::InvalidValue(m)) => assert_eq!(m, "-1"),
        _ => panic!("expected an invalid value"),
    }
    match c.collect_single(&SourceRead::Unavailable(String::from("gone"))) {
        Err(LoadavgError::IoError(m)) => assert_eq!(m, "gone"),
        _ => panic!("expected an I/O error"),
    }
    assert_eq!(
        LoadavgError::InvalidValue(String::from("x")).message(),
        "Invalid load average value: x"
    );
}

#[test]
fn mpstat_columns_in_order() {
    let collector = MpstatCollector::new(MpstatConfig::default());
    let line = "12:00:00 PM 3 1.1 2.2 3.3 4.4 5.5 6.6 7.7 8.8 9.9 10.0";
    let stat = collector.parse_stat_line(line, 5).unwrap();
    assert_eq!(stat.cpu_id, "3");
    assert_eq!(as_f64(stat.usr), 1.1);
    assert_eq!(as_f64(stat.nice), 2.2);
    assert_eq!(as_f64(stat.sys), 3.3);
    assert_eq!(as_f64(stat.iowait), 4.4);
    assert_eq!(as_f64(stat.irq), 5.5);
    assert_eq!(as_f64(stat.soft), 6.6);
    assert_eq!(as_f64(stat.steal), 7.7);
    assert_eq!(as_f64(stat.guest), 8.8);
    assert_eq!(as_f64(stat.gnice), 9.9);
    assert_eq!(as_f64(stat.idle), 10.0);
    assert_eq!(stat.timestamp, 5);
}

#[test]
fn mpstat_short_line_is_a_parse_error() {
    let collector = MpstatCollector::new(MpstatConfig::default());
    let line = "12:00:00 PM all 2.34 0.00 1.23 0.45 0.12 0.34 0.00 0.00 0.00";
    match collector.parse_stat_line(line, 0) {
        Err(MpstatError::ParseError(m)) => assert_eq!(m, format!("Invalid line format: {}", line)),
        _ => panic!("expected a parse error"),
    }
    let line = "12:00:00 PM CPU %usr %nice %sys %iowait %irq %soft %steal %guest %gnice %idle";
    match collector.parse_stat_line(line, 0) {
        Err(MpstatError::ParseError(m)) => {
            assert_eq!(m, format!("Invalid number in line: {}", line))
        }
        _ => panic!("expected a parse error"),
    }
}

#[test]
fn mpstat_output_keeps_records_only() {
    let collector = MpstatCollector::new(MpstatConfig::default());
    let output = "Linux 6.1.0 (host) \t01/01/25 \t_x86_64_\t(2 CPU)\n\n\
        12:00:00 PM  CPU    %usr   %nice    %sys %iowait    %irq   %soft  %steal  %guest  %gnice   %idle\n\
        12:00:01 PM  all    2.34    0.00    1.23    0.45    0.12    0.34    0.00    0.00    0.00   95.52\n\
        12:00:01 PM    0    1.00    0.00    1.00    0.00    0.00    0.00    0.00    0.00    0.00   98.00\n\
        Average:     all    2.34    0.00    1.23    0.45    0.12    0.34    0.00    0.00    0.00   95.52\n";
    let stats = collector.parse_mpstat_output_at(output, 9).unwrap();
    assert_eq!(stats.len(), 2);
    assert_eq!(stats[0].cpu_id, "all");
    assert_eq!(stats[1].cpu_id, "0");
    assert_eq!(stats[1].timestamp, 9);
    let stamped = collector.parse_mpstat_output(output).unwrap();
    assert_eq!(stamped.len(), 2);
    assert!(stamped[0].timestamp > 1_600_000_000);
    assert_eq!(stamped[0].timestamp, stamped[1].timestamp);
}

#[test]
fn mpstat_empty_output_is_an_error() {
    let collector = MpstatCollector::new(MpstatConfig::default());
    assert!(matches!(collector.parse_mpstat_output_at("", 0), Err(MpstatError::EmptyResult)));
    assert!(matches!(
        collector.parse_mpstat_output_at("Linux\n\nnothing here\n", 0),
        Err(MpstatError::EmptyResult)
    ));
    match collector.collect(&SourceRead::Unavailable(String::from("no mpstat"))) {
        Err(MpstatError::ExecutionError(m)) => assert_eq!(m, "no mpstat"),
        _ => panic!("expected an execution error"),
    }
    assert_eq!(MpstatError::EmptyResult.message(), "No valid statistics found");
    assert_eq!(
        MpstatError::InvalidInterval(String::from("0")).message(),
        "Invalid interval specified: 0"
    );
}

#[test]
fn mpstat_command_line() {
    let c = MpstatCollector::new(MpstatConfig::default());
    assert_eq!(c.program(), "mpstat");
    assert_eq!(c.command_args(), vec!["1", "1", "-P", "ALL"]);
    let c = MpstatCollector::new(MpstatConfig {
        interval: Interval::from_secs(30),
        count: None,
        per_cpu: false,
        include_idle: true,
    });
    assert_eq!(c.command_args(), vec!["30"]);
}

#[test]
fn vmstat_sample_values() {
    let collector = VmstatCollector::new(VmstatConfig::default());
    let output = "procs -----------memory---------- ---swap-- -----io---- --system-- -----cpu------\n \
         r  b   swpd   free   buff  cache   si   so    bi    bo   in   cs us sy id wa st\n \
         1  0      7 781916 195988 457784    0    3     4     5   95  142  1  2 97  0  0\n";
    let stats = collector.parse_vmstat_output_at(output, 11).unwrap();
    assert_eq!(stats.len(), 1);
    let s = stats[0];
    assert_eq!(s.procs.running, 1);
    assert_eq!(s.procs.blocked, 0);
    assert_eq!(s.memory.swap_used_mb, 7);
    assert_eq!(s.memory.free_mb, 781916);
    assert_eq!(s.memory.buffer_mb, 195988);
    assert_eq!(s.memory.cache_mb, 457784);
    assert_eq!(s.memory.swap_free_mb, 781916);
    assert_eq!(as_f64(s.swap.pages_in_per_sec), 0.0);
    assert_eq!(as_f64(s.swap.pages_out_per_sec), 3.0);
    assert_eq!(as_f64(s.io.blocks_in_per_sec), 4.0);
    assert_eq!(as_f64(s.io.blocks_out_per_sec), 5.0);
    assert_eq!(as_f64(s.system.interrupts_per_sec), 95.0);
    assert_eq!(as_f64(s.system.context_switches_per_sec), 142.0);
    assert_eq!(as_f64(s.cpu.user), 1.0);
    assert_eq!(as_f64(s.cpu.system), 2.0);
    assert_eq!(as_f64(s.cpu.idle), 97.0);
    assert_eq!(as_f64(s.cpu.iowait), 0.0);
    assert_eq!(s.timestamp, 11);
}

#[test]
fn vmstat_counts_round_toward_zero() {
    let collector = VmstatCollector::new(VmstatConfig::default());
    let output = "h\nh\n 1.9 -3 0 4294967296.5 0 0 0 0 0 0 0 0 0 0 0 0 0\n";
    let s = collector.parse_vmstat_output_at(output, 0).unwrap()[0];
    assert_eq!(s.procs.running, 1);
    assert_eq!(s.procs.blocked, 0);
    assert_eq!(s.memory.free_mb, 4294967296);
    let output = "h\nh\n 4294967296 0 0 0 0 0 0 0 0 0 0 0 0 0 0 0 0\n";
    let s = collector.parse_vmstat_output_at(output, 0).unwrap()[0];
    assert_eq!(s.procs.running, u32::MAX);
}

#[test]
fn vmstat_errors() {
    let collector = VmstatCollector::new(VmstatConfig::default());
    let bad = " 1  0      0 781916 195988 457784    0    0     0     0   95  142  1  1 98  x  0";
    let output = format!("h1\nh2\n{}\n", bad);
    match collector.parse_vmstat_output_at(&output, 0) {
        Err(VmstatError::ParseError(m)) => {
            assert_eq!(m, format!("Invalid number in line: {}", bad))
        }
        _ => panic!("expected a parse error"),
    }
    assert!(matches!(
        collector.parse_vmstat_output_at("h1\nh2\n", 0),
        Err(VmstatError::EmptyResult)
    ));
    assert!(matches!(
        collector.parse_vmstat_output_at("h1\nh2\n1 2 3\n", 0),
        Err(VmstatError::EmptyResult)
    ));
    match collector.collect(&SourceRead::Unavailable(String::from("no vmstat"))) {
        Err(VmstatError::ExecutionError(m)) => assert_eq!(m, "no vmstat"),
        _ => panic!("expected an execution error"),
    }
    assert_eq!(
        VmstatError::ParseError(String::from("x")).message(),
        "Failed to parse vmstat output: x"
    );
}

#[test]
fn vmstat_command_line() {
    let c = VmstatCollector::new(VmstatConfig { interval: Interval::from_secs(5), count: Some(12) });
    assert_eq!(c.program(), "vmstat");
    assert_eq!(c.command_args(), vec!["-n", "5", "12"]);
    let stamped = c
        .parse_vmstat_output("a\nb\n 1 0 0 1 1 1 0 0 0 0 1 1 1 1 98 0 0\n")
        .unwrap();
    assert!(stamped[0].timestamp > 1_600_000_000);
}

#[test]
fn iostat_device_lines() {
    let collector = IostatCollector::new(IostatConfig::default());
    let output = "Linux 6.1.0 (host) \t01/01/25 \t_x86_64_\t(2 CPU)\n\n\
        avg-cpu:  %user   %nice %system %iowait  %steal   %idle\n           \
        1.00    0.00    1.00    0.10    0.00   97.90\n\n\
        Device tps kB_read/s kB_wrtn/s rareq-sz wareq-sz aqu-sz await %util\n\
        nvme0n1 12.50 100.25 200.75 8.00 16.00 0.05 0.40 1.25\n\
        sda 0.00 0.00 0.00 0.00 0.00 0.00 0.00 0.00\n";
    let stats = collector.parse_iostat_output(output).unwrap();
    assert_eq!(stats.len(), 2);
    assert_eq!(stats[0].device, "nvme0n1");
    assert_eq!(as_f64(stats[0].tps), 12.5);
    assert_eq!(as_f64(stats[0].kb_read_per_sec), 100.25);
    assert_eq!(as_f64(stats[0].kb_wrtn_per_sec), 200.75);
    assert_eq!(as_f64(stats[0].rareq_sz), 8.0);
    assert_eq!(as_f64(stats[0].wareq_sz), 16.0);
    assert_eq!(as_f64(stats[0].aqu_sz), 0.05);
    assert_eq!(as_f64(stats[0].await_ms), 0.4);
    assert_eq!(as_f64(stats[0].util), 1.25);
    assert_eq!(stats[1].device, "sda");
}

#[test]
fn iostat_errors_and_command_line() {
    let collector = IostatCollector::new(IostatConfig::default());
    assert!(matches!(
        collector.parse_device_line("sda 1 2 3"),
        Err(IostatError::ParseError(_))
    ));
    match collector.parse_device_line("sda 1 2 3 4 5 6 7 x") {
        Err(IostatError::ParseError(m)) => {
            assert_eq!(m, "Invalid number in line: sda 1 2 3 4 5 6 7 x")
        }
        _ => panic!("expected a parse error"),
    }
    assert!(matches!(collector.parse_iostat_output("Device\n"), Err(IostatError::EmptyResult)));
    match collector.collect(&SourceRead::Unavailable(String::from("no iostat"))) {
        Err(IostatError::ExecutionError(m)) => assert_eq!(m, "no iostat"),
        _ => panic!("expected an execution error"),
    }
    assert_eq!(collector.program(), "iostat");
    assert_eq!(collector.command_args(), vec!["-x", "1", "1"]);
    let plain = IostatCollector::new(IostatConfig {
        interval: Interval::from_secs(2),
        count: None,
        per_device: true,
        include_extended: false,
    });
    assert_eq!(plain.command_args(), vec!["2"]);
    assert_eq!(
        IostatError::ExecutionError(String::from("x")).message(),
        "Failed to execute iostat command: x"
    );
}

#[test]
fn sampling_with_count_three_and_no_interval_takes_three_samples() {
    let collector = LoadavgCollector::new(LoadavgConfig {
        interval: Interval::from_secs(0),
        count: Some(3),
        include_process_stats: false,
        per_cpu_stats: false,
    });
    let plan = collector.plan();
    let mut samples = Vec::new();
    let mut waits = 0;
    let mut ticks = 0;
    loop {
        ticks += 1;
        assert!(ticks < 100);
        match plan.next(samples.len() as u64, false) {
            NextStep::Stop => break,
            NextStep::Sample => {}
            NextStep::WaitThenSample(interval) => {
                assert!(interval.is_zero());
                waits += 1;
            }
        }
        samples.push(collector.parse_sample("0.52 0.58 0.59 2/245 12345").unwrap());
    }
    assert_eq!(samples.len(), 3);
    assert_eq!(waits, 2);
}

#[test]
fn sampling_edge_cases() {
    let none = SamplingPlan { interval: Interval::from_secs(1), count: Some(0) };
    assert_eq!(none.next(0, false), NextStep::Stop);
    let forever = SamplingPlan { interval: Interval::from_secs(4), count: None };
    assert_eq!(forever.next(0, false), NextStep::Sample);
    assert_eq!(
        forever.next(u64::MAX, false),
        NextStep::WaitThenSample(Interval { secs: 4, subsec_nanos: 0 })
    );
    assert_eq!(forever.next(10, true), NextStep::Stop);
    assert_eq!(Interval::from_secs(4).as_secs(), 4);
    assert!(!Interval { secs: 0, subsec_nanos: 1 }.is_zero());
}
