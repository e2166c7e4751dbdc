use ark_cluster::auth::constant_time_eq;
use ark_cluster::resources::{
    add_rss, cpu_counters_fit, cpu_usage_pct, is_pid_dir, looks_like_ark_process, parse_cpu_counters, parse_meminfo,
    read_vmrss_kb, CpuCounters,
};
use ark_cluster::systemd::{
    is_safe_unit_name, parse_systemctl_show, unit_summary_from, unit_summary_unavailable, CommandOutcome, RealSystemd,
    SystemdError, TestSystemd,
};

#[test]
fn eq_matches() {
    assert!(constant_time_eq(b"secret", b"secret"));
}

#[test]
fn eq_rejects_diff_and_len() {
    assert!(!constant_time_eq(b"secret", b"secreT"));
    assert!(!constant_time_eq(b"secret", b"secret-longer"));
}

#[test]
fn parses_meminfo_sample() {
    let parsed = parse_meminfo(
        "MemTotal:       32768000 kB\nMemFree:         2048000 kB\nMemAvailable:   8192000 kB\nSwapTotal:       8388608 kB\nSwapFree:        6291456 kB\n",
    )
    .unwrap();
    assert_eq!(parsed.mem_total_kb, 32768000);
    assert_eq!(parsed.mem_available_kb, 8192000);
    assert_eq!(parsed.mem_free_kb, 2048000);
    assert_eq!(parsed.swap_total_kb, 8388608);
    assert_eq!(parsed.swap_free_kb, 6291456);
}

#[test]
fn meminfo_falls_back_and_reports_missing_fields() {
    let parsed = parse_meminfo("MemTotal: 100 kB\nMemFree: 40 kB\n").unwrap();
    assert_eq!(parsed.mem_available_kb, 40);
    assert_eq!(parsed.swap_total_kb, 0);
    assert_eq!(parse_meminfo("MemFree: 40 kB\n").unwrap_err(), "missing MemTotal in /proc/meminfo");
    assert_eq!(parse_meminfo("MemTotal: 100 kB\n").unwrap_err(), "missing MemFree in /proc/meminfo");
}

#[test]
fn calculates_cpu_pct_from_proc_stat_counters() {
    let a_text = "cpu  100 0 100 800 0 0 0 0 0 0\n";
    let b_text = "cpu  150 0 150 900 0 0 0 0 0 0\n";
    assert!(cpu_counters_fit(a_text) && cpu_counters_fit(b_text));
    let a = parse_cpu_counters(a_text).unwrap();
    let b = parse_cpu_counters(b_text).unwrap();
    assert_eq!(cpu_usage_pct(a, b), 50);
}

#[test]
fn cpu_counters_need_an_aggregate_line() {
    assert!(parse_cpu_counters("cpu0 1 2 3 4\n").is_err());
    assert!(parse_cpu_counters("cpu  1 2 3\n").is_err());
    let c = parse_cpu_counters("intr 5\ncpu  1 2 3 4 5\n").unwrap();
    assert_eq!((c.idle, c.total), (9, 15));
}

#[test]
fn cpu_usage_rounds_and_handles_no_progress() {
    let a = CpuCounters { idle: 0, total: 0 };
    assert_eq!(cpu_usage_pct(a, a), 0);
    let b = CpuCounters { idle: 2, total: 3 };
    assert_eq!(cpu_usage_pct(a, b), 33);
    let c = CpuCounters { idle: 1, total: 2 };
    assert_eq!(cpu_usage_pct(a, c), 50);
}

#[test]
fn reads_resident_memory_of_a_process() {
    assert_eq!(read_vmrss_kb("Name:\tShooterGame\nVmRSS:\t  123456 kB\n"), Some(123456));
    assert_eq!(read_vmrss_kb("Name: x\n"), None);
    assert!(looks_like_ark_process("ShooterGameServ\n", ""));
    assert!(looks_like_ark_process("wine", "C:/ArkAscended/server.exe"));
    assert!(!looks_like_ark_process("bash", "bash"));
    assert!(is_pid_dir("1234"));
    assert!(!is_pid_dir("self"));
    assert_eq!(add_rss(u64::MAX - 1, Some(5)), u64::MAX);
    assert_eq!(add_rss(10, None), 10);
}

#[test]
fn validates_unit_names() {
    assert!(is_safe_unit_name("ark-server@home.service"));
    assert!(is_safe_unit_name("ark_server@travel-a.service"));
    assert!(!is_safe_unit_name(""));
    assert!(!is_safe_unit_name("ark-server@home"));
    assert!(!is_safe_unit_name("../ark-server@home.service"));
    assert!(!is_safe_unit_name("ark-server@home.service;shutdown"));
}

#[test]
fn parses_active_systemctl_show_output() {
    let parsed = parse_systemctl_show(
        "ark-server@travel-a.service",
        "Id=ark-server@travel-a.service\nLoadState=loaded\nActiveState=active\nSubState=running\nDescription=ARK On-demand\nActiveEnterTimestamp=Wed 2026-06-03 17:00:00 CEST\nMainPID=1234\nMemoryCurrent=987654321\nTasksCurrent=42\n",
        "systemd",
    );
    assert_eq!(parsed.unit, "ark-server@travel-a.service");
    assert!(parsed.exists);
    assert!(parsed.loaded);
    assert!(parsed.active);
    assert_eq!(parsed.state, "active (running)");
    assert_eq!(parsed.description.as_deref(), Some("ARK On-demand"));
    assert_eq!(parsed.main_pid, Some(1234));
    assert_eq!(parsed.memory_current_bytes, Some(987654321));
    assert_eq!(parsed.tasks_current, Some(42));
}

#[test]
fn parses_not_found_unit() {
    let parsed = parse_systemctl_show(
        "ark-server@missing.service",
        "Id=ark-server@missing.service\nLoadState=not-found\nActiveState=inactive\nSubState=dead\nMainPID=0\n",
        "systemd",
    );
    assert!(!parsed.exists);
    assert!(!parsed.loaded);
    assert_eq!(parsed.state, "inactive (dead)");
    assert_eq!(parsed.main_pid, None);
}

#[test]
fn systemctl_outcomes_become_statuses_and_errors() {
    let sd = RealSystemd;
    assert!(matches!(sd.check_unit("bad unit"), Err(SystemdError::UnsafeUnitName(_))));
    let st = sd
        .status_from_outcome("ark@x.service", &CommandOutcome::TimedOut)
        .unwrap();
    assert!(!st.active);
    assert_eq!(st.error.as_deref(), Some("systemctl show timed out"));
    let failed = CommandOutcome::Exited {
        success: false,
        stdout: String::new(),
        stderr: "  Access denied \n".into(),
        status: "exit status: 1".into(),
    };
    let err = sd.action_from_outcome("start", "ark@x.service", &failed).unwrap_err();
    assert_eq!(err.message(), "systemctl start failed for ark@x.service: Access denied");
    let ok = CommandOutcome::Exited { success: true, stdout: String::new(), stderr: String::new(), status: String::new() };
    assert!(sd.action_from_outcome("stop", "ark@x.service", &ok).is_ok());
}

#[test]
fn test_systemd_refuses_unsafe_units() {
    let t = TestSystemd;
    assert!(t.get_status("ark@home.service").is_ok());
    assert!(t.start_unit("ark@home.service").is_err());
    assert!(t.get_status("ark@travel-a.service").unwrap().active);
}

#[test]
fn unit_summaries_from_show_output() {
    let s = unit_summary_from("ActiveState=active\nSubState=running\nUnitFileState=enabled\n");
    assert!(s.active && s.enabled);
    assert_eq!(s.sub_state, "running");
    let s = unit_summary_from("SubState=dead\n");
    assert!(!s.active && !s.enabled);
    assert_eq!(s.active_state, "unknown");
    let u = unit_summary_unavailable();
    assert_eq!(u.active_state, "unavailable");
}
