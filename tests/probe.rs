use hostprobe::battery::{battery_source, file_reading, BatterySource, Metric, SysfsPaths};
use hostprobe::command::{invocation, pipeline};
use hostprobe::package::{package_managers, Action, Detector, Fail, Failure, Manager};
use hostprobe::platform::OsFamily;
use hostprobe::text::pop_newline;

fn fresh_fail() -> Fail {
    Fail { packages: Failure { failed: false } }
}

fn linux_paths() -> SysfsPaths {
    SysfsPaths {
        capacity: "/sys/class/power_supply/BAT0/capacity".to_string(),
        status: "/sys/class/power_supply/BAT0/status".to_string(),
    }
}

/// Drives a detection, answering each probe from `present` and each count
/// with `count_output`; returns the indices probed and counted.
fn drive(d: &mut Detector, present: &[bool], count_output: &str) -> (Vec<usize>, Vec<usize>) {
    let mut probed = Vec::new();
    let mut counted = Vec::new();
    loop {
        match d.next_action() {
            Action::Probe(i) => {
                probed.push(i);
                let out = if present[i] { "/usr/bin/tool\n" } else { "" };
                d.on_probe(out);
            }
            Action::Count(i) => {
                counted.push(i);
                d.on_count(count_output);
            }
            Action::Finished => return (probed, counted),
        }
    }
}

#[test]
fn normalize_keeps_text_without_newline() {
    assert_eq!(pop_newline("87".to_string()), "87");
    assert_eq!(pop_newline(String::new()), "");
    assert_eq!(pop_newline("a\nb".to_string()), "a\nb");
}

#[test]
fn normalize_strips_one_newline() {
    assert_eq!(pop_newline("Charging\n".to_string()), "Charging");
    assert_eq!(pop_newline("\n".to_string()), "");
}

#[test]
fn normalize_strips_only_one_newline() {
    assert_eq!(pop_newline("87\n\n".to_string()), "87\n");
}

#[test]
fn sysfs_reading_of_file_contents() {
    assert_eq!(file_reading(Some("87\n".to_string())), "87");
}

#[test]
fn sysfs_reading_of_missing_file() {
    assert_eq!(file_reading(None), "");
}

#[test]
fn linux_battery_reads_sysfs_files() {
    let paths = linux_paths();
    match battery_source(OsFamily::Linux, Metric::Percentage, &paths) {
        BatterySource::File(p) => assert_eq!(p, "/sys/class/power_supply/BAT0/capacity"),
        BatterySource::Query(_) => panic!("expected a file"),
    }
    match battery_source(OsFamily::Linux, Metric::Status, &paths) {
        BatterySource::File(p) => assert_eq!(p, "/sys/class/power_supply/BAT0/status"),
        BatterySource::Query(_) => panic!("expected a file"),
    }
}

#[test]
fn netbsd_battery_queries_sysctl() {
    let paths = linux_paths();
    match battery_source(OsFamily::NetBsd, Metric::Percentage, &paths) {
        BatterySource::Query(c) => {
            assert_eq!(c.program, "sysctl");
            assert_eq!(c.args, vec!["-n", "-b", "hw.acpi.battery.life"]);
        }
        BatterySource::File(_) => panic!("expected a query"),
    }
    match battery_source(OsFamily::NetBsd, Metric::Status, &paths) {
        BatterySource::Query(c) => {
            assert_eq!(c.program, "sysctl");
            assert_eq!(c.args, vec!["-n", "-b", "hw.acpi.battery.state"]);
        }
        BatterySource::File(_) => panic!("expected a query"),
    }
}

#[test]
fn linux_candidates_in_priority_order() {
    let ms = package_managers(OsFamily::Linux);
    let tools: Vec<&str> = ms.iter().map(|m| m.tool.as_str()).collect();
    assert_eq!(tools, vec!["pacman", "dpkg", "emerge"]);
    assert_eq!(ms[0].probe.program, "which");
    assert_eq!(ms[0].probe.args, vec!["pacman"]);
    assert_eq!(ms[0].count.source.program, "pacman");
    assert_eq!(ms[0].count.source.args, vec!["-Q", "-q"]);
    assert_eq!(ms[1].count.source.program, "dpkg");
    assert_eq!(ms[1].count.source.args, vec!["-l"]);
    assert_eq!(ms[2].count.source.program, "ls");
    assert_eq!(ms[2].count.source.args, vec!["/var/db/pkg/*"]);
    for m in &ms {
        assert_eq!(m.count.sink.program, "wc");
        assert_eq!(m.count.sink.args, vec!["-l"]);
    }
}

#[test]
fn netbsd_candidate_is_pkg_info() {
    let ms = package_managers(OsFamily::NetBsd);
    assert_eq!(ms.len(), 1);
    assert_eq!(ms[0].tool, "pkg_info");
    assert_eq!(ms[0].probe.args, vec!["pkg_info"]);
    assert_eq!(ms[0].count.source.program, "pkg_info");
    assert!(ms[0].count.source.args.is_empty());
}

#[test]
fn detector_counts_first_present_and_stops() {
    let mut d = Detector::for_os(OsFamily::Linux);
    let (probed, counted) = drive(&mut d, &[false, true, true], "  42\n");
    assert_eq!(probed, vec![0, 1]);
    assert_eq!(counted, vec![1]);
    let mut fail = fresh_fail();
    assert_eq!(d.finish(&mut fail), "42");
    assert!(!fail.packages.failed);
}

#[test]
fn detector_prefers_highest_priority() {
    let mut d = Detector::for_os(OsFamily::Linux);
    let (probed, counted) = drive(&mut d, &[true, true, true], "7\n");
    assert_eq!(probed, vec![0]);
    assert_eq!(counted, vec![0]);
    assert_eq!(d.outcome(), ("7".to_string(), true));
}

#[test]
fn detector_not_found_sets_failure() {
    let mut d = Detector::for_os(OsFamily::Linux);
    let (probed, counted) = drive(&mut d, &[false, false, false], "");
    assert_eq!(probed, vec![0, 1, 2]);
    assert!(counted.is_empty());
    let mut fail = fresh_fail();
    assert_eq!(d.finish(&mut fail), "0");
    assert!(fail.packages.failed);
    assert_eq!(d.outcome(), ("0".to_string(), false));
}

#[test]
fn detector_never_clears_failure() {
    let mut d = Detector::for_os(OsFamily::NetBsd);
    drive(&mut d, &[true], "12\n");
    let mut fail = Fail { packages: Failure { failed: true } };
    assert_eq!(d.finish(&mut fail), "12");
    assert!(fail.packages.failed);
}

#[test]
fn detector_over_no_candidates() {
    let mut d = Detector::new(Vec::new());
    assert_eq!(d.next_action(), Action::Finished);
    let mut fail = fresh_fail();
    assert_eq!(d.finish(&mut fail), "0");
    assert!(fail.packages.failed);
}

#[test]
fn piped_line_count_is_trimmed() {
    let m = Manager {
        tool: "lines".to_string(),
        probe: invocation("which", &["lines"]),
        count: pipeline(invocation("echo", &["a\nb\nc"]), invocation("wc", &["-l"])),
    };
    let mut d = Detector::new(vec![m]);
    drive(&mut d, &[true], "3\n");
    assert_eq!(d.outcome(), ("3".to_string(), true));
}

#[test]
fn end_to_end_linux_without_battery_with_dpkg() {
    let paths = linux_paths();
    let percentage = match battery_source(OsFamily::Linux, Metric::Percentage, &paths) {
        BatterySource::File(_) => file_reading(None),
        BatterySource::Query(_) => panic!("expected a file"),
    };
    let status = match battery_source(OsFamily::Linux, Metric::Status, &paths) {
        BatterySource::File(_) => file_reading(None),
        BatterySource::Query(_) => panic!("expected a file"),
    };
    let mut d = Detector::for_os(OsFamily::Linux);
    let (probed, counted) = drive(&mut d, &[false, true, false], "3\n");
    let mut fail = fresh_fail();
    let count = d.finish(&mut fail);
    assert_eq!(percentage, "");
    assert_eq!(status, "");
    assert_eq!(probed, vec![0, 1]);
    assert_eq!(counted, vec![1]);
    assert_eq!(count, "3");
    assert!(!fail.packages.failed);
}
