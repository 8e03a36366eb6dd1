use klava_core::coordinator::{stage_code, stage_label, Stage};
use klava_core::watchdog::{stage_name, Monitor, ReinstallLatch, StallReport};

#[test]
fn stage_names_mirror_labels() {
    assert_eq!(stage_name(0), "Idle");
    assert_eq!(stage_name(1), "Recording");
    assert_eq!(stage_name(2), "Processing");
    assert_eq!(stage_name(3), "?");
    assert_eq!(stage_name(255), "?");
    for s in [Stage::Idle, Stage::Recording("t".to_string()), Stage::Processing] {
        assert_eq!(stage_name(stage_code(&s)), stage_label(&s));
    }
}

#[test]
fn healthy_component_reports_nothing() {
    let mut m = Monitor::new("coordinator");
    assert_eq!(m.name(), "coordinator");
    assert_eq!(m.check(100_000, 95_000), (0, StallReport::Quiet));
    // exactly at the threshold is still healthy
    assert_eq!(m.check(110_000, 100_000), (0, StallReport::Quiet));
    // a heartbeat from the future is healthy too
    assert_eq!(m.check(100_000, 200_000), (0, StallReport::Quiet));
    assert_eq!(m.stalled_since(), None);
}

#[test]
fn stall_begin_ongoing_and_recovery_each_reported_once() {
    let mut m = Monitor::new("hotkey-manager");
    // beat at 1_000, checked at 11_001: 10_001 ms old
    assert_eq!(m.check(11_001, 1_000), (10_001, StallReport::Began { age_ms: 10_001 }));
    assert_eq!(m.stalled_since(), Some(1_000));
    assert_eq!(m.check(16_001, 1_000), (15_001, StallReport::Quiet));
    assert_eq!(m.check(41_000, 1_000), (40_000, StallReport::Quiet));
    assert_eq!(m.check(41_001, 1_000), (40_001, StallReport::Ongoing { age_ms: 40_001 }));
    assert_eq!(m.check(46_001, 1_000), (45_001, StallReport::Quiet));
    assert_eq!(m.check(51_000, 50_000), (0, StallReport::Recovered { after_ms: 50_000 }));
    assert_eq!(m.stalled_since(), None);
    assert_eq!(m.check(56_000, 55_000), (0, StallReport::Quiet));
    // a new stall is a new beginning
    assert_eq!(m.check(80_000, 60_000), (20_000, StallReport::Began { age_ms: 20_000 }));
}

#[test]
fn reinstall_fires_once_per_stall() {
    let mut l = ReinstallLatch::new();
    assert!(!l.should_reinstall(0));
    assert!(!l.should_reinstall(30_000));
    assert!(l.should_reinstall(30_001));
    assert!(!l.should_reinstall(35_000));
    // still stalled, though below the threshold: not re-armed
    assert!(!l.should_reinstall(12_000));
    assert!(!l.should_reinstall(40_000));
    // healthy again: re-armed
    assert!(!l.should_reinstall(0));
    assert!(l.should_reinstall(31_000));
}
