use monitor_dump::decimal::{i64_to_string, u64_to_string};
use monitor_dump::monitor::{render_block, render_report, MonitorInfo};

fn monitor(name: Option<&str>, width: u32, height: u32, x: i32, y: i32) -> MonitorInfo {
    MonitorInfo { name: name.map(|n| n.to_string()), width, height, x, y }
}

#[test]
fn u64_rendering_exact() {
    assert_eq!(u64_to_string(0), "0");
    assert_eq!(u64_to_string(7), "7");
    assert_eq!(u64_to_string(10), "10");
    assert_eq!(u64_to_string(1920), "1920");
    assert_eq!(u64_to_string(u64::MAX), "18446744073709551615");
}

#[test]
fn i64_rendering_exact() {
    assert_eq!(i64_to_string(0), "0");
    assert_eq!(i64_to_string(-5), "-5");
    assert_eq!(i64_to_string(1920), "1920");
    assert_eq!(i64_to_string(-1080), "-1080");
    assert_eq!(i64_to_string(i64::MAX), "9223372036854775807");
    assert_eq!(i64_to_string(i64::MIN), "-9223372036854775808");
}

#[test]
fn block_for_primary_monitor() {
    let m = monitor(Some("DP-1"), 1920, 1080, 0, 0);
    let block = render_block(&m, true);
    assert_eq!(block, "Primary monitor: DP-1\nCurrent mode: +1920x1080+\n  Position: 0,0\n");
}

#[test]
fn block_without_name_uses_placeholder() {
    let m = monitor(None, 1280, 1024, 1920, 0);
    let block = render_block(&m, false);
    assert_eq!(block, "Monitor: [no name]\nCurrent mode: +1280x1024+\n  Position: 1920,0\n");
}

#[test]
fn block_with_name_uses_exact_name() {
    let m = monitor(Some("HDMI-A-2"), 640, 480, 10, 20);
    let block = render_block(&m, false);
    assert_eq!(block, "Monitor: HDMI-A-2\nCurrent mode: +640x480+\n  Position: 10,20\n");
}

#[test]
fn block_with_negative_position() {
    let m = monitor(Some("DP-3"), 800, 600, -1920, -200);
    let block = render_block(&m, false);
    assert_eq!(block, "Monitor: DP-3\nCurrent mode: +800x600+\n  Position: -1920,-200\n");
}

#[test]
fn report_two_monitors_with_primary() {
    let primary = Some(monitor(Some("DP-1"), 1920, 1080, 0, 0));
    let monitors = vec![
        monitor(Some("DP-1"), 1920, 1080, 0, 0),
        monitor(None, 1280, 1024, 1920, 0),
    ];
    let report = render_report(&primary, &monitors);
    let expected = "Primary monitor: DP-1\n\
                    Current mode: +1920x1080+\n\
                    \u{20}\u{20}Position: 0,0\n\
                    Monitor: [no name]\n\
                    Current mode: +1280x1024+\n\
                    \u{20}\u{20}Position: 1920,0\n";
    assert_eq!(report, expected);
}

#[test]
fn report_zero_monitors_is_empty() {
    let report = render_report(&None, &Vec::new());
    assert_eq!(report, "");
}

#[test]
fn report_without_primary_labels_all_as_monitor() {
    let monitors = vec![
        monitor(Some("A"), 100, 200, 0, 0),
        monitor(Some("B"), 300, 400, 100, 0),
    ];
    let report = render_report(&None, &monitors);
    let expected = "Monitor: A\nCurrent mode: +100x200+\n  Position: 0,0\n\
                    Monitor: B\nCurrent mode: +300x400+\n  Position: 100,0\n";
    assert_eq!(report, expected);
}

#[test]
fn report_keeps_platform_order() {
    let monitors = vec![
        monitor(Some("B"), 300, 400, 100, 0),
        monitor(Some("A"), 100, 200, 0, 0),
    ];
    let report = render_report(&None, &monitors);
    let expected = "Monitor: B\nCurrent mode: +300x400+\n  Position: 100,0\n\
                    Monitor: A\nCurrent mode: +100x200+\n  Position: 0,0\n";
    assert_eq!(report, expected);
}

#[test]
fn report_duplicate_of_primary_labels_both() {
    let primary = Some(monitor(Some("A"), 100, 200, 0, 0));
    let monitors = vec![
        monitor(Some("A"), 100, 200, 0, 0),
        monitor(Some("A"), 100, 200, 0, 0),
    ];
    let report = render_report(&primary, &monitors);
    let expected = "Primary monitor: A\nCurrent mode: +100x200+\n  Position: 0,0\n\
                    Primary monitor: A\nCurrent mode: +100x200+\n  Position: 0,0\n";
    assert_eq!(report, expected);
}

#[test]
fn same_monitor_compares_every_field() {
    let a = monitor(Some("A"), 100, 200, 0, 0);
    assert!(a.same_monitor(&monitor(Some("A"), 100, 200, 0, 0)));
    assert!(!a.same_monitor(&monitor(Some("B"), 100, 200, 0, 0)));
    assert!(!a.same_monitor(&monitor(None, 100, 200, 0, 0)));
    assert!(!a.same_monitor(&monitor(Some("A"), 101, 200, 0, 0)));
    assert!(!a.same_monitor(&monitor(Some("A"), 100, 201, 0, 0)));
    assert!(!a.same_monitor(&monitor(Some("A"), 100, 200, 1, 0)));
    assert!(!a.same_monitor(&monitor(Some("A"), 100, 200, 0, 1)));
    let unnamed = monitor(None, 100, 200, 0, 0);
    assert!(unnamed.same_monitor(&monitor(None, 100, 200, 0, 0)));
}
