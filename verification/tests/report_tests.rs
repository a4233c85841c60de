use system_monitor::output::{available_formats, format_json, get_formatter, OutputFormatter};
use system_monitor::report::{render_report, DiskReading, Reading, Snapshot};

fn sample_snapshot() -> Snapshot {
    Snapshot {
        cpu_tenths: 250,
        memory: Reading {
            used: 512,
            total: 1024,
        },
        swap: Reading { used: 0, total: 0 },
        disks: vec![DiskReading {
            mount: "/".to_string(),
            used: 0,
            total: 0,
        }],
    }
}

#[test]
fn test_report_contains_section_headers() {
    let report = render_report(&sample_snapshot(), false);
    assert!(report.contains("SYSTEM MONITOR"));
    assert!(report.contains("CPU Usage:"));
    assert!(report.contains("Memory:"));
    assert!(report.contains("Disk Usage:"));
    assert!(report.contains("Press Ctrl+C to exit..."));
    assert!(report.contains("█"));
}

#[test]
fn test_report_exact_text() {
    let report = render_report(&sample_snapshot(), false);
    let expected = "=== SYSTEM MONITOR ===\n\n\
                    CPU Usage: 25.0%\n\
                    [██████████                              ]\n\
                    \n\
                    Memory: 50.0% (512 B / 1.0 KB)\n\
                    [████████████████████                    ]\n\
                    \n\
                    Disk Usage:\n\
                    \x20\x20/: 0.0% (0 B / 0 B)\n\
                    [                                        ]\n\
                    \n\
                    Press Ctrl+C to exit...\n";
    assert_eq!(report, expected);
}

#[test]
fn test_report_no_color_has_no_ansi_codes() {
    let report = render_report(&sample_snapshot(), false);
    assert!(!report.contains('\x1B'));
    assert!(!report.contains("\x1B[31m"));
    assert!(!report.contains("\x1B[33m"));
    assert!(!report.contains("\x1B[32m"));
    assert!(!report.contains("\x1B[0m"));
}

#[test]
fn test_report_with_color_contains_ansi_codes() {
    let report = render_report(&sample_snapshot(), true);
    assert!(report.contains("\x1B[32m")); // low percentages: green
    assert!(report.contains("\x1B[0m")); // every bar resets
}

#[test]
fn test_report_swap_section() {
    // A zero swap capacity omits the section entirely
    let without = render_report(&sample_snapshot(), false);
    assert!(!without.contains("Swap:"));

    // A present swap capacity renders it between memory and the disks
    let mut snapshot = sample_snapshot();
    snapshot.swap = Reading {
        used: 1024,
        total: 4096,
    };
    let with = render_report(&snapshot, false);
    assert!(with.contains("Swap: 25.0% (1.0 KB / 4.0 KB)"));
}

#[test]
fn test_json_exact_document() {
    let document = format_json(&sample_snapshot());
    assert_eq!(
        document,
        "{\"cpu_percent_tenths\":250,\
         \"memory\":{\"used\":512,\"total\":1024},\
         \"swap\":{\"used\":0,\"total\":0},\
         \"disks\":[{\"mount\":\"/\",\"used\":0,\"total\":0}]}"
    );
}

#[test]
fn test_json_escapes_mount_paths() {
    let mut snapshot = sample_snapshot();
    snapshot.disks = vec![
        DiskReading {
            mount: "C:\\data".to_string(),
            used: 10,
            total: 20,
        },
        DiskReading {
            mount: "odd\"name".to_string(),
            used: 1,
            total: 2,
        },
    ];
    let document = format_json(&snapshot);
    assert!(document.contains("{\"mount\":\"C:\\\\data\",\"used\":10,\"total\":20}"));
    assert!(document.contains("{\"mount\":\"odd\\\"name\",\"used\":1,\"total\":2}"));
    // The two disk objects are comma-separated inside one array
    assert!(document.contains("\"total\":20},{\"mount\":"));
}

#[test]
fn test_get_formatter() {
    assert!(get_formatter("json").is_some());
    assert!(get_formatter("JSON").is_some());
    assert!(get_formatter("Json").is_some());
    assert!(get_formatter("xml").is_none());
    assert!(get_formatter("jsonx").is_none());
    assert!(get_formatter("").is_none());
}

#[test]
fn test_formatter_trait_surface() {
    let formatter = get_formatter("json").expect("json formatter is registered");
    assert_eq!(formatter.name(), "json");
    assert_eq!(formatter.extension(), "json");
    let snapshot = sample_snapshot();
    assert_eq!(formatter.format(&snapshot), format_json(&snapshot));
}

#[test]
fn test_available_formats() {
    assert_eq!(available_formats(), vec!["json"]);
}
