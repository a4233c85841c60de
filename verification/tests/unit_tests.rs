// Percentages are carried as integer tenths of a percent, so 50.0% is 500;
// the `as f64 / 10.0` conversions below state the expected values on the
// familiar percent scale.

use system_monitor::{
    calculate_percentage, format_bytes, generate_progress_bar, get_color_for_percentage,
};

#[test]
fn test_calculate_percentage() {
    assert_eq!(calculate_percentage(50, 100) as f64 / 10.0, 50.0);
    assert_eq!(calculate_percentage(0, 100) as f64 / 10.0, 0.0);
    assert_eq!(calculate_percentage(100, 100) as f64 / 10.0, 100.0);
    assert_eq!(calculate_percentage(75, 100) as f64 / 10.0, 75.0);

    // Edge case: division by zero
    assert_eq!(calculate_percentage(50, 0) as f64 / 10.0, 0.0);

    // Non-round numbers
    assert!((calculate_percentage(33, 100) as f64 / 10.0 - 33.0).abs() < 0.001);

    // Test larger numbers (like real memory values)
    assert_eq!(
        calculate_percentage(4_294_967_296, 8_589_934_592) as f64 / 10.0,
        50.0
    ); // 4GB of 8GB
}

#[test]
fn test_format_bytes() {
    // Test bytes
    assert_eq!(format_bytes(0), "0 B");
    assert_eq!(format_bytes(500), "500 B");
    assert_eq!(format_bytes(1023), "1023 B");

    // Test KB
    assert_eq!(format_bytes(1024), "1.0 KB");
    assert_eq!(format_bytes(1536), "1.5 KB");
    assert_eq!(format_bytes(1025), "1.0 KB");

    // Test MB
    assert_eq!(format_bytes(1048576), "1.0 MB");
    assert_eq!(format_bytes(1572864), "1.5 MB");

    // Test GB
    assert_eq!(format_bytes(1073741824), "1.0 GB");
    assert_eq!(format_bytes(2147483648), "2.0 GB");

    // Test real-world values
    assert_eq!(format_bytes(8_589_934_592), "8.0 GB"); // 8GB RAM
    assert_eq!(format_bytes(512_000_000_000), "476.8 GB"); // ~500GB disk
}

#[test]
fn test_get_color_for_percentage() {
    // Test normal range (green), 0.0% to 75.0%
    assert_eq!(get_color_for_percentage(0), "\x1B[32m");
    assert_eq!(get_color_for_percentage(500), "\x1B[32m");
    assert_eq!(get_color_for_percentage(750), "\x1B[32m");

    // Test high range (yellow), 75.1% to 90.0%
    assert_eq!(get_color_for_percentage(751), "\x1B[33m");
    assert_eq!(get_color_for_percentage(800), "\x1B[33m");
    assert_eq!(get_color_for_percentage(900), "\x1B[33m");

    // Test critical range (red), 90.1% and up
    assert_eq!(get_color_for_percentage(901), "\x1B[31m");
    assert_eq!(get_color_for_percentage(950), "\x1B[31m");
    assert_eq!(get_color_for_percentage(1000), "\x1B[31m");

    // Test edge cases
    assert_eq!(get_color_for_percentage(750), "\x1B[32m"); // Exactly 75%
    assert_eq!(get_color_for_percentage(900), "\x1B[33m"); // Exactly 90%
}

#[test]
fn test_generate_progress_bar_no_color() {
    // Test 0% progress
    let bar = generate_progress_bar(0, 1000, false);
    assert_eq!(bar, "[                                        ]");

    // Test 50% progress
    let bar = generate_progress_bar(500, 1000, false);
    assert_eq!(bar, "[████████████████████                    ]");

    // Test 100% progress
    let bar = generate_progress_bar(1000, 1000, false);
    assert_eq!(bar, "[████████████████████████████████████████]");

    // Test 25% progress
    let bar = generate_progress_bar(250, 1000, false);
    assert_eq!(bar, "[██████████                              ]");
}

#[test]
fn test_generate_progress_bar_with_color() {
    // Test normal range (green)
    let bar = generate_progress_bar(500, 1000, true);
    assert!(bar.contains("\x1B[32m")); // Contains green color
    assert!(bar.contains("\x1B[0m")); // Contains reset
    assert!(bar.contains("████████████████████"));

    // Test warning range (yellow)
    let bar = generate_progress_bar(800, 1000, true);
    assert!(bar.contains("\x1B[33m")); // Contains yellow color
    assert!(bar.contains("\x1B[0m")); // Contains reset

    // Test critical range (red)
    let bar = generate_progress_bar(950, 1000, true);
    assert!(bar.contains("\x1B[31m")); // Contains red color
    assert!(bar.contains("\x1B[0m")); // Contains reset
}

#[test]
fn test_progress_bar_length() {
    // All progress bars should be exactly 42 characters:
    // '[' + 40 progress chars + ']'

    let bar = generate_progress_bar(0, 1000, false);
    assert_eq!(bar.chars().count(), 42);

    let bar = generate_progress_bar(500, 1000, false);
    assert_eq!(bar.chars().count(), 42);

    let bar = generate_progress_bar(1000, 1000, false);
    assert_eq!(bar.chars().count(), 42);
}

#[test]
fn test_progress_bar_edge_cases() {
    // Division by zero in the max value renders an empty, full-width track
    let bar = generate_progress_bar(500, 0, false);
    assert!(bar.contains("["));
    assert!(bar.contains("]"));
    assert_eq!(bar, "[                                        ]");

    // Values over 100% are clamped to a full track
    let bar = generate_progress_bar(1200, 1000, false);
    assert!(bar.contains("["));
    assert!(bar.contains("]"));
    assert_eq!(bar, "[████████████████████████████████████████]");

    // The clamped bars keep the fixed width
    assert_eq!(generate_progress_bar(500, 0, false).chars().count(), 42);
    assert_eq!(generate_progress_bar(1200, 1000, false).chars().count(), 42);
}
