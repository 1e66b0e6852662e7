use chlorophyll::history::{format_record, severity_hint, LevelHint, LogHistory};
use chlorophyll::textfmt::{str_contains, u32_to_string};

#[test]
fn capacity_evicts_oldest_first() {
    let mut h = LogHistory::new(3);
    for i in 1..=5u32 {
        h.push_record(format!("r{i}"));
    }
    assert_eq!(h.len(), 3);
    assert_eq!(h.window(0, 3), vec!["r3", "r4", "r5"]);
}

#[test]
fn full_window_after_large_overflow() {
    // Capacity 1000, 1500 sequential records: the full window holds
    // records 501..=1500 in order.
    let mut h = LogHistory::new(1000);
    for i in 1..=1500u32 {
        h.push_record(format!("record{i}"));
    }
    assert_eq!(h.len(), 1000);
    let w = h.window(0, 1000);
    assert_eq!(w.len(), 1000);
    assert_eq!(w[0], "record501");
    assert_eq!(w[999], "record1500");
    for (k, row) in w.iter().enumerate() {
        assert_eq!(row, &format!("record{}", 501 + k));
    }
}

#[test]
fn window_clamps_offset_and_length() {
    let mut h = LogHistory::new(100);
    for i in 0..10u32 {
        h.push_record(format!("r{i}"));
    }
    // Requested offset far past the end: clamped to len - height.
    assert_eq!(h.window(usize::MAX, 3), vec!["r7", "r8", "r9"]);
    // In-range offset used as-is, counting from the oldest record.
    assert_eq!(h.window(2, 3), vec!["r2", "r3", "r4"]);
    // Viewport taller than the history: every record, in order.
    let all = h.window(0, 50);
    assert_eq!(all.len(), 10);
    assert_eq!(all[0], "r0");
    // Zero-height viewport: nothing.
    assert_eq!(h.window(0, 0), Vec::<String>::new());
}

#[test]
fn window_of_empty_history_is_empty() {
    let h = LogHistory::new(5);
    assert_eq!(h.len(), 0);
    assert_eq!(h.window(0, 4), Vec::<String>::new());
}

#[test]
fn record_formats_like_the_tracing_layer() {
    let mut h = LogHistory::new(10);
    h.record("INFO", "app", "hello", "main.rs", 42);
    h.record("ERROR", "app", "", "main.rs", 7);
    let w = h.window(0, 10);
    assert_eq!(w[0], "[INFO] app: hello (main.rs:42)");
    assert_eq!(w[1], "[ERROR] app (main.rs:7)");
}

#[test]
fn severity_hint_matches_level_substring() {
    assert_eq!(severity_hint("[ERROR] app: boom (a.rs:1)"), LevelHint::Error);
    assert_eq!(severity_hint("[WARN] app: hm (a.rs:1)"), LevelHint::Warn);
    assert_eq!(severity_hint("[DEBUG] app: dbg (a.rs:1)"), LevelHint::Debug);
    assert_eq!(severity_hint("[TRACE] app: t (a.rs:1)"), LevelHint::Trace);
    assert_eq!(severity_hint("[INFO] app: ok (a.rs:1)"), LevelHint::Info);
    assert_eq!(severity_hint("no level here"), LevelHint::Info);
}

#[test]
fn severity_hint_is_stable_across_calls() {
    let line = "[WARN] app: watch out (a.rs:9)";
    assert_eq!(severity_hint(line), severity_hint(line));
}

#[test]
fn format_record_builds_the_exact_line() {
    assert_eq!(
        format_record("INFO", "net", "joined", "net.rs", 3),
        "[INFO] net: joined (net.rs:3)"
    );
    assert_eq!(format_record("TRACE", "net", "", "net.rs", 0), "[TRACE] net (net.rs:0)");
}

#[test]
fn decimal_rendering() {
    assert_eq!(u32_to_string(0), "0");
    assert_eq!(u32_to_string(7), "7");
    assert_eq!(u32_to_string(42), "42");
    assert_eq!(u32_to_string(5000), "5000");
    assert_eq!(u32_to_string(u32::MAX), "4294967295");
}

#[test]
fn substring_search() {
    assert!(str_contains("hello world", "world"));
    assert!(str_contains("hello world", "hello"));
    assert!(str_contains("hello world", "o w"));
    assert!(str_contains("hello world", ""));
    assert!(!str_contains("hello world", "worlds"));
    assert!(!str_contains("short", "much longer pattern"));
    assert!(!str_contains("", "x"));
    assert!(str_contains("", ""));
}
