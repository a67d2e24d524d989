use std::path::PathBuf;

use bitvm2_core::persist_report::{decimal_text, PersistExecutionReport};

#[test]
fn new_keeps_the_report_path() {
    let report = PersistExecutionReport::new(48816, PathBuf::from("/tmp/report.csv"), true, false);
    assert_eq!(report.report_path(), &PathBuf::from("/tmp/report.csv"));
}

#[test]
fn header_is_written_only_to_an_empty_file() {
    let report = PersistExecutionReport::new(1, PathBuf::from("r.csv"), false, false);
    assert_eq!(
        report.header_to_write(0),
        Some(vec![
            "block_number".to_string(),
            "proving_time".to_string(),
            "proving_cycles".to_string()
        ])
    );
    assert_eq!(report.header_to_write(1), None);
    assert_eq!(report.header_to_write(u64::MAX), None);
    assert_eq!(report.header_fields().len(), 3);
}

#[test]
fn record_renders_numbers_in_decimal() {
    let report = PersistExecutionReport::new(1, PathBuf::from("r.csv"), false, false);
    let record = report.record_fields(21_000_123, 987654321, 1.5f32.to_string());
    assert_eq!(record, vec!["21000123".to_string(), "987654321".to_string(), "1.5".to_string()]);
}

#[test]
fn decimal_text_matches_std_formatting() {
    for n in [0u64, 7, 9, 10, 99, 100, 120, 1_000_000, u64::MAX - 1, u64::MAX] {
        assert_eq!(decimal_text(n), n.to_string());
    }
    for n in 0u64..2000 {
        assert_eq!(decimal_text(n), n.to_string());
    }
}
