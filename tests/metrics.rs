use flutter_editor::decimal::to_decimal;
use flutter_editor::metrics::{percent_of, DiskSpace, SystemSnapshot};

fn snapshot(total_kb: u64, used_kb: u64, disk: Option<DiskSpace>, vsize: Option<u64>) -> SystemSnapshot {
    SystemSnapshot {
        total_memory_kb: total_kb,
        used_memory_kb: used_kb,
        first_disk: disk,
        process_virtual_memory_bytes: vsize,
    }
}

#[test]
fn decimal_text_of_numbers() {
    assert_eq!(to_decimal(0), "0");
    assert_eq!(to_decimal(7), "7");
    assert_eq!(to_decimal(10), "10");
    assert_eq!(to_decimal(1234567890), "1234567890");
    assert_eq!(to_decimal(u128::MAX), u128::MAX.to_string());
}

#[test]
fn memory_summary_divides_kb_by_1024() {
    let s = snapshot(8_388_608, 2_097_152, None, None);
    assert_eq!(s.memory_summary(), "2048 MB / 8192 MB (25%)");
}

#[test]
fn memory_summary_truncates_percent() {
    // 2/3 of the memory is 66.67%, reported as 66
    let s = snapshot(3072, 2048, None, None);
    assert_eq!(s.memory_summary(), "2 MB / 3 MB (66%)");
}

#[test]
fn memory_summary_percent_stays_in_range() {
    for (total, used) in [(1u64, 0u64), (1, 1), (1023, 1022), (u64::MAX, u64::MAX), (u64::MAX, u64::MAX - 1), (100, 99)] {
        let pct = percent_of(used, total);
        assert!(pct <= 100);
    }
    let s = snapshot(4096, 4096, None, None);
    assert_eq!(s.memory_summary(), "4 MB / 4 MB (100%)");
}

#[test]
fn memory_summary_with_no_memory() {
    let s = snapshot(0, 0, None, None);
    assert_eq!(s.memory_summary(), "0 MB / 0 MB (0%)");
}

#[test]
fn disk_summary_of_first_disk() {
    let gib: u64 = 1024 * 1024 * 1024;
    let disk = DiskSpace { total_bytes: 100 * gib, free_bytes: 25 * gib };
    let s = snapshot(0, 0, Some(disk), None);
    assert_eq!(s.disk_summary(), "75 GB used / 100 GB total (75%)");
}

#[test]
fn disk_summary_rounds_percent_down() {
    let disk = DiskSpace { total_bytes: 3, free_bytes: 1 };
    let s = snapshot(0, 0, Some(disk), None);
    assert_eq!(s.disk_summary(), "0 GB used / 0 GB total (66%)");
    for (total, free) in [(7u64, 0u64), (7, 3), (1000, 1), (u64::MAX, 12345)] {
        let pct = percent_of(total - free, total) as u128;
        let used = (total - free) as u128;
        assert!(pct * total as u128 <= used * 100);
        assert!(used * 100 < (pct + 1) * total as u128);
    }
}

#[test]
fn disk_summary_with_more_free_than_total() {
    let disk = DiskSpace { total_bytes: 10, free_bytes: 20 };
    let s = snapshot(0, 0, Some(disk), None);
    assert_eq!(s.disk_summary(), "0 GB used / 0 GB total (0%)");
}

#[test]
fn disk_summary_without_disk() {
    let s = snapshot(0, 0, None, None);
    assert_eq!(s.disk_summary(), "Disk information unavailable.");
}

#[test]
fn process_memory_summary_in_mb() {
    let s = snapshot(0, 0, None, Some(50 * 1024 * 1024 + 1000));
    assert_eq!(s.process_memory_summary(), "Program memory: 50 MB");
    let none = snapshot(0, 0, None, None);
    assert_eq!(none.process_memory_summary(), "Program memory usage unavailable.");
}
