use memtrace::report::{MemorySample, Report};

fn mem(rss: u64, vms: u64, shared: u64) -> MemorySample {
    MemorySample { rss, vms, shared }
}

fn report_of(records: Vec<(MemorySample, u64)>) -> Report {
    Report::new(records, 10, 20)
}

#[test]
fn two_samples_mean_and_peak() {
    let r = report_of(vec![(mem(100, 1000, 10), 1000), (mem(200, 3000, 30), 2000)]);
    assert_eq!(r.mean_cpu_percentage(), Some(1500));
    assert_eq!(r.max_cpu_percentage(), 2000);
    assert_eq!(r.mean_rss_memory(), Some(150));
    assert_eq!(r.max_rss_memory(), Some(200));
    assert_eq!(r.mean_vms_memory(), Some(2000));
    assert_eq!(r.max_vms_memory(), Some(3000));
    assert_eq!(r.mean_shared_memory(), Some(20));
    assert_eq!(r.max_shared_memory(), Some(30));
}

#[test]
fn empty_report_statistics() {
    let r = report_of(vec![]);
    assert_eq!(r.mean_cpu_percentage(), None);
    assert_eq!(r.max_cpu_percentage(), 0);
    assert_eq!(r.mean_rss_memory(), None);
    assert_eq!(r.max_rss_memory(), None);
    assert_eq!(r.mean_vms_memory(), None);
    assert_eq!(r.max_vms_memory(), None);
    assert_eq!(r.mean_shared_memory(), None);
    assert_eq!(r.max_shared_memory(), None);
}

#[test]
fn mean_truncates() {
    let r = report_of(vec![(mem(1, 0, 0), 1), (mem(2, 0, 0), 2)]);
    assert_eq!(r.mean_rss_memory(), Some(1));
    assert_eq!(r.mean_cpu_percentage(), Some(1));
}

#[test]
fn peak_at_least_mean_on_values() {
    let r = report_of(vec![(mem(3, 3, 3), 3), (mem(5, 5, 5), 5), (mem(10, 10, 10), 10)]);
    assert_eq!(r.mean_rss_memory(), Some(6));
    assert!(r.mean_rss_memory().unwrap() <= r.max_rss_memory().unwrap());
    assert!(r.mean_cpu_percentage().unwrap() <= r.max_cpu_percentage());
}

#[test]
fn peak_equals_mean_when_all_equal() {
    let r = report_of(vec![(mem(7, 8, 9), 42); 3]);
    assert_eq!(r.mean_rss_memory(), r.max_rss_memory());
    assert_eq!(r.mean_vms_memory(), r.max_vms_memory());
    assert_eq!(r.mean_shared_memory(), r.max_shared_memory());
    assert_eq!(r.mean_cpu_percentage(), Some(r.max_cpu_percentage()));
}

#[test]
fn largest_values_do_not_overflow() {
    let r = report_of(vec![(mem(u64::MAX, u64::MAX, u64::MAX), u64::MAX); 4]);
    assert_eq!(r.mean_rss_memory(), Some(u64::MAX));
    assert_eq!(r.mean_cpu_percentage(), Some(u64::MAX));
    assert_eq!(r.max_vms_memory(), Some(u64::MAX));
}

#[test]
fn series_round_trip() {
    let records = vec![(mem(5, 6, 7), 300), (mem(1, 2, 3), 100), (mem(9, 8, 7), 200)];
    let r = report_of(records.clone());
    assert_eq!(r.memory, records.iter().map(|p| p.0).collect::<Vec<_>>());
    assert_eq!(r.cpu, vec![300, 100, 200]);
    assert_eq!(r.time_start, 10);
    assert_eq!(r.time_end, 20);
    assert_eq!(r.duration_nanos(), 10);
}

#[test]
fn statistics_are_idempotent() {
    let r = report_of(vec![(mem(4, 5, 6), 70), (mem(8, 1, 2), 30)]);
    assert_eq!(r.mean_rss_memory(), r.mean_rss_memory());
    assert_eq!(r.max_vms_memory(), r.max_vms_memory());
    assert_eq!(r.mean_cpu_percentage(), r.mean_cpu_percentage());
    assert_eq!(r.max_cpu_percentage(), r.max_cpu_percentage());
    assert_eq!(r.mean_shared_memory(), r.mean_shared_memory());
}

#[test]
fn mean_below_peak_when_values_differ() {
    let r = report_of(vec![(mem(1, 9, 9), 99), (mem(2, 9, 9), 100)]);
    assert_eq!(r.mean_rss_memory(), Some(1));
    assert!(r.mean_rss_memory().unwrap() < r.max_rss_memory().unwrap());
    assert!(r.mean_cpu_percentage().unwrap() < r.max_cpu_percentage());
    assert_eq!(r.mean_vms_memory(), r.max_vms_memory());
}
