use agent_supervisor::metrics::{
    memory_mb, summarize, DiskSpace, HostSample, MetricsSummary, BYTES_PER_GB, BYTES_PER_MB,
};

fn disk(total_bytes: u64, available_bytes: u64) -> DiskSpace {
    DiskSpace { total_bytes, available_bytes }
}

#[test]
fn unit_sizes() {
    assert_eq!(BYTES_PER_MB, 1024 * 1024);
    assert_eq!(BYTES_PER_GB, 1024 * 1024 * 1024);
}

#[test]
fn memory_is_counted_in_whole_mebibytes() {
    assert_eq!(memory_mb(0), 0);
    assert_eq!(memory_mb(1_048_575), 0);
    assert_eq!(memory_mb(1_048_576), 1);
    assert_eq!(memory_mb(1_048_577), 1);
    assert_eq!(memory_mb(8 * 1_073_741_824), 8192);
    assert_eq!(memory_mb(u64::MAX), 17_592_186_044_415);
}

#[test]
fn summary_of_a_usual_host() {
    let sample = HostSample {
        memory_used_bytes: 6_442_450_944,
        memory_total_bytes: 17_179_869_184,
        disks: vec![
            disk(500_000_000_000, 120_000_000_000),
            disk(1_000_000_000_000, 900_000_000_000),
        ],
    };
    assert_eq!(
        summarize(&sample),
        MetricsSummary {
            memory_used_mb: 6144,
            memory_total_mb: 16384,
            disk_used_bytes: 480_000_000_000,
            disk_total_bytes: 1_500_000_000_000,
        }
    );
}

#[test]
fn summary_without_disks() {
    let sample = HostSample { memory_used_bytes: 0, memory_total_bytes: 0, disks: Vec::new() };
    assert_eq!(
        summarize(&sample),
        MetricsSummary {
            memory_used_mb: 0,
            memory_total_mb: 0,
            disk_used_bytes: 0,
            disk_total_bytes: 0,
        }
    );
}

#[test]
fn disk_use_is_zero_when_more_is_available_than_there_is() {
    let sample = HostSample {
        memory_used_bytes: 1,
        memory_total_bytes: 2,
        disks: vec![disk(100, 150), disk(10, 0)],
    };
    let summary = summarize(&sample);
    assert_eq!(summary.disk_total_bytes, 110);
    assert_eq!(summary.disk_used_bytes, 0);
}

#[test]
fn disk_use_is_taken_over_the_sums_not_volume_by_volume() {
    let sample = HostSample {
        memory_used_bytes: 0,
        memory_total_bytes: 0,
        disks: vec![disk(100, 150), disk(100, 0)],
    };
    let summary = summarize(&sample);
    assert_eq!(summary.disk_total_bytes, 200);
    assert_eq!(summary.disk_used_bytes, 50);
}

#[test]
fn disk_sums_go_beyond_sixty_four_bits() {
    let sample = HostSample {
        memory_used_bytes: 0,
        memory_total_bytes: 0,
        disks: vec![disk(u64::MAX, 1), disk(u64::MAX, 0), disk(u64::MAX, u64::MAX)],
    };
    let summary = summarize(&sample);
    assert_eq!(summary.disk_total_bytes, 3 * (u64::MAX as u128));
    assert_eq!(summary.disk_used_bytes, 2 * (u64::MAX as u128) - 1);
}

#[test]
fn used_never_exceeds_total() {
    let samples = [
        (0u64, 0u64, vec![]),
        (5_000_000, 9_000_000, vec![disk(1, 0)]),
        (1_048_576, 1_048_576, vec![disk(7, 7), disk(9, 3)]),
        (1_048_575, 1_048_576, vec![disk(0, 9)]),
        (u64::MAX - 1, u64::MAX, vec![disk(u64::MAX, 5), disk(3, u64::MAX)]),
    ];
    for (used, total, disks) in samples {
        let sample = HostSample { memory_used_bytes: used, memory_total_bytes: total, disks };
        let summary = summarize(&sample);
        assert!(summary.memory_used_mb <= summary.memory_total_mb);
        assert!(summary.disk_used_bytes <= summary.disk_total_bytes);
    }
}
