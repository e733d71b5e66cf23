use disk_saturation::limits::{DeviceLimits, Limits};
use disk_saturation::metrics::{collect, normalize, DiskSample, NormalizedMetric};
use disk_saturation::resource::{Disk, VirtualMachine};
use disk_saturation::state::MetricState;

fn vm(max_iops: u64, max_bandwidth: u64) -> VirtualMachine {
    VirtualMachine { name: "Standard_D4s_v3".to_string(), location: "westus2".to_string(), max_iops, max_bandwidth }
}

fn disk(max_iops: u64, max_bandwidth: u64) -> Disk {
    Disk {
        location: "westus2".to_string(),
        storage_account_type: "Premium_LRS".to_string(),
        min_size_gb: 0,
        max_size_gb: 32,
        max_iops,
        max_bandwidth,
    }
}

/// A sample with the given operations and bytes per second, in thousandths.
fn sample(reads: u64, writes: u64, flushes: u64, read_bytes: u64, write_bytes: u64, discard_bytes: u64) -> DiskSample {
    DiskSample {
        reads_per_second: reads,
        writes_per_second: writes,
        flushes_per_second: flushes,
        read_bytes_per_second: read_bytes,
        write_bytes_per_second: write_bytes,
        discard_bytes_per_second: discard_bytes,
    }
}

#[test]
fn normalize_rounds_half_up_at_sixth_place() {
    // 123.4567891 / 1000, both scaled by 10^7
    assert_eq!(normalize(1234567891, 10_000_000_000, 6), 123457);
    assert_eq!(normalize(1, 2, 0), 1);
    assert_eq!(normalize(1, 3, 0), 0);
    assert_eq!(normalize(5, 4, 0), 1);
    assert_eq!(normalize(0, 7, 6), 0);
    assert_eq!(normalize(3, 2, 1), 15);
}

#[test]
fn sample_sums_operations_and_bytes() {
    let s = sample(1000, 2000, 500, 4096, 8192, 1024);
    assert_eq!(s.iops(), 3500);
    assert_eq!(s.throughput(), 13312);
}

#[test]
fn aggregate_sums_devices_against_vm_limit() {
    let mut disks = DeviceLimits::new();
    disks.insert("/dev/sda".to_string(), disk(500, 100 * 1048576));
    disks.insert("/dev/sdc".to_string(), disk(200, 100 * 1048576));
    let samples = vec![
        ("/dev/sda".to_string(), sample(60_000, 40_000, 0, 0, 0, 0)),
        ("/dev/sdc".to_string(), sample(50_000, 0, 0, 0, 0, 0)),
    ];
    let snapshot = collect(&samples, &vm(300, 1048576), &disks);
    assert_eq!(snapshot.len(), 3);
    let total = &snapshot[2];
    assert_eq!(total.device, "TOTAL");
    assert_eq!(total.iops, 150_000);
    assert_eq!(total.iops_ratio, Some(500_000));
    assert_eq!(snapshot[0].iops_ratio, Some(200_000));
    assert_eq!(snapshot[1].iops_ratio, Some(250_000));
}

#[test]
fn throughput_ratio_against_bandwidth() {
    let mut disks = DeviceLimits::new();
    disks.insert("/dev/sda".to_string(), disk(500, 1048576));
    let samples = vec![("/dev/sda".to_string(), sample(0, 0, 0, 262_144_000, 262_144_000, 0))];
    let snapshot = collect(&samples, &vm(300, 4 * 1048576), &disks);
    assert_eq!(snapshot[0].throughput, 524_288_000);
    assert_eq!(snapshot[0].throughput_ratio, Some(500_000));
    assert_eq!(snapshot[1].throughput_ratio, Some(125_000));
}

#[test]
fn unmapped_device_keeps_raw_series_only() {
    let mut disks = DeviceLimits::new();
    disks.insert("/dev/sda".to_string(), disk(100, 1048576));
    let samples = vec![
        ("/dev/sdz".to_string(), sample(10_000, 0, 0, 2_048_000, 0, 0)),
        ("/dev/sda".to_string(), sample(50_000, 0, 0, 0, 0, 0)),
    ];
    let snapshot = collect(&samples, &vm(200, 1048576), &disks);
    assert_eq!(
        snapshot[0],
        NormalizedMetric {
            device: "/dev/sdz".to_string(),
            iops: 10_000,
            throughput: 2_048_000,
            iops_ratio: None,
            throughput_ratio: None,
        }
    );
    assert_eq!(snapshot[1].iops_ratio, Some(500_000));
    assert_eq!(snapshot[2].device, "TOTAL");
    assert_eq!(snapshot[2].iops, 60_000);
    assert_eq!(snapshot[2].iops_ratio, Some(300_000));
}

#[test]
fn no_samples_gives_zero_total() {
    let snapshot = collect(&vec![], &vm(200, 1048576), &DeviceLimits::new());
    assert_eq!(snapshot.len(), 1);
    assert_eq!(snapshot[0].iops, 0);
    assert_eq!(snapshot[0].iops_ratio, Some(0));
}

#[test]
fn ratios_may_exceed_one() {
    let snapshot = collect(&vec![("/dev/sdb".to_string(), sample(450_000, 0, 0, 0, 0, 0))], &vm(300, 1048576), &DeviceLimits::new());
    assert_eq!(snapshot[1].iops_ratio, Some(1_500_000));
}

fn limits() -> Limits {
    let mut disks = DeviceLimits::new();
    disks.insert("/dev/sda".to_string(), disk(120, 25 * 1048576));
    Limits { virtual_machine: vm(6400, 100663296), disks }
}

#[test]
fn ticking_twice_is_idempotent() {
    let samples = vec![("/dev/sda".to_string(), sample(12_345, 6_789, 10, 1_000_000, 2_000_000, 0))];
    let mut state = MetricState::new(limits());
    assert!(state.published().is_none());
    state.tick(Some(&samples));
    let first = state.published().unwrap().clone();
    state.tick(Some(&samples));
    let second = state.published().unwrap().clone();
    assert_eq!(first, second);
    assert_eq!(first[0].iops_ratio, Some(159_533));
}

#[test]
fn failed_sampling_keeps_last_snapshot() {
    let samples = vec![("/dev/sda".to_string(), sample(60_000, 0, 0, 0, 0, 0))];
    let mut state = MetricState::new(limits());
    state.tick(None);
    assert!(state.published().is_none());
    state.tick(Some(&samples));
    let before = state.published().unwrap().clone();
    state.tick(None);
    assert_eq!(state.published().unwrap(), &before);
    assert_eq!(state.limits().virtual_machine.max_iops, 6400);
}
