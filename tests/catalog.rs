use disk_saturation::capability::CapabilityTable;
use disk_saturation::decimal::parse_u64;
use disk_saturation::error::LimitError;
use disk_saturation::resolve::{exactly_one, get_disk_sku, get_vm_sku, list_disk_skus};
use disk_saturation::resource::{Capability, Disk, Resource, ResourceList, VirtualMachine};

fn cap(name: &str, value: &str) -> Capability {
    Capability { name: name.to_string(), value: value.to_string() }
}

fn record(resource_type: &str, name: &str, location: &str, caps: Vec<Capability>) -> Resource {
    Resource {
        capabilities: caps,
        locations: vec![location.to_string()],
        name: name.to_string(),
        resource_type: resource_type.to_string(),
        ..Default::default()
    }
}

fn disk_record(name: &str, location: &str, min: &str, max: &str, iops: &str, mbps: &str) -> Resource {
    record(
        "disks",
        name,
        location,
        vec![cap("MinSizeGiB", min), cap("MaxSizeGiB", max), cap("MaxIOps", iops), cap("MaxBandwidthMBps", mbps)],
    )
}

fn vm_record(name: &str, location: &str, iops: &str, bandwidth: &str) -> Resource {
    record(
        "virtualMachines",
        name,
        location,
        vec![cap("UncachedDiskIOPS", iops), cap("UncachedDiskBytesPerSecond", bandwidth)],
    )
}

fn disk(class: &str, min: u64, max: u64, iops: u64) -> Disk {
    Disk {
        location: "westus2".to_string(),
        storage_account_type: class.to_string(),
        min_size_gb: min,
        max_size_gb: max,
        max_iops: iops,
        max_bandwidth: 25 * 1048576,
    }
}

#[test]
fn parse_u64_accepts_plain_and_plus_signed_digits() {
    assert_eq!(parse_u64("123"), Some(123));
    assert_eq!(parse_u64("+7"), Some(7));
    assert_eq!(parse_u64("0"), Some(0));
    assert_eq!(parse_u64("18446744073709551615"), Some(u64::MAX));
}

#[test]
fn parse_u64_rejects_other_text() {
    assert_eq!(parse_u64(""), None);
    assert_eq!(parse_u64("+"), None);
    assert_eq!(parse_u64("-1"), None);
    assert_eq!(parse_u64("1a"), None);
    assert_eq!(parse_u64(" 1"), None);
    assert_eq!(parse_u64("18446744073709551616"), None);
}

#[test]
fn capability_table_keeps_first_occurrence() {
    let caps = vec![cap("MaxIOps", "120"), cap("MinSizeGiB", "0"), cap("MaxIOps", "999")];
    let table = CapabilityTable::from_capabilities(&caps);
    assert_eq!(table.get("MaxIOps"), Some(&"120".to_string()));
    assert_eq!(table.get("MinSizeGiB"), Some(&"0".to_string()));
    assert_eq!(table.get("MaxSizeGiB"), None);
}

#[test]
fn classify_virtual_machine_reads_uncached_limits() {
    let r = vm_record("Standard_D4s_v3", "westus2", "6400", "100663296");
    let vm = VirtualMachine::try_from(&r).unwrap();
    assert_eq!(
        vm,
        VirtualMachine {
            name: "Standard_D4s_v3".to_string(),
            location: "westus2".to_string(),
            max_iops: 6400,
            max_bandwidth: 100663296,
        }
    );
}

#[test]
fn classify_virtual_machine_errors() {
    let mut r = vm_record("Standard_B12ms", "westus2", "6400", "1");
    r.locations.clear();
    assert_eq!(VirtualMachine::try_from(&r), Err(LimitError::MissingLocation));

    let r = record("virtualMachines", "Standard_B12ms", "westus2", vec![cap("UncachedDiskIOPS", "4300")]);
    assert_eq!(
        VirtualMachine::try_from(&r),
        Err(LimitError::MissingCapability { name: "UncachedDiskBytesPerSecond".to_string() })
    );

    let r = vm_record("Standard_B12ms", "westus2", "many", "1");
    assert_eq!(
        VirtualMachine::try_from(&r),
        Err(LimitError::InvalidCapabilityValue { name: "UncachedDiskIOPS".to_string(), value: "many".to_string() })
    );

    let r = vm_record("Standard_B12ms", "westus2", "0", "1");
    assert_eq!(
        VirtualMachine::try_from(&r),
        Err(LimitError::InvalidCapabilityValue { name: "UncachedDiskIOPS".to_string(), value: "0".to_string() })
    );
}

#[test]
fn classify_disk_converts_mebibytes_to_bytes() {
    let r = disk_record("Premium_LRS", "westus2", "0", "4", "120", "1");
    let d = Disk::try_from(&r).unwrap();
    assert_eq!(d.max_bandwidth, 1048576);
    assert_ne!(d.max_bandwidth, 1000000);
    assert_eq!(
        d,
        Disk {
            location: "westus2".to_string(),
            storage_account_type: "Premium_LRS".to_string(),
            min_size_gb: 0,
            max_size_gb: 4,
            max_iops: 120,
            max_bandwidth: 1048576,
        }
    );
}

#[test]
fn classify_disk_errors() {
    let r = disk_record("Premium_LRS", "westus2", "64", "64", "240", "50");
    assert_eq!(
        Disk::try_from(&r),
        Err(LimitError::InvalidCapabilityValue { name: "MaxSizeGiB".to_string(), value: "64".to_string() })
    );
    let r = disk_record("Premium_LRS", "westus2", "0", "4", "120", "17592186044416");
    assert_eq!(
        Disk::try_from(&r),
        Err(LimitError::InvalidCapabilityValue {
            name: "MaxBandwidthMBps".to_string(),
            value: "17592186044416".to_string()
        })
    );
    let r = record("disks", "Premium_LRS", "westus2", vec![cap("MinSizeGiB", "0")]);
    assert_eq!(Disk::try_from(&r), Err(LimitError::MissingCapability { name: "MaxSizeGiB".to_string() }));
}

#[test]
fn find_disk_limit_exactly_one() {
    let skus = vec![disk("Premium_LRS", 0, 32, 120), disk("Premium_LRS", 32, 64, 240), disk("Standard_LRS", 32, 64, 500)];
    assert_eq!(get_disk_sku(&skus, &40, "Premium_LRS"), Ok(skus[1].clone()));
}

#[test]
fn find_disk_limit_none() {
    let skus = vec![disk("Premium_LRS", 0, 32, 120)];
    assert_eq!(
        get_disk_sku(&skus, &40, "Premium_LRS"),
        Err(LimitError::NoDiskSkuMatch { size_gb: 40, storage_account_type: "Premium_LRS".to_string() })
    );
    assert_eq!(
        get_disk_sku(&skus, &10, "Standard_LRS"),
        Err(LimitError::NoDiskSkuMatch { size_gb: 10, storage_account_type: "Standard_LRS".to_string() })
    );
}

#[test]
fn find_disk_limit_ambiguous() {
    let skus = vec![disk("Premium_LRS", 0, 64, 120), disk("Premium_LRS", 32, 128, 240)];
    assert_eq!(
        get_disk_sku(&skus, &40, "Premium_LRS"),
        Err(LimitError::AmbiguousDiskSkuMatch {
            size_gb: 40,
            storage_account_type: "Premium_LRS".to_string(),
            matches: skus.clone(),
        })
    );
}

#[test]
fn find_disk_limit_range_bounds() {
    let skus = vec![disk("Premium_LRS", 0, 32, 120), disk("Premium_LRS", 32, 64, 240)];
    assert_eq!(get_disk_sku(&skus, &32, "Premium_LRS"), Ok(skus[0].clone()));
    assert_eq!(get_disk_sku(&skus, &64, "Premium_LRS"), Ok(skus[1].clone()));
    assert_eq!(
        get_disk_sku(&skus, &0, "Premium_LRS"),
        Err(LimitError::NoDiskSkuMatch { size_gb: 0, storage_account_type: "Premium_LRS".to_string() })
    );
}

#[test]
fn exactly_one_splits_by_count() {
    assert_eq!(exactly_one(vec![5]), Ok(5));
    assert_eq!(exactly_one(Vec::<u8>::new()), Err(vec![]));
    assert_eq!(exactly_one(vec![1, 2]), Err(vec![1, 2]));
}

#[test]
fn list_disk_skus_filters_location_type_and_ultra() {
    let mut ultra = disk_record("UltraSSD_LRS", "westus2", "0", "4", "1200", "300");
    ultra.tier = Some("Ultra".to_string());
    let mut elsewhere = disk_record("Premium_LRS", "eastus", "0", "4", "120", "25");
    elsewhere.locations.push("westus2".to_string());
    let catalog = ResourceList {
        value: vec![
            disk_record("Premium_LRS", "westus2", "0", "4", "120", "25"),
            ultra,
            elsewhere,
            vm_record("Standard_D4s_v3", "westus2", "6400", "100663296"),
            disk_record("Standard_LRS", "westus2", "32", "64", "500", "60"),
        ],
    };
    let disks = list_disk_skus(&catalog, "westus2").unwrap();
    assert_eq!(disks.len(), 2);
    assert_eq!(disks[0].storage_account_type, "Premium_LRS");
    assert_eq!(disks[0].max_bandwidth, 25 * 1048576);
    assert_eq!(disks[1].storage_account_type, "Standard_LRS");
    assert_eq!(disks[1].min_size_gb, 32);
}

#[test]
fn list_disk_skus_fails_on_first_bad_record() {
    let catalog = ResourceList {
        value: vec![
            disk_record("Premium_LRS", "westus2", "0", "4", "x", "25"),
            disk_record("Standard_LRS", "westus2", "0", "4", "120", "y"),
        ],
    };
    assert_eq!(
        list_disk_skus(&catalog, "westus2"),
        Err(LimitError::InvalidCapabilityValue { name: "MaxIOps".to_string(), value: "x".to_string() })
    );
}

#[test]
fn get_vm_sku_matches_size_and_location() {
    let catalog = ResourceList {
        value: vec![
            vm_record("Standard_D2s_v3", "westus2", "3200", "50331648"),
            vm_record("Standard_D4s_v3", "eastus", "6400", "100663296"),
            vm_record("Standard_D4s_v3", "westus2", "6400", "100663296"),
        ],
    };
    let vm = get_vm_sku(&catalog, "westus2", "Standard_D4s_v3").unwrap();
    assert_eq!(vm.max_iops, 6400);
    assert_eq!(vm.location, "westus2");
    assert_eq!(
        get_vm_sku(&catalog, "westus2", "Standard_D8s_v3"),
        Err(LimitError::NoVmSkuMatch { location: "westus2".to_string(), name: "Standard_D8s_v3".to_string() })
    );
}

#[test]
fn get_vm_sku_ambiguous() {
    let catalog = ResourceList {
        value: vec![
            vm_record("Standard_D4s_v3", "westus2", "6400", "100663296"),
            vm_record("Standard_D4s_v3", "westus2", "6000", "100663296"),
        ],
    };
    match get_vm_sku(&catalog, "westus2", "Standard_D4s_v3") {
        Err(LimitError::AmbiguousVmSkuMatch { location, name, matches }) => {
            assert_eq!(location, "westus2");
            assert_eq!(name, "Standard_D4s_v3");
            assert_eq!(matches.len(), 2);
            assert_eq!(matches[1].max_iops, 6000);
        }
        other => panic!("unexpected result: {:?}", other),
    }
}
