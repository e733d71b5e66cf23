use disk_saturation::device::{absolute_path, link_target_path, lun_link_path, resolve_device_path};
use disk_saturation::error::LimitError;
use disk_saturation::imds::{Compute, DataDisk, ManagedDisk, Metadata, OsDisk, StorageProfile};
use disk_saturation::kube::{token_request, CloudProviderConfig, TokenRequest};
use disk_saturation::limits::{get_data_disk_limit, get_limits, DeviceLimits};
use disk_saturation::resource::{Capability, Disk, Resource, ResourceList};
use disk_saturation::startup::resolve_limits;

fn disk(class: &str, min: u64, max: u64, iops: u64) -> Disk {
    Disk {
        location: "westus2".to_string(),
        storage_account_type: class.to_string(),
        min_size_gb: min,
        max_size_gb: max,
        max_iops: iops,
        max_bandwidth: 25 * 1048576,
    }
}

fn data_disk(size: &str, class: &str, lun: &str) -> DataDisk {
    DataDisk {
        disk_size_gb: size.to_string(),
        lun: lun.to_string(),
        managed_disk: ManagedDisk { storage_account_type: class.to_string(), ..Default::default() },
        ..Default::default()
    }
}

fn cap(name: &str, value: &str) -> Capability {
    Capability { name: name.to_string(), value: value.to_string() }
}

#[test]
fn lun_link_path_names_the_link() {
    assert_eq!(lun_link_path("1"), "/dev/disk/azure/scsi1/lun1");
    assert_eq!(link_target_path("../../sdc"), "/dev/disk/azure/scsi1/../../sdc");
    assert_eq!(absolute_path("dev/sdc"), "/dev/sdc");
}

#[test]
fn device_resolution_collapses_parent_segments() {
    assert_eq!(resolve_device_path("../../3:0:1:0"), "/dev/disk/3:0:1:0");
    assert_eq!(resolve_device_path("../../../sdc"), "/dev/sdc");
    assert_eq!(resolve_device_path("./../../sdd"), "/dev/disk/sdd");
}

#[test]
fn device_limits_insert_replaces() {
    let mut table = DeviceLimits::new();
    assert_eq!(table.get("/dev/sda"), None);
    table.insert("/dev/sda".to_string(), disk("Premium_LRS", 0, 32, 120));
    table.insert("/dev/sdc".to_string(), disk("Premium_LRS", 32, 64, 240));
    table.insert("/dev/sda".to_string(), disk("Premium_LRS", 64, 128, 500));
    assert_eq!(table.get("/dev/sda").unwrap().max_iops, 500);
    assert_eq!(table.get("/dev/sdc").unwrap().max_iops, 240);
    assert_eq!(table.get("/dev/sdz"), None);
}

#[test]
fn data_disk_limit_needs_numeric_size() {
    let skus = vec![disk("Premium_LRS", 0, 32, 120)];
    assert_eq!(get_data_disk_limit(&data_disk("16", "Premium_LRS", "0"), &skus), Ok(skus[0].clone()));
    assert_eq!(
        get_data_disk_limit(&data_disk("sixteen", "Premium_LRS", "0"), &skus),
        Err(LimitError::InvalidDiskSize { value: "sixteen".to_string() })
    );
}

#[test]
fn get_limits_keys_os_and_data_disks() {
    let skus = vec![disk("Premium_LRS", 0, 32, 120), disk("Premium_LRS", 32, 64, 240), disk("Standard_LRS", 0, 64, 500)];
    let os = disk("Premium_LRS", 0, 32, 120);
    let data = vec![data_disk("64", "Premium_LRS", "0"), data_disk("10", "Standard_LRS", "1")];
    let targets = vec!["../../../sdc".to_string(), "../../3:0:1:0".to_string()];
    let table = get_limits(os.clone(), &data, &skus, &targets).unwrap();
    assert_eq!(table.get("/dev/sda"), Some(&os));
    assert_eq!(table.get("/dev/sdc"), Some(&skus[1]));
    assert_eq!(table.get("/dev/disk/3:0:1:0"), Some(&skus[2]));
    assert_eq!(table.entries().len(), 3);
}

#[test]
fn get_limits_aborts_on_any_unresolved_disk() {
    let skus = vec![disk("Premium_LRS", 0, 32, 120)];
    let data = vec![data_disk("16", "Premium_LRS", "0"), data_disk("100", "Premium_LRS", "1")];
    let targets = vec!["../../../sdc".to_string(), "../../../sdd".to_string()];
    assert_eq!(
        get_limits(disk("Premium_LRS", 0, 32, 120), &data, &skus, &targets).err(),
        Some(LimitError::NoDiskSkuMatch { size_gb: 100, storage_account_type: "Premium_LRS".to_string() })
    );
}

#[test]
fn get_limits_refuses_two_disks_on_one_device() {
    let skus = vec![disk("Premium_LRS", 0, 32, 120)];
    let data = vec![data_disk("16", "Premium_LRS", "0"), data_disk("20", "Premium_LRS", "1")];
    let targets = vec!["../../../sdc".to_string(), "../../../sdc".to_string()];
    assert_eq!(
        get_limits(disk("Premium_LRS", 0, 32, 120), &data, &skus, &targets).err(),
        Some(LimitError::DuplicateDevicePath { device: "/dev/sdc".to_string() })
    );
}

#[test]
fn get_limits_refuses_data_disk_on_os_device() {
    let skus = vec![disk("Premium_LRS", 0, 32, 120)];
    let data = vec![data_disk("16", "Premium_LRS", "0")];
    let targets = vec!["../../../sda".to_string()];
    assert_eq!(
        get_limits(disk("Premium_LRS", 0, 32, 120), &data, &skus, &targets).err(),
        Some(LimitError::DuplicateDevicePath { device: "/dev/sda".to_string() })
    );
}

fn catalog() -> ResourceList {
    let vm = Resource {
        capabilities: vec![cap("UncachedDiskIOPS", "6400"), cap("UncachedDiskBytesPerSecond", "100663296")],
        locations: vec!["westus2".to_string()],
        name: "Standard_D4s_v3".to_string(),
        resource_type: "virtualMachines".to_string(),
        ..Default::default()
    };
    let small = Resource {
        capabilities: vec![cap("MinSizeGiB", "16"), cap("MaxSizeGiB", "32"), cap("MaxIOps", "120"), cap("MaxBandwidthMBps", "25")],
        locations: vec!["westus2".to_string()],
        name: "Premium_LRS".to_string(),
        resource_type: "disks".to_string(),
        ..Default::default()
    };
    let large = Resource {
        capabilities: vec![cap("MinSizeGiB", "64"), cap("MaxSizeGiB", "128"), cap("MaxIOps", "500"), cap("MaxBandwidthMBps", "100")],
        locations: vec!["westus2".to_string()],
        name: "Premium_LRS".to_string(),
        resource_type: "disks".to_string(),
        ..Default::default()
    };
    ResourceList { value: vec![vm, small, large] }
}

fn metadata(os_size: &str, data_disks: Vec<DataDisk>) -> Metadata {
    Metadata {
        compute: Compute {
            vm_size: "Standard_D4s_v3".to_string(),
            storage_profile: StorageProfile {
                data_disks,
                os_disk: OsDisk {
                    disk_size_gb: os_size.to_string(),
                    managed_disk: ManagedDisk { storage_account_type: "Premium_LRS".to_string(), ..Default::default() },
                    ..Default::default()
                },
                ..Default::default()
            },
            ..Default::default()
        },
        ..Default::default()
    }
}

#[test]
fn resolve_limits_builds_whole_table() {
    let meta = metadata("30", vec![data_disk("128", "Premium_LRS", "0")]);
    let limits = resolve_limits(&meta, "westus2", &catalog(), &vec!["../../../sdc".to_string()]).unwrap();
    assert_eq!(limits.virtual_machine.max_iops, 6400);
    assert_eq!(limits.virtual_machine.max_bandwidth, 100663296);
    assert_eq!(limits.disks.get("/dev/sda").unwrap().max_iops, 120);
    assert_eq!(limits.disks.get("/dev/sdc").unwrap().max_iops, 500);
    assert_eq!(limits.disks.get("/dev/sdc").unwrap().max_bandwidth, 100 * 1048576);
}

#[test]
fn resolve_limits_reports_first_failure() {
    let meta = metadata("thirty", vec![]);
    assert_eq!(
        resolve_limits(&meta, "westus2", &catalog(), &vec![]).err(),
        Some(LimitError::InvalidDiskSize { value: "thirty".to_string() })
    );
    let meta = metadata("30", vec![]);
    assert_eq!(
        resolve_limits(&meta, "eastus", &catalog(), &vec![]).err(),
        Some(LimitError::NoVmSkuMatch { location: "eastus".to_string(), name: "Standard_D4s_v3".to_string() })
    );
    let meta = metadata("40", vec![]);
    assert_eq!(
        resolve_limits(&meta, "westus2", &catalog(), &vec![]).err(),
        Some(LimitError::NoDiskSkuMatch { size_gb: 40, storage_account_type: "Premium_LRS".to_string() })
    );
}

#[test]
fn token_request_follows_client_id() {
    let mut config = CloudProviderConfig {
        aad_client_id: "msi".to_string(),
        user_assigned_identity_id: "identity".to_string(),
        tenant_id: "tenant".to_string(),
        ..Default::default()
    };
    assert_eq!(token_request(&config), TokenRequest::ManagedIdentity { client_id: "identity".to_string() });
    config.aad_client_id = "client".to_string();
    config.aad_client_secret = "SECRET-REDACTED".to_string();
    assert_eq!(
        token_request(&config),
        TokenRequest::ServicePrincipal {
            client_id: "client".to_string(),
            client_secret: "SECRET-REDACTED".to_string(),
            tenant_id: "tenant".to_string(),
            resource: "https://management.azure.com".to_string(),
        }
    );
}
