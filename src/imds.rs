//! The instance metadata document: the identity of the machine and of its disks.
use vstd::prelude::*;

verus! {

/// Relies on serde_json's `Value` as an opaque type: the IPv6 addresses of the
/// metadata document are carried through unread.
#[verifier::external_type_specification]
#[verifier::external_body]
pub struct ExValue(serde_json::Value);

/// The instance metadata document.
#[derive(Debug, Clone, PartialEq, Default)]
pub struct Metadata {
    pub compute: Compute,
    pub network: Network,
}

#[derive(Debug, Clone, PartialEq, Default)]
pub struct Compute {
    pub az_environment: String,
    pub custom_data: String,
    pub location: String,
    pub name: String,
    pub offer: String,
    pub os_type: String,
    pub placement_group_id: String,
    pub plan: Plan,
    pub platform_fault_domain: String,
    pub platform_update_domain: String,
    pub provider: String,
    pub public_keys: Vec<PublicKey>,
    pub publisher: String,
    pub resource_group_name: String,
    pub resource_id: String,
    pub sku: String,
    pub storage_profile: StorageProfile,
    pub subscription_id: String,
    pub tags: String,
    pub tags_list: Vec<TagsList>,
    pub version: String,
    pub vm_id: String,
    pub vm_scale_set_name: String,
    pub vm_size: String,
    pub zone: String,
}

#[derive(Debug, Clone, PartialEq, Default)]
pub struct Plan {
    pub name: String,
    pub product: String,
    pub publisher: String,
}

#[derive(Debug, Clone, PartialEq, Default)]
pub struct PublicKey {
    pub key_data: String,
    pub path: String,
}

#[derive(Debug, Clone, PartialEq, Default)]
pub struct StorageProfile {
    pub data_disks: Vec<DataDisk>,
    pub image_reference: ImageReference,
    pub os_disk: OsDisk,
}

#[derive(Debug, Clone, PartialEq, Default)]
pub struct ImageReference {
    pub id: String,
    pub offer: String,
    pub publisher: String,
    pub sku: String,
    pub version: String,
}

/// A data disk attached to the instance; its size is in GiB, as decimal text.
#[derive(Debug, Clone, PartialEq, Default)]
pub struct DataDisk {
    pub caching: String,
    pub create_option: String,
    pub disk_size_gb: String,
    pub image: Image,
    pub lun: String,
    pub managed_disk: ManagedDisk,
    pub name: String,
    pub vhd: Vhd,
    pub write_accelerator_enabled: String,
}

/// The operating system disk; its size is in GiB, as decimal text.
#[derive(Debug, Clone, PartialEq, Default)]
pub struct OsDisk {
    pub caching: String,
    pub create_option: String,
    pub diff_disk_settings: DiffDiskSettings,
    pub disk_size_gb: String,
    pub encryption_settings: EncryptionSettings,
    pub image: Image,
    pub managed_disk: ManagedDisk,
    pub name: String,
    pub os_type: String,
    pub vhd: Vhd,
    pub write_accelerator_enabled: String,
}

#[derive(Debug, Clone, PartialEq, Default)]
pub struct DiffDiskSettings {
    pub option: String,
}

#[derive(Debug, Clone, PartialEq, Default)]
pub struct EncryptionSettings {
    pub enabled: String,
}

#[derive(Debug, Clone, PartialEq, Default)]
pub struct Image {
    pub uri: String,
}

#[derive(Debug, Clone, PartialEq, Default)]
pub struct ManagedDisk {
    pub id: String,
    pub storage_account_type: String,
}

#[derive(Debug, Clone, PartialEq, Default)]
pub struct Vhd {
    pub uri: String,
}

#[derive(Debug, Clone, PartialEq, Default)]
pub struct TagsList {
    pub name: String,
    pub value: String,
}

#[derive(Debug, Clone, PartialEq, Default)]
pub struct Network {
    pub interface: Vec<Interface>,
}

#[derive(Debug, Clone, PartialEq, Default)]
pub struct Interface {
    pub ipv4: Ipv4,
    pub ipv6: Ipv6,
    pub mac_address: String,
}

#[derive(Debug, Clone, PartialEq, Default)]
pub struct Ipv4 {
    pub ip_address: Vec<IpAddress>,
    pub subnet: Vec<Subnet>,
}

#[derive(Debug, Clone, PartialEq, Default)]
pub struct IpAddress {
    pub private_ip_address: String,
    pub public_ip_address: String,
}

#[derive(Debug, Clone, PartialEq, Default)]
pub struct Subnet {
    pub address: String,
    pub prefix: String,
}

#[derive(Debug, Clone, PartialEq, Default)]
pub struct Ipv6 {
    pub ip_address: Vec<serde_json::Value>,
}

} // verus!
