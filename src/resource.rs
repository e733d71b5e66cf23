//! SKU records of the resource catalog, and the limits classified from them.
use vstd::prelude::*;

verus! {

/// The resource catalog as the SKU listing returns it.
#[derive(Debug, Clone, PartialEq, Default)]
pub struct ResourceList {
    pub value: Vec<Resource>,
}

/// One SKU record of the catalog.
#[derive(Debug, Clone, PartialEq, Default)]
pub struct Resource {
    pub capabilities: Vec<Capability>,
    pub family: Option<String>,
    pub location_info: Vec<LocationInfo>,
    pub locations: Vec<String>,
    pub name: String,
    pub resource_type: String,
    pub size: Option<String>,
    pub tier: Option<String>,
}

#[derive(Debug, Clone, PartialEq, Default)]
pub struct Capability {
    pub name: String,
    pub value: String,
}

#[derive(Debug, Clone, PartialEq, Default)]
pub struct LocationInfo {
    pub location: String,
    pub zone_details: Vec<ZoneDetail>,
    pub zones: Vec<String>,
}

#[derive(Debug, Clone, PartialEq, Default)]
pub struct ZoneDetail {
    pub name: Vec<String>,
    pub capabilities: Vec<Capability>,
}

/// The uncached disk limits of a virtual machine size in a location.
#[derive(Debug, PartialEq, Default)]
pub struct VirtualMachine {
    pub name: String,
    pub location: String,
    pub max_iops: u64,
    /// Bytes per second.
    pub max_bandwidth: u64,
}

impl Clone for VirtualMachine {
    fn clone(&self) -> (r: Self)
        ensures
            r == *self,
    {
        VirtualMachine {
            name: self.name.clone(),
            location: self.location.clone(),
            max_iops: self.max_iops,
            max_bandwidth: self.max_bandwidth,
        }
    }
}

/// The limits of one size tier of a disk storage class in a location: they
/// hold for disks with `min_size_gb < size <= max_size_gb`.
#[derive(Debug, PartialEq, Default)]
pub struct Disk {
    pub location: String,
    pub storage_account_type: String,
    pub min_size_gb: u64,
    pub max_size_gb: u64,
    pub max_iops: u64,
    /// Bytes per second.
    pub max_bandwidth: u64,
}

impl Clone for Disk {
    fn clone(&self) -> (r: Self)
        ensures
            r == *self,
    {
        Disk {
            location: self.location.clone(),
            storage_account_type: self.storage_account_type.clone(),
            min_size_gb: self.min_size_gb,
            max_size_gb: self.max_size_gb,
            max_iops: self.max_iops,
            max_bandwidth: self.max_bandwidth,
        }
    }
}

} // verus!
