//! Classification of SKU records into virtual machine and disk limits.
use vstd::prelude::*;

use crate::capability::{capability_map, CapabilityTable};
use crate::decimal::{parse_u64, parse_u64_spec};
use crate::error::{outcome, LimitError, LimitErrorView};
use crate::resource::{Disk, Resource, VirtualMachine};

verus! {

/// Bytes in a mebibyte: disk SKUs publish their bandwidth in MiB/s.
pub const BYTES_PER_MIB: u64 = 1048576;

/// The unsigned integer that a capability holds.
pub open spec fn capability_u64(caps: Map<Seq<char>, Seq<char>>, name: Seq<char>) -> Result<
    u64,
    LimitErrorView,
> {
    if !caps.contains_key(name) {
        Err(LimitErrorView::MissingCapability { name })
    } else {
        match parse_u64_spec(caps[name]) {
            Some(v) => Ok(v),
            None => Err(LimitErrorView::InvalidCapabilityValue { name, value: caps[name] }),
        }
    }
}

/// A capability that holds a limit: an unsigned integer other than zero.
pub open spec fn capability_limit(caps: Map<Seq<char>, Seq<char>>, name: Seq<char>) -> Result<
    u64,
    LimitErrorView,
> {
    match capability_u64(caps, name) {
        Ok(v) => if v == 0 {
            Err(LimitErrorView::InvalidCapabilityValue { name, value: caps[name] })
        } else {
            Ok(v)
        },
        Err(e) => Err(e),
    }
}

/// The limits of a virtual machine SKU record.
pub open spec fn classify_virtual_machine(value: Resource) -> Result<VirtualMachine, LimitErrorView> {
    if value.locations@.len() == 0 {
        Err(LimitErrorView::MissingLocation)
    } else {
        let caps = capability_map(value.capabilities@);
        match capability_limit(caps, "UncachedDiskIOPS"@) {
            Err(e) => Err(e),
            Ok(max_iops) => match capability_limit(caps, "UncachedDiskBytesPerSecond"@) {
                Err(e) => Err(e),
                Ok(max_bandwidth) => Ok(
                    VirtualMachine {
                        name: value.name,
                        location: value.locations@[0],
                        max_iops,
                        max_bandwidth,
                    },
                ),
            },
        }
    }
}

/// The limits of a disk SKU record. Its bandwidth is published in MiB/s and
/// kept in bytes per second.
pub open spec fn classify_disk(value: Resource) -> Result<Disk, LimitErrorView> {
    if value.locations@.len() == 0 {
        Err(LimitErrorView::MissingLocation)
    } else {
        let caps = capability_map(value.capabilities@);
        match capability_u64(caps, "MinSizeGiB"@) {
            Err(e) => Err(e),
            Ok(min_size_gb) => match capability_u64(caps, "MaxSizeGiB"@) {
                Err(e) => Err(e),
                Ok(max_size_gb) => if max_size_gb <= min_size_gb {
                    Err(
                        LimitErrorView::InvalidCapabilityValue {
                            name: "MaxSizeGiB"@,
                            value: caps["MaxSizeGiB"@],
                        },
                    )
                } else {
                    match capability_limit(caps, "MaxIOps"@) {
                        Err(e) => Err(e),
                        Ok(max_iops) => match capability_limit(caps, "MaxBandwidthMBps"@) {
                            Err(e) => Err(e),
                            Ok(mbps) => if mbps * BYTES_PER_MIB > u64::MAX {
                                Err(
                                    LimitErrorView::InvalidCapabilityValue {
                                        name: "MaxBandwidthMBps"@,
                                        value: caps["MaxBandwidthMBps"@],
                                    },
                                )
                            } else {
                                Ok(
                                    Disk {
                                        location: value.locations@[0],
                                        storage_account_type: value.name,
                                        min_size_gb,
                                        max_size_gb,
                                        max_iops,
                                        max_bandwidth: (mbps * BYTES_PER_MIB) as u64,
                                    },
                                )
                            },
                        },
                    }
                },
            },
        }
    }
}

fn invalid_value(caps: &CapabilityTable, name: &str) -> (e: LimitError)
    requires
        caps@.contains_key(name@),
    ensures
        e@ == (LimitErrorView::InvalidCapabilityValue { name: name@, value: caps@[name@] }),
{
    match caps.get(name) {
        Some(v) => LimitError::InvalidCapabilityValue { name: name.to_owned(), value: v.clone() },
        None => LimitError::MissingCapability { name: name.to_owned() },
    }
}

fn read_u64(caps: &CapabilityTable, name: &str) -> (r: Result<u64, LimitError>)
    ensures
        outcome(r) == capability_u64(caps@, name@),
{
    match caps.get(name) {
        None => Err(LimitError::MissingCapability { name: name.to_owned() }),
        Some(v) => match parse_u64(v.as_str()) {
            Some(n) => Ok(n),
            None => Err(invalid_value(caps, name)),
        },
    }
}

fn read_limit(caps: &CapabilityTable, name: &str) -> (r: Result<u64, LimitError>)
    ensures
        outcome(r) == capability_limit(caps@, name@),
{
    let v = read_u64(caps, name)?;
    if v == 0 {
        return Err(invalid_value(caps, name));
    }
    Ok(v)
}

impl VirtualMachine {
    /// Reads the uncached disk limits of a virtual machine SKU record.
    pub fn try_from(value: &Resource) -> (r: Result<VirtualMachine, LimitError>)
        ensures
            outcome(r) == classify_virtual_machine(*value),
    {
        if value.locations.len() < 1 {
            return Err(LimitError::MissingLocation);
        }
        let caps = CapabilityTable::from_capabilities(&value.capabilities);
        let max_iops = read_limit(&caps, "UncachedDiskIOPS")?;
        let max_bandwidth = read_limit(&caps, "UncachedDiskBytesPerSecond")?;
        Ok(
            VirtualMachine {
                name: value.name.clone(),
                location: value.locations[0].clone(),
                max_iops,
                max_bandwidth,
            },
        )
    }
}

impl Disk {
    /// Reads the size range and limits of a disk SKU record.
    pub fn try_from(value: &Resource) -> (r: Result<Disk, LimitError>)
        ensures
            outcome(r) == classify_disk(*value),
    {
        if value.locations.len() < 1 {
            return Err(LimitError::MissingLocation);
        }
        let caps = CapabilityTable::from_capabilities(&value.capabilities);
        let min_size_gb = read_u64(&caps, "MinSizeGiB")?;
        let max_size_gb = read_u64(&caps, "MaxSizeGiB")?;
        if max_size_gb <= min_size_gb {
            return Err(invalid_value(&caps, "MaxSizeGiB"));
        }
        let max_iops = read_limit(&caps, "MaxIOps")?;
        let mbps = read_limit(&caps, "MaxBandwidthMBps")?;
        let max_bandwidth = match mbps.checked_mul(BYTES_PER_MIB) {
            Some(b) => b,
            None => return Err(invalid_value(&caps, "MaxBandwidthMBps")),
        };
        Ok(
            Disk {
                location: value.locations[0].clone(),
                storage_account_type: value.name.clone(),
                min_size_gb,
                max_size_gb,
                max_iops,
                max_bandwidth,
            },
        )
    }
}

} // verus!
