//! The limit table of the running machine, built once at startup from its
//! metadata and the resource catalog.
use vstd::prelude::*;

use crate::decimal::{parse_u64, parse_u64_spec};
use crate::error::{outcome, outcome_seq, LimitError, LimitErrorView};
use crate::imds::{Metadata, OsDisk};
use crate::limits::{disk_limit_table, get_limits, Limits};
use crate::resolve::{disk_skus, get_disk_sku, get_vm_sku, list_disk_skus, select_disk_sku, select_vm_sku};
use crate::resource::{Disk, Resource, ResourceList, VirtualMachine};

verus! {

/// The size of the operating system disk, read from the metadata.
pub open spec fn os_disk_size(os_disk: OsDisk) -> Result<u64, LimitErrorView> {
    match parse_u64_spec(os_disk.disk_size_gb@) {
        None => Err(LimitErrorView::InvalidDiskSize { value: os_disk.disk_size_gb@ }),
        Some(size) => Ok(size),
    }
}

/// The limits of the machine and its disks, in the order they are resolved:
/// the operating system disk's size, the machine's SKU, the location's disk
/// SKUs, the operating system disk's SKU, then the data disks.
pub open spec fn resolved_limits(
    meta: Metadata,
    location: Seq<char>,
    skus: Seq<Resource>,
    link_targets: Seq<String>,
) -> Result<(VirtualMachine, Map<Seq<char>, Disk>), LimitErrorView> {
    let storage = meta.compute.storage_profile;
    match os_disk_size(storage.os_disk) {
        Err(e) => Err(e),
        Ok(size) => match select_vm_sku(skus, location, meta.compute.vm_size@) {
            Err(e) => Err(e),
            Ok(vm) => match disk_skus(skus, location) {
                Err(e) => Err(e),
                Ok(disks) => match select_disk_sku(
                    disks,
                    size,
                    storage.os_disk.managed_disk.storage_account_type@,
                ) {
                    Err(e) => Err(e),
                    Ok(os_limit) => match disk_limit_table(
                        os_limit,
                        storage.data_disks@,
                        disks,
                        link_targets,
                    ) {
                        Err(e) => Err(e),
                        Ok(table) => Ok((vm, table)),
                    },
                },
            },
        },
    }
}

/// Builds the limit table of the machine that `meta` describes, in
/// `location`, from the resource catalog; `link_targets[i]` is the target of
/// the LUN link of the `i`-th data disk. Any failure aborts the whole table.
pub fn resolve_limits(
    meta: &Metadata,
    location: &str,
    skus: &ResourceList,
    link_targets: &Vec<String>,
) -> (r: Result<Limits, LimitError>)
    requires
        meta.compute.storage_profile.data_disks@.len() == link_targets@.len(),
    ensures
        match r {
            Ok(limits) => resolved_limits(*meta, location@, skus.value@, link_targets@) == Ok::<
                (VirtualMachine, Map<Seq<char>, Disk>),
                LimitErrorView,
            >((limits.virtual_machine, limits.disks@)),
            Err(e) => resolved_limits(*meta, location@, skus.value@, link_targets@) == Err::<
                (VirtualMachine, Map<Seq<char>, Disk>),
                LimitErrorView,
            >(e@),
        },
{
    let storage = &meta.compute.storage_profile;
    let size = match parse_u64(storage.os_disk.disk_size_gb.as_str()) {
        Some(size) => size,
        None => return Err(LimitError::InvalidDiskSize { value: storage.os_disk.disk_size_gb.clone() }),
    };
    let virtual_machine = get_vm_sku(skus, location, meta.compute.vm_size.as_str())?;
    let disks = list_disk_skus(skus, location)?;
    let os_limit = get_disk_sku(
        &disks,
        &size,
        storage.os_disk.managed_disk.storage_account_type.as_str(),
    )?;
    let table = get_limits(os_limit, &storage.data_disks, &disks, link_targets)?;
    Ok(Limits { virtual_machine, disks: table })
}

} // verus!
