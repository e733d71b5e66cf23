//! The limit table: the limits of the machine, and those of each disk by
//! device path.
use vstd::prelude::*;

use crate::decimal::{parse_u64, parse_u64_spec};
use crate::device::{device_path_of, resolve_device_path};
use crate::error::{outcome, LimitError, LimitErrorView};
use crate::imds::DataDisk;
use crate::resolve::{get_disk_sku, select_disk_sku};
use crate::resource::{Disk, VirtualMachine};
use crate::text::same_text;

verus! {

/// The map that a list of device entries describes: a later entry for a
/// device replaces an earlier one.
pub open spec fn entries_map(entries: Seq<(String, Disk)>) -> Map<Seq<char>, Disk>
    decreases entries.len(),
{
    if entries.len() == 0 {
        Map::empty()
    } else {
        entries_map(entries.drop_last()).insert(entries.last().0@, entries.last().1)
    }
}

proof fn lemma_entries_map_absent(entries: Seq<(String, Disk)>, device: Seq<char>)
    requires
        forall|k: int| 0 <= k < entries.len() ==> (#[trigger] entries[k]).0@ != device,
    ensures
        !entries_map(entries).contains_key(device),
    decreases entries.len(),
{
    if entries.len() > 0 {
        let init = entries.drop_last();
        assert forall|k: int| 0 <= k < init.len() implies (#[trigger] init[k]).0@ != device by {
            assert(init[k] == entries[k]);
        }
        lemma_entries_map_absent(init, device);
    }
}

proof fn lemma_entries_map_last(entries: Seq<(String, Disk)>, i: int)
    requires
        0 <= i < entries.len(),
        forall|k: int| i < k < entries.len() ==> (#[trigger] entries[k]).0@ != entries[i].0@,
    ensures
        entries_map(entries).contains_key(entries[i].0@),
        entries_map(entries)[entries[i].0@] == entries[i].1,
    decreases entries.len(),
{
    if i < entries.len() - 1 {
        let init = entries.drop_last();
        assert forall|k: int| i < k < init.len() implies (#[trigger] init[k]).0@ != init[i].0@ by {
            assert(init[k] == entries[k]);
        }
        lemma_entries_map_last(init, i);
    }
}

/// Disk limits keyed by device path.
pub struct DeviceLimits {
    entries: Vec<(String, Disk)>,
}

impl View for DeviceLimits {
    type V = Map<Seq<char>, Disk>;

    closed spec fn view(&self) -> Map<Seq<char>, Disk> {
        entries_map(self.entries@)
    }
}

impl DeviceLimits {
    /// An empty table.
    pub fn new() -> (r: DeviceLimits)
        ensures
            r@ == Map::<Seq<char>, Disk>::empty(),
    {
        DeviceLimits { entries: Vec::new() }
    }

    /// Records the limit of a device, replacing the one it had.
    pub fn insert(&mut self, device: String, limit: Disk)
        ensures
            final(self)@ == old(self)@.insert(device@, limit),
    {
        let ghost before = self.entries@;
        self.entries.push((device, limit));
        assert(self.entries@.drop_last() =~= before);
    }

    /// The limit recorded for a device.
    pub fn get(&self, device: &str) -> (r: Option<&Disk>)
        ensures
            match r {
                Some(limit) => self@.contains_key(device@) && *limit == self@[device@],
                None => !self@.contains_key(device@),
            },
    {
        let mut i: usize = self.entries.len();
        while i > 0
            invariant
                i <= self.entries@.len(),
                forall|k: int| i <= k < self.entries@.len() ==> (#[trigger] self.entries@[k]).0@
                    != device@,
            decreases i,
        {
            i = i - 1;
            if same_text(self.entries[i].0.as_str(), device) {
                proof {
                    lemma_entries_map_last(self.entries@, i as int);
                }
                return Some(&self.entries[i].1);
            }
        }
        proof {
            lemma_entries_map_absent(self.entries@, device@);
        }
        None
    }

    /// The recorded entries in order; for a device recorded more than once
    /// the last entry holds.
    pub fn entries(&self) -> (r: &Vec<(String, Disk)>)
        ensures
            entries_map(r@) == self@,
    {
        &self.entries
    }
}

/// The limits of the machine and of each of its disks.
pub struct Limits {
    pub virtual_machine: VirtualMachine,
    pub disks: DeviceLimits,
}

/// The device path under which the operating system disk is always found.
pub open spec fn os_device_path() -> Seq<char> {
    "/dev/sda"@
}

/// The limit of a data disk: its size, read from the metadata, and its
/// storage class select the one disk SKU that covers it.
pub open spec fn data_disk_limit(disk: DataDisk, skus: Seq<Disk>) -> Result<Disk, LimitErrorView> {
    match parse_u64_spec(disk.disk_size_gb@) {
        None => Err(LimitErrorView::InvalidDiskSize { value: disk.disk_size_gb@ }),
        Some(size) => select_disk_sku(skus, size, disk.managed_disk.storage_account_type@),
    }
}

/// The table of disk limits: the operating system disk under its fixed path,
/// then each data disk in turn under the device path that its link target
/// resolves to; the first data disk without a limit, or whose device path
/// the table already holds, gives the error.
pub open spec fn disk_limit_table(
    os_disk: Disk,
    data_disks: Seq<DataDisk>,
    skus: Seq<Disk>,
    link_targets: Seq<String>,
) -> Result<Map<Seq<char>, Disk>, LimitErrorView>
    decreases data_disks.len(),
{
    if data_disks.len() == 0 {
        Ok(Map::empty().insert(os_device_path(), os_disk))
    } else {
        match disk_limit_table(os_disk, data_disks.drop_last(), skus, link_targets.drop_last()) {
            Err(e) => Err(e),
            Ok(table) => match data_disk_limit(data_disks.last(), skus) {
                Err(e) => Err(e),
                Ok(limit) => {
                    let device = device_path_of(link_targets.last()@);
                    if table.contains_key(device) {
                        Err(LimitErrorView::DuplicateDevicePath { device })
                    } else {
                        Ok(table.insert(device, limit))
                    }
                },
            },
        }
    }
}

/// A table that is built holds one device per data disk, and one for the
/// operating system disk: no two disks share a device path.
pub proof fn lemma_table_one_key_per_disk(
    os_disk: Disk,
    data_disks: Seq<DataDisk>,
    skus: Seq<Disk>,
    link_targets: Seq<String>,
)
    requires
        disk_limit_table(os_disk, data_disks, skus, link_targets) is Ok,
    ensures
        disk_limit_table(os_disk, data_disks, skus, link_targets)->Ok_0.dom().finite(),
        disk_limit_table(os_disk, data_disks, skus, link_targets)->Ok_0.len() == data_disks.len()
            + 1,
    decreases data_disks.len(),
{
    if data_disks.len() > 0 {
        lemma_table_one_key_per_disk(
            os_disk,
            data_disks.drop_last(),
            skus,
            link_targets.drop_last(),
        );
    }
}

/// The limit of a data disk.
pub fn get_data_disk_limit(disk: &DataDisk, skus: &Vec<Disk>) -> (r: Result<Disk, LimitError>)
    ensures
        outcome(r) == data_disk_limit(*disk, skus@),
{
    match parse_u64(disk.disk_size_gb.as_str()) {
        None => Err(LimitError::InvalidDiskSize { value: disk.disk_size_gb.clone() }),
        Some(size) => get_disk_sku(skus, &size, disk.managed_disk.storage_account_type.as_str()),
    }
}

proof fn lemma_table_error_stays(
    os_disk: Disk,
    data_disks: Seq<DataDisk>,
    skus: Seq<Disk>,
    link_targets: Seq<String>,
    i: int,
    e: LimitErrorView,
)
    requires
        0 <= i <= data_disks.len(),
        data_disks.len() == link_targets.len(),
        disk_limit_table(os_disk, data_disks.subrange(0, i), skus, link_targets.subrange(0, i))
            == Err::<Map<Seq<char>, Disk>, LimitErrorView>(e),
    ensures
        disk_limit_table(os_disk, data_disks, skus, link_targets) == Err::<
            Map<Seq<char>, Disk>,
            LimitErrorView,
        >(e),
    decreases data_disks.len() - i,
{
    if i < data_disks.len() {
        assert(data_disks.subrange(0, i + 1).drop_last() =~= data_disks.subrange(0, i));
        assert(link_targets.subrange(0, i + 1).drop_last() =~= link_targets.subrange(0, i));
        lemma_table_error_stays(os_disk, data_disks, skus, link_targets, i + 1, e);
    } else {
        assert(data_disks.subrange(0, i) =~= data_disks);
        assert(link_targets.subrange(0, i) =~= link_targets);
    }
}

/// Builds the disk limit table: `os_disk` under the fixed operating system
/// device path, and each data disk under the device path that its LUN link
/// target (`link_targets[i]` for `data_disks[i]`) resolves to. Any data disk
/// without a limit aborts the whole table.
pub fn get_limits(
    os_disk: Disk,
    data_disks: &Vec<DataDisk>,
    disk_skus: &Vec<Disk>,
    link_targets: &Vec<String>,
) -> (r: Result<DeviceLimits, LimitError>)
    requires
        data_disks@.len() == link_targets@.len(),
    ensures
        match r {
            Ok(table) => disk_limit_table(os_disk, data_disks@, disk_skus@, link_targets@) == Ok::<
                Map<Seq<char>, Disk>,
                LimitErrorView,
            >(table@),
            Err(e) => disk_limit_table(os_disk, data_disks@, disk_skus@, link_targets@) == Err::<
                Map<Seq<char>, Disk>,
                LimitErrorView,
            >(e@),
        },
{
    let ghost os = os_disk;
    let mut limits = DeviceLimits::new();
    limits.insert(String::from_str("/dev/sda"), os_disk);
    let mut i: usize = 0;
    while i < data_disks.len()
        invariant
            os == os_disk,
            i <= data_disks@.len(),
            data_disks@.len() == link_targets@.len(),
            disk_limit_table(
                os,
                data_disks@.subrange(0, i as int),
                disk_skus@,
                link_targets@.subrange(0, i as int),
            ) == Ok::<Map<Seq<char>, Disk>, LimitErrorView>(limits@),
        decreases data_disks@.len() - i,
    {
        assert(data_disks@.subrange(0, i + 1).drop_last() =~= data_disks@.subrange(0, i as int));
        assert(link_targets@.subrange(0, i + 1).drop_last() =~= link_targets@.subrange(
            0,
            i as int,
        ));
        assert(data_disks@.subrange(0, i + 1).last() == data_disks@[i as int]);
        assert(link_targets@.subrange(0, i + 1).last() == link_targets@[i as int]);
        match get_data_disk_limit(&data_disks[i], disk_skus) {
            Err(e) => {
                proof {
                    lemma_table_error_stays(os, data_disks@, disk_skus@, link_targets@, i + 1, e@);
                }
                return Err(e);
            },
            Ok(limit) => {
                let device = resolve_device_path(link_targets[i].as_str());
                if limits.get(device.as_str()).is_some() {
                    let e = LimitError::DuplicateDevicePath { device };
                    proof {
                        lemma_table_error_stays(os, data_disks@, disk_skus@, link_targets@, i + 1, e@);
                    }
                    return Err(e);
                }
                limits.insert(device, limit);
            },
        }
        i = i + 1;
    }
    assert(data_disks@.subrange(0, data_disks@.len() as int) =~= data_disks@);
    assert(link_targets@.subrange(0, link_targets@.len() as int) =~= link_targets@);
    Ok(limits)
}

} // verus!
