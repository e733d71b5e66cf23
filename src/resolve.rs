//! Resolution of the catalog to the one SKU that a query names.
use vstd::prelude::*;

use crate::classify::{classify_disk, classify_virtual_machine};
use crate::error::{outcome, outcome_seq, LimitError, LimitErrorView};
use crate::resource::{Disk, Resource, ResourceList, VirtualMachine};
use crate::text::same_text;

verus! {

/// The one item of a list, or the list itself when it holds none or several.
pub fn exactly_one<T>(items: Vec<T>) -> (r: Result<T, Vec<T>>)
    ensures
        items@.len() == 1 ==> r == Ok::<T, Vec<T>>(items@[0]),
        items@.len() != 1 ==> r == Err::<T, Vec<T>>(items),
{
    if items.len() == 1 {
        let mut items = items;
        match items.pop() {
            Some(item) => Ok(item),
            None => Err(items),
        }
    } else {
        Err(items)
    }
}

/// Whether a disk SKU of the storage class covers a disk of `size` GiB: the
/// lower bound of its range is exclusive, the upper bound inclusive.
pub open spec fn covers(sku: Disk, size: u64, storage_account_type: Seq<char>) -> bool {
    &&& sku.storage_account_type@ == storage_account_type
    &&& sku.min_size_gb < size
    &&& size <= sku.max_size_gb
}

/// The disk SKUs that cover a disk, in catalog order.
pub open spec fn covering_skus(skus: Seq<Disk>, size: u64, storage_account_type: Seq<char>) -> Seq<
    Disk,
>
    decreases skus.len(),
{
    if skus.len() == 0 {
        Seq::empty()
    } else {
        let earlier = covering_skus(skus.drop_last(), size, storage_account_type);
        if covers(skus.last(), size, storage_account_type) {
            earlier.push(skus.last())
        } else {
            earlier
        }
    }
}

/// The one disk SKU that covers a disk, or why there is none.
pub open spec fn select_disk_sku(skus: Seq<Disk>, size: u64, storage_account_type: Seq<char>) -> Result<
    Disk,
    LimitErrorView,
> {
    let matches = covering_skus(skus, size, storage_account_type);
    if matches.len() == 1 {
        Ok(matches[0])
    } else if matches.len() == 0 {
        Err(LimitErrorView::NoDiskSkuMatch { size_gb: size, storage_account_type })
    } else {
        Err(LimitErrorView::AmbiguousDiskSkuMatch { size_gb: size, storage_account_type, matches })
    }
}

proof fn lemma_covering_skus_contains(
    skus: Seq<Disk>,
    size: u64,
    storage_account_type: Seq<char>,
    sku: Disk,
)
    ensures
        covering_skus(skus, size, storage_account_type).contains(sku) <==> skus.contains(sku)
            && covers(sku, size, storage_account_type),
    decreases skus.len(),
{
    if skus.len() > 0 {
        let init = skus.drop_last();
        lemma_covering_skus_contains(init, size, storage_account_type, sku);
        let earlier = covering_skus(init, size, storage_account_type);
        if skus.contains(sku) {
            let j = choose|j: int| 0 <= j < skus.len() && skus[j] == sku;
            if j < skus.len() - 1 {
                assert(init[j] == sku);
            }
        }
        if init.contains(sku) {
            let j = choose|j: int| 0 <= j < init.len() && init[j] == sku;
            assert(skus[j] == sku);
        }
        if covers(skus.last(), size, storage_account_type) {
            assert(earlier.push(skus.last()).last() == skus.last());
            if earlier.contains(sku) {
                let j = choose|j: int| 0 <= j < earlier.len() && earlier[j] == sku;
                assert(earlier.push(skus.last())[j] == sku);
            }
            if earlier.push(skus.last()).contains(sku) {
                let j = choose|j: int|
                    0 <= j < earlier.len() + 1 && earlier.push(skus.last())[j] == sku;
                if j < earlier.len() {
                    assert(earlier[j] == sku);
                }
            }
        }
    }
}

/// The size range of a disk SKU leaves out its lower bound and takes in its
/// upper bound: in any catalog, a disk of exactly the maximum size is covered
/// by the SKU, one of exactly the minimum size is not.
pub proof fn lemma_size_range_bounds(skus: Seq<Disk>, i: int)
    requires
        0 <= i < skus.len(),
        skus[i].min_size_gb < skus[i].max_size_gb,
    ensures
        covering_skus(skus, skus[i].max_size_gb, skus[i].storage_account_type@).contains(skus[i]),
        !covering_skus(skus, skus[i].min_size_gb, skus[i].storage_account_type@).contains(skus[i]),
{
    let sku = skus[i];
    assert(skus.contains(sku));
    lemma_covering_skus_contains(skus, sku.max_size_gb, sku.storage_account_type@, sku);
    lemma_covering_skus_contains(skus, sku.min_size_gb, sku.storage_account_type@, sku);
}

proof fn lemma_covering_skus_none(skus: Seq<Disk>, size: u64, storage_account_type: Seq<char>)
    requires
        forall|j: int| 0 <= j < skus.len() ==> !covers(#[trigger] skus[j], size, storage_account_type),
    ensures
        covering_skus(skus, size, storage_account_type).len() == 0,
    decreases skus.len(),
{
    if skus.len() > 0 {
        let init = skus.drop_last();
        assert forall|j: int| 0 <= j < init.len() implies !covers(
            #[trigger] init[j],
            size,
            storage_account_type,
        ) by {
            assert(init[j] == skus[j]);
        }
        lemma_covering_skus_none(init, size, storage_account_type);
        assert(!covers(skus[skus.len() - 1], size, storage_account_type));
    }
}

proof fn lemma_covering_skus_single(
    skus: Seq<Disk>,
    size: u64,
    storage_account_type: Seq<char>,
    i: int,
)
    requires
        0 <= i < skus.len(),
        covers(skus[i], size, storage_account_type),
        forall|j: int|
            0 <= j < skus.len() && j != i ==> !covers(#[trigger] skus[j], size, storage_account_type),
    ensures
        covering_skus(skus, size, storage_account_type) =~= seq![skus[i]],
    decreases skus.len(),
{
    let init = skus.drop_last();
    if i == skus.len() - 1 {
        assert forall|j: int| 0 <= j < init.len() implies !covers(
            #[trigger] init[j],
            size,
            storage_account_type,
        ) by {
            assert(init[j] == skus[j]);
        }
        lemma_covering_skus_none(init, size, storage_account_type);
    } else {
        assert forall|j: int| 0 <= j < init.len() && j != i implies !covers(
            #[trigger] init[j],
            size,
            storage_account_type,
        ) by {
            assert(init[j] == skus[j]);
        }
        lemma_covering_skus_single(init, size, storage_account_type, i);
        assert(!covers(skus[skus.len() - 1], size, storage_account_type));
    }
}

proof fn lemma_covering_skus_two(
    skus: Seq<Disk>,
    size: u64,
    storage_account_type: Seq<char>,
    i: int,
    j: int,
)
    requires
        0 <= i < j < skus.len(),
        covers(skus[i], size, storage_account_type),
        covers(skus[j], size, storage_account_type),
    ensures
        covering_skus(skus, size, storage_account_type).len() >= 2,
    decreases skus.len(),
{
    let init = skus.drop_last();
    assert(init[i] == skus[i]);
    if j == skus.len() - 1 {
        assert(init.contains(skus[i]));
        lemma_covering_skus_contains(init, size, storage_account_type, skus[i]);
    } else {
        assert(init[j] == skus[j]);
        lemma_covering_skus_two(init, size, storage_account_type, i, j);
    }
}

/// Disk lookup when exactly one SKU of the catalog covers the disk: that SKU
/// is the result.
pub proof fn lemma_disk_lookup_single(
    skus: Seq<Disk>,
    size: u64,
    storage_account_type: Seq<char>,
    i: int,
)
    requires
        0 <= i < skus.len(),
        covers(skus[i], size, storage_account_type),
        forall|j: int|
            0 <= j < skus.len() && j != i ==> !covers(#[trigger] skus[j], size, storage_account_type),
    ensures
        select_disk_sku(skus, size, storage_account_type) == Ok::<Disk, LimitErrorView>(skus[i]),
{
    lemma_covering_skus_single(skus, size, storage_account_type, i);
}

/// Disk lookup when no SKU of the catalog covers the disk: there is no match.
pub proof fn lemma_disk_lookup_none(skus: Seq<Disk>, size: u64, storage_account_type: Seq<char>)
    requires
        forall|j: int| 0 <= j < skus.len() ==> !covers(#[trigger] skus[j], size, storage_account_type),
    ensures
        select_disk_sku(skus, size, storage_account_type) == Err::<Disk, LimitErrorView>(
            LimitErrorView::NoDiskSkuMatch { size_gb: size, storage_account_type },
        ),
{
    lemma_covering_skus_none(skus, size, storage_account_type);
}

/// Disk lookup when two or more SKUs of the catalog cover the disk: the
/// lookup is ambiguous, and lists the SKUs that cover it.
pub proof fn lemma_disk_lookup_ambiguous(
    skus: Seq<Disk>,
    size: u64,
    storage_account_type: Seq<char>,
    i: int,
    j: int,
)
    requires
        0 <= i < j < skus.len(),
        covers(skus[i], size, storage_account_type),
        covers(skus[j], size, storage_account_type),
    ensures
        select_disk_sku(skus, size, storage_account_type) == Err::<Disk, LimitErrorView>(
            LimitErrorView::AmbiguousDiskSkuMatch {
                size_gb: size,
                storage_account_type,
                matches: covering_skus(skus, size, storage_account_type),
            },
        ),
{
    lemma_covering_skus_two(skus, size, storage_account_type, i, j);
}

/// Finds the one disk SKU of a storage class whose size range covers `size`.
pub fn get_disk_sku(skus: &Vec<Disk>, size: &u64, storage_account_type: &str) -> (r: Result<
    Disk,
    LimitError,
>)
    ensures
        outcome(r) == select_disk_sku(skus@, *size, storage_account_type@),
{
    let mut filtered: Vec<Disk> = Vec::new();
    let mut i: usize = 0;
    while i < skus.len()
        invariant
            i <= skus@.len(),
            filtered@ == covering_skus(skus@.subrange(0, i as int), *size, storage_account_type@),
        decreases skus@.len() - i,
    {
        let sku = &skus[i];
        assert(skus@.subrange(0, i + 1).drop_last() =~= skus@.subrange(0, i as int));
        if same_text(sku.storage_account_type.as_str(), storage_account_type) && *size
            > sku.min_size_gb && *size <= sku.max_size_gb {
            filtered.push(sku.clone());
        }
        i = i + 1;
    }
    assert(skus@.subrange(0, skus@.len() as int) =~= skus@);
    match exactly_one(filtered) {
        Ok(sku) => Ok(sku),
        Err(matches) => {
            if matches.len() == 0 {
                Err(
                    LimitError::NoDiskSkuMatch {
                        size_gb: *size,
                        storage_account_type: storage_account_type.to_owned(),
                    },
                )
            } else {
                Err(
                    LimitError::AmbiguousDiskSkuMatch {
                        size_gb: *size,
                        storage_account_type: storage_account_type.to_owned(),
                        matches,
                    },
                )
            }
        },
    }
}

/// Whether a catalog record is a virtual machine SKU of the size, listed
/// first in the location.
pub open spec fn is_vm_candidate(r: Resource, location: Seq<char>, name: Seq<char>) -> bool {
    &&& r.resource_type@ == "virtualMachines"@
    &&& r.locations@.len() > 0
    &&& r.locations@[0]@ == location
    &&& r.name@ == name
}

/// Whether a catalog record is a disk SKU listed first in the location,
/// other than of the Ultra tier, whose limits are not given by size ranges.
pub open spec fn is_disk_candidate(r: Resource, location: Seq<char>) -> bool {
    &&& r.resource_type@ == "disks"@
    &&& r.locations@.len() > 0
    &&& r.locations@[0]@ == location
    &&& !(r.tier is Some && r.tier->0@ == "Ultra"@)
}

/// The virtual machine SKUs of the size in the location, classified in
/// catalog order; the first record that fails to classify gives the error.
pub open spec fn vm_skus(rs: Seq<Resource>, location: Seq<char>, name: Seq<char>) -> Result<
    Seq<VirtualMachine>,
    LimitErrorView,
>
    decreases rs.len(),
{
    if rs.len() == 0 {
        Ok(Seq::empty())
    } else {
        match vm_skus(rs.drop_last(), location, name) {
            Err(e) => Err(e),
            Ok(earlier) => if is_vm_candidate(rs.last(), location, name) {
                match classify_virtual_machine(rs.last()) {
                    Ok(vm) => Ok(earlier.push(vm)),
                    Err(e) => Err(e),
                }
            } else {
                Ok(earlier)
            },
        }
    }
}

/// The disk SKUs of the location, classified in catalog order; the first
/// record that fails to classify gives the error.
pub open spec fn disk_skus(rs: Seq<Resource>, location: Seq<char>) -> Result<
    Seq<Disk>,
    LimitErrorView,
>
    decreases rs.len(),
{
    if rs.len() == 0 {
        Ok(Seq::empty())
    } else {
        match disk_skus(rs.drop_last(), location) {
            Err(e) => Err(e),
            Ok(earlier) => if is_disk_candidate(rs.last(), location) {
                match classify_disk(rs.last()) {
                    Ok(d) => Ok(earlier.push(d)),
                    Err(e) => Err(e),
                }
            } else {
                Ok(earlier)
            },
        }
    }
}

/// The one virtual machine SKU of the size in the location, or why there is
/// none.
pub open spec fn select_vm_sku(rs: Seq<Resource>, location: Seq<char>, name: Seq<char>) -> Result<
    VirtualMachine,
    LimitErrorView,
> {
    match vm_skus(rs, location, name) {
        Err(e) => Err(e),
        Ok(matches) => if matches.len() == 1 {
            Ok(matches[0])
        } else if matches.len() == 0 {
            Err(LimitErrorView::NoVmSkuMatch { location, name })
        } else {
            Err(LimitErrorView::AmbiguousVmSkuMatch { location, name, matches })
        },
    }
}

fn is_vm_record(r: &Resource, location: &str, name: &str) -> (b: bool)
    ensures
        b == is_vm_candidate(*r, location@, name@),
{
    same_text(r.resource_type.as_str(), "virtualMachines") && r.locations.len() > 0 && same_text(
        r.locations[0].as_str(),
        location,
    ) && same_text(r.name.as_str(), name)
}

fn is_disk_record(r: &Resource, location: &str) -> (b: bool)
    ensures
        b == is_disk_candidate(*r, location@),
{
    let ultra = match &r.tier {
        Some(t) => same_text(t.as_str(), "Ultra"),
        None => false,
    };
    same_text(r.resource_type.as_str(), "disks") && r.locations.len() > 0 && same_text(
        r.locations[0].as_str(),
        location,
    ) && !ultra
}

/// Finds the limits of the one virtual machine SKU of size `name` listed
/// first in `location`.
pub fn get_vm_sku(resources: &ResourceList, location: &str, name: &str) -> (r: Result<
    VirtualMachine,
    LimitError,
>)
    ensures
        outcome(r) == select_vm_sku(resources.value@, location@, name@),
{
    let rs = &resources.value;
    let mut filtered: Vec<VirtualMachine> = Vec::new();
    let mut i: usize = 0;
    while i < rs.len()
        invariant
            rs@ == resources.value@,
            i <= rs@.len(),
            vm_skus(rs@.subrange(0, i as int), location@, name@) == Ok::<
                Seq<VirtualMachine>,
                LimitErrorView,
            >(filtered@),
        decreases rs@.len() - i,
    {
        assert(rs@.subrange(0, i + 1).drop_last() =~= rs@.subrange(0, i as int));
        assert(rs@.subrange(0, i + 1).last() == rs@[i as int]);
        if is_vm_record(&rs[i], location, name) {
            match VirtualMachine::try_from(&rs[i]) {
                Ok(vm) => filtered.push(vm),
                Err(e) => {
                    proof {
                        lemma_vm_skus_error_stays(rs@, location@, name@, i + 1, e@);
                    }
                    return Err(e);
                },
            }
        }
        i = i + 1;
    }
    assert(rs@.subrange(0, rs@.len() as int) =~= rs@);
    match exactly_one(filtered) {
        Ok(vm) => Ok(vm),
        Err(matches) => {
            if matches.len() == 0 {
                Err(LimitError::NoVmSkuMatch { location: location.to_owned(), name: name.to_owned() })
            } else {
                Err(
                    LimitError::AmbiguousVmSkuMatch {
                        location: location.to_owned(),
                        name: name.to_owned(),
                        matches,
                    },
                )
            }
        },
    }
}

proof fn lemma_vm_skus_error_stays(
    rs: Seq<Resource>,
    location: Seq<char>,
    name: Seq<char>,
    i: int,
    e: LimitErrorView,
)
    requires
        0 <= i <= rs.len(),
        vm_skus(rs.subrange(0, i), location, name) == Err::<Seq<VirtualMachine>, LimitErrorView>(e),
    ensures
        vm_skus(rs, location, name) == Err::<Seq<VirtualMachine>, LimitErrorView>(e),
    decreases rs.len() - i,
{
    if i < rs.len() {
        assert(rs.subrange(0, i + 1).drop_last() =~= rs.subrange(0, i));
        lemma_vm_skus_error_stays(rs, location, name, i + 1, e);
    } else {
        assert(rs.subrange(0, i) =~= rs);
    }
}

proof fn lemma_disk_skus_error_stays(rs: Seq<Resource>, location: Seq<char>, i: int, e: LimitErrorView)
    requires
        0 <= i <= rs.len(),
        disk_skus(rs.subrange(0, i), location) == Err::<Seq<Disk>, LimitErrorView>(e),
    ensures
        disk_skus(rs, location) == Err::<Seq<Disk>, LimitErrorView>(e),
    decreases rs.len() - i,
{
    if i < rs.len() {
        assert(rs.subrange(0, i + 1).drop_last() =~= rs.subrange(0, i));
        lemma_disk_skus_error_stays(rs, location, i + 1, e);
    } else {
        assert(rs.subrange(0, i) =~= rs);
    }
}

/// Classifies every disk SKU listed first in `location`, but those of the
/// Ultra tier, in catalog order; the first that fails to classify fails the
/// whole list.
pub fn list_disk_skus(resources: &ResourceList, location: &str) -> (r: Result<Vec<Disk>, LimitError>)
    ensures
        outcome_seq(r) == disk_skus(resources.value@, location@),
{
    let rs = &resources.value;
    let mut out: Vec<Disk> = Vec::new();
    let mut i: usize = 0;
    while i < rs.len()
        invariant
            rs@ == resources.value@,
            i <= rs@.len(),
            disk_skus(rs@.subrange(0, i as int), location@) == Ok::<Seq<Disk>, LimitErrorView>(
                out@,
            ),
        decreases rs@.len() - i,
    {
        assert(rs@.subrange(0, i + 1).drop_last() =~= rs@.subrange(0, i as int));
        assert(rs@.subrange(0, i + 1).last() == rs@[i as int]);
        if is_disk_record(&rs[i], location) {
            match Disk::try_from(&rs[i]) {
                Ok(d) => out.push(d),
                Err(e) => {
                    proof {
                        lemma_disk_skus_error_stays(rs@, location@, i + 1, e@);
                    }
                    return Err(e);
                },
            }
        }
        i = i + 1;
    }
    assert(rs@.subrange(0, rs@.len() as int) =~= rs@);
    Ok(out)
}

} // verus!
