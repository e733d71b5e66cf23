//! Why a limit could not be resolved.
use vstd::prelude::*;

use crate::resource::{Disk, VirtualMachine};

verus! {

/// A failure to build the limit table from the catalog and the metadata.
#[derive(Debug, Clone, PartialEq)]
pub enum LimitError {
    /// A SKU record lists no location.
    MissingLocation,
    /// A SKU record lacks a capability that its limits are read from.
    MissingCapability { name: String },
    /// A capability holds no usable value: not an unsigned integer, a zero
    /// limit, a size range that is empty, or a bandwidth out of range.
    InvalidCapabilityValue { name: String, value: String },
    /// No virtual machine SKU matches the location and size.
    NoVmSkuMatch { location: String, name: String },
    /// More than one virtual machine SKU matches the location and size.
    AmbiguousVmSkuMatch { location: String, name: String, matches: Vec<VirtualMachine> },
    /// No disk SKU of the storage class covers the size.
    NoDiskSkuMatch { size_gb: u64, storage_account_type: String },
    /// More than one disk SKU of the storage class covers the size.
    AmbiguousDiskSkuMatch { size_gb: u64, storage_account_type: String, matches: Vec<Disk> },
    /// A disk size in the instance metadata is not an unsigned integer.
    InvalidDiskSize { value: String },
    /// A data disk's link resolves to a device path that the table already
    /// holds, for the operating system disk or another data disk.
    DuplicateDevicePath { device: String },
}

/// `LimitError` with its text as characters.
pub enum LimitErrorView {
    MissingLocation,
    MissingCapability { name: Seq<char> },
    InvalidCapabilityValue { name: Seq<char>, value: Seq<char> },
    NoVmSkuMatch { location: Seq<char>, name: Seq<char> },
    AmbiguousVmSkuMatch { location: Seq<char>, name: Seq<char>, matches: Seq<VirtualMachine> },
    NoDiskSkuMatch { size_gb: u64, storage_account_type: Seq<char> },
    AmbiguousDiskSkuMatch { size_gb: u64, storage_account_type: Seq<char>, matches: Seq<Disk> },
    InvalidDiskSize { value: Seq<char> },
    DuplicateDevicePath { device: Seq<char> },
}

impl View for LimitError {
    type V = LimitErrorView;

    open spec fn view(&self) -> LimitErrorView {
        match self {
            LimitError::MissingLocation => LimitErrorView::MissingLocation,
            LimitError::MissingCapability { name } => LimitErrorView::MissingCapability {
                name: name@,
            },
            LimitError::InvalidCapabilityValue { name, value } =>
                LimitErrorView::InvalidCapabilityValue { name: name@, value: value@ },
            LimitError::NoVmSkuMatch { location, name } => LimitErrorView::NoVmSkuMatch {
                location: location@,
                name: name@,
            },
            LimitError::AmbiguousVmSkuMatch { location, name, matches } =>
                LimitErrorView::AmbiguousVmSkuMatch {
                location: location@,
                name: name@,
                matches: matches@,
            },
            LimitError::NoDiskSkuMatch { size_gb, storage_account_type } =>
                LimitErrorView::NoDiskSkuMatch {
                size_gb: *size_gb,
                storage_account_type: storage_account_type@,
            },
            LimitError::AmbiguousDiskSkuMatch { size_gb, storage_account_type, matches } =>
                LimitErrorView::AmbiguousDiskSkuMatch {
                size_gb: *size_gb,
                storage_account_type: storage_account_type@,
                matches: matches@,
            },
            LimitError::InvalidDiskSize { value } => LimitErrorView::InvalidDiskSize {
                value: value@,
            },
            LimitError::DuplicateDevicePath { device } => LimitErrorView::DuplicateDevicePath {
                device: device@,
            },
        }
    }
}

/// A result with its error as a view.
pub open spec fn outcome<T>(r: Result<T, LimitError>) -> Result<T, LimitErrorView> {
    match r {
        Ok(t) => Ok(t),
        Err(e) => Err(e@),
    }
}

/// A result that holds a vector, with the vector as a sequence and the
/// error as a view.
pub open spec fn outcome_seq<T>(r: Result<Vec<T>, LimitError>) -> Result<Seq<T>, LimitErrorView> {
    match r {
        Ok(v) => Ok(v@),
        Err(e) => Err(e@),
    }
}

} // verus!
