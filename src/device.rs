//! Device paths of data disks, found through the per-LUN symbolic links that
//! the platform keeps under one directory.
use vstd::prelude::*;

verus! {

/// What `relative_path` makes of a path when it normalises it.
pub uninterp spec fn normalized_of(path: Seq<char>) -> Seq<char>;

/// Relies on relative_path's `RelativePath::normalize`, turned into its
/// `String`: the path with its `.` components dropped and each `..` folded
/// into the component before it, a function of the text alone.
#[verifier::external_body]
fn normalize_path(path: &str) -> (r: String)
    ensures
        r@ == normalized_of(path@),
{
    relative_path::RelativePath::new(path).normalize().into_string()
}

/// The symbolic link that names the device of the data disk at a LUN.
pub fn lun_link_path(lun: &str) -> (r: String)
    ensures
        r@ == "/dev/disk/azure/scsi1/lun"@ + lun@,
{
    let mut path = String::from_str("/dev/disk/azure/scsi1/lun");
    path.append(lun);
    path
}

/// A link target, relative to the directory of the links.
pub fn link_target_path(target: &str) -> (r: String)
    ensures
        r@ == "/dev/disk/azure/scsi1/"@ + target@,
{
    let mut path = String::from_str("/dev/disk/azure/scsi1/");
    path.append(target);
    path
}

/// A normalised path, made absolute.
pub fn absolute_path(normalized: &str) -> (r: String)
    ensures
        r@ == "/"@ + normalized@,
{
    let mut path = String::from_str("/");
    path.append(normalized);
    path
}

/// The device path that a link target leads to.
pub open spec fn device_path_of(target: Seq<char>) -> Seq<char> {
    "/"@ + normalized_of("/dev/disk/azure/scsi1/"@ + target)
}

/// Resolves the target of a LUN link against the directory of the links,
/// without reading the file system further.
pub fn resolve_device_path(target: &str) -> (r: String)
    ensures
        r@ == device_path_of(target@),
{
    let joined = link_target_path(target);
    let normalized = normalize_path(joined.as_str());
    absolute_path(normalized.as_str())
}

} // verus!
