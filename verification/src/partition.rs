//! Partition descriptors and the partition records resolved from them.

use vstd::prelude::*;
use crate::fd_path::fd_path;

verus! {

/// What a partition holds, as the encoder of composite images tags it.
#[derive(Clone, Copy, Debug, PartialEq, Eq, Structural)]
pub enum ImagePartitionType {
    LinuxFilesystem,
    EfiSystemPartition,
}

/// A partition as the caller describes it.
#[derive(Clone, Debug)]
pub struct PartitionSpec {
    /// Name of the partition. Labels are not checked for uniqueness.
    pub label: String,
    /// Descriptor number of the caller's open handle on the backing image,
    /// if the caller gave one.
    pub image_handle: Option<i32>,
    /// Whether the partition may be written to.
    pub writable: bool,
    /// GUID of the partition as a UUID string, if it is to have one.
    pub guid: Option<String>,
}

/// A partition descriptor with its strings taken as sequences of characters.
pub struct PartitionSpecView {
    pub label: Seq<char>,
    pub image_handle: Option<i32>,
    pub writable: bool,
    pub guid: Option<Seq<char>>,
}

impl View for PartitionSpec {
    type V = PartitionSpecView;

    open spec fn view(&self) -> PartitionSpecView {
        PartitionSpecView {
            label: self.label@,
            image_handle: self.image_handle,
            writable: self.writable,
            guid: match self.guid {
                Some(text) => Some(text@),
                None => None,
            },
        }
    }
}

/// A partition with all that the encoder of composite images needs of it.
#[derive(Clone, Debug)]
pub struct PartitionInfo {
    /// Name of the partition.
    pub label: String,
    /// Path that names the duplicated image handle by its descriptor number.
    pub path: String,
    /// What the partition holds.
    pub partition_type: ImagePartitionType,
    /// Whether the partition may be written to.
    pub writable: bool,
    /// Logical size of the partition in bytes.
    pub size: u64,
    /// GUID of the partition, the sixteen bytes of the UUID read big-endian.
    pub guid: Option<u128>,
}

/// A partition record with its strings taken as sequences of characters.
pub struct PartitionInfoView {
    pub label: Seq<char>,
    pub path: Seq<char>,
    pub partition_type: ImagePartitionType,
    pub writable: bool,
    pub size: u64,
    pub guid: Option<u128>,
}

impl View for PartitionInfo {
    type V = PartitionInfoView;

    open spec fn view(&self) -> PartitionInfoView {
        PartitionInfoView {
            label: self.label@,
            path: self.path@,
            partition_type: self.partition_type,
            writable: self.writable,
            size: self.size,
            guid: self.guid,
        }
    }
}

/// The views of a list of partition descriptors.
pub open spec fn spec_views(specs: Seq<PartitionSpec>) -> Seq<PartitionSpecView> {
    Seq::new(specs.len(), |i: int| specs[i]@)
}

/// The views of a list of partition records.
pub open spec fn info_views(partitions: Seq<PartitionInfo>) -> Seq<PartitionInfoView> {
    Seq::new(partitions.len(), |i: int| partitions[i]@)
}

/// The record of a partition described by `spec` whose image handle was
/// duplicated to descriptor number `handle`, of the given size and GUID. The
/// partition is named by the duplicated handle and tagged as a Linux
/// file system.
pub open spec fn resolved_info(
    spec: PartitionSpecView,
    handle: i32,
    size: u64,
    guid: Option<u128>,
) -> PartitionInfoView {
    PartitionInfoView {
        label: spec.label,
        path: fd_path(handle as int),
        partition_type: ImagePartitionType::LinuxFilesystem,
        writable: spec.writable,
        size,
        guid,
    }
}

} // verus!
