//! The ways in which composing an image can fail.

use vstd::prelude::*;
use crate::io::IoFailure;
use crate::image_type::ImageType;

verus! {

/// The operation on a partition image during which a size computation failed.
#[derive(Clone, Copy, Debug, PartialEq, Eq, Structural)]
pub enum ProbeStep {
    /// Reading the magic bytes to detect the image type.
    DetectImageType,
    /// Asking the file system for the length of the file.
    Metadata,
    /// Reading the header of an Android sparse image.
    SparseHeader,
}

/// Why the size of a partition image could not be computed.
#[derive(Clone, Copy, Debug, PartialEq, Eq, Structural)]
pub enum SizeError {
    /// An operation on the image file failed.
    Io(ProbeStep, IoFailure),
    /// The image has a type whose size cannot be computed here.
    UnsupportedImageType(ImageType),
    /// Block count times block size does not fit in 64 bits.
    SizeOverflow,
}

/// One of the files that belong to a composite image, besides the partitions.
#[derive(Clone, Copy, Debug, PartialEq, Eq, Structural)]
pub enum ImageFile {
    /// The composite image itself.
    Composite,
    /// The header file.
    Header,
    /// The footer file.
    Footer,
    /// The source of zero bytes used as padding.
    ZeroFiller,
}

/// Where an operation on a file failed.
#[derive(Clone, Copy, Debug, PartialEq, Eq, Structural)]
pub enum IoContext {
    /// While computing the size of the partition at this position.
    Partition { index: usize, step: ProbeStep },
    /// While creating this output file, which must not exist yet.
    Create(ImageFile),
    /// While opening this file read-only.
    Open(ImageFile),
    /// While the encoder wrote the header, the footer and the composite image.
    Encode,
}

/// Why composing an image failed.
#[derive(Clone, Copy, Debug, PartialEq, Eq, Structural)]
pub enum ComposeError {
    /// The partition at this position has no image file handle.
    InvalidPartition { index: usize },
    /// The image file handle of the partition at this position could not be duplicated.
    HandleCloneFailed { index: usize, cause: IoFailure },
    /// An operation on a file failed.
    IoError { context: IoContext, cause: IoFailure },
    /// The image of the partition at this position has a type that cannot
    /// serve as a partition.
    UnsupportedImageType { index: usize, image_type: ImageType },
    /// The Android sparse image of the partition at this position claims a
    /// size that does not fit in 64 bits.
    SizeOverflow { index: usize },
    /// The GUID of the partition at this position is not a UUID.
    BadGuid { index: usize },
}

impl SizeError {
    /// This failure as that of the partition at position `index`.
    pub open spec fn spec_for_partition(self, index: usize) -> ComposeError {
        match self {
            SizeError::Io(step, cause) => ComposeError::IoError {
                context: IoContext::Partition { index, step },
                cause,
            },
            SizeError::UnsupportedImageType(image_type) => ComposeError::UnsupportedImageType {
                index,
                image_type,
            },
            SizeError::SizeOverflow => ComposeError::SizeOverflow { index },
        }
    }

    /// This failure as that of the partition at position `index`.
    #[verifier::when_used_as_spec(spec_for_partition)]
    pub fn for_partition(self, index: usize) -> (error: ComposeError)
        ensures
            error == self.spec_for_partition(index),
    {
        match self {
            SizeError::Io(step, cause) => ComposeError::IoError {
                context: IoContext::Partition { index, step },
                cause,
            },
            SizeError::UnsupportedImageType(image_type) => ComposeError::UnsupportedImageType {
                index,
                image_type,
            },
            SizeError::SizeOverflow => ComposeError::SizeOverflow { index },
        }
    }
}

} // verus!
