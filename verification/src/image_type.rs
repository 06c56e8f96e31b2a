//! Classification of a partition image by its magic bytes.

use vstd::prelude::*;
use crate::io::{IoFailure, ReadExact, read_at_start, read_view, read_exact_at_start};

verus! {

/// Image file types that can be told apart.
#[derive(Clone, Copy, Debug, PartialEq, Eq, Structural)]
pub enum ImageType {
    Raw,
    Qcow2,
    CompositeDisk,
    AndroidSparse,
}

/// Magic number of a QCOW2 image, stored big-endian.
pub const QCOW_MAGIC: u32 = 0x5146_49fb;

/// Magic number of an Android sparse image, stored little-endian.
pub const SPARSE_HEADER_MAGIC: u32 = 0xed26_ff3a;

/// Number of bytes read to look for either four-byte magic number.
pub const MAGIC_LEN: usize = 4;

/// Number of bytes in the magic string of a composite disk.
pub const CDISK_MAGIC_LEN: usize = 15;

/// The magic string of a composite disk: `composite_disk` and a unit separator.
pub open spec fn cdisk_magic() -> Seq<u8> {
    seq![
        0x63u8, 0x6f, 0x6d, 0x70, 0x6f, 0x73, 0x69, 0x74, 0x65, 0x5f, 0x64, 0x69, 0x73, 0x6b, 0x1d,
    ]
}

/// Four bytes read as a big-endian number.
pub open spec fn be_u32(b: Seq<u8>) -> int
    recommends
        b.len() == 4,
{
    b[0] as int * 0x100_0000 + b[1] as int * 0x1_0000 + b[2] as int * 0x100 + b[3] as int
}

/// Four bytes read as a little-endian number.
pub open spec fn le_u32(b: Seq<u8>) -> int
    recommends
        b.len() == 4,
{
    b[0] as int + b[1] as int * 0x100 + b[2] as int * 0x1_0000 + b[3] as int * 0x100_0000
}

/// The type of an image with the given contents.
pub open spec fn image_type_of(contents: Seq<u8>) -> ImageType {
    if contents.len() < MAGIC_LEN {
        ImageType::Raw
    } else if be_u32(contents.subrange(0, 4)) == QCOW_MAGIC {
        ImageType::Qcow2
    } else if le_u32(contents.subrange(0, 4)) == SPARSE_HEADER_MAGIC {
        ImageType::AndroidSparse
    } else if contents.len() < CDISK_MAGIC_LEN {
        ImageType::Raw
    } else if contents.subrange(0, 15) == cdisk_magic() {
        ImageType::CompositeDisk
    } else {
        ImageType::Raw
    }
}

/// The read that a detection is waiting for.
#[derive(Clone, Copy, Debug, PartialEq, Eq, Structural)]
pub enum DetectState {
    /// The first four bytes, which hold a magic number if there is one.
    Magic,
    /// The first bytes again, as many as the composite disk magic string has.
    CompositeMagic,
}

/// Where a detection stands after a read.
#[derive(Clone, Copy, Debug, PartialEq, Eq, Structural)]
pub enum Detection {
    /// Another read at offset 0 is needed.
    Read(DetectState),
    /// The image has this type.
    Done(ImageType),
    /// A read failed, and not because the file was too short.
    Failed(IoFailure),
}

impl DetectState {
    /// Number of bytes to read at offset 0 in this state.
    pub open spec fn spec_read_len(self) -> usize {
        match self {
            DetectState::Magic => MAGIC_LEN,
            DetectState::CompositeMagic => CDISK_MAGIC_LEN,
        }
    }

    /// Number of bytes to read at offset 0 in this state.
    #[verifier::when_used_as_spec(spec_read_len)]
    pub fn read_len(self) -> (len: usize)
        ensures
            len == self.spec_read_len(),
    {
        match self {
            DetectState::Magic => MAGIC_LEN,
            DetectState::CompositeMagic => CDISK_MAGIC_LEN,
        }
    }
}

/// What four bytes say when they are taken for a magic number: the type they
/// name, or nothing.
pub open spec fn magic_type(b: Seq<u8>) -> Option<ImageType> {
    if b.len() != 4 {
        None
    } else if be_u32(b) == QCOW_MAGIC {
        Some(ImageType::Qcow2)
    } else if le_u32(b) == SPARSE_HEADER_MAGIC {
        Some(ImageType::AndroidSparse)
    } else {
        None
    }
}

/// The next step of a detection in `state` once the read it waited for has
/// given `read`. A file too short for the read is a raw image; any other
/// failure ends the detection.
pub open spec fn detection_after(state: DetectState, read: Result<Seq<u8>, IoFailure>) -> Detection {
    match read {
        Err(IoFailure::UnexpectedEof) => Detection::Done(ImageType::Raw),
        Err(e) => Detection::Failed(e),
        Ok(bytes) => match state {
            DetectState::Magic => match magic_type(bytes) {
                Some(t) => Detection::Done(t),
                None => Detection::Read(DetectState::CompositeMagic),
            },
            DetectState::CompositeMagic => if bytes == cdisk_magic() {
                Detection::Done(ImageType::CompositeDisk)
            } else {
                Detection::Done(ImageType::Raw)
            },
        },
    }
}

/// Tells which type four bytes name as a magic number, if any.
pub fn classify_magic(bytes: &[u8]) -> (t: Option<ImageType>)
    ensures
        t == magic_type(bytes@),
{
    if bytes.len() != 4 {
        return None;
    }
    let b0: u32 = bytes[0] as u32;
    let b1: u32 = bytes[1] as u32;
    let b2: u32 = bytes[2] as u32;
    let b3: u32 = bytes[3] as u32;
    let big_endian: u32 = b0 * 0x100_0000 + b1 * 0x1_0000 + b2 * 0x100 + b3;
    let little_endian: u32 = b0 + b1 * 0x100 + b2 * 0x1_0000 + b3 * 0x100_0000;
    if big_endian == QCOW_MAGIC {
        Some(ImageType::Qcow2)
    } else if little_endian == SPARSE_HEADER_MAGIC {
        Some(ImageType::AndroidSparse)
    } else {
        None
    }
}

/// Tells whether the bytes are the magic string of a composite disk.
pub fn is_cdisk_magic(bytes: &[u8]) -> (found: bool)
    ensures
        found == (bytes@ == cdisk_magic()),
{
    let magic: [u8; 15] = [
        0x63, 0x6f, 0x6d, 0x70, 0x6f, 0x73, 0x69, 0x74, 0x65, 0x5f, 0x64, 0x69, 0x73, 0x6b, 0x1d,
    ];
    if bytes.len() != CDISK_MAGIC_LEN {
        return false;
    }
    let mut i: usize = 0;
    while i < CDISK_MAGIC_LEN
        invariant
            i <= CDISK_MAGIC_LEN,
            bytes.len() == CDISK_MAGIC_LEN,
            magic@ == cdisk_magic(),
            forall|j: int| 0 <= j < i ==> bytes@[j] == cdisk_magic()[j],
        decreases CDISK_MAGIC_LEN - i,
    {
        if bytes[i] != magic[i] {
            return false;
        }
        i += 1;
    }
    assert(bytes@ =~= cdisk_magic());
    true
}

/// Starts a detection: the first read is of the four magic bytes.
pub fn detect_start() -> (state: DetectState)
    ensures
        state == DetectState::Magic,
{
    DetectState::Magic
}

/// Takes a detection one step further, given the outcome of the read of
/// `state.read_len()` bytes at offset 0 that it was waiting for.
pub fn detect_step(state: DetectState, read: &ReadExact) -> (next: Detection)
    ensures
        next == detection_after(state, read_view(*read)),
{
    match read {
        Err(IoFailure::UnexpectedEof) => Detection::Done(ImageType::Raw),
        Err(e) => Detection::Failed(*e),
        Ok(bytes) => match state {
            DetectState::Magic => match classify_magic(bytes.as_slice()) {
                Some(t) => Detection::Done(t),
                None => Detection::Read(DetectState::CompositeMagic),
            },
            DetectState::CompositeMagic => if is_cdisk_magic(bytes.as_slice()) {
                Detection::Done(ImageType::CompositeDisk)
            } else {
                Detection::Done(ImageType::Raw)
            },
        },
    }
}

/// Detects the type of an image held in memory by looking for magic bytes,
/// with the reads that a detection on a file makes.
pub fn detect_image_type(image: &[u8]) -> (t: ImageType)
    ensures
        t == image_type_of(image@),
{
    let first = read_exact_at_start(image, detect_start().read_len());
    match detect_step(DetectState::Magic, &first) {
        Detection::Done(t) => t,
        Detection::Failed(_) => ImageType::Raw,
        Detection::Read(state) => {
            let second = read_exact_at_start(image, state.read_len());
            match detect_step(state, &second) {
                Detection::Done(t) => t,
                _ => ImageType::Raw,
            }
        },
    }
}

/// The bytes of the QCOW2 magic number in the order they stand in a file.
pub open spec fn qcow_magic_bytes() -> Seq<u8> {
    seq![0x51u8, 0x46, 0x49, 0xfb]
}

/// The bytes of the Android sparse magic number in the order they stand in a file.
pub open spec fn sparse_magic_bytes() -> Seq<u8> {
    seq![0x3au8, 0xff, 0x26, 0xed]
}

/// An image shorter than four bytes is a raw image.
pub proof fn lemma_short_image_is_raw(contents: Seq<u8>)
    requires
        contents.len() < 4,
    ensures
        image_type_of(contents) == ImageType::Raw,
{
}

/// An image of four bytes or more that begins with the QCOW2 magic number is
/// a QCOW2 image, and one that begins with the Android sparse magic number is
/// an Android sparse image, whatever follows.
pub proof fn lemma_magic_decides(contents: Seq<u8>)
    requires
        contents.len() >= 4,
    ensures
        contents.subrange(0, 4) == qcow_magic_bytes() ==> image_type_of(contents)
            == ImageType::Qcow2,
        contents.subrange(0, 4) == sparse_magic_bytes() ==> image_type_of(contents)
            == ImageType::AndroidSparse,
        image_type_of(contents) == ImageType::Qcow2 ==> contents.subrange(0, 4)
            == qcow_magic_bytes(),
        image_type_of(contents) == ImageType::AndroidSparse ==> contents.subrange(0, 4)
            == sparse_magic_bytes(),
{
    let b = contents.subrange(0, 4);
    if image_type_of(contents) == ImageType::Qcow2 {
        assert(b =~= qcow_magic_bytes());
    }
    if image_type_of(contents) == ImageType::AndroidSparse {
        assert(b =~= sparse_magic_bytes());
    }
}

/// A detection on a file that is read without fault ends, after one read or
/// two, with the type of the file's contents.
pub proof fn lemma_detection_follows_contents(contents: Seq<u8>)
    ensures
        match detection_after(DetectState::Magic, read_at_start(contents, 4)) {
            Detection::Done(t) => t == image_type_of(contents),
            Detection::Read(state) => detection_after(state, read_at_start(contents, state.read_len() as nat))
                == Detection::Done(image_type_of(contents)),
            Detection::Failed(_) => false,
        },
{
}

} // verus!
