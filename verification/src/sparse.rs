//! The header of an Android sparse image.

use vstd::prelude::*;
use crate::error::SizeError;

verus! {

/// Number of bytes in the header of an Android sparse image.
pub const SPARSE_HEADER_LEN: usize = 28;

/// The header at offset 0 of an Android sparse image. All fields are stored
/// little-endian, one after the other without padding.
#[derive(Clone, Copy, Debug, PartialEq, Eq, Structural)]
pub struct AndroidSparseHeader {
    pub magic: u32,
    pub major_version: u16,
    pub minor_version: u16,
    pub file_hdr_sz: u16,
    pub chunk_hdr_size: u16,
    pub blk_sz: u32,
    pub total_blks: u32,
    pub total_chunks: u32,
    pub image_checksum: u32,
}

/// The two bytes of `b` from `at` on, read as a little-endian number.
pub open spec fn le_u16_at(b: Seq<u8>, at: int) -> int
    recommends
        0 <= at,
        at + 2 <= b.len(),
{
    b[at] as int + b[at + 1] as int * 0x100
}

/// The four bytes of `b` from `at` on, read as a little-endian number.
pub open spec fn le_u32_at(b: Seq<u8>, at: int) -> int
    recommends
        0 <= at,
        at + 4 <= b.len(),
{
    b[at] as int + b[at + 1] as int * 0x100 + b[at + 2] as int * 0x1_0000 + b[at + 3] as int
        * 0x100_0000
}

/// The header that the first 28 bytes of `b` hold.
pub open spec fn header_of(b: Seq<u8>) -> AndroidSparseHeader
    recommends
        b.len() >= SPARSE_HEADER_LEN,
{
    AndroidSparseHeader {
        magic: le_u32_at(b, 0) as u32,
        major_version: le_u16_at(b, 4) as u16,
        minor_version: le_u16_at(b, 6) as u16,
        file_hdr_sz: le_u16_at(b, 8) as u16,
        chunk_hdr_size: le_u16_at(b, 10) as u16,
        blk_sz: le_u32_at(b, 12) as u32,
        total_blks: le_u32_at(b, 16) as u32,
        total_chunks: le_u32_at(b, 20) as u32,
        image_checksum: le_u32_at(b, 24) as u32,
    }
}

/// The header in the first bytes of `b`, if `b` is long enough to hold one.
pub open spec fn parse_header(b: Seq<u8>) -> Option<AndroidSparseHeader> {
    if b.len() >= SPARSE_HEADER_LEN {
        Some(header_of(b))
    } else {
        None
    }
}

fn read_le_u16(bytes: &[u8], at: usize) -> (value: u16)
    requires
        at + 2 <= bytes.len(),
    ensures
        value == le_u16_at(bytes@, at as int),
{
    let b0: u16 = bytes[at] as u16;
    let b1: u16 = bytes[at + 1] as u16;
    b0 + b1 * 0x100
}

fn read_le_u32(bytes: &[u8], at: usize) -> (value: u32)
    requires
        at + 4 <= bytes.len(),
    ensures
        value == le_u32_at(bytes@, at as int),
{
    let b0: u32 = bytes[at] as u32;
    let b1: u32 = bytes[at + 1] as u32;
    let b2: u32 = bytes[at + 2] as u32;
    let b3: u32 = bytes[at + 3] as u32;
    b0 + b1 * 0x100 + b2 * 0x1_0000 + b3 * 0x100_0000
}

impl AndroidSparseHeader {
    /// Reads a header from the first 28 bytes of `bytes`; there is none if
    /// `bytes` is shorter than that.
    pub fn parse(bytes: &[u8]) -> (header: Option<AndroidSparseHeader>)
        ensures
            header == parse_header(bytes@),
    {
        if bytes.len() < SPARSE_HEADER_LEN {
            return None;
        }
        Some(
            AndroidSparseHeader {
                magic: read_le_u32(bytes, 0),
                major_version: read_le_u16(bytes, 4),
                minor_version: read_le_u16(bytes, 6),
                file_hdr_sz: read_le_u16(bytes, 8),
                chunk_hdr_size: read_le_u16(bytes, 10),
                blk_sz: read_le_u32(bytes, 12),
                total_blks: read_le_u32(bytes, 16),
                total_chunks: read_le_u32(bytes, 20),
                image_checksum: read_le_u32(bytes, 24),
            },
        )
    }

    /// Number of bytes of the image that the header describes: the number of
    /// blocks times the size of a block.
    pub open spec fn spec_logical_size(self) -> int {
        self.total_blks as int * self.blk_sz as int
    }

    /// The size in bytes of the image that the header describes, or
    /// `SizeOverflow` if that size does not fit in 64 bits.
    pub fn logical_size(&self) -> (size: Result<u64, SizeError>)
        ensures
            size == size_of_header(*self),
    {
        let blocks: u64 = self.total_blks as u64;
        let block_size: u64 = self.blk_sz as u64;
        match blocks.checked_mul(block_size) {
            Some(size) => Ok(size),
            None => Err(SizeError::SizeOverflow),
        }
    }
}

/// The size in bytes of the image that a header describes: block count times
/// block size where that fits in 64 bits, and `SizeOverflow` where it does not.
pub open spec fn size_of_header(header: AndroidSparseHeader) -> Result<u64, SizeError> {
    if header.spec_logical_size() <= u64::MAX {
        Ok(header.spec_logical_size() as u64)
    } else {
        Err(SizeError::SizeOverflow)
    }
}

/// Block count and block size are 32 bits wide each, so their product always
/// fits in 64 bits.
pub proof fn lemma_logical_size_fits(header: AndroidSparseHeader)
    ensures
        0 <= header.spec_logical_size() <= u64::MAX,
        size_of_header(header) == Ok::<u64, SizeError>(header.spec_logical_size() as u64),
{
    let t = header.total_blks as int;
    let b = header.blk_sz as int;
    assert(0 <= t * b <= 0xffff_ffff * 0xffff_ffff) by (nonlinear_arith)
        requires
            0 <= t <= 0xffff_ffff,
            0 <= b <= 0xffff_ffff,
    ;
}

} // verus!
