//! What the caller reports back after an operation on a file.

use vstd::prelude::*;

verus! {

/// Why an operation on a file failed.
#[derive(Clone, Copy, Debug, PartialEq, Eq, Structural)]
pub enum IoFailure {
    /// The file ended before the requested number of bytes was read.
    UnexpectedEof,
    /// The operating system refused, with this raw error number.
    Os(i32),
    /// Any other failure.
    Other,
}

/// Outcome of reading an exact number of bytes at offset 0 of a file.
pub type ReadExact = Result<Vec<u8>, IoFailure>;

/// The outcome of reading exactly `len` bytes at offset 0 of a file that
/// holds `contents` and can be read without fault.
pub open spec fn read_at_start(contents: Seq<u8>, len: nat) -> Result<Seq<u8>, IoFailure> {
    if contents.len() >= len {
        Ok(contents.subrange(0, len as int))
    } else {
        Err(IoFailure::UnexpectedEof)
    }
}

/// A read outcome with the bytes taken as a sequence.
pub open spec fn read_view(read: ReadExact) -> Result<Seq<u8>, IoFailure> {
    match read {
        Ok(bytes) => Ok(bytes@),
        Err(e) => Err(e),
    }
}

/// Reads exactly `len` bytes at offset 0 of an image held in memory.
pub fn read_exact_at_start(image: &[u8], len: usize) -> (read: ReadExact)
    ensures
        read_view(read) == read_at_start(image@, len as nat),
{
    if image.len() < len {
        return Err(IoFailure::UnexpectedEof);
    }
    let mut bytes: Vec<u8> = Vec::new();
    let mut i: usize = 0;
    while i < len
        invariant
            i <= len <= image.len(),
            bytes@ == image@.subrange(0, i as int),
        decreases len - i,
    {
        bytes.push(image[i]);
        i += 1;
        assert(bytes@ =~= image@.subrange(0, i as int));
    }
    Ok(bytes)
}

} // verus!
