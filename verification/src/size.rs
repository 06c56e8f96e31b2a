//! The logical size of a partition image, found without reading it through.

use vstd::prelude::*;
use crate::error::{ProbeStep, SizeError};
use crate::image_type::{
    detect_start, detect_step, detection_after, image_type_of, DetectState, Detection, ImageType,
    lemma_detection_follows_contents,
};
use crate::io::{read_at_start, read_exact_at_start, read_view, IoFailure, ReadExact};
use crate::sparse::{parse_header, size_of_header, AndroidSparseHeader, SPARSE_HEADER_LEN};

verus! {

/// What a size computation is waiting for.
#[derive(Clone, Copy, Debug, PartialEq, Eq, Structural)]
pub enum SizeState {
    /// A read that the detection of the image type asked for.
    Detect(DetectState),
    /// The length of the file, for a raw image.
    RawLength,
    /// The header at offset 0, for an Android sparse image.
    SparseHeader,
}

/// An operation on the image file that a size computation asks for.
#[derive(Clone, Copy, Debug, PartialEq, Eq, Structural)]
pub enum SizeRequest {
    /// Read exactly this many bytes at offset 0, without moving any cursor.
    ReadExact(usize),
    /// Ask the file system for the length of the file.
    Length,
}

/// The outcome of an operation that a size computation asked for.
pub enum SizeReply {
    /// Outcome of a read.
    Read(ReadExact),
    /// Outcome of asking for the length of the file.
    Length(Result<u64, IoFailure>),
}

/// Where a size computation stands after a reply.
#[derive(Clone, Copy, Debug, PartialEq, Eq)]
pub enum SizeProgress {
    /// Another operation is needed: the one that this state asks for.
    Ask(SizeState),
    /// The computation has ended with this size or this failure.
    Done(Result<u64, SizeError>),
}

/// A reply with the bytes of a read taken as a sequence.
pub enum SizeReplyView {
    Read(Result<Seq<u8>, IoFailure>),
    Length(Result<u64, IoFailure>),
}

impl View for SizeReply {
    type V = SizeReplyView;

    open spec fn view(&self) -> SizeReplyView {
        match *self {
            SizeReply::Read(read) => SizeReplyView::Read(read_view(read)),
            SizeReply::Length(length) => SizeReplyView::Length(length),
        }
    }
}

impl SizeState {
    /// The operation that this state is waiting for.
    pub open spec fn spec_request(self) -> SizeRequest {
        match self {
            SizeState::Detect(state) => SizeRequest::ReadExact(state.read_len()),
            SizeState::RawLength => SizeRequest::Length,
            SizeState::SparseHeader => SizeRequest::ReadExact(SPARSE_HEADER_LEN),
        }
    }

    /// The operation that this state is waiting for.
    #[verifier::when_used_as_spec(spec_request)]
    pub fn request(self) -> (request: SizeRequest)
        ensures
            request == self.spec_request(),
    {
        match self {
            SizeState::Detect(state) => SizeRequest::ReadExact(state.read_len()),
            SizeState::RawLength => SizeRequest::Length,
            SizeState::SparseHeader => SizeRequest::ReadExact(SPARSE_HEADER_LEN),
        }
    }

    /// The step of the computation that this state stands for.
    pub open spec fn spec_step(self) -> ProbeStep {
        match self {
            SizeState::Detect(_) => ProbeStep::DetectImageType,
            SizeState::RawLength => ProbeStep::Metadata,
            SizeState::SparseHeader => ProbeStep::SparseHeader,
        }
    }

    /// The step of the computation that this state stands for.
    #[verifier::when_used_as_spec(spec_step)]
    pub fn step(self) -> (step: ProbeStep)
        ensures
            step == self.spec_step(),
    {
        match self {
            SizeState::Detect(_) => ProbeStep::DetectImageType,
            SizeState::RawLength => ProbeStep::Metadata,
            SizeState::SparseHeader => ProbeStep::SparseHeader,
        }
    }
}

/// What follows once the type of the image is known: a raw image is as long
/// as its file, an Android sparse image says its size in its header, and no
/// other type can be sized.
pub open spec fn after_detection(image_type: ImageType) -> SizeProgress {
    match image_type {
        ImageType::Raw => SizeProgress::Ask(SizeState::RawLength),
        ImageType::AndroidSparse => SizeProgress::Ask(SizeState::SparseHeader),
        t => SizeProgress::Done(Err(SizeError::UnsupportedImageType(t))),
    }
}

/// The size that the bytes of a header read give. Bytes too few for a
/// header count as a file that ended early.
pub open spec fn size_from_header_bytes(bytes: Seq<u8>) -> Result<u64, SizeError> {
    match parse_header(bytes) {
        Some(header) => size_of_header(header),
        None => Err(SizeError::Io(ProbeStep::SparseHeader, IoFailure::UnexpectedEof)),
    }
}

/// The next step of a size computation in `state` once the operation it
/// waited for has given `reply`. A reply of the wrong kind counts as a
/// failure of the operation awaited.
pub open spec fn size_after(state: SizeState, reply: SizeReplyView) -> SizeProgress {
    match (state, reply) {
        (SizeState::Detect(detect), SizeReplyView::Read(read)) => match detection_after(
            detect,
            read,
        ) {
            Detection::Read(next) => SizeProgress::Ask(SizeState::Detect(next)),
            Detection::Done(t) => after_detection(t),
            Detection::Failed(e) => SizeProgress::Done(
                Err(SizeError::Io(ProbeStep::DetectImageType, e)),
            ),
        },
        (SizeState::RawLength, SizeReplyView::Length(Ok(length))) => SizeProgress::Done(Ok(length)),
        (SizeState::RawLength, SizeReplyView::Length(Err(e))) => SizeProgress::Done(
            Err(SizeError::Io(ProbeStep::Metadata, e)),
        ),
        (SizeState::SparseHeader, SizeReplyView::Read(Ok(bytes))) => SizeProgress::Done(
            size_from_header_bytes(bytes),
        ),
        (SizeState::SparseHeader, SizeReplyView::Read(Err(e))) => SizeProgress::Done(
            Err(SizeError::Io(ProbeStep::SparseHeader, e)),
        ),
        (state, _) => SizeProgress::Done(Err(SizeError::Io(state.spec_step(), IoFailure::Other))),
    }
}

/// Starts a size computation: it begins by detecting the type of the image.
pub fn size_start() -> (state: SizeState)
    ensures
        state == SizeState::Detect(DetectState::Magic),
{
    SizeState::Detect(detect_start())
}

/// Takes a size computation one step further, given the outcome of the
/// operation `state.request()` that it was waiting for.
pub fn size_step(state: SizeState, reply: &SizeReply) -> (next: SizeProgress)
    ensures
        next == size_after(state, reply@),
{
    match state {
        SizeState::Detect(detect) => match reply {
            SizeReply::Read(read) => match detect_step(detect, read) {
                Detection::Read(next) => SizeProgress::Ask(SizeState::Detect(next)),
                Detection::Done(ImageType::Raw) => SizeProgress::Ask(SizeState::RawLength),
                Detection::Done(ImageType::AndroidSparse) => SizeProgress::Ask(
                    SizeState::SparseHeader,
                ),
                Detection::Done(t) => SizeProgress::Done(
                    Err(SizeError::UnsupportedImageType(t)),
                ),
                Detection::Failed(e) => SizeProgress::Done(
                    Err(SizeError::Io(ProbeStep::DetectImageType, e)),
                ),
            },
            _ => SizeProgress::Done(
                Err(SizeError::Io(ProbeStep::DetectImageType, IoFailure::Other)),
            ),
        },
        SizeState::RawLength => match reply {
            SizeReply::Length(Ok(length)) => SizeProgress::Done(Ok(*length)),
            SizeReply::Length(Err(e)) => SizeProgress::Done(
                Err(SizeError::Io(ProbeStep::Metadata, *e)),
            ),
            _ => SizeProgress::Done(Err(SizeError::Io(ProbeStep::Metadata, IoFailure::Other))),
        },
        SizeState::SparseHeader => match reply {
            SizeReply::Read(Ok(bytes)) => match AndroidSparseHeader::parse(bytes.as_slice()) {
                Some(header) => SizeProgress::Done(header.logical_size()),
                None => SizeProgress::Done(
                    Err(SizeError::Io(ProbeStep::SparseHeader, IoFailure::UnexpectedEof)),
                ),
            },
            SizeReply::Read(Err(e)) => SizeProgress::Done(
                Err(SizeError::Io(ProbeStep::SparseHeader, *e)),
            ),
            _ => SizeProgress::Done(
                Err(SizeError::Io(ProbeStep::SparseHeader, IoFailure::Other)),
            ),
        },
    }
}

/// The size of a partition image whose file holds the given contents: the
/// length of the file for a raw image, what the header says for an Android
/// sparse image, and a failure for any other type. The length of a file fits
/// in 64 bits.
pub open spec fn partition_size_of(contents: Seq<u8>) -> Result<u64, SizeError> {
    match image_type_of(contents) {
        ImageType::Raw => Ok(contents.len() as u64),
        ImageType::AndroidSparse => size_from_header_bytes(contents),
        t => Err(SizeError::UnsupportedImageType(t)),
    }
}

/// The reply to `request` of a file that holds `contents` and is read
/// without fault.
pub open spec fn faultless_reply(contents: Seq<u8>, request: SizeRequest) -> SizeReplyView {
    match request {
        SizeRequest::ReadExact(len) => SizeReplyView::Read(read_at_start(contents, len as nat)),
        SizeRequest::Length => SizeReplyView::Length(Ok(contents.len() as u64)),
    }
}

/// An upper bound on the number of replies that a computation in `state`
/// still takes.
pub open spec fn replies_left(state: SizeState) -> nat {
    match state {
        SizeState::Detect(DetectState::Magic) => 3,
        SizeState::Detect(DetectState::CompositeMagic) => 2,
        SizeState::RawLength => 1,
        SizeState::SparseHeader => 1,
    }
}

/// The result of a size computation that goes on from `state` on a file that
/// holds `contents` and is read without fault.
pub open spec fn size_run(state: SizeState, contents: Seq<u8>) -> Result<u64, SizeError>
    decreases replies_left(state),
{
    match size_after(state, faultless_reply(contents, state.request())) {
        SizeProgress::Done(result) => result,
        SizeProgress::Ask(next) => if replies_left(next) < replies_left(state) {
            size_run(next, contents)
        } else {
            Err(SizeError::Io(state.spec_step(), IoFailure::Other))
        },
    }
}

/// Every step of a size computation brings it nearer to its end, whatever
/// the reply.
pub proof fn lemma_size_step_progresses(state: SizeState, reply: SizeReplyView)
    ensures
        size_after(state, reply) matches SizeProgress::Ask(next) ==> replies_left(next)
            < replies_left(state),
{
}

/// A size computation on a file that is read without fault ends with the
/// size of the file's contents.
pub proof fn lemma_size_run_follows_contents(contents: Seq<u8>)
    ensures
        size_run(SizeState::Detect(DetectState::Magic), contents) == partition_size_of(contents),
{
    lemma_detection_follows_contents(contents);
    reveal_with_fuel(size_run, 4);
    let header = read_at_start(contents, SPARSE_HEADER_LEN as nat);
    if let Ok(bytes) = header {
        assert(parse_header(bytes) == parse_header(contents));
    }
}

/// The reply of an image held in memory to a request.
pub fn reply_in_memory(image: &[u8], request: SizeRequest) -> (reply: SizeReply)
    ensures
        reply@ == faultless_reply(image@, request),
{
    match request {
        SizeRequest::ReadExact(len) => SizeReply::Read(read_exact_at_start(image, len)),
        SizeRequest::Length => SizeReply::Length(Ok(image.len() as u64)),
    }
}

/// Finds the size of the partition image held in memory, with the operations
/// that a size computation on a file makes. Raw and Android sparse images
/// have a size; QCOW2 and composite disk images are not supported.
pub fn get_partition_size(image: &[u8]) -> (size: Result<u64, SizeError>)
    ensures
        size == partition_size_of(image@),
{
    let mut state = size_start();
    proof {
        lemma_size_run_follows_contents(image@);
    }
    loop
        invariant
            size_run(state, image@) == partition_size_of(image@),
        decreases replies_left(state),
    {
        let reply = reply_in_memory(image, state.request());
        proof {
            lemma_size_step_progresses(state, reply@);
        }
        match size_step(state, &reply) {
            SizeProgress::Done(result) => {
                return result;
            },
            SizeProgress::Ask(next) => {
                state = next;
            },
        }
    }
}

} // verus!
