//! Assembly of a composite disk image from its partitions.
//!
//! The partitions are resolved first. Then the composite image, its header
//! and its footer are created, the zero filler is opened, the encoder writes
//! the three output files, and the composite image is opened again
//! read-only. The first operation that fails ends the assembly; files created
//! before it are left where they are.

use vstd::prelude::*;
use crate::error::{ComposeError, ImageFile, IoContext};
use crate::fd_path::{fd_path, fd_path_for_file};
use crate::io::IoFailure;
use crate::partition::{info_views, spec_views, PartitionInfo, PartitionInfoView, PartitionSpec};
use crate::partition::PartitionSpecView;
use crate::resolver::{
    consistent, convert_partitions, entering, lemma_entering_consistent, lemma_step_consistent,
    resolve_after, settled, unanswered, Resolution, ResolutionView, ResolveReply,
    ResolveReplyView, ResolveRequest, Resolver, ResolverView,
};

verus! {

/// What the encoder of composite images is to be called with.
#[derive(Debug)]
pub struct EncodeJob {
    /// The partitions, in the order of their descriptors.
    pub partitions: Vec<PartitionInfo>,
    /// Path that names the zero filler by its descriptor number.
    pub zero_filler_path: String,
    /// Path that names the header file by its descriptor number.
    pub header_path: String,
    /// Handle on the header file, open for reading and writing.
    pub header: i32,
    /// Path that names the footer file by its descriptor number.
    pub footer_path: String,
    /// Handle on the footer file, open for reading and writing.
    pub footer: i32,
    /// Handle on the composite image, open for reading and writing.
    pub image: i32,
}

/// An encoder call with its strings taken as sequences of characters.
pub struct EncodeJobView {
    pub partitions: Seq<PartitionInfoView>,
    pub zero_filler_path: Seq<char>,
    pub header_path: Seq<char>,
    pub header: i32,
    pub footer_path: Seq<char>,
    pub footer: i32,
    pub image: i32,
}

impl View for EncodeJob {
    type V = EncodeJobView;

    open spec fn view(&self) -> EncodeJobView {
        EncodeJobView {
            partitions: info_views(self.partitions@),
            zero_filler_path: self.zero_filler_path@,
            header_path: self.header_path@,
            header: self.header,
            footer_path: self.footer_path@,
            footer: self.footer,
            image: self.image,
        }
    }
}

/// An operation that an assembly asks for.
#[derive(Debug)]
pub enum AssembleRequest {
    /// An operation of the resolution of the partitions.
    Resolve(ResolveRequest),
    /// Create this file, which must not exist yet, and open it for reading
    /// and writing.
    CreateNew(ImageFile),
    /// Open this file read-only.
    OpenReadOnly(ImageFile),
    /// Have the encoder write the header, the footer and the composite image.
    Encode(EncodeJob),
}

/// A request with its strings taken as sequences of characters.
pub enum AssembleRequestView {
    Resolve(ResolveRequest),
    CreateNew(ImageFile),
    OpenReadOnly(ImageFile),
    Encode(EncodeJobView),
}

impl View for AssembleRequest {
    type V = AssembleRequestView;

    open spec fn view(&self) -> AssembleRequestView {
        match *self {
            AssembleRequest::Resolve(request) => AssembleRequestView::Resolve(request),
            AssembleRequest::CreateNew(file) => AssembleRequestView::CreateNew(file),
            AssembleRequest::OpenReadOnly(file) => AssembleRequestView::OpenReadOnly(file),
            AssembleRequest::Encode(job) => AssembleRequestView::Encode(job@),
        }
    }
}

/// The outcome of an operation that an assembly asked for.
pub enum AssembleReply {
    /// Outcome of an operation of the resolution of the partitions.
    Resolved(ResolveReply),
    /// The descriptor number of the file created or opened, or why there
    /// is none.
    Opened(Result<i32, IoFailure>),
    /// Whether the encoder wrote the three output files.
    Encoded(Result<(), IoFailure>),
}

/// A reply with the bytes of a read taken as a sequence.
pub enum AssembleReplyView {
    Resolved(ResolveReplyView),
    Opened(Result<i32, IoFailure>),
    Encoded(Result<(), IoFailure>),
}

impl View for AssembleReply {
    type V = AssembleReplyView;

    open spec fn view(&self) -> AssembleReplyView {
        match *self {
            AssembleReply::Resolved(reply) => AssembleReplyView::Resolved(reply@),
            AssembleReply::Opened(outcome) => AssembleReplyView::Opened(outcome),
            AssembleReply::Encoded(outcome) => AssembleReplyView::Encoded(outcome),
        }
    }
}

/// An assembly that is waiting for a reply.
pub enum Assembler {
    /// The partitions are being resolved.
    Resolving(Resolver),
    /// The composite image is being created.
    CreatingImage { partitions: Vec<PartitionInfo>, handles: Vec<i32> },
    /// The header file is being created.
    CreatingHeader { partitions: Vec<PartitionInfo>, handles: Vec<i32>, image: i32 },
    /// The footer file is being created.
    CreatingFooter { partitions: Vec<PartitionInfo>, handles: Vec<i32>, image: i32, header: i32 },
    /// The zero filler is being opened.
    OpeningZeroFiller {
        partitions: Vec<PartitionInfo>,
        handles: Vec<i32>,
        image: i32,
        header: i32,
        footer: i32,
    },
    /// The encoder is writing the output files.
    Encoding { handles: Vec<i32>, header: i32, footer: i32, zero_filler: i32 },
    /// The composite image is being opened again, read-only.
    Reopening { handles: Vec<i32>, header: i32, footer: i32, zero_filler: i32 },
}

/// The state of an assembly that is waiting for a reply.
pub enum AssemblerView {
    Resolving(ResolverView),
    CreatingImage { partitions: Seq<PartitionInfoView>, handles: Seq<i32> },
    CreatingHeader { partitions: Seq<PartitionInfoView>, handles: Seq<i32>, image: i32 },
    CreatingFooter { partitions: Seq<PartitionInfoView>, handles: Seq<i32>, image: i32, header: i32 },
    OpeningZeroFiller {
        partitions: Seq<PartitionInfoView>,
        handles: Seq<i32>,
        image: i32,
        header: i32,
        footer: i32,
    },
    Encoding { handles: Seq<i32>, header: i32, footer: i32, zero_filler: i32 },
    Reopening { handles: Seq<i32>, header: i32, footer: i32, zero_filler: i32 },
}

impl View for Assembler {
    type V = AssemblerView;

    open spec fn view(&self) -> AssemblerView {
        match *self {
            Assembler::Resolving(resolver) => AssemblerView::Resolving(resolver@),
            Assembler::CreatingImage { partitions, handles } => AssemblerView::CreatingImage {
                partitions: info_views(partitions@),
                handles: handles@,
            },
            Assembler::CreatingHeader { partitions, handles, image } => AssemblerView::CreatingHeader {
                partitions: info_views(partitions@),
                handles: handles@,
                image,
            },
            Assembler::CreatingFooter {
                partitions,
                handles,
                image,
                header,
            } => AssemblerView::CreatingFooter {
                partitions: info_views(partitions@),
                handles: handles@,
                image,
                header,
            },
            Assembler::OpeningZeroFiller {
                partitions,
                handles,
                image,
                header,
                footer,
            } => AssemblerView::OpeningZeroFiller {
                partitions: info_views(partitions@),
                handles: handles@,
                image,
                header,
                footer,
            },
            Assembler::Encoding { handles, header, footer, zero_filler } => AssemblerView::Encoding {
                handles: handles@,
                header,
                footer,
                zero_filler,
            },
            Assembler::Reopening {
                handles,
                header,
                footer,
                zero_filler,
            } => AssemblerView::Reopening { handles: handles@, header, footer, zero_filler },
        }
    }
}

/// Where an assembly stands.
pub enum Assembly {
    /// The operation given is needed; its outcome goes to the state given.
    Ask(Assembler, AssembleRequest),
    /// The assembly has ended: with a read-only handle on the composite
    /// image and the handles that whoever uses the image must hold open at
    /// the same descriptor numbers, or with the first failure.
    Done(Result<(i32, Vec<i32>), ComposeError>),
}

/// Where an assembly stands, over views.
pub enum AssemblyView {
    Ask(AssemblerView, AssembleRequestView),
    Done(Result<(i32, Seq<i32>), ComposeError>),
}

impl View for Assembly {
    type V = AssemblyView;

    open spec fn view(&self) -> AssemblyView {
        match *self {
            Assembly::Ask(state, request) => AssemblyView::Ask(state@, request@),
            Assembly::Done(Ok((image, handles))) => AssemblyView::Done(Ok((image, handles@))),
            Assembly::Done(Err(e)) => AssemblyView::Done(Err(e)),
        }
    }
}

/// The handle that an attempt to create or open `file` gave, or the failure
/// of the assembly for want of it. A reply of the wrong kind counts as a
/// failed attempt.
pub open spec fn opened(context: IoContext, reply: AssembleReplyView) -> Result<i32, ComposeError> {
    match reply {
        AssembleReplyView::Opened(Ok(handle)) => Ok(handle),
        AssembleReplyView::Opened(Err(cause)) => Err(ComposeError::IoError { context, cause }),
        _ => Err(ComposeError::IoError { context, cause: IoFailure::Other }),
    }
}

/// The encoder call for the given partitions and files. The zero filler, the
/// header and the footer are named by their descriptor numbers.
pub open spec fn encode_job(
    partitions: Seq<PartitionInfoView>,
    image: i32,
    header: i32,
    footer: i32,
    zero_filler: i32,
) -> EncodeJobView {
    EncodeJobView {
        partitions,
        zero_filler_path: fd_path(zero_filler as int),
        header_path: fd_path(header as int),
        header,
        footer_path: fd_path(footer as int),
        footer,
        image,
    }
}

/// The handles that go with a composite image: those of the partitions in
/// the order of their descriptors, then header, footer and zero filler.
pub open spec fn all_handles(handles: Seq<i32>, header: i32, footer: i32, zero_filler: i32) -> Seq<
    i32,
> {
    handles.push(header).push(footer).push(zero_filler)
}

/// Where an assembly stands when the resolution of its partitions stands at
/// `resolution`: no file is created before every partition is resolved.
pub open spec fn resolving(resolution: ResolutionView) -> AssemblyView {
    match resolution {
        ResolutionView::Ask(state) => AssemblyView::Ask(
            AssemblerView::Resolving(state),
            AssembleRequestView::Resolve(state.request()),
        ),
        ResolutionView::Done(Err(e)) => AssemblyView::Done(Err(e)),
        ResolutionView::Done(Ok((partitions, handles))) => AssemblyView::Ask(
            AssemblerView::CreatingImage { partitions, handles },
            AssembleRequestView::CreateNew(ImageFile::Composite),
        ),
    }
}

/// Where an assembly in `state` stands once the operation it waited for has
/// given `reply`.
pub open spec fn assemble_after(state: AssemblerView, reply: AssembleReplyView) -> AssemblyView {
    match state {
        AssemblerView::Resolving(resolver) => match reply {
            AssembleReplyView::Resolved(reply) => resolving(resolve_after(resolver, reply)),
            _ => AssemblyView::Done(Err(unanswered(resolver))),
        },
        AssemblerView::CreatingImage { partitions, handles } => match opened(
            IoContext::Create(ImageFile::Composite),
            reply,
        ) {
            Ok(image) => AssemblyView::Ask(
                AssemblerView::CreatingHeader { partitions, handles, image },
                AssembleRequestView::CreateNew(ImageFile::Header),
            ),
            Err(e) => AssemblyView::Done(Err(e)),
        },
        AssemblerView::CreatingHeader { partitions, handles, image } => match opened(
            IoContext::Create(ImageFile::Header),
            reply,
        ) {
            Ok(header) => AssemblyView::Ask(
                AssemblerView::CreatingFooter { partitions, handles, image, header },
                AssembleRequestView::CreateNew(ImageFile::Footer),
            ),
            Err(e) => AssemblyView::Done(Err(e)),
        },
        AssemblerView::CreatingFooter { partitions, handles, image, header } => match opened(
            IoContext::Create(ImageFile::Footer),
            reply,
        ) {
            Ok(footer) => AssemblyView::Ask(
                AssemblerView::OpeningZeroFiller { partitions, handles, image, header, footer },
                AssembleRequestView::OpenReadOnly(ImageFile::ZeroFiller),
            ),
            Err(e) => AssemblyView::Done(Err(e)),
        },
        AssemblerView::OpeningZeroFiller {
            partitions,
            handles,
            image,
            header,
            footer,
        } => match opened(IoContext::Open(ImageFile::ZeroFiller), reply) {
            Ok(zero_filler) => AssemblyView::Ask(
                AssemblerView::Encoding { handles, header, footer, zero_filler },
                AssembleRequestView::Encode(
                    encode_job(partitions, image, header, footer, zero_filler),
                ),
            ),
            Err(e) => AssemblyView::Done(Err(e)),
        },
        AssemblerView::Encoding { handles, header, footer, zero_filler } => match reply {
            AssembleReplyView::Encoded(Ok(())) => AssemblyView::Ask(
                AssemblerView::Reopening { handles, header, footer, zero_filler },
                AssembleRequestView::OpenReadOnly(ImageFile::Composite),
            ),
            AssembleReplyView::Encoded(Err(cause)) => AssemblyView::Done(
                Err(ComposeError::IoError { context: IoContext::Encode, cause }),
            ),
            _ => AssemblyView::Done(
                Err(ComposeError::IoError { context: IoContext::Encode, cause: IoFailure::Other }),
            ),
        },
        AssemblerView::Reopening { handles, header, footer, zero_filler } => match opened(
            IoContext::Open(ImageFile::Composite),
            reply,
        ) {
            Ok(image) => AssemblyView::Done(
                Ok((image, all_handles(handles, header, footer, zero_filler))),
            ),
            Err(e) => AssemblyView::Done(Err(e)),
        },
    }
}

fn handle_opened(context: IoContext, reply: &AssembleReply) -> (handle: Result<i32, ComposeError>)
    ensures
        handle == opened(context, reply@),
{
    match reply {
        AssembleReply::Opened(Ok(handle)) => Ok(*handle),
        AssembleReply::Opened(Err(cause)) => Err(ComposeError::IoError { context, cause: *cause }),
        _ => Err(ComposeError::IoError { context, cause: IoFailure::Other }),
    }
}

fn after_resolution(resolution: Resolution) -> (next: Assembly)
    ensures
        next@ == resolving(resolution@),
{
    match resolution {
        Resolution::Ask(state) => {
            let request = state.request();
            Assembly::Ask(Assembler::Resolving(state), AssembleRequest::Resolve(request))
        },
        Resolution::Done(Err(e)) => Assembly::Done(Err(e)),
        Resolution::Done(Ok((partitions, handles))) => Assembly::Ask(
            Assembler::CreatingImage { partitions, handles },
            AssembleRequest::CreateNew(ImageFile::Composite),
        ),
    }
}

/// Starts the assembly of a composite image from the given partition
/// descriptors: it begins by resolving the partitions.
pub fn make_composite_image(specs: Vec<PartitionSpec>) -> (next: Assembly)
    ensures
        next@ == resolving(entering(spec_views(specs@), Seq::empty(), Seq::empty())),
{
    after_resolution(convert_partitions(specs))
}

impl Assembler {
    /// Takes the assembly one step further, given the outcome of the
    /// operation that it was waiting for.
    pub fn step(self, reply: &AssembleReply) -> (next: Assembly)
        ensures
            next@ == assemble_after(self@, reply@),
    {
        match self {
            Assembler::Resolving(resolver) => match reply {
                AssembleReply::Resolved(reply) => after_resolution(resolver.step(reply)),
                _ => Assembly::Done(Err(resolver.unanswered())),
            },
            Assembler::CreatingImage { partitions, handles } => match handle_opened(
                IoContext::Create(ImageFile::Composite),
                reply,
            ) {
                Ok(image) => Assembly::Ask(
                    Assembler::CreatingHeader { partitions, handles, image },
                    AssembleRequest::CreateNew(ImageFile::Header),
                ),
                Err(e) => Assembly::Done(Err(e)),
            },
            Assembler::CreatingHeader { partitions, handles, image } => match handle_opened(
                IoContext::Create(ImageFile::Header),
                reply,
            ) {
                Ok(header) => Assembly::Ask(
                    Assembler::CreatingFooter { partitions, handles, image, header },
                    AssembleRequest::CreateNew(ImageFile::Footer),
                ),
                Err(e) => Assembly::Done(Err(e)),
            },
            Assembler::CreatingFooter { partitions, handles, image, header } => match handle_opened(
                IoContext::Create(ImageFile::Footer),
                reply,
            ) {
                Ok(footer) => Assembly::Ask(
                    Assembler::OpeningZeroFiller { partitions, handles, image, header, footer },
                    AssembleRequest::OpenReadOnly(ImageFile::ZeroFiller),
                ),
                Err(e) => Assembly::Done(Err(e)),
            },
            Assembler::OpeningZeroFiller {
                partitions,
                handles,
                image,
                header,
                footer,
            } => match handle_opened(IoContext::Open(ImageFile::ZeroFiller), reply) {
                Ok(zero_filler) => {
                    let job = EncodeJob {
                        partitions,
                        zero_filler_path: fd_path_for_file(zero_filler),
                        header_path: fd_path_for_file(header),
                        header,
                        footer_path: fd_path_for_file(footer),
                        footer,
                        image,
                    };
                    Assembly::Ask(
                        Assembler::Encoding { handles, header, footer, zero_filler },
                        AssembleRequest::Encode(job),
                    )
                },
                Err(e) => Assembly::Done(Err(e)),
            },
            Assembler::Encoding { handles, header, footer, zero_filler } => match reply {
                AssembleReply::Encoded(Ok(())) => Assembly::Ask(
                    Assembler::Reopening { handles, header, footer, zero_filler },
                    AssembleRequest::OpenReadOnly(ImageFile::Composite),
                ),
                AssembleReply::Encoded(Err(cause)) => Assembly::Done(
                    Err(ComposeError::IoError { context: IoContext::Encode, cause: *cause }),
                ),
                _ => Assembly::Done(
                    Err(
                        ComposeError::IoError {
                            context: IoContext::Encode,
                            cause: IoFailure::Other,
                        },
                    ),
                ),
            },
            Assembler::Reopening { handles, header, footer, zero_filler } => match handle_opened(
                IoContext::Open(ImageFile::Composite),
                reply,
            ) {
                Ok(image) => {
                    let mut handles = handles;
                    handles.push(header);
                    handles.push(footer);
                    handles.push(zero_filler);
                    Assembly::Done(Ok((image, handles)))
                },
                Err(e) => Assembly::Done(Err(e)),
            },
        }
    }
}

/// Where an assembly that stands at `start` has got to after the replies
/// given, in their order. Replies that come after its end are ignored.
pub open spec fn assemble_run(start: AssemblyView, replies: Seq<AssembleReplyView>) -> AssemblyView
    decreases replies.len(),
{
    match start {
        AssemblyView::Done(_) => start,
        AssemblyView::Ask(state, _) => if replies.len() == 0 {
            start
        } else {
            assemble_run(assemble_after(state, replies[0]), replies.drop_first())
        },
    }
}

/// The kind of operation that an assembly in `state` is waiting for: `true`
/// if `request` is of that kind. Only a state that opens the composite image
/// again waits for it to be opened, and then read-only.
pub open spec fn awaits(state: AssemblerView, request: AssembleRequestView) -> bool {
    match state {
        AssemblerView::Resolving(resolver) => request == AssembleRequestView::Resolve(
            resolver.request(),
        ),
        AssemblerView::CreatingImage { .. } => request == AssembleRequestView::CreateNew(
            ImageFile::Composite,
        ),
        AssemblerView::CreatingHeader { .. } => request == AssembleRequestView::CreateNew(
            ImageFile::Header,
        ),
        AssemblerView::CreatingFooter { .. } => request == AssembleRequestView::CreateNew(
            ImageFile::Footer,
        ),
        AssemblerView::OpeningZeroFiller { .. } => request == AssembleRequestView::OpenReadOnly(
            ImageFile::ZeroFiller,
        ),
        AssemblerView::Encoding { .. } => request is Encode,
        AssemblerView::Reopening { .. } => request == AssembleRequestView::OpenReadOnly(
            ImageFile::Composite,
        ),
    }
}

/// What holds of an assembly for `specs` wherever it stands. While the
/// partitions are resolved, the resolution is consistent. Once files are
/// opened, every partition is settled, and the encoder is called with the
/// records of all of them. At the end there are three handles more than
/// partitions.
pub open spec fn assembly_consistent(at: AssemblyView, specs: Seq<PartitionSpecView>) -> bool {
    match at {
        AssemblyView::Ask(state, request) => {
            &&& awaits(state, request)
            &&& match state {
                AssemblerView::Resolving(resolver) => consistent(
                    ResolutionView::Ask(resolver),
                    specs,
                ),
                AssemblerView::CreatingImage { partitions, handles } => partitions.len()
                    == specs.len() && settled(specs, partitions, handles),
                AssemblerView::CreatingHeader { partitions, handles, .. } => partitions.len()
                    == specs.len() && settled(specs, partitions, handles),
                AssemblerView::CreatingFooter { partitions, handles, .. } => partitions.len()
                    == specs.len() && settled(specs, partitions, handles),
                AssemblerView::OpeningZeroFiller { partitions, handles, .. } => partitions.len()
                    == specs.len() && settled(specs, partitions, handles),
                AssemblerView::Encoding { handles, header, footer, zero_filler } => {
                    &&& handles.len() == specs.len()
                    &&& request matches AssembleRequestView::Encode(job) && {
                        &&& job.partitions.len() == specs.len()
                        &&& settled(specs, job.partitions, handles)
                        &&& job == encode_job(
                            job.partitions,
                            job.image,
                            header,
                            footer,
                            zero_filler,
                        )
                    }
                },
                AssemblerView::Reopening { handles, .. } => handles.len() == specs.len(),
            }
        },
        AssemblyView::Done(Ok((image, handles))) => handles.len() == specs.len() + 3,
        AssemblyView::Done(Err(_)) => true,
    }
}

/// A step keeps an assembly consistent, whatever the reply.
pub proof fn lemma_assemble_step_consistent(
    specs: Seq<PartitionSpecView>,
    state: AssemblerView,
    request: AssembleRequestView,
    reply: AssembleReplyView,
)
    requires
        assembly_consistent(AssemblyView::Ask(state, request), specs),
    ensures
        assembly_consistent(assemble_after(state, reply), specs),
{
    if let AssemblerView::Resolving(resolver) = state {
        if let AssembleReplyView::Resolved(r) = reply {
            lemma_step_consistent(specs, resolver, r);
        }
    }
}

/// An assembly stays consistent through any replies.
pub proof fn lemma_assemble_run_consistent(
    specs: Seq<PartitionSpecView>,
    start: AssemblyView,
    replies: Seq<AssembleReplyView>,
)
    requires
        assembly_consistent(start, specs),
    ensures
        assembly_consistent(assemble_run(start, replies), specs),
    decreases replies.len(),
{
    if let AssemblyView::Ask(state, request) = start {
        if replies.len() > 0 {
            lemma_assemble_step_consistent(specs, state, request, replies[0]);
            lemma_assemble_run_consistent(
                specs,
                assemble_after(state, replies[0]),
                replies.drop_first(),
            );
        }
    }
}

/// Whatever the replies, an assembly that ends well hands out as many
/// handles as there are partitions and three more.
pub proof fn lemma_handle_count(specs: Seq<PartitionSpecView>, replies: Seq<AssembleReplyView>)
    requires
        specs.len() <= usize::MAX,
    ensures
        assemble_run(resolving(entering(specs, Seq::empty(), Seq::empty())), replies) matches AssemblyView::Done(
            Ok((image, handles)),
        ) ==> handles.len() == specs.len() + 3,
{
    lemma_entering_consistent(specs, Seq::empty(), Seq::empty());
    lemma_assemble_run_consistent(
        specs,
        resolving(entering(specs, Seq::empty(), Seq::empty())),
        replies,
    );
}

/// The handles that an assembly hands out at its end are those of the
/// partitions, in their order, then the header, the footer and the zero
/// filler; and the handle on the composite image is the one that opening
/// the image again, read-only, gave. The handle on which the image was
/// created and written is never handed out.
pub proof fn lemma_final_handles(state: AssemblerView, reply: AssembleReplyView)
    ensures
        assemble_after(state, reply) matches AssemblyView::Done(Ok((image, all))) ==> {
            &&& state matches AssemblerView::Reopening { handles, header, footer, zero_filler }
            &&& reply == AssembleReplyView::Opened(Ok(image))
            &&& all.len() == handles.len() + 3
            &&& all.subrange(0, handles.len() as int) == handles
            &&& all[handles.len() as int] == header
            &&& all[handles.len() as int + 1] == footer
            &&& all[handles.len() as int + 2] == zero_filler
        },
{
    if let AssemblerView::Reopening { handles, header, footer, zero_filler } = state {
        let all = all_handles(handles, header, footer, zero_filler);
        assert(all.subrange(0, handles.len() as int) =~= handles);
    }
}

/// The operation that an assembly asks for after a step is the one that its
/// next state waits for. So no file is created or opened while partitions
/// are still being resolved, and none after a failure.
pub proof fn lemma_request_follows_state(state: AssemblerView, reply: AssembleReplyView)
    ensures
        assemble_after(state, reply) matches AssemblyView::Ask(next, request) ==> awaits(
            next,
            request,
        ),
{
}

} // verus!
