//! Resolution of partition descriptors into partition records.
//!
//! Partitions are resolved in the order given. For each one the caller's
//! image handle is duplicated, the size of the image is computed through the
//! duplicate, and the GUID string is parsed. The first partition that cannot
//! be resolved ends the resolution, and nothing of the others is handed out.

use vstd::prelude::*;
use crate::error::{ComposeError, IoContext};
use crate::fd_path::fd_path_for_file;
use crate::guid::{guid_of, parse_guid};
use crate::image_type::DetectState;
use crate::io::IoFailure;
use crate::partition::{
    info_views, resolved_info, spec_views, ImagePartitionType, PartitionInfo, PartitionInfoView,
    PartitionSpec, PartitionSpecView,
};
use crate::size::{
    size_after, size_start, size_step, SizeProgress, SizeReply, SizeReplyView, SizeRequest,
    SizeState,
};

verus! {

/// What the resolution of the partition in progress is waiting for.
#[derive(Clone, Copy, Debug, PartialEq, Eq, Structural)]
pub enum ResolvePhase {
    /// The duplicate of the caller's image handle.
    Duplicating,
    /// A reply to the size computation on the duplicate `handle`.
    Probing { handle: i32, size: SizeState },
}

/// An operation that a resolution asks for.
#[derive(Clone, Copy, Debug, PartialEq, Eq, Structural)]
pub enum ResolveRequest {
    /// Duplicate the caller's image handle `handle` of the partition at
    /// position `index`, so that the duplicate lives on its own.
    Duplicate { index: usize, handle: i32 },
    /// Perform `request` on the duplicate `handle` of the partition at
    /// position `index`.
    Probe { index: usize, handle: i32, request: SizeRequest },
}

/// The outcome of an operation that a resolution asked for.
pub enum ResolveReply {
    /// The descriptor number of the duplicate, or why there is none.
    Duplicated(Result<i32, IoFailure>),
    /// The outcome of an operation of the size computation.
    Probed(SizeReply),
}

/// A reply with the bytes of a read taken as a sequence.
pub enum ResolveReplyView {
    Duplicated(Result<i32, IoFailure>),
    Probed(SizeReplyView),
}

impl View for ResolveReply {
    type V = ResolveReplyView;

    open spec fn view(&self) -> ResolveReplyView {
        match *self {
            ResolveReply::Duplicated(outcome) => ResolveReplyView::Duplicated(outcome),
            ResolveReply::Probed(reply) => ResolveReplyView::Probed(reply@),
        }
    }
}

/// A resolution that is waiting for a reply.
pub struct Resolver {
    specs: Vec<PartitionSpec>,
    phase: ResolvePhase,
    partitions: Vec<PartitionInfo>,
    handles: Vec<i32>,
}

/// The state of a resolution that is waiting for a reply: the descriptors,
/// what is awaited for the partition in progress, and the records and
/// duplicated handles of the partitions before it.
pub struct ResolverView {
    pub specs: Seq<PartitionSpecView>,
    pub phase: ResolvePhase,
    pub partitions: Seq<PartitionInfoView>,
    pub handles: Seq<i32>,
}

/// Where a resolution stands.
pub enum Resolution {
    /// The operation `request()` of this state is needed.
    Ask(Resolver),
    /// The resolution has ended: with the records of all partitions and
    /// their duplicated handles, both in the order of the descriptors, or
    /// with the failure of the first partition that could not be resolved.
    Done(Result<(Vec<PartitionInfo>, Vec<i32>), ComposeError>),
}

/// Where a resolution stands, over views.
pub enum ResolutionView {
    Ask(ResolverView),
    Done(Result<(Seq<PartitionInfoView>, Seq<i32>), ComposeError>),
}

impl ResolverView {
    /// Position of the partition in progress.
    pub open spec fn index(self) -> usize {
        self.partitions.len() as usize
    }

    /// A partition is in progress, it has an image handle, and each
    /// partition before it has a record and a duplicated handle.
    pub open spec fn wf(self) -> bool {
        &&& self.specs.len() <= usize::MAX
        &&& self.partitions.len() == self.handles.len()
        &&& self.partitions.len() < self.specs.len()
        &&& self.specs[self.partitions.len() as int].image_handle is Some
    }

    /// The operation that the resolution is waiting for.
    pub open spec fn request(self) -> ResolveRequest {
        match self.phase {
            ResolvePhase::Duplicating => ResolveRequest::Duplicate {
                index: self.index(),
                handle: self.specs[self.partitions.len() as int].image_handle->0,
            },
            ResolvePhase::Probing { handle, size } => ResolveRequest::Probe {
                index: self.index(),
                handle,
                request: size.request(),
            },
        }
    }
}

/// Where a resolution stands when it turns to the next partition, with the
/// records and handles of the partitions before it. With no partition left
/// it has ended well; a partition without an image handle ends it with
/// `InvalidPartition`; otherwise the handle is to be duplicated.
pub open spec fn entering(
    specs: Seq<PartitionSpecView>,
    partitions: Seq<PartitionInfoView>,
    handles: Seq<i32>,
) -> ResolutionView {
    let index = partitions.len();
    if index >= specs.len() {
        ResolutionView::Done(Ok((partitions, handles)))
    } else if specs[index as int].image_handle is None {
        ResolutionView::Done(Err(ComposeError::InvalidPartition { index: index as usize }))
    } else {
        ResolutionView::Ask(
            ResolverView { specs, phase: ResolvePhase::Duplicating, partitions, handles },
        )
    }
}

/// Where a resolution stands once the size of the partition in progress is
/// known to be `size`, computed through the duplicate `handle`: a GUID
/// string that is no UUID ends it with `BadGuid`; otherwise the partition
/// gets its record and the resolution turns to the next one.
pub open spec fn sized(state: ResolverView, handle: i32, size: u64) -> ResolutionView {
    let spec = state.specs[state.partitions.len() as int];
    match guid_of(state.index(), spec.guid) {
        Err(e) => ResolutionView::Done(Err(e)),
        Ok(guid) => entering(
            state.specs,
            state.partitions.push(resolved_info(spec, handle, size, guid)),
            state.handles.push(handle),
        ),
    }
}

/// The failure of the operation that a resolution in `state` is waiting
/// for, where no reply tells more of it.
pub open spec fn unanswered(state: ResolverView) -> ComposeError {
    match state.phase {
        ResolvePhase::Duplicating => ComposeError::HandleCloneFailed {
            index: state.index(),
            cause: IoFailure::Other,
        },
        ResolvePhase::Probing { handle, size } => ComposeError::IoError {
            context: IoContext::Partition { index: state.index(), step: size.spec_step() },
            cause: IoFailure::Other,
        },
    }
}

/// Where a resolution in `state` stands once the operation it waited for
/// has given `reply`. A reply of the wrong kind counts as a failure of the
/// operation awaited.
pub open spec fn resolve_after(state: ResolverView, reply: ResolveReplyView) -> ResolutionView {
    let index = state.index();
    match state.phase {
        ResolvePhase::Duplicating => match reply {
            ResolveReplyView::Duplicated(Ok(handle)) => ResolutionView::Ask(
                ResolverView {
                    phase: ResolvePhase::Probing {
                        handle,
                        size: SizeState::Detect(DetectState::Magic),
                    },
                    ..state
                },
            ),
            ResolveReplyView::Duplicated(Err(cause)) => ResolutionView::Done(
                Err(ComposeError::HandleCloneFailed { index, cause }),
            ),
            _ => ResolutionView::Done(Err(unanswered(state))),
        },
        ResolvePhase::Probing { handle, size } => match reply {
            ResolveReplyView::Probed(reply) => match size_after(size, reply) {
                SizeProgress::Ask(next) => ResolutionView::Ask(
                    ResolverView { phase: ResolvePhase::Probing { handle, size: next }, ..state },
                ),
                SizeProgress::Done(Err(e)) => ResolutionView::Done(Err(e.for_partition(index))),
                SizeProgress::Done(Ok(length)) => sized(state, handle, length),
            },
            _ => ResolutionView::Done(Err(unanswered(state))),
        },
    }
}

impl View for Resolver {
    type V = ResolverView;

    closed spec fn view(&self) -> ResolverView {
        ResolverView {
            specs: spec_views(self.specs@),
            phase: self.phase,
            partitions: info_views(self.partitions@),
            handles: self.handles@,
        }
    }
}

impl View for Resolution {
    type V = ResolutionView;

    open spec fn view(&self) -> ResolutionView {
        match *self {
            Resolution::Ask(state) => ResolutionView::Ask(state@),
            Resolution::Done(Ok((partitions, handles))) => ResolutionView::Done(
                Ok((info_views(partitions@), handles@)),
            ),
            Resolution::Done(Err(e)) => ResolutionView::Done(Err(e)),
        }
    }
}

fn enter(specs: Vec<PartitionSpec>, partitions: Vec<PartitionInfo>, handles: Vec<i32>) -> (next:
    Resolution)
    requires
        partitions.len() == handles.len(),
    ensures
        next@ == entering(spec_views(specs@), info_views(partitions@), handles@),
{
    let index = partitions.len();
    if index >= specs.len() {
        Resolution::Done(Ok((partitions, handles)))
    } else if specs[index].image_handle.is_none() {
        Resolution::Done(Err(ComposeError::InvalidPartition { index }))
    } else {
        Resolution::Ask(Resolver { specs, phase: ResolvePhase::Duplicating, partitions, handles })
    }
}

/// Starts the resolution of the given partition descriptors, in their order.
pub fn convert_partitions(specs: Vec<PartitionSpec>) -> (next: Resolution)
    ensures
        next@ == entering(spec_views(specs@), Seq::empty(), Seq::empty()),
{
    let partitions: Vec<PartitionInfo> = Vec::new();
    let handles: Vec<i32> = Vec::new();
    assert(info_views(partitions@) =~= Seq::empty());
    enter(specs, partitions, handles)
}

impl Resolver {
    #[verifier::type_invariant]
    spec fn inv(self) -> bool {
        self@.wf()
    }

    /// The operation that this resolution is waiting for.
    pub fn request(&self) -> (request: ResolveRequest)
        ensures
            request == self@.request(),
            self@.wf(),
    {
        proof {
            use_type_invariant(self);
        }
        let index = self.partitions.len();
        match self.phase {
            ResolvePhase::Duplicating => {
                let handle = match self.specs[index].image_handle {
                    Some(handle) => handle,
                    None => unreached(),
                };
                ResolveRequest::Duplicate { index, handle }
            },
            ResolvePhase::Probing { handle, size } => ResolveRequest::Probe {
                index,
                handle,
                request: size.request(),
            },
        }
    }

    /// The failure of the operation that this resolution is waiting for,
    /// where no reply tells more of it.
    pub fn unanswered(&self) -> (error: ComposeError)
        ensures
            error == unanswered(self@),
    {
        let index = self.partitions.len();
        match self.phase {
            ResolvePhase::Duplicating => ComposeError::HandleCloneFailed {
                index,
                cause: IoFailure::Other,
            },
            ResolvePhase::Probing { handle, size } => ComposeError::IoError {
                context: IoContext::Partition { index, step: size.step() },
                cause: IoFailure::Other,
            },
        }
    }

    /// Takes the resolution one step further, given the outcome of the
    /// operation `request()` that it was waiting for.
    pub fn step(self, reply: &ResolveReply) -> (next: Resolution)
        ensures
            next@ == resolve_after(self@, reply@),
            self@.wf(),
    {
        proof {
            use_type_invariant(&self);
        }
        let Resolver { specs, phase, mut partitions, mut handles } = self;
        let index = partitions.len();
        match phase {
            ResolvePhase::Duplicating => match reply {
                ResolveReply::Duplicated(Ok(handle)) => Resolution::Ask(
                    Resolver {
                        specs,
                        phase: ResolvePhase::Probing { handle: *handle, size: size_start() },
                        partitions,
                        handles,
                    },
                ),
                ResolveReply::Duplicated(Err(cause)) => Resolution::Done(
                    Err(ComposeError::HandleCloneFailed { index, cause: *cause }),
                ),
                _ => Resolution::Done(
                    Err(ComposeError::HandleCloneFailed { index, cause: IoFailure::Other }),
                ),
            },
            ResolvePhase::Probing { handle, size } => match reply {
                ResolveReply::Probed(reply) => match size_step(size, reply) {
                    SizeProgress::Ask(next) => Resolution::Ask(
                        Resolver {
                            specs,
                            phase: ResolvePhase::Probing { handle, size: next },
                            partitions,
                            handles,
                        },
                    ),
                    SizeProgress::Done(Err(e)) => Resolution::Done(Err(e.for_partition(index))),
                    SizeProgress::Done(Ok(length)) => {
                        let spec = &specs[index];
                        let text: Option<&str> = match &spec.guid {
                            Some(text) => Some(text.as_str()),
                            None => None,
                        };
                        match parse_guid(index, text) {
                            Err(e) => Resolution::Done(Err(e)),
                            Ok(guid) => {
                                let info = PartitionInfo {
                                    label: spec.label.clone(),
                                    path: fd_path_for_file(handle),
                                    partition_type: ImagePartitionType::LinuxFilesystem,
                                    writable: spec.writable,
                                    size: length,
                                    guid,
                                };
                                proof {
                                    assert(info@ == resolved_info(spec@, handle, length, guid));
                                    assert(info_views(partitions@.push(info)) =~= info_views(
                                        partitions@,
                                    ).push(info@));
                                }
                                partitions.push(info);
                                handles.push(handle);
                                enter(specs, partitions, handles)
                            },
                        }
                    },
                },
                _ => Resolution::Done(
                    Err(
                        ComposeError::IoError {
                            context: IoContext::Partition { index, step: size.step() },
                            cause: IoFailure::Other,
                        },
                    ),
                ),
            },
        }
    }
}

/// Where a resolution that stands at `start` has got to after the replies
/// given, in their order. Replies that come after its end are ignored.
pub open spec fn resolve_run(start: ResolutionView, replies: Seq<ResolveReplyView>) -> ResolutionView
    decreases replies.len(),
{
    match start {
        ResolutionView::Done(_) => start,
        ResolutionView::Ask(state) => if replies.len() == 0 {
            start
        } else {
            resolve_run(resolve_after(state, replies[0]), replies.drop_first())
        },
    }
}

/// Each of the records belongs to the descriptor at its position: that
/// descriptor has an image handle, the record has its label and its
/// `writable` flag, names the duplicated handle at the same position by its
/// descriptor number, is tagged as a Linux file system, and has the GUID
/// that the descriptor's GUID string spells.
pub open spec fn settled(
    specs: Seq<PartitionSpecView>,
    partitions: Seq<PartitionInfoView>,
    handles: Seq<i32>,
) -> bool {
    &&& partitions.len() == handles.len()
    &&& partitions.len() <= specs.len()
    &&& forall|j: int|
        0 <= j < partitions.len() ==> {
            &&& specs[j].image_handle is Some
            &&& #[trigger] partitions[j] == resolved_info(
                specs[j],
                handles[j],
                partitions[j].size,
                partitions[j].guid,
            )
            &&& guid_of(j as usize, specs[j].guid) == Ok::<Option<u128>, ComposeError>(
                partitions[j].guid,
            )
        }
}

/// What holds of a resolution of `specs` wherever it stands. While it waits,
/// the partitions before the one in progress are settled. Where it has ended
/// well, every partition is settled. Where it has ended with
/// `InvalidPartition`, the partition named has no image handle and is the
/// first such.
pub open spec fn consistent(at: ResolutionView, specs: Seq<PartitionSpecView>) -> bool {
    match at {
        ResolutionView::Ask(state) => {
            &&& state.specs == specs
            &&& state.wf()
            &&& settled(specs, state.partitions, state.handles)
        },
        ResolutionView::Done(Ok((partitions, handles))) => {
            &&& partitions.len() == specs.len()
            &&& settled(specs, partitions, handles)
        },
        ResolutionView::Done(Err(e)) => e matches ComposeError::InvalidPartition { index } ==> {
            &&& index < specs.len()
            &&& specs[index as int].image_handle is None
            &&& forall|j: int| 0 <= j < index ==> (#[trigger] specs[j]).image_handle is Some
        },
    }
}

/// Turning to the next partition keeps a resolution consistent.
pub proof fn lemma_entering_consistent(
    specs: Seq<PartitionSpecView>,
    partitions: Seq<PartitionInfoView>,
    handles: Seq<i32>,
)
    requires
        specs.len() <= usize::MAX,
        settled(specs, partitions, handles),
    ensures
        consistent(entering(specs, partitions, handles), specs),
{
    assert forall|j: int| 0 <= j < partitions.len() implies (#[trigger] specs[j]).image_handle
        is Some by {
        let settled_record = partitions[j];
    }
}

/// A step keeps a resolution consistent, whatever the reply.
pub proof fn lemma_step_consistent(
    specs: Seq<PartitionSpecView>,
    state: ResolverView,
    reply: ResolveReplyView,
)
    requires
        consistent(ResolutionView::Ask(state), specs),
    ensures
        consistent(resolve_after(state, reply), specs),
{
    if let ResolvePhase::Probing { handle, size } = state.phase {
        if let ResolveReplyView::Probed(r) = reply {
            if let SizeProgress::Done(Ok(length)) = size_after(size, r) {
                let index = state.partitions.len() as int;
                let spec = state.specs[index];
                if let Ok(guid) = guid_of(state.index(), spec.guid) {
                    let partitions = state.partitions.push(
                        resolved_info(spec, handle, length, guid),
                    );
                    let handles = state.handles.push(handle);
                    assert forall|j: int| 0 <= j < partitions.len() implies {
                        &&& specs[j].image_handle is Some
                        &&& #[trigger] partitions[j] == resolved_info(
                            specs[j],
                            handles[j],
                            partitions[j].size,
                            partitions[j].guid,
                        )
                        &&& guid_of(j as usize, specs[j].guid) == Ok::<Option<u128>, ComposeError>(
                            partitions[j].guid,
                        )
                    } by {
                        if j < index {
                            assert(partitions[j] == state.partitions[j]);
                            assert(handles[j] == state.handles[j]);
                        }
                    }
                    lemma_entering_consistent(specs, partitions, handles);
                }
            }
        }
    }
}

/// A resolution stays consistent through any replies.
pub proof fn lemma_run_consistent(
    specs: Seq<PartitionSpecView>,
    start: ResolutionView,
    replies: Seq<ResolveReplyView>,
)
    requires
        consistent(start, specs),
    ensures
        consistent(resolve_run(start, replies), specs),
    decreases replies.len(),
{
    if let ResolutionView::Ask(state) = start {
        if replies.len() > 0 {
            lemma_step_consistent(specs, state, replies[0]);
            lemma_run_consistent(specs, resolve_after(state, replies[0]), replies.drop_first());
        }
    }
}

/// Whatever the replies, a resolution that ends well has a record and a
/// duplicated handle for every descriptor, in the order of the descriptors,
/// and each record belongs to the descriptor at its position.
pub proof fn lemma_resolved_in_order(specs: Seq<PartitionSpecView>, replies: Seq<ResolveReplyView>)
    requires
        specs.len() <= usize::MAX,
    ensures
        resolve_run(entering(specs, Seq::empty(), Seq::empty()), replies) matches ResolutionView::Done(
            Ok((partitions, handles)),
        ) ==> partitions.len() == specs.len() && settled(specs, partitions, handles),
{
    lemma_entering_consistent(specs, Seq::empty(), Seq::empty());
    lemma_run_consistent(specs, entering(specs, Seq::empty(), Seq::empty()), replies);
}

/// Whatever the replies, the resolution of descriptors of which one has no
/// image handle does not end well, so it hands out no record; and where a
/// resolution ends with `InvalidPartition`, the partition named is the first
/// without an image handle.
pub proof fn lemma_missing_handle_is_rejected(
    specs: Seq<PartitionSpecView>,
    replies: Seq<ResolveReplyView>,
    missing: int,
)
    requires
        specs.len() <= usize::MAX,
        0 <= missing < specs.len(),
        specs[missing].image_handle is None,
    ensures
        !(resolve_run(entering(specs, Seq::empty(), Seq::empty()), replies) matches ResolutionView::Done(
            Ok(_),
        )),
        resolve_run(entering(specs, Seq::empty(), Seq::empty()), replies) matches ResolutionView::Done(
            Err(ComposeError::InvalidPartition { index }),
        ) ==> index <= missing && specs[index as int].image_handle is None,
{
    lemma_entering_consistent(specs, Seq::empty(), Seq::empty());
    lemma_run_consistent(specs, entering(specs, Seq::empty(), Seq::empty()), replies);
    if let ResolutionView::Done(Ok((partitions, handles))) = resolve_run(
        entering(specs, Seq::empty(), Seq::empty()),
        replies,
    ) {
        let settled_record = partitions[missing];
    }
}

/// A resolution that turns to a partition without an image handle ends at
/// once with `InvalidPartition`, before any operation on that partition.
pub proof fn lemma_entering_without_handle(
    specs: Seq<PartitionSpecView>,
    partitions: Seq<PartitionInfoView>,
    handles: Seq<i32>,
)
    requires
        partitions.len() < specs.len(),
        specs[partitions.len() as int].image_handle is None,
    ensures
        entering(specs, partitions, handles) == ResolutionView::Done(
            Err(ComposeError::InvalidPartition { index: partitions.len() as usize }),
        ),
{
}

} // verus!
