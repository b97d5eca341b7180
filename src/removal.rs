//! Deletion of a video as a state machine: the record is looked up and
//! deleted first; then both blobs are deleted on a best-effort basis, and
//! what becomes of those two deletions never reaches the caller.

use vstd::prelude::*;

use crate::repository::RepoError;
use crate::storage::{thumbnail_object_path, thumbnail_path, video_object_path, video_path};

verus! {

/// Where a deletion stands.
#[derive(Clone, Copy, Debug, PartialEq, Eq, Structural)]
pub enum RemovalStage {
    LookingUp,
    DeletingRecord,
    DeletingVideo,
    DeletingThumbnail,
    Done,
    Failed(RepoError),
}

/// What the caller reports after performing an action of a deletion.
#[derive(Clone, Copy, Debug)]
pub enum RemovalEvent {
    /// The outcome of the record lookup.
    LookedUp(Result<(), RepoError>),
    /// The outcome of the record deletion.
    RecordDeleted(Result<(), RepoError>),
    /// A blob deletion was attempted; whether it succeeded is not examined.
    BlobDeleted(bool),
}

/// What a deletion asks the caller to do next.
pub enum RemovalAction {
    Lookup { id: String },
    DeleteRecord { id: String },
    DeleteBlob { path: String },
    /// The deletion is over; answer the client (204 on success).
    Finish(Result<(), RepoError>),
}

pub enum RemovalActionView {
    Lookup { id: Seq<char> },
    DeleteRecord { id: Seq<char> },
    DeleteBlob { path: Seq<char> },
    Finish(Result<(), RepoError>),
}

impl View for RemovalAction {
    type V = RemovalActionView;

    open spec fn view(&self) -> RemovalActionView {
        match self {
            RemovalAction::Lookup { id } => RemovalActionView::Lookup { id: id@ },
            RemovalAction::DeleteRecord { id } => RemovalActionView::DeleteRecord { id: id@ },
            RemovalAction::DeleteBlob { path } => RemovalActionView::DeleteBlob { path: path@ },
            RemovalAction::Finish(r) => RemovalActionView::Finish(*r),
        }
    }
}

/// The state of one deletion.
pub struct Removal {
    id: String,
    stage: RemovalStage,
}

pub struct RemovalView {
    pub id: Seq<char>,
    pub stage: RemovalStage,
}

impl View for Removal {
    type V = RemovalView;

    closed spec fn view(&self) -> RemovalView {
        RemovalView { id: self.id@, stage: self.stage }
    }
}

/// The record is gone: only the best-effort blob deletions remain.
pub open spec fn record_gone(stage: RemovalStage) -> bool {
    match stage {
        RemovalStage::DeletingVideo | RemovalStage::DeletingThumbnail | RemovalStage::Done => true,
        _ => false,
    }
}

/// One transition of a deletion. An event that the stage does not expect
/// before the record is gone asks again for the pending action.
pub open spec fn removal_next(s: RemovalView, e: RemovalEvent) -> (RemovalView, RemovalActionView) {
    match s.stage {
        RemovalStage::LookingUp => match e {
            RemovalEvent::LookedUp(Ok(())) => (
                RemovalView { stage: RemovalStage::DeletingRecord, ..s },
                RemovalActionView::DeleteRecord { id: s.id },
            ),
            RemovalEvent::LookedUp(Err(x)) => (
                RemovalView { stage: RemovalStage::Failed(x), ..s },
                RemovalActionView::Finish(Err(x)),
            ),
            _ => (s, RemovalActionView::Lookup { id: s.id }),
        },
        RemovalStage::DeletingRecord => match e {
            RemovalEvent::RecordDeleted(Ok(())) => (
                RemovalView { stage: RemovalStage::DeletingVideo, ..s },
                RemovalActionView::DeleteBlob { path: video_path(s.id) },
            ),
            RemovalEvent::RecordDeleted(Err(x)) => (
                RemovalView { stage: RemovalStage::Failed(x), ..s },
                RemovalActionView::Finish(Err(x)),
            ),
            _ => (s, RemovalActionView::DeleteRecord { id: s.id }),
        },
        RemovalStage::DeletingVideo => (
            RemovalView { stage: RemovalStage::DeletingThumbnail, ..s },
            RemovalActionView::DeleteBlob { path: thumbnail_path(s.id) },
        ),
        RemovalStage::DeletingThumbnail => (
            RemovalView { stage: RemovalStage::Done, ..s },
            RemovalActionView::Finish(Ok(())),
        ),
        RemovalStage::Done => (s, RemovalActionView::Finish(Ok(()))),
        RemovalStage::Failed(x) => (s, RemovalActionView::Finish(Err(x))),
    }
}

/// The state reached from `s` by `events`, and the actions asked for.
pub open spec fn removal_run(s: RemovalView, events: Seq<RemovalEvent>) -> (
    RemovalView,
    Seq<RemovalActionView>,
)
    decreases events.len(),
{
    if events.len() == 0 {
        (s, Seq::empty())
    } else {
        let (s1, a) = removal_next(s, events[0]);
        let (sn, rest) = removal_run(s1, events.drop_first());
        (sn, seq![a] + rest)
    }
}

/// Once the record is deleted, no failure reaches the caller: whatever the
/// blob deletions report, the deletion stays on its way to success and
/// every answer it gives is a success.
pub proof fn blob_failures_never_reach_caller(s: RemovalView, events: Seq<RemovalEvent>)
    requires
        record_gone(s.stage),
    ensures
        record_gone(removal_run(s, events).0.stage),
        forall|i: int|
            0 <= i < removal_run(s, events).1.len() ==> !(#[trigger] removal_run(s, events).1[i]
                matches RemovalActionView::Finish(Err(_))),
    decreases events.len(),
{
    if events.len() > 0 {
        let (s1, a) = removal_next(s, events[0]);
        let rest = events.drop_first();
        blob_failures_never_reach_caller(s1, rest);
        let acts = removal_run(s1, rest).1;
        assert forall|i: int| 0 <= i < removal_run(s, events).1.len() implies !(
        #[trigger] removal_run(s, events).1[i] matches RemovalActionView::Finish(Err(_))) by {
            if i > 0 {
                assert(removal_run(s, events).1[i] == acts[i - 1]);
            }
        }
    }
}

impl Removal {
    /// A deletion of record `id`, and its first action (look the record up).
    pub fn new(id: String) -> (r: (Removal, RemovalAction))
        ensures
            r.0@ == (RemovalView { id: id@, stage: RemovalStage::LookingUp }),
            r.1@ == (RemovalActionView::Lookup { id: id@ }),
    {
        let a = RemovalAction::Lookup { id: id.clone() };
        (Removal { id, stage: RemovalStage::LookingUp }, a)
    }

    /// The stage the deletion is in.
    pub fn stage(&self) -> (r: RemovalStage)
        ensures
            r == self@.stage,
    {
        self.stage
    }

    /// Takes the result of the last action and decides the next one.
    pub fn step(self, event: RemovalEvent) -> (r: (Removal, RemovalAction))
        ensures
            (r.0@, r.1@) == removal_next(self@, event),
    {
        let mut s = self;
        match s.stage {
            RemovalStage::LookingUp => match event {
                RemovalEvent::LookedUp(Ok(())) => {
                    s.stage = RemovalStage::DeletingRecord;
                    let a = RemovalAction::DeleteRecord { id: s.id.clone() };
                    (s, a)
                },
                RemovalEvent::LookedUp(Err(x)) => {
                    s.stage = RemovalStage::Failed(x);
                    (s, RemovalAction::Finish(Err(x)))
                },
                _ => {
                    let a = RemovalAction::Lookup { id: s.id.clone() };
                    (s, a)
                },
            },
            RemovalStage::DeletingRecord => match event {
                RemovalEvent::RecordDeleted(Ok(())) => {
                    s.stage = RemovalStage::DeletingVideo;
                    let a = RemovalAction::DeleteBlob { path: video_object_path(s.id.as_str()) };
                    (s, a)
                },
                RemovalEvent::RecordDeleted(Err(x)) => {
                    s.stage = RemovalStage::Failed(x);
                    (s, RemovalAction::Finish(Err(x)))
                },
                _ => {
                    let a = RemovalAction::DeleteRecord { id: s.id.clone() };
                    (s, a)
                },
            },
            RemovalStage::DeletingVideo => {
                s.stage = RemovalStage::DeletingThumbnail;
                let a = RemovalAction::DeleteBlob { path: thumbnail_object_path(s.id.as_str()) };
                (s, a)
            },
            RemovalStage::DeletingThumbnail => {
                s.stage = RemovalStage::Done;
                (s, RemovalAction::Finish(Ok(())))
            },
            RemovalStage::Done => (s, RemovalAction::Finish(Ok(()))),
            RemovalStage::Failed(x) => (s, RemovalAction::Finish(Err(x))),
        }
    }
}

} // verus!
