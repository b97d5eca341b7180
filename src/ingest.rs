//! The ingestion pipeline as a state machine.
//!
//! The machine makes every decision of an upload; the caller performs the
//! actions it asks for (read a multipart part, run the transcoder, write a
//! blob, write the record) and hands each result back as an event. Stages:
//! receiving the parts, validating them at the end of the stream,
//! transcoding, uploading the video, uploading the thumbnail, writing the
//! record, and the two terminal stages `Done` and `Failed`.

use vstd::prelude::*;
use vstd::string::*;

use crate::ids::{is_generated_id, new_id};
use crate::models::AppState;
use crate::repository::RepoError;
use crate::storage::{public_url, thumbnail_object_path, thumbnail_path, video_object_path, video_path};
use crate::text::{has_prefix, same_text, starts_with};
use crate::transcode::{base_name, base_name_of, file_stem_of, TranscodeError};

verus! {

/// Which of the two upload flows a run serves.
#[derive(Clone, Copy, Debug, PartialEq, Eq, Structural)]
pub enum Flow {
    /// One request brings the bytes (part `file`); the record is inserted
    /// once both artifacts are stored.
    UploadOnly,
    /// The record exists already; the request brings part `video` and
    /// optionally part `thumbnail`, and the record is updated at the end.
    CreateThenUpload,
}

/// Why a run failed.
#[derive(Clone, Copy, Debug, PartialEq, Eq, Structural)]
pub enum Failure {
    /// The multipart stream could not be read.
    MalformedStream,
    /// No significant part was received.
    MissingContent,
    /// The video's declared content type does not begin with `video/`.
    WrongContentType,
    /// A received buffer is empty.
    EmptyContent,
    /// The thumbnail's declared content type does not begin with `image/`.
    WrongThumbnailType,
    /// A staging file could not be allocated, written or read.
    Staging,
    /// The transcoder failed.
    Transcode(TranscodeError),
    /// The object store refused a blob (with its status, if it answered).
    Storage(Option<u16>),
    /// The metadata store refused the record (with its status, if it answered).
    Metadata(Option<u16>),
    /// An event came that the current stage does not expect.
    OutOfOrder,
}

/// A failure caused by what the client sent.
pub open spec fn is_client_failure(f: Failure) -> bool {
    match f {
        Failure::MalformedStream | Failure::MissingContent | Failure::WrongContentType
        | Failure::EmptyContent | Failure::WrongThumbnailType => true,
        _ => false,
    }
}

impl Failure {
    /// Whether the client is to blame (a 4xx answer).
    pub fn is_client_error(&self) -> (r: bool)
        ensures
            r == is_client_failure(*self),
    {
        match self {
            Failure::MalformedStream | Failure::MissingContent | Failure::WrongContentType
            | Failure::EmptyContent | Failure::WrongThumbnailType => true,
            _ => false,
        }
    }

    /// HTTP status of the answer: 400 for a client failure, 500 otherwise.
    pub fn status_code(&self) -> (r: u16)
        ensures
            is_client_failure(*self) ==> r == 400,
            !is_client_failure(*self) ==> r == 500,
    {
        if self.is_client_error() {
            400
        } else {
            500
        }
    }
}

/// Where a run stands.
#[derive(Clone, Copy, Debug, PartialEq, Eq, Structural)]
pub enum Stage {
    Receiving,
    Transcoding,
    UploadingVideo,
    UploadingThumbnail,
    UpdatingMetadata,
    Done,
    Failed(Failure),
}

/// One part of the multipart stream.
pub struct Part {
    pub name: Option<String>,
    pub file_name: Option<String>,
    pub content_type: Option<String>,
    pub data: Vec<u8>,
}

pub struct PartView {
    pub name: Option<Seq<char>>,
    pub file_name: Option<Seq<char>>,
    pub content_type: Option<Seq<char>>,
    pub data: Seq<u8>,
}

impl View for Part {
    type V = PartView;

    open spec fn view(&self) -> PartView {
        PartView {
            name: self.name.deep_view(),
            file_name: self.file_name.deep_view(),
            content_type: self.content_type.deep_view(),
            data: self.data@,
        }
    }
}

/// What the caller reports back after performing an action.
pub enum Event {
    /// The next part of the stream.
    Part(Part),
    /// The stream could not be read.
    Malformed,
    /// The stream is exhausted.
    EndOfStream,
    /// A staging file could not be allocated, written or read.
    StagingFailed,
    /// Both transcoder invocations succeeded, with their outputs.
    Transcoded { video: Vec<u8>, thumbnail: Vec<u8> },
    /// The transcoder failed.
    TranscodeFailed(TranscodeError),
    /// The blob was stored.
    Stored,
    /// The object store refused the blob.
    StoreFailed(Option<u16>),
    /// The record was written.
    RecordWritten,
    /// The metadata store refused the record.
    RecordFailed(Option<u16>),
}

pub enum EventView {
    Part(PartView),
    Malformed,
    EndOfStream,
    StagingFailed,
    Transcoded { video: Seq<u8>, thumbnail: Seq<u8> },
    TranscodeFailed(TranscodeError),
    Stored,
    StoreFailed(Option<u16>),
    RecordWritten,
    RecordFailed(Option<u16>),
}

impl View for Event {
    type V = EventView;

    open spec fn view(&self) -> EventView {
        match self {
            Event::Part(p) => EventView::Part(p@),
            Event::Malformed => EventView::Malformed,
            Event::EndOfStream => EventView::EndOfStream,
            Event::StagingFailed => EventView::StagingFailed,
            Event::Transcoded { video, thumbnail } => EventView::Transcoded {
                video: video@,
                thumbnail: thumbnail@,
            },
            Event::TranscodeFailed(e) => EventView::TranscodeFailed(*e),
            Event::Stored => EventView::Stored,
            Event::StoreFailed(s) => EventView::StoreFailed(*s),
            Event::RecordWritten => EventView::RecordWritten,
            Event::RecordFailed(s) => EventView::RecordFailed(*s),
        }
    }
}

impl Event {
    /// The event for the answer of the object store to a blob write: its
    /// status, or `None` where it did not answer.
    pub fn from_store_status(status: Option<u16>) -> (r: Event)
        ensures
            (status matches Some(c) && 200 <= c <= 299) ==> r@ == EventView::Stored,
            !(status matches Some(c) && 200 <= c <= 299) ==> r@ == EventView::StoreFailed(status),
    {
        match status {
            Some(c) => if 200 <= c && c <= 299 {
                Event::Stored
            } else {
                Event::StoreFailed(status)
            },
            None => Event::StoreFailed(None),
        }
    }

    /// The event for the outcome of a record write: a failure of the store
    /// carries its status; any other failure carries none.
    pub fn from_record_result(outcome: Result<(), RepoError>) -> (r: Event)
        ensures
            outcome is Ok ==> r@ == EventView::RecordWritten,
            outcome matches Err(RepoError::Upstream(c)) ==> r@ == EventView::RecordFailed(c),
            (outcome is Err && !(outcome matches Err(RepoError::Upstream(_)))) ==> r@
                == EventView::RecordFailed(None),
    {
        match outcome {
            Ok(()) => Event::RecordWritten,
            Err(RepoError::Upstream(c)) => Event::RecordFailed(c),
            Err(_) => Event::RecordFailed(None),
        }
    }
}

/// What a successful run produced.
pub struct Receipt {
    pub id: String,
    pub video_url: String,
    pub thumbnail_url: String,
}

pub struct ReceiptView {
    pub id: Seq<char>,
    pub video_url: Seq<char>,
    pub thumbnail_url: Seq<char>,
}

impl View for Receipt {
    type V = ReceiptView;

    open spec fn view(&self) -> ReceiptView {
        ReceiptView { id: self.id@, video_url: self.video_url@, thumbnail_url: self.thumbnail_url@ }
    }
}

/// What the machine asks the caller to do next.
pub enum Action {
    /// Read the next part of the stream.
    ReadPart,
    /// Stage `input` on disk and run both transcoder invocations on it.
    Transcode { input: Vec<u8>, file_name: String, content_type: String },
    /// Write `bytes` to the object store at `path`.
    Store { path: String, content_type: String, bytes: Vec<u8> },
    /// Set the URLs of the existing record `id`.
    UpdateRecord { id: String, video_url: String, thumbnail_url: String },
    /// Insert a new record `id`.
    InsertRecord { id: String, title: String, video_url: String, thumbnail_url: String },
    /// The run is over; answer the client.
    Finish(Result<Receipt, Failure>),
}

pub enum ActionView {
    ReadPart,
    Transcode { input: Seq<u8>, file_name: Seq<char>, content_type: Seq<char> },
    Store { path: Seq<char>, content_type: Seq<char>, bytes: Seq<u8> },
    UpdateRecord { id: Seq<char>, video_url: Seq<char>, thumbnail_url: Seq<char> },
    InsertRecord { id: Seq<char>, title: Seq<char>, video_url: Seq<char>, thumbnail_url: Seq<char> },
    Finish(Result<ReceiptView, Failure>),
}

impl View for Action {
    type V = ActionView;

    open spec fn view(&self) -> ActionView {
        match self {
            Action::ReadPart => ActionView::ReadPart,
            Action::Transcode { input, file_name, content_type } => ActionView::Transcode {
                input: input@,
                file_name: file_name@,
                content_type: content_type@,
            },
            Action::Store { path, content_type, bytes } => ActionView::Store {
                path: path@,
                content_type: content_type@,
                bytes: bytes@,
            },
            Action::UpdateRecord { id, video_url, thumbnail_url } => ActionView::UpdateRecord {
                id: id@,
                video_url: video_url@,
                thumbnail_url: thumbnail_url@,
            },
            Action::InsertRecord { id, title, video_url, thumbnail_url } => ActionView::InsertRecord {
                id: id@,
                title: title@,
                video_url: video_url@,
                thumbnail_url: thumbnail_url@,
            },
            Action::Finish(Ok(r)) => ActionView::Finish(Ok(r@)),
            Action::Finish(Err(f)) => ActionView::Finish(Err(*f)),
        }
    }
}

/// The state of one run.
pub struct Ingest {
    flow: Flow,
    id: String,
    video_url: String,
    thumbnail_url: String,
    stage: Stage,
    file_name: String,
    content_type: Option<String>,
    content: Vec<u8>,
    thumbnail_type: Option<String>,
    thumbnail: Vec<u8>,
}

pub struct IngestView {
    pub flow: Flow,
    pub id: Seq<char>,
    pub video_url: Seq<char>,
    pub thumbnail_url: Seq<char>,
    pub stage: Stage,
    pub file_name: Seq<char>,
    pub content_type: Option<Seq<char>>,
    pub content: Seq<u8>,
    pub thumbnail_type: Option<Seq<char>>,
    pub thumbnail: Seq<u8>,
}

impl View for Ingest {
    type V = IngestView;

    closed spec fn view(&self) -> IngestView {
        IngestView {
            flow: self.flow,
            id: self.id@,
            video_url: self.video_url@,
            thumbnail_url: self.thumbnail_url@,
            stage: self.stage,
            file_name: self.file_name@,
            content_type: self.content_type.deep_view(),
            content: self.content@,
            thumbnail_type: self.thumbnail_type.deep_view(),
            thumbnail: self.thumbnail@,
        }
    }
}

/// A declared content type of a video.
pub open spec fn is_video_type(t: Seq<char>) -> bool {
    has_prefix(t, "video/"@)
}

/// A declared content type of an image.
pub open spec fn is_image_type(t: Seq<char>) -> bool {
    has_prefix(t, "image/"@)
}

/// The state in which a run for record `id` begins; both URLs are the
/// public URLs of the record's fixed object paths.
pub open spec fn initial(flow: Flow, id: Seq<char>, base: Seq<char>, bucket: Seq<char>) -> IngestView {
    IngestView {
        flow,
        id,
        video_url: public_url(base, bucket, video_path(id)),
        thumbnail_url: public_url(base, bucket, thumbnail_path(id)),
        stage: Stage::Receiving,
        file_name: Seq::empty(),
        content_type: None,
        content: Seq::empty(),
        thumbnail_type: None,
        thumbnail: Seq::empty(),
    }
}

/// The name of the part that carries the video in a flow.
pub open spec fn video_part_name(flow: Flow) -> Seq<char> {
    match flow {
        Flow::UploadOnly => "file"@,
        Flow::CreateThenUpload => "video"@,
    }
}

/// The content type assumed for a video part that declares none.
pub open spec fn default_video_type(flow: Flow) -> Seq<char> {
    match flow {
        Flow::UploadOnly => "video/mp4"@,
        Flow::CreateThenUpload => Seq::empty(),
    }
}

/// Keeps what a part brings: the video part replaces the video received so
/// far; in the create-then-upload flow a `thumbnail` part replaces the
/// client's thumbnail; any other part is ignored.
pub open spec fn receive(s: IngestView, p: PartView) -> IngestView {
    if p.name == Some(video_part_name(s.flow)) {
        IngestView {
            file_name: match p.file_name {
                Some(f) => f,
                None => "video.mp4"@,
            },
            content_type: Some(
                match p.content_type {
                    Some(t) => t,
                    None => default_video_type(s.flow),
                },
            ),
            content: p.data,
            ..s
        }
    } else if s.flow == Flow::CreateThenUpload && p.name == Some("thumbnail"@) {
        IngestView {
            thumbnail_type: Some(
                match p.content_type {
                    Some(t) => t,
                    None => Seq::empty(),
                },
            ),
            thumbnail: p.data,
            ..s
        }
    } else {
        s
    }
}

/// The failure that validation finds in what was received, if any: in this
/// order, a missing video, a type other than `video/...`, an empty video, a
/// client thumbnail of a type other than `image/...`, an empty client
/// thumbnail.
pub open spec fn rejection(s: IngestView) -> Option<Failure> {
    match s.content_type {
        None => Some(Failure::MissingContent),
        Some(t) => if !is_video_type(t) {
            Some(Failure::WrongContentType)
        } else if s.content.len() == 0 {
            Some(Failure::EmptyContent)
        } else {
            match s.thumbnail_type {
                Some(u) => if !is_image_type(u) {
                    Some(Failure::WrongThumbnailType)
                } else if s.thumbnail.len() == 0 {
                    Some(Failure::EmptyContent)
                } else {
                    None
                },
                None => None,
            }
        },
    }
}

pub open spec fn receipt_of(s: IngestView) -> ReceiptView {
    ReceiptView { id: s.id, video_url: s.video_url, thumbnail_url: s.thumbnail_url }
}

pub open spec fn fail(s: IngestView, f: Failure) -> (IngestView, ActionView) {
    (IngestView { stage: Stage::Failed(f), ..s }, ActionView::Finish(Err(f)))
}

/// The record write that ends a run.
pub open spec fn record_action(s: IngestView) -> ActionView {
    match s.flow {
        Flow::UploadOnly => ActionView::InsertRecord {
            id: s.id,
            title: base_name(file_stem_of(s.file_name)),
            video_url: s.video_url,
            thumbnail_url: s.thumbnail_url,
        },
        Flow::CreateThenUpload => ActionView::UpdateRecord {
            id: s.id,
            video_url: s.video_url,
            thumbnail_url: s.thumbnail_url,
        },
    }
}

/// One transition: the next state and the action it asks for.
pub open spec fn next(s: IngestView, e: EventView) -> (IngestView, ActionView) {
    match s.stage {
        Stage::Done => (s, ActionView::Finish(Ok(receipt_of(s)))),
        Stage::Failed(f) => (s, ActionView::Finish(Err(f))),
        Stage::Receiving => match e {
            EventView::Part(p) => (receive(s, p), ActionView::ReadPart),
            EventView::Malformed => fail(s, Failure::MalformedStream),
            EventView::EndOfStream => match rejection(s) {
                Some(f) => fail(s, f),
                None => (
                    IngestView { stage: Stage::Transcoding, content: Seq::empty(), ..s },
                    ActionView::Transcode {
                        input: s.content,
                        file_name: s.file_name,
                        content_type: s.content_type.unwrap(),
                    },
                ),
            },
            _ => fail(s, Failure::OutOfOrder),
        },
        Stage::Transcoding => match e {
            EventView::StagingFailed => fail(s, Failure::Staging),
            EventView::TranscodeFailed(t) => fail(s, Failure::Transcode(t)),
            EventView::Transcoded { video, thumbnail } => (
                IngestView {
                    stage: Stage::UploadingVideo,
                    thumbnail: if s.thumbnail_type is Some {
                        s.thumbnail
                    } else {
                        thumbnail
                    },
                    ..s
                },
                ActionView::Store {
                    path: video_path(s.id),
                    content_type: "video/mp4"@,
                    bytes: video,
                },
            ),
            _ => fail(s, Failure::OutOfOrder),
        },
        Stage::UploadingVideo => match e {
            EventView::Stored => (
                IngestView { stage: Stage::UploadingThumbnail, thumbnail: Seq::empty(), ..s },
                ActionView::Store {
                    path: thumbnail_path(s.id),
                    content_type: "image/jpeg"@,
                    bytes: s.thumbnail,
                },
            ),
            EventView::StoreFailed(c) => fail(s, Failure::Storage(c)),
            _ => fail(s, Failure::OutOfOrder),
        },
        Stage::UploadingThumbnail => match e {
            EventView::Stored => (
                IngestView { stage: Stage::UpdatingMetadata, ..s },
                record_action(s),
            ),
            EventView::StoreFailed(c) => fail(s, Failure::Storage(c)),
            _ => fail(s, Failure::OutOfOrder),
        },
        Stage::UpdatingMetadata => match e {
            EventView::RecordWritten => (
                IngestView { stage: Stage::Done, ..s },
                ActionView::Finish(Ok(receipt_of(s))),
            ),
            EventView::RecordFailed(c) => fail(s, Failure::Metadata(c)),
            _ => fail(s, Failure::OutOfOrder),
        },
    }
}


/// What an action changes outside the process: a blob written at a path,
/// or a record written with its video and thumbnail URLs.
pub enum Effect {
    Stored(Seq<char>),
    Recorded(Seq<char>, Seq<char>),
}

pub open spec fn effect_of(a: ActionView) -> Seq<Effect> {
    match a {
        ActionView::Store { path, .. } => seq![Effect::Stored(path)],
        ActionView::UpdateRecord { video_url, thumbnail_url, .. } => seq![
            Effect::Recorded(video_url, thumbnail_url),
        ],
        ActionView::InsertRecord { video_url, thumbnail_url, .. } => seq![
            Effect::Recorded(video_url, thumbnail_url),
        ],
        _ => Seq::empty(),
    }
}

/// The effects of a sequence of actions, in order.
pub open spec fn effects(acts: Seq<ActionView>) -> Seq<Effect>
    decreases acts.len(),
{
    if acts.len() == 0 {
        Seq::empty()
    } else {
        effect_of(acts[0]) + effects(acts.drop_first())
    }
}

/// The state reached from `s` by `events`, and the actions asked for.
pub open spec fn run(s: IngestView, events: Seq<EventView>) -> (IngestView, Seq<ActionView>)
    decreases events.len(),
{
    if events.len() == 0 {
        (s, Seq::empty())
    } else {
        let (s1, a) = next(s, events[0]);
        let (sn, rest) = run(s1, events.drop_first());
        (sn, seq![a] + rest)
    }
}

/// A transcoder request carries a non-empty buffer declared as video.
pub open spec fn admissible_transcode(a: ActionView) -> bool {
    match a {
        ActionView::Transcode { input, content_type, .. } => input.len() > 0 && is_video_type(
            content_type,
        ),
        _ => true,
    }
}

/// The effects that a run has had by the time it reaches a stage.
spec fn effects_by_stage(s: IngestView) -> Seq<Effect> {
    let v = Effect::Stored(video_path(s.id));
    let t = Effect::Stored(thumbnail_path(s.id));
    let r = Effect::Recorded(s.video_url, s.thumbnail_url);
    match s.stage {
        Stage::UploadingVideo => seq![v],
        Stage::UploadingThumbnail => seq![v, t],
        Stage::UpdatingMetadata | Stage::Done => seq![v, t, r],
        _ => Seq::empty(),
    }
}

proof fn lemma_effects_cons(a: ActionView, rest: Seq<ActionView>)
    ensures
        effects(seq![a] + rest) == effect_of(a) + effects(rest),
{
    let acts = seq![a] + rest;
    assert(acts[0] == a);
    assert(acts.drop_first() =~= rest);
}

proof fn lemma_step(s: IngestView, e: EventView)
    requires
        !(s.stage is Failed),
    ensures
        next(s, e).0.id == s.id,
        next(s, e).0.video_url == s.video_url,
        next(s, e).0.thumbnail_url == s.thumbnail_url,
        !(next(s, e).0.stage is Failed) ==> effects_by_stage(s) + effect_of(next(s, e).1)
            =~= effects_by_stage(next(s, e).0),
{
}

proof fn lemma_failed_stays(s: IngestView, events: Seq<EventView>)
    requires
        s.stage is Failed,
    ensures
        run(s, events).0 == s,
    decreases events.len(),
{
    if events.len() > 0 {
        lemma_failed_stays(next(s, events[0]).0, events.drop_first());
    }
}

proof fn lemma_run_effects(s: IngestView, events: Seq<EventView>)
    requires
        !(s.stage is Failed),
    ensures
        run(s, events).0.id == s.id,
        run(s, events).0.video_url == s.video_url,
        run(s, events).0.thumbnail_url == s.thumbnail_url,
        !(run(s, events).0.stage is Failed) ==> effects_by_stage(s) + effects(run(s, events).1)
            == effects_by_stage(run(s, events).0),
    decreases events.len(),
{
    if events.len() == 0 {
        assert(effects_by_stage(s) + effects(Seq::<ActionView>::empty()) =~= effects_by_stage(s));
    } else {
        let (s1, a) = next(s, events[0]);
        let rest = events.drop_first();
        lemma_step(s, events[0]);
        lemma_effects_cons(a, run(s1, rest).1);
        if s1.stage is Failed {
            lemma_failed_stays(s1, rest);
        } else {
            lemma_run_effects(s1, rest);
            let acts = run(s1, rest).1;
            assert(effects_by_stage(s) + (effect_of(a) + effects(acts)) =~= (effects_by_stage(s)
                + effect_of(a)) + effects(acts));
        }
    }
}

/// A successful run writes exactly two blobs, the transcoded video at
/// `videos/{id}.mp4` and then the thumbnail at `thumbnails/{id}.jpg`, and
/// after them one record whose video and thumbnail URLs are the public URLs
/// of those two paths.
pub proof fn successful_run_stores_both_artifacts(
    flow: Flow,
    id: Seq<char>,
    base: Seq<char>,
    bucket: Seq<char>,
    events: Seq<EventView>,
)
    requires
        run(initial(flow, id, base, bucket), events).0.stage == Stage::Done,
    ensures
        effects(run(initial(flow, id, base, bucket), events).1) == seq![
            Effect::Stored(video_path(id)),
            Effect::Stored(thumbnail_path(id)),
            Effect::Recorded(
                public_url(base, bucket, video_path(id)),
                public_url(base, bucket, thumbnail_path(id)),
            ),
        ],
{
    let s = initial(flow, id, base, bucket);
    lemma_run_effects(s, events);
    assert(effects_by_stage(s) + effects(run(s, events).1) =~= effects(run(s, events).1));
}

/// A non-empty buffer declared as video, received as the flow's video part,
/// is accepted: when the transcoder, both blob writes and the record write
/// succeed, the run ends in `Done`.
pub proof fn valid_upload_succeeds(
    flow: Flow,
    id: Seq<char>,
    base: Seq<char>,
    bucket: Seq<char>,
    file_name: Option<Seq<char>>,
    content_type: Seq<char>,
    data: Seq<u8>,
    video: Seq<u8>,
    thumbnail: Seq<u8>,
)
    requires
        data.len() > 0,
        is_video_type(content_type),
    ensures
        run(
            initial(flow, id, base, bucket),
            seq![
                EventView::Part(
                    PartView {
                        name: Some(video_part_name(flow)),
                        file_name,
                        content_type: Some(content_type),
                        data,
                    },
                ),
                EventView::EndOfStream,
                EventView::Transcoded { video, thumbnail },
                EventView::Stored,
                EventView::Stored,
                EventView::RecordWritten,
            ],
        ).0.stage == Stage::Done,
{
    let events = seq![
        EventView::Part(
            PartView { name: Some(video_part_name(flow)), file_name, content_type: Some(content_type), data },
        ),
        EventView::EndOfStream,
        EventView::Transcoded { video, thumbnail },
        EventView::Stored,
        EventView::Stored,
        EventView::RecordWritten,
    ];
    let s0 = initial(flow, id, base, bucket);
    let s1 = next(s0, events[0]).0;
    assert(s1.stage == Stage::Receiving && s1.content == data);
    assert(rejection(s1) is None);
    let s2 = next(s1, events[1]).0;
    let s3 = next(s2, events[2]).0;
    let s4 = next(s3, events[3]).0;
    let s5 = next(s4, events[4]).0;
    let s6 = next(s5, events[5]).0;
    assert(s6.stage == Stage::Done);
    let e1 = events.drop_first();
    let e2 = e1.drop_first();
    let e3 = e2.drop_first();
    let e4 = e3.drop_first();
    let e5 = e4.drop_first();
    let e6 = e5.drop_first();
    assert(e6.len() == 0);
    assert(run(s6, e6).0 == s6);
    assert(run(s5, e5).0 == s6);
    assert(run(s4, e4).0 == s6);
    assert(run(s3, e3).0 == s6);
    assert(run(s2, e2).0 == s6);
    assert(run(s1, e1).0 == s6);
}

/// An empty buffer, or one whose declared content type does not begin with
/// `video/`, received as the flow's video part, is rejected at the end of
/// the stream with a client failure, and no transcoding is asked for.
pub proof fn invalid_upload_is_rejected(
    flow: Flow,
    id: Seq<char>,
    base: Seq<char>,
    bucket: Seq<char>,
    file_name: Option<Seq<char>>,
    content_type: Seq<char>,
    data: Seq<u8>,
)
    requires
        data.len() == 0 || !is_video_type(content_type),
    ensures
        ({
            let (s, acts) = run(
                initial(flow, id, base, bucket),
                seq![
                    EventView::Part(
                        PartView {
                            name: Some(video_part_name(flow)),
                            file_name,
                            content_type: Some(content_type),
                            data,
                        },
                    ),
                    EventView::EndOfStream,
                ],
            );
            &&& s.stage matches Stage::Failed(f)
            &&& is_client_failure(f)
            &&& forall|i: int| 0 <= i < acts.len() ==> !(#[trigger] acts[i] is Transcode)
        }),
{
    let events = seq![
        EventView::Part(
            PartView { name: Some(video_part_name(flow)), file_name, content_type: Some(content_type), data },
        ),
        EventView::EndOfStream,
    ];
    let s0 = initial(flow, id, base, bucket);
    let (s1, a1) = next(s0, events[0]);
    let (s2, a2) = next(s1, events[1]);
    assert(rejection(s1) is Some);
    let e1 = events.drop_first();
    let e2 = e1.drop_first();
    assert(e2.len() == 0);
    assert(e1[0] == events[1]);
    assert(run(s2, e2) == (s2, Seq::<ActionView>::empty()));
    assert(seq![a2] + Seq::<ActionView>::empty() =~= seq![a2]);
    assert(run(s1, e1).1 =~= seq![a2]);
    assert(run(s1, e1).0 == s2);
    assert(run(s0, events).1 =~= seq![a1, a2]);
}

/// The transcoder is never asked to work on an empty buffer or on one
/// whose declared content type does not begin with `video/`: such uploads
/// are rejected before it, from whatever state the run is in.
pub proof fn transcoder_sees_only_video(s: IngestView, events: Seq<EventView>)
    ensures
        forall|i: int|
            0 <= i < run(s, events).1.len() ==> #[trigger] admissible_transcode(
                run(s, events).1[i],
            ),
    decreases events.len(),
{
    if events.len() > 0 {
        let (s1, a) = next(s, events[0]);
        let rest = events.drop_first();
        transcoder_sees_only_video(s1, rest);
        let acts = run(s1, rest).1;
        assert(admissible_transcode(a));
        assert forall|i: int| 0 <= i < run(s, events).1.len() implies #[trigger] admissible_transcode(
            run(s, events).1[i],
        ) by {
            if i > 0 {
                assert(run(s, events).1[i] == acts[i - 1]);
            }
        }
    }
}

impl Ingest {
    /// A run for record `id`, and its first action (read a part).
    pub fn new(flow: Flow, id: String, state: &AppState) -> (r: (Ingest, Action))
        ensures
            r.0@ == initial(flow, id@, state.supabase_url@, state.supabase_bucket@),
            r.1@ == ActionView::ReadPart,
    {
        let video_path = video_object_path(id.as_str());
        let thumbnail_path = thumbnail_object_path(id.as_str());
        let video_url = state.public_url(state.supabase_bucket.as_str(), video_path.as_str());
        let thumbnail_url = state.public_url(state.supabase_bucket.as_str(), thumbnail_path.as_str());
        let s = Ingest {
            flow,
            id,
            video_url,
            thumbnail_url,
            stage: Stage::Receiving,
            file_name: String::new(),
            content_type: None,
            content: Vec::new(),
            thumbnail_type: None,
            thumbnail: Vec::new(),
        };
        (s, Action::ReadPart)
    }

    /// An upload-only run, for a record under a fresh generated id.
    pub fn upload_only(state: &AppState) -> (r: (Ingest, Action))
        ensures
            is_generated_id(r.0@.id),
            r.0@ == initial(Flow::UploadOnly, r.0@.id, state.supabase_url@, state.supabase_bucket@),
            r.1@ == ActionView::ReadPart,
    {
        Ingest::new(Flow::UploadOnly, new_id(), state)
    }

    /// The stage the run is in.
    pub fn stage(&self) -> (r: Stage)
        ensures
            r == self@.stage,
    {
        self.stage
    }

    /// The id of the record the run serves.
    pub fn id(&self) -> (r: &str)
        ensures
            r@ == self@.id,
    {
        self.id.as_str()
    }

    fn receipt(&self) -> (r: Receipt)
        ensures
            r@ == receipt_of(self@),
    {
        Receipt {
            id: self.id.clone(),
            video_url: self.video_url.clone(),
            thumbnail_url: self.thumbnail_url.clone(),
        }
    }

    fn fail(self, f: Failure) -> (r: (Ingest, Action))
        ensures
            (r.0@, r.1@) == fail(self@, f),
    {
        let mut s = self;
        s.stage = Stage::Failed(f);
        (s, Action::Finish(Err(f)))
    }

    fn receive(&mut self, p: Part)
        ensures
            final(self)@ == receive(old(self)@, p@),
    {
        let is_video = match &p.name {
            Some(n) => match self.flow {
                Flow::UploadOnly => same_text(n.as_str(), "file"),
                Flow::CreateThenUpload => same_text(n.as_str(), "video"),
            },
            None => false,
        };
        let is_thumbnail = match &p.name {
            Some(n) => self.flow == Flow::CreateThenUpload && same_text(n.as_str(), "thumbnail"),
            None => false,
        };
        if is_video {
            self.file_name = match p.file_name {
                Some(f) => f,
                None => String::from_str("video.mp4"),
            };
            self.content_type = Some(
                match p.content_type {
                    Some(t) => t,
                    None => match self.flow {
                        Flow::UploadOnly => String::from_str("video/mp4"),
                        Flow::CreateThenUpload => String::new(),
                    },
                },
            );
            self.content = p.data;
        } else if is_thumbnail {
            self.thumbnail_type = Some(
                match p.content_type {
                    Some(t) => t,
                    None => String::new(),
                },
            );
            self.thumbnail = p.data;
        }
    }

    fn rejection(&self) -> (r: Option<Failure>)
        ensures
            r == rejection(self@),
    {
        match &self.content_type {
            None => Some(Failure::MissingContent),
            Some(t) => if !starts_with(t.as_str(), "video/") {
                Some(Failure::WrongContentType)
            } else if self.content.len() == 0 {
                Some(Failure::EmptyContent)
            } else {
                match &self.thumbnail_type {
                    Some(u) => if !starts_with(u.as_str(), "image/") {
                        Some(Failure::WrongThumbnailType)
                    } else if self.thumbnail.len() == 0 {
                        Some(Failure::EmptyContent)
                    } else {
                        None
                    },
                    None => None,
                }
            },
        }
    }

    fn end_of_stream(self) -> (r: (Ingest, Action))
        requires
            self@.stage == Stage::Receiving,
        ensures
            (r.0@, r.1@) == next(self@, EventView::EndOfStream),
    {
        match self.rejection() {
            Some(f) => self.fail(f),
            None => {
                let mut s = self;
                let mut input: Vec<u8> = Vec::new();
                std::mem::swap(&mut input, &mut s.content);
                let content_type = match &s.content_type {
                    Some(t) => t.clone(),
                    None => String::new(),
                };
                let file_name = s.file_name.clone();
                s.stage = Stage::Transcoding;
                (s, Action::Transcode { input, file_name, content_type })
            },
        }
    }

    fn record_action(&self) -> (r: Action)
        ensures
            r@ == record_action(self@),
    {
        match self.flow {
            Flow::UploadOnly => Action::InsertRecord {
                id: self.id.clone(),
                title: base_name_of(self.file_name.as_str()),
                video_url: self.video_url.clone(),
                thumbnail_url: self.thumbnail_url.clone(),
            },
            Flow::CreateThenUpload => Action::UpdateRecord {
                id: self.id.clone(),
                video_url: self.video_url.clone(),
                thumbnail_url: self.thumbnail_url.clone(),
            },
        }
    }

    /// Takes the result of the last action and decides the next one.
    pub fn step(self, event: Event) -> (r: (Ingest, Action))
        ensures
            (r.0@, r.1@) == next(self@, event@),
    {
        match self.stage {
            Stage::Done => {
                let a = Action::Finish(Ok(self.receipt()));
                (self, a)
            },
            Stage::Failed(f) => (self, Action::Finish(Err(f))),
            Stage::Receiving => match event {
                Event::Part(p) => {
                    let mut s = self;
                    s.receive(p);
                    (s, Action::ReadPart)
                },
                Event::Malformed => self.fail(Failure::MalformedStream),
                Event::EndOfStream => self.end_of_stream(),
                _ => self.fail(Failure::OutOfOrder),
            },
            Stage::Transcoding => match event {
                Event::StagingFailed => self.fail(Failure::Staging),
                Event::TranscodeFailed(t) => self.fail(Failure::Transcode(t)),
                Event::Transcoded { video, thumbnail } => {
                    let mut s = self;
                    if s.thumbnail_type.is_none() {
                        s.thumbnail = thumbnail;
                    }
                    s.stage = Stage::UploadingVideo;
                    let path = video_object_path(s.id.as_str());
                    (s, Action::Store { path, content_type: String::from_str("video/mp4"), bytes: video })
                },
                _ => self.fail(Failure::OutOfOrder),
            },
            Stage::UploadingVideo => match event {
                Event::Stored => {
                    let mut s = self;
                    let mut bytes: Vec<u8> = Vec::new();
                    std::mem::swap(&mut bytes, &mut s.thumbnail);
                    s.stage = Stage::UploadingThumbnail;
                    let path = thumbnail_object_path(s.id.as_str());
                    (s, Action::Store { path, content_type: String::from_str("image/jpeg"), bytes })
                },
                Event::StoreFailed(c) => self.fail(Failure::Storage(c)),
                _ => self.fail(Failure::OutOfOrder),
            },
            Stage::UploadingThumbnail => match event {
                Event::Stored => {
                    let a = self.record_action();
                    let mut s = self;
                    s.stage = Stage::UpdatingMetadata;
                    (s, a)
                },
                Event::StoreFailed(c) => self.fail(Failure::Storage(c)),
                _ => self.fail(Failure::OutOfOrder),
            },
            Stage::UpdatingMetadata => match event {
                Event::RecordWritten => {
                    let a = Action::Finish(Ok(self.receipt()));
                    let mut s = self;
                    s.stage = Stage::Done;
                    (s, a)
                },
                Event::RecordFailed(c) => self.fail(Failure::Metadata(c)),
                _ => self.fail(Failure::OutOfOrder),
            },
        }
    }
}

} // verus!
