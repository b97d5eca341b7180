//! Record creation and what clients see of records.

use vstd::prelude::*;
use vstd::string::*;

use crate::ids::{is_generated_id, new_id};
use crate::models::{AppState, CreateVideoRequest, CreateVideoResponse, Video, VideoMetadata};
use crate::storage::{public_url, stream_path, upload_path, video_object_path, video_path, stream_route, upload_route};
use crate::text::{has_prefix, starts_with};

verus! {

/// Why a record could not be created (both are client errors).
#[derive(Clone, Copy, Debug, PartialEq, Eq, Structural)]
pub enum CreateError {
    EmptyTitle,
    EmptyOwner,
}

impl CreateError {
    /// HTTP status of the answer.
    pub fn status_code(&self) -> (r: u16)
        ensures
            r == 400,
    {
        400
    }
}

/// The row inserted when a record is created: its video URL points at the
/// object that the upload will write; it has no thumbnail yet.
pub struct NewVideo {
    pub id: String,
    pub title: String,
    pub description: Option<String>,
    pub video_url: String,
    pub owner: String,
}

/// The outcome of a creation request with id `id`: the failure for an
/// empty title or owner, or else the row and the answer.
pub open spec fn creation_matches(
    req: CreateVideoRequest,
    id: Seq<char>,
    state: AppState,
    r: Result<(NewVideo, CreateVideoResponse), CreateError>,
) -> bool {
    if req.title@.len() == 0 {
        r == Err::<(NewVideo, CreateVideoResponse), CreateError>(CreateError::EmptyTitle)
    } else if req.owner@.len() == 0 {
        r == Err::<(NewVideo, CreateVideoResponse), CreateError>(CreateError::EmptyOwner)
    } else {
        match r {
            Ok((row, resp)) => {
                &&& row.id@ == id
                &&& row.title@ == req.title@
                &&& row.description.deep_view() == req.description.deep_view()
                &&& row.owner@ == req.owner@
                &&& row.video_url@ == public_url(
                    state.supabase_url@,
                    state.supabase_bucket@,
                    video_path(id),
                )
                &&& resp.id@ == id
                &&& resp.title@ == req.title@
                &&& resp.upload_url@ == upload_path(id)
            },
            Err(_) => false,
        }
    }
}

fn clone_text(o: &Option<String>) -> (r: Option<String>)
    ensures
        r.deep_view() == o.deep_view(),
{
    match o {
        Some(s) => Some(s.clone()),
        None => None,
    }
}

/// Validates a creation request and builds the row for record `id` and the
/// answer that tells the client where to upload.
pub fn plan_creation(req: CreateVideoRequest, id: String, state: &AppState) -> (r: Result<
    (NewVideo, CreateVideoResponse),
    CreateError,
>)
    ensures
        creation_matches(req, id@, *state, r),
{
    if req.title.as_str().unicode_len() == 0 {
        return Err(CreateError::EmptyTitle);
    }
    if req.owner.as_str().unicode_len() == 0 {
        return Err(CreateError::EmptyOwner);
    }
    let path = video_object_path(id.as_str());
    let video_url = state.public_url(state.supabase_bucket.as_str(), path.as_str());
    let upload_url = upload_route(id.as_str());
    let resp = CreateVideoResponse { id: id.clone(), title: req.title.clone(), upload_url };
    let row = NewVideo {
        id,
        title: req.title,
        description: req.description,
        video_url,
        owner: req.owner,
    };
    Ok((row, resp))
}

/// Creates a record under a fresh generated id.
pub fn create_video(req: CreateVideoRequest, state: &AppState) -> (r: Result<
    (NewVideo, CreateVideoResponse),
    CreateError,
>)
    ensures
        r matches Ok((row, _)) ==> is_generated_id(row.id@) && creation_matches(
            req,
            row.id@,
            *state,
            r,
        ),
        r is Err ==> creation_matches(req, Seq::empty(), *state, r),
{
    let id = new_id();
    plan_creation(req, id, state)
}

/// A stored URL as clients receive it: an absolute URL unchanged, an object
/// path as its public URL in the configured bucket.
pub open spec fn resolved(state: AppState, url: Seq<char>) -> Seq<char> {
    if has_prefix(url, "http"@) {
        url
    } else {
        public_url(state.supabase_url@, state.supabase_bucket@, url)
    }
}

/// What clients see of `v`.
pub open spec fn presents(state: AppState, v: Video, m: VideoMetadata) -> bool {
    &&& m.id@ == v.id@
    &&& m.title@ == v.title@
    &&& m.description.deep_view() == v.description.deep_view()
    &&& m.stream_url@ == stream_path(v.id@)
    &&& m.video_url@ == (if has_prefix(v.video_url@, "http"@) {
        v.video_url@
    } else {
        public_url(state.supabase_url@, state.supabase_bucket@, video_path(v.id@))
    })
    &&& m.thumbnail_url.deep_view() == match v.thumbnail_url.deep_view() {
        Some(t) => Some(resolved(state, t)),
        None => None,
    }
    &&& m.created_at@ == v.created_at@
    &&& m.owner.deep_view() == v.owner.deep_view()
    &&& m.likes == v.likes
    &&& m.views == v.views
}

impl AppState {
    /// A stored URL as clients receive it.
    pub fn resolve(&self, url: &str) -> (r: String)
        ensures
            r@ == resolved(*self, url@),
    {
        if starts_with(url, "http") {
            String::from_str(url)
        } else {
            self.public_url(self.supabase_bucket.as_str(), url)
        }
    }
}

impl VideoMetadata {
    /// What clients see of a record.
    pub fn from_video(video: &Video, state: &AppState) -> (r: VideoMetadata)
        ensures
            presents(*state, *video, r),
    {
        let thumbnail_url = match &video.thumbnail_url {
            Some(t) => Some(state.resolve(t.as_str())),
            None => None,
        };
        VideoMetadata {
            id: video.id.clone(),
            title: video.title.clone(),
            description: clone_text(&video.description),
            stream_url: stream_route(video.id.as_str()),
            video_url: state.stream_url(video.id.as_str(), video.video_url.as_str()),
            thumbnail_url,
            created_at: video.created_at.clone(),
            owner: clone_text(&video.owner),
            likes: video.likes,
            views: video.views,
        }
    }

    /// What clients see of a list of records, in the same order.
    pub fn from_videos(videos: &Vec<Video>, state: &AppState) -> (r: Vec<VideoMetadata>)
        ensures
            r.len() == videos.len(),
            forall|i: int| 0 <= i < r.len() ==> presents(*state, videos[i], #[trigger] r[i]),
    {
        let mut r: Vec<VideoMetadata> = Vec::new();
        let mut i: usize = 0;
        while i < videos.len()
            invariant
                i <= videos.len(),
                r.len() == i,
                forall|j: int| 0 <= j < i ==> presents(*state, videos[j], #[trigger] r[j]),
            decreases videos.len() - i,
        {
            r.push(VideoMetadata::from_video(&videos[i], state));
            i += 1;
        }
        r
    }
}

} // verus!
