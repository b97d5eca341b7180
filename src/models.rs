//! The records exchanged with clients and kept in the metadata store.

use vstd::prelude::*;

verus! {

/// A row of the `videos` table.
pub struct Video {
    pub id: String,
    pub title: String,
    pub description: Option<String>,
    pub video_url: String,
    pub thumbnail_url: Option<String>,
    pub owner: Option<String>,
    pub created_at: String,
    pub likes: i32,
    pub views: i32,
}

/// The body of a request that creates a video record.
pub struct CreateVideoRequest {
    pub title: String,
    pub description: Option<String>,
    pub owner: String,
}

/// The answer to a record creation: the new id and where to send the bytes.
pub struct CreateVideoResponse {
    pub id: String,
    pub title: String,
    pub upload_url: String,
}

/// What clients see of a video record.
pub struct VideoMetadata {
    pub id: String,
    pub title: String,
    pub description: Option<String>,
    pub stream_url: String,
    pub video_url: String,
    pub thumbnail_url: Option<String>,
    pub created_at: String,
    pub owner: Option<String>,
    pub likes: i32,
    pub views: i32,
}

/// Shared, read-only configuration of the remote services.
pub struct AppState {
    pub supabase_url: String,
    pub supabase_api_key: String,
    pub supabase_bucket: String,
}

/// The answer to the creation of a show.
pub struct CreateShowResponse {
    pub id: String,
    pub title: String,
}

/// Names the artifacts of a transcoding job.
pub struct VideoProcessor;

} // verus!
