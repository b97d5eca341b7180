//! The object-store layout and the URLs derived from it.

use vstd::prelude::*;
use vstd::string::*;

use crate::models::AppState;
use crate::text::{concat3, has_prefix, starts_with};

verus! {

/// Object path of the transcoded video of record `id`.
pub open spec fn video_path(id: Seq<char>) -> Seq<char> {
    "videos/"@ + id + ".mp4"@
}

/// Object path of the thumbnail of record `id`.
pub open spec fn thumbnail_path(id: Seq<char>) -> Seq<char> {
    "thumbnails/"@ + id + ".jpg"@
}

/// Where an object of a bucket is read by anyone.
pub open spec fn public_prefix(base: Seq<char>, bucket: Seq<char>) -> Seq<char> {
    base + "/storage/v1/object/public/"@ + bucket + "/"@
}

/// Public URL of an object.
pub open spec fn public_url(base: Seq<char>, bucket: Seq<char>, path: Seq<char>) -> Seq<char> {
    public_prefix(base, bucket) + path
}

/// Endpoint through which an object is written or removed.
pub open spec fn object_url(base: Seq<char>, bucket: Seq<char>, path: Seq<char>) -> Seq<char> {
    base + "/storage/v1/object/"@ + bucket + "/"@ + path
}

/// Service path that resolves the playable URL of record `id`.
pub open spec fn stream_path(id: Seq<char>) -> Seq<char> {
    "/videos/"@ + id + "/stream"@
}

/// Service path that receives the bytes of record `id`.
pub open spec fn upload_path(id: Seq<char>) -> Seq<char> {
    "/videos/"@ + id + "/upload"@
}

/// `videos/{id}.mp4`
pub fn video_object_path(id: &str) -> (r: String)
    ensures
        r@ == video_path(id@),
{
    concat3("videos/", id, ".mp4")
}

/// `thumbnails/{id}.jpg`
pub fn thumbnail_object_path(id: &str) -> (r: String)
    ensures
        r@ == thumbnail_path(id@),
{
    concat3("thumbnails/", id, ".jpg")
}

/// `/videos/{id}/stream`
pub fn stream_route(id: &str) -> (r: String)
    ensures
        r@ == stream_path(id@),
{
    concat3("/videos/", id, "/stream")
}

/// `/videos/{id}/upload`
pub fn upload_route(id: &str) -> (r: String)
    ensures
        r@ == upload_path(id@),
{
    concat3("/videos/", id, "/upload")
}

impl AppState {
    /// `{url}/storage/v1/object/public/{bucket}/`
    pub fn public_prefix(&self, bucket: &str) -> (r: String)
        ensures
            r@ == public_prefix(self.supabase_url@, bucket@),
    {
        let mut r = concat3(self.supabase_url.as_str(), "/storage/v1/object/public/", bucket);
        r.append("/");
        r
    }

    /// `{url}/storage/v1/object/public/{bucket}/{path}`
    pub fn public_url(&self, bucket: &str, path: &str) -> (r: String)
        ensures
            r@ == public_url(self.supabase_url@, bucket@, path@),
    {
        let mut r = self.public_prefix(bucket);
        r.append(path);
        r
    }

    /// `{url}/storage/v1/object/{bucket}/{path}`
    pub fn object_url(&self, bucket: &str, path: &str) -> (r: String)
        ensures
            r@ == object_url(self.supabase_url@, bucket@, path@),
    {
        let mut r = concat3(self.supabase_url.as_str(), "/storage/v1/object/", bucket);
        r.append("/");
        r.append(path);
        r
    }

    /// The playable URL of record `id`: its stored URL when that is already
    /// absolute (begins with `http`), else the public URL of `videos/{id}.mp4`
    /// in the configured bucket.
    pub fn stream_url(&self, id: &str, video_url: &str) -> (r: String)
        ensures
            has_prefix(video_url@, "http"@) ==> r@ == video_url@,
            !has_prefix(video_url@, "http"@) ==> r@ == public_url(
                self.supabase_url@,
                self.supabase_bucket@,
                video_path(id@),
            ),
    {
        if starts_with(video_url, "http") {
            String::from_str(video_url)
        } else {
            let path = video_object_path(id);
            self.public_url(self.supabase_bucket.as_str(), path.as_str())
        }
    }
}

} // verus!
