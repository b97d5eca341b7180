use video_ingest::models::{AppState, VideoProcessor};
use video_ingest::storage::{stream_route, thumbnail_object_path, upload_route, video_object_path};
use video_ingest::text::{concat3, same_text, starts_with};
use video_ingest::transcode::{artifact_names, base_name_of, TranscodeError};

fn state() -> AppState {
    AppState {
        supabase_url: "https://s.example".to_string(),
        supabase_api_key: "k".to_string(),
        supabase_bucket: "b".to_string(),
    }
}

#[test]
fn object_paths() {
    assert_eq!(video_object_path("42"), "videos/42.mp4");
    assert_eq!(thumbnail_object_path("42"), "thumbnails/42.jpg");
    assert_eq!(stream_route("42"), "/videos/42/stream");
    assert_eq!(upload_route("42"), "/videos/42/upload");
}

#[test]
fn urls() {
    let s = state();
    assert_eq!(s.public_url("b", "videos/1.mp4"), "https://s.example/storage/v1/object/public/b/videos/1.mp4");
    assert_eq!(s.object_url("b", "videos/1.mp4"), "https://s.example/storage/v1/object/b/videos/1.mp4");
    assert_eq!(s.public_prefix("b"), "https://s.example/storage/v1/object/public/b/");
    assert_eq!(s.stream_url("1", "https://cdn/x.mp4"), "https://cdn/x.mp4");
    assert_eq!(s.stream_url("1", "/videos/1/stream"), "https://s.example/storage/v1/object/public/b/videos/1.mp4");
    assert_eq!(s.resolve("thumbnails/1.jpg"), "https://s.example/storage/v1/object/public/b/thumbnails/1.jpg");
}

#[test]
fn text_helpers() {
    assert!(starts_with("video/mp4", "video/"));
    assert!(!starts_with("vide", "video/"));
    assert!(!starts_with("image/png", "video/"));
    assert!(starts_with("", ""));
    assert!(same_text("file", "file"));
    assert!(!same_text("file", "files"));
    assert_eq!(concat3("a", "b", "c"), "abc");
}

#[test]
fn transcoder_arguments() {
    let enc = VideoProcessor::encode_args("/tmp/in", "/tmp/out");
    assert_eq!(
        enc,
        vec!["-i", "/tmp/in", "-c:v", "libx264", "-crf", "23", "-preset", "medium", "-c:a", "aac", "-b:a", "128k", "-y", "/tmp/out"]
    );
    let th = VideoProcessor::thumbnail_args("/tmp/in", "/tmp/t");
    assert_eq!(th, vec!["-i", "/tmp/in", "-ss", "00:00:01", "-vframes", "1", "-y", "/tmp/t"]);
}

#[test]
fn artifact_naming() {
    assert_eq!(artifact_names(Some("clip"), "j1"), ("clip-j1.mp4".to_string(), "clip-j1-thumbnail.jpg".to_string()));
    assert_eq!(artifact_names(None, "j1"), ("video-j1.mp4".to_string(), "video-j1-thumbnail.jpg".to_string()));
    assert_eq!(
        VideoProcessor::output_names("uploads/holiday.final.mov", "j2"),
        ("holiday.final-j2.mp4".to_string(), "holiday.final-j2-thumbnail.jpg".to_string())
    );
    assert_eq!(VideoProcessor::output_names("", "j3").0, "video-j3.mp4");
    assert_eq!(base_name_of("a/b/movie.mp4"), "movie");
    assert_eq!(base_name_of(".."), "video");
}

#[test]
fn transcode_statuses() {
    assert_eq!(TranscodeError::from_statuses(true, true), Ok(()));
    assert_eq!(TranscodeError::from_statuses(false, false), Err(TranscodeError::EncodeFailed));
    assert_eq!(TranscodeError::from_statuses(true, false), Err(TranscodeError::ThumbnailFailed));
    assert_eq!(TranscodeError::EncodeFailed.message(), "FFmpeg processing failed");
}
