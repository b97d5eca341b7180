use video_ingest::catalog::{plan_creation, CreateError};
use video_ingest::ingest::{Action, Event, Failure, Flow, Ingest, Part, Receipt, Stage};
use video_ingest::repository::RepoError;
use video_ingest::models::{AppState, CreateVideoRequest, Video, VideoMetadata};
use video_ingest::transcode::TranscodeError;

fn state() -> AppState {
    AppState {
        supabase_url: "https://store.example".to_string(),
        supabase_api_key: "key".to_string(),
        supabase_bucket: "videos".to_string(),
    }
}

fn part(name: &str, content_type: Option<&str>, data: Vec<u8>) -> Part {
    Part {
        name: Some(name.to_string()),
        file_name: Some("clip.mov".to_string()),
        content_type: content_type.map(|t| t.to_string()),
        data,
    }
}

/// Feeds the events to a run and collects every action, the first included.
fn drive(flow: Flow, id: &str, events: Vec<Event>) -> (Ingest, Vec<Action>) {
    let (mut run, first) = Ingest::new(flow, id.to_string(), &state());
    let mut actions = vec![first];
    for e in events {
        let (next, a) = run.step(e);
        run = next;
        actions.push(a);
    }
    (run, actions)
}

fn stored_paths(actions: &[Action]) -> Vec<String> {
    actions
        .iter()
        .filter_map(|a| match a {
            Action::Store { path, .. } => Some(path.clone()),
            _ => None,
        })
        .collect()
}

fn transcodes(actions: &[Action]) -> usize {
    actions.iter().filter(|a| matches!(a, Action::Transcode { .. })).count()
}

fn success_events(flow: Flow, content_type: &str, data: Vec<u8>) -> Vec<Event> {
    let name = match flow {
        Flow::UploadOnly => "file",
        Flow::CreateThenUpload => "video",
    };
    vec![
        Event::Part(part("note", Some("text/plain"), vec![1])),
        Event::Part(part(name, Some(content_type), data)),
        Event::EndOfStream,
        Event::Transcoded { video: vec![7; 10], thumbnail: vec![9; 3] },
        Event::Stored,
        Event::Stored,
        Event::RecordWritten,
    ]
}

#[test]
fn create_then_upload_scenario() {
    let req = CreateVideoRequest {
        title: "Pilot".to_string(),
        description: None,
        owner: "u1".to_string(),
    };
    let (row, resp) = plan_creation(req, "X".to_string(), &state()).ok().unwrap();
    assert_eq!(resp.id, "X");
    assert_eq!(resp.title, "Pilot");
    assert_eq!(resp.upload_url, "/videos/X/upload");
    assert_eq!(row.video_url, "https://store.example/storage/v1/object/public/videos/videos/X.mp4");

    let data = vec![0u8; 5 * 1024 * 1024];
    let (run, actions) = drive(Flow::CreateThenUpload, "X", success_events(Flow::CreateThenUpload, "video/mp4", data));
    assert_eq!(run.stage(), Stage::Done);
    match &actions[3] {
        Action::Transcode { input, content_type, file_name } => {
            assert_eq!(input.len(), 5 * 1024 * 1024);
            assert_eq!(content_type, "video/mp4");
            assert_eq!(file_name, "clip.mov");
        }
        _ => panic!("expected transcoding"),
    }
    let (video_url, thumbnail_url) = match &actions[6] {
        Action::UpdateRecord { id, video_url, thumbnail_url } => {
            assert_eq!(id, "X");
            (video_url.clone(), thumbnail_url.clone())
        }
        _ => panic!("expected a record update"),
    };
    assert!(matches!(&actions[7], Action::Finish(Ok(Receipt { .. }))));

    let stored = Video {
        id: "X".to_string(),
        title: "Pilot".to_string(),
        description: None,
        video_url,
        thumbnail_url: Some(thumbnail_url),
        owner: Some("u1".to_string()),
        created_at: "2024-01-01T00:00:00Z".to_string(),
        likes: 0,
        views: 0,
    };
    let seen = VideoMetadata::from_video(&stored, &state());
    assert!(seen.video_url.ends_with("X.mp4"));
    assert_eq!(
        seen.thumbnail_url.as_deref(),
        Some("https://store.example/storage/v1/object/public/videos/thumbnails/X.jpg")
    );
    assert_eq!(seen.stream_url, "/videos/X/stream");
}

#[test]
fn successful_run_writes_exactly_two_blobs() {
    let (run, actions) = drive(Flow::UploadOnly, "abc", success_events(Flow::UploadOnly, "video/webm", vec![1, 2, 3]));
    assert_eq!(run.stage(), Stage::Done);
    assert_eq!(stored_paths(&actions), vec!["videos/abc.mp4".to_string(), "thumbnails/abc.jpg".to_string()]);
    match &actions[4] {
        Action::Store { content_type, bytes, .. } => {
            assert_eq!(content_type, "video/mp4");
            assert_eq!(bytes, &vec![7; 10]);
        }
        _ => panic!("expected the video write"),
    }
    match &actions[5] {
        Action::Store { content_type, bytes, .. } => {
            assert_eq!(content_type, "image/jpeg");
            assert_eq!(bytes, &vec![9; 3]);
        }
        _ => panic!("expected the thumbnail write"),
    }
    match &actions[6] {
        Action::InsertRecord { id, title, video_url, thumbnail_url } => {
            assert_eq!(id, "abc");
            assert_eq!(title, "clip");
            assert_eq!(video_url, "https://store.example/storage/v1/object/public/videos/videos/abc.mp4");
            assert_eq!(thumbnail_url, "https://store.example/storage/v1/object/public/videos/thumbnails/abc.jpg");
        }
        _ => panic!("expected a record insert"),
    }
    match &actions[7] {
        Action::Finish(Ok(r)) => {
            assert_eq!(r.id, "abc");
            assert!(r.video_url.ends_with("abc.mp4"));
        }
        _ => panic!("expected success"),
    }
}

#[test]
fn image_upload_is_rejected_without_transcoding() {
    let events = vec![Event::Part(part("video", Some("image/png"), vec![1, 2])), Event::EndOfStream];
    let (run, actions) = drive(Flow::CreateThenUpload, "X", events);
    assert_eq!(run.stage(), Stage::Failed(Failure::WrongContentType));
    assert_eq!(transcodes(&actions), 0);
    assert!(stored_paths(&actions).is_empty());
    match actions.last().unwrap() {
        Action::Finish(Err(f)) => assert_eq!(f.status_code(), 400),
        _ => panic!("expected a rejection"),
    }
}

#[test]
fn empty_buffer_is_rejected_without_transcoding() {
    let events = vec![Event::Part(part("file", Some("video/mp4"), vec![])), Event::EndOfStream];
    let (run, actions) = drive(Flow::UploadOnly, "a", events);
    assert_eq!(run.stage(), Stage::Failed(Failure::EmptyContent));
    assert_eq!(transcodes(&actions), 0);
}

#[test]
fn missing_part_is_rejected() {
    let events = vec![Event::Part(part("video", Some("video/mp4"), vec![1])), Event::EndOfStream];
    let (run, actions) = drive(Flow::UploadOnly, "a", events);
    assert_eq!(run.stage(), Stage::Failed(Failure::MissingContent));
    assert_eq!(transcodes(&actions), 0);
    assert!(Failure::MissingContent.is_client_error());
}

#[test]
fn file_part_without_type_counts_as_mp4() {
    let mut p = part("file", None, vec![5]);
    p.file_name = None;
    let (run, actions) = drive(Flow::UploadOnly, "a", vec![Event::Part(p), Event::EndOfStream]);
    assert_eq!(run.stage(), Stage::Transcoding);
    match &actions[2] {
        Action::Transcode { content_type, file_name, .. } => {
            assert_eq!(content_type, "video/mp4");
            assert_eq!(file_name, "video.mp4");
        }
        _ => panic!("expected transcoding"),
    }
}

#[test]
fn video_part_without_type_is_rejected() {
    let events = vec![Event::Part(part("video", None, vec![1])), Event::EndOfStream];
    let (run, _) = drive(Flow::CreateThenUpload, "a", events);
    assert_eq!(run.stage(), Stage::Failed(Failure::WrongContentType));
}

#[test]
fn wrong_thumbnail_type_is_rejected() {
    let events = vec![
        Event::Part(part("video", Some("video/mp4"), vec![1])),
        Event::Part(part("thumbnail", Some("text/plain"), vec![2])),
        Event::EndOfStream,
    ];
    let (run, actions) = drive(Flow::CreateThenUpload, "a", events);
    assert_eq!(run.stage(), Stage::Failed(Failure::WrongThumbnailType));
    assert_eq!(transcodes(&actions), 0);
}

#[test]
fn client_thumbnail_replaces_extracted_frame() {
    let events = vec![
        Event::Part(part("thumbnail", Some("image/jpeg"), vec![4, 4])),
        Event::Part(part("video", Some("video/mp4"), vec![1])),
        Event::EndOfStream,
        Event::Transcoded { video: vec![7], thumbnail: vec![9] },
        Event::Stored,
    ];
    let (_, actions) = drive(Flow::CreateThenUpload, "a", events);
    match actions.last().unwrap() {
        Action::Store { path, bytes, .. } => {
            assert_eq!(path, "thumbnails/a.jpg");
            assert_eq!(bytes, &vec![4, 4]);
        }
        _ => panic!("expected the thumbnail write"),
    }
}

#[test]
fn later_file_part_replaces_earlier() {
    let events = vec![
        Event::Part(part("file", Some("video/mp4"), vec![1])),
        Event::Part(part("file", Some("video/ogg"), vec![2, 2])),
        Event::EndOfStream,
    ];
    let (_, actions) = drive(Flow::UploadOnly, "a", events);
    match actions.last().unwrap() {
        Action::Transcode { input, content_type, .. } => {
            assert_eq!(input, &vec![2, 2]);
            assert_eq!(content_type, "video/ogg");
        }
        _ => panic!("expected transcoding"),
    }
}

#[test]
fn transcode_failure_stops_before_storage() {
    let events = vec![
        Event::Part(part("file", Some("video/mp4"), vec![1])),
        Event::EndOfStream,
        Event::TranscodeFailed(TranscodeError::EncodeFailed),
    ];
    let (run, actions) = drive(Flow::UploadOnly, "a", events);
    assert_eq!(run.stage(), Stage::Failed(Failure::Transcode(TranscodeError::EncodeFailed)));
    assert!(stored_paths(&actions).is_empty());
    assert_eq!(Failure::Transcode(TranscodeError::EncodeFailed).status_code(), 500);
}

#[test]
fn staging_failure_is_a_server_error() {
    let events = vec![
        Event::Part(part("file", Some("video/mp4"), vec![1])),
        Event::EndOfStream,
        Event::StagingFailed,
    ];
    let (run, _) = drive(Flow::UploadOnly, "a", events);
    assert_eq!(run.stage(), Stage::Failed(Failure::Staging));
    assert_eq!(Failure::Staging.status_code(), 500);
}

#[test]
fn video_store_failure_skips_thumbnail() {
    let events = vec![
        Event::Part(part("file", Some("video/mp4"), vec![1])),
        Event::EndOfStream,
        Event::Transcoded { video: vec![1], thumbnail: vec![2] },
        Event::from_store_status(Some(503)),
    ];
    let (run, actions) = drive(Flow::UploadOnly, "a", events);
    assert_eq!(run.stage(), Stage::Failed(Failure::Storage(Some(503))));
    assert_eq!(stored_paths(&actions), vec!["videos/a.mp4".to_string()]);
}

#[test]
fn record_failure_after_uploads() {
    let events = vec![
        Event::Part(part("video", Some("video/mp4"), vec![1])),
        Event::EndOfStream,
        Event::Transcoded { video: vec![1], thumbnail: vec![2] },
        Event::from_store_status(Some(200)),
        Event::from_store_status(Some(201)),
        Event::from_record_result(Err(RepoError::Undecodable)),
    ];
    let (run, actions) = drive(Flow::CreateThenUpload, "a", events);
    assert_eq!(run.stage(), Stage::Failed(Failure::Metadata(None)));
    assert_eq!(stored_paths(&actions).len(), 2);
}

#[test]
fn malformed_stream_is_a_client_error() {
    let (run, _) = drive(Flow::UploadOnly, "a", vec![Event::Malformed]);
    assert_eq!(run.stage(), Stage::Failed(Failure::MalformedStream));
    assert_eq!(Failure::MalformedStream.status_code(), 400);
}

#[test]
fn out_of_order_event_fails_the_run() {
    let (run, _) = drive(Flow::UploadOnly, "a", vec![Event::Stored]);
    assert_eq!(run.stage(), Stage::Failed(Failure::OutOfOrder));
}

#[test]
fn finished_run_repeats_its_answer() {
    let mut events = success_events(Flow::UploadOnly, "video/mp4", vec![1]);
    events.push(Event::EndOfStream);
    let (run, actions) = drive(Flow::UploadOnly, "a", events);
    assert_eq!(run.stage(), Stage::Done);
    assert!(matches!(actions.last().unwrap(), Action::Finish(Ok(_))));
}

#[test]
fn store_status_events() {
    assert!(matches!(Event::from_store_status(Some(200)), Event::Stored));
    assert!(matches!(Event::from_store_status(Some(299)), Event::Stored));
    assert!(matches!(Event::from_store_status(Some(300)), Event::StoreFailed(Some(300))));
    assert!(matches!(Event::from_store_status(None), Event::StoreFailed(None)));
    assert!(matches!(Event::from_record_result(Ok(())), Event::RecordWritten));
    assert!(matches!(Event::from_record_result(Err(RepoError::Upstream(Some(409)))), Event::RecordFailed(Some(409))));
    assert!(matches!(Event::from_record_result(Err(RepoError::NotFound)), Event::RecordFailed(None)));
}

#[test]
fn upload_only_run_gets_fresh_id() {
    let (a, first) = Ingest::upload_only(&state());
    let (b, _) = Ingest::upload_only(&state());
    assert!(matches!(first, Action::ReadPart));
    assert_eq!(a.id().len(), 36);
    assert_ne!(a.id(), b.id());
    assert_eq!(a.stage(), Stage::Receiving);
}

#[test]
fn creation_requires_title_and_owner() {
    let no_title = CreateVideoRequest { title: String::new(), description: None, owner: "u1".to_string() };
    assert!(matches!(plan_creation(no_title, "X".to_string(), &state()), Err(CreateError::EmptyTitle)));
    let no_owner = CreateVideoRequest { title: "T".to_string(), description: None, owner: String::new() };
    let r = plan_creation(no_owner, "X".to_string(), &state());
    assert!(matches!(r, Err(CreateError::EmptyOwner)));
    assert_eq!(CreateError::EmptyOwner.status_code(), 400);
}
