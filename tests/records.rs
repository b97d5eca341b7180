use video_ingest::catalog::create_video;
use video_ingest::models::{AppState, CreateShowResponse, CreateVideoRequest, Video, VideoMetadata};
use video_ingest::removal::{Removal, RemovalAction, RemovalEvent, RemovalStage};
use video_ingest::repository::{like_toggle, view_increment, RepoError};
use video_ingest::shows::{check_genre, created_show_id, ShowError};

fn state() -> AppState {
    AppState {
        supabase_url: "https://store.example".to_string(),
        supabase_api_key: "key".to_string(),
        supabase_bucket: "media".to_string(),
    }
}

fn video(id: &str, video_url: &str, thumbnail_url: Option<&str>) -> Video {
    Video {
        id: id.to_string(),
        title: "T".to_string(),
        description: Some("d".to_string()),
        video_url: video_url.to_string(),
        thumbnail_url: thumbnail_url.map(|t| t.to_string()),
        owner: None,
        created_at: "2024-05-01".to_string(),
        likes: 3,
        views: 8,
    }
}

fn remove(id: &str, events: Vec<RemovalEvent>) -> (Removal, Vec<RemovalAction>) {
    let (mut r, first) = Removal::new(id.to_string());
    let mut actions = vec![first];
    for e in events {
        let (next, a) = r.step(e);
        r = next;
        actions.push(a);
    }
    (r, actions)
}

#[test]
fn missing_record_is_not_found() {
    assert_eq!(RepoError::check_single(406), Err(RepoError::NotFound));
    assert_eq!(RepoError::NotFound.status_code(), 404);
    let (r, actions) = remove("nope", vec![RemovalEvent::LookedUp(RepoError::check_single(406))]);
    assert_eq!(r.stage(), RemovalStage::Failed(RepoError::NotFound));
    assert!(matches!(actions.last().unwrap(), RemovalAction::Finish(Err(RepoError::NotFound))));
}

#[test]
fn store_statuses() {
    assert_eq!(RepoError::check_single(200), Ok(()));
    assert_eq!(RepoError::check_single(500), Err(RepoError::Upstream(Some(500))));
    assert_eq!(RepoError::check(201), Ok(()));
    assert_eq!(RepoError::check(406), Err(RepoError::Upstream(Some(406))));
    assert_eq!(RepoError::Upstream(None).status_code(), 500);
    assert_eq!(RepoError::Undecodable.status_code(), 500);
}

#[test]
fn deletion_ignores_blob_failures() {
    let events = vec![
        RemovalEvent::LookedUp(Ok(())),
        RemovalEvent::RecordDeleted(Ok(())),
        RemovalEvent::BlobDeleted(false),
        RemovalEvent::BlobDeleted(false),
    ];
    let (r, actions) = remove("v1", events);
    assert_eq!(r.stage(), RemovalStage::Done);
    match (&actions[1], &actions[2], &actions[3]) {
        (RemovalAction::DeleteRecord { id }, RemovalAction::DeleteBlob { path: p1 }, RemovalAction::DeleteBlob { path: p2 }) => {
            assert_eq!(id, "v1");
            assert_eq!(p1, "videos/v1.mp4");
            assert_eq!(p2, "thumbnails/v1.jpg");
        }
        _ => panic!("expected record then blob deletions"),
    }
    assert!(matches!(actions[4], RemovalAction::Finish(Ok(()))));
}

#[test]
fn record_deletion_failure_propagates() {
    let events = vec![RemovalEvent::LookedUp(Ok(())), RemovalEvent::RecordDeleted(RepoError::check(500))];
    let (r, actions) = remove("v1", events);
    assert_eq!(r.stage(), RemovalStage::Failed(RepoError::Upstream(Some(500))));
    assert_eq!(actions.len(), 3);
}

#[test]
fn unexpected_event_repeats_pending_deletion_step() {
    let (r, actions) = remove("v1", vec![RemovalEvent::BlobDeleted(true)]);
    assert_eq!(r.stage(), RemovalStage::LookingUp);
    assert!(matches!(&actions[1], RemovalAction::Lookup { id } if id == "v1"));
}

#[test]
fn metadata_resolves_urls() {
    let s = state();
    let m = VideoMetadata::from_video(&video("v1", "/videos/v1/stream", Some("thumbnails/v1.jpg")), &s);
    assert_eq!(m.video_url, "https://store.example/storage/v1/object/public/media/videos/v1.mp4");
    assert_eq!(m.thumbnail_url.as_deref(), Some("https://store.example/storage/v1/object/public/media/thumbnails/v1.jpg"));
    assert_eq!(m.stream_url, "/videos/v1/stream");
    assert_eq!(m.likes, 3);
    assert_eq!(m.views, 8);
    assert_eq!(m.description.as_deref(), Some("d"));

    let abs = VideoMetadata::from_video(&video("v2", "http://cdn.example/v2.mp4", None), &s);
    assert_eq!(abs.video_url, "http://cdn.example/v2.mp4");
    assert_eq!(abs.thumbnail_url, None);
}

#[test]
fn list_keeps_order() {
    let vs = vec![video("b", "x", None), video("a", "y", None)];
    let ms = VideoMetadata::from_videos(&vs, &state());
    assert_eq!(ms.len(), 2);
    assert_eq!(ms[0].id, "b");
    assert_eq!(ms[1].id, "a");
    assert!(VideoMetadata::from_videos(&Vec::new(), &state()).is_empty());
}

#[test]
fn created_records_get_distinct_ids() {
    let req = || CreateVideoRequest { title: "Pilot".to_string(), description: Some("x".to_string()), owner: "u1".to_string() };
    let (row1, resp1) = create_video(req(), &state()).ok().unwrap();
    let (row2, _) = create_video(req(), &state()).ok().unwrap();
    assert_eq!(row1.id.len(), 36);
    assert!(row1.id.chars().all(|c| c.is_ascii_hexdigit() || c == '-'));
    assert_ne!(row1.id, row2.id);
    assert_eq!(resp1.upload_url, format!("/videos/{}/upload", row1.id));
    assert_eq!(row1.video_url, format!("https://store.example/storage/v1/object/public/media/videos/{}.mp4", row1.id));
    assert_eq!(row1.owner, "u1");
    assert_eq!(row1.description.as_deref(), Some("x"));
}

#[test]
fn counters_go_through_procedures() {
    let like = like_toggle("v9");
    assert_eq!(like.name, "toggle_like");
    assert_eq!(like.argument, "video_id");
    assert_eq!(like.value, "v9");
    let view = view_increment("v9");
    assert_eq!(view.name, "increment_views");
    assert_eq!(view.value, "v9");
}

#[test]
fn genres() {
    assert_eq!(check_genre("Romance"), Ok(()));
    assert_eq!(check_genre("Billionare"), Ok(()));
    assert_eq!(check_genre("romance"), Err(ShowError::InvalidGenre));
    assert_eq!(check_genre(""), Err(ShowError::InvalidGenre));
    assert_eq!(ShowError::InvalidGenre.status_code(), 400);
}

#[test]
fn show_id_from_answer() {
    assert_eq!(created_show_id(vec![]), Err(ShowError::NoShowReturned));
    assert_eq!(created_show_id(vec![None]), Err(ShowError::MissingId));
    assert_eq!(created_show_id(vec![Some("s1".to_string()), Some("s2".to_string())]), Ok("s1".to_string()));
    assert_eq!(ShowError::MissingId.status_code(), 500);
    let resp = CreateShowResponse { id: "s1".to_string(), title: "T".to_string() };
    assert_eq!(resp.id, "s1");
}
