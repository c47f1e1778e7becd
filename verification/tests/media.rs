use xurl::error::Error;
use xurl::media::{
    extract_command, extract_media_id, extract_segment_index, finalize_request, init_body, is_media_append_request,
    processing_step, require_media_id, segment_index_for, segment_range, segments_for, upload_file_name,
    waits_for_processing, ProcessingStep, CHUNK_SIZE,
};
use xurl::request::{CallOptions, RequestTarget};

#[test]
fn media_id_from_append_and_finalize_paths() {
    assert_eq!(extract_media_id("https://api.x.com/2/media/upload/123/append"), "123");
    assert_eq!(extract_media_id("https://api.x.com/2/media/upload/456/finalize"), "456");
}

#[test]
fn media_id_from_query_and_misses() {
    assert_eq!(extract_media_id("https://api.x.com/2/media/upload?command=STATUS&media_id=789"), "789");
    assert_eq!(extract_media_id("https://api.x.com/2/media/upload/initialize"), "");
    assert_eq!(extract_media_id("https://api.x.com/2/tweets"), "");
    assert_eq!(extract_media_id(""), "");
}

#[test]
fn command_from_url() {
    assert_eq!(extract_command("https://api.x.com/2/media/upload/123/append"), "append");
    assert_eq!(extract_command("https://api.x.com/2/media/upload/123/finalize"), "finalize");
    assert_eq!(extract_command("https://api.x.com/2/media/upload/initialize"), "initialize");
    assert_eq!(extract_command("https://api.x.com/2/media/upload/123"), "status");
    assert_eq!(extract_command("https://api.x.com/2/tweets"), "");
}

#[test]
fn append_request_detection() {
    assert!(is_media_append_request("https://api.x.com/2/media/upload/1/append", "f.jpg"));
    assert!(!is_media_append_request("https://api.x.com/2/media/upload/1/append", ""));
    assert!(!is_media_append_request("https://api.x.com/2/tweets", "f.jpg"));
}

#[test]
fn segment_index_from_json() {
    assert_eq!(extract_segment_index("{\"segment_index\": 3}"), Some("3".to_string()));
    assert_eq!(extract_segment_index("{\"segment_index\":\"7\"}"), Some("7".to_string()));
    assert_eq!(extract_segment_index("{}"), None);
    assert_eq!(extract_segment_index("not json"), None);
    assert_eq!(segment_index_for(""), "0");
    assert_eq!(segment_index_for("{\"segment_index\": 2}"), "2");
    assert_eq!(segment_index_for("garbage"), "0");
}

#[test]
fn segments_and_ranges() {
    assert_eq!(segments_for(0), 0);
    assert_eq!(segments_for(1), 1);
    assert_eq!(segments_for(CHUNK_SIZE), 1);
    assert_eq!(segments_for(CHUNK_SIZE + 1), 2);
    assert_eq!(segment_range(CHUNK_SIZE + 10, 0), (0, CHUNK_SIZE));
    assert_eq!(segment_range(CHUNK_SIZE + 10, 1), (CHUNK_SIZE, CHUNK_SIZE + 10));
}

#[test]
fn init_body_exact() {
    assert_eq!(
        init_body(1024, "video/mp4", "tweet_video"),
        "{\"media_category\":\"tweet_video\",\"media_type\":\"video/mp4\",\"total_bytes\":1024}"
    );
    assert_eq!(
        init_body(1, "a\"b", "c\\d"),
        "{\"media_category\":\"c\\\\d\",\"media_type\":\"a\\\"b\",\"total_bytes\":1}"
    );
}

#[test]
fn finalize_targets_media_id() {
    let base = CallOptions::default().to_request_options();
    let r = finalize_request(&base, "55");
    assert_eq!(r.method, "POST");
    match r.target {
        RequestTarget::Template { path, path_params, query } => {
            assert_eq!(path, "/2/media/upload/{id}/finalize");
            assert_eq!(path_params, vec![("id".to_string(), "55".to_string())]);
            assert!(query.is_empty());
        }
        other => panic!("unexpected {other:?}"),
    }
}

#[test]
fn processing_steps() {
    assert!(matches!(processing_step(Some("succeeded"), Some(5)), Ok(ProcessingStep::Done)));
    match processing_step(Some("failed"), None) {
        Err(Error::Validation(m)) => assert_eq!(m, "media processing failed"),
        other => panic!("unexpected {other:?}"),
    }
    assert!(matches!(processing_step(Some("in_progress"), Some(5)), Ok(ProcessingStep::Wait(5))));
    assert!(matches!(processing_step(Some("pending"), Some(0)), Ok(ProcessingStep::Wait(1))));
    assert!(matches!(processing_step(None, None), Ok(ProcessingStep::Wait(1))));
}

#[test]
fn processing_only_waited_for_video() {
    assert!(waits_for_processing(true, "tweet_video"));
    assert!(!waits_for_processing(true, "tweet_image"));
    assert!(!waits_for_processing(false, "tweet_video"));
}

#[test]
fn media_id_required() {
    assert!(require_media_id("1").is_ok());
    match require_media_id("") {
        Err(Error::Json(m)) => assert_eq!(m, "failed to parse media ID from init response"),
        other => panic!("unexpected {other:?}"),
    }
}

#[test]
fn file_name_of_path() {
    assert_eq!(upload_file_name("/tmp/dir/photo.jpg"), "photo.jpg");
    assert_eq!(upload_file_name("/"), "file");
}

#[test]
fn raw_append_requires_raw_url() {
    let mut opts = CallOptions::default().to_request_options();
    opts.target = RequestTarget::Template { path: "/2/x\"y".to_string(), path_params: Vec::new(), query: Vec::new() };
    match xurl::media::raw_append_request(&opts, "f.bin") {
        Err(Error::Validation(m)) => assert_eq!(
            m,
            "handle_media_append_request requires a RawUrl target; got Template { path: \"/2/x\\\"y\" } — call this only from the raw-mode path"
        ),
        other => panic!("{other:?}"),
    }
    opts.target = RequestTarget::RawUrl("https://api.x.com/2/media/upload/9/append".to_string());
    opts.data = "{\"segment_index\": 4}".to_string();
    let m = xurl::media::raw_append_request(&opts, "/tmp/clip.mp4").unwrap();
    assert_eq!(m.form_fields, vec![("segment_index".to_string(), "4".to_string())]);
    assert_eq!(m.file_field, "media");
    assert_eq!(m.file_name, "clip.mp4");
    opts.target = RequestTarget::RawUrl("https://api.x.com/2/media/upload/append".to_string());
    assert!(matches!(xurl::media::raw_append_request(&opts, "f"), Err(Error::Validation(_))));
}

#[test]
fn segment_index_of_other_values_is_their_json() {
    assert_eq!(extract_segment_index("{\"segment_index\": [1, 2]}"), Some("[1,2]".to_string()));
    assert_eq!(extract_segment_index("{\"segment_index\": null}"), Some("null".to_string()));
    assert_eq!(extract_segment_index("{\"segment_index\": \"\"}"), Some("".to_string()));
    assert_eq!(segment_index_for("{\"segment_index\": \"\"}"), "0");
}
