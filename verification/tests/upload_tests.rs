use imgcap::caption::{ModelReply, Resolver};
use imgcap::upload::{drain_request, new_object_key, Upload, UploadAction};

fn begin_with_bucket(bucket: &str) -> Upload {
    match Upload::begin(Some(bucket.to_string())) {
        Ok(u) => u,
        Err(e) => panic!("begin failed: {} {}", e.status, e.body),
    }
}

#[test]
fn missing_bucket_fails_fast_with_server_error() {
    match Upload::begin(None) {
        Ok(_) => panic!("must not start without a bucket"),
        Err(e) => {
            assert_eq!(e.status, 500);
            assert_eq!(e.body, "Server error: missing bucket name.");
        }
    }
}

#[test]
fn empty_stream_yields_no_file_uploaded() {
    let mut u = begin_with_bucket("pics");
    let reply = u.on_stream_end();
    assert_eq!(reply.status, 400);
    assert_eq!(reply.body, "No file uploaded.");
}

#[test]
fn fields_without_content_yield_no_file_uploaded() {
    let mut u = begin_with_bucket("pics");
    match u.on_field_end() {
        UploadAction::Continue => {}
        _ => panic!("an empty field must be skipped"),
    }
    match u.on_field_end() {
        UploadAction::Continue => {}
        _ => panic!("an empty field must be skipped"),
    }
    let reply = u.on_stream_end();
    assert_eq!(reply.status, 400);
    assert_eq!(reply.body, "No file uploaded.");
}

#[test]
fn chunk_error_aborts_with_bad_request() {
    let mut u = begin_with_bucket("pics");
    u.on_chunk(vec![1, 2, 3]);
    let reply = u.on_chunk_error();
    assert_eq!(reply.status, 400);
    assert_eq!(reply.body, "Error reading file chunk.");
}

#[test]
fn chunks_are_accumulated_in_arrival_order() {
    let mut u = begin_with_bucket("pics");
    u.on_chunk(vec![1, 2]);
    u.on_chunk(vec![]);
    u.on_chunk(vec![3]);
    match u.on_field_end() {
        UploadAction::Put { bucket, data, .. } => {
            assert_eq!(bucket, "pics");
            assert_eq!(data, vec![1, 2, 3]);
        }
        _ => panic!("a content-bearing field must be submitted"),
    }
}

#[test]
fn key_is_a_uuid_with_jpg_suffix() {
    let mut u = begin_with_bucket("pics");
    u.on_chunk(vec![9]);
    match u.on_field_end() {
        UploadAction::Put { key, .. } => {
            assert_eq!(key.len(), 40);
            assert!(key.ends_with(".jpg"));
            assert!(uuid::Uuid::parse_str(&key[..36]).is_ok());
        }
        _ => panic!("a content-bearing field must be submitted"),
    }
}

#[test]
fn two_uploads_of_identical_bytes_get_distinct_keys() {
    let payload = vec![42u8; 16];
    let mut first = begin_with_bucket("pics");
    first.on_chunk(payload.clone());
    let first_key = match first.on_field_end() {
        UploadAction::Put { key, .. } => key,
        _ => panic!("a content-bearing field must be submitted"),
    };
    let mut second = begin_with_bucket("pics");
    second.on_chunk(payload);
    let second_key = match second.on_field_end() {
        UploadAction::Put { key, .. } => key,
        _ => panic!("a content-bearing field must be submitted"),
    };
    assert_ne!(first_key, second_key);
}

#[test]
fn fresh_object_keys_are_distinct() {
    let a = new_object_key();
    let b = new_object_key();
    assert_ne!(a, b);
    assert!(a.ends_with(".jpg"));
    assert_eq!(a.len(), 40);
}

#[test]
fn store_failure_short_circuits_captioning() {
    let mut inference_calls: u32 = 0;
    let mut u = begin_with_bucket("pics");
    u.on_chunk(vec![5, 5]);
    match u.on_field_end() {
        UploadAction::Put { .. } => {}
        _ => panic!("a content-bearing field must be submitted"),
    }
    let reply = match u.on_store_result(false) {
        UploadAction::Reply(r) => r,
        UploadAction::Caption { .. } => {
            inference_calls += 1;
            panic!("captioning must not start after a failed write");
        }
        _ => panic!("a failed write must end the upload"),
    };
    assert_eq!(reply.status, 500);
    assert_eq!(reply.body, "Upload to S3 failed.");
    assert_eq!(inference_calls, 0);
}

#[test]
fn successful_store_queries_caption_for_public_url() {
    let mut u = begin_with_bucket("pics");
    u.on_chunk(vec![5]);
    let key = match u.on_field_end() {
        UploadAction::Put { key, .. } => key,
        _ => panic!("a content-bearing field must be submitted"),
    };
    match u.on_store_result(true) {
        UploadAction::Caption { url } => {
            assert_eq!(
                url,
                format!("https://pics.s3.ap-south-1.amazonaws.com/{}", key)
            );
        }
        _ => panic!("a successful write must query a caption"),
    }
}

#[test]
fn caption_failure_still_reports_upload_success() {
    let mut u = begin_with_bucket("pics");
    u.on_chunk(vec![5]);
    let key = match u.on_field_end() {
        UploadAction::Put { key, .. } => key,
        _ => panic!("a content-bearing field must be submitted"),
    };
    match u.on_store_result(true) {
        UploadAction::Caption { .. } => {}
        _ => panic!("a successful write must query a caption"),
    }
    let reply = u.on_caption_result(None);
    assert_eq!(reply.status, 200);
    assert_eq!(reply.body, format!("Uploaded: {}, but caption failed.", key));
}

#[test]
fn draining_a_request_without_content_rejects_it() {
    let mut u = begin_with_bucket("pics");
    let fields: Vec<Vec<Vec<u8>>> = vec![vec![], vec![], vec![]];
    match drain_request(&mut u, &fields) {
        UploadAction::Reply(e) => {
            assert_eq!(e.status, 400);
            assert_eq!(e.body, "No file uploaded.");
        }
        _ => panic!("a request without content must be rejected"),
    }
}

#[test]
fn draining_takes_only_the_first_content_bearing_field() {
    let mut u = begin_with_bucket("pics");
    let fields: Vec<Vec<Vec<u8>>> = vec![
        vec![],
        vec![vec![1, 2], vec![3]],
        vec![vec![9, 9, 9]],
    ];
    match drain_request(&mut u, &fields) {
        UploadAction::Put { bucket, data, .. } => {
            assert_eq!(bucket, "pics");
            assert_eq!(data, vec![1, 2, 3]);
        }
        _ => panic!("the first content-bearing field must be submitted"),
    }
}

#[test]
fn full_upload_with_model_fallback_scenario() {
    let mut u = begin_with_bucket("bucket");
    u.on_chunk(vec![0xFF, 0xD8, 0xFF]);
    let key = match u.on_field_end() {
        UploadAction::Put { key, .. } => key,
        _ => panic!("a content-bearing field must be submitted"),
    };
    match u.on_store_result(true) {
        UploadAction::Caption { .. } => {}
        _ => panic!("a successful write must query a caption"),
    }

    let models = vec!["A".to_string(), "B".to_string(), "C".to_string()];
    let mut resolver = Resolver::new(models);
    let mut caption: Option<String> = None;
    // A answers HTTP 503; B answers 200 with an empty list; C answers with
    // one generated text.
    let scripted = vec![
        ModelReply::Unavailable,
        ModelReply::Texts(vec![]),
        ModelReply::Texts(vec!["a cat on a table".to_string()]),
    ];
    let mut queried: u32 = 0;
    for reply in &scripted {
        if resolver.pending().is_none() {
            break;
        }
        queried += 1;
        if let Some(text) = resolver.absorb(reply) {
            caption = Some(text);
            break;
        }
    }
    assert_eq!(queried, 3);
    let reply = u.on_caption_result(caption);
    assert_eq!(reply.status, 200);
    assert_eq!(
        reply.body,
        format!("Uploaded + Caption: {}\na cat on a table", key)
    );
}
