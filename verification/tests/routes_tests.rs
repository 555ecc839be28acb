use live_relay::routes::{
    FetchPlan, FlvOutcome, HlsOutcome, ImageOutcome, RelayResponse, flv_proxy_plan,
    flv_proxy_response, hls_is_playlist, hls_proxy_plan, hls_proxy_response, image_proxy_plan,
    image_proxy_response,
};

#[test]
fn media_route_without_target_is_not_found() {
    match flv_proxy_plan(b"") {
        FetchPlan::Reject { status, body } => {
            assert_eq!(status, 404);
            assert_eq!(body, b"Stream URL is not set or empty.".to_vec());
        }
        FetchPlan::Fetch { .. } => panic!("expected a rejection"),
    }
}

#[test]
fn media_route_fetches_target_with_range_header() {
    match flv_proxy_plan(b"https://pull.example.com/live.flv") {
        FetchPlan::Fetch { url, headers } => {
            assert_eq!(url, b"https://pull.example.com/live.flv".to_vec());
            assert!(headers.iter().any(|h| h.0 == b"Range".to_vec() && h.1 == b"bytes=0-".to_vec()));
        }
        FetchPlan::Reject { .. } => panic!("expected a fetch"),
    }
}

#[test]
fn media_route_streams_successful_upstream() {
    let r = flv_proxy_response(
        b"https://pull.example.com/live.flv",
        FlvOutcome::Connected { status: 200, detail: Vec::new() },
    );
    match r {
        RelayResponse::Stream { status, content_type } => {
            assert_eq!(status, 200);
            assert_eq!(content_type, b"video/x-flv".to_vec());
        }
        _ => panic!("expected a streamed response"),
    }
}

#[test]
fn media_route_passes_upstream_status_through() {
    let r = flv_proxy_response(
        b"https://pull.example.com/live.flv",
        FlvOutcome::Connected { status: 403, detail: b"forbidden".to_vec() },
    );
    match r {
        RelayResponse::Error { status, body } => {
            assert_eq!(status, 403);
            assert_eq!(
                body,
                b"Error fetching FLV stream from upstream (reqwest): https://pull.example.com/live.flv. Status: 403. Details: forbidden".to_vec()
            );
        }
        _ => panic!("expected an error response"),
    }
}

#[test]
fn media_route_reports_connection_failure() {
    let r = flv_proxy_response(b"u", FlvOutcome::ConnectFailed { error: b"refused".to_vec() });
    match r {
        RelayResponse::Error { status, body } => {
            assert_eq!(status, 500);
            assert_eq!(
                body,
                b"Error connecting to upstream FLV stream u with reqwest: refused".to_vec()
            );
        }
        _ => panic!("expected an error response"),
    }
}

#[test]
fn image_route_without_url_is_bad_request() {
    match image_proxy_plan(b"") {
        FetchPlan::Reject { status, body } => {
            assert_eq!(status, 400);
            assert_eq!(body, b"Missing url query parameter".to_vec());
        }
        FetchPlan::Fetch { .. } => panic!("expected a rejection"),
    }
}

#[test]
fn image_route_buffers_body_with_explicit_length() {
    let r = image_proxy_response(
        b"https://img.example.com/a.png",
        ImageOutcome::Body { content_type: Some(b"image/png".to_vec()), bytes: vec![1, 2, 3] },
    );
    match r {
        RelayResponse::Buffered { status, content_type, body, explicit_length } => {
            assert_eq!(status, 200);
            assert_eq!(content_type, b"image/png".to_vec());
            assert_eq!(body, vec![1, 2, 3]);
            assert!(explicit_length);
        }
        _ => panic!("expected a buffered response"),
    }
}

#[test]
fn image_route_defaults_missing_content_type() {
    let r = image_proxy_response(
        b"u",
        ImageOutcome::Body { content_type: None, bytes: Vec::new() },
    );
    match r {
        RelayResponse::Buffered { content_type, .. } => {
            assert_eq!(content_type, b"application/octet-stream".to_vec());
        }
        _ => panic!("expected a buffered response"),
    }
}

#[test]
fn image_route_reports_read_failure() {
    let r = image_proxy_response(b"u", ImageOutcome::ReadFailed { error: b"eof".to_vec() });
    match r {
        RelayResponse::Error { status, body } => {
            assert_eq!(status, 500);
            assert_eq!(body, b"Failed to read image bytes: eof".to_vec());
        }
        _ => panic!("expected an error response"),
    }
}

#[test]
fn image_route_passes_upstream_status_through() {
    let r = image_proxy_response(
        b"https://img.example.com/a.png",
        ImageOutcome::HttpError { status: 404, detail: b"gone".to_vec() },
    );
    match r {
        RelayResponse::Error { status, body } => {
            assert_eq!(status, 404);
            assert_eq!(
                body,
                b"Error fetching IMAGE from upstream (reqwest): https://img.example.com/a.png. Status: 404. Details: gone".to_vec()
            );
        }
        _ => panic!("expected an error response"),
    }
}

#[test]
fn hls_route_without_url_is_bad_request() {
    match hls_proxy_plan(b"") {
        FetchPlan::Reject { status, body } => {
            assert_eq!(status, 400);
            assert_eq!(body, b"Missing url query parameter".to_vec());
        }
        FetchPlan::Fetch { .. } => panic!("expected a rejection"),
    }
}

#[test]
fn hls_route_rejects_unparsable_url() {
    match hls_proxy_plan(b"not a url") {
        FetchPlan::Reject { status, body } => {
            assert_eq!(status, 400);
            assert_eq!(body, b"Invalid url".to_vec());
        }
        FetchPlan::Fetch { .. } => panic!("expected a rejection"),
    }
}

#[test]
fn hls_route_fetches_the_normalised_url() {
    match hls_proxy_plan(b"HTTPS://CDN.Example.com/live/index.m3u8") {
        FetchPlan::Fetch { url, .. } => {
            assert_eq!(url, b"https://cdn.example.com/live/index.m3u8".to_vec());
        }
        FetchPlan::Reject { .. } => panic!("expected a fetch"),
    }
}

#[test]
fn playlist_detection_uses_path_and_content_type() {
    assert!(hls_is_playlist(b"https://cdn.example.com/live/INDEX.M3U8", b"text/plain"));
    assert!(hls_is_playlist(b"https://cdn.example.com/seg.ts", b"application/vnd.apple.MpegURL"));
    assert!(hls_is_playlist(b"https://cdn.example.com/seg.ts", b"audio/x-m3u8"));
    assert!(!hls_is_playlist(b"https://cdn.example.com/seg.ts", b"video/mp2t"));
    // The path, not the whole URL, decides: a query after the suffix does
    // not hide it, and a playlist-like query on a segment does not fake it.
    assert!(hls_is_playlist(b"https://cdn.example.com/index.m3u8?fmt=ts", b"video/mp2t"));
    assert!(!hls_is_playlist(b"https://cdn.example.com/seg.ts?name=x.m3u8", b"video/mp2t"));
}

#[test]
fn hls_route_rewrites_playlists() {
    let r = hls_proxy_response(
        b"https://cdn.example.com/live/index.m3u8",
        HlsOutcome::Playlist { text: b"#EXTM3U\nsegment1.ts".to_vec() },
    );
    match r {
        RelayResponse::Buffered { status, content_type, body, explicit_length } => {
            assert_eq!(status, 200);
            assert_eq!(content_type, b"application/vnd.apple.mpegurl".to_vec());
            assert_eq!(
                body,
                b"#EXTM3U\n/hls?url=https%3A%2F%2Fcdn.example.com%2Flive%2Fsegment1.ts".to_vec()
            );
            assert!(!explicit_length);
        }
        _ => panic!("expected a buffered response"),
    }
}

#[test]
fn hls_route_streams_binary_data() {
    let r = hls_proxy_response(
        b"https://cdn.example.com/seg.ts",
        HlsOutcome::Binary { content_type: Some(b"video/mp2t".to_vec()) },
    );
    match r {
        RelayResponse::Stream { status, content_type } => {
            assert_eq!(status, 200);
            assert_eq!(content_type, b"video/mp2t".to_vec());
        }
        _ => panic!("expected a streamed response"),
    }
}

#[test]
fn hls_route_passes_upstream_status_through() {
    let r = hls_proxy_response(
        b"u",
        HlsOutcome::HttpError { status: 502, detail: b"bad gateway".to_vec() },
    );
    match r {
        RelayResponse::Error { status, body } => {
            assert_eq!(status, 502);
            assert_eq!(
                body,
                b"Error fetching HLS resource from upstream: u. Status: 502. Details: bad gateway".to_vec()
            );
        }
        _ => panic!("expected an error response"),
    }
}

#[test]
fn hls_route_reports_text_read_failure() {
    let r = hls_proxy_response(b"u", HlsOutcome::TextFailed { error: b"eof".to_vec() });
    match r {
        RelayResponse::Error { status, body } => {
            assert_eq!(status, 500);
            assert_eq!(body, b"Failed to read playlist text: eof".to_vec());
        }
        _ => panic!("expected an error response"),
    }
}
