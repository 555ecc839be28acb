use live_relay::douyin::{
    RoomDoc, collect_available_streams, douyin_live_stream_info, empty_room_id_info,
    enforce_https, extract_anchor_name, extract_avatar, extract_web_rid, first_flv_stream,
    normalize_quality_tag,
};

fn bare_doc() -> RoomDoc {
    RoomDoc {
        status: None,
        title: None,
        anchor_name_top: None,
        owner_nickname: None,
        anchor_nickname: None,
        owner_web_rid: None,
        anchor_web_rid: None,
        top_web_rid: None,
        owner_avatar_first: None,
        anchor_avatar_first: None,
        flv_streams: Vec::new(),
    }
}

#[test]
fn quality_tags_normalise_to_the_three_known_values() {
    assert_eq!(normalize_quality_tag(b"OD"), b"OD".to_vec());
    assert_eq!(normalize_quality_tag(b" od "), b"OD".to_vec());
    assert_eq!(normalize_quality_tag(b"bd"), b"BD".to_vec());
    assert_eq!(normalize_quality_tag(b"Uhd"), b"UHD".to_vec());
    assert_eq!(normalize_quality_tag("原画".as_bytes()), b"OD".to_vec());
    assert_eq!(normalize_quality_tag("高清".as_bytes()), b"BD".to_vec());
    assert_eq!(normalize_quality_tag("标清".as_bytes()), b"UHD".to_vec());
    assert_eq!(normalize_quality_tag(b"anything else"), b"OD".to_vec());
}

#[test]
fn https_is_enforced_on_plain_http() {
    assert_eq!(
        enforce_https(b"http://pull.example.com/a.flv"),
        b"https://pull.example.com/a.flv".to_vec()
    );
    assert_eq!(
        enforce_https(b"https://pull.example.com/a.flv"),
        b"https://pull.example.com/a.flv".to_vec()
    );
    assert_eq!(enforce_https(b"rtmp://x"), b"rtmp://x".to_vec());
}

#[test]
fn web_rid_fallback_prefers_owner() {
    let mut doc = bare_doc();
    doc.top_web_rid = Some(b"top".to_vec());
    assert_eq!(extract_web_rid(&doc), Some(b"top".to_vec()));
    doc.anchor_web_rid = Some(b"anchor".to_vec());
    assert_eq!(extract_web_rid(&doc), Some(b"anchor".to_vec()));
    doc.owner_web_rid = Some(b"owner".to_vec());
    assert_eq!(extract_web_rid(&doc), Some(b"owner".to_vec()));
}

#[test]
fn anchor_name_fallback_order() {
    let mut doc = bare_doc();
    assert_eq!(extract_anchor_name(&doc), None);
    doc.anchor_nickname = Some(b"c".to_vec());
    assert_eq!(extract_anchor_name(&doc), Some(b"c".to_vec()));
    doc.owner_nickname = Some(b"b".to_vec());
    assert_eq!(extract_anchor_name(&doc), Some(b"b".to_vec()));
    doc.anchor_name_top = Some(b"a".to_vec());
    assert_eq!(extract_anchor_name(&doc), Some(b"a".to_vec()));
}

#[test]
fn avatar_fallback_prefers_owner() {
    let mut doc = bare_doc();
    doc.anchor_avatar_first = Some(b"anchor.png".to_vec());
    assert_eq!(extract_avatar(&doc), Some(b"anchor.png".to_vec()));
    doc.owner_avatar_first = Some(b"owner.png".to_vec());
    assert_eq!(extract_avatar(&doc), Some(b"owner.png".to_vec()));
}

#[test]
fn stream_variants_mirror_the_document() {
    let mut doc = bare_doc();
    assert!(collect_available_streams(&doc).is_none());
    doc.flv_streams = vec![
        (b"FULL_HD1".to_vec(), b"http://pull.example.com/full.flv".to_vec()),
        (b"HD1".to_vec(), b"https://pull.example.com/hd.flv".to_vec()),
    ];
    let vs = collect_available_streams(&doc).unwrap();
    assert_eq!(vs.len(), 2);
    assert_eq!(vs[0].url, b"http://pull.example.com/full.flv".to_vec());
    assert_eq!(vs[0].format, Some(b"flv".to_vec()));
    assert_eq!(vs[0].desc, Some(b"FULL_HD1".to_vec()));
    assert_eq!(vs[0].qn, None);
    assert_eq!(vs[0].protocol, Some(b"http".to_vec()));
    assert_eq!(vs[1].protocol, Some(b"https".to_vec()));
}

#[test]
fn first_flv_stream_takes_document_order() {
    let mut doc = bare_doc();
    assert!(first_flv_stream(&doc).is_none());
    doc.flv_streams = vec![
        (b"FULL_HD1".to_vec(), b"u1".to_vec()),
        (b"HD1".to_vec(), b"u2".to_vec()),
    ];
    assert_eq!(
        first_flv_stream(&doc),
        Some((b"FULL_HD1".to_vec(), b"u1".to_vec()))
    );
}

#[test]
fn empty_room_id_answers_an_error_message() {
    let info = empty_room_id_info();
    assert_eq!(
        info.error_message,
        Some(b"Douyin web_id cannot be empty.".to_vec())
    );
    assert!(info.stream_url.is_none());
    assert!(info.status.is_none());
}

#[test]
fn offline_room_answers_metadata_only() {
    let mut doc = bare_doc();
    doc.status = Some(4);
    doc.title = Some(b"gone".to_vec());
    doc.flv_streams = vec![(b"FULL_HD1".to_vec(), b"u1".to_vec())];
    let info = douyin_live_stream_info(&doc, b"norm-1", None).unwrap();
    assert_eq!(info.status, Some(4));
    assert_eq!(info.title, Some(b"gone".to_vec()));
    assert!(info.stream_url.is_none());
    assert!(info.upstream_url.is_none());
    assert_eq!(info.web_rid, Some(b"norm-1".to_vec()));
}

#[test]
fn live_room_answers_the_chosen_stream_upgraded_to_https() {
    let mut doc = bare_doc();
    doc.status = Some(2);
    doc.owner_web_rid = Some(b"w-9".to_vec());
    doc.flv_streams = vec![(b"FULL_HD1".to_vec(), b"http://pull.example.com/full.flv".to_vec())];
    let chosen = Some((b"HD1".to_vec(), b"http://pull.example.com/hd.flv".to_vec()));
    let info = douyin_live_stream_info(&doc, b"norm-1", chosen).unwrap();
    assert_eq!(info.stream_url, Some(b"https://pull.example.com/hd.flv".to_vec()));
    assert_eq!(info.upstream_url, Some(b"https://pull.example.com/hd.flv".to_vec()));
    assert_eq!(info.web_rid, Some(b"w-9".to_vec()));
}

#[test]
fn live_room_falls_back_to_the_first_stream() {
    let mut doc = bare_doc();
    doc.status = Some(2);
    doc.flv_streams = vec![(b"FULL_HD1".to_vec(), b"http://pull.example.com/full.flv".to_vec())];
    let info = douyin_live_stream_info(&doc, b"n", None).unwrap();
    assert_eq!(info.stream_url, Some(b"https://pull.example.com/full.flv".to_vec()));
}

#[test]
fn live_room_without_streams_is_an_error() {
    let mut doc = bare_doc();
    doc.status = Some(2);
    let r = douyin_live_stream_info(&doc, b"n", None);
    assert_eq!(
        r.err(),
        Some(b"[Douyin Stream Detail] No FLV streams available in stream_url.flv_pull_url".to_vec())
    );
}
