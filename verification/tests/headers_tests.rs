use live_relay::headers::{apply_common_headers, flv_request_headers, image_request_headers};

const UA: &[u8] = b"Mozilla/5.0 (Windows NT 10.0; Win64; x64) AppleWebKit/537.36 (KHTML, like Gecko) Chrome/120.0.0.0 Safari/537.36";

fn names(hs: &[(Vec<u8>, Vec<u8>)]) -> Vec<Vec<u8>> {
    hs.iter().map(|h| h.0.clone()).collect()
}

#[test]
fn baseline_headers_for_unknown_host() {
    let hs = apply_common_headers(b"https://other.example.com/x");
    assert_eq!(hs.len(), 3);
    assert_eq!(hs[0], (b"User-Agent".to_vec(), UA.to_vec()));
    assert_eq!(hs[1], (b"Accept".to_vec(), b"*/*".to_vec()));
    assert_eq!(hs[2], (b"Connection".to_vec(), b"keep-alive".to_vec()));
}

#[test]
fn bilibili_hosts_get_referer_and_origin() {
    let hs = apply_common_headers(b"https://i0.hdslb.com/a.jpg");
    assert_eq!(hs.len(), 5);
    assert_eq!(hs[3], (b"Referer".to_vec(), b"https://live.bilibili.com/".to_vec()));
    assert_eq!(hs[4], (b"Origin".to_vec(), b"https://live.bilibili.com".to_vec()));
}

#[test]
fn huya_hosts_get_referer_and_origin() {
    let hs = apply_common_headers(b"https://tx.hy-cdn.com/x.flv");
    assert_eq!(hs.len(), 5);
    assert_eq!(hs[3], (b"Referer".to_vec(), b"https://www.huya.com/".to_vec()));
    assert_eq!(hs[4], (b"Origin".to_vec(), b"https://www.huya.com".to_vec()));
}

#[test]
fn douyin_hosts_get_referer_only() {
    let hs = apply_common_headers(b"https://p3.douyinpic.com/a.webp");
    assert_eq!(hs.len(), 4);
    assert_eq!(hs[3], (b"Referer".to_vec(), b"https://www.douyin.com/".to_vec()));
}

#[test]
fn first_matching_family_wins() {
    // A URL naming both families gets only the first family's pair.
    let hs = apply_common_headers(b"https://bilibili.com/?r=huya.com");
    assert_eq!(hs.len(), 5);
    assert_eq!(hs[3].1, b"https://live.bilibili.com/".to_vec());
}

#[test]
fn image_requests_append_an_image_accept() {
    let hs = image_request_headers(b"https://other.example.com/a.png");
    assert_eq!(hs.len(), 4);
    assert_eq!(
        hs[3],
        (
            b"Accept".to_vec(),
            b"image/avif,image/webp,image/apng,image/*;q=0.8,*/*;q=0.5".to_vec()
        )
    );
}

#[test]
fn media_requests_carry_streaming_accept_and_range() {
    let hs = flv_request_headers(b"https://other.example.com/live.flv");
    assert_eq!(
        names(&hs),
        vec![
            b"User-Agent".to_vec(),
            b"Accept".to_vec(),
            b"Range".to_vec(),
            b"Connection".to_vec(),
        ]
    );
    assert_eq!(hs[1].1, b"video/x-flv,application/octet-stream,*/*".to_vec());
    assert_eq!(hs[2].1, b"bytes=0-".to_vec());
}

#[test]
fn media_requests_stack_both_families() {
    let hs = flv_request_headers(b"https://pull.huya.com/x?cdn=bilivideo");
    assert_eq!(hs.len(), 7);
    assert_eq!(hs[4], (b"Referer".to_vec(), b"https://www.huya.com/".to_vec()));
    assert_eq!(hs[5], (b"Origin".to_vec(), b"https://www.huya.com".to_vec()));
    assert_eq!(hs[6], (b"Referer".to_vec(), b"https://live.bilibili.com/".to_vec()));
}
