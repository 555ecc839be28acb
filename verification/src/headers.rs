//! Header policy: every upstream request carries a fixed desktop-browser
//! identity, and hosts of known platforms get the Referer/Origin pair their
//! anti-leech checks demand. Pure in the request URL; first matching
//! platform family wins.
use vstd::prelude::*;

use crate::bytes::{contains_seq, contains_sub, lit, lit_vec};

verus! {

/// Header lists as sequences of (name, value) byte strings.
pub open spec fn headers_view(hs: Seq<(Vec<u8>, Vec<u8>)>) -> Seq<(Seq<u8>, Seq<u8>)> {
    hs.map_values(|h: (Vec<u8>, Vec<u8>)| (h.0@, h.1@))
}

/// The fixed desktop-browser User-Agent sent upstream.
pub open spec fn ua_value() -> Seq<u8> {
    lit(
        "Mozilla/5.0 (Windows NT 10.0; Win64; x64) AppleWebKit/537.36 (KHTML, like Gecko) Chrome/120.0.0.0 Safari/537.36",
    )
}

/// Headers every upstream request carries.
pub open spec fn baseline_headers() -> Seq<(Seq<u8>, Seq<u8>)> {
    seq![
        (lit("User-Agent"), ua_value()),
        (lit("Accept"), lit("*/*")),
        (lit("Connection"), lit("keep-alive")),
    ]
}

/// The URL points into the video-CDN platform family.
pub open spec fn is_bili_host(url: Seq<u8>) -> bool {
    contains_seq(url, lit("hdslb.com")) || contains_seq(url, lit("bilibili.com"))
}

/// The URL points into the live-streaming platform family.
pub open spec fn is_huya_host(url: Seq<u8>) -> bool {
    contains_seq(url, lit("huya.com")) || contains_seq(url, lit("hy-cdn.com")) || contains_seq(
        url,
        lit("huyaimg.com"),
    )
}

/// The URL points into the short-video platform family.
pub open spec fn is_douyin_host(url: Seq<u8>) -> bool {
    contains_seq(url, lit("douyin")) || contains_seq(url, lit("douyinpic.com"))
}

/// The anti-leech headers a platform's hosts require; the first matching
/// family wins, unknown hosts get none.
pub open spec fn platform_headers(url: Seq<u8>) -> Seq<(Seq<u8>, Seq<u8>)> {
    if is_bili_host(url) {
        seq![
            (lit("Referer"), lit("https://live.bilibili.com/")),
            (lit("Origin"), lit("https://live.bilibili.com")),
        ]
    } else if is_huya_host(url) {
        seq![
            (lit("Referer"), lit("https://www.huya.com/")),
            (lit("Origin"), lit("https://www.huya.com")),
        ]
    } else if is_douyin_host(url) {
        seq![(lit("Referer"), lit("https://www.douyin.com/"))]
    } else {
        Seq::empty()
    }
}

/// The full header set of an ordinary upstream request.
pub open spec fn common_headers(url: Seq<u8>) -> Seq<(Seq<u8>, Seq<u8>)> {
    baseline_headers() + platform_headers(url)
}

fn push_header(hs: &mut Vec<(Vec<u8>, Vec<u8>)>, name: &str, value: &str)
    ensures
        headers_view(final(hs)@) =~= headers_view(old(hs)@).push((lit(name), lit(value))),
{
    hs.push((lit_vec(name), lit_vec(value)));
}

/// Baseline identity headers plus the matching platform's anti-leech pair.
pub fn apply_common_headers(url: &[u8]) -> (hs: Vec<(Vec<u8>, Vec<u8>)>)
    ensures
        headers_view(hs@) =~= common_headers(url@),
{
    let mut hs: Vec<(Vec<u8>, Vec<u8>)> = Vec::new();
    push_header(
        &mut hs,
        "User-Agent",
        "Mozilla/5.0 (Windows NT 10.0; Win64; x64) AppleWebKit/537.36 (KHTML, like Gecko) Chrome/120.0.0.0 Safari/537.36",
    );
    push_header(&mut hs, "Accept", "*/*");
    push_header(&mut hs, "Connection", "keep-alive");
    let bili = {
        let a = lit_vec("hdslb.com");
        let b = lit_vec("bilibili.com");
        contains_sub(url, a.as_slice()) || contains_sub(url, b.as_slice())
    };
    let huya = {
        let a = lit_vec("huya.com");
        let b = lit_vec("hy-cdn.com");
        let c = lit_vec("huyaimg.com");
        contains_sub(url, a.as_slice()) || contains_sub(url, b.as_slice()) || contains_sub(
            url,
            c.as_slice(),
        )
    };
    let douyin = {
        let a = lit_vec("douyin");
        let b = lit_vec("douyinpic.com");
        contains_sub(url, a.as_slice()) || contains_sub(url, b.as_slice())
    };
    if bili {
        push_header(&mut hs, "Referer", "https://live.bilibili.com/");
        push_header(&mut hs, "Origin", "https://live.bilibili.com");
    } else if huya {
        push_header(&mut hs, "Referer", "https://www.huya.com/");
        push_header(&mut hs, "Origin", "https://www.huya.com");
    } else if douyin {
        push_header(&mut hs, "Referer", "https://www.douyin.com/");
    }
    hs
}

/// The Accept value the image route asks with.
pub open spec fn image_accept() -> Seq<u8> {
    lit("image/avif,image/webp,image/apng,image/*;q=0.8,*/*;q=0.5")
}

/// Image requests append an image-biased Accept after the common headers.
pub open spec fn image_headers(url: Seq<u8>) -> Seq<(Seq<u8>, Seq<u8>)> {
    common_headers(url).push((lit("Accept"), image_accept()))
}

/// Header set of an image-route upstream request.
pub fn image_request_headers(url: &[u8]) -> (hs: Vec<(Vec<u8>, Vec<u8>)>)
    ensures
        headers_view(hs@) =~= image_headers(url@),
{
    let mut hs = apply_common_headers(url);
    push_header(&mut hs, "Accept", "image/avif,image/webp,image/apng,image/*;q=0.8,*/*;q=0.5");
    hs
}

/// The URL points into the video CDN the media route must send a Referer to.
pub open spec fn is_bili_video_host(url: Seq<u8>) -> bool {
    contains_seq(url, lit("bilivideo")) || contains_seq(url, lit("bilibili.com")) || contains_seq(
        url,
        lit("hdslb.com"),
    )
}

/// Header set of a media-route upstream request: streaming Accept, an
/// explicit byte range from zero, and the anti-leech headers of both
/// matching families (they stack rather than compete here).
pub open spec fn flv_headers(url: Seq<u8>) -> Seq<(Seq<u8>, Seq<u8>)> {
    let base = seq![
        (lit("User-Agent"), ua_value()),
        (lit("Accept"), lit("video/x-flv,application/octet-stream,*/*")),
        (lit("Range"), lit("bytes=0-")),
        (lit("Connection"), lit("keep-alive")),
    ];
    let with_huya = if is_huya_host(url) {
        base + seq![
            (lit("Referer"), lit("https://www.huya.com/")),
            (lit("Origin"), lit("https://www.huya.com")),
        ]
    } else {
        base
    };
    if is_bili_video_host(url) {
        with_huya.push((lit("Referer"), lit("https://live.bilibili.com/")))
    } else {
        with_huya
    }
}

/// Header set of a media-route upstream request.
pub fn flv_request_headers(url: &[u8]) -> (hs: Vec<(Vec<u8>, Vec<u8>)>)
    ensures
        headers_view(hs@) =~= flv_headers(url@),
{
    let mut hs: Vec<(Vec<u8>, Vec<u8>)> = Vec::new();
    push_header(
        &mut hs,
        "User-Agent",
        "Mozilla/5.0 (Windows NT 10.0; Win64; x64) AppleWebKit/537.36 (KHTML, like Gecko) Chrome/120.0.0.0 Safari/537.36",
    );
    push_header(&mut hs, "Accept", "video/x-flv,application/octet-stream,*/*");
    push_header(&mut hs, "Range", "bytes=0-");
    push_header(&mut hs, "Connection", "keep-alive");
    let huya = {
        let a = lit_vec("huya.com");
        let b = lit_vec("hy-cdn.com");
        let c = lit_vec("huyaimg.com");
        contains_sub(url, a.as_slice()) || contains_sub(url, b.as_slice()) || contains_sub(
            url,
            c.as_slice(),
        )
    };
    if huya {
        push_header(&mut hs, "Referer", "https://www.huya.com/");
        push_header(&mut hs, "Origin", "https://www.huya.com");
    }
    let bili_video = {
        let a = lit_vec("bilivideo");
        let b = lit_vec("bilibili.com");
        let c = lit_vec("hdslb.com");
        contains_sub(url, a.as_slice()) || contains_sub(url, b.as_slice()) || contains_sub(
            url,
            c.as_slice(),
        )
    };
    if bili_video {
        push_header(&mut hs, "Referer", "https://live.bilibili.com/");
    }
    hs
}

} // verus!
