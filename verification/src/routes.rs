//! The relay's three routes, as pure decisions: what to fetch upstream and
//! with which headers, and what to answer for each upstream outcome. The
//! network I/O itself stands outside the library; these functions take its
//! results as values.
use vstd::prelude::*;

use crate::bytes::{dec_digits, lit, lit_vec, u64_to_dec, ascii_lower, contains_seq,
    ends_with_seq, to_ascii_lower, contains_sub, ends_with};
use crate::headers::{
    apply_common_headers, common_headers, flv_headers, flv_request_headers, headers_view,
    image_headers, image_request_headers,
};
use crate::rewrite::{rewrite_playlist, rewritten_playlist};
use crate::urltext::{normal_of, parse_url_normalized, path_of, url_path};

verus! {

/// What a route does before any fetch: answer at once, or fetch `url` with
/// `headers`.
pub enum FetchPlan {
    Reject { status: u16, body: Vec<u8> },
    Fetch { url: Vec<u8>, headers: Vec<(Vec<u8>, Vec<u8>)> },
}

/// What a route answers: a streamed body with a fixed content type, a fully
/// buffered body (with an explicit length header where `explicit_length`),
/// or an error text.
pub enum RelayResponse {
    Stream { status: u16, content_type: Vec<u8> },
    Buffered { status: u16, content_type: Vec<u8>, body: Vec<u8>, explicit_length: bool },
    Error { status: u16, body: Vec<u8> },
}

/// An upstream status forwarded where it is a well-formed HTTP status, and
/// an internal server error otherwise.
pub open spec fn pass_status(code: u16) -> u16 {
    if 100 <= code <= 599 {
        code
    } else {
        500
    }
}

/// The upstream status means success.
pub open spec fn is_success(code: u16) -> bool {
    200 <= code < 300
}

fn pass_status_exec(code: u16) -> (r: u16)
    ensures
        r == pass_status(code),
{
    if 100 <= code && code <= 599 {
        code
    } else {
        500
    }
}

/// The media route's plan: with no stream target set it answers not-found
/// at once; otherwise it fetches the target with the media header set.
pub fn flv_proxy_plan(target: &[u8]) -> (p: FetchPlan)
    ensures
        target@.len() == 0 <==> p is Reject,
        p matches FetchPlan::Reject { status, body } ==> status == 404 && body@ == lit(
            "Stream URL is not set or empty.",
        ),
        p matches FetchPlan::Fetch { url, headers } ==> url@ == target@ && headers_view(headers@)
            == flv_headers(target@),
{
    if target.len() == 0 {
        FetchPlan::Reject { status: 404, body: lit_vec("Stream URL is not set or empty.") }
    } else {
        FetchPlan::Fetch {
            url: vstd::slice::slice_to_vec(target),
            headers: flv_request_headers(target),
        }
    }
}

/// How a media-route fetch went: the upstream connected with a status (and,
/// on a non-success status, an error body), or the connection itself
/// failed.
pub enum FlvOutcome {
    Connected { status: u16, detail: Vec<u8> },
    ConnectFailed { error: Vec<u8> },
}

/// The media route's error body for a non-success upstream status.
pub open spec fn flv_upstream_error_body(url: Seq<u8>, code: u16, detail: Seq<u8>) -> Seq<u8> {
    lit("Error fetching FLV stream from upstream (reqwest): ") + url + lit(". Status: ")
        + dec_digits(code as nat) + lit(". Details: ") + detail
}

/// The media route's error body for a failed connection.
pub open spec fn flv_connect_error_body(url: Seq<u8>, error: Seq<u8>) -> Seq<u8> {
    lit("Error connecting to upstream FLV stream ") + url + lit(" with reqwest: ") + error
}

/// The media route's answer for an upstream outcome: a successful upstream
/// body is streamed through as FLV; a non-success status is passed through
/// with a descriptive body; a failed connection is an internal error.
pub fn flv_proxy_response(url: &[u8], outcome: FlvOutcome) -> (r: RelayResponse)
    ensures
        outcome matches FlvOutcome::Connected { status: c, detail } ==> (
        if is_success(c) {
            r matches RelayResponse::Stream { status, content_type } && status == 200
                && content_type@ == lit("video/x-flv")
        } else {
            r matches RelayResponse::Error { status, body } && status == pass_status(c) && body@
                == flv_upstream_error_body(url@, c, detail@)
        }),
        outcome matches FlvOutcome::ConnectFailed { error } ==> (r matches RelayResponse::Error {
            status,
            body,
        } && status == 500 && body@ == flv_connect_error_body(url@, error@)),
{
    match outcome {
        FlvOutcome::Connected { status, detail } => {
            if 200 <= status && status < 300 {
                RelayResponse::Stream { status: 200, content_type: lit_vec("video/x-flv") }
            } else {
                let mut body = lit_vec("Error fetching FLV stream from upstream (reqwest): ");
                let mut part = vstd::slice::slice_to_vec(url);
                body.append(&mut part);
                let mut sep = lit_vec(". Status: ");
                body.append(&mut sep);
                let mut digits = u64_to_dec(status as u64);
                body.append(&mut digits);
                let mut sep2 = lit_vec(". Details: ");
                body.append(&mut sep2);
                let mut d = detail;
                body.append(&mut d);
                RelayResponse::Error { status: pass_status_exec(status), body }
            }
        },
        FlvOutcome::ConnectFailed { error } => {
            let mut body = lit_vec("Error connecting to upstream FLV stream ");
            let mut part = vstd::slice::slice_to_vec(url);
            body.append(&mut part);
            let mut sep = lit_vec(" with reqwest: ");
            body.append(&mut sep);
            let mut e = error;
            body.append(&mut e);
            RelayResponse::Error { status: 500, body }
        },
    }
}

/// The image route's plan: a missing or empty `url` query parameter is a
/// bad request; otherwise the URL is fetched with an image-biased Accept.
pub fn image_proxy_plan(url_param: &[u8]) -> (p: FetchPlan)
    ensures
        url_param@.len() == 0 <==> p is Reject,
        p matches FetchPlan::Reject { status, body } ==> status == 400 && body@ == lit(
            "Missing url query parameter",
        ),
        p matches FetchPlan::Fetch { url, headers } ==> url@ == url_param@ && headers_view(headers@)
            == image_headers(url_param@),
{
    if url_param.len() == 0 {
        FetchPlan::Reject { status: 400, body: lit_vec("Missing url query parameter") }
    } else {
        FetchPlan::Fetch {
            url: vstd::slice::slice_to_vec(url_param),
            headers: image_request_headers(url_param),
        }
    }
}

/// How an image-route fetch went: a fully read body (with the upstream's
/// content type where it had a readable one), a body that could not be
/// read, a non-success status, or a failed connection.
pub enum ImageOutcome {
    Body { content_type: Option<Vec<u8>>, bytes: Vec<u8> },
    ReadFailed { error: Vec<u8> },
    HttpError { status: u16, detail: Vec<u8> },
    ConnectFailed { error: Vec<u8> },
}

/// The fallback content type where upstream named none.
pub open spec fn default_content_type() -> Seq<u8> {
    lit("application/octet-stream")
}

/// The content type to forward: the upstream's, or the fallback.
pub open spec fn forwarded_content_type(ct: Option<Vec<u8>>) -> Seq<u8> {
    match ct {
        Some(v) => v@,
        None => default_content_type(),
    }
}

/// The image route's error body for a non-success upstream status.
pub open spec fn image_upstream_error_body(url: Seq<u8>, code: u16, detail: Seq<u8>) -> Seq<u8> {
    lit("Error fetching IMAGE from upstream (reqwest): ") + url + lit(". Status: ") + dec_digits(
        code as nat,
    ) + lit(". Details: ") + detail
}

/// The image route's answer for an upstream outcome: a read body is
/// forwarded fully buffered with an explicit length; everything else is an
/// error with the upstream's status where one was received.
pub fn image_proxy_response(url: &[u8], outcome: ImageOutcome) -> (r: RelayResponse)
    ensures
        outcome matches ImageOutcome::Body { content_type, bytes } ==> (
        r matches RelayResponse::Buffered { status, content_type: ct, body, explicit_length }
            && status == 200 && ct@ == forwarded_content_type(content_type) && body@ == bytes@
            && explicit_length),
        outcome matches ImageOutcome::ReadFailed { error } ==> (r matches RelayResponse::Error {
            status,
            body,
        } && status == 500 && body@ == lit("Failed to read image bytes: ") + error@),
        outcome matches ImageOutcome::HttpError { status: c, detail } ==> (
        r matches RelayResponse::Error { status, body } && status == pass_status(c) && body@
            == image_upstream_error_body(url@, c, detail@)),
        outcome matches ImageOutcome::ConnectFailed { error } ==> (
        r matches RelayResponse::Error { status, body } && status == 500 && body@ == lit(
            "Error connecting to upstream IMAGE ",
        ) + url@ + lit(": ") + error@),
{
    match outcome {
        ImageOutcome::Body { content_type, bytes } => {
            let ct: Vec<u8> = match content_type {
                Some(v) => v,
                None => lit_vec("application/octet-stream"),
            };
            RelayResponse::Buffered {
                status: 200,
                content_type: ct,
                body: bytes,
                explicit_length: true,
            }
        },
        ImageOutcome::ReadFailed { error } => {
            let mut body = lit_vec("Failed to read image bytes: ");
            let mut e = error;
            body.append(&mut e);
            RelayResponse::Error { status: 500, body }
        },
        ImageOutcome::HttpError { status, detail } => {
            let mut body = lit_vec("Error fetching IMAGE from upstream (reqwest): ");
            let mut part = vstd::slice::slice_to_vec(url);
            body.append(&mut part);
            let mut sep = lit_vec(". Status: ");
            body.append(&mut sep);
            let mut digits = u64_to_dec(status as u64);
            body.append(&mut digits);
            let mut sep2 = lit_vec(". Details: ");
            body.append(&mut sep2);
            let mut d = detail;
            body.append(&mut d);
            RelayResponse::Error { status: pass_status_exec(status), body }
        },
        ImageOutcome::ConnectFailed { error } => {
            let mut body = lit_vec("Error connecting to upstream IMAGE ");
            let mut part = vstd::slice::slice_to_vec(url);
            body.append(&mut part);
            let mut sep = lit_vec(": ");
            body.append(&mut sep);
            let mut e = error;
            body.append(&mut e);
            RelayResponse::Error { status: 500, body }
        },
    }
}

/// The HLS route's plan: a missing or empty `url` parameter, or one that is
/// not a well-formed absolute URL, is a bad request; otherwise the
/// normalised URL is fetched with the common header set.
pub fn hls_proxy_plan(url_param: &[u8]) -> (p: FetchPlan)
    ensures
        p is Reject <==> (url_param@.len() == 0 || normal_of(url_param@) is None),
        p matches FetchPlan::Reject { status, body } ==> status == 400 && (
        if url_param@.len() == 0 {
            body@ == lit("Missing url query parameter")
        } else {
            body@ == lit("Invalid url")
        }),
        p matches FetchPlan::Fetch { url, headers } ==> normal_of(url_param@) == Some(url@)
            && headers_view(headers@) == common_headers(url@),
{
    if url_param.len() == 0 {
        return FetchPlan::Reject { status: 400, body: lit_vec("Missing url query parameter") };
    }
    match parse_url_normalized(url_param) {
        None => FetchPlan::Reject { status: 400, body: lit_vec("Invalid url") },
        Some(url) => {
            let headers = apply_common_headers(url.as_slice());
            FetchPlan::Fetch { url, headers }
        },
    }
}

/// The fetched resource is an HLS playlist: its URL path ends in `.m3u8`,
/// or its content type names `mpegurl` or `m3u8`, case-insensitively.
pub open spec fn spec_is_playlist(url: Seq<u8>, content_type: Seq<u8>) -> bool {
    (match path_of(url) {
        Some(p) => ends_with_seq(ascii_lower(p), lit(".m3u8")),
        None => false,
    }) || contains_seq(ascii_lower(content_type), lit("mpegurl")) || contains_seq(
        ascii_lower(content_type),
        lit("m3u8"),
    )
}

/// Decide whether the fetched resource is a playlist to rewrite or binary
/// data to stream through.
pub fn hls_is_playlist(url: &[u8], content_type: &[u8]) -> (b: bool)
    ensures
        b == spec_is_playlist(url@, content_type@),
{
    let by_path: bool = match url_path(url) {
        Some(p) => {
            let low = to_ascii_lower(p.as_slice());
            let suffix = lit_vec(".m3u8");
            ends_with(low.as_slice(), suffix.as_slice())
        },
        None => false,
    };
    if by_path {
        return true;
    }
    let low_ct = to_ascii_lower(content_type);
    let m1 = lit_vec("mpegurl");
    let m2 = lit_vec("m3u8");
    contains_sub(low_ct.as_slice(), m1.as_slice()) || contains_sub(low_ct.as_slice(), m2.as_slice())
}

/// How an HLS-route fetch went. `Playlist` carries the playlist text of a
/// successful fetch the route will rewrite; `Binary` a successful fetch to
/// stream through; the rest mirror the other routes.
pub enum HlsOutcome {
    Playlist { text: Vec<u8> },
    TextFailed { error: Vec<u8> },
    Binary { content_type: Option<Vec<u8>> },
    HttpError { status: u16, detail: Vec<u8> },
    ConnectFailed { error: Vec<u8> },
}

/// The HLS route's error body for a non-success upstream status.
pub open spec fn hls_upstream_error_body(url: Seq<u8>, code: u16, detail: Seq<u8>) -> Seq<u8> {
    lit("Error fetching HLS resource from upstream: ") + url + lit(". Status: ") + dec_digits(
        code as nat,
    ) + lit(". Details: ") + detail
}

/// The HLS route's answer: playlist text is rewritten against the fetched
/// URL and answered as the HLS mime type; binary data streams through with
/// the upstream's content type; errors mirror the other routes.
pub fn hls_proxy_response(url: &[u8], outcome: HlsOutcome) -> (r: RelayResponse)
    ensures
        outcome matches HlsOutcome::Playlist { text } ==> (r matches RelayResponse::Buffered {
            status,
            content_type,
            body,
            explicit_length,
        } && status == 200 && content_type@ == lit("application/vnd.apple.mpegurl") && body@
            == rewritten_playlist(text@, url@) && !explicit_length),
        outcome matches HlsOutcome::TextFailed { error } ==> (r matches RelayResponse::Error {
            status,
            body,
        } && status == 500 && body@ == lit("Failed to read playlist text: ") + error@),
        outcome matches HlsOutcome::Binary { content_type } ==> (
        r matches RelayResponse::Stream { status, content_type: ct } && status == 200 && ct@
            == forwarded_content_type(content_type)),
        outcome matches HlsOutcome::HttpError { status: c, detail } ==> (
        r matches RelayResponse::Error { status, body } && status == pass_status(c) && body@
            == hls_upstream_error_body(url@, c, detail@)),
        outcome matches HlsOutcome::ConnectFailed { error } ==> (
        r matches RelayResponse::Error { status, body } && status == 500 && body@ == lit(
            "Error connecting to upstream HLS ",
        ) + url@ + lit(": ") + error@),
{
    match outcome {
        HlsOutcome::Playlist { text } => {
            let body = rewrite_playlist(text.as_slice(), url);
            RelayResponse::Buffered {
                status: 200,
                content_type: lit_vec("application/vnd.apple.mpegurl"),
                body,
                explicit_length: false,
            }
        },
        HlsOutcome::TextFailed { error } => {
            let mut body = lit_vec("Failed to read playlist text: ");
            let mut e = error;
            body.append(&mut e);
            RelayResponse::Error { status: 500, body }
        },
        HlsOutcome::Binary { content_type } => {
            let ct: Vec<u8> = match content_type {
                Some(v) => v,
                None => lit_vec("application/octet-stream"),
            };
            RelayResponse::Stream { status: 200, content_type: ct }
        },
        HlsOutcome::HttpError { status, detail } => {
            let mut body = lit_vec("Error fetching HLS resource from upstream: ");
            let mut part = vstd::slice::slice_to_vec(url);
            body.append(&mut part);
            let mut sep = lit_vec(". Status: ");
            body.append(&mut sep);
            let mut digits = u64_to_dec(status as u64);
            body.append(&mut digits);
            let mut sep2 = lit_vec(". Details: ");
            body.append(&mut sep2);
            let mut d = detail;
            body.append(&mut d);
            RelayResponse::Error { status: pass_status_exec(status), body }
        },
        HlsOutcome::ConnectFailed { error } => {
            let mut body = lit_vec("Error connecting to upstream HLS ");
            let mut part = vstd::slice::slice_to_vec(url);
            body.append(&mut part);
            let mut sep = lit_vec(": ");
            body.append(&mut sep);
            let mut e = error;
            body.append(&mut e);
            RelayResponse::Error { status: 500, body }
        },
    }
}

} // verus!
