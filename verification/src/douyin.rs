//! The short-video platform adapter's pure core: a plain-value model of the
//! fetched room document, the metadata fallback chains read out of it, and
//! the assembly of the answer handed to the player. Fetching and JSON
//! decoding stand outside the library; they fill `RoomDoc`.
use vstd::prelude::*;

use crate::bytes::{idx_of, find_byte, lit, lit_vec, starts_with, starts_with_seq, to_ascii_upper,
    trim_bytes, trim_spec, ascii_upper, bytes_eq};

verus! {

/// One stream variant offered by a room document.
pub struct StreamVariant {
    pub url: Vec<u8>,
    pub format: Option<Vec<u8>>,
    pub desc: Option<Vec<u8>>,
    pub qn: Option<u64>,
    pub protocol: Option<Vec<u8>>,
}

/// What the adapter reads out of a fetched room document, as plain values:
/// each metadata field that some fallback chain looks at, and the FLV pull
/// URLs in document order.
pub struct RoomDoc {
    /// `status`, where the document carried a number.
    pub status: Option<i64>,
    /// `title`.
    pub title: Option<Vec<u8>>,
    /// `anchor_name` at the top level.
    pub anchor_name_top: Option<Vec<u8>>,
    /// `owner.nickname`.
    pub owner_nickname: Option<Vec<u8>>,
    /// `anchor.nickname`.
    pub anchor_nickname: Option<Vec<u8>>,
    /// `owner.web_rid`.
    pub owner_web_rid: Option<Vec<u8>>,
    /// `anchor.web_rid`.
    pub anchor_web_rid: Option<Vec<u8>>,
    /// `web_rid` at the top level.
    pub top_web_rid: Option<Vec<u8>>,
    /// First entry of `owner.avatar_thumb.url_list`.
    pub owner_avatar_first: Option<Vec<u8>>,
    /// First entry of `anchor.avatar_thumb.url_list`.
    pub anchor_avatar_first: Option<Vec<u8>>,
    /// `stream_url.flv_pull_url` as (quality key, URL) pairs in document
    /// order; empty where the document offers none.
    pub flv_streams: Vec<(Vec<u8>, Vec<u8>)>,
}

/// The view of an optional byte string.
pub open spec fn opt_view(o: Option<Vec<u8>>) -> Option<Seq<u8>> {
    match o {
        Some(v) => Some(v@),
        None => None,
    }
}

/// The room's web rid: `owner.web_rid`, else `anchor.web_rid`, else the top
/// level `web_rid`.
pub open spec fn spec_web_rid(doc: &RoomDoc) -> Option<Seq<u8>> {
    if doc.owner_web_rid is Some {
        opt_view(doc.owner_web_rid)
    } else if doc.anchor_web_rid is Some {
        opt_view(doc.anchor_web_rid)
    } else {
        opt_view(doc.top_web_rid)
    }
}

/// First hit of the web-rid fallback chain.
pub fn extract_web_rid(doc: &RoomDoc) -> (r: Option<Vec<u8>>)
    ensures
        opt_view(r) == spec_web_rid(doc),
{
    if doc.owner_web_rid.is_some() {
        clone_opt(&doc.owner_web_rid)
    } else if doc.anchor_web_rid.is_some() {
        clone_opt(&doc.anchor_web_rid)
    } else {
        clone_opt(&doc.top_web_rid)
    }
}

/// The anchor's name: the top-level `anchor_name`, else `owner.nickname`,
/// else `anchor.nickname`.
pub open spec fn spec_anchor_name(doc: &RoomDoc) -> Option<Seq<u8>> {
    if doc.anchor_name_top is Some {
        opt_view(doc.anchor_name_top)
    } else if doc.owner_nickname is Some {
        opt_view(doc.owner_nickname)
    } else {
        opt_view(doc.anchor_nickname)
    }
}

/// First hit of the anchor-name fallback chain.
pub fn extract_anchor_name(doc: &RoomDoc) -> (r: Option<Vec<u8>>)
    ensures
        opt_view(r) == spec_anchor_name(doc),
{
    if doc.anchor_name_top.is_some() {
        clone_opt(&doc.anchor_name_top)
    } else if doc.owner_nickname.is_some() {
        clone_opt(&doc.owner_nickname)
    } else {
        clone_opt(&doc.anchor_nickname)
    }
}

/// The anchor's avatar: the owner's first thumb URL, else the anchor's.
pub open spec fn spec_avatar(doc: &RoomDoc) -> Option<Seq<u8>> {
    if doc.owner_avatar_first is Some {
        opt_view(doc.owner_avatar_first)
    } else {
        opt_view(doc.anchor_avatar_first)
    }
}

/// First hit of the avatar fallback chain.
pub fn extract_avatar(doc: &RoomDoc) -> (r: Option<Vec<u8>>)
    ensures
        opt_view(r) == spec_avatar(doc),
{
    if doc.owner_avatar_first.is_some() {
        clone_opt(&doc.owner_avatar_first)
    } else {
        clone_opt(&doc.anchor_avatar_first)
    }
}

fn clone_opt(o: &Option<Vec<u8>>) -> (r: Option<Vec<u8>>)
    ensures
        opt_view(r) == opt_view(*o),
{
    match o {
        Some(v) => Some(vstd::slice::slice_to_vec(v.as_slice())),
        None => None,
    }
}

/// The scheme part of a URL: everything before the first `:`, the whole
/// text where it has none.
pub open spec fn spec_protocol(url: Seq<u8>) -> Seq<u8> {
    url.take(idx_of(url, 58) as int)
}

/// The first FLV stream a room document offers, in document order.
pub fn first_flv_stream(doc: &RoomDoc) -> (r: Option<(Vec<u8>, Vec<u8>)>)
    ensures
        doc.flv_streams@.len() == 0 <==> r is None,
        r matches Some(e) ==> e.0@ == doc.flv_streams@[0].0@ && e.1@ == doc.flv_streams@[0].1@,
{
    if doc.flv_streams.len() == 0 {
        None
    } else {
        let k = vstd::slice::slice_to_vec(doc.flv_streams[0].0.as_slice());
        let u = vstd::slice::slice_to_vec(doc.flv_streams[0].1.as_slice());
        Some((k, u))
    }
}

/// The room's stream variants: one per FLV entry, keyed by its quality
/// description, marked as FLV, with the URL's scheme as protocol; `None`
/// where the document offers no streams.
pub fn collect_available_streams(doc: &RoomDoc) -> (r: Option<Vec<StreamVariant>>)
    ensures
        doc.flv_streams@.len() == 0 <==> r is None,
        r matches Some(vs) ==> vs@.len() == doc.flv_streams@.len() && forall|i: int|
            0 <= i < vs@.len() ==> {
                let e = #[trigger] vs@[i];
                &&& e.url@ == doc.flv_streams@[i].1@
                &&& e.format matches Some(f) && f@ == lit("flv")
                &&& e.desc matches Some(d) && d@ == doc.flv_streams@[i].0@
                &&& e.qn is None
                &&& e.protocol matches Some(p) && p@ == spec_protocol(doc.flv_streams@[i].1@)
            },
{
    let n = doc.flv_streams.len();
    if n == 0 {
        return None;
    }
    let mut vs: Vec<StreamVariant> = Vec::new();
    let mut i: usize = 0;
    while i < n
        invariant
            0 <= i <= n,
            n == doc.flv_streams@.len(),
            vs@.len() == i,
            forall|j: int| 0 <= j < i ==> {
                let e = #[trigger] vs@[j];
                &&& e.url@ == doc.flv_streams@[j].1@
                &&& e.format matches Some(f) && f@ == lit("flv")
                &&& e.desc matches Some(d) && d@ == doc.flv_streams@[j].0@
                &&& e.qn is None
                &&& e.protocol matches Some(p) && p@ == spec_protocol(doc.flv_streams@[j].1@)
            },
        decreases n - i,
    {
        let key = vstd::slice::slice_to_vec(doc.flv_streams[i].0.as_slice());
        let url = vstd::slice::slice_to_vec(doc.flv_streams[i].1.as_slice());
        let cut = find_byte(url.as_slice(), 58);
        proof {
            crate::bytes::lemma_idx_of(url@, 58);
        }
        let protocol = vstd::slice::slice_to_vec(vstd::slice::slice_subrange(
            url.as_slice(),
            0,
            cut,
        ));
        vs.push(
            StreamVariant {
                url,
                format: Some(lit_vec("flv")),
                desc: Some(key),
                qn: None,
                protocol: Some(protocol),
            },
        );
        i = i + 1;
    }
    Some(vs)
}

/// The canonical form of the three quality names, `原画` (source), `高清`
/// (high) and `标清` (standard), as their UTF-8 bytes.
pub open spec fn cn_od() -> Seq<u8> {
    seq![229u8, 142u8, 159u8, 231u8, 148u8, 187u8]
}

/// UTF-8 bytes of the high-definition quality name.
pub open spec fn cn_bd() -> Seq<u8> {
    seq![233u8, 171u8, 152u8, 230u8, 184u8, 133u8]
}

/// UTF-8 bytes of the standard-definition quality name.
pub open spec fn cn_uhd() -> Seq<u8> {
    seq![230u8, 160u8, 135u8, 230u8, 184u8, 133u8]
}

/// The quality tag a request is normalised to: the trimmed, upper-cased
/// input mapped onto `OD`, `BD` or `UHD`; anything else falls back to `OD`.
pub open spec fn normalized_quality(input: Seq<u8>) -> Seq<u8> {
    let u = ascii_upper(trim_spec(input));
    if u == lit("OD") || u == cn_od() {
        lit("OD")
    } else if u == lit("BD") || u == cn_bd() {
        lit("BD")
    } else if u == lit("UHD") || u == cn_uhd() {
        lit("UHD")
    } else {
        lit("OD")
    }
}

/// Normalise a requested quality to one of the three known tags.
pub fn normalize_quality_tag(input: &[u8]) -> (r: Vec<u8>)
    ensures
        r@ == normalized_quality(input@),
{
    let t = trim_bytes(input);
    let u = to_ascii_upper(t.as_slice());
    let od = lit_vec("OD");
    let bd = lit_vec("BD");
    let uhd = lit_vec("UHD");
    let c_od: Vec<u8> = vec![229u8, 142u8, 159u8, 231u8, 148u8, 187u8];
    let c_bd: Vec<u8> = vec![233u8, 171u8, 152u8, 230u8, 184u8, 133u8];
    let c_uhd: Vec<u8> = vec![230u8, 160u8, 135u8, 230u8, 184u8, 133u8];
    if bytes_eq(u.as_slice(), od.as_slice()) || bytes_eq(u.as_slice(), c_od.as_slice()) {
        od
    } else if bytes_eq(u.as_slice(), bd.as_slice()) || bytes_eq(u.as_slice(), c_bd.as_slice()) {
        bd
    } else if bytes_eq(u.as_slice(), uhd.as_slice()) || bytes_eq(u.as_slice(), c_uhd.as_slice()) {
        uhd
    } else {
        od
    }
}

/// The scheme prefix `https://`.
pub open spec fn https_prefix() -> Seq<u8> {
    seq![104u8, 116u8, 116u8, 112u8, 115u8, 58u8, 47u8, 47u8]
}

/// The scheme prefix `http://`.
pub open spec fn http_prefix() -> Seq<u8> {
    seq![104u8, 116u8, 116u8, 112u8, 58u8, 47u8, 47u8]
}

/// A URL upgraded to HTTPS: an `http://` scheme is replaced, any other text
/// stands as it is.
pub open spec fn https_enforced(url: Seq<u8>) -> Seq<u8> {
    if starts_with_seq(url, https_prefix()) {
        url
    } else if starts_with_seq(url, http_prefix()) {
        https_prefix() + url.skip(7)
    } else {
        url
    }
}

/// Upgrade a plain-HTTP pull URL to HTTPS.
pub fn enforce_https(url: &[u8]) -> (r: Vec<u8>)
    ensures
        r@ =~= https_enforced(url@),
{
    let https: Vec<u8> = vec![104u8, 116u8, 116u8, 112u8, 115u8, 58u8, 47u8, 47u8];
    let http: Vec<u8> = vec![104u8, 116u8, 116u8, 112u8, 58u8, 47u8, 47u8];
    if starts_with(url, https.as_slice()) {
        vstd::slice::slice_to_vec(url)
    } else if starts_with(url, http.as_slice()) {
        let mut r = https;
        let mut tail = vstd::slice::slice_to_vec(vstd::slice::slice_subrange(url, 7, url.len()));
        r.append(&mut tail);
        r
    } else {
        vstd::slice::slice_to_vec(url)
    }
}

/// What the adapter answers the player: room metadata and, for a live
/// room, the selected pull URL.
pub struct LiveStreamInfo {
    pub title: Option<Vec<u8>>,
    pub anchor_name: Option<Vec<u8>>,
    pub avatar: Option<Vec<u8>>,
    pub stream_url: Option<Vec<u8>>,
    pub status: Option<i64>,
    pub error_message: Option<Vec<u8>>,
    pub upstream_url: Option<Vec<u8>>,
    pub available_streams: Option<Vec<StreamVariant>>,
    pub normalized_room_id: Option<Vec<u8>>,
    pub web_rid: Option<Vec<u8>>,
}

/// The room's status, zero where the document carried none.
pub open spec fn doc_status(doc: &RoomDoc) -> i64 {
    match doc.status {
        Some(s) => s,
        None => 0,
    }
}

/// The room is live.
pub open spec fn is_live(doc: &RoomDoc) -> bool {
    doc_status(doc) == 2
}

/// The answer for an empty requested room id.
pub fn empty_room_id_info() -> (r: LiveStreamInfo)
    ensures
        r.error_message matches Some(m) && m@ == lit("Douyin web_id cannot be empty."),
        r.title is None && r.anchor_name is None && r.avatar is None,
        r.stream_url is None && r.status is None && r.upstream_url is None,
        r.available_streams is None && r.normalized_room_id is None && r.web_rid is None,
{
    LiveStreamInfo {
        title: None,
        anchor_name: None,
        avatar: None,
        stream_url: None,
        status: None,
        error_message: Some(lit_vec("Douyin web_id cannot be empty.")),
        upstream_url: None,
        available_streams: None,
        normalized_room_id: None,
        web_rid: None,
    }
}

/// Assemble the adapter's answer from a fetched room document.
/// `normalized_id` is the requested id after normalisation and stands in
/// for a missing web rid; `selected` is the stream the quality chooser
/// picked, and the document's first FLV stream backs it up. A room that is
/// not live answers metadata only; a live room without any FLV stream is an
/// error.
pub fn douyin_live_stream_info(
    doc: &RoomDoc,
    normalized_id: &[u8],
    selected: Option<(Vec<u8>, Vec<u8>)>,
) -> (r: Result<LiveStreamInfo, Vec<u8>>)
    ensures
        r is Err <==> (is_live(doc) && selected is None && doc.flv_streams@.len() == 0),
        r matches Err(m) ==> m@ == lit(
            "[Douyin Stream Detail] No FLV streams available in stream_url.flv_pull_url",
        ),
        r matches Ok(info) ==> {
            &&& opt_view(info.title) == opt_view(doc.title)
            &&& opt_view(info.anchor_name) == spec_anchor_name(doc)
            &&& opt_view(info.avatar) == spec_avatar(doc)
            &&& info.status == Some(doc_status(doc))
            &&& info.error_message is None
            &&& info.normalized_room_id is None
            &&& info.web_rid matches Some(w) && w@ == (match spec_web_rid(doc) {
                Some(v) => v,
                None => normalized_id@,
            })
            &&& (doc.flv_streams@.len() == 0 <==> info.available_streams is None)
            &&& !is_live(doc) ==> info.stream_url is None && info.upstream_url is None
            &&& is_live(doc) ==> {
                let chosen = (match selected {
                    Some(s) => s.1@,
                    None => doc.flv_streams@[0].1@,
                });
                &&& info.stream_url matches Some(u) && u@ == https_enforced(chosen)
                &&& info.upstream_url matches Some(u2) && u2@ == https_enforced(chosen)
            }
        },
{
    let web_rid: Vec<u8> = match extract_web_rid(doc) {
        Some(v) => v,
        None => vstd::slice::slice_to_vec(normalized_id),
    };
    let status = match doc.status {
        Some(s) => s,
        None => 0,
    };
    let title = clone_opt(&doc.title);
    let anchor_name = extract_anchor_name(doc);
    let avatar = extract_avatar(doc);
    let available_streams = collect_available_streams(doc);
    if status != 2 {
        return Ok(
            LiveStreamInfo {
                title,
                anchor_name,
                avatar,
                stream_url: None,
                status: Some(status),
                error_message: None,
                upstream_url: None,
                available_streams,
                normalized_room_id: None,
                web_rid: Some(web_rid),
            },
        );
    }
    let chosen: (Vec<u8>, Vec<u8>) = match selected {
        Some(s) => s,
        None => {
            match first_flv_stream(doc) {
                Some(f) => f,
                None => {
                    return Err(
                        lit_vec(
                            "[Douyin Stream Detail] No FLV streams available in stream_url.flv_pull_url",
                        ),
                    );
                },
            }
        },
    };
    let sanitized = enforce_https(chosen.1.as_slice());
    let sanitized2 = vstd::slice::slice_to_vec(sanitized.as_slice());
    Ok(
        LiveStreamInfo {
            title,
            anchor_name,
            avatar,
            stream_url: Some(sanitized),
            status: Some(status),
            error_message: None,
            upstream_url: Some(sanitized2),
            available_streams,
            normalized_room_id: None,
            web_rid: Some(web_rid),
        },
    )
}

} // verus!
