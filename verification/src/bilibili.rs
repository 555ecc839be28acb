//! The video platform's web-identity bootstrap, pure core: digging the
//! `access_id` out of a fetched page, preferring the page's render-data
//! block, and the state slot it is cached in. Fetching the page stands
//! outside the library.
use vstd::prelude::*;

use crate::bytes::{find_sub, first_match, lemma_first_match_some, lit, lit_vec};

verus! {

/// The page block searched first.
pub open spec fn render_marker() -> Seq<u8> {
    lit("window._render_data_")
}

/// The primary needle, `"access_id":"`.
pub open spec fn needle_tight() -> Seq<u8> {
    lit("\"access_id\":\"")
}

/// The fallback needle with a space, `"access_id": "`.
pub open spec fn needle_spaced() -> Seq<u8> {
    lit("\"access_id\": \"")
}

/// What stands between the first occurrence of `needle` and the next
/// quote; `None` where either is missing.
pub open spec fn grabbed_after(s: Seq<u8>, needle: Seq<u8>) -> Option<Seq<u8>> {
    match first_match(s, needle) {
        None => None,
        Some(i) => {
            let rest = s.subrange(i + needle.len(), s.len() as int);
            match first_match(rest, seq![34u8]) {
                None => None,
                Some(e) => Some(rest.subrange(0, e)),
            }
        },
    }
}

/// One scan of a text: the primary needle where it occurs (even if no
/// closing quote follows it), else the spaced needle.
pub open spec fn scanned(s: Seq<u8>) -> Option<Seq<u8>> {
    if first_match(s, needle_tight()) is Some {
        grabbed_after(s, needle_tight())
    } else {
        grabbed_after(s, needle_spaced())
    }
}

/// The `access_id` of a fetched page: scanned inside the render-data block
/// first, with a whole-page scan as fallback.
pub open spec fn spec_access_id(text: Seq<u8>) -> Option<Seq<u8>> {
    let from_block = match first_match(text, render_marker()) {
        None => None,
        Some(b) => scanned(text.subrange(b, text.len() as int)),
    };
    match from_block {
        Some(v) => Some(v),
        None => scanned(text),
    }
}

fn grab_after(s: &[u8], needle: &[u8]) -> (r: Option<Vec<u8>>)
    ensures
        r is Some <==> grabbed_after(s@, needle@) is Some,
        r matches Some(v) ==> grabbed_after(s@, needle@) == Some(v@),
{
    let n = s.len();
    match find_sub(s, needle) {
        None => None,
        Some(i) => {
            proof {
                lemma_first_match_some(s@, needle@, i as int);
            }
            let rest = vstd::slice::slice_subrange(s, i + needle.len(), n);
            let quote: Vec<u8> = vec![34u8];
            proof {
                assert(quote@ =~= seq![34u8]);
            }
            match find_sub(rest, quote.as_slice()) {
                None => None,
                Some(e) => {
                    proof {
                        lemma_first_match_some(rest@, seq![34u8], e as int);
                    }
                    Some(vstd::slice::slice_to_vec(vstd::slice::slice_subrange(rest, 0, e)))
                },
            }
        },
    }
}

fn scan(s: &[u8]) -> (r: Option<Vec<u8>>)
    ensures
        r is Some <==> scanned(s@) is Some,
        r matches Some(v) ==> scanned(s@) == Some(v@),
{
    let n1 = lit_vec("\"access_id\":\"");
    let n2 = lit_vec("\"access_id\": \"");
    let hit = find_sub(s, n1.as_slice());
    if hit.is_some() {
        grab_after(s, n1.as_slice())
    } else {
        grab_after(s, n2.as_slice())
    }
}

/// Dig the `access_id` out of a fetched page, preferring its render-data
/// block.
pub fn extract_access_id(text: &[u8]) -> (r: Option<Vec<u8>>)
    ensures
        r is Some <==> spec_access_id(text@) is Some,
        r matches Some(v) ==> spec_access_id(text@) == Some(v@),
{
    let marker = lit_vec("window._render_data_");
    let from_block: Option<Vec<u8>> = match find_sub(text, marker.as_slice()) {
        None => None,
        Some(b) => {
            proof {
                lemma_first_match_some(text@, render_marker(), b as int);
            }
            let block = vstd::slice::slice_subrange(text, b, text.len());
            scan(block)
        },
    };
    match from_block {
        Some(v) => Some(v),
        None => scan(text),
    }
}

/// Turn a fetched page into the web identity handed to callers; a page
/// without an `access_id` is an error.
pub fn w_webid_from_page(text: &[u8]) -> (r: Result<Vec<u8>, Vec<u8>>)
    ensures
        r is Ok <==> spec_access_id(text@) is Some,
        r matches Ok(v) ==> spec_access_id(text@) == Some(v@),
        r matches Err(m) ==> m@ == lit("Failed to extract w_webid (access_id)"),
{
    match extract_access_id(text) {
        Some(v) => Ok(v),
        None => Err(lit_vec("Failed to extract w_webid (access_id)")),
    }
}

/// Cached web identity of the video platform, filled once a page has been
/// fetched and mined.
pub struct BilibiliState {
    w_webid: Option<Vec<u8>>,
}

impl BilibiliState {
    /// The cached identity, if one was generated.
    pub closed spec fn cached(&self) -> Option<Seq<u8>> {
        crate::douyin::opt_view(self.w_webid)
    }

    /// A fresh state with nothing cached.
    pub fn new() -> (r: Self)
        ensures
            r.cached() is None,
    {
        BilibiliState { w_webid: None }
    }

    /// Cache a generated identity, replacing any earlier one.
    pub fn set_w_webid(&mut self, v: Vec<u8>)
        ensures
            final(self).cached() == Some(v@),
    {
        self.w_webid = Some(v);
    }

    /// The cached identity.
    pub fn w_webid(&self) -> (r: Option<&Vec<u8>>)
        ensures
            r matches Some(v) ==> self.cached() == Some(v@),
            r is None <==> self.cached() is None,
    {
        self.w_webid.as_ref()
    }
}

} // verus!
