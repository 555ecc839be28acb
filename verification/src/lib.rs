//! Verified core of a local live-stream relay: header policy, HLS playlist
//! rewriting, relay lifecycle decisions, and a per-room listener registry.
use vstd::prelude::*;

pub mod bilibili;
pub mod bytes;
pub mod douyin;
pub mod headers;
pub mod lifecycle;
pub mod registry;
pub mod routes;
pub mod rewrite;
pub mod urltext;

verus! {

/// Shared slot holding the upstream URL currently relayed as "the" media
/// stream. Empty means no stream target is set.
pub struct StreamUrlStore {
    pub url: Vec<u8>,
}

impl StreamUrlStore {
    /// A fresh store with no target set.
    pub fn new() -> (s: Self)
        ensures
            s.url@ =~= Seq::<u8>::empty(),
    {
        StreamUrlStore { url: Vec::new() }
    }

    /// Replace the current target unconditionally.
    pub fn set_url(&mut self, url: Vec<u8>)
        ensures
            final(self).url@ == url@,
    {
        self.url = url;
    }

    /// Whether a target is currently set.
    pub fn has_target(&self) -> (b: bool)
        ensures
            b <==> self.url@.len() > 0,
    {
        self.url.len() > 0
    }
}

} // verus!
