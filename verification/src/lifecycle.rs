//! Relay server lifecycle: the primary relay is superseded on every start
//! and stopped on demand; the static relay starts idempotently on its own
//! fixed port. Running instances are tracked as opaque shutdown tokens.
use vstd::prelude::*;

use crate::bytes::{dec_digits, lit, lit_vec, u64_to_dec};

verus! {

/// The fixed port of the primary relay.
pub fn find_free_port() -> (p: u16)
    ensures
        p == 34719,
{
    34719
}

/// The fixed, distinct port of the static relay.
pub fn static_proxy_port() -> (p: u16)
    ensures
        p == 34721,
{
    34721
}

/// `http://127.0.0.1:<port>`.
pub open spec fn base_url_spec(port: u16) -> Seq<u8> {
    lit("http://127.0.0.1:") + dec_digits(port as nat)
}

/// `http://127.0.0.1:<port>/live.flv`, the media URL handed to the player.
pub open spec fn media_url_spec(port: u16) -> Seq<u8> {
    base_url_spec(port) + lit("/live.flv")
}

/// The loopback base URL of a relay on `port`.
pub fn base_url(port: u16) -> (r: Vec<u8>)
    ensures
        r@ =~= base_url_spec(port),
{
    let mut r = lit_vec("http://127.0.0.1:");
    let mut digits = u64_to_dec(port as u64);
    r.append(&mut digits);
    r
}

/// The loopback media URL of a relay on `port`.
pub fn media_url(port: u16) -> (r: Vec<u8>)
    ensures
        r@ =~= media_url_spec(port),
{
    let mut r = base_url(port);
    let mut rest = lit_vec("/live.flv");
    r.append(&mut rest);
    r
}

/// Tracks the running primary relay instance as an opaque shutdown token.
/// At most one primary instance is tracked at a time.
pub struct ProxyServerHandle {
    handle: Option<u64>,
}

impl ProxyServerHandle {
    /// The token of the tracked instance, if one runs.
    pub closed spec fn tracked_instance(&self) -> Option<u64> {
        self.handle
    }

    /// A fresh slot with no relay running.
    pub fn new() -> (r: Self)
        ensures
            r.tracked_instance() is None,
    {
        ProxyServerHandle { handle: None }
    }

    /// Begin starting the primary relay. Without a stream target the start
    /// is refused and nothing changes. Otherwise any tracked instance
    /// leaves the slot and its token is handed back so the caller shuts it
    /// down immediately before binding the new instance.
    pub fn start_proxy(&mut self, target_set: bool) -> (r: Result<Option<u64>, Vec<u8>>)
        ensures
            !target_set ==> (r matches Err(m) && m@ == lit(
                "Stream URL is not set in store. Cannot start proxy.",
            ) && *final(self) == *old(self)),
            target_set ==> r == Ok::<Option<u64>, Vec<u8>>(old(self).tracked_instance())
                && final(self).tracked_instance() is None,
    {
        if !target_set {
            Err(lit_vec("Stream URL is not set in store. Cannot start proxy."))
        } else {
            let evicted = self.handle;
            self.handle = None;
            Ok(evicted)
        }
    }

    /// Track the instance that a successful bind produced.
    pub fn confirm_start(&mut self, token: u64)
        ensures
            final(self).tracked_instance() == Some(token),
    {
        self.handle = Some(token);
    }

    /// Stop the primary relay: the tracked token, if any, is handed back
    /// for immediate shutdown; stopping with nothing running is a no-op
    /// success.
    pub fn stop_proxy(&mut self) -> (stopped: Option<u64>)
        ensures
            final(self).tracked_instance() is None,
            stopped == old(self).tracked_instance(),
    {
        let stopped = self.handle;
        self.handle = None;
        stopped
    }
}

/// How binding the static relay's port went; `Failed` carries the bind
/// error's text.
pub enum BindOutcome {
    Bound,
    AddrInUse,
    Failed(Vec<u8>),
}

/// The error text reported when the static relay cannot bind its port.
pub open spec fn bind_error_spec(port: u16, detail: Seq<u8>) -> Seq<u8> {
    lit("Failed to bind server to port ") + dec_digits(port as nat) + lit(": ") + detail
}

/// What starting the static relay answers: a live port or an
/// address-in-use bind means it already runs and its base URL is returned;
/// only another bind failure is an error.
pub open spec fn static_start_spec(probe_ok: bool, bind: Option<BindOutcome>) -> Result<
    Seq<u8>,
    Seq<u8>,
> {
    if probe_ok {
        Ok(base_url_spec(34721))
    } else {
        match bind {
            Some(BindOutcome::Bound) => Ok(base_url_spec(34721)),
            Some(BindOutcome::AddrInUse) => Ok(base_url_spec(34721)),
            Some(BindOutcome::Failed(m)) => Err(bind_error_spec(34721, m@)),
            None => Err(Seq::empty()),
        }
    }
}

/// Decide the answer of a static relay start. `probe_ok` says a connection
/// to the static port already succeeds, in which case no bind was
/// attempted; otherwise `bind` reports how the bind went.
pub fn start_static_proxy_server(probe_ok: bool, bind: Option<BindOutcome>) -> (r: Result<
    Vec<u8>,
    Vec<u8>,
>)
    requires
        probe_ok <==> bind is None,
    ensures
        r is Ok <==> static_start_spec(probe_ok, bind) is Ok,
        r matches Ok(u) ==> static_start_spec(probe_ok, bind) == Ok::<Seq<u8>, Seq<u8>>(u@),
        r matches Err(m) ==> static_start_spec(probe_ok, bind) == Err::<Seq<u8>, Seq<u8>>(m@),
{
    if probe_ok {
        Ok(base_url(34721))
    } else {
        match bind {
            Some(BindOutcome::Bound) => Ok(base_url(34721)),
            Some(BindOutcome::AddrInUse) => Ok(base_url(34721)),
            Some(BindOutcome::Failed(m)) => {
                let mut msg = lit_vec("Failed to bind server to port ");
                let mut digits = u64_to_dec(34721);
                msg.append(&mut digits);
                let mut sep = lit_vec(": ");
                msg.append(&mut sep);
                let mut detail = m;
                msg.append(&mut detail);
                Err(msg)
            },
            None => Err(Vec::new()),
        }
    }
}

/// Starting the static relay twice back to back answers the identical base
/// URL both times and never errs on the second call: after a successful
/// first start the port is serving, so the second call sees a live
/// connection or an address-in-use bind.
pub proof fn lemma_static_start_idempotent(
    p1: bool,
    b1: Option<BindOutcome>,
    p2: bool,
    b2: Option<BindOutcome>,
)
    requires
        p1 <==> b1 is None,
        p2 <==> b2 is None,
        !(b1 matches Some(BindOutcome::Failed(_))),
        !(b2 matches Some(BindOutcome::Failed(_))),
    ensures
        static_start_spec(p1, b1) is Ok,
        static_start_spec(p2, b2) is Ok,
        static_start_spec(p1, b1) == static_start_spec(p2, b2),
{
}

} // verus!
