//! Per-room registry of cancellable danmaku listener tasks. The registry
//! holds at most one live registration per room id; starting a room again
//! hands back the superseded cancellation token so the caller signals it
//! before the new task runs.
use vstd::prelude::*;

use crate::bytes::bytes_eq;

verus! {

/// An entry has this room key.
pub open spec fn entry_keyed(es: Seq<(Vec<u8>, u64)>, i: int, k: Seq<u8>) -> bool {
    0 <= i < es.len() && es[i].0@ == k
}

/// Some entry has this room key.
pub open spec fn has_key(es: Seq<(Vec<u8>, u64)>, k: Seq<u8>) -> bool {
    exists|i: int| entry_keyed(es, i, k)
}

/// The token stored under this room key.
pub open spec fn value_for(es: Seq<(Vec<u8>, u64)>, k: Seq<u8>) -> u64 {
    es[choose|i: int| entry_keyed(es, i, k)].1
}

/// Registry of per-room cancellation tokens for danmaku listener tasks.
/// Each token stands for the single-use cancellation sender the runtime
/// holds for that room's task.
pub struct DouyuDanmakuHandles {
    entries: Vec<(Vec<u8>, u64)>,
}

impl DouyuDanmakuHandles {
    /// No two entries share a room key.
    pub closed spec fn wf(&self) -> bool {
        forall|i: int, j: int| 0 <= i < j < self.entries@.len() ==> self.entries@[i].0@
            != self.entries@[j].0@
    }

    /// The registrations as a map from room id to token.
    pub closed spec fn as_map(&self) -> Map<Seq<u8>, u64> {
        Map::new(
            |k: Seq<u8>| has_key(self.entries@, k),
            |k: Seq<u8>| value_for(self.entries@, k),
        )
    }

    /// How many rooms are registered.
    pub closed spec fn spec_len(&self) -> nat {
        self.entries@.len()
    }

    /// An empty registry.
    pub fn new() -> (r: Self)
        ensures
            r.wf(),
            r.as_map() =~= Map::<Seq<u8>, u64>::empty(),
            r.spec_len() == 0,
    {
        let r = DouyuDanmakuHandles { entries: Vec::new() };
        proof {
            assert(forall|k: Seq<u8>| !has_key(r.entries@, k));
        }
        r
    }

    /// Number of live registrations.
    pub fn active_count(&self) -> (n: usize)
        ensures
            n == self.spec_len(),
    {
        self.entries.len()
    }

    fn find_room(&self, room: &[u8]) -> (r: Option<usize>)
        ensures
            r matches Some(i) ==> entry_keyed(self.entries@, i as int, room@),
            r is None ==> !has_key(self.entries@, room@),
    {
        let n = self.entries.len();
        let mut i: usize = 0;
        while i < n
            invariant
                0 <= i <= n,
                n == self.entries@.len(),
                forall|j: int| 0 <= j < i ==> self.entries@[j].0@ != room@,
            decreases n - i,
        {
            if bytes_eq(self.entries[i].0.as_slice(), room) {
                return Some(i);
            }
            i = i + 1;
        }
        None
    }

    /// The token registered for a room, if any.
    pub fn token_for(&self, room: &[u8]) -> (r: Option<u64>)
        requires
            self.wf(),
        ensures
            r == (if self.as_map().contains_key(room@) {
                Some(self.as_map()[room@])
            } else {
                None::<u64>
            }),
    {
        match self.find_room(room) {
            Some(i) => {
                proof {
                    lemma_value_at(self.entries@, i as int, room@);
                }
                Some(self.entries[i].1)
            },
            None => None,
        }
    }

    /// Register a fresh cancellation token for `room`. Any token already
    /// registered for the room leaves the registry and is handed back, to
    /// be signalled before the new task is considered live.
    pub fn start_listener(&mut self, room: &[u8], token: u64) -> (evicted: Option<u64>)
        requires
            old(self).wf(),
        ensures
            final(self).wf(),
            final(self).as_map() =~= old(self).as_map().insert(room@, token),
            evicted == (if old(self).as_map().contains_key(room@) {
                Some(old(self).as_map()[room@])
            } else {
                None::<u64>
            }),
            final(self).as_map().contains_key(room@),
            final(self).as_map()[room@] == token,
            !old(self).as_map().contains_key(room@) ==> final(self).spec_len() == old(
                self,
            ).spec_len() + 1,
            old(self).as_map().contains_key(room@) ==> final(self).spec_len() == old(
                self,
            ).spec_len(),
    {
        let ghost es0 = self.entries@;
        let found = self.find_room(room);
        let evicted: Option<u64> = match found {
            Some(i) => {
                proof {
                    lemma_value_at(es0, i as int, room@);
                }
                let t = self.entries[i].1;
                self.entries.remove(i);
                proof {
                    lemma_remove_keyed(es0, i as int, room@);
                }
                Some(t)
            },
            None => None,
        };
        let ghost es1 = self.entries@;
        let key = vstd::slice::slice_to_vec(room);
        self.entries.push((key, token));
        proof {
            lemma_push_keyed(es1, (self.entries@[es1.len() as int]), room@, token);
            assert(final(self).as_map() =~= old(self).as_map().insert(room@, token)) by {
                lemma_map_after_replace(es0, es1, self.entries@, room@, token);
            }
        }
        evicted
    }

    /// Remove the registration for `room`, handing back its token for
    /// signalling; stopping a room with no registration changes nothing.
    pub fn stop_listener(&mut self, room: &[u8]) -> (removed: Option<u64>)
        requires
            old(self).wf(),
        ensures
            final(self).wf(),
            final(self).as_map() =~= old(self).as_map().remove(room@),
            removed == (if old(self).as_map().contains_key(room@) {
                Some(old(self).as_map()[room@])
            } else {
                None::<u64>
            }),
            !old(self).as_map().contains_key(room@) ==> *final(self) == *old(self),
    {
        let ghost es0 = self.entries@;
        match self.find_room(room) {
            Some(i) => {
                proof {
                    lemma_value_at(es0, i as int, room@);
                }
                let t = self.entries[i].1;
                self.entries.remove(i);
                proof {
                    lemma_remove_keyed(es0, i as int, room@);
                    assert(final(self).as_map() =~= old(self).as_map().remove(room@));
                }
                Some(t)
            },
            None => {
                proof {
                    assert(final(self).as_map() =~= old(self).as_map().remove(room@));
                }
                None
            },
        }
    }
}

/// With unique keys, any entry with key `k` carries the map's value.
proof fn lemma_value_at(es: Seq<(Vec<u8>, u64)>, i: int, k: Seq<u8>)
    requires
        forall|a: int, b: int| 0 <= a < b < es.len() ==> es[a].0@ != es[b].0@,
        entry_keyed(es, i, k),
    ensures
        value_for(es, k) == es[i].1,
{
    let j = choose|j: int| entry_keyed(es, j, k);
    if j != i {
        assert(es[i].0@ == es[j].0@);
    }
}

/// Removing the one entry keyed `k` erases `k` and keeps every other key
/// and value.
proof fn lemma_remove_keyed(es: Seq<(Vec<u8>, u64)>, i: int, k: Seq<u8>)
    requires
        forall|a: int, b: int| 0 <= a < b < es.len() ==> es[a].0@ != es[b].0@,
        entry_keyed(es, i, k),
    ensures
        forall|a: int, b: int| 0 <= a < b < es.remove(i).len() ==> es.remove(i)[a].0@ != es.remove(
            i,
        )[b].0@,
        !has_key(es.remove(i), k),
        forall|k2: Seq<u8>| k2 != k ==> (has_key(es.remove(i), k2) <==> has_key(es, k2)),
        forall|k2: Seq<u8>| k2 != k && has_key(es, k2) ==> value_for(es.remove(i), k2)
            == value_for(es, k2),
{
    let es1 = es.remove(i);
    assert forall|a: int, b: int| 0 <= a < b < es1.len() implies es1[a].0@ != es1[b].0@ by {
        assert(es1[a] == (if a < i {
            es[a]
        } else {
            es[a + 1]
        }));
        assert(es1[b] == (if b < i {
            es[b]
        } else {
            es[b + 1]
        }));
    }
    assert forall|j: int| 0 <= j < es1.len() implies es1[j].0@ != k by {
        assert(es1[j] == (if j < i {
            es[j]
        } else {
            es[j + 1]
        }));
    }
    assert forall|k2: Seq<u8>| k2 != k implies (has_key(es1, k2) <==> has_key(es, k2)) by {
        if has_key(es1, k2) {
            let a = choose|a: int| entry_keyed(es1, a, k2);
            if a < i {
                assert(entry_keyed(es, a, k2));
            } else {
                assert(entry_keyed(es, a + 1, k2));
            }
        }
        if has_key(es, k2) {
            let a = choose|a: int| entry_keyed(es, a, k2);
            if a < i {
                assert(entry_keyed(es1, a, k2));
            } else {
                assert(a != i);
                assert(entry_keyed(es1, a - 1, k2));
            }
        }
    }
    assert forall|k2: Seq<u8>| k2 != k && has_key(es, k2) implies value_for(es1, k2) == value_for(
        es,
        k2,
    ) by {
        let a = choose|a: int| entry_keyed(es, a, k2);
        lemma_value_at(es, a, k2);
        if a < i {
            lemma_value_at(es1, a, k2);
        } else {
            lemma_value_at(es1, a - 1, k2);
        }
    }
}

/// Pushing an entry with a fresh key adds exactly that key.
proof fn lemma_push_keyed(es: Seq<(Vec<u8>, u64)>, e: (Vec<u8>, u64), k: Seq<u8>, token: u64)
    requires
        forall|a: int, b: int| 0 <= a < b < es.len() ==> es[a].0@ != es[b].0@,
        !has_key(es, k),
        e.0@ == k,
        e.1 == token,
    ensures
        forall|a: int, b: int| 0 <= a < b < es.push(e).len() ==> es.push(e)[a].0@ != es.push(
            e,
        )[b].0@,
        has_key(es.push(e), k),
        value_for(es.push(e), k) == token,
        forall|k2: Seq<u8>| k2 != k ==> (has_key(es.push(e), k2) <==> has_key(es, k2)),
        forall|k2: Seq<u8>| k2 != k && has_key(es, k2) ==> value_for(es.push(e), k2) == value_for(
            es,
            k2,
        ),
{
    let es1 = es.push(e);
    assert forall|a: int, b: int| 0 <= a < b < es1.len() implies es1[a].0@ != es1[b].0@ by {
        if b == es.len() {
            assert(es1[a] == es[a]);
            assert(entry_keyed(es, a, es[a].0@));
        }
    }
    assert(entry_keyed(es1, es.len() as int, k));
    lemma_value_at(es1, es.len() as int, k);
    assert forall|k2: Seq<u8>| k2 != k implies (has_key(es1, k2) <==> has_key(es, k2)) by {
        if has_key(es1, k2) {
            let a = choose|a: int| entry_keyed(es1, a, k2);
            assert(a != es.len());
            assert(entry_keyed(es, a, k2));
        }
        if has_key(es, k2) {
            let a = choose|a: int| entry_keyed(es, a, k2);
            assert(entry_keyed(es1, a, k2));
        }
    }
    assert forall|k2: Seq<u8>| k2 != k && has_key(es, k2) implies value_for(es1, k2) == value_for(
        es,
        k2,
    ) by {
        let a = choose|a: int| entry_keyed(es, a, k2);
        lemma_value_at(es, a, k2);
        lemma_value_at(es1, a, k2);
    }
}

/// The entry sequence after an optional remove and a push of `(k, token)`
/// denotes the old map with `k` bound to `token`.
proof fn lemma_map_after_replace(
    es0: Seq<(Vec<u8>, u64)>,
    es1: Seq<(Vec<u8>, u64)>,
    es2: Seq<(Vec<u8>, u64)>,
    k: Seq<u8>,
    token: u64,
)
    requires
        !has_key(es1, k),
        has_key(es2, k),
        value_for(es2, k) == token,
        forall|k2: Seq<u8>| k2 != k ==> (has_key(es1, k2) <==> has_key(es0, k2)),
        forall|k2: Seq<u8>| k2 != k && has_key(es0, k2) ==> value_for(es1, k2) == value_for(
            es0,
            k2,
        ),
        forall|k2: Seq<u8>| k2 != k ==> (has_key(es2, k2) <==> has_key(es1, k2)),
        forall|k2: Seq<u8>| k2 != k && has_key(es1, k2) ==> value_for(es2, k2) == value_for(
            es1,
            k2,
        ),
    ensures
        Map::new(|k2: Seq<u8>| has_key(es2, k2), |k2: Seq<u8>| value_for(es2, k2)) =~= Map::new(
            |k2: Seq<u8>| has_key(es0, k2),
            |k2: Seq<u8>| value_for(es0, k2),
        ).insert(k, token),
{
}

/// Starting the same room twice leaves exactly the second token registered,
/// and the second start hands back the first token, so its sender is
/// signalled before the new registration is considered live.
pub proof fn lemma_start_twice(m0: Map<Seq<u8>, u64>, room: Seq<u8>, t1: u64, t2: u64)
    ensures
        m0.insert(room, t1).insert(room, t2) =~= m0.insert(room, t2),
        m0.insert(room, t1).contains_key(room),
        m0.insert(room, t1)[room] == t1,
        m0.insert(room, t1).insert(room, t2)[room] == t2,
{
}

/// Stop-listener error: a registration existed, but its cancellation signal
/// could not be delivered because the task had already exited.
#[derive(Debug, PartialEq, Eq, Structural)]
pub enum StopError {
    SignalLost,
}

/// Outcome of a stop command, judged from whether a registration existed
/// and, if one did, whether its cancellation signal was delivered. Stopping
/// an unregistered room succeeds as a no-op.
pub fn stop_result(had_registration: bool, delivered: bool) -> (r: Result<(), StopError>)
    ensures
        r is Err <==> had_registration && !delivered,
        !had_registration ==> r is Ok,
{
    if had_registration && !delivered {
        Err(StopError::SignalLost)
    } else {
        Ok(())
    }
}

} // verus!
