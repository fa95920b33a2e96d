//! The session registry: the mapping from session id to the engine entry
//! and to the cancellation handle, with idempotent removal.
//!
//! Entries carry an opaque numeric handle under which the embedding
//! application keys the actual subprocess and its input stream; the registry
//! itself owns only the bookkeeping, so its operations never wait on an
//! in-flight call.

use vstd::prelude::*;

verus! {

/// One registry entry: a session id and the handle of the process serving
/// it. The same handle stands for the cancellation reference, which shares
/// the process's input stream.
pub struct SessionEntry {
    pub session_id: String,
    pub handle: u64,
}

/// The mapping an entry list represents.
pub open spec fn entries_map(v: Seq<SessionEntry>) -> Map<Seq<char>, u64>
    decreases v.len(),
{
    if v.len() == 0 {
        Map::empty()
    } else {
        entries_map(v.drop_last()).insert(v.last().session_id@, v.last().handle)
    }
}

/// No two entries share a session id.
pub open spec fn unique_sids(v: Seq<SessionEntry>) -> bool {
    forall|i: int, j: int|
        0 <= i < j < v.len() ==> (#[trigger] v[i]).session_id@ != (#[trigger] v[j]).session_id@
}

proof fn lemma_entries_map_domain(v: Seq<SessionEntry>, s: Seq<char>)
    ensures
        entries_map(v).contains_key(s) <==> exists|i: int|
            0 <= i < v.len() && (#[trigger] v[i]).session_id@ == s,
    decreases v.len(),
{
    if v.len() == 0 {
    } else {
        lemma_entries_map_domain(v.drop_last(), s);
        assert(forall|i: int|
            0 <= i < v.len() - 1 ==> (#[trigger] v.drop_last()[i]) == v[i]);
        if v.last().session_id@ == s {
            assert((v[v.len() - 1]).session_id@ == s);
        } else {
            if entries_map(v).contains_key(s) {
                let i = choose|i: int|
                    0 <= i < v.drop_last().len() && (#[trigger] v.drop_last()[i]).session_id@ == s;
                assert(v[i].session_id@ == s);
            }
            if exists|i: int| 0 <= i < v.len() && (#[trigger] v[i]).session_id@ == s {
                let i = choose|i: int| 0 <= i < v.len() && (#[trigger] v[i]).session_id@ == s;
                assert(i < v.len() - 1);
                assert(v.drop_last()[i].session_id@ == s);
            }
        }
    }
}

proof fn lemma_entries_map_at(v: Seq<SessionEntry>, i: int)
    requires
        unique_sids(v),
        0 <= i < v.len(),
    ensures
        entries_map(v).contains_key(v[i].session_id@),
        entries_map(v)[v[i].session_id@] == v[i].handle,
    decreases v.len(),
{
    if i == v.len() - 1 {
    } else {
        assert(unique_sids(v.drop_last())) by {
            assert(forall|a: int, b: int|
                0 <= a < b < v.len() - 1 ==> (#[trigger] v.drop_last()[a]) == v[a]
                    && (#[trigger] v.drop_last()[b]) == v[b]);
        }
        lemma_entries_map_at(v.drop_last(), i);
        assert(v.drop_last()[i] == v[i]);
        assert(v.last().session_id@ != v[i].session_id@);
    }
}

proof fn lemma_entries_map_remove(v: Seq<SessionEntry>, i: int)
    requires
        unique_sids(v),
        0 <= i < v.len(),
    ensures
        entries_map(v.remove(i)) =~= entries_map(v).remove(v[i].session_id@),
    decreases v.len(),
{
    let s = v[i].session_id@;
    if i == v.len() - 1 {
        assert(v.remove(i) =~= v.drop_last());
        lemma_entries_map_domain(v.drop_last(), s);
        assert(forall|j: int|
            0 <= j < v.len() - 1 ==> (#[trigger] v.drop_last()[j]).session_id@ != s);
        assert(!entries_map(v.drop_last()).contains_key(s));
        assert(entries_map(v.drop_last()).insert(s, v.last().handle).remove(s) =~= entries_map(
            v.drop_last(),
        ));
    } else {
        assert(unique_sids(v.drop_last())) by {
            assert(forall|a: int, b: int|
                0 <= a < b < v.len() - 1 ==> (#[trigger] v.drop_last()[a]) == v[a]
                    && (#[trigger] v.drop_last()[b]) == v[b]);
        }
        assert(v.remove(i).drop_last() =~= v.drop_last().remove(i));
        assert(v.remove(i).last() == v.last());
        lemma_entries_map_remove(v.drop_last(), i);
        assert(v.drop_last()[i] == v[i]);
        assert(v.last().session_id@ != s);
        assert(entries_map(v.remove(i)) == entries_map(v.drop_last().remove(i)).insert(
            v.last().session_id@,
            v.last().handle,
        ));
        assert(entries_map(v.drop_last().remove(i)).insert(
            v.last().session_id@,
            v.last().handle,
        ) =~= entries_map(v).remove(s));
    }
}

fn vec_find(v: &Vec<SessionEntry>, sid: &str) -> (r: Option<usize>)
    ensures
        r matches Some(i) ==> i < v@.len() && v@[i as int].session_id@ == sid@,
        r is None ==> forall|i: int|
            0 <= i < v@.len() ==> (#[trigger] v@[i]).session_id@ != sid@,
{
    let n = v.len();
    let mut i: usize = 0;
    while i < n
        invariant
            i <= n,
            n == v@.len(),
            forall|j: int| 0 <= j < i ==> (#[trigger] v@[j]).session_id@ != sid@,
        decreases n - i,
    {
        if crate::text::str_eq(v[i].session_id.as_str(), sid) {
            return Some(i);
        }
        i += 1;
    }
    None
}

fn vec_remove_sid(v: &mut Vec<SessionEntry>, sid: &str) -> (r: Option<u64>)
    requires
        unique_sids(old(v)@),
    ensures
        unique_sids(final(v)@),
        entries_map(final(v)@) == entries_map(old(v)@).remove(sid@),
        forall|i: int| 0 <= i < final(v)@.len() ==> (#[trigger] final(v)@[i]).session_id@ != sid@,
        (r is Some) == entries_map(old(v)@).contains_key(sid@),
        r matches Some(h) ==> entries_map(old(v)@)[sid@] == h,
{
    match vec_find(v, sid) {
        None => {
            proof {
                lemma_entries_map_domain(v@, sid@);
                assert(!entries_map(v@).contains_key(sid@));
                assert(entries_map(v@).remove(sid@) =~= entries_map(v@));
            }
            None
        },
        Some(i) => {
            proof {
                lemma_entries_map_at(v@, i as int);
                lemma_entries_map_remove(v@, i as int);
            }
            let ghost pre = v@;
            let e = v.remove(i);
            proof {
                assert(unique_sids(v@)) by {
                    assert(forall|a: int, b: int|
                        0 <= a < b < v@.len() ==> exists|a0: int, b0: int|
                            0 <= a0 < b0 < pre.len() && (#[trigger] v@[a]) == pre[a0]
                                && (#[trigger] v@[b]) == pre[b0]) by {
                        assert forall|a: int, b: int| 0 <= a < b < v@.len() implies exists|
                            a0: int,
                            b0: int,
                        |
                            0 <= a0 < b0 < pre.len() && (#[trigger] v@[a]) == pre[a0] && (
                            #[trigger] v@[b]) == pre[b0] by {
                            let a0 = if a < i { a } else { a + 1 };
                            let b0 = if b < i { b } else { b + 1 };
                            assert(0 <= a0 < b0 < pre.len() && v@[a] == pre[a0] && v@[b]
                                == pre[b0]);
                        }
                    }
                }
                assert(forall|j: int|
                    0 <= j < v@.len() ==> (#[trigger] v@[j]).session_id@ != sid@) by {
                    assert forall|j: int| 0 <= j < v@.len() implies (#[trigger] v@[j]).session_id@
                        != sid@ by {
                        let j0 = if j < i { j } else { j + 1 };
                        assert(v@[j] == pre[j0]);
                        if j0 != i {
                            assert(pre[j0].session_id@ != pre[i as int].session_id@);
                        }
                    }
                }
            }
            Some(e.handle)
        },
    }
}

fn vec_upsert(v: &mut Vec<SessionEntry>, sid: &str, handle: u64)
    requires
        unique_sids(old(v)@),
    ensures
        unique_sids(final(v)@),
        entries_map(final(v)@) == entries_map(old(v)@).insert(sid@, handle),
{
    let _ = vec_remove_sid(v, sid);
    let ghost mid = v@;
    v.push(SessionEntry { session_id: String::from_str(sid), handle });
    proof {
        assert(v@.drop_last() =~= mid);
        assert(v@.last().session_id@ == sid@);
        assert(entries_map(v@) == entries_map(mid).insert(sid@, handle));
        assert(entries_map(mid).insert(sid@, handle) =~= entries_map(old(v)@).insert(
            sid@,
            handle,
        ));
        assert(unique_sids(v@)) by {
            assert(forall|a: int| 0 <= a < mid.len() ==> (#[trigger] v@[a]) == mid[a]);
            assert(forall|a: int|
                0 <= a < mid.len() ==> (#[trigger] mid[a]).session_id@ != sid@);
        }
    }
}

/// The registry: session entries and cancellation handles, each keyed by
/// session id, mutated only under the registry's own lock and never while a
/// call is in flight.
pub struct SessionRegistry {
    pub sessions: Vec<SessionEntry>,
    pub cancel_handles: Vec<SessionEntry>,
}

impl SessionRegistry {
    /// Both entry lists hold each session id at most once.
    pub open spec fn wf(self) -> bool {
        unique_sids(self.sessions@) && unique_sids(self.cancel_handles@)
    }

    /// The session-id-to-engine-handle mapping.
    pub open spec fn sessions_map(self) -> Map<Seq<char>, u64> {
        entries_map(self.sessions@)
    }

    /// The session-id-to-cancel-handle mapping.
    pub open spec fn cancel_map(self) -> Map<Seq<char>, u64> {
        entries_map(self.cancel_handles@)
    }

    /// An empty registry.
    pub fn new() -> (r: SessionRegistry)
        ensures
            r.wf(),
            r.sessions_map() == Map::<Seq<char>, u64>::empty(),
            r.cancel_map() == Map::<Seq<char>, u64>::empty(),
    {
        SessionRegistry { sessions: Vec::new(), cancel_handles: Vec::new() }
    }

    /// Look a session up without touching it.
    pub fn lookup(&self, sid: &str) -> (r: Option<u64>)
        requires
            self.wf(),
        ensures
            (r is Some) == self.sessions_map().contains_key(sid@),
            r matches Some(h) ==> self.sessions_map()[sid@] == h,
    {
        match vec_find(&self.sessions, sid) {
            Some(i) => {
                proof {
                    lemma_entries_map_at(self.sessions@, i as int);
                }
                Some(self.sessions[i].handle)
            },
            None => {
                proof {
                    lemma_entries_map_domain(self.sessions@, sid@);
                }
                None
            },
        }
    }

    /// Record a session: the engine entry and the cancellation handle are
    /// registered together, replacing any stale entry under the same id.
    pub fn register(&mut self, sid: &str, handle: u64)
        requires
            old(self).wf(),
        ensures
            final(self).wf(),
            final(self).sessions_map() == old(self).sessions_map().insert(sid@, handle),
            final(self).cancel_map() == old(self).cancel_map().insert(sid@, handle),
    {
        vec_upsert(&mut self.sessions, sid, handle);
        vec_upsert(&mut self.cancel_handles, sid, handle);
    }

    /// Look up the cancellation handle alone. It is resolved against the
    /// cancel-handle mapping, which is never held across a call, so a
    /// cancellation can always be delivered.
    pub fn cancel_handle(&self, sid: &str) -> (r: Option<u64>)
        requires
            self.wf(),
        ensures
            (r is Some) == self.cancel_map().contains_key(sid@),
            r matches Some(h) ==> self.cancel_map()[sid@] == h,
    {
        match vec_find(&self.cancel_handles, sid) {
            Some(i) => {
                proof {
                    lemma_entries_map_at(self.cancel_handles@, i as int);
                }
                Some(self.cancel_handles[i].handle)
            },
            None => {
                proof {
                    lemma_entries_map_domain(self.cancel_handles@, sid@);
                }
                None
            },
        }
    }

    /// Close a session: drop the cancellation handle first, then take the
    /// engine entry out. The returned handle, if any, is the one process the
    /// caller must kill; an id that is absent — never created, or closed
    /// already — removes nothing and returns nothing.
    pub fn remove(&mut self, sid: &str) -> (r: Option<u64>)
        requires
            old(self).wf(),
        ensures
            final(self).wf(),
            final(self).sessions_map() == old(self).sessions_map().remove(sid@),
            final(self).cancel_map() == old(self).cancel_map().remove(sid@),
            (r is Some) == old(self).sessions_map().contains_key(sid@),
            r matches Some(h) ==> old(self).sessions_map()[sid@] == h,
    {
        let _ = vec_remove_sid(&mut self.cancel_handles, sid);
        vec_remove_sid(&mut self.sessions, sid)
    }
}

/// Closing is idempotent: removing a session id a second time, or an id
/// that was never present, changes nothing and surfaces no handle — so no
/// process is ever killed twice through the registry.
pub proof fn lemma_close_idempotent(m: Map<Seq<char>, u64>, sid: Seq<char>)
    ensures
        m.remove(sid).remove(sid) =~= m.remove(sid),
        !m.remove(sid).contains_key(sid),
{
}

} // verus!
