//! A bounded store of game sessions that forgets sessions left idle longer than a time to
//! live. Time is given by the caller as a count of nanoseconds on a monotonic clock.
use vstd::prelude::*;

use std::collections::HashMap;
use std::hash::Hash;
use vstd::std_specs::hash::obeys_key_model;

use crate::error::{Error, ErrorView};

verus! {

/// A stored session and when it was last used.
pub struct SessionEntry<V> {
    pub session: V,
    pub last_accessed: u128,
}

/// Time elapsed from `since` to `now`; zero when `since` is later.
pub open spec fn elapsed(since: u128, now: u128) -> int {
    if now >= since {
        now - since
    } else {
        0
    }
}

/// An entry is live while less than the time to live has passed since its last use.
pub open spec fn is_live_at(last_accessed: u128, now: u128, ttl: u128) -> bool {
    elapsed(last_accessed, now) < ttl
}

/// Whether a use at `last_accessed` is still live at `now`.
pub fn live_at(last_accessed: u128, now: u128, ttl: u128) -> (r: bool)
    ensures
        r == is_live_at(last_accessed, now, ttl),
{
    let passed = if now >= last_accessed {
        now - last_accessed
    } else {
        0
    };
    passed < ttl
}

/// The entries of `m` that are live at `now`.
pub open spec fn live_entries<K, V>(m: Map<K, SessionEntry<V>>, now: u128, ttl: u128) -> Map<
    K,
    SessionEntry<V>,
> {
    m.restrict(m.dom().filter(|k: K| is_live_at(m[k].last_accessed, now, ttl)))
}

/// `HashMap::retain` of std: keeps exactly the entries for which the predicate holds, here
/// the entries live at `now`. The predicate is the library's own `live_at`.
#[verifier::external_body]
fn retain_live<K: Eq + Hash, V>(m: &mut HashMap<K, SessionEntry<V>>, now: u128, ttl: u128)
    ensures
        obeys_key_model::<K>() ==> final(m)@ == live_entries(old(m)@, now, ttl),
{
    m.retain(|_, e| live_at(e.last_accessed, now, ttl))
}

/// `HashMap::get_mut` of std, on a key that is present: the value stored under `k`, to be
/// changed in place; whatever it is changed to is then stored under `k`.
#[verifier::external_body]
fn value_mut<'a, K: Eq + Hash, V>(m: &'a mut HashMap<K, V>, k: &K) -> (r: &'a mut V)
    requires
        obeys_key_model::<K>(),
        old(m)@.contains_key(*k),
    ensures
        *r == old(m)@[*k],
        final(m)@ == old(m)@.insert(*k, *final(r)),
{
    m.get_mut(k).unwrap()
}

/// The message of a refused insertion.
pub open spec fn capacity_message() -> Seq<char> {
    "SessionManager reached maximum capacity limit. Cannot insert new session."@
}

/// What inserting does: a new key into a full store first drops the idle entries, and is
/// refused if the store is still full; otherwise the key maps to the session, used at `now`.
pub open spec fn insert_outcome<K, V>(
    m: Map<K, SessionEntry<V>>,
    key: K,
    session: V,
    now: u128,
    ttl: u128,
    max_capacity: usize,
) -> (Map<K, SessionEntry<V>>, bool) {
    let entry = SessionEntry { session, last_accessed: now };
    if m.len() >= max_capacity && !m.contains_key(key) {
        let kept = live_entries(m, now, ttl);
        if kept.len() >= max_capacity {
            (kept, false)
        } else {
            (kept.insert(key, entry), true)
        }
    } else {
        (m.insert(key, entry), true)
    }
}

/// A store within its capacity stays within it, whatever is inserted.
pub proof fn law_insert_keeps_capacity<K, V>(
    m: Map<K, SessionEntry<V>>,
    key: K,
    session: V,
    now: u128,
    ttl: u128,
    max_capacity: usize,
)
    requires
        m.dom().finite(),
        m.len() <= max_capacity,
    ensures
        insert_outcome(m, key, session, now, ttl, max_capacity).0.len() <= max_capacity,
{
    broadcast use vstd::set::group_set_axioms, vstd::map::group_map_axioms;

    let kept = live_entries(m, now, ttl);
    let keep = m.dom().filter(|k: K| is_live_at(m[k].last_accessed, now, ttl));
    assert(kept.dom() =~= keep);
    vstd::set_lib::lemma_len_subset(keep, m.dom());
    if m.len() >= max_capacity && !m.contains_key(key) {
        if kept.len() < max_capacity {
            assert(!kept.contains_key(key));
            assert(kept.insert(key, SessionEntry { session, last_accessed: now }).dom() =~= kept.dom().insert(key));
        }
    } else if m.contains_key(key) {
        assert(m.insert(key, SessionEntry { session, last_accessed: now }).dom() =~= m.dom());
    } else {
        assert(m.insert(key, SessionEntry { session, last_accessed: now }).dom() =~= m.dom().insert(key));
    }
}

/// A session that was stored is found again at once, as it was stored, as long as sessions
/// live for some time.
pub proof fn law_read_after_insert<K, V>(
    m: Map<K, SessionEntry<V>>,
    key: K,
    session: V,
    now: u128,
    ttl: u128,
    max_capacity: usize,
)
    requires
        insert_outcome(m, key, session, now, ttl, max_capacity).1,
        ttl > 0,
    ensures
        ({
            let n = insert_outcome(m, key, session, now, ttl, max_capacity).0;
            &&& n.contains_key(key)
            &&& n[key].session == session
            &&& is_live_at(n[key].last_accessed, now, ttl)
        }),
{
}

/// An insertion is refused only for a new key while every place is taken by a live session;
/// the idle ones are dropped all the same.
pub proof fn law_refusal_only_when_full<K, V>(
    m: Map<K, SessionEntry<V>>,
    key: K,
    session: V,
    now: u128,
    ttl: u128,
    max_capacity: usize,
)
    requires
        !insert_outcome(m, key, session, now, ttl, max_capacity).1,
    ensures
        !m.contains_key(key),
        live_entries(m, now, ttl).len() >= max_capacity,
        insert_outcome(m, key, session, now, ttl, max_capacity).0 == live_entries(m, now, ttl),
{
}

/// Eviction keeps exactly the live sessions, untouched.
pub proof fn law_eviction_keeps_live<K, V>(m: Map<K, SessionEntry<V>>, now: u128, ttl: u128, k: K)
    ensures
        live_entries(m, now, ttl).contains_key(k) <==> (m.contains_key(k) && is_live_at(
            m[k].last_accessed,
            now,
            ttl,
        )),
        live_entries(m, now, ttl).contains_key(k) ==> live_entries(m, now, ttl)[k] == m[k],
{
}

/// A bounded session store with idle-time eviction.
pub struct SessionStore<K, V> {
    sessions: HashMap<K, SessionEntry<V>>,
    ttl: u128,
    max_capacity: usize,
}

impl<K: Eq + Hash + Clone, V> SessionStore<K, V> {
    /// The stored entries by key.
    pub closed spec fn entries(&self) -> Map<K, SessionEntry<V>> {
        self.sessions@
    }

    /// How long an unused session is kept, in nanoseconds.
    pub closed spec fn ttl_spec(&self) -> u128 {
        self.ttl
    }

    /// The most sessions the store takes.
    pub closed spec fn capacity(&self) -> usize {
        self.max_capacity
    }

    /// The entries of a store form a finite map.
    pub proof fn lemma_entries_finite(&self)
        ensures
            self.entries().dom().finite(),
    {
        vstd::std_specs::hash::axiom_hashmap_view_finite_dom(self.sessions);
    }

    /// An empty store.
    pub fn new(ttl: u128, max_capacity: usize) -> (r: SessionStore<K, V>)
        ensures
            r.entries() == Map::<K, SessionEntry<V>>::empty(),
            r.ttl_spec() == ttl,
            r.capacity() == max_capacity,
    {
        SessionStore { sessions: HashMap::new(), ttl, max_capacity }
    }

    /// The time to live, in nanoseconds.
    pub fn ttl(&self) -> (r: u128)
        ensures
            r == self.ttl_spec(),
    {
        self.ttl
    }

    /// The session stored under `key` when it is live at `now`, its use then recorded;
    /// nothing, and no change, otherwise.
    pub fn get(&mut self, key: &K, now: u128) -> (r: Option<&V>)
        requires
            obeys_key_model::<K>(),
        ensures
            final(self).ttl_spec() == old(self).ttl_spec(),
            final(self).capacity() == old(self).capacity(),
            ({
                let m = old(self).entries();
                if m.contains_key(*key) && is_live_at(m[*key].last_accessed, now, old(self).ttl_spec()) {
                    &&& r == Some(&m[*key].session)
                    &&& final(self).entries() == m.insert(
                        *key,
                        SessionEntry { session: m[*key].session, last_accessed: now },
                    )
                } else {
                    r is None && final(self).entries() == m
                }
            }),
            final(self).entries().len() == old(self).entries().len(),
    {
        broadcast use vstd::std_specs::hash::group_hash_axioms;

        let live = match self.sessions.get(key) {
            Some(e) => live_at(e.last_accessed, now, self.ttl),
            None => false,
        };
        if !live {
            return None;
        }
        let entry = value_mut(&mut self.sessions, key);
        entry.last_accessed = now;
        proof {
            old(self).lemma_entries_finite();
            assert(self.sessions@.dom() =~= old(self).sessions@.dom());
        }
        match self.sessions.get(key) {
            Some(e) => Some(&e.session),
            None => None,
        }
    }

    /// Stores `session` under `key`, used at `now`; see [`insert_outcome`]. A refusal is
    /// an `AkinatorError` with the capacity message.
    pub fn insert(&mut self, key: K, session: V, now: u128) -> (r: Result<(), Error>)
        requires
            obeys_key_model::<K>(),
        ensures
            final(self).ttl_spec() == old(self).ttl_spec(),
            final(self).capacity() == old(self).capacity(),
            final(self).entries() == insert_outcome(
                old(self).entries(),
                key,
                session,
                now,
                old(self).ttl_spec(),
                old(self).capacity(),
            ).0,
            insert_outcome(
                old(self).entries(),
                key,
                session,
                now,
                old(self).ttl_spec(),
                old(self).capacity(),
            ).1 ==> r is Ok,
            !insert_outcome(
                old(self).entries(),
                key,
                session,
                now,
                old(self).ttl_spec(),
                old(self).capacity(),
            ).1 ==> (r matches Err(e) && e@ == ErrorView::AkinatorError(capacity_message())),
            old(self).entries().len() <= old(self).capacity() ==> final(self).entries().len()
                <= final(self).capacity(),
            old(self).entries().contains_key(key) || old(self).entries().len()
                < old(self).capacity() ==> r is Ok && final(self).entries().len() == old(
                self,
            ).entries().len() + (if old(self).entries().contains_key(key) {
                0int
            } else {
                1int
            }),
    {
        proof {
            self.lemma_entries_finite();
            let m = old(self).entries();
            let e = SessionEntry { session, last_accessed: now };
            if m.contains_key(key) {
                assert(m.insert(key, e).dom() =~= m.dom());
            } else {
                assert(m.insert(key, e).dom() =~= m.dom().insert(key));
            }
            if old(self).entries().len() <= old(self).capacity() {
                law_insert_keeps_capacity(
                    old(self).entries(),
                    key,
                    session,
                    now,
                    old(self).ttl_spec(),
                    old(self).capacity(),
                );
            }
        }
        broadcast use vstd::std_specs::hash::group_hash_axioms;

        if self.sessions.len() >= self.max_capacity && !self.sessions.contains_key(&key) {
            retain_live(&mut self.sessions, now, self.ttl);
            if self.sessions.len() >= self.max_capacity {
                return Err(
                    Error::AkinatorError(
                        String::from_str(
                            "SessionManager reached maximum capacity limit. Cannot insert new session.",
                        ),
                    ),
                );
            }
        }
        self.sessions.insert(key, SessionEntry { session, last_accessed: now });
        Ok(())
    }

    /// Removes the session stored under `key` and hands it back.
    pub fn remove(&mut self, key: &K) -> (r: Option<V>)
        requires
            obeys_key_model::<K>(),
        ensures
            final(self).ttl_spec() == old(self).ttl_spec(),
            final(self).capacity() == old(self).capacity(),
            final(self).entries() == old(self).entries().remove(*key),
            match r {
                Some(v) => old(self).entries().contains_key(*key) && v == old(
                    self,
                ).entries()[*key].session,
                None => !old(self).entries().contains_key(*key),
            },
            final(self).entries().len() <= old(self).entries().len(),
    {
        proof {
            self.lemma_entries_finite();
            assert(old(self).entries().remove(*key).dom() =~= old(self).entries().dom().remove(*key));
        }
        broadcast use vstd::std_specs::hash::group_hash_axioms;

        match self.sessions.remove(key) {
            Some(e) => Some(e.session),
            None => None,
        }
    }

    /// Drops every session idle for the time to live or longer at `now`.
    pub fn evict_expired(&mut self, now: u128)
        requires
            obeys_key_model::<K>(),
        ensures
            final(self).ttl_spec() == old(self).ttl_spec(),
            final(self).capacity() == old(self).capacity(),
            final(self).entries() == live_entries(old(self).entries(), now, old(self).ttl_spec()),
            final(self).entries().len() <= old(self).entries().len(),
    {
        proof {
            broadcast use vstd::set::group_set_axioms;

            self.lemma_entries_finite();
            let m = old(self).entries();
            let keep = m.dom().filter(|k: K| is_live_at(m[k].last_accessed, now, self.ttl));
            assert(live_entries(m, now, self.ttl).dom() =~= keep);
            vstd::set_lib::lemma_len_subset(keep, m.dom());
        }
        retain_live(&mut self.sessions, now, self.ttl);
    }

    /// Returns the current number of sessions held.
    pub fn len(&self) -> (r: usize)
        requires
            obeys_key_model::<K>(),
        ensures
            r == self.entries().len(),
    {
        broadcast use vstd::std_specs::hash::group_hash_axioms;

        self.sessions.len()
    }

    /// Checks if there are no sessions held.
    pub fn is_empty(&self) -> (r: bool)
        requires
            obeys_key_model::<K>(),
        ensures
            r == (self.entries().len() == 0),
    {
        broadcast use vstd::std_specs::hash::group_hash_axioms;

        self.len() == 0
    }
}

} // verus!
