use vstd::prelude::*;
use crate::entry::{Entry, EntryModel, entry_cloned, clones_are_equal, lemma_entry_cloned_equal};

verus! {

// ---------------------------------------------------------------------------
// The mathematical model
// ---------------------------------------------------------------------------

/// What the store remembers about one key: the shape of the payload and
/// the optional absolute instant (in milliseconds) past which the entry
/// no longer counts as present. `None` means the entry never expires.
pub struct StoredEntry<V> {
    pub value: EntryModel<V>,
    pub expires_at: Option<u64>,
}

/// The absolute deadline written for a new entry: `now` plus the
/// time-to-live, saturating at the largest representable instant, or no
/// deadline at all when no time-to-live is given.
pub open spec fn spec_deadline(ttl_millis: Option<u64>, now: u64) -> Option<u64> {
    match ttl_millis {
        Some(d) => Some(
            if now + d > u64::MAX {
                u64::MAX as u64
            } else {
                (now + d) as u64
            },
        ),
        None => None,
    }
}

/// An entry is expired once the clock has moved strictly past its
/// deadline; an entry without a deadline is never expired.
pub open spec fn expired_at<V>(e: StoredEntry<V>, now: u64) -> bool {
    e.expires_at is Some && now > e.expires_at->0
}

/// A key reads back a value at `now` exactly when it is present and its
/// entry has not expired.
pub open spec fn live_at<V>(
    m: Map<Seq<char>, StoredEntry<V>>,
    k: Seq<char>,
    now: u64,
) -> bool {
    m.contains_key(k) && !expired_at(m[k], now)
}

/// What a read of `k` at `now` returns: the stored shape when the key is
/// live, nothing otherwise.
pub open spec fn read_at<V>(
    m: Map<Seq<char>, StoredEntry<V>>,
    k: Seq<char>,
    now: u64,
) -> Option<EntryModel<V>> {
    if live_at(m, k, now) {
        Some(m[k].value)
    } else {
        None
    }
}

/// What the store holds after a read of `k` at `now`: a read that
/// observes an expired entry removes it, and every other read leaves the
/// store unchanged.
pub open spec fn evict_at<V>(
    m: Map<Seq<char>, StoredEntry<V>>,
    k: Seq<char>,
    now: u64,
) -> Map<Seq<char>, StoredEntry<V>> {
    if m.contains_key(k) && expired_at(m[k], now) {
        m.remove(k)
    } else {
        m
    }
}

/// What the store holds after writing `v` under `k` at `now` with the
/// given time-to-live: the previous entry under `k`, whatever it was, is
/// replaced outright.
pub open spec fn write_at<V>(
    m: Map<Seq<char>, StoredEntry<V>>,
    k: Seq<char>,
    v: EntryModel<V>,
    ttl_millis: Option<u64>,
    now: u64,
) -> Map<Seq<char>, StoredEntry<V>> {
    m.insert(k, StoredEntry { value: v, expires_at: spec_deadline(ttl_millis, now) })
}

/// Holds when the store's view maps no key at all.
pub open spec fn no_entries<V>(m: Map<Seq<char>, StoredEntry<V>>) -> bool {
    m == Map::<Seq<char>, StoredEntry<V>>::empty()
}

/// The shape of the payload inside an optional returned entry.
pub open spec fn opt_entry_model<V>(r: Option<Entry<V>>) -> Option<EntryModel<V>> {
    match r {
        Some(e) => Some(e@),
        None => None,
    }
}

/// One read, in full: relates the store before and after a `get` of `k`
/// performed at instant `now` to the shape it returned.
pub open spec fn get_transition<V: Clone>(
    pre: Map<Seq<char>, StoredEntry<V>>,
    post: Map<Seq<char>, StoredEntry<V>>,
    k: Seq<char>,
    now: u64,
    r: Option<EntryModel<V>>,
) -> bool {
    &&& post == evict_at(pre, k, now)
    &&& (r is Some <==> live_at(pre, k, now))
    &&& (r matches Some(shape) ==> entry_cloned(pre[k].value, shape))
}

// ---------------------------------------------------------------------------
// Reading the clock
// ---------------------------------------------------------------------------

/// Relies on `std::time::SystemTime::now`: the wall clock, read as whole
/// milliseconds since the Unix epoch. Nothing is assumed of the value;
/// the clock may move arbitrarily between two reads.
#[verifier::external_body]
fn now_millis() -> u64 {
    let elapsed = std::time::SystemTime::now()
        .duration_since(std::time::UNIX_EPOCH)
        .unwrap_or(std::time::Duration::ZERO);
    elapsed.as_millis() as u64
}

// ---------------------------------------------------------------------------
// Entries as stored
// ---------------------------------------------------------------------------

/// A payload together with its optional absolute expiry instant, as kept
/// inside the store.
#[derive(Debug, Clone)]
pub struct InternalEntry<V> {
    value: Entry<V>,
    expiration: Option<u64>,
}

impl<V> View for InternalEntry<V> {
    type V = StoredEntry<V>;

    closed spec fn view(&self) -> StoredEntry<V> {
        StoredEntry { value: self.value@, expires_at: self.expiration }
    }
}

impl<V> InternalEntry<V> {
    /// Stamp `value` with the deadline `now + ttl_millis` (saturating),
    /// or with no deadline when no time-to-live is given.
    pub fn new_at(value: Entry<V>, ttl_millis: Option<u64>, now: u64) -> (e: Self)
        ensures
            e@ == (StoredEntry { value: value@, expires_at: spec_deadline(ttl_millis, now) }),
    {
        let expiration = match ttl_millis {
            Some(d) => Some(now.saturating_add(d)),
            None => None,
        };
        InternalEntry { value, expiration }
    }

    /// Stamp `value` against the clock as it reads now.
    pub fn new(value: Entry<V>, ttl_millis: Option<u64>) -> (e: Self)
        ensures
            e@.value == value@,
            e@.expires_at is Some <==> ttl_millis is Some,
            exists|now: u64| e@.expires_at == spec_deadline(ttl_millis, now),
    {
        let now = now_millis();
        let e = InternalEntry::new_at(value, ttl_millis, now);
        proof {
            assert(e@.expires_at == spec_deadline(ttl_millis, now));
        }
        e
    }

    /// Whether this entry is expired at instant `now`.
    pub fn is_expired_at(&self, now: u64) -> (r: bool)
        ensures
            r == expired_at(self@, now),
    {
        match self.expiration {
            Some(deadline) => now > deadline,
            None => false,
        }
    }

    /// Whether this entry is expired as the clock reads now. An entry
    /// without a deadline is never expired, whatever the clock says.
    pub fn is_expired(&self) -> (r: bool)
        ensures
            r ==> self@.expires_at is Some,
            self@.expires_at is None ==> r == false,
            exists|now: u64| r == expired_at(self@, now),
    {
        let now = now_millis();
        self.is_expired_at(now)
    }
}

// ---------------------------------------------------------------------------
// The store
// ---------------------------------------------------------------------------

#[verifier::external_type_specification]
#[verifier::external_body]
#[verifier::reject_recursive_types(K)]
#[verifier::reject_recursive_types(V)]
#[verifier::reject_recursive_types(S)]
pub struct ExDashMap<K, V, S>(dashmap::DashMap<K, V, S>);

/// A mapping from string keys to [`Entry`] payloads with per-entry
/// expiry. The entries live in a sharded concurrent map; its contents
/// are tracked, key by key, in the ghost view `self@`.
#[verifier::reject_recursive_types(V)]
pub struct LocalCache<V> {
    cache: dashmap::DashMap<String, InternalEntry<V>>,
    contents: Ghost<Map<Seq<char>, StoredEntry<V>>>,
}

impl<V> View for LocalCache<V> {
    type V = Map<Seq<char>, StoredEntry<V>>;

    closed spec fn view(&self) -> Map<Seq<char>, StoredEntry<V>> {
        self.contents@
    }
}

impl<V: Clone> LocalCache<V> {
    /// Relies on `dashmap::DashMap::new`: the new map holds no entries,
    /// which is what lets [`LocalCache::new`] pair it with the empty
    /// ghost view.
    #[verifier::external_body]
    fn raw_new_table() -> dashmap::DashMap<String, InternalEntry<V>> {
        dashmap::DashMap::new()
    }

    /// A store with no entries.
    pub fn new() -> (c: Self)
        ensures
            c@ == Map::<Seq<char>, StoredEntry<V>>::empty(),
    {
        LocalCache { cache: Self::raw_new_table(), contents: Ghost(Map::empty()) }
    }

    /// Relies on `dashmap::DashMap::get`: returns the entry stored under
    /// a key equal in content to `key`, if there is one, copied out of
    /// the map by its derived clone, which keeps the expiry stamp as it
    /// is and clones each contained value with `V::clone`.
    #[verifier::external_body]
    fn raw_get(&self, key: &str) -> (r: Option<InternalEntry<V>>)
        ensures
            r is Some <==> self@.contains_key(key@),
            r matches Some(e) ==> {
                &&& e@.expires_at == self@[key@].expires_at
                &&& entry_cloned(self@[key@].value, e@.value)
            },
    {
        self.cache.get(key).map(|found| found.value().clone())
    }

    /// Relies on `dashmap::DashMap::insert`: after the call the map holds
    /// `entry` under `key`, in place of whatever the key held before, and
    /// no other key is touched.
    #[verifier::external_body]
    fn raw_insert(&mut self, key: String, entry: InternalEntry<V>)
        ensures
            final(self)@ == old(self)@.insert(key@, entry@),
    {
        self.cache.insert(key, entry);
    }

    /// Relies on `dashmap::DashMap::remove`: after the call the map holds
    /// nothing under `key`, and no other key is touched.
    #[verifier::external_body]
    fn raw_remove(&mut self, key: &str)
        ensures
            final(self)@ == old(self)@.remove(key@),
    {
        self.cache.remove(key);
    }

    /// Relies on `dashmap::DashMap::clear`: after the call the map holds
    /// no entries at all.
    #[verifier::external_body]
    fn raw_clear(&mut self)
        ensures
            no_entries(final(self)@),
    {
        self.cache.clear();
    }

    /// Read `key` as of instant `now`. An absent key reads as nothing; an
    /// entry expired at `now` is removed and reads as nothing; a live
    /// entry is returned and left in place.
    pub fn get_at(&mut self, key: &str, now: u64) -> (r: Option<Entry<V>>)
        ensures
            get_transition(old(self)@, final(self)@, key@, now, opt_entry_model(r)),
            clones_are_equal::<V>() && live_at(old(self)@, key@, now) ==> (r matches Some(e)
                && e@ == old(self)@[key@].value),
            clones_are_equal::<V>() ==> opt_entry_model(r) == read_at(old(self)@, key@, now),
    {
        let found = self.raw_get(key);
        match found {
            None => None,
            Some(entry) => {
                if entry.is_expired_at(now) {
                    self.raw_remove(key);
                    None
                } else {
                    proof {
                        if clones_are_equal::<V>() {
                            lemma_entry_cloned_equal(self@[key@].value, entry@.value);
                        }
                    }
                    Some(entry.value)
                }
            },
        }
    }

    /// Write `value` under `key` as of instant `now`, replacing whatever
    /// the key held, with the deadline `now + ttl_millis` (saturating) or
    /// none.
    pub fn set_at(&mut self, key: String, value: Entry<V>, ttl_millis: Option<u64>, now: u64)
        ensures
            final(self)@ == write_at(old(self)@, key@, value@, ttl_millis, now),
    {
        let entry = InternalEntry::new_at(value, ttl_millis, now);
        self.raw_insert(key, entry);
    }
}

impl<V: Clone> Default for LocalCache<V> {
    /// A store with no entries, as [`LocalCache::new`] builds it.
    fn default() -> (c: Self)
        ensures
            c@ == Map::<Seq<char>, StoredEntry<V>>::empty(),
    {
        LocalCache::new()
    }
}

// ---------------------------------------------------------------------------
// The four-operation contract
// ---------------------------------------------------------------------------

/// The public face of the store: read, write, delete, and clear, with
/// the implementation's current key-to-entry map as the abstract state.
pub trait Cache<V: Clone>: Sized {
    /// The key-to-entry map the implementation currently holds.
    spec fn contents(&self) -> Map<Seq<char>, StoredEntry<V>>;

    /// Read `key` at the instant the call takes its clock sample: an
    /// absent key reads as nothing, an entry expired at that instant is
    /// removed and reads as nothing, and a live entry is returned,
    /// cloned, and left in place.
    fn get(&mut self, key: &str) -> (r: Option<Entry<V>>)
        ensures
            exists|now: u64|
                get_transition(
                    old(self).contents(),
                    final(self).contents(),
                    key@,
                    now,
                    opt_entry_model(r),
                ),
            !old(self).contents().contains_key(key@) ==> r is None && final(self).contents()
                == old(self).contents(),
            old(self).contents().contains_key(key@) && old(self).contents()[key@].expires_at
                is None ==> (r matches Some(e) && entry_cloned(
                old(self).contents()[key@].value,
                e@,
            ) && final(self).contents() == old(self).contents()),
            clones_are_equal::<V>() ==> (r matches Some(e)
                ==> old(self).contents().contains_key(key@) && e@
                == old(self).contents()[key@].value),
    ;

    /// Write `value` under `key`, replacing whatever the key held before,
    /// with a deadline of the clock sample plus `ttl_millis`, or with no
    /// deadline when `ttl_millis` is `None`.
    fn set(&mut self, key: String, value: Entry<V>, ttl_millis: Option<u64>)
        ensures
            exists|now: u64|
                final(self).contents() == write_at(
                    old(self).contents(),
                    key@,
                    value@,
                    ttl_millis,
                    now,
                ),
            final(self).contents().contains_key(key@),
            final(self).contents()[key@].value == value@,
            final(self).contents()[key@].expires_at is Some <==> ttl_millis is Some,
            ttl_millis is None ==> final(self).contents() == old(self).contents().insert(
                key@,
                (StoredEntry { value: value@, expires_at: None }),
            ),
            forall|k: Seq<char>|
                k != key@ ==> (final(self).contents().contains_key(k) <==> old(self).contents().contains_key(k)),
            forall|k: Seq<char>|
                k != key@ && old(self).contents().contains_key(k) ==> final(self).contents()[k] == old(self).contents()[k],
    ;

    /// Remove `key` if present; removing an absent key changes nothing.
    fn del(&mut self, key: &str)
        ensures
            final(self).contents() == old(self).contents().remove(key@),
    ;

    /// Remove every entry unconditionally.
    fn clear(&mut self)
        ensures
            final(self).contents() == Map::<Seq<char>, StoredEntry<V>>::empty(),
    ;
}

impl<V: Clone> Cache<V> for LocalCache<V> {
    open spec fn contents(&self) -> Map<Seq<char>, StoredEntry<V>> {
        self@
    }

    fn get(&mut self, key: &str) -> (r: Option<Entry<V>>) {
        let ghost pre = self@;
        let now = now_millis();
        let r = self.get_at(key, now);
        proof {
            assert(get_transition(old(self).contents(), self.contents(), key@, now, opt_entry_model(r)));
            if clones_are_equal::<V>() {
                match &r {
                    Some(e) => {
                        lemma_entry_cloned_equal(pre[key@].value, e@);
                    },
                    None => {},
                }
            }
        }
        r
    }

    fn set(&mut self, key: String, value: Entry<V>, ttl_millis: Option<u64>) {
        let now = now_millis();
        let ghost k = key@;
        self.set_at(key, value, ttl_millis, now);
        proof {
            assert(self.contents() == write_at(old(self).contents(), k, value@, ttl_millis, now));
        }
    }

    fn del(&mut self, key: &str) {
        self.raw_remove(key);
    }

    fn clear(&mut self) {
        self.raw_clear();
    }
}

} // verus!
