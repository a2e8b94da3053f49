use vstd::prelude::*;
use crate::entry::EntryModel;
use crate::store::{StoredEntry, spec_deadline, read_at, evict_at, write_at, no_entries};

verus! {

/// A value written with no time-to-live reads back as written at any
/// later instant whatsoever, and the read leaves the store unchanged,
/// however often it is repeated.
pub proof fn lemma_write_no_ttl_then_read<V>(
    m: Map<Seq<char>, StoredEntry<V>>,
    k: Seq<char>,
    v: EntryModel<V>,
    now_write: u64,
    now_read: u64,
)
    ensures
        read_at(write_at(m, k, v, None, now_write), k, now_read) == Some(v),
        evict_at(write_at(m, k, v, None, now_write), k, now_read) == write_at(
            m,
            k,
            v,
            None,
            now_write,
        ),
{
}

/// A value written with a time-to-live reads back as written at every
/// instant up to its deadline, with the store left unchanged; at every
/// instant strictly past the deadline it reads as nothing and the read
/// removes the key from storage.
pub proof fn lemma_write_ttl_then_read<V>(
    m: Map<Seq<char>, StoredEntry<V>>,
    k: Seq<char>,
    v: EntryModel<V>,
    ttl: u64,
    now_write: u64,
    now_read: u64,
)
    ensures
        now_read <= spec_deadline(Some(ttl), now_write)->0 ==> {
            &&& read_at(write_at(m, k, v, Some(ttl), now_write), k, now_read) == Some(v)
            &&& evict_at(write_at(m, k, v, Some(ttl), now_write), k, now_read) == write_at(
                m,
                k,
                v,
                Some(ttl),
                now_write,
            )
        },
        now_read > spec_deadline(Some(ttl), now_write)->0 ==> {
            &&& read_at(write_at(m, k, v, Some(ttl), now_write), k, now_read) == None::<
                EntryModel<V>,
            >
            &&& !evict_at(write_at(m, k, v, Some(ttl), now_write), k, now_read).contains_key(k)
        },
{
}

/// Writing a key twice leaves no trace of the first write: neither its
/// value nor its time-to-live has any residual effect.
pub proof fn lemma_overwrite<V>(
    m: Map<Seq<char>, StoredEntry<V>>,
    k: Seq<char>,
    v1: EntryModel<V>,
    v2: EntryModel<V>,
    ttl1: Option<u64>,
    ttl2: Option<u64>,
    now1: u64,
    now2: u64,
)
    ensures
        write_at(write_at(m, k, v1, ttl1, now1), k, v2, ttl2, now2) == write_at(
            m,
            k,
            v2,
            ttl2,
            now2,
        ),
{
    assert(write_at(write_at(m, k, v1, ttl1, now1), k, v2, ttl2, now2) =~= write_at(
        m,
        k,
        v2,
        ttl2,
        now2,
    ));
}

/// After a key is removed it reads as nothing at any instant; removing
/// a key that is not present leaves the store exactly as it was.
pub proof fn lemma_delete<V>(m: Map<Seq<char>, StoredEntry<V>>, k: Seq<char>, now: u64)
    ensures
        read_at(m.remove(k), k, now) == None::<EntryModel<V>>,
        !m.contains_key(k) ==> m.remove(k) == m,
{
    if !m.contains_key(k) {
        assert(m.remove(k) =~= m);
    }
}

/// In a cleared store every key whatsoever reads as nothing.
pub proof fn lemma_clear_reads_nothing<V>(
    m: Map<Seq<char>, StoredEntry<V>>,
    k: Seq<char>,
    now: u64,
)
    requires
        no_entries(m),
    ensures
        read_at(m, k, now) == None::<EntryModel<V>>,
{
}

/// Writes to one key neither change what a different key reads nor what
/// a read of that different key does to the store: keys are independent.
pub proof fn lemma_distinct_keys_independent<V>(
    m: Map<Seq<char>, StoredEntry<V>>,
    k_read: Seq<char>,
    k_write: Seq<char>,
    v: EntryModel<V>,
    ttl: Option<u64>,
    now_write: u64,
    now_read: u64,
)
    requires
        k_read != k_write,
    ensures
        read_at(write_at(m, k_write, v, ttl, now_write), k_read, now_read) == read_at(
            m,
            k_read,
            now_read,
        ),
        evict_at(write_at(m, k_write, v, ttl, now_write), k_read, now_read) == write_at(
            evict_at(m, k_read, now_read),
            k_write,
            v,
            ttl,
            now_write,
        ),
{
    let written = write_at(m, k_write, v, ttl, now_write);
    if m.contains_key(k_read) && crate::store::expired_at(m[k_read], now_read) {
        assert(evict_at(written, k_read, now_read) =~= write_at(
            evict_at(m, k_read, now_read),
            k_write,
            v,
            ttl,
            now_write,
        ));
    } else {
        assert(evict_at(written, k_read, now_read) =~= write_at(
            evict_at(m, k_read, now_read),
            k_write,
            v,
            ttl,
            now_write,
        ));
    }
}

} // verus!
