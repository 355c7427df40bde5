//! Properties that relate several operations of a store.
use vstd::prelude::*;

use crate::key::CursedKey;
use crate::storage::Storage;

verus! {

/// A store that holds nothing (a fresh one, initialized or not) resolves no
/// key at all.
pub proof fn lemma_empty_resolves_nothing<T>(s: Storage<T>, k: CursedKey)
    requires
        s.wf(),
        s.values().len() == 0,
    ensures
        s.lookup(k) == None::<T>,
{
}

/// The key that an insertion returns resolves, in the store it produced, to
/// the inserted value.
pub proof fn lemma_inserted_value_found<T>(s: Storage<T>, v: T, t: Storage<T>, k: CursedKey)
    requires
        s.appended(v, t, k),
    ensures
        t.resolves(k),
        t.lookup(k) == Some(v),
{
}

/// Writing through a reference obtained for a key is seen by every later
/// lookup of that key, and leaves the other slots as they were.
pub proof fn lemma_write_visible<T>(s: Storage<T>, k: CursedKey, x: T, t: Storage<T>)
    requires
        s.written(k, x, t),
    ensures
        t.lookup(k) == Some(x),
        forall|j: CursedKey| j.slot() != k.slot() ==> #[trigger] t.lookup(j) == s.lookup(j),
{
}

/// A key issued by one store never resolves against a store of another
/// identity, whatever its index.
pub proof fn lemma_foreign_key_rejected<T>(
    a: Storage<T>,
    v: T,
    a2: Storage<T>,
    k: CursedKey,
    b: Storage<T>,
)
    requires
        a.appended(v, a2, k),
        b.wf(),
        b.ident() != a.ident(),
    ensures
        b.lookup(k) == None::<T>,
{
}

/// A key whose index is at or beyond the number of values resolves to
/// nothing; after one insertion exactly the new index joins the keys that
/// resolve.
pub proof fn lemma_out_of_range_absent<T>(
    s: Storage<T>,
    v: T,
    t: Storage<T>,
    k: CursedKey,
    j: CursedKey,
)
    requires
        s.wf(),
        s.appended(v, t, k),
        j.issuer() == s.ident(),
    ensures
        j.slot() >= s.values().len() ==> s.lookup(j) == None::<T>,
        j.slot() >= t.values().len() ==> t.lookup(j) == None::<T>,
        t.resolves(j) <==> (s.resolves(j) || j.slot() == s.values().len()),
{
}

/// Initialization happens once: asking again, with any identity, changes
/// nothing, so every caller sees the identity and values of the first.
pub proof fn lemma_init_once<T>(s: Storage<T>, id1: usize, t: Storage<T>, id2: usize, u: Storage<T>)
    requires
        s.wf(),
        s.initialized_by(id1, t),
        t.initialized_by(id2, u),
    ensures
        u == t,
        !s.is_init() ==> u.ident() == id1 && u.values() == Seq::<T>::empty(),
        s.is_init() ==> u == s,
{
}

/// The states after each of a run of insertions into an empty store hold
/// the first `n` values, under the store's identity.
proof fn lemma_run_prefix<T>(
    states: Seq<Storage<T>>,
    vals: Seq<T>,
    keys: Seq<CursedKey>,
    n: int,
)
    requires
        states.len() == vals.len() + 1,
        keys.len() == vals.len(),
        states[0].is_init(),
        states[0].values().len() == 0,
        forall|i: int|
            0 <= i < vals.len() ==> #[trigger] states[i].appended(vals[i], states[i + 1], keys[i]),
        0 <= n <= vals.len(),
    ensures
        states[n].is_init(),
        states[n].ident() == states[0].ident(),
        states[n].values() == vals.take(n),
    decreases n,
{
    if n > 0 {
        let m = n - 1;
        lemma_run_prefix(states, vals, keys, m);
        assert(states[m].appended(vals[m], states[m + 1], keys[m]));
        assert(vals.take(n) == vals.take(m).push(vals[m]));
    } else {
        assert(vals.take(0) == Seq::<T>::empty());
    }
}

/// A run of insertions into an empty store, one value each, issues the
/// indices `0, 1, ..., n - 1` in order, all under the store's identity: no
/// two keys coincide, and at the end every key finds its own value.
pub proof fn lemma_inserts_issue_consecutive_keys<T>(
    states: Seq<Storage<T>>,
    vals: Seq<T>,
    keys: Seq<CursedKey>,
)
    requires
        states.len() == vals.len() + 1,
        keys.len() == vals.len(),
        states[0].is_init(),
        states[0].values().len() == 0,
        forall|i: int|
            0 <= i < vals.len() ==> #[trigger] states[i].appended(vals[i], states[i + 1], keys[i]),
    ensures
        states.last().values() == vals,
        forall|i: int|
            0 <= i < keys.len() ==> (#[trigger] keys[i]).slot() == i && keys[i].issuer()
                == states[0].ident(),
        forall|i: int, j: int| 0 <= i < j < keys.len() ==> keys[i] != keys[j],
        forall|i: int| 0 <= i < keys.len() ==> states.last().lookup(#[trigger] keys[i]) == Some(vals[i]),
{
    let n = vals.len() as int;
    lemma_run_prefix(states, vals, keys, n);
    assert(vals.take(n) == vals);
    assert forall|i: int| 0 <= i < keys.len() implies (#[trigger] keys[i]).slot() == i
        && keys[i].issuer() == states[0].ident() by {
        lemma_run_prefix(states, vals, keys, i);
        assert(states[i].appended(vals[i], states[i + 1], keys[i]));
    }
    assert forall|i: int, j: int| 0 <= i < j < keys.len() implies keys[i] != keys[j] by {
        assert(keys[i].slot() == i);
        assert(keys[j].slot() == j);
    }
}

} // verus!
