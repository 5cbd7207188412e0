//! The build environment variables of the configuration: an insertion-
//! ordered map (`indexmap::IndexMap<String, String>`), seen by the proofs as
//! its sequence of `(key, value)` entries.

use indexmap::IndexMap;
use vstd::prelude::*;

verus! {

#[verifier::external_type_specification]
#[verifier::external_body]
#[verifier::reject_recursive_types(K)]
#[verifier::reject_recursive_types(V)]
#[verifier::reject_recursive_types(S)]
pub struct ExIndexMap<K, V, S>(IndexMap<K, V, S>);

/// One entry of an environment map, by the views of its key and value.
pub type EnvEntry = (Seq<char>, Seq<char>);

/// The entries of an environment map, in the map's iteration order
/// (insertion order).
pub uninterp spec fn env_entries(m: IndexMap<String, String>) -> Seq<EnvEntry>;

/// The keys of a sequence of entries, in order.
pub open spec fn entry_keys(s: Seq<EnvEntry>) -> Seq<Seq<char>> {
    s.map_values(|e: EnvEntry| e.0)
}

/// `IndexMap::insert` on the entry sequence: a key that is already present
/// keeps its position and takes the new value; a new key goes last.
pub open spec fn insert_entry(s: Seq<EnvEntry>, k: Seq<char>, v: Seq<char>) -> Seq<EnvEntry> {
    match entry_keys(s).index_of_first(k) {
        Some(i) => s.update(i, (k, v)),
        None => s.push((k, v)),
    }
}

/// `IndexMap::extend`: the entries of `t` inserted one after another.
pub open spec fn extend_entries(s: Seq<EnvEntry>, t: Seq<EnvEntry>) -> Seq<EnvEntry>
    decreases t.len(),
{
    if t.len() == 0 {
        s
    } else {
        let e = t.last();
        insert_entry(extend_entries(s, t.drop_last()), e.0, e.1)
    }
}

/// The value a sequence of entries gives a key.
pub open spec fn lookup(s: Seq<EnvEntry>, k: Seq<char>) -> Option<Seq<char>> {
    match entry_keys(s).index_of_first(k) {
        Some(i) => Some(s[i].1),
        None => None,
    }
}

/// Every key occurs at most once, as in every map.
pub open spec fn keys_unique(s: Seq<EnvEntry>) -> bool {
    entry_keys(s).no_duplicates()
}

/// The keys of `s`, followed by those keys of `t` that `s` lacks, in the
/// order of `t`.
pub open spec fn merged_keys(s: Seq<Seq<char>>, t: Seq<Seq<char>>) -> Seq<Seq<char>> {
    s + t.filter(|k: Seq<char>| !s.contains(k))
}

/// `IndexMap::new`: an empty map.
#[verifier::external_body]
pub(crate) fn env_new() -> (m: IndexMap<String, String>)
    ensures
        env_entries(m) == Seq::<EnvEntry>::empty(),
        keys_unique(env_entries(m)),
{
    IndexMap::new()
}

/// `IndexMap::clone`: the same entries in the same order. Like every
/// `IndexMap`, the clone holds each key once.
#[verifier::external_body]
pub(crate) fn env_clone(m: &IndexMap<String, String>) -> (r: IndexMap<String, String>)
    ensures
        env_entries(r) == env_entries(*m),
        keys_unique(env_entries(r)),
{
    m.clone()
}

/// `IndexMap::extend` with the entries of another map, which inserts them
/// one after another in that map's order. Like every `IndexMap`, the
/// extended map holds each key once.
#[verifier::external_body]
pub(crate) fn env_extend(m: &mut IndexMap<String, String>, other: IndexMap<String, String>)
    ensures
        env_entries(*final(m)) == extend_entries(env_entries(*old(m)), env_entries(other)),
        keys_unique(env_entries(*final(m))),
{
    m.extend(other)
}

// ---------------------------------------------------------------------------
// Lemmas
// ---------------------------------------------------------------------------

proof fn lemma_keys_push(s: Seq<EnvEntry>, e: EnvEntry)
    ensures
        entry_keys(s.push(e)) == entry_keys(s).push(e.0),
{
    assert(entry_keys(s.push(e)) =~= entry_keys(s).push(e.0));
}

proof fn lemma_keys_update(s: Seq<EnvEntry>, i: int, e: EnvEntry)
    requires
        0 <= i < s.len(),
    ensures
        entry_keys(s.update(i, e)) == entry_keys(s).update(i, e.0),
{
    assert(entry_keys(s.update(i, e)) =~= entry_keys(s).update(i, e.0));
}

/// After inserting `(k, v)`, `k` gives `v` and every other key gives what
/// it gave before.
pub proof fn lemma_lookup_insert(s: Seq<EnvEntry>, k: Seq<char>, v: Seq<char>, k2: Seq<char>)
    ensures
        lookup(insert_entry(s, k, v), k2) == if k2 == k {
            Some(v)
        } else {
            lookup(s, k2)
        },
{
    let keys = entry_keys(s);
    keys.index_of_first_ensures(k);
    keys.index_of_first_ensures(k2);
    match keys.index_of_first(k) {
        Some(i) => {
            lemma_keys_update(s, i, (k, v));
            let keys2 = keys.update(i, k);
            assert(keys2 =~= keys);
            keys2.index_of_first_ensures(k2);
        },
        None => {
            lemma_keys_push(s, (k, v));
            let keys2 = keys.push(k);
            keys2.index_of_first_ensures(k2);
            if k2 != k {
                if keys.contains(k2) {
                    let j = keys.index_of_first(k2).unwrap();
                    assert(keys2[j] == k2);
                } else {
                    assert forall|j: int| 0 <= j < keys2.len() implies keys2[j] != k2 by {
                        if j < keys.len() {
                            assert(keys2[j] == keys[j]);
                        }
                    }
                }
            } else {
                assert(keys2[keys.len() as int] == k);
            }
        },
    }
}

/// Inserting keeps the keys unique.
pub proof fn lemma_insert_keeps_unique(s: Seq<EnvEntry>, k: Seq<char>, v: Seq<char>)
    requires
        keys_unique(s),
    ensures
        keys_unique(insert_entry(s, k, v)),
{
    let keys = entry_keys(s);
    keys.index_of_first_ensures(k);
    match keys.index_of_first(k) {
        Some(i) => {
            lemma_keys_update(s, i, (k, v));
            assert(keys.update(i, k) =~= keys);
        },
        None => {
            lemma_keys_push(s, (k, v));
            let keys2 = keys.push(k);
            assert forall|a: int, b: int|
                0 <= a < keys2.len() && 0 <= b < keys2.len() && a != b implies keys2[a]
                != keys2[b] by {
                if a == keys.len() {
                    assert(keys2[b] == keys[b]);
                } else if b == keys.len() {
                    assert(keys2[a] == keys[a]);
                }
            }
        },
    }
}

/// The last entry of a sequence with unique keys is the only one with its
/// key.
proof fn lemma_lookup_unique_last(t: Seq<EnvEntry>, k: Seq<char>)
    requires
        t.len() > 0,
        keys_unique(t),
    ensures
        lookup(t, k) == if t.last().0 == k {
            Some(t.last().1)
        } else {
            lookup(t.drop_last(), k)
        },
{
    let keys = entry_keys(t);
    let keys0 = entry_keys(t.drop_last());
    assert(keys0 =~= keys.drop_last());
    keys.index_of_first_ensures(k);
    keys0.index_of_first_ensures(k);
    let n = t.len() - 1;
    assert(keys[n] == t.last().0);
    if t.last().0 == k {
        assert(keys.contains(k));
        let i = keys.index_of_first(k).unwrap();
        if i != n {
            assert(keys[i] == keys[n]);
        }
    } else {
        if keys0.contains(k) {
            let j = keys0.index_of_first(k).unwrap();
            assert(keys[j] == k);
        } else if keys.contains(k) {
            let i = keys.index_of_first(k).unwrap();
            if i < n {
                assert(keys0[i] == k);
            }
        }
    }
}

/// With unique keys in `t`, extending `s` by `t` gives every key of `t` its
/// value in `t`, and every other key its value in `s`.
pub proof fn lemma_lookup_extend(s: Seq<EnvEntry>, t: Seq<EnvEntry>, k: Seq<char>)
    requires
        keys_unique(t),
    ensures
        lookup(extend_entries(s, t), k) == match lookup(t, k) {
            Some(v) => Some(v),
            None => lookup(s, k),
        },
    decreases t.len(),
{
    if t.len() == 0 {
        entry_keys(t).index_of_first_ensures(k);
    } else {
        let t0 = t.drop_last();
        assert(entry_keys(t0) =~= entry_keys(t).drop_last());
        lemma_lookup_extend(s, t0, k);
        lemma_lookup_insert(extend_entries(s, t0), t.last().0, t.last().1, k);
        lemma_lookup_unique_last(t, k);
    }
}

/// Extending keeps the keys unique.
pub proof fn lemma_extend_keeps_unique(s: Seq<EnvEntry>, t: Seq<EnvEntry>)
    requires
        keys_unique(s),
    ensures
        keys_unique(extend_entries(s, t)),
    decreases t.len(),
{
    if t.len() > 0 {
        lemma_extend_keeps_unique(s, t.drop_last());
        lemma_insert_keeps_unique(extend_entries(s, t.drop_last()), t.last().0, t.last().1);
    }
}

/// Without its last entry, a sequence with unique keys still has unique
/// keys, none of which is the last entry's key.
proof fn lemma_keys_drop_last(t: Seq<EnvEntry>)
    requires
        t.len() > 0,
        keys_unique(t),
    ensures
        keys_unique(t.drop_last()),
        entry_keys(t) == entry_keys(t.drop_last()).push(t.last().0),
        !entry_keys(t.drop_last()).contains(t.last().0),
{
    let keys = entry_keys(t);
    let keys0 = entry_keys(t.drop_last());
    assert(keys0 =~= keys.drop_last());
    assert(keys =~= keys0.push(t.last().0));
    if keys0.contains(t.last().0) {
        let j = choose|j: int| 0 <= j < keys0.len() && keys0[j] == t.last().0;
        assert(keys[j] == keys[keys.len() - 1]);
    }
}

/// An element of `a + b` is an element of `a` or of `b`.
proof fn lemma_contains_add(a: Seq<Seq<char>>, b: Seq<Seq<char>>, x: Seq<char>)
    ensures
        (a + b).contains(x) <==> a.contains(x) || b.contains(x),
{
    if a.contains(x) {
        let i = choose|i: int| 0 <= i < a.len() && a[i] == x;
        assert((a + b)[i] == x);
    }
    if b.contains(x) {
        let i = choose|i: int| 0 <= i < b.len() && b[i] == x;
        assert((a + b)[a.len() + i] == x);
    }
    if (a + b).contains(x) {
        let i = choose|i: int| 0 <= i < (a + b).len() && (a + b)[i] == x;
        if i < a.len() {
            assert(a[i] == x);
        } else {
            assert(b[i - a.len()] == x);
        }
    }
}

/// An element of a filtered sequence is an element of the sequence that
/// the predicate accepts, and each such element is kept.
proof fn lemma_filter_contains_iff(s: Seq<Seq<char>>, p: spec_fn(Seq<char>) -> bool, x: Seq<char>)
    ensures
        s.filter(p).contains(x) <==> s.contains(x) && p(x),
{
    if s.filter(p).contains(x) {
        s.lemma_filter_contains_rev(p, x);
        let i = choose|i: int| 0 <= i < s.filter(p).len() && s.filter(p)[i] == x;
        s.lemma_filter_pred(p, i);
    }
    if s.contains(x) && p(x) {
        let i = choose|i: int| 0 <= i < s.len() && s[i] == x;
        s.lemma_filter_contains(p, i);
    }
}

/// Filtering twice is filtering once by both predicates.
proof fn lemma_filter_filter(
    s: Seq<Seq<char>>,
    p: spec_fn(Seq<char>) -> bool,
    q: spec_fn(Seq<char>) -> bool,
)
    ensures
        s.filter(p).filter(q) == s.filter(|k: Seq<char>| p(k) && q(k)),
    decreases s.len(),
{
    let pq = |k: Seq<char>| p(k) && q(k);
    if s.len() == 0 {
        reveal(Seq::filter);
        assert(s.filter(p) =~= s);
    } else {
        let s0 = s.drop_last();
        let e = s.last();
        assert(s =~= s0.push(e));
        lemma_filter_filter(s0, p, q);
        s0.lemma_filter_push(e, p);
        s0.lemma_filter_push(e, pq);
        s0.filter(p).lemma_filter_push(e, q);
    }
}

/// With unique keys in `t`, extending `s` by `t` keeps the keys of `s` in
/// their order and appends the keys of `t` that `s` lacks, in the order of
/// `t`.
pub proof fn lemma_extend_keys(s: Seq<EnvEntry>, t: Seq<EnvEntry>)
    requires
        keys_unique(t),
    ensures
        entry_keys(extend_entries(s, t)) == merged_keys(entry_keys(s), entry_keys(t)),
    decreases t.len(),
{
    let ks = entry_keys(s);
    let p = |k: Seq<char>| !ks.contains(k);
    if t.len() == 0 {
        reveal(Seq::filter);
        assert(entry_keys(t).filter(p) =~= Seq::<Seq<char>>::empty());
        assert(ks + entry_keys(t).filter(p) =~= ks);
    } else {
        let t0 = t.drop_last();
        let e = t.last();
        lemma_keys_drop_last(t);
        lemma_extend_keys(s, t0);
        let m = extend_entries(s, t0);
        let km = entry_keys(m);
        let f0 = entry_keys(t0).filter(p);
        assert(km == ks + f0);
        entry_keys(t0).lemma_filter_push(e.0, p);
        lemma_contains_add(ks, f0, e.0);
        lemma_filter_contains_iff(entry_keys(t0), p, e.0);
        km.index_of_first_ensures(e.0);
        match km.index_of_first(e.0) {
            Some(i) => {
                lemma_keys_update(m, i, e);
                assert(km.update(i, e.0) =~= km);
            },
            None => {
                lemma_keys_push(m, e);
                assert((ks + f0).push(e.0) =~= ks + f0.push(e.0));
            },
        }
    }
}

/// Two entry sequences with unique keys, the same keys in the same order,
/// and the same value for every key are the same sequence.
proof fn lemma_unique_entries_equal(s1: Seq<EnvEntry>, s2: Seq<EnvEntry>)
    requires
        keys_unique(s1),
        keys_unique(s2),
        entry_keys(s1) == entry_keys(s2),
        forall|k: Seq<char>| lookup(s1, k) == lookup(s2, k),
    ensures
        s1 == s2,
{
    let keys = entry_keys(s1);
    assert(s1.len() == keys.len() && s2.len() == entry_keys(s2).len());
    assert forall|i: int| 0 <= i < s1.len() implies s1[i] == s2[i] by {
        let k = keys[i];
        keys.index_of_first_ensures(k);
        let j = keys.index_of_first(k).unwrap();
        if j != i {
            assert(keys[j] == keys[i]);
        }
        assert(lookup(s1, k) == lookup(s2, k));
        assert(entry_keys(s2)[i] == s2[i].0);
    }
    assert(s1 =~= s2);
}

/// Extending by `t` and then by `u` is extending by `t` extended by `u`.
pub proof fn lemma_extend_associative(s: Seq<EnvEntry>, t: Seq<EnvEntry>, u: Seq<EnvEntry>)
    requires
        keys_unique(s),
        keys_unique(t),
        keys_unique(u),
    ensures
        extend_entries(extend_entries(s, t), u) == extend_entries(s, extend_entries(t, u)),
{
    let st = extend_entries(s, t);
    let tu = extend_entries(t, u);
    let lhs = extend_entries(st, u);
    let rhs = extend_entries(s, tu);
    lemma_extend_keeps_unique(s, t);
    lemma_extend_keeps_unique(st, u);
    lemma_extend_keeps_unique(t, u);
    lemma_extend_keeps_unique(s, tu);
    // The keys agree.
    let ks = entry_keys(s);
    let kt = entry_keys(t);
    let ku = entry_keys(u);
    lemma_extend_keys(s, t);
    lemma_extend_keys(st, u);
    lemma_extend_keys(t, u);
    lemma_extend_keys(s, tu);
    let ps = |k: Seq<char>| !ks.contains(k);
    let pt = |k: Seq<char>| !kt.contains(k);
    let kst = ks + kt.filter(ps);
    let pst = |k: Seq<char>| !kst.contains(k);
    assert(entry_keys(lhs) == kst + ku.filter(pst));
    assert(entry_keys(rhs) == ks + (kt + ku.filter(pt)).filter(ps));
    Seq::filter_distributes_over_add(kt, ku.filter(pt), ps);
    lemma_filter_filter(ku, pt, ps);
    let both = |k: Seq<char>| pt(k) && ps(k);
    assert forall|k: Seq<char>| #[trigger] pst(k) == both(k) by {
        lemma_contains_add(ks, kt.filter(ps), k);
        lemma_filter_contains_iff(kt, ps, k);
    }
    assert(pst =~= both);
    assert(entry_keys(rhs) =~= entry_keys(lhs));
    // The values agree.
    assert forall|k: Seq<char>| lookup(lhs, k) == lookup(rhs, k) by {
        lemma_lookup_extend(st, u, k);
        lemma_lookup_extend(s, t, k);
        lemma_lookup_extend(s, tu, k);
        lemma_lookup_extend(t, u, k);
    }
    lemma_unique_entries_equal(lhs, rhs);
}

} // verus!
