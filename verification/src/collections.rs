//! Insertion-ordered maps keyed by strings, held in `indexmap::IndexMap`.
//!
//! The verifier sees a map through the sequence of its entries, in order, each key by its
//! characters and each value by its view.

use indexmap::IndexMap;
use vstd::prelude::*;
use crate::extensions::{ResolvedPod, ResolvedPodView};
use crate::quadlet::PodNetworkOptions;

verus! {

/// The `indexmap::IndexMap` type, opaque to the verifier.
#[verifier::external_type_specification]
#[verifier::external_body]
#[verifier::reject_recursive_types(K)]
#[verifier::reject_recursive_types(V)]
#[verifier::reject_recursive_types(S)]
pub struct ExIndexMap<K, V, S>(IndexMap<K, V, S>);

/// No two entries share a key.
pub open spec fn distinct_keys<V>(e: Seq<(Seq<char>, V)>) -> bool {
    forall|i: int, j: int| 0 <= i < j < e.len() ==> (#[trigger] e[i]).0 != (#[trigger] e[j]).0
}

/// Some entry has key `k`.
pub open spec fn has_key<V>(e: Seq<(Seq<char>, V)>, k: Seq<char>) -> bool {
    exists|i: int| 0 <= i < e.len() && (#[trigger] e[i]).0 == k
}

/// The position of the entry with key `k`.
pub open spec fn key_pos<V>(e: Seq<(Seq<char>, V)>, k: Seq<char>) -> int {
    choose|i: int| 0 <= i < e.len() && (#[trigger] e[i]).0 == k
}

/// The value stored under key `k`.
pub open spec fn lookup<V>(e: Seq<(Seq<char>, V)>, k: Seq<char>) -> Option<V> {
    if has_key(e, k) {
        Some(e[key_pos(e, k)].1)
    } else {
        None
    }
}

/// The entries after inserting `v` under `k`: an existing key keeps its place and takes the new
/// value; a new key goes last.
pub open spec fn insert_entry<V>(e: Seq<(Seq<char>, V)>, k: Seq<char>, v: V) -> Seq<
    (Seq<char>, V),
> {
    if has_key(e, k) {
        e.update(key_pos(e, k), (k, v))
    } else {
        e.push((k, v))
    }
}

/// Inserting keeps the keys distinct.
pub proof fn lemma_insert_distinct<V>(e: Seq<(Seq<char>, V)>, k: Seq<char>, v: V)
    requires
        distinct_keys(e),
    ensures
        distinct_keys(insert_entry(e, k, v)),
        has_key(insert_entry(e, k, v), k),
        lookup(insert_entry(e, k, v), k) == Some(v),
{
    let r = insert_entry(e, k, v);
    if has_key(e, k) {
        let p = key_pos(e, k);
        assert(r[p].0 == k);
    } else {
        assert(r[e.len() as int].0 == k);
    }
    assert(has_key(r, k));
    let q = key_pos(r, k);
    if has_key(e, k) {
        let p = key_pos(e, k);
        if q != p {
            assert(r[q] == e[q]);
            assert(e[q].0 == k);
        }
    } else {
        if q != e.len() {
            assert(r[q] == e[q]);
        }
    }
}

/// The entries of a pod-attachment map.
pub uninterp spec fn attachment_entries(m: IndexMap<String, PodNetworkOptions>) -> Seq<
    (Seq<char>, PodNetworkOptions),
>;

/// `IndexMap::new`: a map with no entries.
#[verifier::external_body]
pub(crate) fn attachments_new() -> (m: IndexMap<String, PodNetworkOptions>)
    ensures
        attachment_entries(m) == Seq::<(Seq<char>, PodNetworkOptions)>::empty(),
{
    IndexMap::new()
}

/// `IndexMap::insert`: an existing key keeps its place and takes the new value; a new key goes
/// last.
#[verifier::external_body]
pub(crate) fn attachments_insert(
    m: &mut IndexMap<String, PodNetworkOptions>,
    key: String,
    value: PodNetworkOptions,
)
    ensures
        attachment_entries(*final(m)) == insert_entry(attachment_entries(*old(m)), key@, value),
        distinct_keys(attachment_entries(*final(m))),
{
    m.insert(key, value);
}

/// `IndexMap::len`: the number of entries.
#[verifier::external_body]
pub(crate) fn attachments_len(m: &IndexMap<String, PodNetworkOptions>) -> (n: usize)
    ensures
        n == attachment_entries(*m).len(),
{
    m.len()
}

/// `IndexMap::get_index`: the entry at position `i`.
#[verifier::external_body]
pub(crate) fn attachments_get_index(m: &IndexMap<String, PodNetworkOptions>, i: usize) -> (r: (
    &String,
    &PodNetworkOptions,
))
    requires
        i < attachment_entries(*m).len(),
    ensures
        r.0@ == attachment_entries(*m)[i as int].0,
        *r.1 == attachment_entries(*m)[i as int].1,
{
    m.get_index(i).unwrap()
}

/// `IndexMap::clone`: a map with the same entries, in the same order.
#[verifier::external_body]
pub(crate) fn attachments_clone(m: &IndexMap<String, PodNetworkOptions>) -> (r: IndexMap<
    String,
    PodNetworkOptions,
>)
    ensures
        attachment_entries(r) == attachment_entries(*m),
{
    m.clone()
}

/// The entries of a map of resolved pods, each pod by its view.
pub uninterp spec fn pod_entries(m: IndexMap<String, ResolvedPod>) -> Seq<
    (Seq<char>, ResolvedPodView),
>;

/// `IndexMap::new`: a map with no entries.
#[verifier::external_body]
pub(crate) fn pods_new() -> (m: IndexMap<String, ResolvedPod>)
    ensures
        pod_entries(m) == Seq::<(Seq<char>, ResolvedPodView)>::empty(),
{
    IndexMap::new()
}

/// `IndexMap::insert`: an existing key keeps its place and takes the new value; a new key goes
/// last.
#[verifier::external_body]
pub(crate) fn pods_insert(m: &mut IndexMap<String, ResolvedPod>, key: String, value: ResolvedPod)
    ensures
        pod_entries(*final(m)) == insert_entry(pod_entries(*old(m)), key@, value@),
        distinct_keys(pod_entries(*final(m))),
{
    m.insert(key, value);
}

/// `IndexMap::len`: the number of entries.
#[verifier::external_body]
pub(crate) fn pods_len(m: &IndexMap<String, ResolvedPod>) -> (n: usize)
    ensures
        n == pod_entries(*m).len(),
{
    m.len()
}

/// `IndexMap::get_index`: the entry at position `i`.
#[verifier::external_body]
pub(crate) fn pods_get_index(m: &IndexMap<String, ResolvedPod>, i: usize) -> (r: (&String, &ResolvedPod))
    requires
        i < pod_entries(*m).len(),
    ensures
        r.0@ == pod_entries(*m)[i as int].0,
        r.1@ == pod_entries(*m)[i as int].1,
{
    m.get_index(i).unwrap()
}

/// `IndexMap::get`: the value stored under `key`, if any.
#[verifier::external_body]
pub(crate) fn pods_get<'a>(m: &'a IndexMap<String, ResolvedPod>, key: &str) -> (r: Option<&'a ResolvedPod>)
    ensures
        match r {
            Some(p) => lookup(pod_entries(*m), key@) == Some(p@),
            None => !has_key(pod_entries(*m), key@),
        },
{
    m.get(key)
}

} // verus!
