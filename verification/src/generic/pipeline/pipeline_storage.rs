use vstd::prelude::*;

use std::collections::hash_map::Entry;
use std::collections::HashMap;

use crate::type_key::TypeKey;

verus! {

broadcast use {vstd::std_specs::hash::group_hash_axioms, vstd::std_specs::hash::axiom_has_resolved_entry};

/// Pipeline wide storage, holding at most one value per type.
///
/// Values are looked up by the key of their type. Its view is the map from each
/// stored type to the value stored for it.
#[derive(Debug)]
pub struct PipelineStorage<V> {
    inner: HashMap<u64, V>,
}

/// The map from type keys that a map from their integers describes.
pub open spec fn keyed_map<V>(m: Map<u64, V>) -> Map<TypeKey, V> {
    Map::new(|k: TypeKey| m.contains_key(k.0), |k: TypeKey| m[k.0])
}

impl<V> View for PipelineStorage<V> {
    type V = Map<TypeKey, V>;

    closed spec fn view(&self) -> Map<TypeKey, V> {
        keyed_map(self.inner@)
    }
}

/// One call that changes a storage.
pub enum StorageOp<V> {
    /// `insert(key, value)`.
    Insert(TypeKey, V),
    /// Writing `value` through the reference `get_mut(key)` returned (nothing when
    /// it returned none).
    Write(TypeKey, V),
    /// `remove(key)`.
    Remove(TypeKey),
}

/// What the storage `m` becomes after `op`.
pub open spec fn apply_op<V>(m: Map<TypeKey, V>, op: StorageOp<V>) -> Map<TypeKey, V> {
    match op {
        StorageOp::Insert(k, v) => m.insert(k, v),
        StorageOp::Write(k, v) => if m.contains_key(k) {
            m.insert(k, v)
        } else {
            m
        },
        StorageOp::Remove(k) => m.remove(k),
    }
}

/// What a storage created empty becomes after `ops`, in order.
pub open spec fn apply_ops<V>(ops: Seq<StorageOp<V>>) -> Map<TypeKey, V>
    decreases ops.len(),
{
    if ops.len() == 0 {
        Map::empty()
    } else {
        apply_op(apply_ops(ops.drop_last()), ops.last())
    }
}

/// The value last stored for `k` by `ops` and not removed since: the last insert of
/// `k`, or a write through `get_mut(k)` made while `k` was stored.
pub open spec fn last_value<V>(ops: Seq<StorageOp<V>>, k: TypeKey) -> Option<V>
    decreases ops.len(),
{
    if ops.len() == 0 {
        None
    } else {
        let before = last_value(ops.drop_last(), k);
        match ops.last() {
            StorageOp::Insert(k2, v) => if k2 == k {
                Some(v)
            } else {
                before
            },
            StorageOp::Write(k2, v) => if k2 == k && before is Some {
                Some(v)
            } else {
                before
            },
            StorageOp::Remove(k2) => if k2 == k {
                None
            } else {
                before
            },
        }
    }
}

/// After any sequence of inserts, writes through `get_mut` and removes on a storage
/// created empty, a read of a type gives the value last stored for it and not
/// removed since, and nothing when there is none; calls on other types do not
/// affect it.
pub proof fn lemma_storage_reads_last_value<V>(ops: Seq<StorageOp<V>>, k: TypeKey)
    ensures
        apply_ops(ops).contains_key(k) <==> last_value(ops, k) is Some,
        apply_ops(ops).contains_key(k) ==> last_value(ops, k) == Some(apply_ops(ops)[k]),
    decreases ops.len(),
{
    if ops.len() > 0 {
        lemma_storage_reads_last_value(ops.drop_last(), k);
    }
}

/// The storage reads back what was written: after `insert(key, val)` the value for
/// `key` is `val`, every other key keeps its value (or stays absent), and removing
/// `key` again leaves the storage as removing it would have before the insert.
pub proof fn lemma_storage_reads_what_was_written<V>(
    before: Map<TypeKey, V>,
    key: TypeKey,
    val: V,
    other: TypeKey,
)
    ensures
        before.insert(key, val).contains_key(key),
        before.insert(key, val)[key] == val,
        other != key ==> before.insert(key, val).contains_key(other) == before.contains_key(other),
        other != key && before.contains_key(other) ==> before.insert(key, val)[other]
            == before[other],
        before.insert(key, val).remove(key) == before.remove(key),
{
    assert(before.insert(key, val).remove(key) =~= before.remove(key));
}

proof fn lemma_keyed_insert<V>(m: Map<u64, V>, k: TypeKey, v: V)
    ensures
        keyed_map(m.insert(k.0, v)) == keyed_map(m).insert(k, v),
{
    assert forall|j: TypeKey| #[trigger] keyed_map(m.insert(k.0, v)).contains_key(j) == keyed_map(
        m,
    ).insert(k, v).contains_key(j) by {
        if j.0 == k.0 {
            assert(j == k);
        }
    }
    assert forall|j: TypeKey| #[trigger] keyed_map(m.insert(k.0, v)).contains_key(j) implies keyed_map(
        m.insert(k.0, v),
    )[j] == keyed_map(m).insert(k, v)[j] by {
        if j.0 == k.0 {
            assert(j == k);
        }
    }
    assert(keyed_map(m.insert(k.0, v)) =~= keyed_map(m).insert(k, v));
}

proof fn lemma_keyed_remove<V>(m: Map<u64, V>, k: TypeKey)
    ensures
        keyed_map(m.remove(k.0)) == keyed_map(m).remove(k),
{
    assert forall|j: TypeKey| #[trigger] keyed_map(m.remove(k.0)).contains_key(j) == keyed_map(
        m,
    ).remove(k).contains_key(j) by {
        if j.0 == k.0 {
            assert(j == k);
        }
    }
    assert(keyed_map(m.remove(k.0)) =~= keyed_map(m).remove(k));
}

impl<V> PipelineStorage<V> {
    /// Constructs an empty storage.
    pub fn new() -> (r: Self)
        ensures
            r@ == Map::<TypeKey, V>::empty(),
    {
        let r = PipelineStorage { inner: HashMap::new() };
        assert(r@ =~= Map::<TypeKey, V>::empty());
        r
    }

    /// Gets a reference to the value stored for `key`, if there is one.
    pub fn get(&self, key: TypeKey) -> (r: Option<&V>)
        ensures
            match r {
                Some(v) => self@.contains_key(key) && *v == self@[key],
                None => !self@.contains_key(key),
            },
    {
        self.inner.get(&key.0)
    }

    /// Gets a mutable reference to the value stored for `key`, if there is one.
    ///
    /// What is written through the reference becomes the value stored for `key`.
    pub fn get_mut(&mut self, key: TypeKey) -> (r: Option<&mut V>)
        ensures
            match r {
                Some(v) => {
                    &&& old(self)@.contains_key(key)
                    &&& *v == old(self)@[key]
                    &&& final(self)@ == old(self)@.insert(key, *final(v))
                },
                None => {
                    &&& !old(self)@.contains_key(key)
                    &&& final(self)@ == old(self)@
                },
            },
    {
        let ghost before = self.inner@;
        proof {
            lemma_keyed_remove(before, key);
        }
        match self.inner.entry(key.0) {
            Entry::Occupied(entry) => {
                let v = entry.into_mut();
                proof {
                    lemma_keyed_insert(before, key, *final(v));
                }
                Some(v)
            },
            Entry::Vacant(_) => {
                proof {
                    assert(before.remove(key.0) =~= before);
                }
                None
            },
        }
    }

    /// Stores `val` for `key` and returns the value that was stored for it before, if any.
    pub fn insert(&mut self, key: TypeKey, val: V) -> (r: Option<V>)
        ensures
            final(self)@ == old(self)@.insert(key, val),
            match r {
                Some(v) => old(self)@.contains_key(key) && v == old(self)@[key],
                None => !old(self)@.contains_key(key),
            },
    {
        proof {
            lemma_keyed_insert(self.inner@, key, val);
        }
        self.inner.insert(key.0, val)
    }

    /// Removes the value stored for `key` and returns it, if there was one.
    pub fn remove(&mut self, key: TypeKey) -> (r: Option<V>)
        ensures
            final(self)@ == old(self)@.remove(key),
            match r {
                Some(v) => old(self)@.contains_key(key) && v == old(self)@[key],
                None => !old(self)@.contains_key(key),
            },
    {
        proof {
            lemma_keyed_remove(self.inner@, key);
        }
        self.inner.remove(&key.0)
    }
}

} // verus!
