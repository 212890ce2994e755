//! The spatial entity index: a concurrent, sharded mapping from chunk
//! coordinate to the entity identifiers currently believed to reside in
//! that chunk. The data is a best-effort snapshot used to pick broadcast
//! recipients; a chunk that was never inserted stands for the empty set.

use vstd::prelude::*;
use vstd::seq_lib::group_seq_properties;
use vstd::multiset::Multiset;

verus! {

broadcast use group_seq_properties;

/// A chunk coordinate: a pair of signed integers naming one 16x16 column
/// region of the world.
#[derive(Debug, Clone, Copy, PartialEq, Eq, Structural, Hash)]
pub struct ChunkPos {
    pub x: i32,
    pub z: i32,
}

/// The packed map key of a chunk coordinate: the x coordinate in the high
/// 32 bits and the z coordinate in the low 32 bits.
pub open spec fn spec_chunk_key(c: ChunkPos) -> u64 {
    ((c.x as u32 as u64) << 32) | (c.z as u32 as u64)
}

/// Packing is injective: distinct chunk coordinates get distinct keys.
pub proof fn lemma_chunk_key_injective(a: ChunkPos, b: ChunkPos)
    requires
        spec_chunk_key(a) == spec_chunk_key(b),
    ensures
        a == b,
{
    let ax = a.x;
    let az = a.z;
    let bx = b.x;
    let bz = b.z;
    assert(ax == bx && az == bz) by (bit_vector)
        requires
            ((ax as u32 as u64) << 32) | (az as u32 as u64) == ((bx as u32 as u64) << 32) | (
            bz as u32 as u64),
    ;
}

pub(crate) fn chunk_key(c: ChunkPos) -> (k: u64)
    ensures
        k == spec_chunk_key(c),
{
    ((c.x as u32 as u64) << 32) | (c.z as u32 as u64)
}

#[verifier::external_type_specification]
#[verifier::external_body]
#[verifier::reject_recursive_types(K)]
#[verifier::reject_recursive_types(V)]
#[verifier::reject_recursive_types(S)]
pub struct ExDashMap<K, V, S>(dashmap::DashMap<K, V, S>);

/// What the sharded map holds: the entity sequence stored under each
/// present key.
pub uninterp spec fn dash_contents(m: dashmap::DashMap<u64, Vec<u64>>) -> Map<u64, Seq<u64>>;

/// Relies on dashmap::DashMap::new: creates a map with no entries.
#[verifier::external_body]
fn dash_new() -> (m: dashmap::DashMap<u64, Vec<u64>>)
    ensures
        forall|k: u64| !dash_contents(m).dom().contains(k),
{
    dashmap::DashMap::new()
}

/// Relies on dashmap::DashMap::get: returns the value stored under the key,
/// if the key is present.
#[verifier::external_body]
fn dash_get(m: &dashmap::DashMap<u64, Vec<u64>>, k: u64) -> (r: Option<Vec<u64>>)
    ensures
        r is Some <==> dash_contents(*m).dom().contains(k),
        r is Some ==> r.unwrap()@ == dash_contents(*m)[k],
{
    m.get(&k).map(|entry| entry.value().clone())
}

/// Relies on dashmap::DashMap::insert: stores the value under the key,
/// replacing any previous value there and touching no other key.
#[verifier::external_body]
fn dash_insert(m: &mut dashmap::DashMap<u64, Vec<u64>>, k: u64, v: Vec<u64>)
    ensures
        dash_contents(*final(m)) == dash_contents(*old(m)).insert(k, v@),
{
    m.insert(k, v);
}

/// Stores which entities belong to every given chunk.
///
/// Backed by a sharded concurrent map so that, at run time, an update to
/// one chunk's entity list never blocks a read of an unrelated chunk. The
/// information is a best-effort snapshot: consumers must tolerate brief
/// staleness around entity movement.
pub struct ChunkEntities {
    map: dashmap::DashMap<u64, Vec<u64>>,
}

impl ChunkEntities {
    /// The entities recorded for a chunk; a chunk without an entry holds
    /// the empty sequence.
    pub closed spec fn spec_entities_in(&self, c: ChunkPos) -> Seq<u64> {
        if dash_contents(self.map).dom().contains(spec_chunk_key(c)) {
            dash_contents(self.map)[spec_chunk_key(c)]
        } else {
            Seq::<u64>::empty()
        }
    }

    /// A fresh index records no entity anywhere.
    pub fn new() -> (r: Self)
        ensures
            forall|c: ChunkPos| #[trigger] r.spec_entities_in(c) == Seq::<u64>::empty(),
    {
        ChunkEntities { map: dash_new() }
    }

    /// Returns the entities recorded in the given chunk. A chunk never
    /// inserted yields an empty vector, not an error.
    pub fn entities_in_chunk(&self, chunk: ChunkPos) -> (r: Vec<u64>)
        ensures
            r@ == self.spec_entities_in(chunk),
    {
        match dash_get(&self.map, chunk_key(chunk)) {
            Some(v) => v,
            None => Vec::new(),
        }
    }

    /// Records that an entity has appeared in a chunk: any stale occurrence
    /// of it there is dropped and it is appended once. No other chunk's
    /// entry changes.
    pub fn on_entity_spawn(&mut self, entity: u64, chunk: ChunkPos)
        ensures
            final(self).spec_entities_in(chunk) == old(self).spec_entities_in(chunk).filter(
                |e: u64| e != entity,
            ).push(entity),
            forall|c: ChunkPos|
                c != chunk ==> #[trigger] final(self).spec_entities_in(c) == old(
                    self,
                ).spec_entities_in(c),
    {
        let k = chunk_key(chunk);
        let cur = self.entities_in_chunk(chunk);
        let mut next = vec_without(&cur, entity);
        next.push(entity);
        dash_insert(&mut self.map, k, next);
        proof {
            assert forall|c: ChunkPos| c != chunk implies #[trigger] final(self).spec_entities_in(
                c,
            ) == old(self).spec_entities_in(c) by {
                if spec_chunk_key(c) == spec_chunk_key(chunk) {
                    lemma_chunk_key_injective(c, chunk);
                }
            }
        }
    }

    /// Records that an entity has left a chunk: every occurrence of it in
    /// that chunk's entry is dropped. No other chunk's entry changes.
    pub fn on_entity_despawn(&mut self, entity: u64, chunk: ChunkPos)
        ensures
            final(self).spec_entities_in(chunk) == old(self).spec_entities_in(chunk).filter(
                |e: u64| e != entity,
            ),
            forall|c: ChunkPos|
                c != chunk ==> #[trigger] final(self).spec_entities_in(c) == old(
                    self,
                ).spec_entities_in(c),
    {
        let k = chunk_key(chunk);
        let cur = self.entities_in_chunk(chunk);
        let next = vec_without(&cur, entity);
        dash_insert(&mut self.map, k, next);
        proof {
            assert forall|c: ChunkPos| c != chunk implies #[trigger] final(self).spec_entities_in(
                c,
            ) == old(self).spec_entities_in(c) by {
                if spec_chunk_key(c) == spec_chunk_key(chunk) {
                    lemma_chunk_key_injective(c, chunk);
                }
            }
        }
    }

    /// Records that an entity moved between chunks: it leaves the old
    /// chunk's entry and is appended once to the new chunk's entry. Moving
    /// within one chunk changes nothing.
    pub fn on_entity_move(&mut self, entity: u64, old_chunk: ChunkPos, new_chunk: ChunkPos)
        ensures
            old_chunk == new_chunk ==> *final(self) == *old(self),
            old_chunk != new_chunk ==> {
                &&& final(self).spec_entities_in(old_chunk) == old(self).spec_entities_in(
                    old_chunk,
                ).filter(|e: u64| e != entity)
                &&& final(self).spec_entities_in(new_chunk) == old(self).spec_entities_in(
                    new_chunk,
                ).filter(|e: u64| e != entity).push(entity)
                &&& forall|c: ChunkPos|
                    c != old_chunk && c != new_chunk ==> #[trigger] final(self).spec_entities_in(c)
                        == old(self).spec_entities_in(c)
            },
    {
        if old_chunk.x == new_chunk.x && old_chunk.z == new_chunk.z {
            return ;
        }
        self.on_entity_despawn(entity, old_chunk);
        self.on_entity_spawn(entity, new_chunk);
    }
}

impl Default for ChunkEntities {
    /// A fresh, empty index.
    fn default() -> (r: Self)
        ensures
            forall|c: ChunkPos| #[trigger] r.spec_entities_in(c) == Seq::<u64>::empty(),
    {
        ChunkEntities::new()
    }
}

/// Appending an element to a sequence filters through: the kept elements
/// are the kept elements of the prefix, followed by the new element when it
/// passes the predicate.
pub(crate) proof fn lemma_filter_push<A>(s: Seq<A>, pred: spec_fn(A) -> bool, x: A)
    ensures
        pred(x) ==> s.push(x).filter(pred) == s.filter(pred).push(x),
        !pred(x) ==> s.push(x).filter(pred) == s.filter(pred),
{
    reveal(Seq::filter);
    assert(s.push(x).drop_last() =~= s);
    assert(s.push(x).last() == x);
    if pred(x) {
        assert(s.push(x).filter(pred) =~= s.filter(pred).push(x));
    } else {
        assert(s.push(x).filter(pred) =~= s.filter(pred));
    }
}

/// A copy of the vector with every occurrence of one entity dropped.
#[verifier::loop_isolation(false)]
fn vec_without(v: &Vec<u64>, entity: u64) -> (r: Vec<u64>)
    ensures
        r@ == v@.filter(|e: u64| e != entity),
{
    let ghost pred = |e: u64| e != entity;
    let mut r: Vec<u64> = Vec::new();
    proof {
        assert(v@.subrange(0, 0) =~= Seq::<u64>::empty());
        reveal(Seq::filter);
    }
    let mut i: usize = 0;
    while i < v.len()
        invariant
            i <= v.len(),
            r@ == v@.subrange(0, i as int).filter(pred),
        decreases v.len() - i,
    {
        proof {
            assert(v@.subrange(0, i as int + 1) =~= v@.subrange(0, i as int).push(v@[i as int]));
            lemma_filter_push(v@.subrange(0, i as int), pred, v@[i as int]);
        }
        if v[i] != entity {
            r.push(v[i]);
        }
        i = i + 1;
    }
    proof {
        assert(v@.subrange(0, v@.len() as int) =~= v@);
    }
    r
}


/// Law: a filtered entry never contains the entity that was filtered out.
pub proof fn lemma_filter_removes_entity(s: Seq<u64>, e: u64)
    ensures
        !s.filter(|x: u64| x != e).contains(e),
{
    let pred = |x: u64| x != e;
    s.filter_lemma(pred);
    let f = s.filter(pred);
    assert forall|i: int| 0 <= i < f.len() implies f[i] != e by {
        assert(pred(f[i]));
    }
}

/// Law: immediately after an entity is recorded in a chunk — a spawn, or
/// the arrival half of a move — the chunk's entry contains it exactly
/// once.
pub proof fn lemma_present_exactly_once(s: Seq<u64>, e: u64)
    ensures
        s.filter(|x: u64| x != e).push(e).to_multiset().count(e) == 1,
        s.filter(|x: u64| x != e).push(e).contains(e),
{
    broadcast use vstd::seq_lib::group_to_multiset_ensures;

    let pred = |x: u64| x != e;
    let f = s.filter(pred);
    lemma_filter_removes_entity(s, e);
    assert(f.to_multiset().count(e) == 0);
    assert(f.push(e).to_multiset() =~= f.to_multiset().insert(e));
    assert(f.push(e)[f.len() as int] == e);
}

/// Law: the departure half of a move or a despawn leaves an entry that
/// excludes the entity, and any entity other than the moved one keeps its
/// multiplicity in both touched entries.
pub proof fn lemma_move_preserves_others(s: Seq<u64>, e: u64, other: u64)
    requires
        other != e,
    ensures
        s.filter(|x: u64| x != e).to_multiset().count(other) == s.to_multiset().count(other),
        s.filter(|x: u64| x != e).push(e).to_multiset().count(other) == s.to_multiset().count(
            other,
        ),
    decreases s.len(),
{
    broadcast use vstd::seq_lib::group_to_multiset_ensures;

    let pred = |x: u64| x != e;
    if s.len() == 0 {
        assert(s.filter(pred) =~= Seq::<u64>::empty());
        assert(s.to_multiset() =~= Multiset::<u64>::empty());
        assert(s.filter(pred).push(e).to_multiset() =~= s.filter(pred).to_multiset().insert(e));
    } else {
        let prefix = s.drop_last();
        let x = s.last();
        lemma_move_preserves_others(prefix, e, other);
        lemma_filter_push(prefix, pred, x);
        assert(prefix.push(x) =~= s);
        assert(s.to_multiset() =~= prefix.to_multiset().insert(x));
        if pred(x) {
            assert(s.filter(pred) =~= prefix.filter(pred).push(x));
            assert(s.filter(pred).to_multiset() =~= prefix.filter(pred).to_multiset().insert(x));
        } else {
            assert(s.filter(pred) =~= prefix.filter(pred));
        }
        assert(s.filter(pred).push(e).to_multiset() =~= s.filter(pred).to_multiset().insert(e));
    }
}

} // verus!
