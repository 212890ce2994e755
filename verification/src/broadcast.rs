//! Broadcast recipient policies and the block-change broadcast: given the
//! connected clients and what each one currently has loaded or visible,
//! select who receives a packet. Network delivery itself is the transport
//! collaborator's job; these functions produce payloads and recipient
//! lists.

use vstd::prelude::*;
use crate::chunk_entities::{lemma_filter_push, ChunkPos};

verus! {

/// A block coordinate in the world.
#[derive(Debug, Clone, Copy, PartialEq, Eq, Structural)]
pub struct BlockPosition {
    pub x: i32,
    pub y: i32,
    pub z: i32,
}

/// The abstract payload of a block change packet.
#[derive(Debug, Clone, Copy, PartialEq, Eq, Structural)]
pub struct BlockChangePacket {
    pub location: BlockPosition,
    pub block_id: i32,
}

/// One connected client as the broadcast policies see it: its identifier,
/// the chunks its view currently has loaded, and the entities it currently
/// has visible. Only live connections belong in this list.
#[derive(Debug, Clone)]
pub struct ClientView {
    pub id: u64,
    pub loaded_chunks: Vec<ChunkPos>,
    pub visible_entities: Vec<u64>,
}

/// The chunk containing a block position: each coordinate divided by
/// sixteen, rounding toward negative infinity.
pub open spec fn spec_chunk_of_block(p: BlockPosition) -> ChunkPos {
    ChunkPos { x: ((p.x as int) / 16) as i32, z: ((p.z as int) / 16) as i32 }
}

fn floor_div16(v: i32) -> (q: i32)
    ensures
        q as int == (v as int) / 16,
{
    if v >= 0 {
        v / 16
    } else {
        let w = -1 - v;
        let q = -1 - (w / 16);
        proof {
            assert((v as int) / 16 == -1 - ((-1 - (v as int)) / 16)) by (nonlinear_arith)
                requires
                    v < 0,
            ;
        }
        q
    }
}

/// The chunk a block position falls in.
pub fn chunk_of_block(p: BlockPosition) -> (c: ChunkPos)
    ensures
        c == spec_chunk_of_block(p),
{
    ChunkPos { x: floor_div16(p.x), z: floor_div16(p.z) }
}

/// The recipients of a chunk-scoped broadcast: every client whose loaded
/// chunk set includes the chunk, minus the excluded one, in client-list
/// order. Visibility comes from the clients' own loaded sets, not from the
/// entity index, so block updates reach observers even when no entity is
/// near.
pub open spec fn spec_chunk_recipients(
    clients: Seq<ClientView>,
    chunk: ChunkPos,
    except: Option<u64>,
) -> Seq<u64> {
    clients.filter(
        |cl: ClientView| cl.loaded_chunks@.contains(chunk) && except != Some(cl.id),
    ).map_values(|cl: ClientView| cl.id)
}

/// The recipients of an entity-scoped broadcast: every client that
/// currently has the entity visible, minus the excluded one, in
/// client-list order.
pub open spec fn spec_entity_recipients(
    clients: Seq<ClientView>,
    entity: u64,
    except: Option<u64>,
) -> Seq<u64> {
    clients.filter(
        |cl: ClientView| cl.visible_entities@.contains(entity) && except != Some(cl.id),
    ).map_values(|cl: ClientView| cl.id)
}

/// The recipients of a global broadcast: every connected client, minus the
/// excluded one, in client-list order.
pub open spec fn spec_global_recipients(clients: Seq<ClientView>, except: Option<u64>) -> Seq<
    u64,
> {
    clients.filter(|cl: ClientView| except != Some(cl.id)).map_values(|cl: ClientView| cl.id)
}

fn chunk_list_contains(v: &Vec<ChunkPos>, c: ChunkPos) -> (r: bool)
    ensures
        r == v@.contains(c),
{
    let mut i: usize = 0;
    while i < v.len()
        invariant
            i <= v.len(),
            forall|j: int| 0 <= j < i ==> v@[j] != c,
        decreases v.len() - i,
    {
        if v[i].x == c.x && v[i].z == c.z {
            return true;
        }
        i = i + 1;
    }
    false
}

fn entity_list_contains(v: &Vec<u64>, e: u64) -> (r: bool)
    ensures
        r == v@.contains(e),
{
    let mut i: usize = 0;
    while i < v.len()
        invariant
            i <= v.len(),
            forall|j: int| 0 <= j < i ==> v@[j] != e,
        decreases v.len() - i,
    {
        if v[i] == e {
            return true;
        }
        i = i + 1;
    }
    false
}

fn not_excluded(id: u64, except: &Option<u64>) -> (r: bool)
    ensures
        r == (*except != Some(id)),
{
    match except {
        Some(x) => id != *x,
        None => true,
    }
}

/// Selects the clients whose view includes the given chunk.
#[verifier::loop_isolation(false)]
pub fn chunk_broadcast_recipients(
    clients: &Vec<ClientView>,
    chunk: ChunkPos,
    except: Option<u64>,
) -> (r: Vec<u64>)
    ensures
        r@ == spec_chunk_recipients(clients@, chunk, except),
{
    let ghost pred = |cl: ClientView| cl.loaded_chunks@.contains(chunk) && except != Some(cl.id);
    let ghost fid = |cl: ClientView| cl.id;
    let mut r: Vec<u64> = Vec::new();
    proof {
        assert(clients@.subrange(0, 0) =~= Seq::<ClientView>::empty());
        reveal(Seq::filter);
        assert(clients@.subrange(0, clients@.len() as int) =~= clients@);
    }
    let mut i: usize = 0;
    while i < clients.len()
        invariant
            i <= clients.len(),
            r@ == clients@.subrange(0, i as int).filter(pred).map_values(fid),
        decreases clients.len() - i,
    {
        proof {
            assert(clients@.subrange(0, i as int + 1) =~= clients@.subrange(0, i as int).push(
                clients@[i as int],
            ));
            lemma_filter_push(clients@.subrange(0, i as int), pred, clients@[i as int]);
            if pred(clients@[i as int]) {
                assert(clients@.subrange(0, i as int).filter(pred).push(
                    clients@[i as int],
                ).map_values(fid) =~= clients@.subrange(0, i as int).filter(pred).map_values(
                    fid,
                ).push(fid(clients@[i as int])));
            }
        }
        let included = chunk_list_contains(&clients[i].loaded_chunks, chunk) && not_excluded(
            clients[i].id,
            &except,
        );
        if included {
            r.push(clients[i].id);
        }
        i = i + 1;
    }
    r
}

/// Selects the clients that currently have the entity visible.
#[verifier::loop_isolation(false)]
pub fn entity_broadcast_recipients(
    clients: &Vec<ClientView>,
    entity: u64,
    except: Option<u64>,
) -> (r: Vec<u64>)
    ensures
        r@ == spec_entity_recipients(clients@, entity, except),
{
    let ghost pred = |cl: ClientView| cl.visible_entities@.contains(entity) && except != Some(
        cl.id,
    );
    let ghost fid = |cl: ClientView| cl.id;
    let mut r: Vec<u64> = Vec::new();
    proof {
        assert(clients@.subrange(0, 0) =~= Seq::<ClientView>::empty());
        reveal(Seq::filter);
        assert(clients@.subrange(0, clients@.len() as int) =~= clients@);
    }
    let mut i: usize = 0;
    while i < clients.len()
        invariant
            i <= clients.len(),
            r@ == clients@.subrange(0, i as int).filter(pred).map_values(fid),
        decreases clients.len() - i,
    {
        proof {
            assert(clients@.subrange(0, i as int + 1) =~= clients@.subrange(0, i as int).push(
                clients@[i as int],
            ));
            lemma_filter_push(clients@.subrange(0, i as int), pred, clients@[i as int]);
            if pred(clients@[i as int]) {
                assert(clients@.subrange(0, i as int).filter(pred).push(
                    clients@[i as int],
                ).map_values(fid) =~= clients@.subrange(0, i as int).filter(pred).map_values(
                    fid,
                ).push(fid(clients@[i as int])));
            }
        }
        let included = entity_list_contains(&clients[i].visible_entities, entity) && not_excluded(
            clients[i].id,
            &except,
        );
        if included {
            r.push(clients[i].id);
        }
        i = i + 1;
    }
    r
}

/// Selects every connected client, minus the excluded one.
#[verifier::loop_isolation(false)]
pub fn global_broadcast_recipients(clients: &Vec<ClientView>, except: Option<u64>) -> (r: Vec<
    u64,
>)
    ensures
        r@ == spec_global_recipients(clients@, except),
{
    let ghost pred = |cl: ClientView| except != Some(cl.id);
    let ghost fid = |cl: ClientView| cl.id;
    let mut r: Vec<u64> = Vec::new();
    proof {
        assert(clients@.subrange(0, 0) =~= Seq::<ClientView>::empty());
        reveal(Seq::filter);
        assert(clients@.subrange(0, clients@.len() as int) =~= clients@);
    }
    let mut i: usize = 0;
    while i < clients.len()
        invariant
            i <= clients.len(),
            r@ == clients@.subrange(0, i as int).filter(pred).map_values(fid),
        decreases clients.len() - i,
    {
        proof {
            assert(clients@.subrange(0, i as int + 1) =~= clients@.subrange(0, i as int).push(
                clients@[i as int],
            ));
            lemma_filter_push(clients@.subrange(0, i as int), pred, clients@[i as int]);
            if pred(clients@[i as int]) {
                assert(clients@.subrange(0, i as int).filter(pred).push(
                    clients@[i as int],
                ).map_values(fid) =~= clients@.subrange(0, i as int).filter(pred).map_values(
                    fid,
                ).push(fid(clients@[i as int])));
            }
        }
        if not_excluded(clients[i].id, &except) {
            r.push(clients[i].id);
        }
        i = i + 1;
    }
    r
}

/// Translates a block update into its block change packet and the clients
/// it must reach: everyone whose view includes the chunk containing the
/// position.
pub fn on_block_update_broadcast(
    clients: &Vec<ClientView>,
    pos: BlockPosition,
    block_state_id: u16,
) -> (r: (BlockChangePacket, Vec<u64>))
    ensures
        r.0 == (BlockChangePacket { location: pos, block_id: block_state_id as i32 }),
        r.1@ == spec_chunk_recipients(clients@, spec_chunk_of_block(pos), None),
{
    let packet = BlockChangePacket { location: pos, block_id: block_state_id as i32 };
    let recipients = chunk_broadcast_recipients(clients, chunk_of_block(pos), None);
    (packet, recipients)
}

} // verus!
