use sim_core::chunk_entities::{ChunkEntities, ChunkPos};

fn count(v: &[u64], e: u64) -> usize {
    v.iter().filter(|x| **x == e).count()
}

#[test]
fn never_inserted_chunk_is_empty() {
    let index = ChunkEntities::new();
    assert_eq!(index.entities_in_chunk(ChunkPos { x: 0, z: 0 }), Vec::<u64>::new());
    assert_eq!(index.entities_in_chunk(ChunkPos { x: -7, z: 1234 }), Vec::<u64>::new());
    assert_eq!(
        index.entities_in_chunk(ChunkPos { x: i32::MIN, z: i32::MAX }),
        Vec::<u64>::new()
    );
}

#[test]
fn spawn_makes_entity_present_exactly_once() {
    let mut index = ChunkEntities::new();
    let c = ChunkPos { x: 3, z: -4 };
    index.on_entity_spawn(17, c);
    let got = index.entities_in_chunk(c);
    assert_eq!(count(&got, 17), 1);
}

#[test]
fn double_spawn_still_present_exactly_once() {
    let mut index = ChunkEntities::new();
    let c = ChunkPos { x: 0, z: 0 };
    index.on_entity_spawn(5, c);
    index.on_entity_spawn(5, c);
    let got = index.entities_in_chunk(c);
    assert_eq!(count(&got, 5), 1);
}

#[test]
fn move_between_chunks_updates_both() {
    let mut index = ChunkEntities::new();
    let c1 = ChunkPos { x: 1, z: 1 };
    let c2 = ChunkPos { x: 2, z: 1 };
    index.on_entity_spawn(9, c1);
    index.on_entity_spawn(10, c1);
    index.on_entity_move(9, c1, c2);
    let old_set = index.entities_in_chunk(c1);
    let new_set = index.entities_in_chunk(c2);
    assert_eq!(count(&old_set, 9), 0);
    assert_eq!(count(&old_set, 10), 1);
    assert_eq!(count(&new_set, 9), 1);
}

#[test]
fn move_within_one_chunk_changes_nothing() {
    let mut index = ChunkEntities::new();
    let c = ChunkPos { x: -5, z: 8 };
    index.on_entity_spawn(1, c);
    index.on_entity_spawn(2, c);
    let before = index.entities_in_chunk(c);
    index.on_entity_move(1, c, c);
    let after = index.entities_in_chunk(c);
    assert_eq!(before, after);
}

#[test]
fn despawn_removes_entity() {
    let mut index = ChunkEntities::new();
    let c = ChunkPos { x: 0, z: 9 };
    index.on_entity_spawn(41, c);
    index.on_entity_spawn(42, c);
    index.on_entity_despawn(41, c);
    let got = index.entities_in_chunk(c);
    assert_eq!(count(&got, 41), 0);
    assert_eq!(count(&got, 42), 1);
}

#[test]
fn distinct_chunks_do_not_alias() {
    let mut index = ChunkEntities::new();
    // These coordinate pairs would collide under a naive mixing of x and z.
    let a = ChunkPos { x: 0, z: 1 };
    let b = ChunkPos { x: 1, z: 0 };
    index.on_entity_spawn(7, a);
    assert_eq!(count(&index.entities_in_chunk(a), 7), 1);
    assert_eq!(count(&index.entities_in_chunk(b), 7), 0);
}
