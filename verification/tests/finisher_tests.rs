use sim_core::chunk_entities::ChunkPos;
use sim_core::finisher::{
    biome_clump_block, Biome, Block, Chunk, ChunkBiomes, ClumpedFoliageFinisher, TopBlocks,
};

fn all_plains() -> Vec<Biome> {
    vec![Biome::Plains; 256]
}

fn flat_tops(h: u16) -> Vec<u16> {
    vec![h; 256]
}

fn mixed_biomes() -> Vec<Biome> {
    // West half plains, east half desert: clusters near the border must
    // not spill into the desert columns.
    let mut v = Vec::new();
    for x in 0..16 {
        for _z in 0..16 {
            v.push(if x < 8 { Biome::Plains } else { Biome::Desert });
        }
    }
    v
}

#[test]
fn clump_block_mapping() {
    assert_eq!(biome_clump_block(Biome::Plains), Some(Block::Grass));
    assert_eq!(biome_clump_block(Biome::Swamp), Some(Block::Grass));
    assert_eq!(biome_clump_block(Biome::BirchForestHills), Some(Block::Grass));
    assert_eq!(biome_clump_block(Biome::Desert), None);
    assert_eq!(biome_clump_block(Biome::Ocean), None);
}

#[test]
fn same_inputs_give_identical_chunks() {
    let pos = ChunkPos { x: 4, z: -9 };
    let biomes = ChunkBiomes::new(all_plains());
    let tops = TopBlocks::new(flat_tops(64));
    let finisher = ClumpedFoliageFinisher::default();

    let mut chunk_a = Chunk::new(pos, all_plains());
    let mut chunk_b = Chunk::new(pos, all_plains());
    finisher.generate_for_chunk(&mut chunk_a, &biomes, &tops, 123_456_789);
    finisher.generate_for_chunk(&mut chunk_b, &biomes, &tops, 123_456_789);

    for x in 0..16 {
        for z in 0..16 {
            for y in 0..256 {
                assert_eq!(chunk_a.block_at(x, y, z), chunk_b.block_at(x, y, z));
            }
        }
    }
}

#[test]
fn same_inputs_give_identical_placements() {
    let pos = ChunkPos { x: 0, z: 0 };
    let biomes = ChunkBiomes::new(all_plains());
    let tops = TopBlocks::new(flat_tops(70));
    let chunk = Chunk::new(pos, all_plains());
    let a = chunk.clump_placements(&biomes, &tops, 42);
    let b = chunk.clump_placements(&biomes, &tops, 42);
    assert_eq!(a, b);
    assert!(!a.is_empty(), "a plains chunk should grow at least one clump");
}

#[test]
fn different_chunks_use_independent_streams() {
    let biomes = ChunkBiomes::new(all_plains());
    let tops = TopBlocks::new(flat_tops(64));
    let chunk_a = Chunk::new(ChunkPos { x: 0, z: 0 }, all_plains());
    let chunk_b = Chunk::new(ChunkPos { x: 1, z: 0 }, all_plains());
    let a = chunk_a.clump_placements(&biomes, &tops, 999);
    let b = chunk_b.clump_placements(&biomes, &tops, 999);
    assert_ne!(a, b, "adjacent chunks should not repeat the same pattern");
}

#[test]
fn placements_stay_inside_bounds_and_biome() {
    let pos = ChunkPos { x: -3, z: 7 };
    let grid = mixed_biomes();
    let biomes = ChunkBiomes::new(grid.clone());
    let tops = TopBlocks::new(flat_tops(80));
    let chunk = Chunk::new(pos, grid.clone());
    for seed in [0u64, 1, 2, 3, 4, 5, 1_000_003] {
        let placements = chunk.clump_placements(&biomes, &tops, seed);
        for p in placements {
            assert!(p.x < 16);
            assert!(p.z < 16);
            assert_eq!(p.y, 81);
            assert_eq!(grid[p.x * 16 + p.z], Biome::Plains);
            assert_eq!(p.block, Block::Grass);
        }
    }
}

#[test]
fn desert_chunk_is_left_alone() {
    let pos = ChunkPos { x: 2, z: 2 };
    let grid = vec![Biome::Desert; 256];
    let biomes = ChunkBiomes::new(grid.clone());
    let tops = TopBlocks::new(flat_tops(64));
    let mut chunk = Chunk::new(pos, grid);
    let finisher = ClumpedFoliageFinisher::default();
    finisher.generate_for_chunk(&mut chunk, &biomes, &tops, 7);
    for x in 0..16 {
        for z in 0..16 {
            assert_eq!(chunk.block_at(x, 65, z), Block::Air);
        }
    }
}

#[test]
fn decorations_sit_one_above_the_top_height() {
    let pos = ChunkPos { x: 0, z: 0 };
    let biomes = ChunkBiomes::new(all_plains());
    let tops = TopBlocks::new(flat_tops(64));
    let mut chunk = Chunk::new(pos, all_plains());
    let finisher = ClumpedFoliageFinisher::default();
    let placements = chunk.clump_placements(&biomes, &tops, 31337);
    finisher.generate_for_chunk(&mut chunk, &biomes, &tops, 31337);
    assert!(!placements.is_empty());
    for p in placements {
        assert_eq!(p.y, 65);
        assert_eq!(chunk.block_at(p.x, p.y, p.z), Block::Grass);
    }
}

#[test]
fn different_seeds_use_independent_streams() {
    let pos = ChunkPos { x: 0, z: 0 };
    let biomes = ChunkBiomes::new(all_plains());
    let tops = TopBlocks::new(flat_tops(64));
    let chunk = Chunk::new(pos, all_plains());
    let a = chunk.clump_placements(&biomes, &tops, 1);
    let b = chunk.clump_placements(&biomes, &tops, 2);
    assert_ne!(a, b, "different world seeds should not repeat the same pattern");
}
