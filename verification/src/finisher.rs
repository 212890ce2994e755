//! The procedural finisher pipeline: a deterministic, seed-derived pass
//! over one freshly generated chunk that adds clumps of foliage. The
//! generator is re-seeded per chunk from the world seed and the chunk
//! coordinate, so regenerating a chunk reproduces identical output, and
//! a candidate decoration whose offset leaves the chunk's own 16x16 column
//! bounds is skipped, not retried.

use vstd::prelude::*;
use crate::chunk_entities::{chunk_key, spec_chunk_key, ChunkPos};
use rand::RngExt;
use rand::SeedableRng;

verus! {

/// The number of columns in a chunk (16 by 16).
pub const CHUNK_COLUMNS: usize = 256;
/// The number of vertical blocks in a column.
pub const CHUNK_HEIGHT: usize = 256;
/// The number of blocks in a chunk.
pub const CHUNK_BLOCKS: usize = 65_536;

/// A biome classification of one world column.
#[derive(Debug, Clone, Copy, PartialEq, Eq, Structural)]
pub enum Biome {
    Plains,
    SunflowerPlains,
    WoodedMountains,
    Mountains,
    Savanna,
    SavannaPlateau,
    Forest,
    DarkForest,
    DarkForestHills,
    BirchForest,
    TallBirchForest,
    BirchForestHills,
    Swamp,
    Desert,
    Ocean,
    Beach,
    Taiga,
    SnowyTundra,
}

/// A block kind, as far as this core reads or writes one.
#[derive(Debug, Clone, Copy, PartialEq, Eq, Structural)]
pub enum Block {
    Air,
    Stone,
    Dirt,
    GrassBlock,
    Grass,
    Sand,
    Water,
}

/// The decoration block that clumps in a biome, if the biome decorates at
/// all: grassy and forested biomes grow tall grass, every other biome is
/// left alone.
pub open spec fn spec_biome_clump_block(biome: Biome) -> Option<Block> {
    match biome {
        Biome::Plains
        | Biome::SunflowerPlains
        | Biome::WoodedMountains
        | Biome::Mountains
        | Biome::Savanna
        | Biome::SavannaPlateau
        | Biome::Forest
        | Biome::DarkForest
        | Biome::DarkForestHills
        | Biome::BirchForest
        | Biome::TallBirchForest
        | Biome::BirchForestHills
        | Biome::Swamp => Some(Block::Grass),
        _ => None,
    }
}

/// Exec form of the biome-to-decoration mapping.
pub fn biome_clump_block(biome: Biome) -> (r: Option<Block>)
    ensures
        r == spec_biome_clump_block(biome),
{
    match biome {
        Biome::Plains
        | Biome::SunflowerPlains
        | Biome::WoodedMountains
        | Biome::Mountains
        | Biome::Savanna
        | Biome::SavannaPlateau
        | Biome::Forest
        | Biome::DarkForest
        | Biome::DarkForestHills
        | Biome::BirchForest
        | Biome::TallBirchForest
        | Biome::BirchForestHills
        | Biome::Swamp => Some(Block::Grass),
        _ => None,
    }
}

/// The flat index of a column inside the 16x16 grid.
pub open spec fn spec_col_index(x: int, z: int) -> int {
    x * 16 + z
}

/// The flat index of a block inside the chunk.
pub open spec fn spec_block_index(x: int, y: int, z: int) -> int {
    y * 256 + x * 16 + z
}

/// The per-column biome table handed over by the terrain generator.
#[derive(Debug, Clone)]
pub struct ChunkBiomes {
    biomes: Vec<Biome>,
}

impl ChunkBiomes {
    pub closed spec fn view(&self) -> Seq<Biome> {
        self.biomes@
    }

    pub open spec fn wf(&self) -> bool {
        self@.len() == 256
    }

    /// A biome table from one biome per column, in column-index order.
    pub fn new(biomes: Vec<Biome>) -> (r: Self)
        requires
            biomes@.len() == 256,
        ensures
            r.wf(),
            r@ == biomes@,
    {
        ChunkBiomes { biomes }
    }

    /// The biome of the column at the given coordinates.
    pub fn biome_at(&self, x: usize, z: usize) -> (b: Biome)
        requires
            self.wf(),
            x < 16,
            z < 16,
        ensures
            b == self@[spec_col_index(x as int, z as int)],
    {
        self.biomes[x * 16 + z]
    }
}

/// The per-column height of the topmost solid block, handed over by the
/// terrain generator. Every height leaves room for one block above it.
#[derive(Debug, Clone)]
pub struct TopBlocks {
    tops: Vec<u16>,
}

impl TopBlocks {
    pub closed spec fn view(&self) -> Seq<u16> {
        self.tops@
    }

    pub open spec fn wf(&self) -> bool {
        &&& self@.len() == 256
        &&& forall|i: int| 0 <= i < 256 ==> #[trigger] self@[i] < 255
    }

    /// A height table from one top height per column, in column-index
    /// order; each height must leave room above it in the chunk.
    pub fn new(tops: Vec<u16>) -> (r: Self)
        requires
            tops@.len() == 256,
            forall|i: int| 0 <= i < 256 ==> #[trigger] tops@[i] < 255,
        ensures
            r.wf(),
            r@ == tops@,
    {
        TopBlocks { tops }
    }

    /// The recorded top-solid-block height of the column.
    pub fn top_block_at(&self, x: usize, z: usize) -> (t: u16)
        requires
            self.wf(),
            x < 16,
            z < 16,
        ensures
            t == self@[spec_col_index(x as int, z as int)],
    {
        self.tops[x * 16 + z]
    }
}

/// A 16x16 column of vertical block data plus a parallel biome grid.
/// During the finisher phase the chunk is exclusively owned by the
/// generation pipeline.
#[derive(Debug, Clone)]
pub struct Chunk {
    pos: ChunkPos,
    blocks: Vec<Block>,
    biomes: Vec<Biome>,
}

impl Chunk {
    pub closed spec fn spec_pos(&self) -> ChunkPos {
        self.pos
    }

    pub closed spec fn spec_blocks(&self) -> Seq<Block> {
        self.blocks@
    }

    pub closed spec fn spec_biomes(&self) -> Seq<Biome> {
        self.biomes@
    }

    pub open spec fn wf(&self) -> bool {
        &&& self.spec_blocks().len() == CHUNK_BLOCKS
        &&& self.spec_biomes().len() == CHUNK_COLUMNS
    }

    /// A chunk of air at the given position with the given biome grid.
    pub fn new(pos: ChunkPos, biomes: Vec<Biome>) -> (r: Self)
        requires
            biomes@.len() == 256,
        ensures
            r.wf(),
            r.spec_pos() == pos,
            r.spec_biomes() == biomes@,
            forall|i: int| 0 <= i < 65_536 ==> #[trigger] r.spec_blocks()[i] == Block::Air,
    {
        let mut blocks: Vec<Block> = Vec::new();
        let mut i: usize = 0;
        while i < 65_536
            invariant
                i <= 65_536,
                blocks@.len() == i,
                forall|j: int| 0 <= j < i ==> #[trigger] blocks@[j] == Block::Air,
            decreases 65_536 - i,
        {
            blocks.push(Block::Air);
            i = i + 1;
        }
        Chunk { pos, blocks, biomes }
    }

    /// The chunk's coordinate.
    pub fn position(&self) -> (p: ChunkPos)
        ensures
            p == self.spec_pos(),
    {
        self.pos
    }

    /// The biome of the chunk's own grid at the given column.
    pub fn biome_at(&self, x: usize, z: usize) -> (b: Biome)
        requires
            self.wf(),
            x < 16,
            z < 16,
        ensures
            b == self.spec_biomes()[spec_col_index(x as int, z as int)],
    {
        self.biomes[x * 16 + z]
    }

    /// The block stored at the given coordinates.
    pub fn block_at(&self, x: usize, y: usize, z: usize) -> (b: Block)
        requires
            self.wf(),
            x < 16,
            y < 256,
            z < 16,
        ensures
            b == self.spec_blocks()[spec_block_index(x as int, y as int, z as int)],
    {
        self.blocks[y * 256 + x * 16 + z]
    }

    /// Writes one block, leaving position, biomes and every other block
    /// unchanged.
    pub fn set_block_at(&mut self, x: usize, y: usize, z: usize, block: Block)
        requires
            old(self).wf(),
            x < 16,
            y < 256,
            z < 16,
        ensures
            final(self).wf(),
            final(self).spec_pos() == old(self).spec_pos(),
            final(self).spec_biomes() == old(self).spec_biomes(),
            final(self).spec_blocks() == old(self).spec_blocks().update(
                spec_block_index(x as int, y as int, z as int),
                block,
            ),
    {
        let idx = y * 256 + x * 16 + z;
        self.blocks.set(idx, block);
    }
}

/// A single placement the finisher decided on: one decoration block at one
/// position inside the chunk.
#[derive(Debug, Clone, Copy, PartialEq, Eq, Structural)]
pub struct Placement {
    pub x: usize,
    pub y: usize,
    pub z: usize,
    pub block: Block,
}

/// The generator seed used for one chunk: the world seed mixed with the
/// chunk coordinate, so that distinct chunks draw from distinct streams.
pub open spec fn spec_chunk_seed(world_seed: u64, pos: ChunkPos) -> u64 {
    world_seed ^ spec_chunk_key(pos)
}

fn chunk_seed(world_seed: u64, pos: ChunkPos) -> (s: u64)
    ensures
        s == spec_chunk_seed(world_seed, pos),
{
    world_seed ^ chunk_key(pos)
}

#[verifier::external_type_specification]
#[verifier::external_body]
pub struct ExXorShiftRng(rand_xorshift::XorShiftRng);

/// The value drawn from the xorshift generator seeded with `seed`, after
/// the given history of earlier half-open ranges, when asked for the range
/// `[lo, hi)`. The generator is deterministic, so the draw is a function of
/// these arguments alone.
pub uninterp spec fn xorshift_draw(seed: u64, history: Seq<(int, int)>, lo: int, hi: int) -> int;

/// The per-chunk generator together with the seed it was built from and
/// the ranges drawn from it so far.
struct ClumpRng {
    inner: rand_xorshift::XorShiftRng,
    seed: Ghost<u64>,
    hist: Ghost<Seq<(int, int)>>,
}

/// Relies on rand_xorshift::XorShiftRng::seed_from_u64: builds the
/// generator for one chunk. Nothing is stated here; what the generator
/// yields is stated where it is drawn from.
#[verifier::external_body]
fn xorshift_from_seed(seed: u64) -> (r: rand_xorshift::XorShiftRng)
{
    rand_xorshift::XorShiftRng::seed_from_u64(seed)
}

fn clump_rng_new(seed: u64) -> (r: ClumpRng)
    ensures
        r.seed@ == seed,
        r.hist@ == Seq::<(int, int)>::empty(),
{
    ClumpRng { inner: xorshift_from_seed(seed), seed: Ghost(seed), hist: Ghost(Seq::empty()) }
}

/// Relies on rand::RngExt::random_range on the xorshift generator: the
/// result lies in the given half-open range, and, the generator being
/// deterministic, is a function of the seed and the ranges drawn before.
#[verifier::external_body]
fn clump_rng_range(rng: &mut ClumpRng, lo: i32, hi: i32) -> (v: i32)
    requires
        lo < hi,
    ensures
        lo <= v < hi,
        v == xorshift_draw(old(rng).seed@, old(rng).hist@, lo as int, hi as int),
        final(rng).seed@ == old(rng).seed@,
        final(rng).hist@ == old(rng).hist@.push((lo as int, hi as int)),
{
    rng.inner.random_range(lo..hi)
}

/// The placements (and the history consumed) of one cluster of `left`
/// candidate decorations around the center column `(x, z)`: each candidate
/// draws two offsets and is kept only when it lands inside the chunk's own
/// bounds and the chunk's biome at the landing column matches the
/// cluster's biome; a candidate that falls outside either is skipped, not
/// retried.
pub open spec fn spec_cluster(
    seed: u64,
    hist: Seq<(int, int)>,
    left: nat,
    x: int,
    z: int,
    biome: Biome,
    block: Block,
    cbio: Seq<Biome>,
    tops: Seq<u16>,
) -> (Seq<Placement>, Seq<(int, int)>)
    decreases left,
{
    if left == 0 {
        (Seq::<Placement>::empty(), hist)
    } else {
        let ox = xorshift_draw(seed, hist, -2, 3);
        let h1 = hist.push((-2int, 3int));
        let oz = xorshift_draw(seed, h1, -2, 3);
        let h2 = h1.push((-2int, 3int));
        let px = x + ox;
        let pz = z + oz;
        let rest = spec_cluster(seed, h2, (left - 1) as nat, x, z, biome, block, cbio, tops);
        if 0 <= px < 16 && 0 <= pz < 16 && cbio[spec_col_index(px, pz)] == biome {
            let top = tops[spec_col_index(px, pz)] as int;
            let p = Placement { x: px as usize, y: (top + 1) as usize, z: pz as usize, block };
            (seq![p] + rest.0, rest.1)
        } else {
            rest
        }
    }
}

/// The placements (and the history consumed) of one column: a decorating
/// biome rolls a one-in-48 chance to become a cluster center, and a center
/// emits three to five candidates.
pub open spec fn spec_column(
    seed: u64,
    hist: Seq<(int, int)>,
    x: int,
    z: int,
    table: Seq<Biome>,
    cbio: Seq<Biome>,
    tops: Seq<u16>,
) -> (Seq<Placement>, Seq<(int, int)>) {
    let biome = table[spec_col_index(x, z)];
    match spec_biome_clump_block(biome) {
        None => (Seq::<Placement>::empty(), hist),
        Some(block) => {
            let d = xorshift_draw(seed, hist, 0, 48);
            let h1 = hist.push((0int, 48int));
            if d == 0 {
                let n = xorshift_draw(seed, h1, 3, 6);
                let h2 = h1.push((3int, 6int));
                let cnt = if n < 0 { 0 as nat } else { n as nat };
                spec_cluster(seed, h2, cnt, x, z, biome, block, cbio, tops)
            } else {
                (Seq::<Placement>::empty(), h1)
            }
        },
    }
}

/// The placements (and the history consumed) of the columns from `col`
/// onward, visited in column-index order.
pub open spec fn spec_columns(
    seed: u64,
    hist: Seq<(int, int)>,
    col: int,
    table: Seq<Biome>,
    cbio: Seq<Biome>,
    tops: Seq<u16>,
) -> (Seq<Placement>, Seq<(int, int)>)
    decreases 256 - col,
{
    if col < 0 || col >= 256 {
        (Seq::<Placement>::empty(), hist)
    } else {
        let cr = spec_column(seed, hist, col / 16, col % 16, table, cbio, tops);
        let rest = spec_columns(seed, cr.1, col + 1, table, cbio, tops);
        (cr.0 + rest.0, rest.1)
    }
}

/// Every placement the finisher makes for a chunk, in the order they are
/// written: a function of the world seed, the chunk coordinate and the
/// biome and height tables alone.
pub open spec fn spec_clump_placements(
    world_seed: u64,
    pos: ChunkPos,
    table: Seq<Biome>,
    cbio: Seq<Biome>,
    tops: Seq<u16>,
) -> Seq<Placement> {
    spec_columns(
        spec_chunk_seed(world_seed, pos),
        Seq::<(int, int)>::empty(),
        0,
        table,
        cbio,
        tops,
    ).0
}

/// The block grid after writing a sequence of placements in order.
pub open spec fn spec_apply_placements(blocks: Seq<Block>, ps: Seq<Placement>) -> Seq<Block>
    decreases ps.len(),
{
    if ps.len() == 0 {
        blocks
    } else {
        spec_apply_placements(
            blocks.update(
                spec_block_index(ps[0].x as int, ps[0].y as int, ps[0].z as int),
                ps[0].block,
            ),
            ps.drop_first(),
        )
    }
}

proof fn lemma_apply_placements_push(blocks: Seq<Block>, ps: Seq<Placement>, p: Placement)
    ensures
        spec_apply_placements(blocks, ps.push(p)) == spec_apply_placements(blocks, ps).update(
            spec_block_index(p.x as int, p.y as int, p.z as int),
            p.block,
        ),
    decreases ps.len(),
{
    reveal_with_fuel(spec_apply_placements, 3);
    if ps.len() == 0 {
        assert(ps.push(p)[0] == p);
        assert(ps.push(p).drop_first() =~= Seq::<Placement>::empty());
    } else {
        assert(ps.push(p)[0] == ps[0]);
        assert(ps.push(p).drop_first() =~= ps.drop_first().push(p));
        lemma_apply_placements_push(
            blocks.update(
                spec_block_index(ps[0].x as int, ps[0].y as int, ps[0].z as int),
                ps[0].block,
            ),
            ps.drop_first(),
            p,
        );
    }
}

/// One column's worth of work: roll the cluster chance and, on a hit, draw
/// and filter the cluster's candidate placements.
#[verifier::loop_isolation(false)]
fn clump_column(
    rng: &mut ClumpRng,
    x: usize,
    z: usize,
    table: &ChunkBiomes,
    chunk: &Chunk,
    tops: &TopBlocks,
    out: &mut Vec<Placement>,
)
    requires
        x < 16,
        z < 16,
        table.wf(),
        chunk.wf(),
        tops.wf(),
    ensures
        final(rng).seed@ == old(rng).seed@,
        ({
            let cr = spec_column(
                old(rng).seed@,
                old(rng).hist@,
                x as int,
                z as int,
                table@,
                chunk.spec_biomes(),
                tops@,
            );
            final(out)@ == old(out)@ + cr.0 && final(rng).hist@ == cr.1
        }),
{
    let ghost seed0 = rng.seed@;
    let ghost cbio = chunk.spec_biomes();
    let biome = table.biome_at(x, z);
    match biome_clump_block(biome) {
        None => {
            proof {
                assert(old(out)@ + Seq::<Placement>::empty() =~= old(out)@);
            }
        },
        Some(block) => {
            let d = clump_rng_range(rng, 0, 48);
            if d == 0 {
                let n = clump_rng_range(rng, 3, 6);
                let ghost target = spec_cluster(
                    seed0,
                    rng.hist@,
                    n as nat,
                    x as int,
                    z as int,
                    biome,
                    block,
                    cbio,
                    tops@,
                );
                let ghost base = out@;
                let mut j: i32 = 0;
                while j < n
                    invariant
                        0 <= j <= n,
                        rng.seed@ == seed0,
                        base + target.0 == out@ + spec_cluster(
                            seed0,
                            rng.hist@,
                            (n - j) as nat,
                            x as int,
                            z as int,
                            biome,
                            block,
                            cbio,
                            tops@,
                        ).0,
                        target.1 == spec_cluster(
                            seed0,
                            rng.hist@,
                            (n - j) as nat,
                            x as int,
                            z as int,
                            biome,
                            block,
                            cbio,
                            tops@,
                        ).1,
                    decreases n - j,
                {
                    let ghost hist_in = rng.hist@;
                    let ghost left = (n - j) as nat;
                    let ox = clump_rng_range(rng, -2, 3);
                    let oz = clump_rng_range(rng, -2, 3);
                    let pxi: i32 = x as i32 + ox;
                    let pzi: i32 = z as i32 + oz;
                    let ghost out_before = out@;
                    let ghost step = spec_cluster(
                        seed0,
                        hist_in,
                        left,
                        x as int,
                        z as int,
                        biome,
                        block,
                        cbio,
                        tops@,
                    );
                    let ghost rest = spec_cluster(
                        seed0,
                        rng.hist@,
                        (left - 1) as nat,
                        x as int,
                        z as int,
                        biome,
                        block,
                        cbio,
                        tops@,
                    );
                    if 0 <= pxi && pxi < 16 && 0 <= pzi && pzi < 16 {
                        let px = pxi as usize;
                        let pz = pzi as usize;
                        if chunk.biome_at(px, pz) == biome {
                            let top = tops.top_block_at(px, pz);
                            let p = Placement { x: px, y: (top + 1) as usize, z: pz, block };
                            out.push(p);
                            proof {
                                assert(step.0 == seq![p] + rest.0);
                                assert(out_before + (seq![p] + rest.0) =~= (out_before
                                    + seq![p]) + rest.0);
                                assert(out_before + seq![p] =~= out@);
                            }
                        } else {
                            proof {
                                assert(step == rest);
                            }
                        }
                    } else {
                        proof {
                            assert(step == rest);
                        }
                    }
                    j = j + 1;
                }
                proof {
                    assert(spec_cluster(
                        seed0,
                        rng.hist@,
                        0,
                        x as int,
                        z as int,
                        biome,
                        block,
                        cbio,
                        tops@,
                    ).0 =~= Seq::<Placement>::empty());
                    assert(base + target.0 =~= out@ + Seq::<Placement>::empty());
                    assert(out@ + Seq::<Placement>::empty() =~= out@);
                }
            } else {
                proof {
                    assert(old(out)@ + Seq::<Placement>::empty() =~= old(out)@);
                }
            }
        },
    }
}

impl Chunk {
    /// Every placement the clumped-foliage pass decides on for this chunk,
    /// in the order they are written.
    #[verifier::loop_isolation(false)]
    pub fn clump_placements(&self, table: &ChunkBiomes, tops: &TopBlocks, world_seed: u64) -> (r:
        Vec<Placement>)
        requires
            self.wf(),
            table.wf(),
            tops.wf(),
        ensures
            r@ == spec_clump_placements(world_seed, self.spec_pos(), table@, self.spec_biomes(), tops@),
    {
        let mut rng = clump_rng_new(chunk_seed(world_seed, self.position()));
        let ghost seed0 = spec_chunk_seed(world_seed, self.spec_pos());
        let ghost full = spec_columns(
            seed0,
            Seq::<(int, int)>::empty(),
            0,
            table@,
            self.spec_biomes(),
            tops@,
        );
        let mut out: Vec<Placement> = Vec::new();
        proof {
            assert(out@ + full.0 =~= full.0);
        }
        let mut col: usize = 0;
        while col < 256
            invariant
                col <= 256,
                rng.seed@ == seed0,
                full.0 == out@ + spec_columns(
                    seed0,
                    rng.hist@,
                    col as int,
                    table@,
                    self.spec_biomes(),
                    tops@,
                ).0,
                full.1 == spec_columns(
                    seed0,
                    rng.hist@,
                    col as int,
                    table@,
                    self.spec_biomes(),
                    tops@,
                ).1,
            decreases 256 - col,
        {
            let ghost out_before = out@;
            let ghost hist_in = rng.hist@;
            let ghost cr = spec_column(
                seed0,
                hist_in,
                col as int / 16,
                col as int % 16,
                table@,
                self.spec_biomes(),
                tops@,
            );
            let x = col / 16;
            let z = col % 16;
            clump_column(&mut rng, x, z, table, self, tops, &mut out);
            proof {
                let rest = spec_columns(
                    seed0,
                    cr.1,
                    col as int + 1,
                    table@,
                    self.spec_biomes(),
                    tops@,
                );
                assert(out_before + (cr.0 + rest.0) =~= (out_before + cr.0) + rest.0);
            }
            col = col + 1;
        }
        proof {
            assert(out@ + spec_columns(
                seed0,
                rng.hist@,
                256,
                table@,
                self.spec_biomes(),
                tops@,
            ).0 =~= out@);
        }
        out
    }
}

/// Is a placement inside the chunk's own bounds, one block above its
/// column's recorded top height, and of the decoration that its landing
/// column's biome grows?
pub open spec fn spec_placement_ok(p: Placement, cbio: Seq<Biome>, tops: Seq<u16>) -> bool {
    &&& p.x < 16
    &&& p.z < 16
    &&& spec_biome_clump_block(cbio[spec_col_index(p.x as int, p.z as int)]) == Some(p.block)
    &&& p.y == tops[spec_col_index(p.x as int, p.z as int)] + 1
}

proof fn lemma_cluster_ok(
    seed: u64,
    hist: Seq<(int, int)>,
    left: nat,
    x: int,
    z: int,
    biome: Biome,
    block: Block,
    cbio: Seq<Biome>,
    tops: Seq<u16>,
)
    requires
        cbio.len() == 256,
        tops.len() == 256,
        spec_biome_clump_block(biome) == Some(block),
    ensures
        ({
            let r = spec_cluster(seed, hist, left, x, z, biome, block, cbio, tops).0;
            forall|i: int| 0 <= i < r.len() ==> spec_placement_ok(#[trigger] r[i], cbio, tops)
        }),
    decreases left,
{
    if left == 0 {
    } else {
        let ox = xorshift_draw(seed, hist, -2, 3);
        let h1 = hist.push((-2int, 3int));
        let oz = xorshift_draw(seed, h1, -2, 3);
        let h2 = h1.push((-2int, 3int));
        let px = x + ox;
        let pz = z + oz;
        lemma_cluster_ok(seed, h2, (left - 1) as nat, x, z, biome, block, cbio, tops);
        let r = spec_cluster(seed, hist, left, x, z, biome, block, cbio, tops).0;
        let rest = spec_cluster(seed, h2, (left - 1) as nat, x, z, biome, block, cbio, tops).0;
        if 0 <= px < 16 && 0 <= pz < 16 && cbio[spec_col_index(px, pz)] == biome {
            assert forall|i: int| 0 <= i < r.len() implies spec_placement_ok(
                #[trigger] r[i],
                cbio,
                tops,
            ) by {
                if i > 0 {
                    assert(r[i] == rest[i - 1]);
                }
            }
        }
    }
}

proof fn lemma_column_ok(
    seed: u64,
    hist: Seq<(int, int)>,
    x: int,
    z: int,
    table: Seq<Biome>,
    cbio: Seq<Biome>,
    tops: Seq<u16>,
)
    requires
        0 <= x < 16,
        0 <= z < 16,
        table.len() == 256,
        cbio.len() == 256,
        tops.len() == 256,
    ensures
        ({
            let r = spec_column(seed, hist, x, z, table, cbio, tops).0;
            forall|i: int| 0 <= i < r.len() ==> spec_placement_ok(#[trigger] r[i], cbio, tops)
        }),
{
    let biome = table[spec_col_index(x, z)];
    match spec_biome_clump_block(biome) {
        None => {},
        Some(block) => {
            let h1 = hist.push((0int, 48int));
            if xorshift_draw(seed, hist, 0, 48) == 0 {
                let n = xorshift_draw(seed, h1, 3, 6);
                let h2 = h1.push((3int, 6int));
                let cnt = if n < 0 {
                    0 as nat
                } else {
                    n as nat
                };
                lemma_cluster_ok(seed, h2, cnt, x, z, biome, block, cbio, tops);
            }
        },
    }
}

proof fn lemma_columns_ok(
    seed: u64,
    hist: Seq<(int, int)>,
    col: int,
    table: Seq<Biome>,
    cbio: Seq<Biome>,
    tops: Seq<u16>,
)
    requires
        table.len() == 256,
        cbio.len() == 256,
        tops.len() == 256,
    ensures
        ({
            let r = spec_columns(seed, hist, col, table, cbio, tops).0;
            forall|i: int| 0 <= i < r.len() ==> spec_placement_ok(#[trigger] r[i], cbio, tops)
        }),
    decreases 256 - col,
{
    if col < 0 || col >= 256 {
    } else {
        let cr = spec_column(seed, hist, col / 16, col % 16, table, cbio, tops);
        lemma_column_ok(seed, hist, col / 16, col % 16, table, cbio, tops);
        lemma_columns_ok(seed, cr.1, col + 1, table, cbio, tops);
        let rest = spec_columns(seed, cr.1, col + 1, table, cbio, tops).0;
        let r = spec_columns(seed, hist, col, table, cbio, tops).0;
        assert forall|i: int| 0 <= i < r.len() implies spec_placement_ok(
            #[trigger] r[i],
            cbio,
            tops,
        ) by {
            if i >= cr.0.len() {
                assert(r[i] == rest[i - cr.0.len()]);
            }
        }
    }
}

/// Law: every placement the finisher makes for a chunk lies inside the
/// chunk's own 16x16 column bounds, sits exactly one block above the
/// recorded top height of the column it lands in, and is the decoration
/// grown by that landing column's own biome — never one of a foreign
/// biome.
pub proof fn lemma_clump_placements_ok(
    world_seed: u64,
    pos: ChunkPos,
    table: Seq<Biome>,
    cbio: Seq<Biome>,
    tops: Seq<u16>,
)
    requires
        table.len() == 256,
        cbio.len() == 256,
        tops.len() == 256,
    ensures
        ({
            let r = spec_clump_placements(world_seed, pos, table, cbio, tops);
            forall|i: int| 0 <= i < r.len() ==> spec_placement_ok(#[trigger] r[i], cbio, tops)
        }),
{
    lemma_columns_ok(
        spec_chunk_seed(world_seed, pos),
        Seq::<(int, int)>::empty(),
        0,
        table,
        cbio,
        tops,
    );
}

/// Law: the finisher is deterministic. Two runs over logically identical
/// input — the same world seed, chunk coordinate, biome table, chunk biome
/// grid and height table — decide on the same placements, and applying
/// them to equal block grids yields equal block grids.
pub proof fn lemma_finisher_deterministic(
    world_seed: u64,
    pos: ChunkPos,
    table: Seq<Biome>,
    cbio: Seq<Biome>,
    tops: Seq<u16>,
    r1: Seq<Placement>,
    r2: Seq<Placement>,
    blocks: Seq<Block>,
)
    requires
        r1 == spec_clump_placements(world_seed, pos, table, cbio, tops),
        r2 == spec_clump_placements(world_seed, pos, table, cbio, tops),
    ensures
        r1 == r2,
        spec_apply_placements(blocks, r1) == spec_apply_placements(blocks, r2),
{
}

/// A clumped foliage generator: the finishing pass that grows grass clumps
/// on freshly generated chunks.
#[derive(Debug, Default)]
pub struct ClumpedFoliageFinisher;

impl ClumpedFoliageFinisher {
    /// Runs the finishing pass over one exclusively owned chunk: decides
    /// the placements from the world seed, the chunk coordinate and the
    /// two per-column tables, then writes them in order. The result is a
    /// function of those inputs alone.
    #[verifier::loop_isolation(false)]
    pub fn generate_for_chunk(
        &self,
        chunk: &mut Chunk,
        biomes: &ChunkBiomes,
        top_blocks: &TopBlocks,
        seed: u64,
    )
        requires
            old(chunk).wf(),
            biomes.wf(),
            top_blocks.wf(),
        ensures
            final(chunk).wf(),
            final(chunk).spec_pos() == old(chunk).spec_pos(),
            final(chunk).spec_biomes() == old(chunk).spec_biomes(),
            final(chunk).spec_blocks() == spec_apply_placements(
                old(chunk).spec_blocks(),
                spec_clump_placements(
                    seed,
                    old(chunk).spec_pos(),
                    biomes@,
                    old(chunk).spec_biomes(),
                    top_blocks@,
                ),
            ),
    {
        let placements = chunk.clump_placements(biomes, top_blocks, seed);
        proof {
            lemma_clump_placements_ok(
                seed,
                chunk.spec_pos(),
                biomes@,
                chunk.spec_biomes(),
                top_blocks@,
            );
            assert(placements@.subrange(0, 0) =~= Seq::<Placement>::empty());
        }
        let mut i: usize = 0;
        while i < placements.len()
            invariant
                i <= placements.len(),
                chunk.wf(),
                chunk.spec_pos() == old(chunk).spec_pos(),
                chunk.spec_biomes() == old(chunk).spec_biomes(),
                chunk.spec_blocks() == spec_apply_placements(
                    old(chunk).spec_blocks(),
                    placements@.subrange(0, i as int),
                ),
            decreases placements.len() - i,
        {
            let p = placements[i];
            proof {
                assert(spec_placement_ok(placements@[i as int], old(chunk).spec_biomes(), top_blocks@));
            }
            chunk.set_block_at(p.x, p.y, p.z, p.block);
            proof {
                assert(placements@.subrange(0, i as int + 1) =~= placements@.subrange(
                    0,
                    i as int,
                ).push(p));
                lemma_apply_placements_push(
                    old(chunk).spec_blocks(),
                    placements@.subrange(0, i as int),
                    p,
                );
            }
            i = i + 1;
        }
        proof {
            assert(placements@.subrange(0, placements@.len() as int) =~= placements@);
        }
    }
}

} // verus!
