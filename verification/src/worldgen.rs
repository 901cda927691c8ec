use vstd::prelude::*;

use crate::GRID_SIZE;
use crate::noise_field::{
    NoiseField, ROCK_THRESHOLD_BITS, WATER_THRESHOLD_BITS, cell_index, exceeds_threshold,
    lemma_low_sample_exceeds_neither, lemma_water_implies_rock, sample_exceeds,
};
use crate::tiles::{TerrainKind, TileMap, spec_is_passable};

verus! {

/// Visual classification of one renderable tile record. Only the terrain
/// kind matters to passability; these categories exist for the rendering
/// collaborator.
#[derive(Clone, Copy, PartialEq, Eq, Structural, Debug)]
pub enum VisualKind {
    Ground,
    Rock,
    Water,
}

/// One renderable record emitted per generated feature: the cell it
/// stands on, its depth layer (a rendering-only stacking order), its
/// visual category, and the terrain kind the feature carries. Records are
/// write-only outputs of generation and are never read back by the core.
#[derive(Clone, Copy, PartialEq, Eq, Structural, Debug)]
pub struct TileRecord {
    pub x: i32,
    pub y: i32,
    pub depth: u32,
    pub visual: VisualKind,
    pub terrain: TerrainKind,
}

/// Whether the cell's noise sample exceeds the rock threshold.
pub open spec fn rock_at(nf: Seq<u64>, x: int, y: int) -> bool {
    sample_exceeds(nf[cell_index(x, y)], ROCK_THRESHOLD_BITS)
}

/// Whether the cell's noise sample exceeds the water threshold. The
/// generation pass reads the cell's sample a second time for this test;
/// the field holds one sample per cell, so it is the same value the rock
/// test read.
pub open spec fn water_at(nf: Seq<u64>, x: int, y: int) -> bool {
    sample_exceeds(nf[cell_index(x, y)], WATER_THRESHOLD_BITS)
}

/// Final classification of a cell: ground is always laid down passable,
/// and a rock or water feature overwrites the cell to unpassable. The map
/// keeps only the last write, so for a cell exceeding both thresholds the
/// water overwrite repeats the value rock already set.
pub open spec fn cell_kind(nf: Seq<u64>, x: int, y: int) -> TerrainKind {
    if rock_at(nf, x, y) || water_at(nf, x, y) {
        TerrainKind::Unpassable
    } else {
        TerrainKind::Passable
    }
}

/// Whether a coordinate lies on the generated grid.
pub open spec fn in_grid(p: (int, int)) -> bool {
    0 <= p.0 < 64 && 0 <= p.1 < 64
}

/// The tile map generation leaves behind: exactly the grid's cells, each
/// classified from its noise sample.
pub open spec fn world_map(nf: Seq<u64>) -> Map<(int, int), TerrainKind> {
    Map::new(|p: (int, int)| in_grid(p), |p: (int, int)| cell_kind(nf, p.0, p.1))
}

/// The ground record of a cell: depth layer 0, passable.
pub open spec fn ground_record(x: int, y: int) -> TileRecord {
    TileRecord {
        x: x as i32,
        y: y as i32,
        depth: 0,
        visual: VisualKind::Ground,
        terrain: TerrainKind::Passable,
    }
}

/// The rock record of a cell: depth layer 1, unpassable.
pub open spec fn rock_record(x: int, y: int) -> TileRecord {
    TileRecord {
        x: x as i32,
        y: y as i32,
        depth: 1,
        visual: VisualKind::Rock,
        terrain: TerrainKind::Unpassable,
    }
}

/// The water record of a cell: depth layer 1, unpassable, stacked after
/// the rock record at the same depth.
pub open spec fn water_record(x: int, y: int) -> TileRecord {
    TileRecord {
        x: x as i32,
        y: y as i32,
        depth: 1,
        visual: VisualKind::Water,
        terrain: TerrainKind::Unpassable,
    }
}

/// The records one cell emits, in order: always ground, then rock if the
/// sample exceeds the rock threshold, then water if it also exceeds the
/// water threshold.
pub open spec fn cell_records(nf: Seq<u64>, x: int, y: int) -> Seq<TileRecord> {
    seq![ground_record(x, y)] + (if rock_at(nf, x, y) {
        seq![rock_record(x, y)]
    } else {
        Seq::<TileRecord>::empty()
    }) + (if water_at(nf, x, y) {
        seq![water_record(x, y)]
    } else {
        Seq::<TileRecord>::empty()
    })
}

/// Records of the first `y` cells of row `x`, in generation order.
pub open spec fn row_records(nf: Seq<u64>, x: int, y: int) -> Seq<TileRecord>
    decreases y,
{
    if y <= 0 {
        Seq::empty()
    } else {
        row_records(nf, x, y - 1) + cell_records(nf, x, y - 1)
    }
}

/// Records of the first `x` full rows, in generation order.
pub open spec fn rows_records(nf: Seq<u64>, x: int) -> Seq<TileRecord>
    decreases x,
{
    if x <= 0 {
        Seq::empty()
    } else {
        rows_records(nf, x - 1) + row_records(nf, x - 1, 64)
    }
}

/// Every record generation emits for the whole grid, in order.
pub open spec fn world_records(nf: Seq<u64>) -> Seq<TileRecord> {
    rows_records(nf, 64)
}

/// The part of the generated map written before reaching cell (x, y) in
/// row-major order.
spec fn map_upto(nf: Seq<u64>, x: int, y: int) -> Map<(int, int), TerrainKind> {
    Map::new(
        |p: (int, int)| in_grid(p) && (p.0 < x || (p.0 == x && p.1 < y)),
        |p: (int, int)| cell_kind(nf, p.0, p.1),
    )
}

/// Runs generation once over every cell of the grid: samples the cell's
/// noise, records it as passable ground, then lets a rock feature and a
/// water feature overwrite it to unpassable when the sample exceeds their
/// thresholds. Populates the tile map and returns the renderable records
/// for the rendering collaborator. Both outcomes are functions of the
/// noise field alone, so two runs over equal fields populate identical
/// maps and emit identical records.
pub fn generate_world(field: &NoiseField, tile_map: &mut TileMap) -> (records: Vec<TileRecord>)
    requires
        old(tile_map)@ == Map::<(int, int), TerrainKind>::empty(),
    ensures
        final(tile_map)@ == world_map(field@),
        records@ == world_records(field@),
{
    let mut records: Vec<TileRecord> = Vec::new();
    proof {
        assert(tile_map@ =~= map_upto(field@, 0, 0));
        assert(records@ =~= rows_records(field@, 0));
    }
    let mut x: i32 = 0;
    while x < GRID_SIZE
        invariant
            0 <= x <= 64,
            tile_map@ == map_upto(field@, x as int, 0),
            records@ == rows_records(field@, x as int),
        decreases 64 - x,
    {
        let mut y: i32 = 0;
        while y < GRID_SIZE
            invariant
                0 <= x < 64,
                0 <= y <= 64,
                tile_map@ == map_upto(field@, x as int, y as int),
                records@ == rows_records(field@, x as int) + row_records(
                    field@,
                    x as int,
                    y as int,
                ),
            decreases 64 - y,
        {
            let ghost entered_records = records@;
            let sample = field.sample_bits(x, y);

            records.push(
                TileRecord {
                    x,
                    y,
                    depth: 0,
                    visual: VisualKind::Ground,
                    terrain: TerrainKind::Passable,
                },
            );
            tile_map.insert((x, y), TerrainKind::Passable);

            if exceeds_threshold(sample, ROCK_THRESHOLD_BITS) {
                records.push(
                    TileRecord {
                        x,
                        y,
                        depth: 1,
                        visual: VisualKind::Rock,
                        terrain: TerrainKind::Unpassable,
                    },
                );
                tile_map.insert((x, y), TerrainKind::Unpassable);
            }

            let resample = field.sample_bits(x, y);
            if exceeds_threshold(resample, WATER_THRESHOLD_BITS) {
                records.push(
                    TileRecord {
                        x,
                        y,
                        depth: 1,
                        visual: VisualKind::Water,
                        terrain: TerrainKind::Unpassable,
                    },
                );
                tile_map.insert((x, y), TerrainKind::Unpassable);
            }

            proof {
                assert(tile_map@ =~= map_upto(field@, x as int, y as int + 1));
                assert(row_records(field@, x as int, y as int + 1) == row_records(
                    field@,
                    x as int,
                    y as int,
                ) + cell_records(field@, x as int, y as int));
                assert(records@ =~= entered_records + cell_records(field@, x as int, y as int));
                assert(records@ =~= rows_records(field@, x as int) + row_records(
                    field@,
                    x as int,
                    y as int + 1,
                ));
            }
            y = y + 1;
        }
        proof {
            assert(tile_map@ =~= map_upto(field@, x as int + 1, 0));
            assert(rows_records(field@, x as int + 1) == rows_records(field@, x as int)
                + row_records(field@, x as int, 64));
        }
        x = x + 1;
    }
    proof {
        assert(tile_map@ =~= world_map(field@));
    }
    records
}

/// Every cell whose sample exceeds the water threshold also exceeds the
/// rock threshold, and its final map kind is unpassable: water implies
/// rock implies unpassable.
pub proof fn lemma_water_cell_unpassable(nf: Seq<u64>, x: int, y: int)
    requires
        in_grid((x, y)),
        water_at(nf, x, y),
    ensures
        rock_at(nf, x, y),
        world_map(nf)[(x, y)] == TerrainKind::Unpassable,
        !spec_is_passable(world_map(nf), (x, y)),
{
    lemma_water_implies_rock(nf[cell_index(x, y)]);
}

/// Every cell whose sample stays at or below the rock threshold keeps its
/// final map kind passable.
pub proof fn lemma_low_cell_passable(nf: Seq<u64>, x: int, y: int)
    requires
        in_grid((x, y)),
        !rock_at(nf, x, y),
    ensures
        world_map(nf)[(x, y)] == TerrainKind::Passable,
        spec_is_passable(world_map(nf), (x, y)),
{
    lemma_low_sample_exceeds_neither(nf[cell_index(x, y)]);
}

/// A water cell emits both feature records, stacked at the same depth
/// layer with the water record after the rock record; the second map
/// overwrite repeats the value the rock overwrite already set.
pub proof fn lemma_water_stacks_on_rock(nf: Seq<u64>, x: int, y: int)
    requires
        water_at(nf, x, y),
    ensures
        cell_records(nf, x, y) == seq![
            ground_record(x, y),
            rock_record(x, y),
            water_record(x, y),
        ],
        rock_record(x, y).depth == water_record(x, y).depth,
        rock_record(x, y).terrain == water_record(x, y).terrain,
{
    lemma_water_implies_rock(nf[cell_index(x, y)]);
    assert(cell_records(nf, x, y) =~= seq![
        ground_record(x, y),
        rock_record(x, y),
        water_record(x, y),
    ]);
}

/// Generation is deterministic end to end: the generated map and records
/// are functions of the noise field alone, so equal fields yield an
/// identical map and identical records.
pub proof fn lemma_generation_deterministic(nf1: Seq<u64>, nf2: Seq<u64>)
    requires
        nf1 == nf2,
    ensures
        world_map(nf1) == world_map(nf2),
        world_records(nf1) == world_records(nf2),
{
}

} // verus!
