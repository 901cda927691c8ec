use noise::{NoiseFn, Perlin};
use tileworld::noise_field::{
    GRID_CELLS, NoiseField, ROCK_THRESHOLD_BITS, WATER_THRESHOLD_BITS, exceeds_threshold,
};
use tileworld::tiles::{TerrainKind, TileMap};
use tileworld::worldgen::{VisualKind, generate_world};

const NOISE_SEED: u32 = 12;
const NOISE_SCALE: f64 = 10.3;

fn perlin_sample(perlin: &Perlin, x: i32, y: i32) -> f64 {
    perlin.get([x as f64 / NOISE_SCALE, y as f64 / NOISE_SCALE])
}

fn sampled_grid(seed: u32) -> Vec<u64> {
    let perlin = Perlin::new(seed);
    let mut samples = Vec::with_capacity(GRID_CELLS);
    for x in 0..64 {
        for y in 0..64 {
            samples.push(perlin_sample(&perlin, x, y).to_bits());
        }
    }
    samples
}

fn uniform_grid(value: f64) -> Vec<u64> {
    vec![value.to_bits(); GRID_CELLS]
}

#[test]
fn threshold_bit_patterns_are_the_doubles() {
    assert_eq!(ROCK_THRESHOLD_BITS, (0.3f64).to_bits());
    assert_eq!(WATER_THRESHOLD_BITS, (0.8f64).to_bits());
}

#[test]
fn bit_comparison_matches_double_comparison() {
    let samples: [f64; 17] = [
        -1.0, -0.80001, -0.8, -0.3, -0.0001, -0.0, 0.0, 0.0001, 0.2999, 0.3, 0.30001, 0.5,
        0.79999, 0.8, 0.80001, 0.99, 1.0,
    ];
    for v in samples {
        assert_eq!(
            exceeds_threshold(v.to_bits(), ROCK_THRESHOLD_BITS),
            v > 0.3,
            "rock threshold disagrees at {v}"
        );
        assert_eq!(
            exceeds_threshold(v.to_bits(), WATER_THRESHOLD_BITS),
            v > 0.8,
            "water threshold disagrees at {v}"
        );
    }
}

#[test]
fn noise_sampling_is_deterministic() {
    let perlin = Perlin::new(NOISE_SEED);
    for (x, y) in [(0, 0), (5, 7), (63, 63), (31, 2)] {
        let first = perlin_sample(&perlin, x, y);
        let second = perlin_sample(&perlin, x, y);
        assert_eq!(first.to_bits(), second.to_bits());
    }
    let again = Perlin::new(NOISE_SEED);
    assert_eq!(
        perlin_sample(&perlin, 17, 40).to_bits(),
        perlin_sample(&again, 17, 40).to_bits()
    );
}

#[test]
fn noise_field_repeats_the_recorded_sample() {
    let field = NoiseField::from_samples(sampled_grid(NOISE_SEED));
    for (x, y) in [(0, 0), (5, 7), (63, 63)] {
        let first = field.sample_bits(x, y);
        let second = field.sample_bits(x, y);
        assert_eq!(first, second);
    }
    assert_eq!(field.len(), GRID_CELLS);
}

#[test]
fn generated_map_follows_the_thresholds() {
    let perlin = Perlin::new(NOISE_SEED);
    let field = NoiseField::from_samples(sampled_grid(NOISE_SEED));
    let mut map = TileMap::new();
    let records = generate_world(&field, &mut map);

    let mut rocks = 0usize;
    let mut waters = 0usize;
    for x in 0..64 {
        for y in 0..64 {
            let n = perlin_sample(&perlin, x, y);
            let expected = if n > 0.3 || n > 0.8 {
                TerrainKind::Unpassable
            } else {
                TerrainKind::Passable
            };
            assert_eq!(map.get((x, y)), Some(expected), "cell ({x}, {y})");
            assert_eq!(map.is_passable((x, y)), n <= 0.3, "cell ({x}, {y})");
            if n > 0.8 {
                // Water implies rock implies unpassable.
                assert!(n > 0.3);
                assert!(!map.is_passable((x, y)));
            }
            if n > 0.3 {
                rocks += 1;
            }
            if n > 0.8 {
                waters += 1;
            }
        }
    }
    assert_eq!(records.len(), GRID_CELLS + rocks + waters);
    // The sampled terrain is not degenerate: both kinds occur.
    assert!(rocks > 0);
    assert!(rocks < GRID_CELLS);
}

#[test]
fn generation_is_deterministic_end_to_end() {
    let field_a = NoiseField::from_samples(sampled_grid(NOISE_SEED));
    let field_b = NoiseField::from_samples(sampled_grid(NOISE_SEED));
    let mut map_a = TileMap::new();
    let mut map_b = TileMap::new();
    let records_a = generate_world(&field_a, &mut map_a);
    let records_b = generate_world(&field_b, &mut map_b);
    assert_eq!(records_a, records_b);
    for x in 0..64 {
        for y in 0..64 {
            assert_eq!(map_a.get((x, y)), map_b.get((x, y)));
        }
    }
}

#[test]
fn low_noise_grid_is_all_passable_ground() {
    let field = NoiseField::from_samples(uniform_grid(0.0));
    let mut map = TileMap::new();
    let records = generate_world(&field, &mut map);
    assert_eq!(records.len(), GRID_CELLS);
    for record in &records {
        assert_eq!(record.depth, 0);
        assert_eq!(record.visual, VisualKind::Ground);
        assert_eq!(record.terrain, TerrainKind::Passable);
    }
    for x in 0..64 {
        for y in 0..64 {
            assert!(map.is_passable((x, y)));
        }
    }
    // Cells outside the grid were never inserted.
    assert!(!map.is_passable((64, 0)));
    assert!(!map.is_passable((0, -1)));
}

#[test]
fn high_noise_grid_stacks_rock_and_water() {
    let field = NoiseField::from_samples(uniform_grid(0.9));
    let mut map = TileMap::new();
    let records = generate_world(&field, &mut map);
    assert_eq!(records.len(), 3 * GRID_CELLS);
    // Per cell: ground at depth 0, then rock and water stacked at depth 1,
    // water spawned after rock.
    for cell in records.chunks(3) {
        assert_eq!(cell[0].visual, VisualKind::Ground);
        assert_eq!(cell[0].depth, 0);
        assert_eq!(cell[0].terrain, TerrainKind::Passable);
        assert_eq!(cell[1].visual, VisualKind::Rock);
        assert_eq!(cell[1].depth, 1);
        assert_eq!(cell[1].terrain, TerrainKind::Unpassable);
        assert_eq!(cell[2].visual, VisualKind::Water);
        assert_eq!(cell[2].depth, 1);
        assert_eq!(cell[2].terrain, TerrainKind::Unpassable);
        assert_eq!(cell[0].x, cell[1].x);
        assert_eq!(cell[0].x, cell[2].x);
        assert_eq!(cell[0].y, cell[1].y);
        assert_eq!(cell[0].y, cell[2].y);
    }
    for x in 0..64 {
        for y in 0..64 {
            assert!(!map.is_passable((x, y)));
        }
    }
}

#[test]
fn mid_noise_grid_is_rock_without_water() {
    let field = NoiseField::from_samples(uniform_grid(0.5));
    let mut map = TileMap::new();
    let records = generate_world(&field, &mut map);
    assert_eq!(records.len(), 2 * GRID_CELLS);
    for cell in records.chunks(2) {
        assert_eq!(cell[0].visual, VisualKind::Ground);
        assert_eq!(cell[1].visual, VisualKind::Rock);
    }
    assert!(!map.is_passable((10, 10)));
}

#[test]
fn records_walk_the_grid_in_row_major_order() {
    let field = NoiseField::from_samples(uniform_grid(0.0));
    let mut map = TileMap::new();
    let records = generate_world(&field, &mut map);
    for (i, record) in records.iter().enumerate() {
        assert_eq!(record.x, (i / 64) as i32);
        assert_eq!(record.y, (i % 64) as i32);
    }
}
