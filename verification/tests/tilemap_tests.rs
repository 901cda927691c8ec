use tileworld::tiles::{TerrainKind, TileMap};

#[test]
fn empty_map_is_never_passable() {
    let map = TileMap::new();
    assert!(!map.is_passable((0, 0)));
    assert!(!map.is_passable((32, 32)));
    assert!(!map.is_passable((-5, 100)));
    assert_eq!(map.get((0, 0)), None);
}

#[test]
fn absent_coordinates_stay_unpassable_after_other_inserts() {
    let mut map = TileMap::new();
    map.insert((1, 1), TerrainKind::Passable);
    map.insert((2, 2), TerrainKind::Unpassable);
    assert!(!map.is_passable((3, 3)));
    assert!(!map.is_passable((1, 2)));
    assert_eq!(map.get((3, 3)), None);
}

#[test]
fn inserted_passable_is_passable() {
    let mut map = TileMap::new();
    map.insert((4, -7), TerrainKind::Passable);
    assert!(map.is_passable((4, -7)));
    assert_eq!(map.get((4, -7)), Some(TerrainKind::Passable));
}

#[test]
fn inserted_unpassable_is_not_passable() {
    let mut map = TileMap::new();
    map.insert((4, 7), TerrainKind::Unpassable);
    assert!(!map.is_passable((4, 7)));
    assert_eq!(map.get((4, 7)), Some(TerrainKind::Unpassable));
}

#[test]
fn last_write_wins_on_overwrite() {
    let mut map = TileMap::new();
    map.insert((9, 9), TerrainKind::Passable);
    assert!(map.is_passable((9, 9)));
    map.insert((9, 9), TerrainKind::Unpassable);
    assert!(!map.is_passable((9, 9)));
    assert_eq!(map.get((9, 9)), Some(TerrainKind::Unpassable));
    map.insert((9, 9), TerrainKind::Passable);
    assert!(map.is_passable((9, 9)));
    assert_eq!(map.get((9, 9)), Some(TerrainKind::Passable));
}

#[test]
fn overwrite_does_not_touch_other_cells() {
    let mut map = TileMap::new();
    map.insert((0, 0), TerrainKind::Passable);
    map.insert((0, 1), TerrainKind::Passable);
    map.insert((0, 0), TerrainKind::Unpassable);
    assert!(map.is_passable((0, 1)));
    assert!(!map.is_passable((0, 0)));
}
