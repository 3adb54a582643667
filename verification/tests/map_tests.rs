use liege::map::{GameMap, GrassTileType};

#[test]
fn test_new_map() {
    let game_map = GameMap::new(3, 3);

    assert_eq!(game_map.map_width, 3);
    assert_eq!(game_map.map_height, 3);
    assert_eq!(game_map.tiles.len(), 0);
}

#[test]
fn test_generate_simple_map() {
    let mut game_map = GameMap::new(3, 3);
    game_map.generate_simple_map();

    assert_eq!(game_map.tiles.len(), 9);
    for tile in game_map.tiles {
        assert!(tile >= 0 && tile < 7);
    }
}

#[test]
fn test_map_index() {
    let game_map = GameMap::new(3, 3);
    let index = game_map.map_index(1, 2);

    assert_eq!(index, 7);
}

#[test]
fn test_map_coords() {
    let game_map = GameMap::new(3, 3);
    let coords = game_map.map_coords(7);

    assert_eq!(coords, (1, 2));
}

#[test]
fn test_grass_tile_indices() {
    assert_eq!(GrassTileType::Grass1.as_i32(), 1);
    assert_eq!(GrassTileType::Grass4.as_i32(), 4);
    assert_eq!(GrassTileType::Grass7.as_i32(), 7);
}
