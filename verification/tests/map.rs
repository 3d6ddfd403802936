use tibia_server::map::borders::{rules, BorderTile};
use tibia_server::map::ids::{item_id_map, tile_id_map};
use tibia_server::map::position::Position;
use tibia_server::map::{init, JsonItem, JsonTile, MapFile, TileObject};

fn ids(objs: &[TileObject]) -> Vec<(char, u16)> {
    objs.iter()
        .map(|o| match o {
            TileObject::Ground(id) => ('g', *id),
            TileObject::Item(id) => ('i', *id),
            TileObject::Creature(id, _, _) => ('c', *id as u16),
        })
        .collect()
}

fn tile(x: u16, y: u16, tileid: Option<u16>, items: &[u16]) -> JsonTile {
    JsonTile {
        x,
        y,
        tileid,
        items: if items.is_empty() { None } else { Some(items.iter().map(|&id| JsonItem { id }).collect()) },
    }
}

#[test]
fn empty_file_gives_water() {
    let map = init(MapFile { tiles: vec![] });
    assert_eq!(map.respawn(), Position::new(50, 100, 7));
    assert_eq!(ids(map.get_tile_objects(Position::new(5, 5, 7)).unwrap()), vec![('g', 0x000E)]);
    assert_eq!(ids(map.get_tile_objects(Position::new(159, 159, 7)).unwrap()), vec![('g', 0x000E)]);
    // Outside the area: empty water on floor 7, nothing on other floors.
    assert_eq!(map.get_tile_objects(Position::new(160, 5, 7)).unwrap().len(), 0);
    assert!(map.get_tile_objects(Position::new(200, 5, 6)).is_none());
    // Inside the area only floor 7 has tiles.
    assert!(map.get_tile_objects(Position::new(5, 5, 6)).is_none());
}

#[test]
fn border_rule_merges_tile_and_border() {
    // Grass border (top) on sand: merged into the border tile, item removed.
    let map = init(MapFile { tiles: vec![tile(10, 10, Some(104), &[7653, 1987])] });
    assert_eq!(ids(map.get_tile_objects(Position::new(10, 10, 7)).unwrap()), vec![('g', 0x140A), ('i', 0x013D)]);
}

#[test]
fn border_rule_without_tile_id_keeps_the_items() {
    // Border on water (no tile id): not merged; the border item has no 1.03 id.
    let map = init(MapFile { tiles: vec![tile(3, 4, None, &[7709])] });
    assert_eq!(ids(map.get_tile_objects(Position::new(3, 4, 7)).unwrap()), vec![('g', 0x5B0E)]);
}

#[test]
fn items_are_stacked_last_first() {
    let map = init(MapFile { tiles: vec![tile(7, 8, Some(4526), &[1987, 2376, 9999])] });
    assert_eq!(
        ids(map.get_tile_objects(Position::new(7, 8, 7)).unwrap()),
        vec![('g', 0x000A), ('i', 0x005A), ('i', 0x013D)]
    );
}

#[test]
fn unknown_tile_id_falls_back_to_water_and_later_tiles_win() {
    let map = init(MapFile {
        tiles: vec![tile(1, 1, Some(9999), &[]), tile(2, 2, Some(4526), &[1987]), tile(2, 2, Some(104), &[2376])],
    });
    assert_eq!(ids(map.get_tile_objects(Position::new(1, 1, 7)).unwrap()), vec![('g', 0x000E)]);
    assert_eq!(
        ids(map.get_tile_objects(Position::new(2, 2, 7)).unwrap()),
        vec![('g', 0x020A), ('i', 0x013D), ('i', 0x005A)]
    );
}

#[test]
fn tiles_outside_the_area_are_not_visible() {
    let map = init(MapFile { tiles: vec![tile(500, 500, Some(4526), &[1987])] });
    assert_eq!(map.get_tile_objects(Position::new(500, 500, 7)).unwrap().len(), 0);
}

#[test]
fn loaded_area_always_starts_with_ground() {
    let map = init(MapFile {
        tiles: vec![tile(0, 0, None, &[1987]), tile(1, 0, Some(351), &[7664]), tile(2, 0, None, &[])],
    });
    for x in 0..4u16 {
        let objs = map.get_tile_objects(Position::new(x, 0, 7)).unwrap();
        assert!(matches!(objs[0], TileObject::Ground(_)));
    }
    assert_eq!(ids(map.get_tile_objects(Position::new(0, 0, 7)).unwrap()), vec![('g', 0x000E), ('i', 0x013D)]);
    assert_eq!(ids(map.get_tile_objects(Position::new(1, 0, 7)).unwrap()), vec![('g', 0x0E0A)]);
}

#[test]
fn id_tables() {
    assert_eq!(tile_id_map(4608), Some(0x000E));
    assert_eq!(tile_id_map(1016), Some(0x3313));
    assert_eq!(tile_id_map(1024), Some(0x3B13));
    assert_eq!(tile_id_map(967), Some(0x0213));
    assert_eq!(tile_id_map(1015), Some(0x3213));
    assert_eq!(tile_id_map(1025), None);
    assert_eq!(item_id_map(17751), Some(0x062D));
    assert_eq!(item_id_map(2561), Some(0x0069));
    assert_eq!(item_id_map(1), None);
}

#[test]
fn border_rules_table() {
    let r = rules();
    assert_eq!(r.len(), 60);
    assert_eq!(r[0], BorderTile { tileid: None, item_id: 7653, result_tileid: 0x5A0E, merge: false });
    assert_eq!(r[12], BorderTile { tileid: Some(104), item_id: 7653, result_tileid: 0x140A, merge: true });
    assert_eq!(r[59], BorderTile { tileid: Some(4405), item_id: 7659, result_tileid: 0xB10A, merge: true });
    assert!(r[12].matches(Some(104), 7653));
    assert!(!r[12].matches(None, 7653));
    assert!(!r[12].matches(Some(104), 7709));
}

#[test]
fn item_table_entries() {
    let keys: Vec<u16> = (0..=u16::MAX).filter(|k| item_id_map(*k).is_some()).collect();
    assert_eq!(keys.len(), 60);
    assert!(keys.iter().all(|k| item_id_map(*k) != Some(0)));
    assert!(rules().iter().all(|r| item_id_map(r.item_id).is_none()));
}

#[test]
fn tile_table_entries() {
    let count = (0..=u16::MAX).filter(|k| tile_id_map(*k).is_some()).count();
    assert_eq!(count, 75);
    for id in 967u16..=1024 {
        assert_eq!(tile_id_map(id), Some(0x0213 + 0x0100 * (id - 967)));
    }
    assert_eq!(tile_id_map(1016), Some(0x3313));
    assert_eq!(tile_id_map(1024), Some(0x3B13));
    assert!(rules().iter().all(|r| r.tileid.map_or(true, |t| tile_id_map(t).is_some())));
}

#[test]
fn loaded_map_has_objects_only_on_floor_seven() {
    let map = init(MapFile { tiles: vec![tile(3, 4, Some(4526), &[1987])] });
    assert!(map.get_tile_objects(Position::new(3, 4, 6)).is_none());
    assert!(map.get_tile_objects(Position::new(3, 4, 8)).is_none());
    assert!(map.get_tile_objects(Position::new(500, 500, 6)).is_none());
    assert_eq!(map.get_tile_objects(Position::new(500, 500, 7)).map(|o| o.len()), Some(0));
    let objs = map.get_tile_objects(Position::new(3, 4, 7)).unwrap();
    assert_eq!(ids(objs), vec![('g', 0x000A), ('i', 0x013D)]);
}
