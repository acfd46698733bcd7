use metroidvania::game::scene::level::parse::{make_tile_keys, tileset_meta_from_tiled, tileset_texture_path};
use metroidvania::game::scene::level::room::collision::{CollisionMask, RoomCollision};
use metroidvania::game::scene::level::room::meta::{Collectable, TileBreakability, TileLayerType};
use metroidvania::game::scene::level::room::room::RoomTileException;
use metroidvania::game::scene::level::tile::tiled::{
    TiledImage, TiledProperties, TiledProperty, TiledTile, TiledTileset,
};
use metroidvania::game::scene::level::combat::damage::Damage;
use metroidvania::game::scene::level::physics::transform::TransformationState;
use metroidvania::game::scene::level::{sys_level_listener, LevelScene};
use metroidvania::game::utility::direction::Direction;
use metroidvania::game::utility::controls::{KeyEvents, Key};

fn tile(id: u32, tile_type: &str, pairs: &[(&str, &str)]) -> TiledTile {
    TiledTile {
        id,
        tile_type: tile_type.to_string(),
        properties: Some(TiledProperties {
            properties: pairs
                .iter()
                .map(|(n, v)| TiledProperty { name: n.to_string(), value: v.to_string() })
                .collect(),
        }),
    }
}

fn tileset(tiles: Vec<TiledTile>) -> TiledTileset {
    TiledTileset {
        tile_width: 16,
        tile_height: 16,
        image: TiledImage { source: "tiles.png".to_string(), width: 64, height: 64 },
        tiles,
    }
}

#[test]
fn tileset_meta_reads_every_tile() {
    let set = tileset(vec![
        tile(0, "Tile", &[("breakability", "soft"), ("damage", "5")]),
        tile(7, "Tile", &[("collectable", "health"), ("collision_layer", "player")]),
    ]);
    let meta = tileset_meta_from_tiled(&set).unwrap();
    assert_eq!(meta.len(), 2);
    assert_eq!(meta[&0].breakability, TileBreakability::Soft);
    assert_eq!(meta[&0].damage, 5);
    assert_eq!(meta[&7].collectable, Some(Collectable::Health));
    assert_eq!(meta[&7].collision_layer, RoomCollision::Player);
    assert_eq!(meta[&7].breakability, TileBreakability::Solid);
}

#[test]
fn tileset_meta_reports_the_first_error() {
    let set = tileset(vec![
        tile(0, "Tile", &[]),
        tile(12, "Door", &[]),
        tile(13, "Tile", &[("breakability", "glass")]),
    ]);
    assert_eq!(
        tileset_meta_from_tiled(&set).err(),
        Some("Invalid tile type: Door, for tile: 12".to_string())
    );
    let set = tileset(vec![tile(1, "Tile", &[("breakability", "glass")])]);
    assert_eq!(tileset_meta_from_tiled(&set).err(), Some("Invalid breakability: glass".to_string()));
    let set = tileset(vec![tile(1, "Tile", &[("damage", "x")])]);
    assert_eq!(tileset_meta_from_tiled(&set).err(), Some("invalid digit found in string".to_string()));
}

#[test]
fn later_tiles_override_earlier_ones_with_the_same_id() {
    let set = tileset(vec![tile(3, "Tile", &[("damage", "1")]), tile(3, "Tile", &[("damage", "2")])]);
    let meta = tileset_meta_from_tiled(&set).unwrap();
    assert_eq!(meta.len(), 1);
    assert_eq!(meta[&3].damage, 2);
}

#[test]
fn tile_keys_are_offset_by_one() {
    let data = String::from("\n0,1,2,\n 3 ,x\n");
    assert_eq!(make_tile_keys(&data, &','), vec![None, Some(0), Some(1), Some(2), None]);
    assert_eq!(make_tile_keys(&String::from(""), &','), vec![None]);
    assert_eq!(make_tile_keys(&String::from("4294967295"), &','), vec![Some(u32::MAX - 1)]);
}

#[test]
fn collision_masks() {
    assert!(CollisionMask::new(false, false, false, false).is_empty());
    assert!(!CollisionMask::full().is_empty());
    let mut mask = CollisionMask::default();
    assert!(mask.is_empty());
    assert_eq!(mask.set_side(Direction::Up, true), Ok(()));
    assert!(mask.top && !mask.right && !mask.bottom && !mask.left);
    assert!(!mask.is_empty());
    assert_eq!(mask.set_side(Direction::Left, true), Ok(()));
    assert_eq!(mask, CollisionMask::new(true, false, false, true));
    let before = mask;
    assert_eq!(
        mask.set_side(Direction::UpRight, true),
        Err("Ordinal direction is not supported for collision masks".to_string())
    );
    assert_eq!(mask, before);
    assert_eq!(RoomCollision::default(), RoomCollision::All);
}

#[test]
fn small_components() {
    assert_eq!(Damage::new(8).amount, 8);
    assert_eq!(TransformationState::from(true), TransformationState::Progressing);
    assert_eq!(TransformationState::from(false), TransformationState::Complete);
    let _ = RoomTileException::new(4, TileLayerType::Collision, None);
    assert!(LevelScene::build(2).is_ok());
}

#[test]
fn level_listener_leaves_on_escape() {
    let pressed = KeyEvents { pressed: vec![Key::Escape], held: vec![] };
    assert!(sys_level_listener(&pressed));
    let held = KeyEvents { pressed: vec![], held: vec![Key::Escape] };
    assert!(!sys_level_listener(&held));
}

#[test]
fn tileset_textures_lie_beside_the_tileset() {
    let set = tileset(vec![]);
    assert_eq!(tileset_texture_path("asset/world/tiles.tsx", &set), Ok("asset/world/tiles.png".to_string()));
    assert_eq!(tileset_texture_path("tiles.tsx", &set), Ok("tiles.png".to_string()));
    assert_eq!(tileset_texture_path("", &set), Err("Failed to get tileset directory".to_string()));
    assert_eq!(tileset_texture_path("/", &set), Err("Failed to get tileset directory".to_string()));
}
