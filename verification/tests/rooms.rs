use metroidvania::game::geometry::Vec2;
use metroidvania::game::scene::level::backdrop::backdrop::segment_coordinates;
use metroidvania::game::scene::level::combat::damage::{projectile_hit, ProjectileHit};
use metroidvania::game::scene::level::registry::{
    pick_room_collision, plan_registry, world_map_position, RoomRegistryTileExceptions, TiledWorldMap,
};
use metroidvania::game::scene::level::room::collision::{
    layers_collide, mask_outline, repaired_mask, resolution_step, CollisionMask, ResolutionStep, RoomCollision,
    TileContact, MAX_COLLISION_PHASES,
};
use metroidvania::game::scene::level::collision::shot_breaks_tile;
use metroidvania::game::scene::level::room::meta::{
    Collectable, Item, ObjMeta, TileBreakability, TileLayerType, TileMeta,
};
use metroidvania::game::scene::level::room::room::{
    find_exception, object_story, plan_tile, BreakMarker, RoomTileException, TilePlan,
    TileRenderLayer,
};
use metroidvania::game::scene::level::story::data::{Story, StoryItem};
use metroidvania::game::utility::direction::Direction;

fn collected(room: &str, index: usize) -> Item {
    Item { collectable: Collectable::Health, map_index: index, room_name: room.to_string() }
}

fn contact() -> TileContact {
    TileContact { brittle: false, strong: false, soft: false, bullet: false, rocket: false, fragile: false }
}

fn meta(breakability: TileBreakability, collectable: Option<Collectable>, layer: RoomCollision, damage: u32) -> TileMeta {
    TileMeta { breakability, collectable, collision_layer: layer, damage }
}

fn entry(key: &str) -> StoryItem {
    StoryItem { key: key.to_string(), title: format!("{key} title"), data: vec!["line".to_string()], endgame: false }
}

#[test]
fn exceptions_are_grouped_by_room_in_inventory_order() {
    let inventory = vec![collected("cave", 4), collected("hall", 9), collected("cave", 2)];
    let mut exceptions = RoomRegistryTileExceptions::from_inventory(&inventory);
    let cave = exceptions.take("cave");
    assert_eq!(cave.len(), 2);
    assert!(find_exception(&cave, TileLayerType::Collision, 4).is_some());
    assert!(find_exception(&cave, TileLayerType::Collision, 2).is_some());
    assert!(find_exception(&cave, TileLayerType::Background, 4).is_none());
    assert!(find_exception(&cave, TileLayerType::Collision, 9).is_none());
    let solid = meta(TileBreakability::Solid, None, RoomCollision::All, 0);
    assert_eq!(plan_tile(&cave, TileLayerType::Collision, 4, &solid, false), None);
    assert_eq!(plan_tile(&cave, TileLayerType::Collision, 2, &solid, false), None);
    assert!(plan_tile(&cave, TileLayerType::Collision, 9, &solid, false).is_some());
    assert!(exceptions.take("cave").is_empty());
    let hall = exceptions.take("hall");
    assert_eq!(hall.len(), 1);
    assert!(find_exception(&hall, TileLayerType::Collision, 9).is_some());
    assert!(exceptions.take("attic").is_empty());
}

#[test]
fn room_collisions_pick_one_room() {
    assert_eq!(pick_room_collision(vec![]), Ok(None));
    assert_eq!(pick_room_collision(vec!["hall".to_string()]), Ok(Some("hall".to_string())));
    assert_eq!(
        pick_room_collision(vec!["hall".to_string(), "cave".to_string()]),
        Err("Multiple room collisions".to_string())
    );
}

#[test]
fn removed_tiles_are_not_planned() {
    let exceptions = vec![RoomTileException::new(3, TileLayerType::Collision, None)];
    let solid = meta(TileBreakability::Solid, None, RoomCollision::All, 0);
    assert_eq!(plan_tile(&exceptions, TileLayerType::Collision, 3, &solid, false), None);
    let kept = plan_tile(&exceptions, TileLayerType::Foreground, 3, &solid, false).unwrap();
    assert_eq!(
        kept,
        TilePlan {
            sprite: true,
            render_layer: TileRenderLayer::Layer7,
            collider: false,
            collectable: None,
            marker: None,
            damage: None,
        }
    );
}

#[test]
fn collision_tiles_get_their_components() {
    let exceptions = Vec::new();
    let spikes = meta(TileBreakability::Brittle, Some(Collectable::IceBeam), RoomCollision::Player, 10);
    assert_eq!(
        plan_tile(&exceptions, TileLayerType::Collision, 0, &spikes, false),
        Some(TilePlan {
            sprite: false,
            render_layer: TileRenderLayer::Layer6,
            collider: true,
            collectable: Some(Collectable::IceBeam),
            marker: Some(BreakMarker::Fragile),
            damage: Some(10),
        })
    );
    let hidden = meta(TileBreakability::Soft, None, RoomCollision::All, 0);
    let plan = plan_tile(&exceptions, TileLayerType::Collision, 1, &hidden, true).unwrap();
    assert!(!plan.collider);
    assert_eq!(plan.marker, Some(BreakMarker::Soft));
    assert_eq!(plan.damage, None);
    let background = plan_tile(&exceptions, TileLayerType::Background, 1, &spikes, false).unwrap();
    assert_eq!(background.render_layer, TileRenderLayer::Layer4);
    assert_eq!(background.collectable, None);
    assert_eq!(background.marker, None);
    assert_eq!(background.damage, None);
}

#[test]
fn shots_break_tiles_by_strength() {
    assert!(shot_breaks_tile(true, false, false, true));
    assert!(!shot_breaks_tile(true, false, true, false));
    assert!(shot_breaks_tile(false, true, true, false));
    assert!(shot_breaks_tile(false, true, false, true));
    assert!(!shot_breaks_tile(false, false, true, true));
    let brittle = TileContact { brittle: true, ..contact() };
    assert!(brittle.breaks_tile());
    assert!(!contact().breaks_tile());
}

#[test]
fn resolution_steps_count_phases() {
    assert_eq!(resolution_step(0, None), (1, ResolutionStep::Settled));
    assert_eq!(resolution_step(0, Some(contact())), (1, ResolutionStep::Resolve { break_tile: false }));
    let rocket_on_strong = TileContact { strong: true, rocket: true, fragile: true, ..contact() };
    assert_eq!(resolution_step(3, Some(rocket_on_strong)), (4, ResolutionStep::Destroy { break_tile: true }));
    assert_eq!(
        resolution_step(MAX_COLLISION_PHASES - 1, Some(contact())),
        (MAX_COLLISION_PHASES, ResolutionStep::Resolve { break_tile: false })
    );
    assert_eq!(
        resolution_step(MAX_COLLISION_PHASES, Some(contact())),
        (MAX_COLLISION_PHASES + 1, ResolutionStep::Abandon)
    );
    assert_eq!(resolution_step(MAX_COLLISION_PHASES, None), (MAX_COLLISION_PHASES + 1, ResolutionStep::Settled));
}

#[test]
fn collision_layers_meet() {
    assert!(layers_collide(RoomCollision::Creature, RoomCollision::All));
    assert!(layers_collide(RoomCollision::Player, RoomCollision::Player));
    assert!(!layers_collide(RoomCollision::Player, RoomCollision::Creature));
    assert!(!layers_collide(RoomCollision::All, RoomCollision::Creature));
}

#[test]
fn mask_outlines_follow_the_sides() {
    let outline = mask_outline(CollisionMask::new(true, false, true, true), 16, 8);
    assert_eq!(
        outline,
        vec![
            (Vec2::new(0, 0), Vec2::new(15, 0)),
            (Vec2::new(0, 7), Vec2::new(15, 7)),
            (Vec2::new(0, 0), Vec2::new(0, 7)),
        ]
    );
    assert!(mask_outline(CollisionMask::default(), 16, 16).is_empty());
    assert_eq!(mask_outline(CollisionMask::full(), 16, 16).len(), 4);
}

#[test]
fn room_objects_find_their_story() {
    let story = Story { entries: vec![entry("save"), entry("cave_intro")] };
    let area: ObjMeta<(f32, f32), u32> = ObjMeta::StoryConcept { position: (0.0, 0.0), size: (8, 8), key: "cave_intro".to_string() };
    let (added, found) = object_story(&story, &area);
    assert!(added);
    assert_eq!(found.unwrap().key, "cave_intro");
    let missing: ObjMeta<(f32, f32), u32> = ObjMeta::StoryConcept { position: (0.0, 0.0), size: (8, 8), key: "nowhere".to_string() };
    let (added, found) = object_story(&story, &missing);
    assert!(!added);
    assert!(found.is_none());
    let save: ObjMeta<(f32, f32), u32> = ObjMeta::SaveAreaConcept { position: (1.0, 2.0), size: (4, 4) };
    let (added, found) = object_story(&story, &save);
    assert!(added);
    assert_eq!(found.unwrap().key, "save");
    let without_save = Story { entries: vec![entry("cave_intro")] };
    let (added, found) = object_story(&without_save, &save);
    assert!(added);
    assert!(found.is_none());
    let spiky: ObjMeta<(f32, f32), u32> = ObjMeta::SpikyConcept { direction: Direction::Up, position: (0.0, 0.0) };
    assert_eq!(object_story(&story, &spiky).0, true);
}

#[test]
fn neighbours_of_removed_tiles_face_the_gap() {
    assert_eq!(repaired_mask(None, Direction::Up), CollisionMask::new(false, false, true, false));
    assert_eq!(
        repaired_mask(Some(CollisionMask::new(true, false, false, false)), Direction::Left),
        CollisionMask::new(true, true, false, false)
    );
    assert_eq!(repaired_mask(Some(CollisionMask::full()), Direction::Right), CollisionMask::full());
    assert_eq!(Direction::UpLeft.opposite(), Direction::DownRight);
}

#[test]
fn projectiles_freeze_or_wound() {
    assert_eq!(projectile_hit(true, false), ProjectileHit::Freeze);
    assert_eq!(projectile_hit(true, true), ProjectileHit::Freeze);
    assert_eq!(projectile_hit(false, false), ProjectileHit::Wound);
    assert_eq!(projectile_hit(false, true), ProjectileHit::Deflect);
}

#[test]
fn backdrop_segments_fill_the_grid_column_by_column() {
    assert_eq!(
        segment_coordinates(2, 3),
        vec![
            Vec2::new(0, 0),
            Vec2::new(0, 1),
            Vec2::new(0, 2),
            Vec2::new(1, 0),
            Vec2::new(1, 1),
            Vec2::new(1, 2),
        ]
    );
    assert!(segment_coordinates(0, 5).is_empty());
    assert!(segment_coordinates(4, 0).is_empty());
}

#[test]
fn rooms_are_placed_where_the_world_puts_their_map() {
    let maps = vec![
        TiledWorldMap { file_name: "hall.tmx".to_string(), x: 0, y: 0 },
        TiledWorldMap { file_name: "cave.tmx".to_string(), x: 320, y: -240 },
        TiledWorldMap { file_name: "cave.tmx".to_string(), x: 1, y: 1 },
    ];
    assert_eq!(world_map_position(&maps, "asset/world/cave.tmx"), Ok((320, -240)));
    assert_eq!(world_map_position(&maps, "hall.tmx"), Ok((0, 0)));
    assert_eq!(world_map_position(&maps, "asset/world/attic.tmx"), Err("Tilemap not found".to_string()));
    assert_eq!(world_map_position(&maps, "asset/.."), Err("Failed to get basename".to_string()));
}

#[test]
fn registry_plans_a_room_per_tilemap() {
    let maps = vec![
        TiledWorldMap { file_name: "cave.tmx".to_string(), x: 320, y: 0 },
        TiledWorldMap { file_name: "hall.tmx".to_string(), x: 0, y: 0 },
    ];
    let tilesets = vec!["asset/tiles.tsx".to_string()];
    let tilemap = |path: &str, refs: &[&str]| (path.to_string(), refs.iter().map(|r| r.to_string()).collect::<Vec<_>>());
    assert_eq!(
        plan_registry(&vec![tilemap("asset/world/cave.tmx", &["../tiles.tsx"]), tilemap("hall.tmx", &["tiles.tsx", "x.tsx"])], &tilesets, &maps),
        Ok(vec![("cave".to_string(), (320, 0)), ("hall".to_string(), (0, 0))])
    );
    assert_eq!(plan_registry(&vec![], &vec![], &maps), Ok(vec![]));
    assert_eq!(
        plan_registry(&vec![tilemap("cave.tmx", &[])], &tilesets, &maps),
        Err("No tileset found".to_string())
    );
    assert_eq!(
        plan_registry(&vec![tilemap("cave.tmx", &["rocks.tsx"])], &tilesets, &maps),
        Err("Tileset not found".to_string())
    );
    assert_eq!(
        plan_registry(&vec![tilemap("attic.tmx", &["tiles.tsx"])], &tilesets, &maps),
        Err("Tilemap not found".to_string())
    );
    assert_eq!(
        plan_registry(&vec![tilemap("cave.tmx", &["tiles.tsx"])], &vec!["tiles.tsx".to_string(), "rocks.tsx".to_string()], &maps),
        Err("Multiple tilesets found; can't store a single tileset in the register".to_string())
    );
    assert_eq!(
        plan_registry(&vec![tilemap("cave.tmx", &["tiles.tsx"])], &vec!["tiles.tsx".to_string(), "other/tiles.png".to_string()], &maps),
        Ok(vec![("cave".to_string(), (320, 0))])
    );
    assert_eq!(plan_registry(&vec![], &vec!["".to_string()], &maps), Err("Failed to get filename".to_string()));
}
