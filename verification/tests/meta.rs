use metroidvania::game::scene::level::meta as first_meta;
use metroidvania::game::scene::level::room::collision::RoomCollision;
use metroidvania::game::scene::level::room::meta::{
    get_property, parse_breakability, parse_collectable, parse_collision_layer,
    parse_compass_direction_type, parse_damage, parse_direction, parse_tilelayer, Collectable,
    Item, TileBreakability, TileLayerType, TileMeta,
};
use metroidvania::game::scene::level::tile::tiled::{TiledProperties, TiledProperty};
use metroidvania::game::utility::direction::{CompassDirectionType, Direction};

fn props(pairs: &[(&str, &str)]) -> Option<TiledProperties> {
    Some(TiledProperties {
        properties: pairs
            .iter()
            .map(|(name, value)| TiledProperty { name: name.to_string(), value: value.to_string() })
            .collect(),
    })
}

#[test]
fn property_lookup_takes_the_first_match() {
    let p = props(&[("a", "1"), ("b", "2"), ("a", "3")]);
    assert_eq!(get_property("a", &p), Some("1"));
    assert_eq!(get_property("b", &p), Some("2"));
    assert_eq!(get_property("c", &p), None);
    assert_eq!(get_property("a", &None), None);
    assert_eq!(first_meta::get_property("b", &p), Some("2"));
}

#[test]
fn collectables_parse_after_trim_and_lowercase() {
    assert_eq!(parse_collectable(&props(&[("collectable", " Health ")])), Ok(Some(Collectable::Health)));
    assert_eq!(parse_collectable(&props(&[("collectable", "MISSILE_TANK")])), Ok(Some(Collectable::MissileTank)));
    assert_eq!(parse_collectable(&props(&[("collectable", "ice_beam")])), Ok(Some(Collectable::IceBeam)));
    assert_eq!(parse_collectable(&props(&[("collectable", "high_jump")])), Ok(Some(Collectable::HighJump)));
    assert_eq!(parse_collectable(&props(&[])), Ok(None));
    assert_eq!(parse_collectable(&None), Ok(None));
    assert_eq!(
        parse_collectable(&props(&[("collectable", "None")])),
        Err("Collectable must have a type".to_string())
    );
    assert_eq!(
        parse_collectable(&props(&[("collectable", " Power ")])),
        Err("Invalid collectable type: power".to_string())
    );
}

#[test]
fn first_format_collectables_include_power() {
    assert_eq!(
        first_meta::parse_collectable(&props(&[("collectable", "power")])),
        Ok(Some(first_meta::CollectableType::Power))
    );
    assert_eq!(
        first_meta::parse_collectable(&props(&[("collectable", "other")])),
        Err("Invalid collectable type: other".to_string())
    );
    assert_eq!(
        first_meta::parse_breakability(&props(&[("breakability", "brittle")])),
        Err("Invalid breakability: brittle".to_string())
    );
    assert_eq!(first_meta::parse_breakability(&None), Ok(first_meta::TileBreakability::Solid));
    assert_eq!(first_meta::parse_tilelayer(&props(&[("type", "Background")])), Ok(first_meta::TileLayerType::Background));
    assert_eq!(first_meta::parse_damage(&props(&[("damage", "12")])), Ok(12));
    assert_eq!(first_meta::parse_damage(&None), Ok(0));
}

#[test]
fn collision_layers_parse() {
    assert_eq!(parse_collision_layer(&props(&[("collision_layer", "Creature")])), Ok(RoomCollision::Creature));
    assert_eq!(parse_collision_layer(&props(&[("collision_layer", "player")])), Ok(RoomCollision::Player));
    assert_eq!(parse_collision_layer(&props(&[("collision_layer", "all")])), Ok(RoomCollision::All));
    assert_eq!(parse_collision_layer(&None), Ok(RoomCollision::All));
    assert_eq!(
        parse_collision_layer(&props(&[("collision_layer", "ghost")])),
        Err("Invalid collision layer: ghost".to_string())
    );
}

#[test]
fn breakability_parses() {
    assert_eq!(parse_breakability(&props(&[("breakability", "Brittle")])), Ok(TileBreakability::Brittle));
    assert_eq!(parse_breakability(&props(&[("breakability", "soft")])), Ok(TileBreakability::Soft));
    assert_eq!(parse_breakability(&props(&[("breakability", "strong")])), Ok(TileBreakability::Strong));
    assert_eq!(parse_breakability(&props(&[])), Ok(TileBreakability::Solid));
    assert_eq!(
        parse_breakability(&props(&[("breakability", "glass")])),
        Err("Invalid breakability: glass".to_string())
    );
}

#[test]
fn tile_layers_parse_and_quote_the_raw_value() {
    assert_eq!(parse_tilelayer(&props(&[("type", " FOREGROUND")])), Ok(TileLayerType::Foreground));
    assert_eq!(parse_tilelayer(&props(&[("type", "collision")])), Ok(TileLayerType::Collision));
    assert_eq!(parse_tilelayer(&None), Ok(TileLayerType::Collision));
    assert_eq!(parse_tilelayer(&props(&[("type", " Sky ")])), Err("Invalid layer:  Sky ".to_string()));
}

#[test]
fn directions_parse() {
    assert_eq!(parse_direction(&props(&[("direction", "up_left")])), Ok(Direction::UpLeft));
    assert_eq!(parse_direction(&props(&[("direction", "right")])), Ok(Direction::Right));
    assert_eq!(parse_direction(&None), Err("Direction property not found".to_string()));
    assert_eq!(
        parse_direction(&props(&[("direction", "sideways")])),
        Err("Invalid direction: sideways".to_string())
    );
    assert_eq!(
        parse_compass_direction_type("spit_axis", &props(&[("spit_axis", "cardinal")])),
        Ok(CompassDirectionType::Cardinal)
    );
    assert_eq!(
        parse_compass_direction_type("spit_axis", &props(&[("direction", "cardinal")])),
        Err("Direction property not found".to_string())
    );
    assert_eq!(
        parse_compass_direction_type("spit_axis", &props(&[("spit_axis", "diagonal")])),
        Err("Invalid compass direction type: diagonal".to_string())
    );
}

#[test]
fn damage_parses_as_u32() {
    assert_eq!(parse_damage("damage", &props(&[("damage", "25")])), Ok(25));
    assert_eq!(parse_damage("damage", &props(&[])), Ok(0));
    assert_eq!(
        parse_damage("damage", &props(&[("damage", "lots")])),
        Err("invalid digit found in string".to_string())
    );
    assert_eq!(
        parse_damage("damage", &props(&[("damage", "")])),
        Err("cannot parse integer from empty string".to_string())
    );
}

#[test]
fn defaults_and_conversions() {
    let meta = TileMeta::default();
    assert_eq!(meta.breakability, TileBreakability::Solid);
    assert_eq!(meta.collectable, None);
    assert_eq!(meta.collision_layer, RoomCollision::All);
    assert_eq!(meta.damage, 0);
    assert_eq!(TileLayerType::default(), TileLayerType::Collision);
    let item = Item { collectable: Collectable::IceBeam, map_index: 3, room_name: "cave".to_string() };
    assert_eq!(Collectable::from(item), Collectable::IceBeam);
}
