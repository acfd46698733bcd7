use hecs::Entity;
use metroidvania::game::scene::level::creature::buzz::BuzzState;
use metroidvania::game::scene::level::meta as first_format;
use metroidvania::game::scene::level::room::meta::{parse_object, tilemap_objects_from_tiled, ObjMeta};
use metroidvania::game::scene::level::tile::tiled::{TiledObject, TiledObjectGroup, TiledProperties, TiledProperty};
use metroidvania::game::scene::level::transition::{RoomTransition, RoomTransitionState};
use metroidvania::game::scene::level::ui::menu::{MenuPane, PaneChoice};
use metroidvania::game::scene::main_menu::scene::{MainMenuChoice, MenuScene};
use metroidvania::game::ui::selection::{selection_delta, Selection};
use metroidvania::game::utility::controls::{Key, KeyEvents};
use metroidvania::game::utility::direction::{CompassDirectionType, Direction};

fn object(kind: &str, name: Option<&str>, pairs: &[(&str, &str)], size: Option<(u32, u32)>) -> TiledObject<(i32, i32), u32> {
    TiledObject {
        name: name.map(|n| n.to_string()),
        object_type: kind.to_string(),
        properties: Some(TiledProperties {
            properties: pairs
                .iter()
                .map(|(n, v)| TiledProperty { name: n.to_string(), value: v.to_string() })
                .collect(),
        }),
        position: (16, 32),
        width: size.map(|s| s.0),
        height: size.map(|s| s.1),
    }
}

fn entity_at(bits: u64) -> Entity {
    Entity::from_bits((1u64 << 32) | bits).unwrap()
}

#[test]
fn objects_parse_by_type_with_default_directions() {
    assert!(matches!(parse_object(&object(" Buzz ", None, &[], None)), Ok(ObjMeta::BuzzConcept { position: (16, 32) })));
    assert!(matches!(parse_object(&object("ANGRYBUZZ", None, &[], None)), Ok(ObjMeta::AngryBuzzConcept { .. })));
    assert!(matches!(parse_object(&object("grunt", None, &[], None)), Ok(ObjMeta::GruntConcept { .. })));
    assert!(matches!(
        parse_object(&object("bubbly", None, &[], None)),
        Ok(ObjMeta::BubblyConcept { direction: Direction::UpRight, .. })
    ));
    assert!(matches!(
        parse_object(&object("spore", None, &[("direction", "down")], None)),
        Ok(ObjMeta::SporeConcept { direction: Direction::Down, .. })
    ));
    assert!(matches!(
        parse_object(&object("spiky", None, &[("direction", "sideways")], None)),
        Ok(ObjMeta::SpikyConcept { direction: Direction::Right, .. })
    ));
    assert!(matches!(
        parse_object(&object("ripper", None, &[("direction", "left")], None)),
        Ok(ObjMeta::RipperConcept { direction: Direction::Left, .. })
    ));
    assert!(matches!(
        parse_object(&object("zoomer", None, &[], None)),
        Ok(ObjMeta::ZoomerConcept { direction: Direction::Right, .. })
    ));
    assert!(matches!(
        parse_object(&object("rotund", None, &[("spit_axis", "cardinal")], None)),
        Ok(ObjMeta::RotundConcept { direction: Direction::UpRight, spit_axis: CompassDirectionType::Cardinal, .. })
    ));
    assert!(matches!(
        parse_object(&object("rotund", None, &[], None)),
        Ok(ObjMeta::RotundConcept { spit_axis: CompassDirectionType::Ordinal, .. })
    ));
}

#[test]
fn areas_need_their_size_and_stories_their_name() {
    assert!(matches!(
        parse_object(&object("save", None, &[], Some((8, 24)))),
        Ok(ObjMeta::SaveAreaConcept { size: (8, 24), .. })
    ));
    assert_eq!(
        parse_object(&object("save", None, &[], None)).err(),
        Some("Save area must have a width and height".to_string())
    );
    match parse_object(&object("story", Some("intro"), &[], Some((4, 4)))) {
        Ok(ObjMeta::StoryConcept { key, size, .. }) => {
            assert_eq!(key, "intro");
            assert_eq!(size, (4, 4));
        }
        other => panic!("unexpected {:?}", other),
    }
    assert_eq!(
        parse_object(&object("story", Some("intro"), &[], None)).err(),
        Some("Save area must have a width and height".to_string())
    );
    assert_eq!(
        parse_object(&object("story", None, &[], Some((4, 4)))).err(),
        Some("Story object must have a name".to_string())
    );
    assert_eq!(
        parse_object(&object(" Dragon ", None, &[], None)).err(),
        Some("Unknown object type: dragon".to_string())
    );
}

#[test]
fn object_groups_parse_every_object_or_fail() {
    let empty: TiledObjectGroup<(i32, i32), u32> = TiledObjectGroup { objects: None };
    assert!(tilemap_objects_from_tiled(&empty).unwrap().is_empty());
    let group = TiledObjectGroup { objects: Some(vec![object("buzz", None, &[], None), object("grunt", None, &[], None)]) };
    let objects = tilemap_objects_from_tiled(&group).unwrap();
    assert_eq!(objects.len(), 2);
    assert!(matches!(objects[1], ObjMeta::GruntConcept { .. }));
    let broken = TiledObjectGroup {
        objects: Some(vec![object("buzz", None, &[], None), object("lamp", None, &[], None), object("ghost", None, &[], None)]),
    };
    assert_eq!(tilemap_objects_from_tiled(&broken).err(), Some("Unknown object type: lamp".to_string()));
}

#[test]
fn first_format_objects_parse_four_creatures() {
    assert!(matches!(first_format::parse_object(&object("buzz", None, &[], None)), Ok(first_format::ObjMeta::BuzzConcept { .. })));
    assert!(matches!(
        first_format::parse_object(&object("Zoomer", None, &[("direction", "up")], None)),
        Ok(first_format::ObjMeta::ZoomerConcept { direction: Direction::Up, .. })
    ));
    assert!(matches!(
        first_format::parse_object(&object("spiky", None, &[], None)),
        Ok(first_format::ObjMeta::SpikyConcept { direction: Direction::Right, .. })
    ));
    assert_eq!(
        first_format::parse_object(&object("grunt", None, &[], None)).err(),
        Some("Unknown object type: grunt".to_string())
    );
}

#[test]
fn directions_read_their_names() {
    assert_eq!(Direction::from_name("down_left"), Ok(Direction::DownLeft));
    assert_eq!(Direction::from_name("north"), Err("Invalid direction: north".to_string()));
    assert_eq!(CompassDirectionType::from_name("ordinal"), Ok(CompassDirectionType::Ordinal));
    assert_eq!(
        CompassDirectionType::from_name("diagonal"),
        Err("Invalid compass direction type: diagonal".to_string())
    );
}

#[test]
fn transitions_run_queued_started_complete() {
    let mut transition: RoomTransition<u8> = RoomTransition::default();
    assert!(matches!(transition.integrate(false, 0.0), RoomTransitionState::Idle));
    assert_eq!(transition.start(7), Err("Transition not queued or already in progress".to_string()));
    assert_eq!(transition.queue("cave".to_string()), Ok(()));
    assert_eq!(transition.queue("hall".to_string()), Err("Transition already queued or in progress".to_string()));
    assert!(matches!(transition.integrate(true, 0.0), RoomTransitionState::Queued(ref room) if room == "cave"));
    assert_eq!(transition.start(7), Ok(()));
    assert!(matches!(transition.integrate(false, 0.25), RoomTransitionState::Progress(t, 7) if t == 0.25));
    assert!(matches!(transition.integrate(true, 1.0), RoomTransitionState::Complete(ref room) if room == "cave"));
    assert!(matches!(transition.integrate(true, 1.0), RoomTransitionState::Idle));
    assert_eq!(transition.queue("hall".to_string()), Ok(()));
}

#[test]
fn buzzes_follow_and_forget() {
    let mut state = BuzzState::default();
    assert_eq!(state.update(false, false), BuzzState::Idle);
    assert_eq!(state.update(true, false), BuzzState::Follow);
    assert_eq!(state.update(true, false), BuzzState::Follow);
    assert_eq!(state.update(false, true), BuzzState::Idle);
    assert_eq!(state.update(false, true), BuzzState::Idle);
}

#[test]
fn menus_choose_by_index_and_move_by_controls() {
    assert_eq!(MenuScene::choice_at(0), MainMenuChoice::Start);
    assert_eq!(MenuScene::choice_at(1), MainMenuChoice::NewGame);
    assert_eq!(MenuScene::choice_at(2), MainMenuChoice::Options);
    assert_eq!(MenuScene::choice_at(3), MainMenuChoice::Quit);
    assert_eq!(MenuPane::choice_at(0), PaneChoice::Resume);
    assert_eq!(MenuPane::choice_at(1), PaneChoice::Help);
    assert_eq!(MenuPane::choice_at(2), PaneChoice::Exit);
    assert_eq!(MenuPane::choice_at(3), PaneChoice::Quit);
    assert_eq!(selection_delta(&KeyEvents { pressed: vec![Key::W], held: vec![] }), -1);
    assert_eq!(selection_delta(&KeyEvents { pressed: vec![Key::Down], held: vec![] }), 1);
    assert_eq!(selection_delta(&KeyEvents { pressed: vec![Key::Up, Key::S], held: vec![] }), -1);
    assert_eq!(selection_delta(&KeyEvents { pressed: vec![], held: vec![Key::Up] }), 0);
    let selection = Selection::build(vec![entity_at(1), entity_at(2), entity_at(3)], entity_at(9)).unwrap();
    assert_eq!(selection.describe(), "Selection 1/3");
    assert_eq!(selection.with_default(2).describe(), "Selection 3/3");
}
