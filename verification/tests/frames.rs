use std::time::Duration;

use hecs::Entity;
use metroidvania::game::scene::level::creature::grunt::{
    randomize_direction, Grunt, GruntSense, GruntState, GRUNT_CHARGE_COOLDOWN_MS,
    GRUNT_CHARGE_TIME_MS, GRUNT_DAMAGE_CHARGE, GRUNT_DAMAGE_IDLE,
};
use metroidvania::game::scene::level::creature::ripper::check_ripper_direction;
use metroidvania::game::scene::level::creature::spiky::{check_spiky_direction, spiky_turns};
use metroidvania::game::scene::level::level_frame;
use metroidvania::game::scene::level::player::controller::{
    aim_direction, cut_jump, lock_control, max_health, start_jump, walk_direction, weapons_fired,
    Weapon,
};
use metroidvania::game::scene::level::parse::check_finite_tilemap;
use metroidvania::game::scene::level::room::meta::Collectable;
use metroidvania::game::scene::level::story::data::StoryItem;
use metroidvania::game::scene::level::story::modal::{line_delays, CHAR_ITERATION_MS};
use metroidvania::game::scene::level::story::world::{advance_story, StoryAdvancement, StoryAdvancements};
use metroidvania::game::ui::iterative_text::IterativeText;
use metroidvania::game::utility::controls::{Key, KeyEvents};
use metroidvania::game::utility::direction::Direction;

fn handle(bits: u64) -> Entity {
    Entity::from_bits((1u64 << 32) | bits).unwrap()
}

fn calm() -> GruntSense {
    GruntSense {
        player_close: false,
        player_left: false,
        charge_cooldown_done: false,
        turn_timer_done: false,
        charge_done: false,
    }
}

fn interaction(area: u64, key: &str) -> StoryAdvancement {
    StoryAdvancement::new(
        handle(1),
        handle(area),
        StoryItem { key: key.to_string(), title: key.to_string(), data: vec![], endgame: false },
    )
}

#[test]
fn grunt_turns_and_charges() {
    assert_eq!(randomize_direction(0), Some(Direction::Left));
    assert_eq!(randomize_direction(1), Some(Direction::Right));
    assert_eq!(randomize_direction(2), None);

    let mut grunt = Grunt(GruntState::build_idle(2000));
    assert_eq!(
        grunt.0,
        GruntState::Idle { direction: None, turn_timer_ms: 2000, charge_cooldown_ms: GRUNT_CHARGE_COOLDOWN_MS }
    );
    assert_eq!(grunt.0.damage(), GRUNT_DAMAGE_IDLE);
    assert_eq!(grunt.0.update(calm(), 0, 3000), (grunt.0, false));

    let turn = GruntSense { turn_timer_done: true, ..calm() };
    let (state, restart) = grunt.0.update(turn, 1, 3000);
    assert!(restart);
    assert_eq!(state.heading(), Some(Direction::Right));
    assert_eq!(state, GruntState::Idle { direction: Some(Direction::Right), turn_timer_ms: 2000, charge_cooldown_ms: GRUNT_CHARGE_COOLDOWN_MS });

    let close_too_soon = GruntSense { player_close: true, player_left: true, ..calm() };
    assert!(matches!(grunt.0.update(close_too_soon, 0, 3000).0, GruntState::Idle { .. }));

    let charge = GruntSense { player_close: true, player_left: true, charge_cooldown_done: true, turn_timer_done: true, ..calm() };
    let (state, restart) = grunt.0.update(charge, 2, 3000);
    assert!(!restart);
    assert_eq!(state, GruntState::Charge { timer_ms: GRUNT_CHARGE_TIME_MS, direction: Direction::Left });
    assert_eq!(state.damage(), GRUNT_DAMAGE_CHARGE);
    assert_eq!(state.heading(), Some(Direction::Left));

    assert_eq!(grunt.0.update(calm(), 0, 4500).0, GruntState::build_charge(Direction::Left));
    let over = GruntSense { charge_done: true, ..calm() };
    assert_eq!(grunt.0.update(over, 0, 4500).0, GruntState::build_idle(4500));
}

#[test]
fn player_controls_decide_jumps_walks_and_shots() {
    assert_eq!(start_jump(false, true, true), (true, true));
    assert_eq!(start_jump(true, true, false), (false, false));
    assert_eq!(start_jump(true, false, true), (true, false));
    assert_eq!(cut_jump(true, true, false), (false, true));
    assert_eq!(cut_jump(true, true, true), (true, false));
    assert_eq!(cut_jump(true, false, false), (true, false));
    assert_eq!(walk_direction(true, false), Some(Direction::Left));
    assert_eq!(walk_direction(false, true), Some(Direction::Right));
    assert_eq!(walk_direction(true, true), None);
    assert_eq!(walk_direction(false, false), None);
    assert_eq!(aim_direction(None, Direction::Left), Direction::Left);
    assert_eq!(aim_direction(Some(Direction::UpRight), Direction::Left), Direction::UpRight);
    assert_eq!(weapons_fired(true, true, true, true, true), vec![Weapon::Bullet, Weapon::Rocket, Weapon::IceBeam]);
    assert_eq!(weapons_fired(false, true, true, false, true), vec![Weapon::IceBeam]);
    assert!(weapons_fired(false, true, true, false, false).is_empty());
}

#[test]
fn text_appears_one_character_at_a_time() {
    let mut text = IterativeText::new(Duration::from_millis(32), "hey".to_string())
        .with_delay(Duration::from_millis(100));
    assert_eq!(text.interval(), Duration::from_millis(32));
    assert_eq!(text.delay(), Some(Duration::from_millis(100)));

    let waiting = text.advance(false, false, false);
    assert_eq!(waiting.content, Some(String::new()));
    assert!(!waiting.finished);
    assert_eq!(text.advance(false, true, true).content, None);

    assert!(!text.waits_for_tick());
    let first = text.advance(true, true, false);
    assert_eq!(first.content, Some(String::new()));
    assert!(text.waits_for_tick());
    assert_eq!(text.advance(true, true, false).content, None);

    let mut shown = Vec::new();
    let mut finished = false;
    while !finished {
        let update = text.advance(true, false, true);
        shown.push(update.content.unwrap());
        finished = update.finished;
    }
    assert_eq!(shown, vec!["h".to_string(), "he".to_string(), "hey".to_string()]);
}

#[test]
fn multibyte_text_runs_to_its_byte_length() {
    let mut text = IterativeText::new(Duration::from_millis(10), "é".to_string());
    assert_eq!(text.advance(true, true, false).content, Some(String::new()));
    let second = text.advance(true, false, true);
    assert_eq!(second.content, Some("é".to_string()));
    assert!(!second.finished);
    let third = text.advance(true, false, true);
    assert_eq!(third.content, Some("é".to_string()));
    assert!(third.finished);
}

#[test]
fn story_lines_appear_one_after_the_other() {
    let lines = vec!["ab".to_string(), "".to_string(), "é".to_string()];
    assert_eq!(
        line_delays(&lines),
        vec![0, CHAR_ITERATION_MS * 3, CHAR_ITERATION_MS * 4]
    );
    assert!(line_delays(&vec![]).is_empty());
}

#[test]
fn story_areas_advance_once() {
    let mut advancements = StoryAdvancements::new(vec!["intro".to_string()]);
    let fresh = advance_story(
        &mut advancements,
        vec![interaction(2, "intro"), interaction(3, "cave"), interaction(4, "cave"), interaction(5, "end")],
    );
    let areas: Vec<Entity> = fresh.iter().map(|a| a.area).collect();
    assert_eq!(areas, vec![handle(3), handle(5)]);
    assert!(advancements.has_advanced(&"cave".to_string()));
    assert!(advancements.has_advanced(&"end".to_string()));
    assert!(advance_story(&mut advancements, vec![interaction(6, "end")]).is_empty());
}

#[test]
fn level_frames_restart_open_menus_and_toggle_debug() {
    let quiet = KeyEvents { pressed: vec![], held: vec![] };
    let frame = level_frame(true, false, false, &quiet);
    assert!(frame.restart);
    assert!(!frame.open_menu);
    assert!(!frame.debug);
    let escape = KeyEvents { pressed: vec![Key::Escape], held: vec![] };
    assert!(level_frame(false, false, false, &escape).open_menu);
    assert!(!level_frame(false, true, false, &escape).open_menu);
    let debug = KeyEvents { pressed: vec![Key::Q], held: vec![] };
    assert!(level_frame(false, false, false, &debug).debug);
    assert!(!level_frame(false, false, true, &debug).debug);
    assert!(level_frame(false, false, true, &quiet).debug);
}

#[test]
fn walkers_start_horizontally_and_turn_at_edges() {
    assert_eq!(check_spiky_direction(Direction::Left), Ok(()));
    assert_eq!(check_spiky_direction(Direction::Right), Ok(()));
    assert_eq!(
        check_spiky_direction(Direction::Up),
        Err("Spiky must be initialized with a horizontal direction".to_string())
    );
    assert_eq!(
        check_ripper_direction(Direction::DownLeft),
        Err("Ripper must be initialized with a horizontal direction".to_string())
    );
    assert_eq!(check_ripper_direction(Direction::Right), Ok(()));
    assert!(!spiky_turns(false, true));
    assert!(spiky_turns(true, true));
    assert!(spiky_turns(false, false));
    assert!(!spiky_turns(true, false));
}

#[test]
fn first_scenes_switch_on_their_keys() {
    let e = KeyEvents { pressed: vec![Key::E], held: vec![Key::G] };
    assert!(metroidvania::game::scenes::level::sys_level_listener(&e));
    assert!(!metroidvania::game::scenes::menu::sys_menu_listener(&e));
    let g = KeyEvents { pressed: vec![Key::G], held: vec![] };
    assert!(metroidvania::game::scenes::menu::sys_menu_listener(&g));
    assert!(!metroidvania::game::scenes::level::sys_level_listener(&g));
}

#[test]
fn lock_holds_the_player_still() {
    assert_eq!(lock_control(Some(Direction::Left), true), (None, true));
    assert_eq!(lock_control(None, true), (None, true));
    assert_eq!(lock_control(Some(Direction::Right), false), (Some(Direction::Right), false));
    assert_eq!(lock_control(None, false), (None, false));
}

#[test]
fn health_pickups_raise_the_maximum() {
    let inventory = vec![Collectable::Health, Collectable::IceBeam, Collectable::Health];
    assert_eq!(max_health(&inventory, 100, 25), 150);
    assert_eq!(max_health(&vec![], 100, 25), 100);
    assert_eq!(max_health(&vec![Collectable::HighJump], 7, 1000), 7);
}

#[test]
fn infinite_tilemaps_are_refused() {
    assert_eq!(check_finite_tilemap(0), Ok(()));
    assert_eq!(check_finite_tilemap(1), Err("Infinite maps are not supported.".to_string()));
}
