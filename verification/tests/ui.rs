use hecs::Entity;
use metroidvania::game::ui::selection::Selection;
use metroidvania::game::utility::controls::{get_direction, is_control, Behaviour, Control, Key, KeyEvents};
use metroidvania::game::utility::direction::Direction;

fn entity(bits: u64) -> Entity {
    Entity::from_bits((1u64 << 32) | bits).unwrap()
}

#[test]
fn selection_needs_items() {
    assert_eq!(Selection::build(vec![], entity(1)).err(), Some("Items cannot be empty".to_string()));
}

#[test]
fn selection_wraps_around() {
    let items = vec![entity(10), entity(11), entity(12)];
    let mut selection = Selection::build(items, entity(1)).unwrap();
    assert_eq!(selection.get_selection(), (0, entity(10)));
    selection.add_assign(-1);
    assert_eq!(selection.get_selection(), (2, entity(12)));
    selection.add_assign(1);
    assert_eq!(selection.get_selection().0, 0);
    selection.add_assign(4);
    assert_eq!(selection.get_selection(), (1, entity(11)));
    selection.sub_assign(1);
    assert_eq!(selection.get_selection().0, 0);
    assert_eq!(selection.get_cursor(), entity(1));
    let selection = selection.with_default(2);
    assert_eq!(selection.get_selection(), (2, entity(12)));
}

fn events(pressed: &[Key], held: &[Key]) -> KeyEvents {
    KeyEvents { pressed: pressed.to_vec(), held: held.to_vec() }
}

#[test]
fn controls_map_to_keys() {
    let e = events(&[Key::W, Key::Space], &[Key::LShift]);
    assert!(is_control(Control::Up, Behaviour::Pressed, &e));
    assert!(!is_control(Control::Up, Behaviour::Held, &e));
    assert!(is_control(Control::Select, Behaviour::Pressed, &e));
    assert!(is_control(Control::Lock, Behaviour::Held, &e));
    assert!(!is_control(Control::Escape, Behaviour::Pressed, &e));
    assert!(!is_control(Control::Debug, Behaviour::Pressed, &e));
}

#[test]
fn directions_combine_and_cancel() {
    assert_eq!(get_direction(&events(&[Key::Up, Key::A], &[]), Behaviour::Pressed), Some(Direction::UpLeft));
    assert_eq!(get_direction(&events(&[], &[Key::S, Key::Right]), Behaviour::Held), Some(Direction::DownRight));
    assert_eq!(get_direction(&events(&[Key::Up, Key::Down], &[]), Behaviour::Pressed), None);
    assert_eq!(get_direction(&events(&[Key::Left, Key::D, Key::Up], &[]), Behaviour::Pressed), None);
    assert_eq!(get_direction(&events(&[Key::D], &[]), Behaviour::Pressed), Some(Direction::Right));
    assert_eq!(get_direction(&events(&[], &[]), Behaviour::Pressed), None);
}
