use metroidvania::game::scene::level::story::data::{Story, StoryItem};
use metroidvania::game::scene::level::story::world::{StoryAdvancements, StoryArea};

fn item(key: &str, title: &str) -> StoryItem {
    StoryItem { key: key.to_string(), title: title.to_string(), data: vec![format!("{} line", title)], endgame: false }
}

fn story() -> Story {
    Story { entries: vec![item("intro", "Intro"), item("save", "Save"), item("intro", "Again"), item("end", "End")] }
}

#[test]
fn get_entry_finds_the_first_entry_with_the_key() {
    let s = story();
    let entry = s.get_entry("intro").unwrap();
    assert_eq!(entry.title, "Intro");
    assert_eq!(entry.data, vec!["Intro line".to_string()]);
    assert!(s.get_entry("missing").is_none());
}

#[test]
fn omit_drops_advanced_entries_in_order() {
    let advanced = StoryAdvancements::new(vec!["intro".to_string(), "end".to_string()]);
    let kept = story().omit(&advanced);
    let keys: Vec<&str> = kept.entries.iter().map(|e| e.key.as_str()).collect();
    assert_eq!(keys, vec!["save"]);
    assert!(kept.get_entry("intro").is_none());
    assert_eq!(kept.get_entry("save").unwrap().title, "Save");
    let none = StoryAdvancements::new(vec![]);
    assert_eq!(story().omit(&none).entries.len(), 4);
}

#[test]
fn advancements_record_each_key_once() {
    let mut advancements = StoryAdvancements::new(vec!["a".to_string(), "a".to_string()]);
    assert!(advancements.has_advanced(&"a".to_string()));
    assert!(!advancements.has_advanced(&"b".to_string()));
    assert!(advancements.advance(&"b".to_string()));
    assert!(!advancements.advance(&"b".to_string()));
    assert!(advancements.has_advanced(&"b".to_string()));
    let mut keys = advancements.into_keys();
    keys.sort();
    assert_eq!(keys, vec!["a".to_string(), "b".to_string()]);
}

#[test]
fn story_areas_hold_their_entry() {
    let area = StoryArea::new(item("save", "Save"));
    assert_eq!(area.0.key, "save");
    let copy = area.0.clone();
    assert_eq!(copy.title, "Save");
}
