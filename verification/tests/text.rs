use metroidvania::game::scene::level::room::meta::{
    parse_breakability, parse_collectable, parse_damage, Collectable, TileBreakability,
};
use metroidvania::game::scene::level::tile::tiled::{TiledProperties, TiledProperty};
use metroidvania::game::utility::text::{
    message_with, push_decimal, split_char, split_lines, str_eq, strip_newlines, trim,
};

fn single_property(name: &str, value: &str) -> Option<TiledProperties> {
    Some(TiledProperties {
        properties: vec![TiledProperty { name: name.to_string(), value: value.to_string() }],
    })
}

fn damage(value: &str) -> Result<u32, String> {
    parse_damage("damage", &single_property("damage", value))
}

#[test]
fn trim_removes_surrounding_whitespace() {
    assert_eq!(trim("  health \t\n"), "health");
    assert_eq!(trim("\u{2003}soft\u{00a0}"), "soft");
    assert_eq!(trim("   "), "");
    assert_eq!(trim(""), "");
    assert_eq!(trim("a b"), "a b");
    assert_eq!(trim(trim("  x  ")), trim("  x  "));
}

#[test]
fn lowercase_follows_unicode() {
    assert_eq!(parse_collectable(&single_property("collectable", "HeAlTh")), Ok(Some(Collectable::Health)));
    assert_eq!(parse_breakability(&single_property("breakability", " SOFT ")), Ok(TileBreakability::Soft));
    assert_eq!(
        parse_collectable(&single_property("collectable", "ÉCLAIR")),
        Err("Invalid collectable type: éclair".to_string())
    );
    assert_eq!(
        parse_collectable(&single_property("collectable", "ΟΔΟΣ")),
        Err("Invalid collectable type: οδος".to_string())
    );
}

#[test]
fn strings_compare_by_characters() {
    assert!(str_eq("tile", "tile"));
    assert!(!str_eq("tile", "Tile"));
    assert!(!str_eq("tile", "tiles"));
    assert!(str_eq("", ""));
}

#[test]
fn split_keeps_empty_pieces() {
    assert_eq!(split_char("1,2,,3", ','), vec!["1", "2", "", "3"]);
    assert_eq!(split_char("", ','), vec![""]);
    assert_eq!(split_char(",", ','), vec!["", ""]);
    assert_eq!(split_char("abc", ','), vec!["abc"]);
    assert_eq!(split_char("a,b", ',').join(","), "a,b");
}

#[test]
fn lines_drop_terminators() {
    assert_eq!(split_lines("a\r\nb\n"), vec!["a", "b"]);
    assert_eq!(split_lines("a\n\nb"), vec!["a", "", "b"]);
    assert_eq!(split_lines(""), Vec::<String>::new());
    assert_eq!(split_lines("\n"), vec![""]);
    assert_eq!(split_lines("end\r"), vec!["end\r"]);
    assert_eq!(split_lines("one"), vec!["one"]);
}

#[test]
fn newlines_are_stripped() {
    assert_eq!(strip_newlines("\n12\r\n3"), "123");
    assert_eq!(strip_newlines("abc"), "abc");
}

#[test]
fn u32_parsing() {
    assert_eq!(damage("42"), Ok(42));
    assert_eq!(damage("+7"), Ok(7));
    assert_eq!(damage("007"), Ok(7));
    assert_eq!(damage("4294967295"), Ok(u32::MAX));
    assert_eq!(damage("4294967296"), Err("number too large to fit in target type".to_string()));
    assert_eq!(damage(""), Err("cannot parse integer from empty string".to_string()));
    assert_eq!(damage("-1"), Err("invalid digit found in string".to_string()));
    assert_eq!(damage(" 5"), Err("invalid digit found in string".to_string()));
    assert_eq!(damage("+"), Err("invalid digit found in string".to_string()));
    assert_eq!(parse_damage("damage", &None), Ok(0));
}

#[test]
fn decimal_text_and_messages() {
    let mut text = String::from("tile ");
    push_decimal(&mut text, 0);
    push_decimal(&mut text, 4096);
    assert_eq!(text, "tile 04096");
    let mut max = String::new();
    push_decimal(&mut max, u64::MAX);
    assert_eq!(max, u64::MAX.to_string());
    assert_eq!(message_with("Invalid layer: ", "sky"), "Invalid layer: sky");
}
