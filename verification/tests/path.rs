use metroidvania::game::utility::path::{get_basename, get_extension, get_filename, get_parent, get_path};

#[test]
fn test_get_filename() {
    assert_eq!(get_filename("foo/bar.txt"), Ok("bar".to_string()));
    assert_eq!(get_filename("foo/bar"), Ok("bar".to_string()));
    assert_eq!(get_filename("foo/bar/"), Ok("bar".to_string()));
    assert_eq!(get_filename("bar.txt"), Ok("bar".to_string()));
    assert_eq!(get_filename("bar"), Ok("bar".to_string()));
    assert_eq!(get_filename("bar/"), Ok("bar".to_string()));
}

#[test]
fn test_get_extension() {
    assert_eq!(get_extension("foo/bar.txt"), Ok("txt".to_string()));
    assert_eq!(get_extension("foo/bar"), Err("Failed to get extension".to_string()));
    assert_eq!(get_extension("foo/bar/"), Err("Failed to get extension".to_string()));
    assert_eq!(get_extension("bar.txt"), Ok("txt".to_string()));
    assert_eq!(get_extension("bar"), Err("Failed to get extension".to_string()));
    assert_eq!(get_extension("bar/"), Err("Failed to get extension".to_string()));
}

#[test]
fn test_get_basename() {
    assert_eq!(get_basename("foo/bar.txt"), Ok("bar.txt".to_string()));
    assert_eq!(get_basename("foo/bar"), Ok("bar".to_string()));
    assert_eq!(get_basename("foo/bar/"), Ok("bar".to_string()));
    assert_eq!(get_basename("bar.txt"), Ok("bar.txt".to_string()));
    assert_eq!(get_basename("bar"), Ok("bar".to_string()));
    assert_eq!(get_basename("bar/"), Ok("bar".to_string()));
}

#[test]
fn test_get_parent() {
    assert_eq!(get_parent("foo/bar.txt"), Ok(String::from("foo")));
    assert_eq!(get_parent("foo/bar"), Ok(String::from("foo")));
    assert_eq!(get_parent("foo/bar/"), Ok(String::from("foo")));
    assert_eq!(get_parent("bar.txt"), Ok(String::from("")));
    assert_eq!(get_parent("bar"), Ok(String::from("")));
    assert_eq!(get_parent("/bar"), Ok(String::from("/")));
    assert_eq!(get_parent("bar/"), Ok(String::from("")));
}

#[test]
fn test_get_path() {
    assert_eq!(get_path("foo/bar.txt"), Ok("foo/bar.txt".to_string()));
    assert_eq!(get_path("foo/bar"), Ok("foo/bar".to_string()));
    assert_eq!(get_path("foo/bar/"), Ok("foo/bar/".to_string()));
    assert_eq!(get_path("bar.txt"), Ok("bar.txt".to_string()));
    assert_eq!(get_path("bar"), Ok("bar".to_string()));
    assert_eq!(get_path("bar/"), Ok("bar/".to_string()));
}

#[test]
fn path_edge_cases() {
    // a leading dot is part of the stem, not an extension
    assert_eq!(get_filename(".bashrc"), Ok(".bashrc".to_string()));
    assert_eq!(get_extension(".bashrc"), Err("Failed to get extension".to_string()));
    // only the final dot separates the extension
    assert_eq!(get_filename("archive.tar.gz"), Ok("archive.tar".to_string()));
    assert_eq!(get_extension("archive.tar.gz"), Ok("gz".to_string()));
    // a trailing dot gives an empty extension
    assert_eq!(get_filename("foo."), Ok("foo".to_string()));
    assert_eq!(get_extension("foo."), Ok("".to_string()));
    // paths that end in a root or `..` have no file name
    assert_eq!(get_filename("/"), Err("Failed to get filename".to_string()));
    assert_eq!(get_basename("foo/.."), Err("Failed to get basename".to_string()));
    assert_eq!(get_parent("/"), Err("Failed to get parent".to_string()));
    assert_eq!(get_parent(""), Err("Failed to get parent".to_string()));
}

#[test]
fn stem_dot_extension_is_basename() {
    for path in ["a/b.c", "x.tar.gz", "dir/file.", "plain", ".hidden"] {
        let basename = get_basename(path).unwrap();
        let stem = get_filename(path).unwrap();
        match get_extension(path) {
            Ok(extension) => assert_eq!(format!("{}.{}", stem, extension), basename),
            Err(_) => assert_eq!(stem, basename),
        }
    }
}

#[test]
fn file_names_split_into_stem_and_extension() {
    assert_eq!(metroidvania::game::utility::path::file_stem("world.tmx"), "world");
    assert_eq!(metroidvania::game::utility::path::file_stem("archive.tar.gz"), "archive.tar");
    assert_eq!(metroidvania::game::utility::path::file_stem(".hidden"), ".hidden");
    assert_eq!(metroidvania::game::utility::path::file_stem("plain"), "plain");
    assert_eq!(metroidvania::game::utility::path::file_extension("archive.tar.gz"), Some("gz".to_string()));
    assert_eq!(metroidvania::game::utility::path::file_extension(".hidden"), None);
    assert_eq!(metroidvania::game::utility::path::file_extension("trailing."), Some("".to_string()));
}
