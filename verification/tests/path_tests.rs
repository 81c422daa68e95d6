use scissors_console::path::{choose_shown_folder, sanitize_folder};

#[test]
fn backslashes_are_shown_as_slashes_on_windows() {
    assert_eq!(sanitize_folder("C:\\Users\\lab\\data", true), "C:/Users/lab/data");
    assert_eq!(sanitize_folder("\\\\server\\share", true), "//server/share");
    assert_eq!(sanitize_folder("\\", true), "/");
}

#[test]
fn paths_without_backslash_are_unchanged_on_windows() {
    assert_eq!(sanitize_folder("C:/Users/lab", true), "C:/Users/lab");
    assert_eq!(sanitize_folder("", true), "");
    assert_eq!(sanitize_folder("daten/übung", true), "daten/übung");
}

#[test]
fn paths_are_unchanged_elsewhere() {
    assert_eq!(sanitize_folder("/tmp/a\\b", false), "/tmp/a\\b");
    assert_eq!(sanitize_folder("/home/lab/data", false), "/home/lab/data");
}

#[test]
fn a_replacement_that_was_made_is_shown_on_windows_only() {
    assert_eq!(choose_shown_folder("a\\b", true, Some("a/b".to_string())), "a/b");
    assert_eq!(choose_shown_folder("a\\b", false, Some("a/b".to_string())), "a\\b");
}

#[test]
fn a_replacement_that_was_not_made_leaves_the_folder() {
    assert_eq!(choose_shown_folder("a\\b", true, None), "a\\b");
    assert_eq!(choose_shown_folder("a\\b", false, None), "a\\b");
}
