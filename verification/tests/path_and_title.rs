use writer::editor::window_title;
use writer::path::file_name;

fn name(p: &str) -> Option<String> {
    file_name(p)
}

#[test]
fn file_name_of_absolute_path() {
    assert_eq!(name("/Users/me/notes.txt"), Some("notes.txt".to_string()));
}

#[test]
fn file_name_of_bare_name() {
    assert_eq!(name("notes.txt"), Some("notes.txt".to_string()));
}

#[test]
fn file_name_ignores_trailing_separator_and_dot() {
    assert_eq!(name("foo.txt/."), Some("foo.txt".to_string()));
    assert_eq!(name("foo.txt/.//"), Some("foo.txt".to_string()));
    assert_eq!(name("/a/b/"), Some("b".to_string()));
    assert_eq!(name("a//b"), Some("b".to_string()));
}

#[test]
fn file_name_absent_for_parent_root_empty_and_dot() {
    assert_eq!(name("foo.txt/.."), None);
    assert_eq!(name(".."), None);
    assert_eq!(name("/"), None);
    assert_eq!(name(""), None);
    assert_eq!(name("."), None);
    assert_eq!(name("./."), None);
}

#[test]
fn file_name_after_current_dir() {
    assert_eq!(name("./a"), Some("a".to_string()));
    assert_eq!(name("..a/.b"), Some(".b".to_string()));
}

#[test]
fn file_name_keeps_non_ascii_characters() {
    assert_eq!(name("/tmp/héllo/wörld.txt"), Some("wörld.txt".to_string()));
}

#[test]
fn title_without_file_is_untitled() {
    assert_eq!(window_title(&None), "Untitled");
}

#[test]
fn title_shows_only_the_file_name() {
    assert_eq!(window_title(&Some("/Users/me/draft.md".to_string())), "draft.md");
}

#[test]
fn title_falls_back_to_the_whole_path() {
    assert_eq!(window_title(&Some("/".to_string())), "/");
    assert_eq!(window_title(&Some("a/..".to_string())), "a/..");
}
