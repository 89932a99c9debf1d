use cargo_watch_plus::path::{ends_with_separator, join, starts_at_root, AbsolutePath};

#[test]
fn join_puts_one_separator_between() {
    assert_eq!(join("/home/alice", ".cargo"), "/home/alice/.cargo");
    assert_eq!(join("work", "src"), "work/src");
}

#[test]
fn join_adds_no_separator_after_one() {
    assert_eq!(join("/home/alice/", ".cargo"), "/home/alice/.cargo");
    assert_eq!(join("/", "etc"), "/etc");
}

#[test]
fn join_to_empty_base_gives_name() {
    assert_eq!(join("", "bin"), "bin");
}

#[test]
fn join_with_absolute_name_replaces_base() {
    assert_eq!(join("/home/alice", "/opt/tool"), "/opt/tool");
    assert_eq!(join("", "/opt"), "/opt");
}

#[test]
fn join_with_empty_name_ends_with_separator() {
    assert_eq!(join("/home/alice", ""), "/home/alice/");
    assert_eq!(join("/home/alice/", ""), "/home/alice/");
    assert_eq!(join("", ""), "");
}

#[test]
fn join_keeps_characters_beyond_ascii() {
    assert_eq!(join("/home/zoë", "données"), "/home/zoë/données");
}

#[test]
fn starts_at_root_sees_first_character_only() {
    assert!(starts_at_root("/"));
    assert!(starts_at_root("/usr/bin"));
    assert!(!starts_at_root(""));
    assert!(!starts_at_root("usr/bin/"));
    assert!(!starts_at_root("./x"));
}

#[test]
fn ends_with_separator_sees_last_character_only() {
    assert!(ends_with_separator("/"));
    assert!(ends_with_separator("usr/"));
    assert!(!ends_with_separator(""));
    assert!(!ends_with_separator("/usr"));
    assert!(!ends_with_separator("/usr/é"));
}

#[test]
fn absolute_path_accepts_absolute_text_only() {
    let accepted = AbsolutePath::new(String::from("/home/alice"));
    assert_eq!(accepted.map(|p| p.to_text()), Some(String::from("/home/alice")));
    assert_eq!(AbsolutePath::new(String::from("home/alice")), None);
    assert_eq!(AbsolutePath::new(String::new()), None);
    assert_eq!(AbsolutePath::new(String::from("~/bin")), None);
}

#[test]
fn absolute_path_join_stays_absolute() {
    let base = AbsolutePath::new(String::from("/home/alice")).unwrap();
    let below = base.join(".cargo/bin");
    assert_eq!(below.as_str(), "/home/alice/.cargo/bin");
    let replaced = base.join("/opt");
    assert_eq!(replaced.as_str(), "/opt");
    assert!(starts_at_root(below.as_str()));
    assert!(starts_at_root(replaced.as_str()));
}

#[test]
fn absolute_path_clone_is_equal() {
    let base = AbsolutePath::new(String::from("/srv/tree")).unwrap();
    let copy = base.clone();
    assert_eq!(copy, base);
    assert_eq!(copy.as_str(), "/srv/tree");
    assert_eq!(copy.to_text(), String::from("/srv/tree"));
}
