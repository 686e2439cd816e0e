use avl_render::image::Role;
use avl_render::name::{keeps_char, sanitize_name};
use avl_render::path::join_path;

#[test]
fn safe_names_stay_as_they_are() {
    assert_eq!(sanitize_name("My-Project_1"), "My-Project_1");
    assert_eq!(sanitize_name("ABCxyz0189"), "ABCxyz0189");
    assert_eq!(sanitize_name("_-_"), "_-_");
}

#[test]
fn other_characters_become_underscores() {
    assert_eq!(sanitize_name("a b/c\\d\0e"), "a_b_c_d_e");
    assert_eq!(sanitize_name("../../etc/passwd"), "______etc_passwd");
    assert_eq!(sanitize_name("my project (v2).final"), "my_project__v2__final");
    assert_eq!(sanitize_name("\t\n"), "__");
}

#[test]
fn characters_outside_ascii_become_underscores() {
    assert_eq!(sanitize_name("caf\u{e9}"), "caf_");
    assert_eq!(sanitize_name("\u{4e2d}\u{6587}"), "__");
    assert_eq!(sanitize_name("a\u{1f600}b"), "a_b");
}

#[test]
fn sanitized_name_is_as_long_as_the_name() {
    let names = ["", "a", "a b", "caf\u{e9} au lait", "///", "x\u{1f600}y"];
    for name in names {
        let clean = sanitize_name(name);
        assert_eq!(clean.chars().count(), name.chars().count());
        assert!(clean.chars().all(|c| c.is_ascii_alphanumeric() || c == '_' || c == '-'));
        for (before, after) in name.chars().zip(clean.chars()) {
            if before.is_ascii_alphanumeric() || before == '_' || before == '-' {
                assert_eq!(before, after);
            } else {
                assert_eq!(after, '_');
            }
        }
    }
}

#[test]
fn sanitizing_twice_changes_nothing_more() {
    let once = sanitize_name("a b/c.d");
    assert_eq!(sanitize_name(&once), once);
}

#[test]
fn empty_name_stays_empty() {
    assert_eq!(sanitize_name(""), "");
}

#[test]
fn different_names_may_share_a_sanitized_name() {
    assert_eq!(sanitize_name("a/b"), "a_b");
    assert_eq!(sanitize_name("a_b"), "a_b");
}

#[test]
fn keeps_char_knows_the_name_characters() {
    for c in ['a', 'z', 'A', 'Z', '0', '9', '_', '-', 'm', 'Q', '5'] {
        assert!(keeps_char(c));
    }
    for c in [' ', '/', '\\', '\0', '.', ':', '@', '[', '`', '{', '\u{e9}', '+', '='] {
        assert!(!keeps_char(c));
    }
}

#[test]
fn join_puts_one_separator_between() {
    assert_eq!(join_path("/tmp/out", "abc"), "/tmp/out/abc");
    assert_eq!(join_path("out", "viewer.html"), "out/viewer.html");
    assert_eq!(join_path("C:\\exports", "abc"), "C:\\exports/abc");
}

#[test]
fn join_adds_no_second_separator() {
    assert_eq!(join_path("/tmp/out/", "abc"), "/tmp/out/abc");
    assert_eq!(join_path("/", "abc"), "/abc");
}

#[test]
fn join_with_an_empty_segment_is_the_base() {
    assert_eq!(join_path("/tmp/out", ""), "/tmp/out");
    assert_eq!(join_path("/tmp/out/", ""), "/tmp/out/");
    assert_eq!(join_path("", ""), "");
}

#[test]
fn join_with_an_empty_base_is_the_segment() {
    assert_eq!(join_path("", "abc"), "abc");
}

#[test]
fn join_looks_at_characters_not_bytes() {
    assert_eq!(join_path("/tmp/caf\u{e9}", "abc"), "/tmp/caf\u{e9}/abc");
}

#[test]
fn image_files_are_named_after_project_and_role() {
    assert_eq!(Role::Frontale.file_name("MyProject"), "MyProject_FRONTALE.png");
    assert_eq!(Role::Laterale.file_name("MyProject"), "MyProject_LATERALE.png");
    assert_eq!(Role::Pianta.file_name("MyProject"), "MyProject_PIANTA.png");
    assert_eq!(Role::Pianta.file_name(""), "_PIANTA.png");
}

#[test]
fn role_suffixes() {
    assert_eq!(Role::Frontale.file_suffix(), "_FRONTALE.png");
    assert_eq!(Role::Laterale.file_suffix(), "_LATERALE.png");
    assert_eq!(Role::Pianta.file_suffix(), "_PIANTA.png");
}
