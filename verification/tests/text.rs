use setup_my_mac::text::{
    chars_of, clone_strings, join, mark_spaces, push_decimal, same_text, str_contains,
    str_ends_with, str_starts_with, string_of, trim, trim_chars, trim_marked,
};
use setup_my_mac::util::{
    join_path, normalize_newlines, place_path, resolve_path, write_if_changed,
};

#[test]
fn characters_round_trip() {
    let chars = chars_of("héllo ✔");
    assert_eq!(chars, vec!['h', 'é', 'l', 'l', 'o', ' ', '✔']);
    assert_eq!(string_of(&chars), "héllo ✔");
    assert_eq!(string_of(&Vec::new()), "");
}

#[test]
fn trim_drops_white_space_at_both_ends_only() {
    assert_eq!(trim("  a b \t\n"), "a b");
    assert_eq!(trim("\u{a0}x\u{2003}"), "x");
    assert_eq!(trim(" \n\t "), "");
    assert_eq!(trim(""), "");
    assert_eq!(trim("plain"), "plain");
}

#[test]
fn marked_characters_are_dropped_at_both_ends() {
    let marked = vec![(' ', true), ('a', false), (' ', true), ('b', false), ('\n', true)];
    assert_eq!(trim_marked(&marked), vec!['a', ' ', 'b']);
    assert_eq!(trim_marked(&vec![('x', true), ('y', true)]), Vec::<char>::new());
    assert_eq!(trim_marked(&vec![('x', false)]), vec!['x']);
    assert_eq!(trim_marked(&vec![(' ', false), ('x', true)]), vec![' ']);
    assert_eq!(trim_marked(&Vec::new()), Vec::<char>::new());
    assert_eq!(mark_spaces(&vec!['a', ' ', '\t', 'b']), vec![('a', false), (' ', true), ('\t', true), ('b', false)]);
    assert_eq!(trim_chars(&vec![' ', 'a', ' ']), vec!['a']);
}

#[test]
fn prefix_suffix_and_substring() {
    assert!(str_starts_with("~/x", "~"));
    assert!(!str_starts_with("x~", "~"));
    assert!(str_starts_with("abc", ""));
    assert!(!str_starts_with("ab", "abc"));
    assert!(str_ends_with("Time Zone: Europe/Berlin", "Europe/Berlin"));
    assert!(!str_ends_with("Europe/Berlin ", "Europe/Berlin"));
    assert!(str_ends_with("", ""));
    assert!(str_contains("auth sufficient pam_tid.so\n", "pam_tid.so"));
    assert!(str_contains("pam_tid.so", "pam_tid.so"));
    assert!(!str_contains("pam_tid.s", "pam_tid.so"));
    assert!(str_contains("anything", ""));
    assert!(!str_contains("", "a"));
    assert!(str_contains("aab", "ab"));
}

#[test]
fn same_text_compares_characters() {
    assert!(same_text("TRUE", "TRUE"));
    assert!(!same_text("TRUE", "true"));
    assert!(!same_text("a", "ab"));
    assert!(same_text("", ""));
}

#[test]
fn decimal_digits() {
    for (n, text) in [(0u64, "0"), (7, "7"), (10, "10"), (109, "109"), (u64::MAX, "18446744073709551615")]
    {
        let mut out = String::from("n=");
        push_decimal(&mut out, n);
        assert_eq!(out, format!("n={}", text));
    }
}

#[test]
fn join_puts_the_separator_between() {
    let items = vec!["a".to_string(), "b".to_string(), "c".to_string()];
    assert_eq!(join(&items, ", "), "a, b, c");
    assert_eq!(join(&items[..1].to_vec(), ", "), "a");
    assert_eq!(join(&Vec::new(), ", "), "");
    assert_eq!(clone_strings(&items), items);
}

#[test]
fn newlines_are_normalized() {
    assert_eq!(normalize_newlines("a\r\nb\r\n"), "a\nb\n");
    assert_eq!(normalize_newlines("a\nb"), "a\nb\n");
    assert_eq!(normalize_newlines("a\n\n\n"), "a\n");
    assert_eq!(normalize_newlines(""), "\n");
    assert_eq!(normalize_newlines("\r\n\r\n"), "\n");
    assert_eq!(normalize_newlines("a\rb\r"), "a\rb\r\n");
    assert_eq!(normalize_newlines("a\r\r\nb"), "a\r\nb\n");
    assert_eq!(normalize_newlines("\n\na"), "\n\na\n");
}

#[test]
fn unchanged_files_are_left_alone() {
    assert!(write_if_changed(None, "x\n"));
    assert!(!write_if_changed(Some("x\n"), "x\n"));
    assert!(!write_if_changed(Some("x\r\ny"), "x\ny\n\n"));
    assert!(write_if_changed(Some("x\n"), "y\n"));
    assert!(!write_if_changed(Some(""), "\n"));
}

#[test]
fn paths_are_joined_by_one_slash() {
    assert_eq!(join_path("/etc/setup", "a/b"), "/etc/setup/a/b");
    assert_eq!(join_path("/etc/setup/", "a/b"), "/etc/setup/a/b");
    assert_eq!(join_path("", "a/b"), "a/b");
    assert_eq!(join_path("/", "a"), "/a");
    assert_eq!(join_path("/etc/setup", "/usr/bin"), "/usr/bin");
    assert_eq!(join_path("rel", ""), "rel/");
    assert_eq!(join_path("", ""), "");
    assert_eq!(join_path(".", "config.toml"), "./config.toml");
}

#[test]
fn relative_paths_go_below_the_base() {
    assert_eq!(resolve_path("dotfiles/zshrc", "/etc/setup"), "/etc/setup/dotfiles/zshrc");
    assert_eq!(resolve_path("  dotfiles/zshrc\n", "/etc/setup/"), "/etc/setup/dotfiles/zshrc");
}

#[test]
fn placed_paths_keep_their_white_space() {
    assert_eq!(place_path("a b ", "/base"), "/base/a b ");
    assert_eq!(place_path(" ~", "/base"), "/base/ ~");
    assert_eq!(place_path("/abs", "/base"), "/abs");
}

#[test]
fn absolute_paths_stand_as_they_are() {
    assert_eq!(resolve_path(" /usr/local/bin ", "/etc/setup"), "/usr/local/bin");
}

#[test]
fn tilde_paths_go_below_the_home_directory() {
    let out = resolve_path("~/.ssh", "/etc/setup");
    assert!(out.ends_with("/.ssh"));
    assert!(!out.starts_with('~'));
    assert!(!out.starts_with("/etc/setup"));
    let other = resolve_path("~someone/x", "/etc/setup");
    assert_eq!(other, "~someone/x");
}
