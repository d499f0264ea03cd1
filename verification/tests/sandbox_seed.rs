use keytao_ime::sandbox::{
    checked_relative, is_top_level_schema, public_asset, public_generation, seed_changed,
    stale_seed_names, text_lines,
};

fn components(parts: &[&str]) -> Vec<String> {
    parts.iter().map(|part| part.to_string()).collect()
}

#[test]
fn relative_paths_cannot_leave_the_sandbox() {
    assert_eq!(checked_relative("keytao.schema.yaml"), Ok("keytao.schema.yaml"));
    assert_eq!(checked_relative("opencc/t2s.json"), Ok("opencc/t2s.json"));
    assert_eq!(checked_relative("a\\b"), Ok("a\\b"));
    assert_eq!(checked_relative("a/./b"), Ok("a/./b"));
    assert_eq!(checked_relative("..a/b.."), Ok("..a/b.."));
    for bad in ["", "C:\\x", "a:b", "/etc/passwd", "\\\\server\\share", "..", "../x", "a/../b", "a\\..", ".", "./a"] {
        assert_eq!(
            checked_relative(bad).unwrap_err(),
            "invalid relative path in public schema snapshot",
            "{bad:?}"
        );
    }
}

#[test]
fn private_files_are_never_public_assets() {
    assert!(public_asset(&components(&["keytao.schema.yaml"])));
    assert!(public_asset(&components(&["opencc", "t2s.json"])));
    assert!(!public_asset(&components(&["user.yaml"])));
    assert!(!public_asset(&components(&["installation.yaml"])));
    assert!(public_asset(&components(&["User.yaml"])));
    assert!(!public_asset(&components(&["keytao.userdb", "LOG"])));
    assert!(!public_asset(&components(&["Keytao.USERDB"])));
    assert!(!public_asset(&components(&["Log", "x.txt"])));
    assert!(!public_asset(&components(&[".git", "config"])));
    assert!(!public_asset(&components(&["dir", ".hidden"])));
    assert!(public_asset(&components(&[])));
}

#[test]
fn only_top_level_schemas_take_their_compiled_form_along() {
    assert!(is_top_level_schema(&components(&["addon.schema.yaml"])));
    assert!(!is_top_level_schema(&components(&["dir", "addon.schema.yaml"])));
    assert!(!is_top_level_schema(&components(&["addon.dict.yaml"])));
}

#[test]
fn a_published_generation_is_sixty_four_hex_digits() {
    let first = "a".repeat(64);
    assert_eq!(public_generation(&format!("  {first}\n")), Ok(first.clone()));
    assert_eq!(public_generation(&"AbC1".repeat(16)), Ok("AbC1".repeat(16)));
    assert_eq!(
        public_generation(&"a".repeat(63)).unwrap_err(),
        "invalid public schema generation"
    );
    assert!(public_generation(&"g".repeat(64)).is_err());
    assert!(public_generation("").is_err());
}

#[test]
fn a_recorded_generation_only_matches_itself() {
    let first = "a".repeat(64);
    let second = "b".repeat(64);
    assert!(seed_changed(None, &first));
    assert!(!seed_changed(Some(first.clone()), &first));
    assert!(seed_changed(Some(first.clone()), &second));
    assert!(seed_changed(Some(format!("{first}\n")), &first));
}

#[test]
fn lines_follow_str_lines() {
    assert_eq!(text_lines(""), Vec::<String>::new());
    assert_eq!(text_lines("a"), ["a"]);
    assert_eq!(text_lines("a\n"), ["a"]);
    assert_eq!(text_lines("a\n\n"), ["a", ""]);
    assert_eq!(text_lines("a\r\nb\r"), ["a", "b\r"]);
    assert_eq!(text_lines("\nx"), ["", "x"]);
    for text in ["a\nb\n", "x\r\ny", "\r\n\r\n", "one"] {
        let expected: Vec<String> = text.lines().map(str::to_string).collect();
        assert_eq!(text_lines(text), expected, "{text:?}");
    }
}

#[test]
fn stale_files_are_the_recorded_ones_not_copied_again() {
    let previous = "keytao.schema.yaml\naddon.schema.yaml\nopencc/t2s.json";
    let copied = components(&["keytao.schema.yaml", "opencc/t2s.json"]);
    assert_eq!(stale_seed_names(previous, &copied), ["addon.schema.yaml"]);
    assert_eq!(stale_seed_names("", &copied), Vec::<String>::new());
    assert_eq!(
        stale_seed_names("a\r\nb\nkeytao.schema.yaml\n", &copied),
        ["a", "b"]
    );
}
