use keytao_ime::daemon::{desktop_lists_word, parses_as_i32, plan_session};
use keytao_ime::session::BackendSelection;

fn none() -> BackendSelection {
    BackendSelection::none()
}

#[test]
fn wayland_socket_numbers_follow_i32_parsing() {
    assert!(parses_as_i32("3"));
    assert!(parses_as_i32("+17"));
    assert!(parses_as_i32("-2147483648"));
    assert!(parses_as_i32("2147483647"));
    assert!(!parses_as_i32("2147483648"));
    assert!(!parses_as_i32("-2147483649"));
    assert!(!parses_as_i32(""));
    assert!(!parses_as_i32("-"));
    assert!(!parses_as_i32("-+5"));
    assert!(!parses_as_i32("wayland-0"));
    for text in ["12", "-0", "007", "+", " 1", "99999999999"] {
        assert_eq!(parses_as_i32(text), text.parse::<i32>().is_ok(), "{text:?}");
    }
}

#[test]
fn desktop_lists_compare_entries_case_insensitively() {
    assert!(desktop_lists_word("ubuntu:GNOME", "gnome"));
    assert!(desktop_lists_word("KDE", "kde"));
    assert!(desktop_lists_word("\u{212A}DE", "kde"));
    assert!(!desktop_lists_word("gnome-classic", "gnome"));
    assert!(!desktop_lists_word("xgnome:foo", "gnome"));
    assert!(!desktop_lists_word("", "kde"));
    assert!(desktop_lists_word("a::kde:", "kde"));
}

#[test]
fn kwin_virtual_keyboard_runs_only_the_wayland_frontend() {
    let plan = plan_session(none(), Some("5"), false, true, "KDE");
    assert!(plan.kwin_virtual_keyboard);
    assert!(!plan.enforce_single_instance);
    assert!(!plan.remove_legacy_kde_env);
    assert!(plan.selected.wayland);
    assert!(!plan.selected.xim && !plan.selected.ibus && !plan.selected.ibus_engine);
}

#[test]
fn requested_frontends_and_session_defaults() {
    let xim_only = BackendSelection::parse_list("xim").unwrap();
    let plan = plan_session(xim_only, None, true, true, "GNOME");
    assert_eq!(plan.selected, xim_only);
    assert!(plan.enforce_single_instance);

    let gnome = plan_session(none(), None, true, true, "ubuntu:GNOME");
    assert!(gnome.selected.ibus_engine);
    assert!(gnome.selected.xim);
    assert!(!gnome.selected.wayland);

    let kde = plan_session(none(), Some("not-a-number"), true, false, "KDE");
    assert!(!kde.kwin_virtual_keyboard);
    assert!(kde.remove_legacy_kde_env);
    assert!(kde.selected.ibus);
    assert!(!kde.selected.wayland);

    let sway = plan_session(none(), None, true, false, "sway");
    assert!(sway.selected.wayland);
    assert!(!sway.remove_legacy_kde_env);

    let nothing = plan_session(none(), None, false, false, "");
    assert!(!nothing.selected.any());
}
