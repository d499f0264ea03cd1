use keytao_ime::ime_state::{engine_update, ibus_cursor_pos, preedit_cursor_bytes, Candidate, ImeState};
use keytao_ime::keys::{
    is_shift_key, key_phase, keysym_at_level, press_route, wayland_press_gate, KeyPhase, KeyOutcome, ModeChange, PressRoute,
    ModeIndicator, PressGate, RIME_MOD_SHIFT, RIME_RELEASE_MASK, XIM_FILTER_KEY_EVENTS,
};
use keytao_ime::policy::{
    ibus_content_type_policy, is_sensitive_ibus_content_type, text_input_v1_policy,
    text_input_v3_policy, ContentTypeState, InputContextPolicy, IBUS_INPUT_HINT_PRIVATE,
    IBUS_INPUT_PURPOSE_PASSWORD, IBUS_INPUT_PURPOSE_PIN,
};
use keytao_ime::repeat::{repeat_timings, Timing, FALLBACK_REPEAT_DELAY, FALLBACK_REPEAT_RATE};
use keytao_ime::session::{
    parse_ibus_address_file, parse_u32, session_bus_address_from, should_draw_overlay,
    BackendSelection, ReloadStampGate,
};

const MAP: &[u32] = &[0x061, 0x041, 0xffe1, 0x0000, 0x031, 0x021];

#[test]
fn engine_password_and_pin_content_types_stop_composing() {
    assert!(!ibus_content_type_policy(IBUS_INPUT_PURPOSE_PASSWORD, 0).composing);
    assert!(!ibus_content_type_policy(IBUS_INPUT_PURPOSE_PASSWORD, 0).learning);
    assert!(!ibus_content_type_policy(IBUS_INPUT_PURPOSE_PIN, 0).composing);
    assert!(!ibus_content_type_policy(0, IBUS_INPUT_HINT_PRIVATE).composing);
}

#[test]
fn engine_ordinary_content_types_keep_composing() {
    assert!(ibus_content_type_policy(0, 0).composing);
    assert!(ibus_content_type_policy(0, 0x1).composing);
    assert!(ibus_content_type_policy(10, 0).composing);
}

#[test]
fn cursor_pos_is_clamped_to_the_preedit_length() {
    let mut state = ImeState::empty();
    state.preedit = "你好ni".to_owned();
    state.cursor = 3;
    assert_eq!(ibus_cursor_pos(&state), 3);
    state.cursor = 99;
    assert_eq!(ibus_cursor_pos(&state), 4);
    state.preedit = String::new();
    assert_eq!(ibus_cursor_pos(&state), 0);
}

#[test]
fn the_overlay_stays_off_while_a_desktop_panel_is_running() {
    assert!(!should_draw_overlay(false, true, true));
    assert!(!should_draw_overlay(false, true, false));
    assert!(should_draw_overlay(false, false, true));
    assert!(!should_draw_overlay(false, false, false));
    assert!(should_draw_overlay(true, true, true));
}

#[test]
fn address_files_written_by_this_process_are_ignored() {
    let foreign = "IBUS_ADDRESS=unix:path=/run/user/1000/ibus/dbus-abc\nIBUS_DAEMON_PID=4242\n";
    assert_eq!(
        parse_ibus_address_file(foreign, 7).as_deref(),
        Some("unix:path=/run/user/1000/ibus/dbus-abc")
    );
    let ours = "IBUS_ADDRESS=unix:path=/run/user/1000/ibus/dbus-abc\nIBUS_DAEMON_PID=7\n";
    assert_eq!(parse_ibus_address_file(ours, 7), None);
    assert_eq!(parse_ibus_address_file("", 7), None);
}

#[test]
fn session_bus_address_uses_current_uid_fallback() {
    assert_eq!(session_bus_address_from(None, None, 501), "unix:path=/run/user/501/bus");
    assert_eq!(
        session_bus_address_from(None, Some("/run/user/502".to_owned()), 501),
        "unix:path=/run/user/502/bus"
    );
    assert_eq!(
        session_bus_address_from(Some("unix:path=/tmp/bus".to_owned()), None, 501),
        "unix:path=/tmp/bus"
    );
}

#[test]
fn shift_keysyms_are_the_ones_ascii_composer_switches_on() {
    assert!(is_shift_key(0xffe1));
    assert!(is_shift_key(0xffe2));
    assert!(!is_shift_key(0xffe3));
    assert!(!is_shift_key(0xffe9));
}

#[test]
fn a_sensitive_context_never_reaches_librime() {
    let sensitive = InputContextPolicy::sensitive();
    assert_eq!(key_phase(0x61, 0, sensitive), KeyPhase::Sensitive);
    assert_eq!(key_phase(0xffe1, RIME_RELEASE_MASK, sensitive), KeyPhase::Sensitive);
}

#[test]
fn only_shift_releases_survive_the_release_filter() {
    let policy = InputContextPolicy::default();
    assert_eq!(key_phase(0xffe1, RIME_RELEASE_MASK, policy), KeyPhase::ShiftRelease);
    assert_eq!(key_phase(0x61, RIME_RELEASE_MASK, policy), KeyPhase::IgnoredRelease);
    assert_eq!(key_phase(0x61, 0, policy), KeyPhase::Press);
    assert_eq!(key_phase(0xffe1, 0, policy), KeyPhase::Press);
}

#[test]
fn only_the_step_into_a_password_field_tears_the_ui_down() {
    let mut content_type = ContentTypeState::new();
    assert_eq!(content_type.get(), (0, 0));

    let change = content_type.set(IBUS_INPUT_PURPOSE_PASSWORD, 0);
    assert!(!change.policy.composing);
    assert!(change.turned_sensitive, "the preedit on screen has to go");
    assert_eq!(content_type.get(), (IBUS_INPUT_PURPOSE_PASSWORD, 0));

    let again = content_type.set(IBUS_INPUT_PURPOSE_PASSWORD, IBUS_INPUT_HINT_PRIVATE);
    assert!(!again.policy.composing);
    assert!(!again.turned_sensitive);

    let back = content_type.set(0, 0);
    assert!(back.policy.composing);
    assert!(!back.turned_sensitive);
}

#[test]
fn the_mode_indicator_only_speaks_when_the_mode_moves() {
    let mut indicator = ModeIndicator::new();
    assert_eq!(indicator.update(false, true), None);
    assert_eq!(
        indicator.update(true, true),
        Some(ModeChange {
            ascii_mode: true,
            hint: true
        })
    );
    assert_eq!(indicator.update(true, true), None);
    assert_eq!(
        indicator.update(false, false),
        Some(ModeChange {
            ascii_mode: false,
            hint: false
        })
    );
    indicator.adopt(true);
    assert_eq!(indicator.update(true, true), None);
}

#[test]
fn a_failed_reload_keeps_the_request_pending() {
    let mut gate = ReloadStampGate::new("/tmp/stamp".to_owned(), None);
    assert_eq!(gate.pending(None), None, "a missing stamp is not a request");

    let on_disk = Some("stamp-1".to_owned());
    let requested = gate.pending(on_disk.clone()).expect("the first stamp is a request");
    assert_eq!(gate.pending(on_disk.clone()).as_deref(), Some(requested.as_str()));
    assert_eq!(gate.pending(on_disk.clone()).as_deref(), Some(requested.as_str()));

    gate.commit(requested);
    assert_eq!(gate.pending(on_disk), None, "a loaded stamp fires once");
}

#[test]
fn a_stamp_written_during_the_reload_is_not_swallowed() {
    let mut gate = ReloadStampGate::new("/tmp/stamp".to_owned(), Some("stamp-1".to_owned()));
    assert_eq!(gate.pending(Some("stamp-1".to_owned())), None);

    let requested = gate
        .pending(Some("stamp-2".to_owned()))
        .expect("a rewritten stamp is a request");
    gate.commit(requested);
    assert!(gate.pending(Some("stamp-3".to_owned())).is_some());
    assert_eq!(gate.path(), "/tmp/stamp");
}

#[test]
fn wayland_backend_repeat_info_maps_to_a_delay_and_an_interval() {
    assert_eq!(
        repeat_timings(25, 600),
        Some((Timing::from_millis(600), Timing::from_millis(40)))
    );
    assert_eq!(repeat_timings(0, 600), None);
    assert_eq!(repeat_timings(-1, 600), None);
    assert_eq!(repeat_timings(25, -1), None);
}

#[test]
fn wayland_backend_password_and_pin_content_types_stop_composing() {
    assert!(!text_input_v3_policy(0, 8).composing);
    assert!(!text_input_v3_policy(0, 9).composing);
    assert!(!text_input_v3_policy(0x40, 0).composing);
    assert!(!text_input_v3_policy(0x80, 0).composing);
    assert!(!text_input_v3_policy(0, 8).learning);
}

#[test]
fn wayland_backend_ordinary_content_types_keep_composing() {
    assert!(text_input_v3_policy(0, 0).composing);
    assert!(text_input_v3_policy(0x3, 0).composing);
    assert!(text_input_v3_policy(0, 13).composing);
    assert!(text_input_v3_policy(0, 10).composing);
}

#[test]
fn wayland_backend_preedit_cursor_is_a_byte_offset() {
    assert_eq!(preedit_cursor_bytes("nihao", 2), 2);
    assert_eq!(preedit_cursor_bytes("你好ni", 2), 6);
    assert_eq!(preedit_cursor_bytes("你好", 9), 6);
    assert_eq!(preedit_cursor_bytes("", 0), 0);
}

#[test]
fn wayland_backend_kde_repeat_info_maps_to_a_delay_and_an_interval() {
    assert_eq!(
        repeat_timings(25, 600),
        Some((Timing::from_millis(600), Timing::from_millis(40)))
    );
    assert_eq!(repeat_timings(0, 600), None);
    assert_eq!(repeat_timings(-1, 600), None);
}

#[test]
fn the_v1_fallback_actually_enables_repeating() {
    assert_eq!(
        repeat_timings(FALLBACK_REPEAT_RATE, FALLBACK_REPEAT_DELAY),
        Some((Timing::from_millis(600), Timing::from_millis(40)))
    );
}

#[test]
fn password_content_types_stop_composing() {
    assert!(!text_input_v1_policy(0, 8).composing);
    assert!(!text_input_v1_policy(0, 8).learning);
    assert!(!text_input_v1_policy(0x40, 0).composing);
    assert!(!text_input_v1_policy(0x80, 0).composing);
    assert!(!text_input_v1_policy(0xc0, 0).composing);
}

#[test]
fn wayland_backend_kde_ordinary_content_types_keep_composing() {
    assert!(text_input_v1_policy(0, 0).composing);
    assert!(text_input_v1_policy(0x7, 0).composing);
    assert!(text_input_v1_policy(0, 9).composing);
    assert!(text_input_v1_policy(0, 12).composing);
}

#[test]
fn wayland_backend_kde_preedit_cursor_is_a_byte_offset() {
    assert_eq!(preedit_cursor_bytes("nihao", 2), 2);
    assert_eq!(preedit_cursor_bytes("你好ni", 2), 6);
    assert_eq!(preedit_cursor_bytes("你好", 9), 6);
    assert_eq!(preedit_cursor_bytes("", 0), 0);
}

#[test]
fn a_missing_shift_level_falls_back_to_the_base_keysym() {
    assert_eq!(keysym_at_level(MAP, 8, 2, 9, true), 0xffe1);
    assert_eq!(keysym_at_level(MAP, 8, 2, 9, false), 0xffe1);
}

#[test]
fn present_shift_levels_are_used() {
    assert_eq!(keysym_at_level(MAP, 8, 2, 8, false), 0x061);
    assert_eq!(keysym_at_level(MAP, 8, 2, 8, true), 0x041);
    assert_eq!(keysym_at_level(MAP, 8, 2, 10, true), 0x021);
}

#[test]
fn out_of_range_keycodes_resolve_to_nosymbol() {
    assert_eq!(keysym_at_level(MAP, 8, 2, 7, false), 0);
    assert_eq!(keysym_at_level(MAP, 8, 2, 200, false), 0);
    assert_eq!(keysym_at_level(MAP, 8, 0, 8, false), 0);
}

#[test]
fn key_release_is_subscribed_for_solo_shift() {
    assert_eq!(XIM_FILTER_KEY_EVENTS & 1, 1);
    assert_eq!(XIM_FILTER_KEY_EVENTS & 2, 2);
}

#[test]
fn ibus_content_types_name_their_secrets() {
    assert!(is_sensitive_ibus_content_type(IBUS_INPUT_PURPOSE_PIN, 0));
    assert!(is_sensitive_ibus_content_type(3, IBUS_INPUT_HINT_PRIVATE | 0x1));
    assert!(!is_sensitive_ibus_content_type(3, 0x1));
}

#[test]
fn a_secret_content_type_asks_for_one_teardown_only() {
    let mut content_type = ContentTypeState::new();
    assert!(content_type.set(IBUS_INPUT_PURPOSE_PIN, 0).turned_sensitive);
    assert!(!content_type.set(0, IBUS_INPUT_HINT_PRIVATE).turned_sensitive);
    assert!(!content_type.set(IBUS_INPUT_PURPOSE_PASSWORD, 0).turned_sensitive);
}

#[test]
fn shift_level_keeps_a_key_with_a_base_keysym() {
    for keycode in 8u8..11 {
        if keysym_at_level(MAP, 8, 2, keycode, false) != 0 {
            assert_ne!(keysym_at_level(MAP, 8, 2, keycode, true), 0);
        }
    }
}

#[test]
fn wayland_press_gate_routes_shift_without_its_own_bit() {
    let normal = InputContextPolicy::normal();
    assert_eq!(wayland_press_gate(false, normal, 0x61, 0), PressGate::Forward);
    assert_eq!(
        wayland_press_gate(true, InputContextPolicy::sensitive(), 0x61, 0),
        PressGate::Forward
    );
    assert_eq!(wayland_press_gate(true, normal, 0, 0), PressGate::Drop);
    assert_eq!(
        wayland_press_gate(true, normal, 0xffe1, RIME_MOD_SHIFT | 0x4),
        PressGate::Route { effective_mods: 0x4 }
    );
    assert_eq!(
        wayland_press_gate(true, normal, 0x61, RIME_MOD_SHIFT),
        PressGate::Route { effective_mods: RIME_MOD_SHIFT }
    );
}

#[test]
fn repeat_interval_is_the_rate_in_microseconds() {
    let (delay, interval) = repeat_timings(30, 250).expect("repeating");
    assert_eq!(delay.as_micros(), 250_000);
    assert_eq!(interval.as_micros(), 33_333);
    assert_eq!(Timing::from_micros(7).as_micros(), 7);
}

#[test]
fn a_session_without_an_engine_forwards_the_key() {
    assert!(!KeyOutcome::from_result(None).accepted());
    let mut state = ImeState::empty();
    state.preedit = "ni".to_owned();
    state.candidates = vec![Candidate {
        text: "你".to_owned(),
        comment: None,
    }];
    let outcome = KeyOutcome::from_result(Some((state, true)));
    assert!(outcome.accepted());
    match outcome {
        KeyOutcome::Publish { state, accepted } => {
            assert!(accepted);
            assert_eq!(state.preedit, "ni");
        }
        other => panic!("unexpected outcome {other:?}"),
    }
    assert!(KeyOutcome::ModeChanged { ascii_mode: true, accepted: true }.accepted());
    assert!(matches!(KeyOutcome::from_release(None), KeyOutcome::Forward));
    assert!(matches!(
        KeyOutcome::from_release(Some((true, false))),
        KeyOutcome::ModeChanged { ascii_mode: true, accepted: false }
    ));
    assert!(!KeyOutcome::ClearUi.accepted());
}

#[test]
fn u32_parsing_follows_from_str() {
    assert_eq!(parse_u32("4242"), Some(4242));
    assert_eq!(parse_u32("+17"), Some(17));
    assert_eq!(parse_u32("4294967295"), Some(u32::MAX));
    assert_eq!(parse_u32("4294967296"), None);
    assert_eq!(parse_u32(""), None);
    assert_eq!(parse_u32("-1"), None);
    assert_eq!(parse_u32("12a"), None);
}

#[test]
fn address_file_keeps_the_last_address_and_trims_it() {
    let text = "# comment\nIBUS_ADDRESS=first\nIBUS_ADDRESS=  second  \nIBUS_DAEMON_PID=12\n";
    assert_eq!(parse_ibus_address_file(text, 99).as_deref(), Some("second"));
    assert_eq!(parse_ibus_address_file("IBUS_ADDRESS=\n", 99), None);
    assert_eq!(
        parse_ibus_address_file("IBUS_DAEMON_PID=99\nIBUS_ADDRESS=x\n", 99),
        None
    );
}

#[test]
fn backend_lists_parse_and_describe() {
    let all = BackendSelection::parse_list("wayland,xim,ibus").expect("known backends");
    assert!(all.any());
    assert_eq!(all.describe(), "wayland,xim,ibus");
    assert!(BackendSelection::parse_list("bogus").is_err());
    assert!(!BackendSelection::none().any());
}

#[test]
fn presses_route_by_the_key_policy() {
    assert_eq!(press_route(true, true, true), PressRoute::BypassEmptyComposition);
    assert_eq!(press_route(false, true, true), PressRoute::Enter);
    assert_eq!(press_route(false, true, false), PressRoute::Rime);
    assert_eq!(press_route(false, false, true), PressRoute::Rime);
}

#[test]
fn engine_updates_follow_the_state() {
    let mut state = ImeState::empty();
    let quiet = engine_update(&state);
    assert!(quiet.commit.is_none());
    assert!(quiet.preedit.is_none());
    assert!(!quiet.show_candidates);
    assert!(quiet.mode_hint_allowed);

    state.committed = Some(String::new());
    assert!(engine_update(&state).commit.is_none());
    state.committed = Some("你好".to_owned());
    state.preedit = "ni".to_owned();
    state.cursor = 7;
    state.candidates = vec![Candidate {
        text: "你".to_owned(),
        comment: None,
    }];
    let update = engine_update(&state);
    assert_eq!(update.commit.as_deref(), Some("你好"));
    assert_eq!(update.preedit, Some(("ni".to_owned(), 2)));
    assert!(update.show_candidates);
    assert!(!update.mode_hint_allowed);
}

fn args(list: &[&str]) -> Vec<String> {
    list.iter().map(|a| a.to_string()).collect()
}

#[test]
fn backend_lists_trim_items_and_skip_empty_ones() {
    let s = BackendSelection::parse_list(" x11 , ,ibus,").expect("known backends");
    assert!(!s.wayland && s.xim && s.ibus && !s.ibus_engine);
    assert_eq!(
        BackendSelection::parse_list("wayland, gtk, qt"),
        Err("unknown backend 'gtk'".to_string())
    );
    assert_eq!(
        BackendSelection::parse_list(" , "),
        Err("no backends selected".to_string())
    );
}

#[test]
fn command_lines_pick_frontends() {
    assert_eq!(
        BackendSelection::from_args(&args(&["--backend=gtk"])),
        Err("unknown backend 'gtk'".to_string())
    );
    assert_eq!(
        BackendSelection::from_args(&args(&["--backend=,"])),
        Err("no backends selected".to_string())
    );
    let engine = BackendSelection::from_args(&args(&["--wayland", "--ibus-engine"])).unwrap();
    assert_eq!(engine, BackendSelection { ibus_engine: true, ..BackendSelection::none() });
    assert!(BackendSelection::from_args(&args(&["--backend=bogus", "--ibus-engine"])).is_err());
    let chosen = BackendSelection::from_args(&args(&["--xim", "--ibus"])).unwrap();
    assert!(chosen.xim && chosen.ibus && !chosen.wayland);
    assert_eq!(BackendSelection::from_args(&args(&["--verbose"])), Ok(BackendSelection::none()));
}

#[test]
fn timings_hold_any_millisecond_count() {
    assert_eq!(Timing::from_millis(u64::MAX).as_micros(), u64::MAX as u128 * 1000);
    assert_eq!(Timing::from_millis(600), Timing::from_micros(600_000));
}
