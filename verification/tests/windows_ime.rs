use keytao_ime::actions::AppAction;
use keytao_ime::context::{
    compartment_probe, compartments_block_reason, input_scopes_probe, keyboard_is_open,
    merge_probe_failed_state, scopes_declare_sensitive, CompartmentValue, ContextInputState,
    ContextProbe, InputBlockReason, IS_ALPHANUMERIC_PIN, IS_ALPHANUMERIC_PIN_SET, IS_DEFAULT,
    IS_EMAIL_USERNAME, IS_NUMERIC_PASSWORD, IS_NUMERIC_PIN, IS_PASSWORD, IS_PRIVATE, IS_URL,
};
use keytao_ime::dll::{can_unload, lock_server, obj_add, obj_release, DllActivityGuard, DllState};
use keytao_ime::geometry::{
    caret_is_inside_monitor, click_at, location_from_query, popup_position_in,
    should_arm_caret_reprobe, subtract_touch_keyboard, virtual_screen_from_metrics, AdjacentChar,
    CaretSource, PanelClick, PanelHitAreas, PanelRect, QueryGate, QueryGuard, Rect,
};
use keytao_ime::ime_state::{
    plan_composition, should_consume_processed_state, Candidate, CompositionPlan,
    CompositionTarget, ImeState,
};
use keytao_ime::keys::RIME_MOD_SHIFT;
use keytao_ime::vk::{
    classify_translation, fallback_printable_keysym, is_shift_vk, packet_keysym_from,
    should_eat_key, unicode_to_keysym, vk_to_keysym, PrintableTranslation, VK_1, VK_A, VK_F4,
    VK_LSHIFT, VK_OEM_1, VK_PACKET, VK_RETURN, XK_PAGE_DOWN,
};

const SCREEN: Rect = Rect {
    left: -1920,
    top: -1080,
    right: 1920,
    bottom: 1080,
};

fn location(confirmed: bool, values: (i32, i32, i32, i32)) -> Option<Rect> {
    location_from_query(&SCREEN, confirmed, values.0, values.1, values.2, values.3)
}

fn work_area() -> Rect {
    Rect {
        left: 0,
        top: 0,
        right: 1920,
        bottom: 1080,
    }
}

fn unavailable() -> ContextInputState {
    ContextInputState {
        password: ContextProbe::Unavailable,
        ..ContextInputState::unrestricted()
    }
}

fn empty_state() -> ImeState {
    ImeState::empty()
}

fn state_with_preedit(text: &str) -> ImeState {
    let mut state = ImeState::empty();
    state.preedit = text.to_string();
    state
}

fn state_with_candidate(text: &str) -> ImeState {
    let mut state = ImeState::empty();
    state.candidates.push(Candidate {
        text: text.to_string(),
        comment: None,
    });
    state
}

fn state_with_commit(text: &str) -> ImeState {
    let mut state = ImeState::empty();
    state.committed = Some(text.to_string());
    state
}

fn state_with_commit_and_preedit(committed: &str, preedit: &str) -> ImeState {
    let mut state = state_with_commit(committed);
    state.preedit = preedit.to_string();
    state
}

#[test]
fn successful_msaa_location_preserves_screen_coordinates_and_zero_width() {
    let rect = location(true, (-1200, -500, 0, 24)).unwrap();
    assert_eq!(
        (rect.left, rect.top, rect.right, rect.bottom),
        (-1200, -500, -1200, -476)
    );
    assert!(location(true, (0, 0, 2, 24)).is_some());
}

#[test]
fn failed_or_false_com_result_never_supplies_a_location() {
    assert!(location(false, (100, 200, 2, 24)).is_none());
}

#[test]
fn malformed_and_overflowing_msaa_extents_are_rejected() {
    for values in [
        (100, 200, -1, 24),
        (100, 200, 2, 0),
        (100, 200, 2, -1),
        (i32::MAX, 200, 1, 24),
        (100, i32::MAX, 2, 1),
    ] {
        assert!(location(true, values).is_none(), "{values:?}");
    }
}

#[test]
fn off_screen_and_oversized_msaa_extents_are_rejected() {
    for values in [
        (-1921, 200, 2, 24),
        (100, -1081, 2, 24),
        (1920, 200, 2, 24),
        (100, 1070, 2, 24),
        (0, 0, 4000, 24),
        (0, 0, 2, 4000),
    ] {
        assert!(location(true, values).is_none(), "{values:?}");
    }
}

#[test]
fn query_guard_blocks_reentry_and_recovers_after_return() {
    let mut gate = QueryGate::new();
    let first = QueryGuard::enter(&mut gate).unwrap();
    assert!(QueryGuard::enter(&mut gate).is_none());
    assert!(QueryGuard::enter(&mut gate).is_none());
    first.leave(&mut gate);
    assert!(QueryGuard::enter(&mut gate).is_some());
}

#[test]
fn touch_keyboard_is_carved_out_of_the_work_area() {
    let pane = Rect {
        left: 0,
        top: 700,
        right: 1920,
        bottom: 1080,
    };
    assert_eq!(subtract_touch_keyboard(work_area(), pane).bottom, 700);
    let elsewhere = Rect {
        left: 2000,
        top: 700,
        right: 3800,
        bottom: 1080,
    };
    assert_eq!(subtract_touch_keyboard(work_area(), elsewhere).bottom, 1080);
    let covering = Rect {
        left: 0,
        top: 0,
        right: 1920,
        bottom: 1080,
    };
    assert_eq!(subtract_touch_keyboard(work_area(), covering).bottom, 1080);
}

#[test]
fn panel_flips_above_the_caret_when_the_touch_keyboard_takes_the_bottom() {
    let work = subtract_touch_keyboard(
        work_area(),
        Rect {
            left: 0,
            top: 700,
            right: 1920,
            bottom: 1080,
        },
    );
    let position = popup_position_in(work, 300, 660, 400, 120, 4);
    assert!(position.y + 120 <= 700, "panel must stay above the pane");
}

#[test]
fn clicks_map_to_candidates_and_paging() {
    let hit_areas = PanelHitAreas {
        candidates: vec![
            PanelRect {
                x: 0,
                y: 0,
                width: 50,
                height: 30,
            },
            PanelRect {
                x: 50,
                y: 0,
                width: 50,
                height: 30,
            },
        ],
        previous_page: Some(PanelRect {
            x: 100,
            y: 0,
            width: 20,
            height: 30,
        }),
        next_page: Some(PanelRect {
            x: 120,
            y: 0,
            width: 20,
            height: 30,
        }),
    };
    assert_eq!(click_at(&hit_areas, 10, 10), Some(PanelClick::Candidate(0)));
    assert_eq!(click_at(&hit_areas, 60, 10), Some(PanelClick::Candidate(1)));
    assert_eq!(click_at(&hit_areas, 105, 10), Some(PanelClick::PreviousPage));
    assert_eq!(click_at(&hit_areas, 125, 10), Some(PanelClick::NextPage));
    assert_eq!(click_at(&hit_areas, 300, 10), None);
}

#[test]
fn activity_guard_prevents_unload() {
    let mut dll = DllState::new();
    assert!(can_unload(&dll));
    let guard = DllActivityGuard::new(&mut dll);
    assert!(!can_unload(&dll));
    guard.release(&mut dll);
    assert!(can_unload(&dll));
}

#[test]
fn password_pin_and_private_scopes_all_block_composing() {
    for scope in [
        IS_PASSWORD,
        IS_NUMERIC_PASSWORD,
        IS_NUMERIC_PIN,
        IS_ALPHANUMERIC_PIN,
        IS_ALPHANUMERIC_PIN_SET,
        IS_PRIVATE,
    ] {
        assert!(scopes_declare_sensitive(&[scope]));
    }
    assert!(scopes_declare_sensitive(&[IS_DEFAULT, IS_NUMERIC_PIN]));
}

#[test]
fn ordinary_scopes_leave_composing_alone() {
    assert!(!scopes_declare_sensitive(&[]));
    assert!(!scopes_declare_sensitive(&[IS_DEFAULT]));
    assert!(!scopes_declare_sensitive(&[IS_EMAIL_USERNAME, IS_URL]));
}

#[test]
fn any_declared_restriction_makes_the_context_sensitive() {
    assert!(!ContextInputState::unrestricted().is_sensitive());
    for state in [
        ContextInputState {
            keyboard_disabled: ContextProbe::Restricted,
            ..ContextInputState::unrestricted()
        },
        ContextInputState {
            empty_context: ContextProbe::Restricted,
            ..ContextInputState::unrestricted()
        },
        ContextInputState {
            password: ContextProbe::Restricted,
            ..ContextInputState::unrestricted()
        },
    ] {
        assert!(state.is_sensitive());
    }
}

#[test]
fn a_failed_probe_fails_closed_and_asks_for_a_retry() {
    for state in [
        ContextInputState {
            keyboard_disabled: ContextProbe::Unknown,
            ..ContextInputState::unrestricted()
        },
        ContextInputState {
            empty_context: ContextProbe::Unknown,
            ..ContextInputState::unrestricted()
        },
        ContextInputState {
            password: ContextProbe::Unknown,
            ..ContextInputState::unrestricted()
        },
    ] {
        assert!(state.is_sensitive());
        assert!(state.needs_retry());
    }
    assert!(!ContextInputState::unrestricted().needs_retry());
}

#[test]
fn an_uninspected_context_starts_out_sensitive() {
    let state = ContextInputState::default();
    assert!(state.is_sensitive());
    assert!(state.needs_retry());
}

#[test]
fn a_compartment_refresh_keeps_the_input_scope_answer() {
    let password_field = ContextInputState {
        password: ContextProbe::Restricted,
        ..ContextInputState::unrestricted()
    };
    let refreshed = password_field.with_compartments(ContextProbe::Clear, ContextProbe::Clear);
    assert_eq!(refreshed.password, ContextProbe::Restricted);
    assert!(refreshed.is_sensitive());

    let ordinary = ContextInputState::unrestricted();
    assert!(ordinary
        .with_compartments(ContextProbe::Restricted, ContextProbe::Clear)
        .is_sensitive());
    let disabled = ContextInputState {
        keyboard_disabled: ContextProbe::Restricted,
        ..ContextInputState::unrestricted()
    };
    assert!(!disabled
        .with_compartments(ContextProbe::Clear, ContextProbe::Clear)
        .is_sensitive());
}

#[test]
fn a_declared_restriction_needs_no_retry() {
    let state = ContextInputState {
        password: ContextProbe::Restricted,
        ..ContextInputState::unrestricted()
    };
    assert!(!state.needs_retry());
}

#[test]
fn password_probe_failure_keeps_a_known_clear_answer_or_retries_open() {
    let failed = ContextInputState {
        password: ContextProbe::ProbeFailed,
        ..ContextInputState::unrestricted()
    };

    let kept = merge_probe_failed_state(Some(ContextInputState::unrestricted()), failed);
    assert_eq!(kept.password, ContextProbe::Clear);
    assert!(!kept.is_sensitive());
    assert!(kept.needs_retry());
    assert!(kept.password_probe_failed);

    let first_failure = merge_probe_failed_state(None, failed);
    assert_eq!(first_failure.password, ContextProbe::ProbeFailed);
    assert!(!first_failure.is_sensitive());
    assert!(first_failure.needs_retry());
    assert!(first_failure.password_probe_failed);
}

#[test]
fn unavailable_optional_metadata_allows_input_but_requires_another_probe() {
    let state = unavailable();
    assert!(!state.is_sensitive());
    assert_eq!(state.block_reason(), None);
    assert!(state.needs_retry());

    let merged = merge_probe_failed_state(None, state);
    assert_eq!(merged.password, ContextProbe::Unavailable);
    assert!(merged.password_probe_failed);
    assert!(!merged.is_sensitive());
    assert_eq!(merged.block_reason(), None);
    assert!(merged.needs_retry());
}

#[test]
fn unavailable_read_keeps_the_same_contexts_known_scope_and_retry_flag() {
    for known in [ContextProbe::Clear, ContextProbe::Restricted] {
        let previous = ContextInputState {
            password: known,
            ..ContextInputState::unrestricted()
        };
        let merged = merge_probe_failed_state(Some(previous), unavailable());
        assert_eq!(merged.password, known);
        assert!(merged.password_probe_failed);
        assert!(merged.needs_retry());
        assert_eq!(merged.is_sensitive(), known == ContextProbe::Restricted);
        assert_eq!(
            merged.block_reason(),
            (known == ContextProbe::Restricted).then_some(InputBlockReason::Sensitive)
        );
    }
}

#[test]
fn unavailable_new_context_does_not_inherit_the_old_password_scope() {
    let restricted = ContextInputState {
        password: ContextProbe::Restricted,
        ..ContextInputState::unrestricted()
    };
    assert!(merge_probe_failed_state(Some(restricted), unavailable()).is_sensitive());

    let new_context = merge_probe_failed_state(None, unavailable());
    assert_eq!(new_context.password, ContextProbe::Unavailable);
    assert!(!new_context.is_sensitive());
    assert!(new_context.password_probe_failed);
    assert!(new_context.needs_retry());
}

#[test]
fn unavailable_read_does_not_reuse_an_unknown_answer() {
    for previous_probe in [
        ContextProbe::Unknown,
        ContextProbe::ProbeFailed,
        ContextProbe::Unavailable,
    ] {
        let previous = ContextInputState {
            password: previous_probe,
            ..ContextInputState::unrestricted()
        };
        let merged = merge_probe_failed_state(Some(previous), unavailable());
        assert_eq!(merged.password, ContextProbe::Unavailable);
        assert!(!merged.is_sensitive());
        assert!(merged.password_probe_failed);
        assert!(merged.needs_retry());
    }
}

#[test]
fn unavailable_scope_never_overrides_disabled_or_unknown_compartments() {
    for restriction in [ContextProbe::Restricted, ContextProbe::Unknown] {
        for state in [
            ContextInputState {
                keyboard_disabled: restriction,
                ..unavailable()
            },
            ContextInputState {
                empty_context: restriction,
                ..unavailable()
            },
        ] {
            let merged = merge_probe_failed_state(None, state);
            assert!(merged.is_sensitive());
            assert!(merged.needs_retry());
            assert_eq!(
                merged.block_reason(),
                Some(if restriction == ContextProbe::Restricted {
                    InputBlockReason::ContextDisabled
                } else {
                    InputBlockReason::ProbeFailed
                })
            );
        }
    }
}

#[test]
fn a_successful_scope_retry_replaces_the_retained_answer_and_clears_failure() {
    let restricted = ContextInputState {
        password: ContextProbe::Restricted,
        ..ContextInputState::unrestricted()
    };
    let failed = merge_probe_failed_state(Some(restricted), unavailable());
    let retried = merge_probe_failed_state(Some(failed), ContextInputState::unrestricted());
    assert_eq!(retried.password, ContextProbe::Clear);
    assert!(!retried.password_probe_failed);
    assert!(!retried.is_sensitive());
    assert!(!retried.needs_retry());
}

#[test]
fn unknown_then_unavailable_never_erase_a_previously_declared_sensitive_scope() {
    let restricted = ContextInputState {
        password: ContextProbe::Restricted,
        ..ContextInputState::unrestricted()
    };
    let unknown = ContextInputState {
        password: ContextProbe::Unknown,
        ..ContextInputState::unrestricted()
    };
    let failed = merge_probe_failed_state(Some(restricted), unknown);
    assert_eq!(failed.password, ContextProbe::Restricted);
    assert!(failed.password_probe_failed);
    assert!(failed.is_sensitive());
    assert!(failed.needs_retry());

    let still_unavailable = merge_probe_failed_state(Some(failed), unavailable());
    assert_eq!(still_unavailable.password, ContextProbe::Restricted);
    assert_eq!(
        still_unavailable.block_reason(),
        Some(InputBlockReason::Sensitive)
    );
    assert!(still_unavailable.password_probe_failed);
    assert!(still_unavailable.is_sensitive());
    assert!(still_unavailable.needs_retry());

    let clear =
        merge_probe_failed_state(Some(still_unavailable), ContextInputState::unrestricted());
    assert!(!clear.is_sensitive());
    assert!(!clear.password_probe_failed);
    assert!(!clear.needs_retry());

    let other_context = merge_probe_failed_state(None, unavailable());
    assert_eq!(other_context.password, ContextProbe::Unavailable);
    assert!(!other_context.is_sensitive());
    assert!(other_context.needs_retry());
}

#[test]
fn a_known_clear_scope_does_not_turn_a_later_unknown_result_into_clear() {
    let unknown = ContextInputState {
        password: ContextProbe::Unknown,
        ..ContextInputState::unrestricted()
    };
    let failed = merge_probe_failed_state(Some(ContextInputState::unrestricted()), unknown);
    assert_eq!(failed.password, ContextProbe::Unknown);
    assert_eq!(failed.block_reason(), Some(InputBlockReason::ProbeFailed));
    assert!(failed.is_sensitive());
    assert!(failed.needs_retry());
}

#[test]
fn only_a_fresh_probe_suppresses_caret_reprobe() {
    assert!(!should_arm_caret_reprobe(Some(CaretSource::Probe)));
    assert!(should_arm_caret_reprobe(Some(CaretSource::Cache)));
    assert!(should_arm_caret_reprobe(Some(CaretSource::System)));
    assert!(should_arm_caret_reprobe(None));
}

#[test]
fn adjacent_character_edge_selects_the_caret_x() {
    let rect = Rect {
        left: 120,
        top: 200,
        right: 140,
        bottom: 220,
    };
    assert_eq!(AdjacentChar::After.caret_position(&rect), (120, 220));
    assert_eq!(AdjacentChar::Before.caret_position(&rect), (140, 220));
}

#[test]
fn caret_monitor_sanity_rejects_other_monitor_coordinates() {
    let monitor = Rect {
        left: -1920,
        top: 0,
        right: 0,
        bottom: 1080,
    };
    assert!(caret_is_inside_monitor(-100, 500, &monitor));
    assert!(caret_is_inside_monitor(-1920, 0, &monitor));
    assert!(caret_is_inside_monitor(0, 500, &monitor));
    assert!(caret_is_inside_monitor(-100, 1080, &monitor));
    assert!(!caret_is_inside_monitor(1, 500, &monitor));
    assert!(!caret_is_inside_monitor(-100, 1081, &monitor));
    assert!(!caret_is_inside_monitor(100, 500, &monitor));
}

#[test]
fn embedded_preedit_goes_into_document() {
    assert_eq!(
        plan_composition(&state_with_preedit("ni"), true),
        CompositionPlan {
            commit: false,
            target: CompositionTarget::Preedit,
        }
    );
}

#[test]
fn embedded_without_preedit_ends_composition() {
    assert_eq!(
        plan_composition(&empty_state(), true),
        CompositionPlan {
            commit: false,
            target: CompositionTarget::Absent,
        }
    );
}

#[test]
fn panel_mode_keeps_empty_anchor() {
    assert_eq!(
        plan_composition(&state_with_preedit("ni"), false),
        CompositionPlan {
            commit: false,
            target: CompositionTarget::Empty,
        }
    );
}

#[test]
fn panel_mode_anchors_on_candidates_only() {
    assert_eq!(
        plan_composition(&state_with_candidate("你"), false),
        CompositionPlan {
            commit: false,
            target: CompositionTarget::Empty,
        }
    );
}

#[test]
fn commit_only_ends_composition_in_both_modes() {
    let state = state_with_commit("，");
    let expected = CompositionPlan {
        commit: true,
        target: CompositionTarget::Absent,
    };
    assert_eq!(plan_composition(&state, true), expected);
    assert_eq!(plan_composition(&state, false), expected);
}

#[test]
fn top_up_restarts_composition_in_both_modes() {
    let state = state_with_commit_and_preedit("缤", "c");
    assert_eq!(
        plan_composition(&state, true),
        CompositionPlan {
            commit: true,
            target: CompositionTarget::Preedit,
        }
    );
    assert_eq!(
        plan_composition(&state, false),
        CompositionPlan {
            commit: true,
            target: CompositionTarget::Empty,
        }
    );
}

#[test]
fn embedded_plan_matches_legacy_behaviour() {
    for state in [
        empty_state(),
        state_with_candidate("你"),
        state_with_preedit("ni"),
        state_with_commit_and_preedit("你", "hao"),
    ] {
        let plan = plan_composition(&state, true);
        assert_eq!(
            plan.target,
            if state.preedit.is_empty() {
                CompositionTarget::Absent
            } else {
                CompositionTarget::Preedit
            }
        );
    }
}

#[test]
fn consumes_when_rime_accepts_key() {
    assert!(should_consume_processed_state(true, &empty_state(), &empty_state()));
}

#[test]
fn consumes_when_candidates_become_visible_even_if_rime_passes() {
    assert!(should_consume_processed_state(
        false,
        &empty_state(),
        &state_with_candidate("candidate")
    ));
}

#[test]
fn consumes_when_existing_composition_is_cleared() {
    assert!(should_consume_processed_state(
        false,
        &state_with_preedit("ni"),
        &empty_state()
    ));
}

#[test]
fn consumes_when_commit_is_available_even_if_rime_passes() {
    assert!(should_consume_processed_state(
        false,
        &empty_state(),
        &state_with_commit("commit")
    ));
}

#[test]
fn passes_plain_key_when_rime_passes_without_ime_state() {
    assert!(!should_consume_processed_state(false, &empty_state(), &empty_state()));
}

#[test]
fn passes_shortcuts_rime_declined_while_composing() {
    assert!(!should_consume_processed_state(
        false,
        &state_with_preedit("ni"),
        &state_with_preedit("ni")
    ));
}

#[test]
fn fallback_printable_mapping_respects_shift() {
    assert_eq!(fallback_printable_keysym(VK_1, 0), Some('1' as u32));
    assert_eq!(fallback_printable_keysym(VK_1, RIME_MOD_SHIFT), Some('!' as u32));
    assert_eq!(fallback_printable_keysym(VK_OEM_1, RIME_MOD_SHIFT), Some(':' as u32));
}

#[test]
fn unicode_keysym_uses_x11_unicode_encoding() {
    assert_eq!(unicode_to_keysym('a'), 0x61);
    assert_eq!(unicode_to_keysym('键'), 0x0100_0000 | '键' as u32);
}

#[test]
fn compartment_reads_fail_closed() {
    assert_eq!(compartment_probe(None), ContextProbe::Unknown);
    assert_eq!(compartment_probe(Some(CompartmentValue::Empty)), ContextProbe::Clear);
    assert_eq!(compartment_probe(Some(CompartmentValue::Int(0))), ContextProbe::Clear);
    assert_eq!(compartment_probe(Some(CompartmentValue::Int(1))), ContextProbe::Restricted);
    assert_eq!(compartment_probe(Some(CompartmentValue::Other)), ContextProbe::Unknown);
    assert!(keyboard_is_open(None));
    assert!(!keyboard_is_open(Some(CompartmentValue::Int(0))));
    assert!(keyboard_is_open(Some(CompartmentValue::Other)));
    assert_eq!(
        compartments_block_reason(ContextProbe::Unknown, ContextProbe::Restricted),
        Some(InputBlockReason::ContextDisabled)
    );
    assert_eq!(
        compartments_block_reason(ContextProbe::Unknown, ContextProbe::Clear),
        Some(InputBlockReason::ProbeFailed)
    );
    assert_eq!(compartments_block_reason(ContextProbe::Clear, ContextProbe::Unavailable), None);
}

#[test]
fn input_scope_reads_map_to_probes() {
    assert_eq!(input_scopes_probe(true, None, 3), ContextProbe::Clear);
    assert_eq!(input_scopes_probe(false, None, 0), ContextProbe::Clear);
    assert_eq!(input_scopes_probe(false, None, 2), ContextProbe::Unknown);
    assert_eq!(
        input_scopes_probe(false, Some(&[IS_DEFAULT, IS_PRIVATE]), 2),
        ContextProbe::Restricted
    );
    assert_eq!(input_scopes_probe(false, Some(&[IS_URL]), 1), ContextProbe::Clear);
    assert_eq!(ContextProbe::declared(true), ContextProbe::Restricted);
    assert_eq!(ContextProbe::declared(false), ContextProbe::Clear);
}

#[test]
fn dll_references_count_objects_and_locks() {
    let mut dll = DllState::new();
    obj_add(&mut dll);
    assert!(!can_unload(&dll));
    lock_server(&mut dll, true);
    obj_release(&mut dll);
    assert!(!can_unload(&dll));
    lock_server(&mut dll, false);
    assert!(can_unload(&dll));
}

#[test]
fn virtual_screen_needs_a_positive_size() {
    assert_eq!(
        virtual_screen_from_metrics(-1920, 0, 3840, 1080),
        Some(Rect {
            left: -1920,
            top: 0,
            right: 1920,
            bottom: 1080
        })
    );
    assert_eq!(virtual_screen_from_metrics(0, 0, 0, 1080), None);
    assert_eq!(virtual_screen_from_metrics(i32::MAX, 0, 10, 10), None);
}

#[test]
fn letters_and_layout_answers_become_keysyms() {
    assert_eq!(vk_to_keysym(VK_A, 0, None, PrintableTranslation::Unavailable), Some(0x61));
    assert_eq!(vk_to_keysym(VK_A, RIME_MOD_SHIFT, None, PrintableTranslation::Unavailable), Some(0x41));
    assert_eq!(vk_to_keysym(VK_1, 0, None, PrintableTranslation::DeadKey), None);
    assert_eq!(vk_to_keysym(VK_1, 0, None, PrintableTranslation::Character(0x31)), Some(0x31));
    assert_eq!(vk_to_keysym(VK_1, RIME_MOD_SHIFT, None, PrintableTranslation::Unavailable), Some(0x21));
    assert_eq!(vk_to_keysym(VK_RETURN, 0, None, PrintableTranslation::Unavailable), Some(0xFF0D));
    assert_eq!(vk_to_keysym(VK_PACKET, 0, Some(0x4E2D), PrintableTranslation::Unavailable), Some(0x4E2D));
    assert_eq!(classify_translation(-1, 0), PrintableTranslation::DeadKey);
    assert_eq!(classify_translation(2, 0x41), PrintableTranslation::Unavailable);
    assert_eq!(classify_translation(1, 0xD800), PrintableTranslation::Unavailable);
    assert_eq!(classify_translation(1, 0x4E2D), PrintableTranslation::Character(0x0100_4E2D));
    assert_eq!(packet_keysym_from(1, 0xF003), Some(XK_PAGE_DOWN));
    assert_eq!(packet_keysym_from(0, 0x41), None);
}

#[test]
fn shortcuts_and_shift_are_never_eaten() {
    assert!(!should_eat_key(VK_A, true, 0x4, None));
    assert!(!should_eat_key(VK_A, false, 0x8, None));
    assert!(!should_eat_key(VK_LSHIFT, true, 0, None));
    assert!(is_shift_vk(VK_LSHIFT));
    assert!(should_eat_key(VK_A, false, 0, None));
    assert!(!should_eat_key(VK_1, false, 0, None));
    assert!(should_eat_key(VK_1, true, 0, None));
    assert!(should_eat_key(VK_F4, false, 0, None));
    assert!(should_eat_key(VK_PACKET, false, 0, Some(XK_PAGE_DOWN)));
    assert!(!should_eat_key(VK_PACKET, false, 0, Some(0x61)));
}

#[test]
fn menu_actions_launch_their_uris() {
    assert_eq!(AppAction::OpenApp.uri(), "keytao://ime/open");
    assert_eq!(AppAction::Redeploy.uri(), "keytao://ime/redeploy");
}
