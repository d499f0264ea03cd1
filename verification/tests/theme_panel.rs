use keytao_ime::ime_state::{Candidate, ImeState};
use keytao_ime::theme_document::{ime_ui_settings_document, theme_ui_document, ThemeDocumentError};
use keytao_ime::panel::{
    candidate_display_text, lookup_table, state_to_panel_input, state_to_panel_model,
    CandidateOptionModel, CandidatePanelInput, PanelStyle, ThemeCandidate,
};
use keytao_ime::theme::{
    color_scheme_name, effective_color_scheme, keeps_custom_layer, normalize_hex_color, opaque,
    orientation_name, parse_color, parse_effective_color_scheme, rgba, theme_ui_update,
    with_alpha, AccentEdit, EffectiveColorScheme, PanelOrientation, PartialUiTheme,
    RgbaColor, ThemeUiUpdate, UiCapabilities, UiColorScheme, UiTheme, THEME_SCHEMA_VERSION,
};

fn input(candidates: Vec<ThemeCandidate>, highlighted: usize) -> CandidatePanelInput {
    CandidatePanelInput {
        preedit: "abc".to_string(),
        candidates,
        highlighted_candidate_index: highlighted,
        page: 0,
        is_last_page: true,
        select_keys: None,
    }
}

fn candidate(text: &str, comment: Option<&str>) -> ThemeCandidate {
    ThemeCandidate {
        text: text.to_string(),
        comment: comment.map(str::to_string),
    }
}

#[test]
fn candidate_model_uses_select_keys_and_capabilities() {
    let theme = PanelStyle::schema_default();
    let model = theme.candidate_panel_model(
        CandidatePanelInput {
            preedit: "abc".to_string(),
            candidates: vec![ThemeCandidate {
                text: "这".to_string(),
                comment: Some("~a".to_string()),
            }],
            highlighted_candidate_index: 0,
            page: 1,
            is_last_page: false,
            select_keys: Some("asdf".to_string()),
        },
        &UiCapabilities::full_custom(),
    );
    assert_eq!(model.preedit.as_deref(), Some("abc"));
    assert_eq!(model.candidates[0].label, "a.");
    assert!(model.candidates[0].selected);
    assert!(model.navigation.can_go_previous);
    assert!(model.navigation.can_go_next);
}

#[test]
fn night_mode_alias_selects_dark_scheme() {
    let mut ui = UiTheme::default();
    ui.apply(PartialUiTheme {
        night_mode: Some(true),
        ..PartialUiTheme::empty()
    });
    assert_eq!(ui.color_scheme, UiColorScheme::Dark);
}

#[test]
fn explicit_color_scheme_wins_over_night_mode() {
    let mut ui = UiTheme::default();
    ui.apply(PartialUiTheme {
        color_scheme: Some(UiColorScheme::Light),
        night_mode: Some(true),
        ..PartialUiTheme::empty()
    });
    assert_eq!(ui.color_scheme, UiColorScheme::Light);
    ui.apply(PartialUiTheme {
        night_mode: Some(false),
        ..PartialUiTheme::empty()
    });
    assert_eq!(ui.color_scheme, UiColorScheme::Light);
}

#[test]
fn later_ui_sections_override_earlier_ones_field_by_field() {
    let mut ui = UiTheme::default();
    assert_eq!(ui.color_scheme, UiColorScheme::Auto);
    assert!(!ui.embedded_composition);
    ui.apply(PartialUiTheme {
        accent_color: Some(rgba(0x12, 0x34, 0x56, 0xff)),
        embedded_composition: Some(true),
        ..PartialUiTheme::empty()
    });
    let before = ui;
    ui.apply(PartialUiTheme::empty());
    assert_eq!(ui, before);
    ui.apply(PartialUiTheme {
        color_scheme: Some(UiColorScheme::Dark),
        ..PartialUiTheme::empty()
    });
    assert_eq!(ui.accent_color, Some(rgba(0x12, 0x34, 0x56, 0xff)));
    assert!(ui.embedded_composition);
    assert_eq!(ui.color_scheme, UiColorScheme::Dark);
}

#[test]
fn a_dark_scheme_is_dark_whatever_the_system() {
    assert_eq!(
        effective_color_scheme(UiColorScheme::Dark, EffectiveColorScheme::Light),
        EffectiveColorScheme::Dark
    );
    assert_eq!(
        effective_color_scheme(UiColorScheme::Light, EffectiveColorScheme::Dark),
        EffectiveColorScheme::Light
    );
}

#[test]
fn auto_follows_the_system_scheme() {
    assert_eq!(
        effective_color_scheme(UiColorScheme::Auto, EffectiveColorScheme::Dark),
        EffectiveColorScheme::Dark
    );
    assert_eq!(
        effective_color_scheme(UiColorScheme::Auto, EffectiveColorScheme::Light),
        EffectiveColorScheme::Light
    );
}

#[test]
fn system_scheme_settings_parse_in_any_case() {
    assert_eq!(parse_effective_color_scheme(" Dark\n"), Some(EffectiveColorScheme::Dark));
    assert_eq!(parse_effective_color_scheme("NIGHT"), Some(EffectiveColorScheme::Dark));
    assert_eq!(parse_effective_color_scheme("light"), Some(EffectiveColorScheme::Light));
    assert_eq!(parse_effective_color_scheme("Day"), Some(EffectiveColorScheme::Light));
    assert_eq!(parse_effective_color_scheme("dusk"), None);
    assert_eq!(parse_effective_color_scheme(""), None);
}

#[test]
fn theme_colors_parse_words_and_hex() {
    assert_eq!(parse_color("transparent"), Some(rgba(0, 0, 0, 0)));
    assert_eq!(parse_color(" Clear "), Some(rgba(0, 0, 0, 0)));
    assert_eq!(parse_color("BLACK"), Some(rgba(0, 0, 0, 255)));
    assert_eq!(parse_color("white"), Some(rgba(255, 255, 255, 255)));
    assert_eq!(parse_color("#010203"), Some(rgba(0x01, 0x02, 0x03, 0xff)));
    assert_eq!(parse_color("#10203040"), Some(rgba(0x10, 0x20, 0x30, 0x40)));
    assert_eq!(parse_color("  #5da7D7 "), Some(rgba(0x5d, 0xa7, 0xd7, 0xff)));
    assert_eq!(parse_color("#+12345"), Some(rgba(0x01, 0x23, 0x45, 0xff)));
    assert_eq!(parse_color("#12345"), None);
    assert_eq!(parse_color("#1234567"), None);
    assert_eq!(parse_color("#12345g"), None);
    assert_eq!(parse_color("123456"), None);
    assert_eq!(parse_color("#"), None);
    assert_eq!(parse_color("red"), None);
}

#[test]
fn color_helpers_only_touch_alpha() {
    let color = RgbaColor {
        red: 1,
        green: 2,
        blue: 3,
        alpha: 4,
    };
    assert_eq!(opaque(color), rgba(1, 2, 3, 255));
    assert_eq!(with_alpha(color, 9), rgba(1, 2, 3, 9));
}

#[test]
fn accent_colors_normalize_to_upper_case() {
    assert_eq!(normalize_hex_color("#3b73d9").as_deref(), Ok("#3B73D9"));
    assert_eq!(normalize_hex_color(" 123abc ").as_deref(), Ok("#123ABC"));
    assert_eq!(
        normalize_hex_color("#12345").unwrap_err(),
        "主题色必须是 #RRGGBB 格式"
    );
    assert!(normalize_hex_color("#12345z").is_err());
    assert!(normalize_hex_color("##123456").is_err());
    assert!(normalize_hex_color("#12345678").is_err());
}

#[test]
fn mobile_theme_update_keeps_removes_or_stores_the_accent() {
    assert_eq!(
        theme_ui_update(UiColorScheme::Dark, None),
        Ok(ThemeUiUpdate {
            color_scheme: UiColorScheme::Dark,
            accent: AccentEdit::Keep
        })
    );
    assert_eq!(
        theme_ui_update(UiColorScheme::Auto, Some(String::new())),
        Ok(ThemeUiUpdate {
            color_scheme: UiColorScheme::Auto,
            accent: AccentEdit::Remove
        })
    );
    assert_eq!(
        theme_ui_update(UiColorScheme::Auto, Some("   ".to_string())),
        Ok(ThemeUiUpdate {
            color_scheme: UiColorScheme::Auto,
            accent: AccentEdit::Remove
        })
    );
    assert_eq!(
        theme_ui_update(UiColorScheme::Dark, Some("#123456".to_string())),
        Ok(ThemeUiUpdate {
            color_scheme: UiColorScheme::Dark,
            accent: AccentEdit::Store("#123456".to_string())
        })
    );
    assert!(theme_ui_update(UiColorScheme::Light, Some("blue".to_string())).is_err());
    assert_eq!(color_scheme_name(UiColorScheme::Auto), "auto");
    assert_eq!(color_scheme_name(UiColorScheme::Dark), "dark");
    assert_eq!(orientation_name(PanelOrientation::Horizontal), "horizontal");
    assert_eq!(THEME_SCHEMA_VERSION, 2);
}

#[test]
fn custom_layers_need_a_name_and_rows() {
    assert!(keeps_custom_layer("emoji", 2));
    assert!(!keeps_custom_layer("emoji", 0));
    assert!(!keeps_custom_layer("  ", 1));
    assert!(!keeps_custom_layer("letters", 1));
    assert!(!keeps_custom_layer("numbers", 1));
    assert!(!keeps_custom_layer("symbols", 1));
    assert!(keeps_custom_layer("symbols_marks", 1));
}

#[test]
fn labels_run_out_of_keys_into_numbers_and_selection_is_clamped() {
    let style = PanelStyle::schema_default();
    let mut candidates = Vec::new();
    for i in 0..12 {
        candidates.push(candidate(&format!("c{i}"), if i == 0 { Some("") } else { Some("x") }));
    }
    let model = style.candidate_panel_model(input(candidates, 99), &UiCapabilities::full_custom());
    let labels: Vec<&str> = model.candidates.iter().map(|c| c.label.as_str()).collect();
    assert_eq!(
        labels,
        ["1.", "2.", "3.", "4.", "5.", "6.", "7.", "8.", "9.", "0.", "11.", "12."]
    );
    assert_eq!(model.candidates[0].comment, None);
    assert_eq!(model.candidates[1].comment.as_deref(), Some("x"));
    let selected: Vec<usize> = model
        .candidates
        .iter()
        .filter(|c| c.selected)
        .map(|c| c.index)
        .collect();
    assert_eq!(selected, [11]);
    assert_eq!(model.orientation, PanelOrientation::Vertical);
    assert!(!model.navigation.can_go_previous);
    assert!(!model.navigation.can_go_next);
}

#[test]
fn an_empty_preedit_and_a_lookup_table_frontend_draw_horizontally() {
    let style = PanelStyle::schema_default();
    let mut panel_input = input(vec![candidate("你", None)], 0);
    panel_input.preedit = String::new();
    let model = style.candidate_panel_model(panel_input, &UiCapabilities::system_lookup_table());
    assert_eq!(model.preedit, None);
    assert_eq!(model.orientation, PanelOrientation::Horizontal);
    assert!(model.capabilities.system_lookup_table_only);
    assert!(!model.capabilities.vertical);
    let empty = style.candidate_panel_model(input(Vec::new(), 3), &UiCapabilities::default());
    assert!(empty.candidates.is_empty());
}

#[test]
fn mode_hint_shows_the_mode_just_entered() {
    let style = PanelStyle::schema_default();
    assert_eq!(style.mode_hint_model(true).text, "英");
    assert_eq!(style.mode_hint_model(false).text, "中");
    assert!(style.mode_hint_model(true).ascii_mode);
}

#[test]
fn lookup_table_rows_follow_the_model() {
    let mut state = ImeState::empty();
    state.preedit = "ni".to_owned();
    state.candidates = vec![
        Candidate {
            text: "你".to_owned(),
            comment: Some("ni".to_owned()),
        },
        Candidate {
            text: "尼".to_owned(),
            comment: None,
        },
    ];
    state.highlighted_candidate_index = 1;
    state.page = 2;
    state.is_last_page = false;
    let model = state_to_panel_model(&state, &PanelStyle::schema_default());
    assert!(!model.candidates.is_empty());
    let table = lookup_table(&model);
    assert_eq!(table.labels, ["1.", "2."]);
    assert_eq!(table.candidates, ["你 ni", "尼"]);
    assert_eq!(table.cursor, 1);
    assert_eq!(table.page_size, 2);
    assert!(table.has_prev);
    assert!(table.has_next);

    let input = state_to_panel_input(&state);
    assert_eq!(input.preedit, "ni");
    assert_eq!(input.candidates.len(), 2);
    assert_eq!(input.candidates[0].comment.as_deref(), Some("ni"));
    assert_eq!(input.page, 2);
}

#[test]
fn lookup_table_page_size_stays_between_one_and_sixteen() {
    let style = PanelStyle::schema_default();
    let none = lookup_table(&style.candidate_panel_model(input(Vec::new(), 0), &UiCapabilities::default()));
    assert_eq!(none.page_size, 1);
    assert_eq!(none.cursor, 0);
    let many: Vec<ThemeCandidate> = (0..20).map(|i| candidate(&format!("{i}"), None)).collect();
    let table = lookup_table(&style.candidate_panel_model(input(many, 5), &UiCapabilities::default()));
    assert_eq!(table.page_size, 16);
    assert_eq!(table.cursor, 5);
}

#[test]
fn display_text_appends_the_comment_after_a_space() {
    let option = CandidateOptionModel {
        index: 0,
        label: "1.".to_string(),
        text: "你".to_string(),
        comment: Some("~ni".to_string()),
        selected: true,
    };
    assert_eq!(candidate_display_text(&option), "你 ~ni");
    let bare = CandidateOptionModel {
        comment: None,
        ..option
    };
    assert_eq!(candidate_display_text(&bare), "你");
}

#[test]
fn lookup_table_shows_its_cursor_without_wrapping_in_the_system_orientation() {
    let style = PanelStyle::schema_default();
    let table = lookup_table(&style.candidate_panel_model(
        input(vec![candidate("你", None)], 0),
        &UiCapabilities::system_lookup_table(),
    ));
    assert!(table.cursor_visible);
    assert!(!table.round);
    assert_eq!(table.orientation, 2);
}

fn yaml(text: &str) -> serde_yaml::Value {
    serde_yaml::from_str::<serde_yaml::Value>(text).expect("written document parses")
}

fn ui_entry<'a>(root: &'a serde_yaml::Value, key: &str) -> Option<&'a serde_yaml::Value> {
    root.get("ui").and_then(|ui| ui.get(key))
}

#[test]
fn a_new_theme_document_gets_the_version_and_the_ui_choices() {
    let update = theme_ui_update(UiColorScheme::Dark, Some("#12aBcd".to_string())).unwrap();
    let text = theme_ui_document(None, &update).unwrap();
    let root = yaml(&text);
    assert_eq!(root.get("version").and_then(|v| v.as_u64()), Some(THEME_SCHEMA_VERSION as u64));
    assert_eq!(ui_entry(&root, "colorScheme").and_then(|v| v.as_str()), Some("dark"));
    assert_eq!(ui_entry(&root, "accentColor").and_then(|v| v.as_str()), Some("#12ABCD"));
}

#[test]
fn writing_ui_choices_keeps_every_other_key_and_an_existing_version() {
    let existing = "panel:\n  orientation: vertical\nversion: 1\nui:\n  accentColor: '#AABBCC'\n  extra: x\n";
    let update = theme_ui_update(UiColorScheme::Light, None).unwrap();
    let text = theme_ui_document(Some(existing), &update).unwrap();
    assert!(text.starts_with("panel:"));
    let root = yaml(&text);
    assert_eq!(root.get("version").and_then(|v| v.as_u64()), Some(1));
    assert_eq!(
        root.get("panel").and_then(|p| p.get("orientation")).and_then(|v| v.as_str()),
        Some("vertical")
    );
    assert_eq!(ui_entry(&root, "colorScheme").and_then(|v| v.as_str()), Some("light"));
    assert_eq!(ui_entry(&root, "accentColor").and_then(|v| v.as_str()), Some("#AABBCC"));
    assert_eq!(ui_entry(&root, "extra").and_then(|v| v.as_str()), Some("x"));
}

#[test]
fn a_blank_accent_removes_the_stored_one() {
    let existing = "ui:\n  accentColor: '#AABBCC'\n  colorScheme: dark\n  extra: 3\n";
    let update = theme_ui_update(UiColorScheme::Auto, Some("  ".to_string())).unwrap();
    let text = theme_ui_document(Some(existing), &update).unwrap();
    let root = yaml(&text);
    assert!(ui_entry(&root, "accentColor").is_none());
    assert_eq!(ui_entry(&root, "colorScheme").and_then(|v| v.as_str()), Some("auto"));
    assert_eq!(ui_entry(&root, "extra").and_then(|v| v.as_u64()), Some(3));
    assert_eq!(root.get("version").and_then(|v| v.as_u64()), Some(2));
}

#[test]
fn a_document_that_is_not_a_mapping_starts_over_and_a_broken_one_is_refused() {
    let update = theme_ui_update(UiColorScheme::Dark, None).unwrap();
    let text = theme_ui_document(Some("- 1\n- 2\n"), &update).unwrap();
    let root = yaml(&text);
    assert_eq!(root.get("version").and_then(|v| v.as_u64()), Some(2));
    assert_eq!(ui_entry(&root, "colorScheme").and_then(|v| v.as_str()), Some("dark"));
    let not_a_mapping_ui = theme_ui_document(Some("ui: 7\n"), &update).unwrap();
    assert_eq!(ui_entry(&yaml(&not_a_mapping_ui), "colorScheme").and_then(|v| v.as_str()), Some("dark"));
    assert!(matches!(
        theme_ui_document(Some("ui: [\n"), &update),
        Err(ThemeDocumentError::Parse(_))
    ));
}

#[test]
fn writing_every_ime_setting_keeps_the_rest_of_each_section() {
    let existing = "font:\n  family: Noto\npanel: 3\nother: keep\nui:\n  extra: 1\n";
    let size = serde_yaml::to_value(14.5f32).unwrap();
    let text = ime_ui_settings_document(
        Some(existing),
        UiColorScheme::Dark,
        PanelOrientation::Vertical,
        "#ABCDEF".to_string(),
        size,
    )
    .unwrap();
    let root = yaml(&text);
    assert_eq!(root.get("version").and_then(|v| v.as_u64()), Some(2));
    assert_eq!(root.get("other").and_then(|v| v.as_str()), Some("keep"));
    assert_eq!(ui_entry(&root, "colorScheme").and_then(|v| v.as_str()), Some("dark"));
    assert_eq!(ui_entry(&root, "accentColor").and_then(|v| v.as_str()), Some("#ABCDEF"));
    assert_eq!(ui_entry(&root, "extra").and_then(|v| v.as_u64()), Some(1));
    assert_eq!(
        root.get("panel").and_then(|p| p.get("orientation")).and_then(|v| v.as_str()),
        Some("vertical")
    );
    let font = root.get("font").unwrap();
    assert_eq!(font.get("family").and_then(|v| v.as_str()), Some("Noto"));
    assert_eq!(font.get("size").and_then(|v| v.as_f64()), Some(14.5));
    assert!(matches!(
        ime_ui_settings_document(
            Some("font: {"),
            UiColorScheme::Auto,
            PanelOrientation::Horizontal,
            "#000000".to_string(),
            serde_yaml::to_value(12.0f32).unwrap(),
        ),
        Err(ThemeDocumentError::Parse(_))
    ));
}
