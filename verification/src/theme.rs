//! The theme language shared by every frontend: colors as theme documents
//! write them, color schemes, the `ui` section and how overlays merge into it,
//! and the accent setting the settings app writes back.
use vstd::prelude::*;
use vstd::string::*;
use crate::text::{
    trim, trim_str, ascii_upper, eq_ignore_ascii_case, str_eq_ignore_ascii_case, has_prefix,
    strip_prefix, is_hex_digit, hex_value, hex_digit_value, str_eq,
};

verus! {

broadcast use vstd::seq::group_seq_axioms;

/// The schema version written into theme documents.
pub const THEME_SCHEMA_VERSION: u32 = 2;

/// How the candidate list is laid out.
#[derive(Clone, Copy, Debug, PartialEq, Eq, Structural)]
pub enum PanelOrientation {
    Horizontal,
    Vertical,
}

/// The color scheme a theme asks for.
#[derive(Clone, Copy, Debug, PartialEq, Eq, Structural)]
pub enum UiColorScheme {
    /// Follow the system.
    Auto,
    Light,
    Dark,
}

/// The color scheme actually in force.
#[derive(Clone, Copy, Debug, PartialEq, Eq, Structural)]
pub enum EffectiveColorScheme {
    Light,
    Dark,
}

/// An 8-bit RGBA color.
#[derive(Clone, Copy, Debug, PartialEq, Eq, Structural)]
pub struct RgbaColor {
    pub red: u8,
    pub green: u8,
    pub blue: u8,
    pub alpha: u8,
}

pub open spec fn spec_rgba(red: nat, green: nat, blue: nat, alpha: nat) -> RgbaColor {
    RgbaColor { red: red as u8, green: green as u8, blue: blue as u8, alpha: alpha as u8 }
}

/// A color from its four channels.
pub fn rgba(red: u8, green: u8, blue: u8, alpha: u8) -> (c: RgbaColor)
    ensures
        c == (RgbaColor { red, green, blue, alpha }),
{
    RgbaColor { red, green, blue, alpha }
}

/// The same color with another alpha.
pub fn with_alpha(color: RgbaColor, alpha: u8) -> (c: RgbaColor)
    ensures
        c == (RgbaColor { alpha, ..color }),
{
    rgba(color.red, color.green, color.blue, alpha)
}

/// The same color, fully opaque.
pub fn opaque(color: RgbaColor) -> (c: RgbaColor)
    ensures
        c == (RgbaColor { alpha: 255, ..color }),
{
    with_alpha(color, 0xff)
}

/// Every character is an ASCII hexadecimal digit.
pub open spec fn all_hex(s: Seq<char>) -> bool {
    forall|i: int| 0 <= i < s.len() ==> is_hex_digit(#[trigger] s[i])
}

/// The number hexadecimal digits spell, most significant first.
pub open spec fn hex_number(s: Seq<char>) -> nat
    decreases s.len(),
{
    if s.len() == 0 {
        0
    } else {
        hex_number(s.drop_last()) * 16 + hex_value(s.last())
    }
}

/// The digits `u32::from_str_radix(_, 16)` reads: an optional leading `+`
/// is a sign, not a digit.
pub open spec fn radix16_digits(s: Seq<char>) -> Seq<char> {
    if s.len() > 0 && s[0] == '+' {
        s.drop_first()
    } else {
        s
    }
}

/// `u32::from_str_radix(_, 16)` accepts the text (for at most eight digits,
/// which never overflow).
pub open spec fn radix16_ok(s: Seq<char>) -> bool {
    radix16_digits(s).len() > 0 && all_hex(radix16_digits(s))
}

/// The color a theme document's color value names: the words `transparent`,
/// `clear`, `black` and `white` in any ASCII case, `#RRGGBB` (opaque) or
/// `#RRGGBBAA`, with surrounding whitespace ignored.
pub open spec fn spec_parse_color(value: Seq<char>) -> Option<RgbaColor> {
    let v = trim(value);
    if eq_ignore_ascii_case(v, "transparent"@) || eq_ignore_ascii_case(v, "clear"@) {
        Some(spec_rgba(0, 0, 0, 0))
    } else if eq_ignore_ascii_case(v, "black"@) {
        Some(spec_rgba(0, 0, 0, 255))
    } else if eq_ignore_ascii_case(v, "white"@) {
        Some(spec_rgba(255, 255, 255, 255))
    } else if v.len() > 0 && v[0] == '#' {
        let hex = v.drop_first();
        if radix16_ok(hex) && hex.len() == 6 {
            let raw = hex_number(radix16_digits(hex));
            Some(spec_rgba((raw / 0x10000) % 256, (raw / 0x100) % 256, raw % 256, 255))
        } else if radix16_ok(hex) && hex.len() == 8 {
            let raw = hex_number(radix16_digits(hex));
            Some(spec_rgba((raw / 0x1000000) % 256, (raw / 0x10000) % 256, (raw / 0x100) % 256, raw % 256))
        } else {
            None
        }
    } else {
        None
    }
}

proof fn lemma_hex_number_step(s: Seq<char>, i: int)
    requires
        0 <= i < s.len(),
    ensures
        hex_number(s.subrange(0, i + 1)) == hex_number(s.subrange(0, i)) * 16 + hex_value(s[i]),
{
    assert(s.subrange(0, i + 1).drop_last() =~= s.subrange(0, i));
}

/// Sixteen to the `n`.
pub open spec fn pow16(n: nat) -> nat
    decreases n,
{
    if n == 0 {
        1
    } else {
        16 * pow16((n - 1) as nat)
    }
}

proof fn lemma_pow16_monotone(i: nat, j: nat)
    requires
        i <= j,
    ensures
        pow16(i) <= pow16(j),
    decreases j,
{
    if i < j {
        lemma_pow16_monotone(i, (j - 1) as nat);
    }
}

/// The value of up to eight hexadecimal digits, or `None` when one of them
/// is not a digit.
fn parse_hex_u32(digits: &str) -> (v: Option<u32>)
    requires
        digits@.len() <= 8,
    ensures
        match v {
            Some(x) => all_hex(digits@) && x == hex_number(digits@),
            None => !all_hex(digits@),
        },
{
    let n = digits.unicode_len();
    let mut raw: u32 = 0;
    let mut i: usize = 0;
    assert(pow16(8) == 0x1_0000_0000) by {
        reveal_with_fuel(pow16, 9);
    }
    while i < n
        invariant
            n == digits@.len(),
            n <= 8,
            i <= n,
            pow16(8) == 0x1_0000_0000,
            forall|k: int| 0 <= k < i ==> is_hex_digit(#[trigger] digits@[k]),
            raw == hex_number(digits@.subrange(0, i as int)),
            raw < pow16(i as nat),
        decreases n - i,
    {
        let c = digits.get_char(i);
        match hex_digit_value(c) {
            Some(d) => {
                proof {
                    lemma_hex_number_step(digits@, i as int);
                    lemma_pow16_monotone((i + 1) as nat, 8);
                    let p = pow16(i as nat);
                    assert(raw * 16 + d < p * 16) by (nonlinear_arith)
                        requires
                            raw < p,
                            d < 16,
                    ;
                }
                raw = raw * 16 + d;
            },
            None => {
                return None;
            },
        }
        i = i + 1;
    }
    assert(digits@.subrange(0, n as int) =~= digits@);
    Some(raw)
}

/// The color a theme document's color value names.
pub fn parse_color(value: &str) -> (c: Option<RgbaColor>)
    ensures
        c == spec_parse_color(value@),
{
    let v = trim_str(value);
    if str_eq_ignore_ascii_case(v, "transparent") || str_eq_ignore_ascii_case(v, "clear") {
        return Some(rgba(0, 0, 0, 0));
    }
    if str_eq_ignore_ascii_case(v, "black") {
        return Some(rgba(0, 0, 0, 255));
    }
    if str_eq_ignore_ascii_case(v, "white") {
        return Some(rgba(255, 255, 255, 255));
    }
    let hex = match strip_prefix(v, "#") {
        Some(rest) => rest,
        None => {
            proof {
                reveal_strlit("#");
                if v@.len() > 0 && v@[0] == '#' {
                    assert(v@.subrange(0, 1) =~= "#"@);
                }
            }
            return None;
        },
    };
    proof {
        reveal_strlit("#");
        assert(v@[0] == '#') by {
            assert(v@.subrange(0, 1)[0] == "#"@[0]);
        }
        assert(hex@ =~= v@.drop_first());
    }
    let len = hex.unicode_len();
    if len != 6 && len != 8 {
        return None;
    }
    let digits = if len > 0 && hex.get_char(0) == '+' {
        hex.substring_char(1, len)
    } else {
        hex
    };
    assert(digits@ =~= radix16_digits(hex@));
    if digits.unicode_len() == 0 {
        return None;
    }
    let raw = match parse_hex_u32(digits) {
        Some(raw) => raw,
        None => {
            return None;
        },
    };
    if len == 6 {
        Some(rgba(((raw / 0x10000) % 256) as u8, ((raw / 0x100) % 256) as u8, (raw % 256) as u8, 255))
    } else {
        Some(
            rgba(
                ((raw / 0x1000000) % 256) as u8,
                ((raw / 0x10000) % 256) as u8,
                ((raw / 0x100) % 256) as u8,
                (raw % 256) as u8,
            ),
        )
    }
}

/// The message for an accent color that is not `#RRGGBB`.
pub open spec fn accent_format_message() -> Seq<char> {
    "主题色必须是 #RRGGBB 格式"@
}

/// The text after one leading `#`, if there is one.
pub open spec fn without_hash(s: Seq<char>) -> Seq<char> {
    if s.len() > 0 && s[0] == '#' {
        s.drop_first()
    } else {
        s
    }
}

/// An accent color in the canonical form the theme stores: `#` and six
/// upper-case hexadecimal digits; `None` when the text, trimmed and without
/// an optional leading `#`, is not six hexadecimal digits.
pub open spec fn spec_normalize_hex_color(value: Seq<char>) -> Option<Seq<char>> {
    let hex = without_hash(trim(value));
    if hex.len() == 6 && all_hex(hex) {
        Some(seq!['#'] + hex.map_values(|c: char| ascii_upper(c)))
    } else {
        None
    }
}

/// One hexadecimal digit, upper-cased, as a one-character string.
fn upper_hex_digit(c: char) -> (s: &'static str)
    requires
        is_hex_digit(c),
    ensures
        s@ == seq![ascii_upper(c)],
{
    let digits = "0123456789ABCDEF";
    proof {
        reveal_strlit("0123456789ABCDEF");
    }
    let d = match hex_digit_value(c) {
        Some(d) => d as usize,
        None => 0,
    };
    let one = digits.substring_char(d, d + 1);
    assert(one@ =~= seq![ascii_upper(c)]);
    one
}

/// `#RRGGBB` in upper case, or an error for anything that is not six
/// hexadecimal digits after trimming and an optional `#`.
pub fn normalize_hex_color(value: &str) -> (r: Result<String, String>)
    ensures
        match r {
            Ok(s) => spec_normalize_hex_color(value@) == Some(s@),
            Err(e) => spec_normalize_hex_color(value@) is None && e@ == accent_format_message(),
        },
{
    let t = trim_str(value);
    let hex = match strip_prefix(t, "#") {
        Some(rest) => {
            proof {
                reveal_strlit("#");
                assert(t@[0] == '#') by {
                    assert(t@.subrange(0, 1)[0] == "#"@[0]);
                }
                assert(rest@ =~= t@.drop_first());
            }
            rest
        },
        None => {
            proof {
                reveal_strlit("#");
                if t@.len() > 0 && t@[0] == '#' {
                    assert(t@.subrange(0, 1) =~= "#"@);
                }
            }
            t
        },
    };
    assert(hex@ == without_hash(trim(value@)));
    let n = hex.unicode_len();
    if n != 6 {
        return Err(String::from_str("主题色必须是 #RRGGBB 格式"));
    }
    let mut out = String::from_str("#");
    proof {
        reveal_strlit("#");
    }
    let mut i: usize = 0;
    while i < n
        invariant
            n == hex@.len(),
            hex@ == without_hash(trim(value@)),
            i <= n,
            forall|k: int| 0 <= k < i ==> is_hex_digit(#[trigger] hex@[k]),
            out@ =~= seq!['#'] + hex@.subrange(0, i as int).map_values(|c: char| ascii_upper(c)),
        decreases n - i,
    {
        let c = hex.get_char(i);
        if hex_digit_value(c).is_none() {
            assert(!is_hex_digit(hex@[i as int]));
            return Err(String::from_str("主题色必须是 #RRGGBB 格式"));
        }
        let one = upper_hex_digit(c);
        out.append(one);
        assert(hex@.subrange(0, i + 1).map_values(|c: char| ascii_upper(c))
            =~= hex@.subrange(0, i as int).map_values(|c: char| ascii_upper(c)).push(ascii_upper(hex@[i as int])));
        i = i + 1;
    }
    assert(hex@.subrange(0, n as int) =~= hex@);
    Ok(out)
}

/// What a settings write does to the stored accent color.
#[derive(Clone, Debug, PartialEq, Eq)]
pub enum AccentEdit {
    /// Leave `ui.accentColor` as it is.
    Keep,
    /// Remove `ui.accentColor`.
    Remove,
    /// Store this canonical `#RRGGBB`.
    Store(String),
}

/// The `ui` settings a settings write stores.
#[derive(Clone, Debug, PartialEq, Eq)]
pub struct ThemeUiUpdate {
    pub color_scheme: UiColorScheme,
    pub accent: AccentEdit,
}

/// The settings write the app asked for: `None` keeps the accent, a blank
/// text removes it, anything else must be a `#RRGGBB` color and is stored in
/// canonical form; a malformed color refuses the whole write.
pub fn theme_ui_update(color_scheme: UiColorScheme, accent_color: Option<String>) -> (r: Result<ThemeUiUpdate, String>)
    ensures
        match accent_color {
            None => r == Ok::<ThemeUiUpdate, String>(ThemeUiUpdate { color_scheme, accent: AccentEdit::Keep }),
            Some(v) => if trim(v@).len() == 0 {
                r == Ok::<ThemeUiUpdate, String>(ThemeUiUpdate { color_scheme, accent: AccentEdit::Remove })
            } else {
                match r {
                    Ok(u) => u.color_scheme == color_scheme && (u.accent matches AccentEdit::Store(s)
                        && spec_normalize_hex_color(v@) == Some(s@)),
                    Err(e) => spec_normalize_hex_color(v@) is None && e@ == accent_format_message(),
                }
            },
        },
{
    match accent_color {
        None => Ok(ThemeUiUpdate { color_scheme, accent: AccentEdit::Keep }),
        Some(value) => {
            if trim_str(value.as_str()).unicode_len() == 0 {
                Ok(ThemeUiUpdate { color_scheme, accent: AccentEdit::Remove })
            } else {
                match normalize_hex_color(value.as_str()) {
                    Ok(hex) => Ok(ThemeUiUpdate { color_scheme, accent: AccentEdit::Store(hex) }),
                    Err(e) => Err(e),
                }
            }
        },
    }
}

/// The name a theme document stores for a color scheme.
pub fn color_scheme_name(scheme: UiColorScheme) -> (name: &'static str)
    ensures
        name@ == match scheme {
            UiColorScheme::Auto => "auto"@,
            UiColorScheme::Light => "light"@,
            UiColorScheme::Dark => "dark"@,
        },
{
    match scheme {
        UiColorScheme::Auto => "auto",
        UiColorScheme::Light => "light",
        UiColorScheme::Dark => "dark",
    }
}

/// The name a theme document stores for an orientation.
pub fn orientation_name(orientation: PanelOrientation) -> (name: &'static str)
    ensures
        name@ == match orientation {
            PanelOrientation::Horizontal => "horizontal"@,
            PanelOrientation::Vertical => "vertical"@,
        },
{
    match orientation {
        PanelOrientation::Horizontal => "horizontal",
        PanelOrientation::Vertical => "vertical",
    }
}

/// A system color-scheme setting: `dark` or `night`, `light` or `day`, in any
/// ASCII case and with surrounding whitespace.
pub open spec fn spec_parse_effective_color_scheme(value: Seq<char>) -> Option<EffectiveColorScheme> {
    let v = trim(value);
    if eq_ignore_ascii_case(v, "dark"@) || eq_ignore_ascii_case(v, "night"@) {
        Some(EffectiveColorScheme::Dark)
    } else if eq_ignore_ascii_case(v, "light"@) || eq_ignore_ascii_case(v, "day"@) {
        Some(EffectiveColorScheme::Light)
    } else {
        None
    }
}

/// Reads a system color-scheme setting.
pub fn parse_effective_color_scheme(value: &str) -> (s: Option<EffectiveColorScheme>)
    ensures
        s == spec_parse_effective_color_scheme(value@),
{
    let v = trim_str(value);
    if str_eq_ignore_ascii_case(v, "dark") || str_eq_ignore_ascii_case(v, "night") {
        Some(EffectiveColorScheme::Dark)
    } else if str_eq_ignore_ascii_case(v, "light") || str_eq_ignore_ascii_case(v, "day") {
        Some(EffectiveColorScheme::Light)
    } else {
        None
    }
}

pub open spec fn spec_effective_color_scheme(scheme: UiColorScheme, system: EffectiveColorScheme) -> EffectiveColorScheme {
    match scheme {
        UiColorScheme::Auto => system,
        UiColorScheme::Light => EffectiveColorScheme::Light,
        UiColorScheme::Dark => EffectiveColorScheme::Dark,
    }
}

/// The scheme in force: the theme's choice, or the system's under `auto`.
pub fn effective_color_scheme(scheme: UiColorScheme, system: EffectiveColorScheme) -> (e: EffectiveColorScheme)
    ensures
        e == spec_effective_color_scheme(scheme, system),
{
    match scheme {
        UiColorScheme::Auto => system,
        UiColorScheme::Light => EffectiveColorScheme::Light,
        UiColorScheme::Dark => EffectiveColorScheme::Dark,
    }
}

/// The resolved `ui` section of a theme.
#[derive(Clone, Copy, Debug, PartialEq, Eq)]
pub struct UiTheme {
    pub color_scheme: UiColorScheme,
    pub effective_color_scheme: EffectiveColorScheme,
    pub accent_color: Option<RgbaColor>,
    pub embedded_composition: bool,
}

/// The `ui` section of one theme document: each field it leaves out keeps
/// the value of the documents before it.
#[derive(Clone, Copy, Debug, PartialEq, Eq)]
pub struct PartialUiTheme {
    pub color_scheme: Option<UiColorScheme>,
    pub embedded_composition: Option<bool>,
    /// The older spelling of the scheme: `true` is dark, `false` light.
    pub night_mode: Option<bool>,
    pub accent_color: Option<RgbaColor>,
}

impl Default for UiTheme {
    fn default() -> (ui: Self)
        ensures
            ui.color_scheme == UiColorScheme::Auto,
            ui.effective_color_scheme == EffectiveColorScheme::Light,
            ui.accent_color is None,
            !ui.embedded_composition,
    {
        UiTheme {
            color_scheme: UiColorScheme::Auto,
            effective_color_scheme: EffectiveColorScheme::Light,
            accent_color: None,
            embedded_composition: false,
        }
    }
}

impl PartialUiTheme {
    /// A section that sets nothing.
    pub fn empty() -> (p: Self)
        ensures
            p == spec_empty_partial_ui(),
    {
        PartialUiTheme { color_scheme: None, embedded_composition: None, night_mode: None, accent_color: None }
    }
}

pub open spec fn spec_empty_partial_ui() -> PartialUiTheme {
    PartialUiTheme { color_scheme: None, embedded_composition: None, night_mode: None, accent_color: None }
}

/// A `ui` section laid over a resolved one: an explicit `colorScheme` wins
/// over `nightMode`; the effective scheme is resolved later.
pub open spec fn spec_apply_ui(ui: UiTheme, partial: PartialUiTheme) -> UiTheme {
    UiTheme {
        color_scheme: match partial.color_scheme {
            Some(scheme) => scheme,
            None => match partial.night_mode {
                Some(night) => if night { UiColorScheme::Dark } else { UiColorScheme::Light },
                None => ui.color_scheme,
            },
        },
        effective_color_scheme: ui.effective_color_scheme,
        accent_color: match partial.accent_color {
            Some(accent) => Some(accent),
            None => ui.accent_color,
        },
        embedded_composition: match partial.embedded_composition {
            Some(embedded) => embedded,
            None => ui.embedded_composition,
        },
    }
}

impl UiTheme {
    /// Lays one document's `ui` section over this one.
    pub fn apply(&mut self, partial: PartialUiTheme)
        ensures
            *final(self) == spec_apply_ui(*old(self), partial),
    {
        if let Some(color_scheme) = partial.color_scheme {
            self.color_scheme = color_scheme;
        } else if let Some(night_mode) = partial.night_mode {
            self.color_scheme = if night_mode {
                UiColorScheme::Dark
            } else {
                UiColorScheme::Light
            };
        }
        if let Some(accent_color) = partial.accent_color {
            self.accent_color = Some(accent_color);
        }
        if let Some(embedded_composition) = partial.embedded_composition {
            self.embedded_composition = embedded_composition;
        }
    }
}

/// A section that sets nothing leaves the resolved `ui` as it was.
pub proof fn lemma_empty_ui_section_changes_nothing(ui: UiTheme)
    ensures
        spec_apply_ui(ui, spec_empty_partial_ui()) == ui,
{
}

/// Laying the same section over twice is laying it over once.
pub proof fn lemma_ui_overlay_is_idempotent(ui: UiTheme, partial: PartialUiTheme)
    ensures
        spec_apply_ui(spec_apply_ui(ui, partial), partial) == spec_apply_ui(ui, partial),
{
}

/// What a later section sets wins over every earlier one.
pub proof fn lemma_later_ui_section_wins(ui: UiTheme, first: PartialUiTheme, second: PartialUiTheme)
    ensures
        second.color_scheme is Some ==> spec_apply_ui(spec_apply_ui(ui, first), second).color_scheme
            == second.color_scheme.unwrap(),
        second.accent_color is Some ==> spec_apply_ui(spec_apply_ui(ui, first), second).accent_color
            == second.accent_color,
        second.embedded_composition is Some ==> spec_apply_ui(spec_apply_ui(ui, first), second).embedded_composition
            == second.embedded_composition.unwrap(),
{
}

/// What a frontend can draw.
#[derive(Clone, Copy, Debug, PartialEq, Eq)]
pub struct UiCapabilities {
    pub supports_custom_colors: bool,
    pub supports_vertical: bool,
    pub supports_hover: bool,
    pub supports_shadow: bool,
    pub supports_separator: bool,
    /// The frontend only hands candidates to the system's own lookup table.
    pub system_lookup_table_only: bool,
}

impl Default for UiCapabilities {
    fn default() -> (c: Self)
        ensures
            !c.supports_custom_colors,
            !c.supports_vertical,
            !c.supports_hover,
            !c.supports_shadow,
            !c.supports_separator,
            !c.system_lookup_table_only,
    {
        UiCapabilities {
            supports_custom_colors: false,
            supports_vertical: false,
            supports_hover: false,
            supports_shadow: false,
            supports_separator: false,
            system_lookup_table_only: false,
        }
    }
}

impl UiCapabilities {
    /// A frontend that draws its own panel with every feature.
    pub fn full_custom() -> (c: Self)
        ensures
            c.supports_custom_colors,
            c.supports_vertical,
            c.supports_hover,
            c.supports_shadow,
            c.supports_separator,
            !c.system_lookup_table_only,
    {
        UiCapabilities {
            supports_custom_colors: true,
            supports_vertical: true,
            supports_hover: true,
            supports_shadow: true,
            supports_separator: true,
            system_lookup_table_only: false,
        }
    }

    /// A frontend that can only fill the system's lookup table.
    pub fn system_lookup_table() -> (c: Self)
        ensures
            !c.supports_custom_colors,
            !c.supports_vertical,
            !c.supports_hover,
            !c.supports_shadow,
            !c.supports_separator,
            c.system_lookup_table_only,
    {
        UiCapabilities { system_lookup_table_only: true, ..Self::default() }
    }
}

/// A custom layer of the mobile keyboard survives resolution: it has a
/// non-blank name that is not one of the built-in layers, and at least one
/// row.
pub open spec fn spec_keeps_custom_layer(name: Seq<char>, row_count: nat) -> bool {
    &&& trim(name).len() > 0
    &&& name != "letters"@
    &&& name != "numbers"@
    &&& name != "symbols"@
    &&& row_count > 0
}

/// Whether a custom keyboard layer is kept.
pub fn keeps_custom_layer(name: &str, row_count: usize) -> (keep: bool)
    ensures
        keep == spec_keeps_custom_layer(name@, row_count as nat),
{
    trim_str(name).unicode_len() > 0 && !str_eq(name, "letters") && !str_eq(name, "numbers")
        && !str_eq(name, "symbols") && row_count > 0
}

} // verus!
