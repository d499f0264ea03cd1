//! Writing the settings app's choices into a user's theme document.
//!
//! The document is YAML. It is parsed and written back by `serde_yaml`; the
//! edit in between is the library's: the schema version is added only when
//! the document has none, `ui.colorScheme` and `ui.accentColor` follow the
//! settings (and, for the full IME settings, `panel.orientation` and
//! `font.size`), and every other key keeps its value and its place.
use vstd::prelude::*;
use vstd::string::*;
use crate::theme::{color_scheme_name, orientation_name, AccentEdit, PanelOrientation, ThemeUiUpdate, UiColorScheme, THEME_SCHEMA_VERSION};

verus! {

broadcast use vstd::seq::group_seq_axioms;

/// `serde_yaml::Value`, carried through opaquely.
#[verifier::external_type_specification]
#[verifier::external_body]
pub struct ExYamlValue(serde_yaml::Value);

/// `serde_yaml::Mapping`; what it holds is `mapping_entries`.
#[verifier::external_type_specification]
#[verifier::external_body]
pub struct ExYamlMapping(serde_yaml::Mapping);

/// `serde_yaml::Error`, only ever turned into its message.
#[verifier::external_type_specification]
#[verifier::external_body]
pub struct ExYamlError(serde_yaml::Error);

/// What `serde_yaml::from_str::<Value>` makes of a text: `None` when it
/// refuses it.
pub uninterp spec fn yaml_parse(text: Seq<char>) -> Option<serde_yaml::Value>;

/// What `serde_yaml::to_string` makes of a mapping: `None` when it fails.
pub uninterp spec fn yaml_render(mapping: serde_yaml::Mapping) -> Option<Seq<char>>;

/// The entries of a mapping, keys with their values, in the mapping's order.
pub uninterp spec fn mapping_entries(mapping: serde_yaml::Mapping) -> Seq<(serde_yaml::Value, serde_yaml::Value)>;

/// `Value::String` of a text.
pub uninterp spec fn yaml_string(text: Seq<char>) -> serde_yaml::Value;

/// `Value::Mapping` of a mapping.
pub uninterp spec fn yaml_mapping(mapping: serde_yaml::Mapping) -> serde_yaml::Value;

/// `Value::Number` of an unsigned integer.
pub uninterp spec fn yaml_u32(n: u32) -> serde_yaml::Value;

/// The entries of a mapping, in order.
pub type YamlEntries = Seq<(serde_yaml::Value, serde_yaml::Value)>;

/// No key occurs twice.
pub open spec fn keys_distinct(e: YamlEntries) -> bool {
    forall|i: int, j: int| 0 <= i < j < e.len() ==> e[i].0 != e[j].0
}

/// The position of `key`, or -1 when it is not a key.
pub open spec fn index_of_key(e: YamlEntries, key: serde_yaml::Value) -> int
    decreases e.len(),
{
    if e.len() == 0 {
        -1
    } else if e.last().0 == key {
        e.len() - 1
    } else {
        index_of_key(e.drop_last(), key)
    }
}

/// The value under `key`.
pub open spec fn lookup(e: YamlEntries, key: serde_yaml::Value) -> Option<serde_yaml::Value> {
    let i = index_of_key(e, key);
    if i >= 0 {
        Some(e[i].1)
    } else {
        None
    }
}

/// `Mapping::insert`: a present key keeps its place and gets the new value,
/// a new key goes last.
pub open spec fn insert_entry(e: YamlEntries, key: serde_yaml::Value, value: serde_yaml::Value) -> YamlEntries {
    let i = index_of_key(e, key);
    if i >= 0 {
        e.update(i, (e[i].0, value))
    } else {
        e.push((key, value))
    }
}

/// `Mapping::remove`: the entry is swapped with the last one, which is then
/// popped.
pub open spec fn remove_entry(e: YamlEntries, key: serde_yaml::Value) -> YamlEntries {
    let i = index_of_key(e, key);
    if i >= 0 {
        e.update(i, e.last()).drop_last()
    } else {
        e
    }
}

/// The entries a value holds when it is a mapping, and none otherwise.
pub open spec fn mapping_entries_of(value: Option<serde_yaml::Value>) -> YamlEntries {
    match value {
        Some(v) => if exists|m: serde_yaml::Mapping| v == yaml_mapping(m) {
            mapping_entries(choose|m: serde_yaml::Mapping| v == yaml_mapping(m))
        } else {
            Seq::empty()
        },
        None => Seq::empty(),
    }
}

/// The root entries of an existing document (none without a document, none
/// when its root is not a mapping), or `None` when it does not parse.
pub open spec fn document_root(existing: Option<Seq<char>>) -> Option<YamlEntries> {
    match existing {
        None => Some(Seq::empty()),
        Some(text) => match yaml_parse(text) {
            None => None,
            Some(v) => Some(mapping_entries_of(Some(v))),
        },
    }
}

/// The name a color scheme is stored under.
pub open spec fn scheme_name(scheme: UiColorScheme) -> Seq<char> {
    match scheme {
        UiColorScheme::Auto => "auto"@,
        UiColorScheme::Light => "light"@,
        UiColorScheme::Dark => "dark"@,
    }
}

/// The `ui` section after the update.
pub open spec fn edited_ui(ui: YamlEntries, update: ThemeUiUpdate) -> YamlEntries {
    let with_scheme = insert_entry(ui, yaml_string("colorScheme"@), yaml_string(scheme_name(update.color_scheme)));
    match update.accent {
        AccentEdit::Keep => with_scheme,
        AccentEdit::Remove => remove_entry(with_scheme, yaml_string("accentColor"@)),
        AccentEdit::Store(color) => insert_entry(with_scheme, yaml_string("accentColor"@), yaml_string(color@)),
    }
}

/// The root with the schema version added when it has none.
pub open spec fn with_version(root: YamlEntries) -> YamlEntries {
    if lookup(root, yaml_string("version"@)) is Some {
        root
    } else {
        root.push((yaml_string("version"@), yaml_u32(THEME_SCHEMA_VERSION)))
    }
}

/// `serde_yaml::from_str::<Value>`: succeeds exactly when `yaml_parse` has a
/// value for the text, and then gives that value.
#[verifier::external_body]
fn parse_yaml(text: &str) -> (r: Result<serde_yaml::Value, serde_yaml::Error>)
    ensures
        r is Ok <==> yaml_parse(text@) is Some,
        r matches Ok(v) ==> yaml_parse(text@) == Some(v),
{
    serde_yaml::from_str::<serde_yaml::Value>(text)
}

/// `serde_yaml::to_string` of a mapping: succeeds exactly when `yaml_render`
/// has a text for the mapping, and then gives that text.
#[verifier::external_body]
fn render_yaml(mapping: &serde_yaml::Mapping) -> (r: Result<String, serde_yaml::Error>)
    ensures
        r is Ok <==> yaml_render(*mapping) is Some,
        r matches Ok(text) ==> yaml_render(*mapping) == Some(text@),
{
    serde_yaml::to_string(mapping)
}

/// The message of a `serde_yaml` error (its `Display`); nothing is claimed
/// of the text.
#[verifier::external_body]
fn yaml_error_text(error: serde_yaml::Error) -> String {
    format!("{error}")
}

/// `Value::String`. Two texts give the same value only when they are equal.
#[verifier::external_body]
fn string_value(text: &str) -> (v: serde_yaml::Value)
    ensures
        v == yaml_string(text@),
        forall|t: Seq<char>| #[trigger] yaml_string(t) == v ==> t == text@,
{
    serde_yaml::Value::String(text.to_owned())
}

/// `Value::Number` of `Number::from(n)`.
#[verifier::external_body]
fn u32_value(n: u32) -> (v: serde_yaml::Value)
    ensures
        v == yaml_u32(n),
{
    serde_yaml::Value::Number(serde_yaml::Number::from(n))
}

/// `Value::Mapping` of a mapping.
#[verifier::external_body]
fn mapping_value(mapping: serde_yaml::Mapping) -> (v: serde_yaml::Value)
    ensures
        v == yaml_mapping(mapping),
{
    serde_yaml::Value::Mapping(mapping)
}

/// The mapping a `Value::Mapping` holds; `None` for every other variant.
/// Its keys are distinct, as in every `IndexMap`.
#[verifier::external_body]
fn into_mapping(value: serde_yaml::Value) -> (r: Option<serde_yaml::Mapping>)
    ensures
        match r {
            Some(m) => value == yaml_mapping(m) && keys_distinct(mapping_entries(m))
                && forall|other: serde_yaml::Mapping| #[trigger] yaml_mapping(other) == value ==> other == m,
            None => forall|m: serde_yaml::Mapping| #[trigger] yaml_mapping(m) != value,
        },
{
    match value {
        serde_yaml::Value::Mapping(m) => Some(m),
        _ => None,
    }
}

/// `Mapping::new`: a mapping with no entries.
#[verifier::external_body]
fn empty_mapping() -> (m: serde_yaml::Mapping)
    ensures
        mapping_entries(m) == Seq::<(serde_yaml::Value, serde_yaml::Value)>::empty(),
{
    serde_yaml::Mapping::new()
}

/// `Mapping::contains_key` with a `Value::String` key: whether some entry
/// has that key.
#[verifier::external_body]
fn mapping_contains(mapping: &serde_yaml::Mapping, key: &serde_yaml::Value) -> (b: bool)
    requires
        exists|t: Seq<char>| #[trigger] yaml_string(t) == *key,
    ensures
        b == (index_of_key(mapping_entries(*mapping), *key) >= 0),
{
    mapping.contains_key(key)
}

/// `Mapping::insert` under (a copy of) a `Value::String` key, as `IndexMap`
/// inserts: a present key keeps its place and takes the new value, a new key
/// goes last; gives the value it replaced.
#[verifier::external_body]
fn mapping_insert(mapping: &mut serde_yaml::Mapping, key: &serde_yaml::Value, value: serde_yaml::Value) -> (previous: Option<serde_yaml::Value>)
    requires
        exists|t: Seq<char>| #[trigger] yaml_string(t) == *key,
    ensures
        mapping_entries(*final(mapping)) == insert_entry(mapping_entries(*old(mapping)), *key, value),
        previous == lookup(mapping_entries(*old(mapping)), *key),
{
    mapping.insert(key.clone(), value)
}

/// `Mapping::remove` of a `Value::String` key, which is `swap_remove`: the
/// entry is replaced by the last one, which is popped; gives the removed
/// value.
#[verifier::external_body]
fn mapping_remove(mapping: &mut serde_yaml::Mapping, key: &serde_yaml::Value) -> (previous: Option<serde_yaml::Value>)
    requires
        exists|t: Seq<char>| #[trigger] yaml_string(t) == *key,
    ensures
        mapping_entries(*final(mapping)) == remove_entry(mapping_entries(*old(mapping)), *key),
        previous == lookup(mapping_entries(*old(mapping)), *key),
{
    mapping.remove(key)
}

/// Why a theme document could not be written.
#[derive(Clone, Debug, PartialEq, Eq)]
pub enum ThemeDocumentError {
    /// The existing document is not YAML; the parser's message.
    Parse(String),
    /// The edited document could not be written out; the writer's message.
    Serialize(String),
}

/// What `index_of_key` finds: the last entry with the key, or -1 when none has it.
pub proof fn lemma_index_of_key(e: YamlEntries, key: serde_yaml::Value)
    ensures
        -1 <= index_of_key(e, key) < e.len(),
        index_of_key(e, key) >= 0 ==> e[index_of_key(e, key)].0 == key,
        forall|j: int| index_of_key(e, key) < j < e.len() ==> e[j].0 != key,
    decreases e.len(),
{
    if e.len() > 0 {
        let rest = e.drop_last();
        lemma_index_of_key(rest, key);
        if e.last().0 != key {
            assert forall|j: int| index_of_key(e, key) < j < e.len() implies e[j].0 != key by {
                if j < rest.len() {
                    assert(rest[j] == e[j]);
                }
            }
        }
    }
}

/// Where keys are distinct, a key is found exactly where it stands.
proof fn lemma_unique_index(e: YamlEntries, key: serde_yaml::Value, j: int)
    requires
        keys_distinct(e),
        0 <= j < e.len(),
        e[j].0 == key,
    ensures
        index_of_key(e, key) == j,
{
    lemma_index_of_key(e, key);
    let i = index_of_key(e, key);
    if i != j {
        assert(e[i].0 == e[j].0);
    }
}

/// Two entry lists with the same keys in the same places find every key in the same place.
proof fn lemma_same_keys_same_index(e: YamlEntries, f: YamlEntries, key: serde_yaml::Value)
    requires
        e.len() == f.len(),
        forall|j: int| 0 <= j < e.len() ==> e[j].0 == f[j].0,
    ensures
        index_of_key(e, key) == index_of_key(f, key),
    decreases e.len(),
{
    if e.len() > 0 {
        lemma_same_keys_same_index(e.drop_last(), f.drop_last(), key);
    }
}

proof fn lemma_index_after_update(e: YamlEntries, i: int, entry: (serde_yaml::Value, serde_yaml::Value), key: serde_yaml::Value)
    requires
        0 <= i < e.len(),
        entry.0 == e[i].0,
    ensures
        index_of_key(e.update(i, entry), key) == index_of_key(e, key),
{
    lemma_same_keys_same_index(e.update(i, entry), e, key);
}

/// After an insert the key holds the new value and every other key its old one;
/// distinct keys stay distinct.
pub proof fn lemma_lookup_after_insert(e: YamlEntries, key: serde_yaml::Value, value: serde_yaml::Value)
    ensures
        lookup(insert_entry(e, key, value), key) == Some(value),
        forall|k: serde_yaml::Value| k != key ==> #[trigger] lookup(insert_entry(e, key, value), k) == lookup(e, k),
        keys_distinct(e) ==> keys_distinct(insert_entry(e, key, value)),
{
    let i = index_of_key(e, key);
    let r = insert_entry(e, key, value);
    lemma_index_of_key(e, key);
    if i >= 0 {
        lemma_index_after_update(e, i, (e[i].0, value), key);
        assert forall|k: serde_yaml::Value| k != key implies #[trigger] lookup(r, k) == lookup(e, k) by {
            lemma_index_after_update(e, i, (e[i].0, value), k);
            lemma_index_of_key(e, k);
        }
    } else {
        assert(r.drop_last() =~= e);
        assert forall|k: serde_yaml::Value| k != key implies #[trigger] lookup(r, k) == lookup(e, k) by {
            lemma_index_of_key(e, k);
        }
    }
}

/// With distinct keys, a removed key is gone and every other key keeps its
/// value; the keys stay distinct.
pub proof fn lemma_lookup_after_remove(e: YamlEntries, key: serde_yaml::Value)
    requires
        keys_distinct(e),
    ensures
        lookup(remove_entry(e, key), key) is None,
        forall|k: serde_yaml::Value| k != key ==> #[trigger] lookup(remove_entry(e, key), k) == lookup(e, k),
        keys_distinct(remove_entry(e, key)),
{
    let i = index_of_key(e, key);
    let r = remove_entry(e, key);
    lemma_index_of_key(e, key);
    if i >= 0 {
        let n = e.len() as int;
        assert(r.len() == n - 1);
        // each place of `r` holds the entry of `e` at `origin(p)`
        assert forall|p: int| 0 <= p < n - 1 implies #[trigger] r[p] == e[if p == i { n - 1 } else { p }] by {}
        assert forall|a: int, b: int| 0 <= a < b < r.len() implies r[a].0 != r[b].0 by {
            let fa = if a == i { n - 1 } else { a };
            let fb = if b == i { n - 1 } else { b };
            assert(r[a] == e[fa]);
            assert(r[b] == e[fb]);
            if fa < fb {
                assert(e[fa].0 != e[fb].0);
            } else {
                assert(e[fb].0 != e[fa].0);
            }
        }
        lemma_index_of_key(r, key);
        let ir = index_of_key(r, key);
        if ir >= 0 {
            let f = if ir == i { n - 1 } else { ir };
            assert(r[ir] == e[f]);
            assert(e[f].0 == e[i].0);
        }
        assert forall|k: serde_yaml::Value| k != key implies #[trigger] lookup(r, k) == lookup(e, k) by {
            lemma_index_of_key(e, k);
            lemma_index_of_key(r, k);
            let j = index_of_key(e, k);
            let jr = index_of_key(r, k);
            if j >= 0 {
                let p = if j == n - 1 { i } else { j };
                assert(r[p] == e[if p == i { n - 1 } else { p }]);
                lemma_unique_index(r, k, p);
            } else if jr >= 0 {
                let f = if jr == i { n - 1 } else { jr };
                assert(r[jr] == e[f]);
                assert(e[f].0 == k);
            }
        }
    }
}

/// The keys the settings write touches.
pub open spec fn version_key() -> serde_yaml::Value {
    yaml_string("version"@)
}

pub open spec fn ui_key() -> serde_yaml::Value {
    yaml_string("ui"@)
}

pub open spec fn panel_key() -> serde_yaml::Value {
    yaml_string("panel"@)
}

pub open spec fn font_key() -> serde_yaml::Value {
    yaml_string("font"@)
}

pub open spec fn color_scheme_key() -> serde_yaml::Value {
    yaml_string("colorScheme"@)
}

pub open spec fn accent_color_key() -> serde_yaml::Value {
    yaml_string("accentColor"@)
}

pub open spec fn orientation_key() -> serde_yaml::Value {
    yaml_string("orientation"@)
}

pub open spec fn size_key() -> serde_yaml::Value {
    yaml_string("size"@)
}

pub open spec fn orientation_text(orientation: PanelOrientation) -> Seq<char> {
    match orientation {
        PanelOrientation::Horizontal => "horizontal"@,
        PanelOrientation::Vertical => "vertical"@,
    }
}

/// The text an optional document is given as.
pub open spec fn text_view(existing: Option<&str>) -> Option<Seq<char>> {
    match existing {
        Some(t) => Some(t@),
        None => None,
    }
}

/// `after` holds `value` under `key` and keeps every other key of `before`.
pub open spec fn entry_set(before: YamlEntries, after: YamlEntries, key: serde_yaml::Value, value: serde_yaml::Value) -> bool {
    &&& lookup(after, key) == Some(value)
    &&& forall|k: serde_yaml::Value| k != key ==> #[trigger] lookup(after, k) == lookup(before, k)
}

/// What the settings write leaves in the `ui` section: `colorScheme` names
/// the scheme, `accentColor` is kept, removed or stored as asked, and every
/// other key keeps its value.
pub open spec fn ui_section_written(before: YamlEntries, after: YamlEntries, update: ThemeUiUpdate) -> bool {
    &&& lookup(after, color_scheme_key()) == Some(yaml_string(scheme_name(update.color_scheme)))
    &&& lookup(after, accent_color_key()) == match update.accent {
        AccentEdit::Keep => lookup(before, accent_color_key()),
        AccentEdit::Remove => None,
        AccentEdit::Store(color) => Some(yaml_string(color@)),
    }
    &&& forall|k: serde_yaml::Value| k != color_scheme_key() && k != accent_color_key()
        ==> #[trigger] lookup(after, k) == lookup(before, k)
}

/// The version clause of a write: kept when the document has one, the
/// current schema version otherwise.
pub open spec fn version_written(before: YamlEntries, after: YamlEntries) -> bool {
    lookup(after, version_key()) == if lookup(before, version_key()) is Some {
        lookup(before, version_key())
    } else {
        Some(yaml_u32(THEME_SCHEMA_VERSION))
    }
}

/// `after` holds under `ui` a mapping whose section is `before`'s written
/// as `update` asks.
pub open spec fn ui_written(before: YamlEntries, after: YamlEntries, update: ThemeUiUpdate) -> bool {
    exists|ui: serde_yaml::Mapping|
        #![trigger yaml_mapping(ui)]
        lookup(after, ui_key()) == Some(yaml_mapping(ui))
            && ui_section_written(mapping_entries_of(lookup(before, ui_key())), mapping_entries(ui), update)
}

/// `after` holds under `key` a mapping that is `before`'s section there with
/// `value` set under `entry`.
pub open spec fn child_entry_written(before: YamlEntries, after: YamlEntries, key: serde_yaml::Value, entry: serde_yaml::Value, value: serde_yaml::Value) -> bool {
    exists|child: serde_yaml::Mapping|
        #![trigger yaml_mapping(child)]
        lookup(after, key) == Some(yaml_mapping(child))
            && entry_set(mapping_entries_of(lookup(before, key)), mapping_entries(child), entry, value)
}

/// What writing the `ui` choices leaves in the document: the schema version
/// is added only when the document has none, `ui` is written as
/// `ui_section_written` says, and every other key keeps its value.
pub open spec fn theme_ui_written(before: YamlEntries, after: YamlEntries, update: ThemeUiUpdate) -> bool {
    &&& version_written(before, after)
    &&& ui_written(before, after, update)
    &&& forall|k: serde_yaml::Value| k != version_key() && k != ui_key()
        ==> #[trigger] lookup(after, k) == lookup(before, k)
}

/// What writing every IME setting leaves in the document: the version and
/// `ui` as for the `ui` choices, `panel.orientation` and `font.size` set with
/// the rest of those sections kept, and every other key kept.
pub open spec fn ime_settings_written(
    before: YamlEntries,
    after: YamlEntries,
    update: ThemeUiUpdate,
    orientation: PanelOrientation,
    font_size: serde_yaml::Value,
) -> bool {
    &&& version_written(before, after)
    &&& ui_written(before, after, update)
    &&& child_entry_written(before, after, panel_key(), orientation_key(), yaml_string(orientation_text(orientation)))
    &&& child_entry_written(before, after, font_key(), size_key(), font_size)
    &&& forall|k: serde_yaml::Value| k != version_key() && k != ui_key() && k != panel_key() && k != font_key()
        ==> #[trigger] lookup(after, k) == lookup(before, k)
}

/// `after` is `root` with the `ui` section replaced by its edit.
pub open spec fn is_ui_edit(root: YamlEntries, after: YamlEntries, update: ThemeUiUpdate) -> bool {
    exists|ui: serde_yaml::Mapping|
        #![trigger mapping_entries(ui)]
        mapping_entries(ui) == edited_ui(mapping_entries_of(lookup(root, ui_key())), update)
            && after == insert_entry(root, ui_key(), yaml_mapping(ui))
}

/// `after` is `root` with `entry` set to `value` in the section under `key`.
pub open spec fn is_child_entry_edit(root: YamlEntries, after: YamlEntries, key: serde_yaml::Value, entry: serde_yaml::Value, value: serde_yaml::Value) -> bool {
    exists|child: serde_yaml::Mapping|
        #![trigger mapping_entries(child)]
        mapping_entries(child) == insert_entry(mapping_entries_of(lookup(root, key)), entry, value)
            && after == insert_entry(root, key, yaml_mapping(child))
}

/// The exact edit of the `ui` choices: the version added when missing, then
/// the `ui` section edited.
pub open spec fn is_theme_ui_edit(before: YamlEntries, after: YamlEntries, update: ThemeUiUpdate) -> bool {
    is_ui_edit(with_version(before), after, update)
}

/// The exact edit of every IME setting, in the order the sections are written.
pub open spec fn is_ime_settings_edit(
    before: YamlEntries,
    after: YamlEntries,
    update: ThemeUiUpdate,
    orientation: PanelOrientation,
    font_size: serde_yaml::Value,
) -> bool {
    exists|with_ui: YamlEntries, with_panel: YamlEntries|
        #![trigger is_child_entry_edit(with_ui, with_panel, panel_key(), orientation_key(), yaml_string(orientation_text(orientation)))]
        is_ui_edit(with_version(before), with_ui, update)
            && is_child_entry_edit(with_ui, with_panel, panel_key(), orientation_key(), yaml_string(orientation_text(orientation)))
            && is_child_entry_edit(with_panel, after, font_key(), size_key(), font_size)
}

/// The root mapping of an existing document, or an empty one.
fn document_mapping(existing: Option<&str>) -> (r: Result<serde_yaml::Mapping, ThemeDocumentError>)
    ensures
        match document_root(text_view(existing)) {
            None => r matches Err(ThemeDocumentError::Parse(_)),
            Some(before) => r matches Ok(m) && mapping_entries(m) == before,
        },
{
    match existing {
        None => Ok(empty_mapping()),
        Some(text) => match parse_yaml(text) {
            Ok(value) => {
                let ghost v = value;
                match into_mapping(value) {
                    Some(m) => {
                        assert(mapping_entries_of(Some(v)) == mapping_entries(m));
                        Ok(m)
                    },
                    None => Ok(empty_mapping()),
                }
            },
            Err(error) => Err(ThemeDocumentError::Parse(yaml_error_text(error))),
        },
    }
}

/// Add the schema version unless the document has one.
fn ensure_version(root: &mut serde_yaml::Mapping, version: &serde_yaml::Value)
    requires
        *version == version_key(),
    ensures
        mapping_entries(*final(root)) == with_version(mapping_entries(*old(root))),
{
    if !mapping_contains(root, version) {
        mapping_insert(root, version, u32_value(THEME_SCHEMA_VERSION));
    }
}

/// Take the section under `key` out of `root`, leaving an empty mapping in
/// its place: the section, or an empty one when there is none or it is not
/// a mapping.
fn take_section(root: &mut serde_yaml::Mapping, key: &serde_yaml::Value) -> (section: serde_yaml::Mapping)
    requires
        exists|t: Seq<char>| #[trigger] yaml_string(t) == *key,
    ensures
        mapping_entries(section) == mapping_entries_of(lookup(mapping_entries(*old(root)), *key)),
        keys_distinct(mapping_entries(section)),
        forall|put: serde_yaml::Value| #[trigger] insert_entry(mapping_entries(*final(root)), *key, put)
            == insert_entry(mapping_entries(*old(root)), *key, put),
{
    let placeholder = empty_mapping();
    let ghost placeholder_view = placeholder;
    let previous = mapping_insert(root, key, mapping_value(placeholder));
    assert forall|put: serde_yaml::Value| #[trigger] insert_entry(mapping_entries(*root), *key, put)
        == insert_entry(mapping_entries(*old(root)), *key, put) by {
        lemma_insert_twice(mapping_entries(*old(root)), *key, yaml_mapping(placeholder_view), put);
    }
    match previous {
        Some(value) => match into_mapping(value) {
            Some(m) => m,
            None => empty_mapping(),
        },
        None => empty_mapping(),
    }
}

/// Write the `ui` choices into the `ui` section of `root`.
fn write_ui_section(root: &mut serde_yaml::Mapping, ui: &serde_yaml::Value, update: &ThemeUiUpdate)
    requires
        *ui == ui_key(),
    ensures
        is_ui_edit(mapping_entries(*old(root)), mapping_entries(*final(root)), *update),
        exists|section: serde_yaml::Mapping|
            #![trigger mapping_entries(section)]
            lookup(mapping_entries(*final(root)), ui_key()) == Some(yaml_mapping(section))
                && ui_section_written(mapping_entries_of(lookup(mapping_entries(*old(root)), ui_key())), mapping_entries(section), *update),
{
    let ghost start = mapping_entries(*root);
    let mut section = take_section(root, ui);
    let ghost section_before = mapping_entries(section);
    let scheme = color_scheme_name(update.color_scheme);
    let scheme_key = string_value("colorScheme");
    mapping_insert(&mut section, &scheme_key, string_value(scheme));
    let accent_key = string_value("accentColor");
    proof {
        reveal_strlit("colorScheme");
        reveal_strlit("accentColor");
        assert(color_scheme_key() != accent_color_key()) by {
            assert("colorScheme"@[0] != "accentColor"@[0]);
            if yaml_string("colorScheme"@) == accent_key {
            }
        }
        lemma_lookup_after_insert(section_before, color_scheme_key(), yaml_string(scheme@));
    }
    let ghost with_scheme = mapping_entries(section);
    match &update.accent {
        AccentEdit::Keep => {},
        AccentEdit::Remove => {
            mapping_remove(&mut section, &accent_key);
            proof {
                lemma_lookup_after_remove(with_scheme, accent_color_key());
            }
        },
        AccentEdit::Store(color) => {
            mapping_insert(&mut section, &accent_key, string_value(color.as_str()));
            proof {
                lemma_lookup_after_insert(with_scheme, accent_color_key(), yaml_string(color@));
            }
        },
    }
    assert(mapping_entries(section) == edited_ui(section_before, *update));
    assert(ui_section_written(section_before, mapping_entries(section), *update));
    let ghost written = section;
    mapping_insert(root, ui, mapping_value(section));
    proof {
        lemma_lookup_after_insert(start, ui_key(), yaml_mapping(written));
    }
}

/// Set `entry` to `value` in the section under `key` of `root`.
fn write_child_entry(root: &mut serde_yaml::Mapping, key: &serde_yaml::Value, entry: &str, value: serde_yaml::Value)
    requires
        exists|t: Seq<char>| #[trigger] yaml_string(t) == *key,
    ensures
        is_child_entry_edit(mapping_entries(*old(root)), mapping_entries(*final(root)), *key, yaml_string(entry@), value),
{
    let ghost start = mapping_entries(*root);
    let mut section = take_section(root, key);
    let entry_key = string_value(entry);
    mapping_insert(&mut section, &entry_key, value);
    let ghost written = section;
    mapping_insert(root, key, mapping_value(section));
    assert(mapping_entries(written) == insert_entry(mapping_entries_of(lookup(start, *key)), yaml_string(entry@), value));
}

/// The root keys written are four different keys.
proof fn lemma_root_keys_differ(version: serde_yaml::Value, ui: serde_yaml::Value, panel: serde_yaml::Value)
    requires
        version == version_key(),
        ui == ui_key(),
        panel == panel_key(),
        forall|t: Seq<char>| #[trigger] yaml_string(t) == version ==> t == "version"@,
        forall|t: Seq<char>| #[trigger] yaml_string(t) == ui ==> t == "ui"@,
        forall|t: Seq<char>| #[trigger] yaml_string(t) == panel ==> t == "panel"@,
    ensures
        version_key() != ui_key(),
        version_key() != panel_key(),
        version_key() != font_key(),
        ui_key() != panel_key(),
        ui_key() != font_key(),
        panel_key() != font_key(),
{
    reveal_strlit("version");
    reveal_strlit("ui");
    reveal_strlit("panel");
    reveal_strlit("font");
    assert("ui"@.len() != "version"@.len());
    assert("panel"@.len() != "version"@.len());
    assert("font"@.len() != "version"@.len());
    assert("panel"@.len() != "ui"@.len());
    assert("font"@.len() != "ui"@.len());
    assert("font"@[0] != "panel"@[0]);
    if yaml_string("ui"@) == version {}
    if yaml_string("panel"@) == version {}
    if yaml_string("font"@) == version {}
    if yaml_string("panel"@) == ui {}
    if yaml_string("font"@) == ui {}
    if yaml_string("font"@) == panel {}
}

/// The root after the version and the `ui` section are written.
proof fn lemma_version_and_ui_written(before: YamlEntries, with_ui: YamlEntries, update: ThemeUiUpdate)
    requires
        version_key() != ui_key(),
        is_ui_edit(with_version(before), with_ui, update),
        exists|section: serde_yaml::Mapping|
            #![trigger mapping_entries(section)]
            lookup(with_ui, ui_key()) == Some(yaml_mapping(section))
                && ui_section_written(mapping_entries_of(lookup(with_version(before), ui_key())), mapping_entries(section), update),
    ensures
        version_written(before, with_ui),
        ui_written(before, with_ui, update),
        forall|k: serde_yaml::Value| k != version_key() && k != ui_key()
            ==> #[trigger] lookup(with_ui, k) == lookup(before, k),
{
    let versioned = with_version(before);
    let ui = choose|ui: serde_yaml::Mapping|
        #![trigger mapping_entries(ui)]
        mapping_entries(ui) == edited_ui(mapping_entries_of(lookup(versioned, ui_key())), update)
            && with_ui == insert_entry(versioned, ui_key(), yaml_mapping(ui));
    lemma_lookup_after_insert(before, version_key(), yaml_u32(THEME_SCHEMA_VERSION));
    lemma_lookup_after_insert(versioned, ui_key(), yaml_mapping(ui));
    assert(lookup(versioned, ui_key()) == lookup(before, ui_key()));
    assert forall|k: serde_yaml::Value| k != version_key() && k != ui_key()
        implies #[trigger] lookup(with_ui, k) == lookup(before, k) by {
        assert(lookup(with_ui, k) == lookup(versioned, k));
    }
    let section = choose|section: serde_yaml::Mapping|
        #![trigger mapping_entries(section)]
        lookup(with_ui, ui_key()) == Some(yaml_mapping(section))
            && ui_section_written(mapping_entries_of(lookup(versioned, ui_key())), mapping_entries(section), update);
    assert(lookup(with_ui, ui_key()) == Some(yaml_mapping(section)));
}

/// Setting an entry of one section leaves every other key of the root, and
/// the section itself holds the entry over what it held.
proof fn lemma_child_entry_written(root: YamlEntries, after: YamlEntries, key: serde_yaml::Value, entry: serde_yaml::Value, value: serde_yaml::Value)
    requires
        is_child_entry_edit(root, after, key, entry, value),
    ensures
        child_entry_written(root, after, key, entry, value),
        forall|k: serde_yaml::Value| k != key ==> #[trigger] lookup(after, k) == lookup(root, k),
{
    let child = choose|child: serde_yaml::Mapping|
        #![trigger mapping_entries(child)]
        mapping_entries(child) == insert_entry(mapping_entries_of(lookup(root, key)), entry, value)
            && after == insert_entry(root, key, yaml_mapping(child));
    lemma_lookup_after_insert(root, key, yaml_mapping(child));
    lemma_lookup_after_insert(mapping_entries_of(lookup(root, key)), entry, value);
    assert(lookup(after, key) == Some(yaml_mapping(child)));
}

/// The whole document after the `ui` choices are written, or why it could
/// not be: `existing` is the document's text, `None` when there is none. A
/// document whose root is not a mapping counts as empty, and so does a `ui`
/// entry that is not a mapping.
pub fn theme_ui_document(existing: Option<&str>, update: &ThemeUiUpdate) -> (r: Result<String, ThemeDocumentError>)
    ensures
        match document_root(text_view(existing)) {
            None => r matches Err(ThemeDocumentError::Parse(_)),
            Some(before) => match r {
                Ok(text) => exists|m: serde_yaml::Mapping|
                    #![trigger mapping_entries(m)]
                    is_theme_ui_edit(before, mapping_entries(m), *update)
                        && theme_ui_written(before, mapping_entries(m), *update)
                        && yaml_render(m) == Some(text@),
                Err(ThemeDocumentError::Serialize(_)) => exists|m: serde_yaml::Mapping|
                    #![trigger mapping_entries(m)]
                    is_theme_ui_edit(before, mapping_entries(m), *update)
                        && theme_ui_written(before, mapping_entries(m), *update)
                        && yaml_render(m) is None,
                Err(ThemeDocumentError::Parse(_)) => false,
            },
        },
{
    let mut root = match document_mapping(existing) {
        Ok(m) => m,
        Err(e) => {
            return Err(e);
        },
    };
    let ghost before = mapping_entries(root);
    let version = string_value("version");
    let ui = string_value("ui");
    let panel = string_value("panel");
    proof {
        lemma_root_keys_differ(version, ui, panel);
    }
    ensure_version(&mut root, &version);
    write_ui_section(&mut root, &ui, update);
    proof {
        lemma_version_and_ui_written(before, mapping_entries(root), *update);
    }
    match render_yaml(&root) {
        Ok(text) => Ok(text),
        Err(error) => Err(ThemeDocumentError::Serialize(yaml_error_text(error))),
    }
}

/// The whole document after every IME setting the app owns is written: the
/// `ui` choices with `accent_color` stored, `panel.orientation` and
/// `font.size`; `font_size` is the size as a YAML value. Sections that are
/// missing or not mappings start out empty.
pub fn ime_ui_settings_document(
    existing: Option<&str>,
    color_scheme: UiColorScheme,
    orientation: PanelOrientation,
    accent_color: String,
    font_size: serde_yaml::Value,
) -> (r: Result<String, ThemeDocumentError>)
    ensures
        match document_root(text_view(existing)) {
            None => r matches Err(ThemeDocumentError::Parse(_)),
            Some(before) => match r {
                Ok(text) => exists|m: serde_yaml::Mapping|
                    #![trigger mapping_entries(m)]
                    is_ime_settings_edit(before, mapping_entries(m), ThemeUiUpdate { color_scheme, accent: AccentEdit::Store(accent_color) }, orientation, font_size)
                        && ime_settings_written(before, mapping_entries(m), ThemeUiUpdate { color_scheme, accent: AccentEdit::Store(accent_color) }, orientation, font_size)
                        && yaml_render(m) == Some(text@),
                Err(ThemeDocumentError::Serialize(_)) => exists|m: serde_yaml::Mapping|
                    #![trigger mapping_entries(m)]
                    is_ime_settings_edit(before, mapping_entries(m), ThemeUiUpdate { color_scheme, accent: AccentEdit::Store(accent_color) }, orientation, font_size)
                        && ime_settings_written(before, mapping_entries(m), ThemeUiUpdate { color_scheme, accent: AccentEdit::Store(accent_color) }, orientation, font_size)
                        && yaml_render(m) is None,
                Err(ThemeDocumentError::Parse(_)) => false,
            },
        },
{
    let ghost font_value = font_size;
    let update = ThemeUiUpdate { color_scheme, accent: AccentEdit::Store(accent_color) };
    let mut root = match document_mapping(existing) {
        Ok(m) => m,
        Err(e) => {
            return Err(e);
        },
    };
    let ghost before = mapping_entries(root);
    let version = string_value("version");
    let ui = string_value("ui");
    let panel = string_value("panel");
    let font = string_value("font");
    proof {
        lemma_root_keys_differ(version, ui, panel);
    }
    ensure_version(&mut root, &version);
    write_ui_section(&mut root, &ui, &update);
    let ghost with_ui = mapping_entries(root);
    proof {
        lemma_version_and_ui_written(before, with_ui, update);
    }
    let name = orientation_name(orientation);
    write_child_entry(&mut root, &panel, "orientation", string_value(name));
    let ghost with_panel = mapping_entries(root);
    write_child_entry(&mut root, &font, "size", font_size);
    proof {
        let orientation_value = yaml_string(orientation_text(orientation));
        lemma_child_entry_written(with_ui, with_panel, panel_key(), orientation_key(), orientation_value);
        lemma_child_entry_written(with_panel, mapping_entries(root), font_key(), size_key(), font_value);
        let after = mapping_entries(root);
        assert(is_ui_edit(with_version(before), with_ui, update));
        assert(is_child_entry_edit(with_ui, with_panel, panel_key(), orientation_key(), orientation_value));
        assert(is_child_entry_edit(with_panel, after, font_key(), size_key(), font_value));
        assert(is_ime_settings_edit(before, after, update, orientation, font_value));
        assert(version_written(before, after));
        assert(ui_written(before, after, update)) by {
            let section = choose|section: serde_yaml::Mapping|
                #![trigger yaml_mapping(section)]
                lookup(with_ui, ui_key()) == Some(yaml_mapping(section))
                    && ui_section_written(mapping_entries_of(lookup(before, ui_key())), mapping_entries(section), update);
            assert(lookup(after, ui_key()) == Some(yaml_mapping(section)));
        }
        assert(child_entry_written(before, after, panel_key(), orientation_key(), orientation_value)) by {
            let child = choose|child: serde_yaml::Mapping|
                #![trigger yaml_mapping(child)]
                lookup(with_panel, panel_key()) == Some(yaml_mapping(child))
                    && entry_set(mapping_entries_of(lookup(with_ui, panel_key())), mapping_entries(child), orientation_key(), orientation_value);
            assert(lookup(after, panel_key()) == Some(yaml_mapping(child)));
        }
        assert(child_entry_written(before, after, font_key(), size_key(), font_value)) by {
            let child = choose|child: serde_yaml::Mapping|
                #![trigger yaml_mapping(child)]
                lookup(after, font_key()) == Some(yaml_mapping(child))
                    && entry_set(mapping_entries_of(lookup(with_panel, font_key())), mapping_entries(child), size_key(), font_value);
            assert(lookup(after, font_key()) == Some(yaml_mapping(child)));
        }
    }
    match render_yaml(&root) {
        Ok(text) => Ok(text),
        Err(error) => Err(ThemeDocumentError::Serialize(yaml_error_text(error))),
    }
}

proof fn lemma_insert_twice(e: YamlEntries, key: serde_yaml::Value, first: serde_yaml::Value, second: serde_yaml::Value)
    ensures
        insert_entry(insert_entry(e, key, first), key, second) == insert_entry(e, key, second),
{
    let i = index_of_key(e, key);
    let once = insert_entry(e, key, first);
    lemma_index_of_key(e, key);
    if i >= 0 {
        lemma_index_after_update(e, i, (e[i].0, first), key);
        assert(once.update(i, (once[i].0, second)) =~= e.update(i, (e[i].0, second)));
    } else {
        assert(once.drop_last() =~= e);
        assert(once.update(e.len() as int, (once[e.len() as int].0, second)) =~= e.push((key, second)));
    }
}

} // verus!
