//! The view model every frontend draws the candidate list from: labels,
//! comments, the highlighted entry and paging, and the rows a system lookup
//! table takes.
use vstd::prelude::*;
use vstd::string::*;
use crate::text::{decimal, push_decimal};
use crate::theme::{PanelOrientation, UiCapabilities};
use crate::ime_state::{Candidate, ImeState};

verus! {

broadcast use vstd::seq::group_seq_axioms;

/// The part of a resolved theme the candidate model reads.
#[derive(Clone, Debug)]
pub struct PanelStyle {
    pub orientation: PanelOrientation,
    /// Written after each candidate's key, as in `1.`.
    pub label_suffix: String,
    /// The mode hint shown on entering conversion mode.
    pub chinese_text: String,
    /// The mode hint shown on entering ASCII mode.
    pub english_text: String,
}

impl PanelStyle {
    /// The schema's own values, before any theme document is laid over them.
    pub fn schema_default() -> (style: Self)
        ensures
            style.orientation == PanelOrientation::Vertical,
            style.label_suffix@ == seq!['.'],
            style.chinese_text@ == seq!['中'],
            style.english_text@ == seq!['英'],
    {
        proof {
            reveal_strlit(".");
            reveal_strlit("中");
            reveal_strlit("英");
        }
        PanelStyle {
            orientation: PanelOrientation::Vertical,
            label_suffix: String::from_str("."),
            chinese_text: String::from_str("中"),
            english_text: String::from_str("英"),
        }
    }
}

/// One candidate as the engine reports it.
#[derive(Clone, Debug)]
pub struct ThemeCandidate {
    pub text: String,
    pub comment: Option<String>,
}

/// What a frontend hands the model.
#[derive(Clone, Debug)]
pub struct CandidatePanelInput {
    pub preedit: String,
    pub candidates: Vec<ThemeCandidate>,
    pub highlighted_candidate_index: usize,
    pub page: usize,
    pub is_last_page: bool,
    /// The schema's select keys; `None` numbers the candidates `1` to `0`.
    pub select_keys: Option<String>,
}

/// One entry of the drawn list.
#[derive(Clone, Debug)]
pub struct CandidateOptionModel {
    pub index: usize,
    pub label: String,
    pub text: String,
    /// Present only when non-empty.
    pub comment: Option<String>,
    pub selected: bool,
}

/// Which paging buttons work.
#[derive(Clone, Copy, Debug, PartialEq, Eq)]
pub struct PageNavigationModel {
    pub can_go_previous: bool,
    pub can_go_next: bool,
}

/// The capabilities the model was made for.
#[derive(Clone, Copy, Debug, PartialEq, Eq)]
pub struct ResolvedCapabilities {
    pub custom_colors: bool,
    pub vertical: bool,
    pub hover: bool,
    pub shadow: bool,
    pub separator: bool,
    pub system_lookup_table_only: bool,
}

/// The candidate list a frontend draws.
#[derive(Clone, Debug)]
pub struct CandidatePanelModel {
    /// Present only when non-empty.
    pub preedit: Option<String>,
    pub orientation: PanelOrientation,
    pub candidates: Vec<CandidateOptionModel>,
    pub navigation: PageNavigationModel,
    pub capabilities: ResolvedCapabilities,
}

/// The mode hint a frontend flashes.
#[derive(Clone, Debug)]
pub struct ModeHintModel {
    pub ascii_mode: bool,
    pub text: String,
}

pub open spec fn opt_view(o: Option<String>) -> Option<Seq<char>> {
    match o {
        Some(s) => Some(s@),
        None => None,
    }
}

/// A text, or nothing when it is empty.
pub open spec fn non_empty(s: Seq<char>) -> Option<Seq<char>> {
    if s.len() > 0 {
        Some(s)
    } else {
        None
    }
}

/// A comment that is present and not empty.
pub open spec fn shown_comment(c: Option<Seq<char>>) -> Option<Seq<char>> {
    match c {
        Some(s) => non_empty(s),
        None => None,
    }
}

/// The keys `1` to `9` and `0`.
pub open spec fn default_select_keys() -> Seq<char> {
    seq!['1', '2', '3', '4', '5', '6', '7', '8', '9', '0']
}

pub open spec fn select_keys_or_default(keys: Option<Seq<char>>) -> Seq<char> {
    match keys {
        Some(k) => k,
        None => default_select_keys(),
    }
}

/// A candidate's label: its select key, or its one-based position once the
/// keys run out, followed by the suffix.
pub open spec fn option_label(keys: Seq<char>, index: int, suffix: Seq<char>) -> Seq<char> {
    (if index < keys.len() {
        seq![keys[index]]
    } else {
        decimal((index + 1) as nat)
    }) + suffix
}

/// The highlighted index, clamped into the list (0 for an empty list).
pub open spec fn clamped_selection(len: int, highlighted: int) -> int {
    if len == 0 {
        0
    } else if highlighted < len - 1 {
        highlighted
    } else {
        len - 1
    }
}

/// A candidate by its text and comment.
pub open spec fn theme_candidate_view(c: ThemeCandidate) -> (Seq<char>, Option<Seq<char>>) {
    (c.text@, opt_view(c.comment))
}

pub open spec fn engine_candidate_view(c: Candidate) -> (Seq<char>, Option<Seq<char>>) {
    (c.text@, opt_view(c.comment))
}

/// One drawn entry is the model of candidate `i`.
pub open spec fn option_models(
    o: CandidateOptionModel,
    i: int,
    c: (Seq<char>, Option<Seq<char>>),
    keys: Seq<char>,
    suffix: Seq<char>,
    selected: int,
) -> bool {
    &&& o.index == i
    &&& o.label@ == option_label(keys, i, suffix)
    &&& o.text@ == c.0
    &&& opt_view(o.comment) == shown_comment(c.1)
    &&& o.selected == (i == selected)
}

/// `m` is the model of a panel input, given by its views, under `style` and
/// `caps`.
pub open spec fn models_panel(
    m: CandidatePanelModel,
    style: PanelStyle,
    preedit: Seq<char>,
    candidates: Seq<(Seq<char>, Option<Seq<char>>)>,
    highlighted: int,
    page: int,
    is_last_page: bool,
    select_keys: Option<Seq<char>>,
    caps: UiCapabilities,
) -> bool {
    &&& opt_view(m.preedit) == non_empty(preedit)
    &&& m.orientation == (if style.orientation == PanelOrientation::Vertical && caps.supports_vertical {
        PanelOrientation::Vertical
    } else {
        PanelOrientation::Horizontal
    })
    &&& m.candidates@.len() == candidates.len()
    &&& forall|i: int|
        0 <= i < candidates.len() ==> option_models(
            #[trigger] m.candidates@[i],
            i,
            candidates[i],
            select_keys_or_default(select_keys),
            style.label_suffix@,
            clamped_selection(candidates.len() as int, highlighted),
        )
    &&& m.navigation.can_go_previous == (page > 0)
    &&& m.navigation.can_go_next == !is_last_page
    &&& m.capabilities == (ResolvedCapabilities {
        custom_colors: caps.supports_custom_colors,
        vertical: caps.supports_vertical,
        hover: caps.supports_hover,
        shadow: caps.supports_shadow,
        separator: caps.supports_separator,
        system_lookup_table_only: caps.system_lookup_table_only,
    })
}

fn copy_opt(o: &Option<String>) -> (c: Option<String>)
    ensures
        opt_view(c) == opt_view(*o),
{
    match o {
        Some(s) => Some(s.clone()),
        None => None,
    }
}

/// The label of candidate `index`.
fn make_label(keys: &str, index: usize, suffix: &str) -> (label: String)
    requires
        index < usize::MAX,
    ensures
        label@ == option_label(keys@, index as int, suffix@),
{
    let mut label = String::new();
    if index < keys.unicode_len() {
        let key = keys.substring_char(index, index + 1);
        label.append(key);
        assert(label@ =~= seq![keys@[index as int]]);
    } else {
        push_decimal(&mut label, (index + 1) as u64);
        assert(label@ =~= decimal((index + 1) as nat));
    }
    label.append(suffix);
    label
}

impl PanelStyle {
    /// The candidate list for one engine state: labels from the select keys,
    /// blank comments dropped, exactly the clamped highlighted entry selected,
    /// and paging from the page number and the last-page flag.
    pub fn candidate_panel_model(&self, input: CandidatePanelInput, capabilities: &UiCapabilities) -> (m: CandidatePanelModel)
        ensures
            models_panel(
                m,
                *self,
                input.preedit@,
                input.candidates@.map_values(|c: ThemeCandidate| theme_candidate_view(c)),
                input.highlighted_candidate_index as int,
                input.page as int,
                input.is_last_page,
                opt_view(input.select_keys),
                *capabilities,
            ),
    {
        let CandidatePanelInput { preedit, candidates, highlighted_candidate_index, page, is_last_page, select_keys } =
            input;
        let ghost views = candidates@.map_values(|c: ThemeCandidate| theme_candidate_view(c));
        let orientation = if self.orientation == PanelOrientation::Vertical && capabilities.supports_vertical {
            PanelOrientation::Vertical
        } else {
            PanelOrientation::Horizontal
        };
        let n = candidates.len();
        let selected = if n == 0 {
            0
        } else if highlighted_candidate_index < n - 1 {
            highlighted_candidate_index
        } else {
            n - 1
        };
        let keys = match select_keys {
            Some(k) => k,
            None => {
                proof {
                    reveal_strlit("1234567890");
                }
                String::from_str("1234567890")
            },
        };
        assert(keys@ =~= select_keys_or_default(opt_view(select_keys)));
        let mut options: Vec<CandidateOptionModel> = Vec::new();
        let mut i: usize = 0;
        while i < n
            invariant
                n == candidates@.len(),
                views == candidates@.map_values(|c: ThemeCandidate| theme_candidate_view(c)),
                i <= n,
                options@.len() == i,
                selected == clamped_selection(n as int, highlighted_candidate_index as int),
                forall|k: int|
                    0 <= k < i ==> option_models(
                        #[trigger] options@[k],
                        k,
                        views[k],
                        keys@,
                        self.label_suffix@,
                        selected as int,
                    ),
            decreases n - i,
        {
            let candidate = &candidates[i];
            let label = make_label(keys.as_str(), i, self.label_suffix.as_str());
            let comment = match &candidate.comment {
                Some(c) => if c.unicode_len() > 0 {
                    Some(c.clone())
                } else {
                    None
                },
                None => None,
            };
            let option = CandidateOptionModel {
                index: i,
                label,
                text: candidate.text.clone(),
                comment,
                selected: i == selected,
            };
            options.push(option);
            assert(views[i as int] == theme_candidate_view(candidates@[i as int]));
            i = i + 1;
        }
        let shown_preedit = if preedit.unicode_len() > 0 {
            Some(preedit)
        } else {
            None
        };
        CandidatePanelModel {
            preedit: shown_preedit,
            orientation,
            candidates: options,
            navigation: PageNavigationModel { can_go_previous: page > 0, can_go_next: !is_last_page },
            capabilities: ResolvedCapabilities {
                custom_colors: capabilities.supports_custom_colors,
                vertical: capabilities.supports_vertical,
                hover: capabilities.supports_hover,
                shadow: capabilities.supports_shadow,
                separator: capabilities.supports_separator,
                system_lookup_table_only: capabilities.system_lookup_table_only,
            },
        }
    }

    /// The mode hint for the mode just entered.
    pub fn mode_hint_model(&self, ascii_mode: bool) -> (m: ModeHintModel)
        ensures
            m.ascii_mode == ascii_mode,
            m.text@ == if ascii_mode {
                self.english_text@
            } else {
                self.chinese_text@
            },
    {
        ModeHintModel {
            ascii_mode,
            text: if ascii_mode {
                self.english_text.clone()
            } else {
                self.chinese_text.clone()
            },
        }
    }
}

/// The clamped selection is inside a non-empty list, and is the highlighted
/// index itself whenever that is inside.
pub proof fn lemma_selection_stays_on_the_page(len: int, highlighted: int)
    requires
        0 < len,
        0 <= highlighted,
    ensures
        0 <= clamped_selection(len, highlighted) < len,
        highlighted < len ==> clamped_selection(len, highlighted) == highlighted,
{
}

/// What a system lookup table shows for an entry: the text, then a space and
/// the comment when there is one.
pub open spec fn display_text(text: Seq<char>, comment: Option<Seq<char>>) -> Seq<char> {
    match comment {
        Some(c) => text + seq![' '] + c,
        None => text,
    }
}

/// The text a system lookup table shows for an entry.
pub fn candidate_display_text(candidate: &CandidateOptionModel) -> (s: String)
    ensures
        s@ == display_text(candidate.text@, opt_view(candidate.comment)),
{
    match &candidate.comment {
        Some(comment) => {
            let mut s = candidate.text.clone();
            s.append(" ");
            s.append(comment.as_str());
            proof {
                reveal_strlit(" ");
            }
            assert(s@ =~= candidate.text@ + seq![' '] + comment@);
            s
        },
        None => candidate.text.clone(),
    }
}

/// The panel input for an engine state.
pub fn state_to_panel_input(state: &ImeState) -> (input: CandidatePanelInput)
    ensures
        input.preedit@ == state.preedit@,
        input.candidates@.map_values(|c: ThemeCandidate| theme_candidate_view(c))
            == state.candidates@.map_values(|c: Candidate| engine_candidate_view(c)),
        input.highlighted_candidate_index == state.highlighted_candidate_index,
        input.page == state.page,
        input.is_last_page == state.is_last_page,
        opt_view(input.select_keys) == opt_view(state.select_keys),
{
    let n = state.candidates.len();
    let mut candidates: Vec<ThemeCandidate> = Vec::new();
    let mut i: usize = 0;
    while i < n
        invariant
            n == state.candidates@.len(),
            i <= n,
            candidates@.len() == i,
            forall|k: int|
                0 <= k < i ==> theme_candidate_view(#[trigger] candidates@[k]) == engine_candidate_view(
                    state.candidates@[k],
                ),
        decreases n - i,
    {
        let c = &state.candidates[i];
        candidates.push(ThemeCandidate { text: c.text.clone(), comment: copy_opt(&c.comment) });
        i = i + 1;
    }
    assert(candidates@.map_values(|c: ThemeCandidate| theme_candidate_view(c))
        =~= state.candidates@.map_values(|c: Candidate| engine_candidate_view(c)));
    CandidatePanelInput {
        preedit: state.preedit.clone(),
        candidates,
        highlighted_candidate_index: state.highlighted_candidate_index,
        page: state.page,
        is_last_page: state.is_last_page,
        select_keys: copy_opt(&state.select_keys),
    }
}

/// The model a lookup-table frontend draws for an engine state.
pub fn state_to_panel_model(state: &ImeState, style: &PanelStyle) -> (m: CandidatePanelModel)
    ensures
        models_panel(
            m,
            *style,
            state.preedit@,
            state.candidates@.map_values(|c: Candidate| engine_candidate_view(c)),
            state.highlighted_candidate_index as int,
            state.page as int,
            state.is_last_page,
            opt_view(state.select_keys),
            UiCapabilities {
                supports_custom_colors: false,
                supports_vertical: false,
                supports_hover: false,
                supports_shadow: false,
                supports_separator: false,
                system_lookup_table_only: true,
            },
        ),
{
    let caps = UiCapabilities::system_lookup_table();
    style.candidate_panel_model(state_to_panel_input(state), &caps)
}

/// The index of the first selected entry at or after `i`, or 0 when none is.
pub open spec fn first_selected_from(options: Seq<CandidateOptionModel>, i: int) -> int
    decreases options.len() - i,
{
    if i < 0 || i >= options.len() {
        0
    } else if options[i].selected {
        i
    } else {
        first_selected_from(options, i + 1)
    }
}

/// The system's own lookup-table orientation.
pub const IBUS_ORIENTATION_SYSTEM: i32 = 2;

/// The rows a system lookup table takes.
#[derive(Clone, Debug)]
pub struct LookupTable {
    pub labels: Vec<String>,
    pub candidates: Vec<String>,
    pub has_prev: bool,
    pub has_next: bool,
    /// The first selected entry, or 0.
    pub cursor: usize,
    /// The number of entries, kept between 1 and 16.
    pub page_size: usize,
    /// Whether the cursor is drawn: always.
    pub cursor_visible: bool,
    /// Whether paging wraps round: never.
    pub round: bool,
    /// The table's orientation: the system's.
    pub orientation: i32,
}

/// The lookup-table rows for a model.
pub fn lookup_table(model: &CandidatePanelModel) -> (t: LookupTable)
    ensures
        t.labels@.len() == model.candidates@.len(),
        t.candidates@.len() == model.candidates@.len(),
        forall|i: int|
            0 <= i < model.candidates@.len() ==> (#[trigger] t.labels@[i])@ == model.candidates@[i].label@
                && t.candidates@[i]@ == display_text(
                model.candidates@[i].text@,
                opt_view(model.candidates@[i].comment),
            ),
        t.has_prev == model.navigation.can_go_previous,
        t.has_next == model.navigation.can_go_next,
        t.cursor == first_selected_from(model.candidates@, 0),
        t.page_size == if model.candidates@.len() < 1 {
            1
        } else if model.candidates@.len() > 16 {
            16
        } else {
            model.candidates@.len() as int
        },
        t.cursor_visible,
        !t.round,
        t.orientation == IBUS_ORIENTATION_SYSTEM,
{
    let n = model.candidates.len();
    let mut labels: Vec<String> = Vec::new();
    let mut texts: Vec<String> = Vec::new();
    let mut cursor: usize = 0;
    let mut found = false;
    let mut i: usize = 0;
    while i < n
        invariant
            n == model.candidates@.len(),
            i <= n,
            labels@.len() == i,
            texts@.len() == i,
            forall|k: int|
                0 <= k < i ==> (#[trigger] labels@[k])@ == model.candidates@[k].label@ && texts@[k]@
                    == display_text(model.candidates@[k].text@, opt_view(model.candidates@[k].comment)),
            found ==> cursor == first_selected_from(model.candidates@, 0),
            !found ==> cursor == 0,
            !found ==> first_selected_from(model.candidates@, 0) == first_selected_from(model.candidates@, i as int),
        decreases n - i,
    {
        let option = &model.candidates[i];
        labels.push(option.label.clone());
        texts.push(candidate_display_text(option));
        if !found && option.selected {
            found = true;
            cursor = i;
        }
        i = i + 1;
    }
    let page_size = if n < 1 {
        1
    } else if n > 16 {
        16
    } else {
        n
    };
    LookupTable {
        labels,
        candidates: texts,
        has_prev: model.navigation.can_go_previous,
        has_next: model.navigation.can_go_next,
        cursor,
        page_size,
        cursor_visible: true,
        round: false,
        orientation: IBUS_ORIENTATION_SYSTEM,
    }
}

proof fn lemma_first_selected_from(options: Seq<CandidateOptionModel>, i: int, j: int)
    requires
        0 <= i <= j < options.len(),
        forall|k: int| 0 <= k < options.len() ==> (#[trigger] options[k].selected == (k == j)),
    ensures
        first_selected_from(options, i) == j,
    decreases j - i,
{
    if i < j {
        assert(!options[i].selected);
        lemma_first_selected_from(options, i + 1, j);
    } else {
        assert(options[j].selected);
    }
}

/// When exactly one entry is selected, the lookup-table cursor is on it.
pub proof fn lemma_cursor_is_the_selected_entry(options: Seq<CandidateOptionModel>, j: int)
    requires
        0 <= j < options.len(),
        forall|i: int| 0 <= i < options.len() ==> (#[trigger] options[i].selected == (i == j)),
    ensures
        first_selected_from(options, 0) == j,
{
    lemma_first_selected_from(options, 0, j);
}

} // verus!
