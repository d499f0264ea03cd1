//! The engine state a frontend publishes, and the decisions frontends derive
//! from it: what goes into the document, whether a processed key is eaten,
//! and where the caret sits in the preedit.
use vstd::prelude::*;
use vstd::utf8::*;
use vstd::string::*;
use crate::text::{char_utf8_len, lemma_encode_utf8_concat, lemma_encode_utf8_take_step, str_eq};

verus! {

/// One entry of the candidate list.
#[derive(Clone, Debug)]
pub struct Candidate {
    pub text: String,
    pub comment: Option<String>,
}

/// What the engine reports after a key.
#[derive(Clone, Debug)]
pub struct ImeState {
    /// The text being composed.
    pub preedit: String,
    /// The caret inside the preedit, in Unicode scalars.
    pub cursor: usize,
    /// The candidates of the current page.
    pub candidates: Vec<Candidate>,
    /// The highlighted candidate on the page.
    pub highlighted_candidate_index: usize,
    /// The page number, starting at 0.
    pub page: usize,
    pub is_last_page: bool,
    /// The schema's select keys, if it declares any.
    pub select_keys: Option<String>,
    /// Text the engine committed with this key.
    pub committed: Option<String>,
    /// The engine is in ASCII (English) mode.
    pub ascii_mode: bool,
}

impl ImeState {
    /// Nothing composed, nothing committed, conversion mode.
    pub fn empty() -> (state: Self)
        ensures
            state.preedit@.len() == 0,
            state.cursor == 0,
            state.candidates@.len() == 0,
            state.highlighted_candidate_index == 0,
            state.page == 0,
            state.is_last_page,
            state.select_keys is None,
            state.committed is None,
            !state.ascii_mode,
    {
        ImeState {
            preedit: String::new(),
            cursor: 0,
            candidates: Vec::new(),
            highlighted_candidate_index: 0,
            page: 0,
            is_last_page: true,
            select_keys: None,
            committed: None,
            ascii_mode: false,
        }
    }
}

/// Something is on screen: a preedit or a candidate list.
pub open spec fn spec_has_visible_state(state: ImeState) -> bool {
    state.preedit@.len() > 0 || state.candidates@.len() > 0
}

/// The engine committed some non-empty text.
pub open spec fn spec_has_commit(state: ImeState) -> bool {
    match state.committed {
        Some(text) => text@.len() > 0,
        None => false,
    }
}

pub fn has_visible_state(state: &ImeState) -> (b: bool)
    ensures
        b == spec_has_visible_state(*state),
{
    state.preedit.as_str().unicode_len() != 0 || state.candidates.len() != 0
}

pub fn has_commit(state: &ImeState) -> (b: bool)
    ensures
        b == spec_has_commit(*state),
{
    match &state.committed {
        Some(text) => text.as_str().unicode_len() != 0,
        None => false,
    }
}

/// Where the composition range of the document goes.
#[derive(Clone, Copy, Debug, PartialEq, Eq, Structural)]
pub enum CompositionTarget {
    /// End the composition.
    Absent,
    /// Keep an empty composition as the panel's anchor.
    Empty,
    /// Put the preedit into the document.
    Preedit,
}

/// What applying a state does to the document.
#[derive(Clone, Copy, Debug, PartialEq, Eq, Structural)]
pub struct CompositionPlan {
    pub commit: bool,
    pub target: CompositionTarget,
}

/// Embedded mode writes the preedit into the document; panel mode only keeps
/// an empty anchor while something is visible.
pub fn plan_composition(state: &ImeState, embedded: bool) -> (plan: CompositionPlan)
    ensures
        plan.commit == spec_has_commit(*state),
        plan.target == (if embedded {
            if state.preedit@.len() == 0 { CompositionTarget::Absent } else { CompositionTarget::Preedit }
        } else if spec_has_visible_state(*state) {
            CompositionTarget::Empty
        } else {
            CompositionTarget::Absent
        }),
{
    let target = if embedded {
        if state.preedit.as_str().unicode_len() == 0 {
            CompositionTarget::Absent
        } else {
            CompositionTarget::Preedit
        }
    } else if has_visible_state(state) {
        CompositionTarget::Empty
    } else {
        CompositionTarget::Absent
    };
    CompositionPlan { commit: has_commit(state), target }
}

/// The visible part of two states differs.
pub open spec fn spec_visible_state_changed(before: ImeState, after: ImeState) -> bool {
    before.preedit@ != after.preedit@ || before.highlighted_candidate_index != after.highlighted_candidate_index
        || before.page != after.page || before.candidates@.len() != after.candidates@.len()
        || exists|i: int| 0 <= i < before.candidates@.len() && #[trigger] before.candidates@[i].text@ != after.candidates@[i].text@
}

pub fn visible_state_changed(before: &ImeState, after: &ImeState) -> (changed: bool)
    ensures
        changed == spec_visible_state_changed(*before, *after),
{
    if !str_eq(before.preedit.as_str(), after.preedit.as_str()) || before.highlighted_candidate_index
        != after.highlighted_candidate_index || before.page != after.page || before.candidates.len()
        != after.candidates.len() {
        return true;
    }
    let n = before.candidates.len();
    let mut i: usize = 0;
    while i < n
        invariant
            n == before.candidates@.len(),
            n == after.candidates@.len(),
            i <= n,
            forall|k: int| 0 <= k < i ==> #[trigger] before.candidates@[k].text@ == after.candidates@[k].text@,
        decreases n - i,
    {
        if !str_eq(before.candidates[i].text.as_str(), after.candidates[i].text.as_str()) {
            return true;
        }
        i = i + 1;
    }
    false
}

/// Whether a processed key is reported as eaten: anything the engine did —
/// accept the key, commit text, or change what is on screen — is eaten so the
/// host never sees it twice.
pub fn should_consume_processed_state(accepted: bool, before: &ImeState, after: &ImeState) -> (eaten: bool)
    ensures
        eaten == (accepted || spec_has_commit(*after) || spec_visible_state_changed(*before, *after)),
{
    accepted || has_commit(after) || visible_state_changed(before, after)
}

/// The caret offset an IBus text carries: the state's caret, clamped to the
/// preedit's length in Unicode scalars.
pub fn ibus_cursor_pos(state: &ImeState) -> (pos: u32)
    ensures
        pos == (if state.cursor < state.preedit@.len() { state.cursor as int } else { state.preedit@.len() as int }) as u32,
{
    let n = state.preedit.unicode_len();
    let clamped = if state.cursor < n { state.cursor } else { n };
    clamped as u32
}

/// What an IBus frontend publishes for a state, in order: the commit (after
/// clearing the preedit), the preedit with its caret or a hidden preedit, and
/// the candidate list or a hidden one; the mode hint is only drawn while no
/// candidate list is up.
#[derive(Clone, Debug)]
pub struct EngineUpdate {
    pub commit: Option<String>,
    pub preedit: Option<(String, u32)>,
    pub show_candidates: bool,
    pub mode_hint_allowed: bool,
}

/// The signals an engine state turns into.
pub fn engine_update(state: &ImeState) -> (update: EngineUpdate)
    ensures
        match update.commit {
            Some(text) => spec_has_commit(*state) && (state.committed matches Some(c) && text@ == c@),
            None => !spec_has_commit(*state),
        },
        match update.preedit {
            Some((text, cursor)) => state.preedit@.len() > 0 && text@ == state.preedit@
                && cursor == (if state.cursor < state.preedit@.len() { state.cursor as int } else { state.preedit@.len() as int }) as u32,
            None => state.preedit@.len() == 0,
        },
        update.show_candidates == (state.candidates@.len() > 0),
        update.mode_hint_allowed == (state.candidates@.len() == 0),
{
    let commit = match &state.committed {
        Some(text) => if text.as_str().unicode_len() > 0 {
            Some(text.clone())
        } else {
            None
        },
        None => None,
    };
    let preedit = if state.preedit.as_str().unicode_len() == 0 {
        None
    } else {
        Some((state.preedit.clone(), ibus_cursor_pos(state)))
    };
    let show_candidates = state.candidates.len() > 0;
    EngineUpdate { commit, preedit, show_candidates, mode_hint_allowed: !show_candidates }
}

/// The byte offset of the caret, which counts Unicode scalars, in the UTF-8
/// preedit; past the end it is the preedit's byte length.
pub open spec fn spec_cursor_byte_offset(preedit: Seq<char>, cursor: int) -> int {
    encode_utf8(preedit.take(if cursor < preedit.len() { cursor } else { preedit.len() as int })).len() as int
}

/// Preedit indices of the Wayland input-method protocols are byte offsets.
pub fn preedit_cursor_bytes(preedit: &str, cursor: usize) -> (offset: i32)
    ensures
        offset == spec_cursor_byte_offset(preedit@, cursor as int) as i32,
{
    let n = preedit.unicode_len();
    let stop = if cursor < n { cursor } else { n };
    let mut offset: u128 = 0;
    let mut i: usize = 0;
    assert(preedit@.take(0) =~= Seq::<char>::empty());
    assert(encode_utf8(Seq::<char>::empty()) =~= Seq::<u8>::empty());
    while i < stop
        invariant
            n == preedit@.len(),
            stop <= n,
            i <= stop,
            offset == encode_utf8(preedit@.take(i as int)).len(),
            offset <= 4 * i,
        decreases stop - i,
    {
        let c = preedit.get_char(i);
        let width = char_utf8_len(c);
        proof {
            lemma_encode_utf8_take_step(preedit@, i as int);
        }
        offset = offset + width as u128;
        i = i + 1;
    }
    offset as i32
}

/// The caret offset never passes the end of the preedit and never moves back
/// as the caret moves forward.
pub proof fn lemma_cursor_offset_monotone(preedit: Seq<char>, a: int, b: int)
    requires
        0 <= a <= b,
    ensures
        spec_cursor_byte_offset(preedit, a) <= spec_cursor_byte_offset(preedit, b),
        spec_cursor_byte_offset(preedit, b) <= encode_utf8(preedit).len(),
{
    let ca = if a < preedit.len() { a } else { preedit.len() as int };
    let cb = if b < preedit.len() { b } else { preedit.len() as int };
    assert(preedit.take(cb) =~= preedit.take(ca) + preedit.take(cb).skip(ca));
    lemma_encode_utf8_concat(preedit.take(ca), preedit.take(cb).skip(ca));
    assert(preedit =~= preedit.take(cb) + preedit.skip(cb));
    lemma_encode_utf8_concat(preedit.take(cb), preedit.skip(cb));
}

} // verus!
