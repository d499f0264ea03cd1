//! Decides whether a text-services input context may be composed into.
//!
//! Three probes describe a context: the keyboard-disabled compartment, the
//! empty-context compartment and the input scope (password, PIN and private
//! fields). Each probe either declares a restriction, answers clear, fails to
//! answer, or reports optional metadata that could not be read right now.
//! A failed answer counts as restricted; unreadable optional metadata does not
//! invent a restriction, but keeps asking for another probe.
use vstd::prelude::*;

verus! {

/// `IS_PASSWORD`.
pub const IS_PASSWORD: i32 = 31;
/// `IS_PRIVATE`.
pub const IS_PRIVATE: i32 = 37;
/// `IS_NUMERIC_PASSWORD`.
pub const IS_NUMERIC_PASSWORD: i32 = 48;
/// `IS_NUMERIC_PIN`.
pub const IS_NUMERIC_PIN: i32 = 49;
/// `IS_ALPHANUMERIC_PIN`.
pub const IS_ALPHANUMERIC_PIN: i32 = 65;
/// `IS_ALPHANUMERIC_PIN_SET`.
pub const IS_ALPHANUMERIC_PIN_SET: i32 = 67;
/// `IS_DEFAULT`.
pub const IS_DEFAULT: i32 = 0;
/// `IS_URL`.
pub const IS_URL: i32 = 1;
/// `IS_EMAIL_USERNAME`.
pub const IS_EMAIL_USERNAME: i32 = 3;

/// Input scopes that mean "compose nothing here, remember nothing".
pub open spec fn is_sensitive_scope(scope: i32) -> bool {
    scope == IS_PASSWORD || scope == IS_NUMERIC_PASSWORD || scope == IS_NUMERIC_PIN
        || scope == IS_ALPHANUMERIC_PIN || scope == IS_ALPHANUMERIC_PIN_SET || scope == IS_PRIVATE
}

/// One sensitive entry among the scopes a range carries decides.
pub fn scopes_declare_sensitive(scopes: &[i32]) -> (found: bool)
    ensures
        found <==> exists|i: int| 0 <= i < scopes@.len() && is_sensitive_scope(#[trigger] scopes@[i]),
{
    let mut i: usize = 0;
    while i < scopes.len()
        invariant
            i <= scopes@.len(),
            forall|j: int| 0 <= j < i ==> !is_sensitive_scope(#[trigger] scopes@[j]),
        decreases scopes@.len() - i,
    {
        let scope = scopes[i];
        if scope == IS_PASSWORD || scope == IS_NUMERIC_PASSWORD || scope == IS_NUMERIC_PIN
            || scope == IS_ALPHANUMERIC_PIN || scope == IS_ALPHANUMERIC_PIN_SET
            || scope == IS_PRIVATE {
            return true;
        }
        i = i + 1;
    }
    false
}

/// Outcome of a single probe.
#[derive(Clone, Copy, Debug, PartialEq, Eq, Structural)]
pub enum ContextProbe {
    /// The context declared the restriction.
    Restricted,
    /// The context answered, and declared nothing.
    Clear,
    /// The read failed. Counts as restricted until a later probe answers.
    Unknown,
    /// The synchronous password-probe edit session was refused. This does not
    /// prove the field is sensitive.
    ProbeFailed,
    /// Optional metadata could not be read right now. It neither invents a
    /// restriction nor erases a known one.
    Unavailable,
}

impl ContextProbe {
    /// The probe keeps the context from composing.
    pub open spec fn spec_blocks_input(self) -> bool {
        self == ContextProbe::Restricted || self == ContextProbe::Unknown
    }

    /// The probe is a real answer, restricted or clear.
    pub open spec fn spec_is_known(self) -> bool {
        self == ContextProbe::Restricted || self == ContextProbe::Clear
    }

    /// The probe has to be repeated before its answer can be trusted.
    pub open spec fn spec_wants_retry(self) -> bool {
        self == ContextProbe::Unknown || self == ContextProbe::ProbeFailed
            || self == ContextProbe::Unavailable
    }

    /// A compartment or scope read: set means restricted, unset means clear.
    pub fn declared(set: bool) -> (probe: Self)
        ensures
            probe == (if set { ContextProbe::Restricted } else { ContextProbe::Clear }),
    {
        if set {
            ContextProbe::Restricted
        } else {
            ContextProbe::Clear
        }
    }

    pub fn blocks_input(self) -> (b: bool)
        ensures
            b == self.spec_blocks_input(),
    {
        match self {
            ContextProbe::Restricted | ContextProbe::Unknown => true,
            _ => false,
        }
    }

    pub fn is_known(self) -> (b: bool)
        ensures
            b == self.spec_is_known(),
    {
        match self {
            ContextProbe::Restricted | ContextProbe::Clear => true,
            _ => false,
        }
    }

    /// The name the diagnostics log uses for this probe.
    pub fn diagnostic_name(self) -> (name: &'static str)
        ensures
            name@ == (match self {
                ContextProbe::Restricted => "restricted"@,
                ContextProbe::Clear => "clear"@,
                ContextProbe::Unknown => "unknown"@,
                ContextProbe::ProbeFailed => "probe_failed"@,
                ContextProbe::Unavailable => "unavailable"@,
            }),
    {
        match self {
            ContextProbe::Restricted => "restricted",
            ContextProbe::Clear => "clear",
            ContextProbe::Unknown => "unknown",
            ContextProbe::ProbeFailed => "probe_failed",
            ContextProbe::Unavailable => "unavailable",
        }
    }
}

/// Why the context may not be composed into.
#[derive(Clone, Copy, Debug, PartialEq, Eq, Structural)]
pub enum InputBlockReason {
    KeyboardClosed,
    Sensitive,
    ContextDisabled,
    ProbeFailed,
}

impl InputBlockReason {
    /// The name the diagnostics log uses for this reason.
    pub fn diagnostic_name(self) -> (name: &'static str)
        ensures
            name@ == (match self {
                InputBlockReason::KeyboardClosed => "keyboard_closed"@,
                InputBlockReason::Sensitive => "sensitive"@,
                InputBlockReason::ContextDisabled => "context_disabled"@,
                InputBlockReason::ProbeFailed => "probe_failed"@,
            }),
    {
        match self {
            InputBlockReason::KeyboardClosed => "keyboard_closed",
            InputBlockReason::Sensitive => "sensitive",
            InputBlockReason::ContextDisabled => "context_disabled",
            InputBlockReason::ProbeFailed => "probe_failed",
        }
    }
}

/// What the current input context allows.
#[derive(Clone, Copy, Debug, PartialEq, Eq, Structural)]
pub struct ContextInputState {
    /// The keyboard-disabled compartment of the context.
    pub keyboard_disabled: ContextProbe,
    /// The empty-context compartment of the context.
    pub empty_context: ContextProbe,
    /// The password, PIN or private input scope.
    pub password: ContextProbe,
    /// The most recent input-scope read did not produce a fresh answer; the
    /// effective `password` value may be the last known one for this context.
    pub password_probe_failed: bool,
}

impl ContextInputState {
    /// No composition, no candidates, no user-dictionary learning.
    pub open spec fn spec_is_sensitive(self) -> bool {
        self.keyboard_disabled.spec_blocks_input() || self.empty_context.spec_blocks_input()
            || self.password.spec_blocks_input()
    }

    pub open spec fn spec_block_reason(self) -> Option<InputBlockReason> {
        if self.keyboard_disabled == ContextProbe::Restricted || self.empty_context
            == ContextProbe::Restricted {
            Some(InputBlockReason::ContextDisabled)
        } else if self.password == ContextProbe::Restricted {
            Some(InputBlockReason::Sensitive)
        } else if self.keyboard_disabled == ContextProbe::Unknown || self.empty_context
            == ContextProbe::Unknown || self.password == ContextProbe::Unknown {
            Some(InputBlockReason::ProbeFailed)
        } else {
            None
        }
    }

    pub open spec fn spec_needs_retry(self) -> bool {
        self.password_probe_failed || self.keyboard_disabled.spec_wants_retry()
            || self.empty_context.spec_wants_retry() || self.password.spec_wants_retry()
    }

    /// A context nothing has inspected yet: every probe is unknown.
    pub fn uninspected() -> (state: Self)
        ensures
            state.keyboard_disabled == ContextProbe::Unknown,
            state.empty_context == ContextProbe::Unknown,
            state.password == ContextProbe::Unknown,
            !state.password_probe_failed,
    {
        ContextInputState {
            keyboard_disabled: ContextProbe::Unknown,
            empty_context: ContextProbe::Unknown,
            password: ContextProbe::Unknown,
            password_probe_failed: false,
        }
    }

    /// Every probe answered, none of them declared a restriction.
    pub fn unrestricted() -> (state: Self)
        ensures
            state.keyboard_disabled == ContextProbe::Clear,
            state.empty_context == ContextProbe::Clear,
            state.password == ContextProbe::Clear,
            !state.password_probe_failed,
    {
        ContextInputState {
            keyboard_disabled: ContextProbe::Clear,
            empty_context: ContextProbe::Clear,
            password: ContextProbe::Clear,
            password_probe_failed: false,
        }
    }

    pub fn is_sensitive(&self) -> (b: bool)
        ensures
            b == self.spec_is_sensitive(),
    {
        self.keyboard_disabled.blocks_input() || self.empty_context.blocks_input()
            || self.password.blocks_input()
    }

    pub fn block_reason(&self) -> (reason: Option<InputBlockReason>)
        ensures
            reason == self.spec_block_reason(),
    {
        if self.keyboard_disabled == ContextProbe::Restricted || self.empty_context
            == ContextProbe::Restricted {
            return Some(InputBlockReason::ContextDisabled);
        }
        if self.password == ContextProbe::Restricted {
            return Some(InputBlockReason::Sensitive);
        }
        if self.keyboard_disabled == ContextProbe::Unknown || self.empty_context
            == ContextProbe::Unknown || self.password == ContextProbe::Unknown {
            return Some(InputBlockReason::ProbeFailed);
        }
        None
    }

    /// Take fresh compartment answers, keep the input-scope one.
    pub fn with_compartments(self, keyboard_disabled: ContextProbe, empty_context: ContextProbe) -> (state: Self)
        ensures
            state.keyboard_disabled == keyboard_disabled,
            state.empty_context == empty_context,
            state.password == self.password,
            state.password_probe_failed == self.password_probe_failed,
    {
        ContextInputState {
            keyboard_disabled,
            empty_context,
            password: self.password,
            password_probe_failed: self.password_probe_failed,
        }
    }

    /// A probe could not answer, so the state has to be inspected again before
    /// the context can go back to composing.
    pub fn needs_retry(&self) -> (b: bool)
        ensures
            b == self.spec_needs_retry(),
    {
        self.password_probe_failed || matches!(self.keyboard_disabled, ContextProbe::Unknown | ContextProbe::ProbeFailed | ContextProbe::Unavailable)
            || matches!(self.empty_context, ContextProbe::Unknown | ContextProbe::ProbeFailed | ContextProbe::Unavailable)
            || matches!(self.password, ContextProbe::Unknown | ContextProbe::ProbeFailed | ContextProbe::Unavailable)
    }
}

impl Default for ContextInputState {
    /// A context nothing has inspected yet fails closed.
    fn default() -> (state: Self)
        ensures
            state.keyboard_disabled == ContextProbe::Unknown,
            state.empty_context == ContextProbe::Unknown,
            state.password == ContextProbe::Unknown,
            !state.password_probe_failed,
    {
        ContextInputState::uninspected()
    }
}

/// What merging a fresh inspection with the last state of the same context
/// gives; `previous_same_context` is `None` when the context changed.
pub open spec fn spec_merge(previous_same_context: Option<ContextInputState>, inspected: ContextInputState) -> ContextInputState {
    match inspected.password {
        ContextProbe::ProbeFailed | ContextProbe::Unavailable => ContextInputState {
            password: match previous_same_context {
                Some(previous) if previous.password.spec_is_known() => previous.password,
                _ => inspected.password,
            },
            password_probe_failed: true,
            ..inspected
        },
        ContextProbe::Unknown => match previous_same_context {
            Some(previous) if previous.password == ContextProbe::Restricted => ContextInputState {
                password: ContextProbe::Restricted,
                password_probe_failed: true,
                ..inspected
            },
            _ => inspected,
        },
        _ => inspected,
    }
}

/// Merge a fresh inspection with what was known about the same context.
///
/// A refused or unavailable input-scope read keeps a known answer of the same
/// context and marks the state for another probe; an unknown read keeps a
/// previously declared restriction. A real answer replaces whatever was kept.
pub fn merge_probe_failed_state(previous_same_context: Option<ContextInputState>, inspected: ContextInputState) -> (merged: ContextInputState)
    ensures
        merged == spec_merge(previous_same_context, inspected),
{
    let mut merged = inspected;
    match inspected.password {
        ContextProbe::ProbeFailed | ContextProbe::Unavailable => {
            match previous_same_context {
                Some(previous) => {
                    if previous.password.is_known() {
                        merged.password = previous.password;
                    }
                },
                None => {},
            }
            merged.password_probe_failed = true;
        },
        ContextProbe::Unknown => {
            match previous_same_context {
                Some(previous) => {
                    if previous.password == ContextProbe::Restricted {
                        merged.password = ContextProbe::Restricted;
                        merged.password_probe_failed = true;
                    }
                },
                None => {},
            }
        },
        _ => {},
    }
    merged
}

/// Interpret a compartment read: `None` when the read failed, otherwise the
/// value as far as it could be read; an empty value is a real "not set".
#[derive(Clone, Copy, Debug, PartialEq, Eq, Structural)]
pub enum CompartmentValue {
    /// The compartment holds nothing.
    Empty,
    /// The compartment holds a 32-bit integer.
    Int(i32),
    /// The compartment holds something else.
    Other,
}

/// The probe a context compartment read stands for.
pub fn compartment_probe(read: Option<CompartmentValue>) -> (probe: ContextProbe)
    ensures
        probe == (match read {
            None => ContextProbe::Unknown,
            Some(CompartmentValue::Empty) => ContextProbe::Clear,
            Some(CompartmentValue::Int(flag)) => if flag != 0 { ContextProbe::Restricted } else { ContextProbe::Clear },
            Some(CompartmentValue::Other) => ContextProbe::Unknown,
        }),
{
    match read {
        None => ContextProbe::Unknown,
        Some(CompartmentValue::Empty) => ContextProbe::Clear,
        Some(CompartmentValue::Int(flag)) => ContextProbe::declared(flag != 0),
        Some(CompartmentValue::Other) => ContextProbe::Unknown,
    }
}

/// The system on/off state from the open/close compartment. Anything that is
/// not a clear "closed" keeps the keyboard open.
pub fn keyboard_is_open(read: Option<CompartmentValue>) -> (open: bool)
    ensures
        open == !(read == Some(CompartmentValue::Int(0))),
{
    match read {
        Some(CompartmentValue::Int(flag)) => flag != 0,
        _ => true,
    }
}

/// What the key path concludes from the two context compartments alone.
pub fn compartments_block_reason(keyboard_disabled: ContextProbe, empty_context: ContextProbe) -> (reason: Option<InputBlockReason>)
    ensures
        reason == (if keyboard_disabled == ContextProbe::Restricted || empty_context == ContextProbe::Restricted {
            Some(InputBlockReason::ContextDisabled)
        } else if keyboard_disabled == ContextProbe::Unknown || empty_context == ContextProbe::Unknown {
            Some(InputBlockReason::ProbeFailed)
        } else {
            None
        }),
{
    if keyboard_disabled == ContextProbe::Restricted || empty_context == ContextProbe::Restricted {
        Some(InputBlockReason::ContextDisabled)
    } else if keyboard_disabled == ContextProbe::Unknown || empty_context == ContextProbe::Unknown {
        Some(InputBlockReason::ProbeFailed)
    } else {
        None
    }
}

/// The outcome of reading the input scopes of the selection.
///
/// `scopes` is `None` when the call returned no buffer, with `count` the number
/// of entries it claimed.
pub fn input_scopes_probe(value_is_empty: bool, scopes: Option<&[i32]>, count: u32) -> (probe: ContextProbe)
    ensures
        probe == (if value_is_empty {
            ContextProbe::Clear
        } else {
            match scopes {
                None => if count == 0 { ContextProbe::Clear } else { ContextProbe::Unknown },
                Some(list) => if exists|i: int| 0 <= i < list@.len() && is_sensitive_scope(#[trigger] list@[i]) {
                    ContextProbe::Restricted
                } else {
                    ContextProbe::Clear
                },
            }
        }),
{
    if value_is_empty {
        return ContextProbe::Clear;
    }
    match scopes {
        None => if count == 0 {
            ContextProbe::Clear
        } else {
            ContextProbe::Unknown
        },
        Some(list) => ContextProbe::declared(scopes_declare_sensitive(list)),
    }
}

/// The context may be composed into exactly when no reason blocks it.
pub proof fn lemma_block_reason_iff_sensitive(state: ContextInputState)
    ensures
        state.spec_block_reason().is_some() <==> state.spec_is_sensitive(),
{
}

/// A context asks to be inspected again exactly when one of its probes has
/// no real answer (unknown, refused or unavailable) or the password probe
/// failed.
pub proof fn lemma_retry_iff_unanswered(state: ContextInputState)
    ensures
        state.spec_needs_retry() <==> (state.password_probe_failed
            || !state.keyboard_disabled.spec_is_known()
            || !state.empty_context.spec_is_known()
            || !state.password.spec_is_known()),
{
}

/// A context nothing has inspected yet neither composes nor stays as it is.
pub proof fn lemma_uninspected_fails_closed(state: ContextInputState)
    requires
        state.keyboard_disabled == ContextProbe::Unknown,
        state.empty_context == ContextProbe::Unknown,
        state.password == ContextProbe::Unknown,
    ensures
        state.spec_is_sensitive(),
        state.spec_needs_retry(),
{
}

/// A failed, refused or unavailable input-scope read of the same context never
/// erases a restriction that context declared before.
pub proof fn lemma_merge_keeps_declared_restriction(previous: ContextInputState, inspected: ContextInputState)
    requires
        previous.password == ContextProbe::Restricted,
        !inspected.password.spec_is_known(),
    ensures
        spec_merge(Some(previous), inspected).password == ContextProbe::Restricted,
        spec_merge(Some(previous), inspected).spec_is_sensitive(),
        spec_merge(Some(previous), inspected).spec_needs_retry(),
{
}

/// A real input-scope answer replaces whatever was retained before.
pub proof fn lemma_merge_known_answer_wins(previous: Option<ContextInputState>, inspected: ContextInputState)
    requires
        inspected.password.spec_is_known(),
    ensures
        spec_merge(previous, inspected) == inspected,
{
}

/// Without a previous answer for the same context nothing is inherited: the
/// input scope is the one just read, and an unanswered read asks for a retry.
pub proof fn lemma_merge_new_context_inherits_nothing(inspected: ContextInputState)
    ensures
        spec_merge(None, inspected).password == inspected.password,
        spec_merge(None, inspected).keyboard_disabled == inspected.keyboard_disabled,
        spec_merge(None, inspected).empty_context == inspected.empty_context,
        !inspected.password.spec_is_known() ==> spec_merge(None, inspected).spec_needs_retry(),
{
}

/// Merging never touches the two compartments, and never clears the retry
/// flag an inspection already carries.
pub proof fn lemma_merge_keeps_compartments(previous: Option<ContextInputState>, inspected: ContextInputState)
    ensures
        spec_merge(previous, inspected).keyboard_disabled == inspected.keyboard_disabled,
        spec_merge(previous, inspected).empty_context == inspected.empty_context,
        inspected.password_probe_failed ==> spec_merge(previous, inspected).password_probe_failed,
{
}

/// Unreadable optional metadata alone never makes a context sensitive.
pub proof fn lemma_unavailable_invents_no_restriction(previous: Option<ContextInputState>, inspected: ContextInputState)
    requires
        inspected.password == ContextProbe::Unavailable,
        !inspected.keyboard_disabled.spec_blocks_input(),
        !inspected.empty_context.spec_blocks_input(),
        match previous {
            Some(p) => p.password != ContextProbe::Restricted,
            None => true,
        },
    ensures
        !spec_merge(previous, inspected).spec_is_sensitive(),
        spec_merge(previous, inspected).spec_needs_retry(),
{
}

/// A compartment refresh keeps the input-scope answer, so a password field
/// stays sensitive whatever the compartments say.
pub proof fn lemma_refresh_keeps_password_restriction(state: ContextInputState, keyboard_disabled: ContextProbe, empty_context: ContextProbe)
    requires
        state.password == ContextProbe::Restricted,
    ensures
        (ContextInputState { keyboard_disabled, empty_context, ..state }).spec_is_sensitive(),
{
}

} // verus!
