//! What a client's content type means for the session.
//!
//! Password and PIN fields, and fields whose client asks the input method to
//! forget what is typed, get a policy that keeps every key away from the
//! engine: no preedit, no candidate window and no user-dictionary learning.
//! Each protocol numbers its purposes and hints differently, so each has its
//! own table.
use vstd::prelude::*;

verus! {

/// The session policy of an input context.
#[derive(Clone, Copy, Debug, PartialEq, Eq, Structural)]
pub struct InputContextPolicy {
    /// Keys reach the engine and a composition may be shown.
    pub composing: bool,
    /// What is typed may be learned into the user dictionary.
    pub learning: bool,
}

impl InputContextPolicy {
    /// An ordinary text field.
    pub fn normal() -> (policy: Self)
        ensures
            policy.composing,
            policy.learning,
    {
        InputContextPolicy { composing: true, learning: true }
    }

    /// A secret field: nothing is composed and nothing is learned.
    pub fn sensitive() -> (policy: Self)
        ensures
            !policy.composing,
            !policy.learning,
    {
        InputContextPolicy { composing: false, learning: false }
    }
}

impl Default for InputContextPolicy {
    /// An ordinary text field.
    fn default() -> (policy: Self)
        ensures
            policy.composing,
            policy.learning,
    {
        InputContextPolicy::normal()
    }
}

/// The policy for a field that is or is not a secret.
pub open spec fn policy_for(secret: bool) -> InputContextPolicy {
    if secret {
        InputContextPolicy { composing: false, learning: false }
    } else {
        InputContextPolicy { composing: true, learning: true }
    }
}

/// `IBusInputPurpose::PASSWORD`.
pub const IBUS_INPUT_PURPOSE_PASSWORD: u32 = 8;
/// `IBusInputPurpose::PIN`.
pub const IBUS_INPUT_PURPOSE_PIN: u32 = 9;
/// `IBusInputHints::PRIVATE`: the client asks the input method not to
/// remember what is typed.
pub const IBUS_INPUT_HINT_PRIVATE: u32 = 0x800;

pub open spec fn spec_is_sensitive_ibus_content_type(purpose: u32, hints: u32) -> bool {
    purpose == IBUS_INPUT_PURPOSE_PASSWORD || purpose == IBUS_INPUT_PURPOSE_PIN || hints & IBUS_INPUT_HINT_PRIVATE != 0
}

/// Whether an IBus `content-type` describes a secret the engine must not touch.
pub fn is_sensitive_ibus_content_type(purpose: u32, hints: u32) -> (b: bool)
    ensures
        b == spec_is_sensitive_ibus_content_type(purpose, hints),
{
    purpose == IBUS_INPUT_PURPOSE_PASSWORD || purpose == IBUS_INPUT_PURPOSE_PIN || hints & IBUS_INPUT_HINT_PRIVATE != 0
}

/// The session policy an IBus `content-type` maps to.
pub fn ibus_content_type_policy(purpose: u32, hints: u32) -> (policy: InputContextPolicy)
    ensures
        policy == policy_for(spec_is_sensitive_ibus_content_type(purpose, hints)),
{
    if is_sensitive_ibus_content_type(purpose, hints) {
        InputContextPolicy::sensitive()
    } else {
        InputContextPolicy::normal()
    }
}

/// `zwp_text_input_v3::content_purpose::password`.
pub const TEXT_INPUT_PURPOSE_PASSWORD: u32 = 8;
/// `zwp_text_input_v3::content_purpose::pin`.
pub const TEXT_INPUT_PURPOSE_PIN: u32 = 9;
/// `zwp_text_input_v3::content_hint`: `hidden_text | sensitive_data`.
pub const TEXT_INPUT_HINT_SECRET: u32 = 0xc0;
/// `zwp_text_input_v1::content_purpose::password`; v1 has no `pin`.
pub const TEXT_INPUT_V1_PURPOSE_PASSWORD: u32 = 8;
/// `zwp_text_input_v1::content_hint`: `hidden_text | sensitive_data`.
pub const TEXT_INPUT_V1_HINT_SECRET: u32 = 0xc0;

/// The session policy a `zwp_input_method_v2` content type maps to.
pub fn text_input_v3_policy(hint: u32, purpose: u32) -> (policy: InputContextPolicy)
    ensures
        policy == policy_for(purpose == TEXT_INPUT_PURPOSE_PASSWORD || purpose == TEXT_INPUT_PURPOSE_PIN
            || hint & TEXT_INPUT_HINT_SECRET != 0),
{
    if purpose == TEXT_INPUT_PURPOSE_PASSWORD || purpose == TEXT_INPUT_PURPOSE_PIN || hint & TEXT_INPUT_HINT_SECRET != 0 {
        InputContextPolicy::sensitive()
    } else {
        InputContextPolicy::normal()
    }
}

/// The session policy a `zwp_input_method_context_v1` content type maps to.
pub fn text_input_v1_policy(hint: u32, purpose: u32) -> (policy: InputContextPolicy)
    ensures
        policy == policy_for(purpose == TEXT_INPUT_V1_PURPOSE_PASSWORD || hint & TEXT_INPUT_V1_HINT_SECRET != 0),
{
    if purpose == TEXT_INPUT_V1_PURPOSE_PASSWORD || hint & TEXT_INPUT_V1_HINT_SECRET != 0 {
        InputContextPolicy::sensitive()
    } else {
        InputContextPolicy::normal()
    }
}

/// The IBus `content-type` a client last set on its context.
#[derive(Debug)]
pub struct ContentTypeState {
    purpose: u32,
    hints: u32,
}

/// What a new content type asks the frontend to do.
#[derive(Clone, Copy, Debug, PartialEq, Eq, Structural)]
pub struct ContentTypeChange {
    /// The policy to push into the session.
    pub policy: InputContextPolicy,
    /// The context just turned into a secret field: whatever preedit and
    /// candidate list is still on screen has to go.
    pub turned_sensitive: bool,
}

impl ContentTypeState {
    pub closed spec fn spec_get(self) -> (u32, u32) {
        (self.purpose, self.hints)
    }

    /// A context starts out with purpose `FREE_FORM` and no hints.
    pub fn new() -> (state: Self)
        ensures
            state.spec_get() == (0u32, 0u32),
    {
        ContentTypeState { purpose: 0, hints: 0 }
    }

    /// The pair the `ContentType` property reports.
    pub fn get(&self) -> (pair: (u32, u32))
        ensures
            pair == self.spec_get(),
    {
        (self.purpose, self.hints)
    }

    /// Record a content type and say what it changes.
    pub fn set(&mut self, purpose: u32, hints: u32) -> (change: ContentTypeChange)
        ensures
            final(self).spec_get() == (purpose, hints),
            change == spec_content_type_change(old(self).spec_get(), purpose, hints),
    {
        let (previous_purpose, previous_hints) = self.get();
        self.purpose = purpose;
        self.hints = hints;
        let previous = ibus_content_type_policy(previous_purpose, previous_hints);
        let policy = ibus_content_type_policy(purpose, hints);
        ContentTypeChange { policy, turned_sensitive: previous.composing && !policy.composing }
    }
}

/// What setting `(purpose, hints)` over the recorded `previous` pair asks
/// for: the new policy, and a teardown only on the step from an ordinary
/// field into a secret one.
pub open spec fn spec_content_type_change(previous: (u32, u32), purpose: u32, hints: u32) -> ContentTypeChange {
    ContentTypeChange {
        policy: policy_for(spec_is_sensitive_ibus_content_type(purpose, hints)),
        turned_sensitive: !spec_is_sensitive_ibus_content_type(previous.0, previous.1)
            && spec_is_sensitive_ibus_content_type(purpose, hints),
    }
}

/// Once a secret content type is recorded, setting any content type again
/// never asks for another teardown; only the step in from an ordinary field
/// does.
pub proof fn lemma_repeated_content_type_is_quiet(purpose: u32, hints: u32, purpose2: u32, hints2: u32)
    requires
        spec_is_sensitive_ibus_content_type(purpose, hints),
    ensures
        !spec_content_type_change((purpose, hints), purpose2, hints2).turned_sensitive,
        spec_content_type_change((0u32, 0u32), purpose, hints).turned_sensitive,
{
    assert(0u32 & 0x800u32 == 0u32) by (bit_vector);
}

/// A secret policy never learns and never composes, whatever protocol it came
/// from; an ordinary one does both.
pub proof fn lemma_policy_is_all_or_nothing(secret: bool)
    ensures
        policy_for(secret).composing == policy_for(secret).learning,
        policy_for(secret).composing == !secret,
{
}

} // verus!
