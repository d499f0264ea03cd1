//! Key routing shared by the Linux frontends: which events reach the engine,
//! when a Shift release is a mode switch, what a processed key publishes, and
//! which keysym an X11 keycode stands for.
use vstd::prelude::*;
use crate::ime_state::ImeState;
use crate::policy::{InputContextPolicy, policy_for};

verus! {

/// Shift held, in the engine's modifier mask.
pub const RIME_MOD_SHIFT: u32 = 0x1;
/// Control held.
pub const RIME_MOD_CONTROL: u32 = 0x4;
/// Alt held.
pub const RIME_MOD_ALT: u32 = 0x8;
/// The event is a key release.
pub const RIME_RELEASE_MASK: u32 = 0x4000_0000;

/// `XK_Shift_L`.
pub const XK_SHIFT_L: u32 = 0xffe1;
/// `XK_Shift_R`.
pub const XK_SHIFT_R: u32 = 0xffe2;
/// `NoSymbol`.
pub const XK_NO_SYMBOL: u32 = 0;

/// The keys the engine's ASCII composer switches the conversion mode on.
pub open spec fn spec_is_shift_key(sym: u32) -> bool {
    sym == XK_SHIFT_L || sym == XK_SHIFT_R
}

pub fn is_shift_key(sym: u32) -> (b: bool)
    ensures
        b == spec_is_shift_key(sym),
{
    sym == XK_SHIFT_L || sym == XK_SHIFT_R
}

/// What a key event is before the current composition is looked at.
#[derive(Clone, Copy, Debug, PartialEq, Eq, Structural)]
pub enum KeyPhase {
    /// A secret field: nothing reaches the engine and nothing is drawn.
    Sensitive,
    /// A Shift release, which the ASCII composer may turn into a mode switch.
    ShiftRelease,
    /// Any other release; the engine only wants Shift releases.
    IgnoredRelease,
    /// A press, still to be routed against the composition.
    Press,
}

/// The phase of a key event under a context's policy.
pub open spec fn spec_key_phase(keyval: u32, state: u32, policy: InputContextPolicy) -> KeyPhase {
    if !policy.composing {
        KeyPhase::Sensitive
    } else if state & RIME_RELEASE_MASK == 0 {
        KeyPhase::Press
    } else if spec_is_shift_key(keyval) {
        KeyPhase::ShiftRelease
    } else {
        KeyPhase::IgnoredRelease
    }
}

pub fn key_phase(keyval: u32, state: u32, policy: InputContextPolicy) -> (phase: KeyPhase)
    ensures
        phase == spec_key_phase(keyval, state, policy),
{
    if !policy.composing {
        return KeyPhase::Sensitive;
    }
    if state & RIME_RELEASE_MASK == 0 {
        return KeyPhase::Press;
    }
    if is_shift_key(keyval) {
        KeyPhase::ShiftRelease
    } else {
        KeyPhase::IgnoredRelease
    }
}

/// Where a press goes once the composition is known.
#[derive(Clone, Copy, Debug, PartialEq, Eq, Structural)]
pub enum PressRoute {
    /// Nothing is being composed and the key belongs to the client.
    BypassEmptyComposition,
    /// `Return` over a live composition belongs to the engine's editor.
    Enter,
    /// Everything else, digits and select keys included, goes to the engine.
    Rime,
}

/// In a secret field no key event, press or release, reaches the engine.
pub proof fn lemma_sensitive_context_never_reaches_the_engine(keyval: u32, state: u32)
    ensures
        spec_key_phase(keyval, state, policy_for(true)) == KeyPhase::Sensitive,
{
}

/// Of the releases in an ordinary field only the Shift ones reach the engine.
pub proof fn lemma_only_shift_releases_survive(keyval: u32, state: u32)
    requires
        state & RIME_RELEASE_MASK != 0,
    ensures
        spec_key_phase(keyval, state, policy_for(false)) == (if spec_is_shift_key(keyval) {
            KeyPhase::ShiftRelease
        } else {
            KeyPhase::IgnoredRelease
        }),
{
}

/// Where a press goes, given the engine's key policy for the composition
/// before it: a key the policy hands back over an empty composition bypasses
/// the engine, `Return` whose policy forwards it goes to the engine's editor,
/// and everything else is an ordinary engine key.
pub fn press_route(bypass_empty_composition: bool, is_enter_key: bool, enter_forwards_to_engine: bool) -> (route: PressRoute)
    ensures
        route == (if bypass_empty_composition {
            PressRoute::BypassEmptyComposition
        } else if is_enter_key && enter_forwards_to_engine {
            PressRoute::Enter
        } else {
            PressRoute::Rime
        }),
{
    if bypass_empty_composition {
        return PressRoute::BypassEmptyComposition;
    }
    if is_enter_key && enter_forwards_to_engine {
        return PressRoute::Enter;
    }
    PressRoute::Rime
}

/// What a frontend has to publish once a key has been processed.
#[derive(Debug)]
pub enum KeyOutcome {
    /// Nothing to publish; the client keeps the key.
    Forward,
    /// Tear the preedit and candidate interface down; the client keeps the key.
    ClearUi,
    /// Only the conversion mode moved.
    ModeChanged { ascii_mode: bool, accepted: bool },
    /// Publish the new engine state.
    Publish { state: Box<ImeState>, accepted: bool },
}

impl KeyOutcome {
    /// What `ProcessKeyEvent` answers the client.
    pub fn accepted(&self) -> (b: bool)
        ensures
            b == (match self {
                KeyOutcome::Forward | KeyOutcome::ClearUi => false,
                KeyOutcome::ModeChanged { accepted, .. } => *accepted,
                KeyOutcome::Publish { accepted, .. } => *accepted,
            }),
    {
        match self {
            KeyOutcome::Forward | KeyOutcome::ClearUi => false,
            KeyOutcome::ModeChanged { accepted, .. } => *accepted,
            KeyOutcome::Publish { accepted, .. } => *accepted,
        }
    }

    /// A Shift release the engine saw only moves the conversion mode; with no
    /// usable engine the client keeps the key. `result` is the engine's ASCII
    /// mode after the release and whether it accepted it.
    pub fn from_release(result: Option<(bool, bool)>) -> (outcome: Self)
        ensures
            match result {
                None => outcome is Forward,
                Some((ascii_mode, accepted)) => outcome == (KeyOutcome::ModeChanged { ascii_mode, accepted }),
            },
    {
        match result {
            Some((ascii_mode, accepted)) => KeyOutcome::ModeChanged { ascii_mode, accepted },
            None => KeyOutcome::Forward,
        }
    }

    /// A session without a usable engine must not swallow the key.
    pub fn from_result(result: Option<(ImeState, bool)>) -> (outcome: Self)
        ensures
            match result {
                None => outcome is Forward,
                Some((state, accepted)) => outcome matches KeyOutcome::Publish { state: s, accepted: a }
                    && a == accepted && *s == state,
            },
    {
        match result {
            Some((state, accepted)) => KeyOutcome::Publish { state: Box::new(state), accepted },
            None => KeyOutcome::Forward,
        }
    }
}

/// The conversion mode a frontend last announced to the desktop.
#[derive(Debug)]
pub struct ModeIndicator {
    ascii_mode: bool,
}

/// A conversion mode that has to be announced.
#[derive(Clone, Copy, Debug, PartialEq, Eq, Structural)]
pub struct ModeChange {
    pub ascii_mode: bool,
    /// Also draw the transient on-screen hint.
    pub hint: bool,
}

impl ModeIndicator {
    /// The mode the desktop currently shows.
    pub closed spec fn shown(self) -> bool {
        self.ascii_mode
    }

    /// The engine starts a session in conversion mode.
    pub fn new() -> (indicator: Self)
        ensures
            !indicator.shown(),
    {
        ModeIndicator { ascii_mode: false }
    }

    /// Adopt the mode the engine reports without asking for an announcement.
    pub fn adopt(&mut self, ascii_mode: bool)
        ensures
            final(self).shown() == ascii_mode,
    {
        self.ascii_mode = ascii_mode;
    }

    /// `None` when the desktop already shows `ascii_mode`.
    pub fn update(&mut self, ascii_mode: bool, hint: bool) -> (change: Option<ModeChange>)
        ensures
            final(self).shown() == ascii_mode,
            change == spec_announcement(old(self).shown(), ascii_mode, hint),
    {
        let previous = self.ascii_mode;
        self.ascii_mode = ascii_mode;
        if previous == ascii_mode {
            return None;
        }
        Some(ModeChange { ascii_mode, hint })
    }
}

/// What announcing `ascii_mode` asks for while the desktop shows `shown`.
pub open spec fn spec_announcement(shown: bool, ascii_mode: bool, hint: bool) -> Option<ModeChange> {
    if shown == ascii_mode {
        None
    } else {
        Some(ModeChange { ascii_mode, hint })
    }
}

/// The indicator only speaks when the mode moves: once a mode is shown,
/// announcing it again is silent, and announcing the other mode always speaks.
pub proof fn lemma_mode_indicator_speaks_when_the_mode_moves(shown: bool, ascii_mode: bool, hint: bool)
    ensures
        spec_announcement(ascii_mode, ascii_mode, hint) is None,
        (spec_announcement(shown, ascii_mode, hint) is Some) <==> shown != ascii_mode,
{
}

/// `XNFilterEvents` bits `KeyPressMask | KeyReleaseMask`: the ASCII composer
/// needs the release to see a solo Shift.
pub const XIM_FILTER_KEY_EVENTS: u32 = 3;

/// The keysym at `index` of a `GetKeyboardMapping` reply, `NoSymbol` past it.
pub open spec fn keysym_entry(keysyms: Seq<u32>, index: int) -> u32 {
    if 0 <= index < keysyms.len() { keysyms[index] } else { 0 }
}

/// Pick a keysym out of a `GetKeyboardMapping` reply. A group whose shifted
/// level is `NoSymbol` behaves as if it repeated the unshifted one.
pub open spec fn spec_keysym_at_level(keysyms: Seq<u32>, min_keycode: u8, per: u8, keycode: u8, shift: bool) -> u32 {
    if keycode < min_keycode || per == 0 {
        0
    } else {
        let base = (keycode - min_keycode) * per;
        let unshifted = keysym_entry(keysyms, base);
        if !shift || per < 2 {
            unshifted
        } else {
            let shifted = keysym_entry(keysyms, base + 1);
            if shifted == 0 { unshifted } else { shifted }
        }
    }
}

pub fn keysym_at_level(keysyms: &[u32], min_keycode: u8, keysyms_per_keycode: u8, keycode: u8, shift: bool) -> (sym: u32)
    ensures
        sym == spec_keysym_at_level(keysyms@, min_keycode, keysyms_per_keycode, keycode, shift),
{
    let kc = keycode as usize;
    let min = min_keycode as usize;
    let per = keysyms_per_keycode as usize;
    if kc < min || per == 0 {
        return 0;
    }
    assert((kc - min) * per <= 255 * 255) by (nonlinear_arith)
        requires
            kc - min <= 255,
            per <= 255,
            kc >= min,
    ;
    let base = (kc - min) * per;
    let unshifted = if base < keysyms.len() { keysyms[base] } else { 0 };
    if !shift || per < 2 {
        return unshifted;
    }
    let shifted = if base + 1 < keysyms.len() { keysyms[base + 1] } else { 0 };
    if shifted == 0 {
        unshifted
    } else {
        shifted
    }
}

/// A Shift level never hides a key that has a base keysym.
pub proof fn lemma_shift_level_never_loses_the_key(keysyms: Seq<u32>, min_keycode: u8, per: u8, keycode: u8)
    requires
        spec_keysym_at_level(keysyms, min_keycode, per, keycode, false) != 0,
    ensures
        spec_keysym_at_level(keysyms, min_keycode, per, keycode, true) != 0,
{
}

/// What the Wayland input method does with a press before the engine sees it.
#[derive(Clone, Copy, Debug, PartialEq, Eq, Structural)]
pub enum PressGate {
    /// Hand the key to the client unchanged.
    Forward,
    /// The key has no keysym and is dropped.
    Drop,
    /// Route the key against the composition with these modifiers.
    Route { effective_mods: u32 },
}

/// An inactive input method and a secret field forward every key; a Shift key
/// is routed without its own Shift bit.
pub open spec fn spec_wayland_press_gate(active: bool, policy: InputContextPolicy, sym: u32, mods: u32) -> PressGate {
    if !active || !policy.composing {
        PressGate::Forward
    } else if sym == XK_NO_SYMBOL {
        PressGate::Drop
    } else if spec_is_shift_key(sym) {
        PressGate::Route { effective_mods: mods & !RIME_MOD_SHIFT }
    } else {
        PressGate::Route { effective_mods: mods }
    }
}

pub fn wayland_press_gate(active: bool, policy: InputContextPolicy, sym: u32, mods: u32) -> (gate: PressGate)
    ensures
        gate == spec_wayland_press_gate(active, policy, sym, mods),
{
    if !active || !policy.composing {
        return PressGate::Forward;
    }
    if sym == XK_NO_SYMBOL {
        return PressGate::Drop;
    }
    if is_shift_key(sym) {
        PressGate::Route { effective_mods: mods & !RIME_MOD_SHIFT }
    } else {
        PressGate::Route { effective_mods: mods }
    }
}

/// A secret field gets every key back unchanged, and a routed Shift key
/// never carries its own Shift bit.
pub proof fn lemma_secret_fields_get_every_key_back(active: bool, sym: u32, mods: u32)
    ensures
        spec_wayland_press_gate(active, policy_for(true), sym, mods) == PressGate::Forward,
        spec_is_shift_key(sym) ==> (spec_wayland_press_gate(active, policy_for(false), sym, mods) matches PressGate::Route {
            effective_mods,
        } ==> effective_mods & RIME_MOD_SHIFT == 0),
{
    let m = mods & !RIME_MOD_SHIFT;
    assert(m & RIME_MOD_SHIFT == 0) by (bit_vector)
        requires
            m == mods & !1u32,
    ;
}

} // verus!
