//! Windows virtual-key codes to X11 keysyms, and which keys the text service
//! claims.
//!
//! The engine speaks X11 keysyms, the same convention the Linux frontends
//! use. What the keyboard layout produces for a printable key, and what a
//! `VK_PACKET` carries, are read from the system by the caller and passed in.
use vstd::prelude::*;
use crate::keys::{RIME_MOD_SHIFT, RIME_MOD_CONTROL, RIME_MOD_ALT};

verus! {

pub const VK_BACK: u16 = 0x08;
pub const VK_TAB: u16 = 0x09;
pub const VK_RETURN: u16 = 0x0D;
pub const VK_SHIFT: u16 = 0x10;
pub const VK_ESCAPE: u16 = 0x1B;
pub const VK_SPACE: u16 = 0x20;
pub const VK_PRIOR: u16 = 0x21;
pub const VK_NEXT: u16 = 0x22;
pub const VK_END: u16 = 0x23;
pub const VK_HOME: u16 = 0x24;
pub const VK_LEFT: u16 = 0x25;
pub const VK_UP: u16 = 0x26;
pub const VK_RIGHT: u16 = 0x27;
pub const VK_DOWN: u16 = 0x28;
pub const VK_DELETE: u16 = 0x2E;
pub const VK_0: u16 = 0x30;
pub const VK_1: u16 = 0x31;
pub const VK_9: u16 = 0x39;
pub const VK_A: u16 = 0x41;
pub const VK_Z: u16 = 0x5A;
pub const VK_NUMPAD0: u16 = 0x60;
pub const VK_NUMPAD9: u16 = 0x69;
pub const VK_MULTIPLY: u16 = 0x6A;
pub const VK_ADD: u16 = 0x6B;
pub const VK_SUBTRACT: u16 = 0x6D;
pub const VK_DECIMAL: u16 = 0x6E;
pub const VK_DIVIDE: u16 = 0x6F;
pub const VK_F4: u16 = 0x73;
pub const VK_LSHIFT: u16 = 0xA0;
pub const VK_RSHIFT: u16 = 0xA1;
pub const VK_OEM_1: u16 = 0xBA;
pub const VK_OEM_PLUS: u16 = 0xBB;
pub const VK_OEM_COMMA: u16 = 0xBC;
pub const VK_OEM_MINUS: u16 = 0xBD;
pub const VK_OEM_PERIOD: u16 = 0xBE;
pub const VK_OEM_2: u16 = 0xBF;
pub const VK_OEM_3: u16 = 0xC0;
pub const VK_OEM_4: u16 = 0xDB;
pub const VK_OEM_5: u16 = 0xDC;
pub const VK_OEM_6: u16 = 0xDD;
pub const VK_OEM_7: u16 = 0xDE;
pub const VK_OEM_102: u16 = 0xE2;
pub const VK_PACKET: u16 = 0xE7;

/// `XK_Page_Up` (`XK_Prior`).
pub const XK_PAGE_UP: u32 = 0xFF55;
/// `XK_Page_Down` (`XK_Next`).
pub const XK_PAGE_DOWN: u32 = 0xFF56;
/// What the touch keyboard sends for its next-page key.
pub const TOUCH_KEYBOARD_NEXT_PAGE: u32 = 0xF003;
/// What the touch keyboard sends for its previous-page key.
pub const TOUCH_KEYBOARD_PREVIOUS_PAGE: u32 = 0xF004;

pub open spec fn spec_is_letter_vk(vk: u16) -> bool {
    VK_A <= vk && vk <= VK_Z
}

pub fn is_letter_vk(vk: u16) -> (b: bool)
    ensures
        b == spec_is_letter_vk(vk),
{
    VK_A <= vk && vk <= VK_Z
}

/// The keys whose character the keyboard layout decides.
pub open spec fn spec_is_printable_vk(vk: u16) -> bool {
    (VK_0 <= vk && vk <= VK_9) || vk == VK_OEM_MINUS || vk == VK_OEM_PLUS || vk == VK_OEM_COMMA
        || vk == VK_OEM_PERIOD || vk == VK_OEM_1 || vk == VK_OEM_2 || vk == VK_OEM_3 || vk == VK_OEM_4
        || vk == VK_OEM_5 || vk == VK_OEM_6 || vk == VK_OEM_7 || vk == VK_OEM_102
}

pub fn is_printable_vk(vk: u16) -> (b: bool)
    ensures
        b == spec_is_printable_vk(vk),
{
    (VK_0 <= vk && vk <= VK_9) || vk == VK_OEM_MINUS || vk == VK_OEM_PLUS || vk == VK_OEM_COMMA
        || vk == VK_OEM_PERIOD || vk == VK_OEM_1 || vk == VK_OEM_2 || vk == VK_OEM_3 || vk == VK_OEM_4
        || vk == VK_OEM_5 || vk == VK_OEM_6 || vk == VK_OEM_7 || vk == VK_OEM_102
}

/// Editing and navigation keys, which never start a composition.
pub open spec fn spec_is_nonstarter_vk(vk: u16) -> bool {
    vk == VK_SPACE || vk == VK_BACK || vk == VK_TAB || vk == VK_DELETE || vk == VK_ESCAPE || vk == VK_RETURN
        || vk == VK_LEFT || vk == VK_RIGHT || vk == VK_UP || vk == VK_DOWN || vk == VK_HOME || vk == VK_END
        || vk == VK_PRIOR || vk == VK_NEXT
}

pub fn is_nonstarter_vk(vk: u16) -> (b: bool)
    ensures
        b == spec_is_nonstarter_vk(vk),
{
    vk == VK_SPACE || vk == VK_BACK || vk == VK_TAB || vk == VK_DELETE || vk == VK_ESCAPE || vk == VK_RETURN
        || vk == VK_LEFT || vk == VK_RIGHT || vk == VK_UP || vk == VK_DOWN || vk == VK_HOME || vk == VK_END
        || vk == VK_PRIOR || vk == VK_NEXT
}

pub fn is_space_vk(vk: u16) -> (b: bool)
    ensures
        b == (vk == VK_SPACE),
{
    vk == VK_SPACE
}

pub fn is_enter_vk(vk: u16) -> (b: bool)
    ensures
        b == (vk == VK_RETURN),
{
    vk == VK_RETURN
}

/// The Shift keysym a Shift key reports.
pub open spec fn spec_shift_keysym_for_vk(vk: u16) -> Option<u32> {
    if vk == VK_SHIFT || vk == VK_LSHIFT {
        Some(0xffe1u32)
    } else if vk == VK_RSHIFT {
        Some(0xffe2u32)
    } else {
        None
    }
}

pub fn shift_keysym_for_vk(vk: u16) -> (sym: Option<u32>)
    ensures
        sym == spec_shift_keysym_for_vk(vk),
{
    if vk == VK_SHIFT || vk == VK_LSHIFT {
        Some(0xffe1)
    } else if vk == VK_RSHIFT {
        Some(0xffe2)
    } else {
        None
    }
}

pub fn is_shift_vk(vk: u16) -> (b: bool)
    ensures
        b == spec_shift_keysym_for_vk(vk) is Some,
{
    shift_keysym_for_vk(vk).is_some()
}

/// The ASCII character of a digit or punctuation key without Shift.
pub open spec fn spec_ascii_char_for_vk(vk: u16) -> Option<char> {
    if VK_0 <= vk && vk <= VK_9 {
        Some(((vk - VK_0 + 48) as u32) as char)
    } else if VK_NUMPAD0 <= vk && vk <= VK_NUMPAD9 {
        Some(((vk - VK_NUMPAD0 + 48) as u32) as char)
    } else if vk == VK_OEM_MINUS {
        Some('-')
    } else if vk == VK_OEM_PLUS {
        Some('=')
    } else if vk == VK_OEM_COMMA {
        Some(',')
    } else if vk == VK_OEM_PERIOD {
        Some('.')
    } else if vk == VK_OEM_1 {
        Some(';')
    } else if vk == VK_OEM_2 {
        Some('/')
    } else if vk == VK_OEM_3 {
        Some('`')
    } else if vk == VK_OEM_4 {
        Some('[')
    } else if vk == VK_OEM_5 {
        Some('\\')
    } else if vk == VK_OEM_6 {
        Some(']')
    } else if vk == VK_OEM_7 {
        Some('\'')
    } else {
        None
    }
}

pub fn ascii_char_for_vk(vk: u16) -> (ch: Option<char>)
    ensures
        ch == spec_ascii_char_for_vk(vk),
{
    if VK_0 <= vk && vk <= VK_9 {
        let b = (vk - VK_0 + 48) as u8;
        Some(b as char)
    } else if VK_NUMPAD0 <= vk && vk <= VK_NUMPAD9 {
        let b = (vk - VK_NUMPAD0 + 48) as u8;
        Some(b as char)
    } else if vk == VK_OEM_MINUS {
        Some('-')
    } else if vk == VK_OEM_PLUS {
        Some('=')
    } else if vk == VK_OEM_COMMA {
        Some(',')
    } else if vk == VK_OEM_PERIOD {
        Some('.')
    } else if vk == VK_OEM_1 {
        Some(';')
    } else if vk == VK_OEM_2 {
        Some('/')
    } else if vk == VK_OEM_3 {
        Some('`')
    } else if vk == VK_OEM_4 {
        Some('[')
    } else if vk == VK_OEM_5 {
        Some('\\')
    } else if vk == VK_OEM_6 {
        Some(']')
    } else if vk == VK_OEM_7 {
        Some('\'')
    } else {
        None
    }
}

/// The character a US layout gives a printable key, without and with Shift.
pub open spec fn spec_us_layout_pair(vk: u16) -> Option<(char, char)> {
    if vk == VK_0 { Some(('0', ')')) }
    else if vk == VK_1 { Some(('1', '!')) }
    else if vk == VK_1 + 1 { Some(('2', '@')) }
    else if vk == VK_1 + 2 { Some(('3', '#')) }
    else if vk == VK_1 + 3 { Some(('4', '$')) }
    else if vk == VK_1 + 4 { Some(('5', '%')) }
    else if vk == VK_1 + 5 { Some(('6', '^')) }
    else if vk == VK_1 + 6 { Some(('7', '&')) }
    else if vk == VK_1 + 7 { Some(('8', '*')) }
    else if vk == VK_9 { Some(('9', '(')) }
    else if vk == VK_OEM_MINUS { Some(('-', '_')) }
    else if vk == VK_OEM_PLUS { Some(('=', '+')) }
    else if vk == VK_OEM_COMMA { Some((',', '<')) }
    else if vk == VK_OEM_PERIOD { Some(('.', '>')) }
    else if vk == VK_OEM_1 { Some((';', ':')) }
    else if vk == VK_OEM_2 { Some(('/', '?')) }
    else if vk == VK_OEM_3 { Some(('`', '~')) }
    else if vk == VK_OEM_4 { Some(('[', '{')) }
    else if vk == VK_OEM_5 || vk == VK_OEM_102 { Some(('\\', '|')) }
    else if vk == VK_OEM_6 { Some((']', '}')) }
    else if vk == VK_OEM_7 { Some(('\'', '"')) }
    else { None }
}

pub open spec fn spec_fallback_printable_keysym(vk: u16, mods: u32) -> Option<u32> {
    match spec_us_layout_pair(vk) {
        Some((plain, shifted)) => Some((if mods & RIME_MOD_SHIFT != 0 { shifted } else { plain }) as u32),
        None => None,
    }
}

fn us_layout_pair(vk: u16) -> (pair: Option<(char, char)>)
    ensures
        pair == spec_us_layout_pair(vk),
{
    if vk == VK_0 { Some(('0', ')')) }
    else if vk == VK_1 { Some(('1', '!')) }
    else if vk == VK_1 + 1 { Some(('2', '@')) }
    else if vk == VK_1 + 2 { Some(('3', '#')) }
    else if vk == VK_1 + 3 { Some(('4', '$')) }
    else if vk == VK_1 + 4 { Some(('5', '%')) }
    else if vk == VK_1 + 5 { Some(('6', '^')) }
    else if vk == VK_1 + 6 { Some(('7', '&')) }
    else if vk == VK_1 + 7 { Some(('8', '*')) }
    else if vk == VK_9 { Some(('9', '(')) }
    else if vk == VK_OEM_MINUS { Some(('-', '_')) }
    else if vk == VK_OEM_PLUS { Some(('=', '+')) }
    else if vk == VK_OEM_COMMA { Some((',', '<')) }
    else if vk == VK_OEM_PERIOD { Some(('.', '>')) }
    else if vk == VK_OEM_1 { Some((';', ':')) }
    else if vk == VK_OEM_2 { Some(('/', '?')) }
    else if vk == VK_OEM_3 { Some(('`', '~')) }
    else if vk == VK_OEM_4 { Some(('[', '{')) }
    else if vk == VK_OEM_5 || vk == VK_OEM_102 { Some(('\\', '|')) }
    else if vk == VK_OEM_6 { Some((']', '}')) }
    else if vk == VK_OEM_7 { Some(('\'', '"')) }
    else { None }
}

/// The keysym of a printable key when the layout cannot be asked: the US
/// layout, shifted when Shift is held.
pub fn fallback_printable_keysym(vk: u16, mods: u32) -> (sym: Option<u32>)
    ensures
        sym == spec_fallback_printable_keysym(vk, mods),
{
    match us_layout_pair(vk) {
        Some((plain, shifted)) => {
            let ch = if mods & RIME_MOD_SHIFT != 0 { shifted } else { plain };
            Some(ch as u32)
        },
        None => None,
    }
}

/// X11 keysyms for Unicode: Latin-1 maps to itself, everything else gets the
/// `0x0100_0000` Unicode bit.
pub open spec fn spec_unicode_to_keysym(ch: char) -> u32 {
    if (ch as u32) <= 0xff { ch as u32 } else { (0x0100_0000u32 | (ch as u32)) as u32 }
}

pub fn unicode_to_keysym(ch: char) -> (sym: u32)
    ensures
        sym == spec_unicode_to_keysym(ch),
{
    let value = ch as u32;
    if value <= 0xff {
        value
    } else {
        0x0100_0000 | value
    }
}

/// What asking the keyboard layout for a printable key gave.
#[derive(Clone, Copy, Debug, PartialEq, Eq, Structural)]
pub enum PrintableTranslation {
    /// The layout produced one character, as a keysym.
    Character(u32),
    /// The key is a dead key.
    DeadKey,
    /// The layout could not answer.
    Unavailable,
}

/// Classify a `ToUnicodeEx` answer: a negative count is a dead key, anything
/// but exactly one UTF-16 unit that is a character is no answer.
pub fn classify_translation(count: i32, first_unit: u16) -> (t: PrintableTranslation)
    ensures
        t == (if count < 0 {
            PrintableTranslation::DeadKey
        } else if count != 1 || (0xD800 <= first_unit && first_unit <= 0xDFFF) {
            PrintableTranslation::Unavailable
        } else {
            PrintableTranslation::Character(spec_translated_keysym(first_unit as u32))
        }),
{
    if count < 0 {
        return PrintableTranslation::DeadKey;
    }
    if count != 1 || (0xD800 <= first_unit && first_unit <= 0xDFFF) {
        return PrintableTranslation::Unavailable;
    }
    // A unit outside the surrogate range is its own scalar value.
    let value = first_unit as u32;
    if value <= 0xff {
        PrintableTranslation::Character(value)
    } else {
        PrintableTranslation::Character(0x0100_0000 | value)
    }
}

/// The keysym of a translated printable key: the character's keysym, as
/// `unicode_to_keysym` gives it.
pub open spec fn spec_translated_keysym(unit: u32) -> u32 {
    if unit <= 0xff { unit } else { (0x0100_0000u32 | unit) as u32 }
}

/// The keysym a `VK_PACKET` stands for: the touch keyboard's paging keys
/// become `Page_Down`/`Page_Up`, any other unit is itself.
pub open spec fn spec_packet_keysym(raw: u32) -> u32 {
    if raw == TOUCH_KEYBOARD_NEXT_PAGE {
        XK_PAGE_DOWN
    } else if raw == TOUCH_KEYBOARD_PREVIOUS_PAGE {
        XK_PAGE_UP
    } else {
        raw
    }
}

/// Interpret a `ToUnicode` answer for `VK_PACKET`: exactly one unit, mapped.
pub fn packet_keysym_from(count: i32, first_unit: u16) -> (sym: Option<u32>)
    ensures
        sym == (if count == 1 { Some(spec_packet_keysym(first_unit as u32)) } else { None::<u32> }),
{
    if count != 1 {
        return None;
    }
    let raw = first_unit as u32;
    if raw == TOUCH_KEYBOARD_NEXT_PAGE {
        Some(XK_PAGE_DOWN)
    } else if raw == TOUCH_KEYBOARD_PREVIOUS_PAGE {
        Some(XK_PAGE_UP)
    } else {
        Some(raw)
    }
}

pub open spec fn spec_is_touch_keyboard_page_key(sym: u32) -> bool {
    sym == XK_PAGE_UP || sym == XK_PAGE_DOWN
}

pub fn is_touch_keyboard_page_key(sym: u32) -> (b: bool)
    ensures
        b == spec_is_touch_keyboard_page_key(sym),
{
    sym == XK_PAGE_UP || sym == XK_PAGE_DOWN
}

/// The keysym of the keys the table fixes: numpad, editing, navigation and
/// the F4 menu key.
pub open spec fn spec_fixed_keysym(vk: u16) -> Option<u32> {
    if VK_NUMPAD0 <= vk && vk <= VK_NUMPAD9 { Some((0x30 + (vk - VK_NUMPAD0)) as u32) }
    else if vk == VK_MULTIPLY { Some(0x2Au32) }
    else if vk == VK_ADD { Some(0x2Bu32) }
    else if vk == VK_SUBTRACT { Some(0x2Du32) }
    else if vk == VK_DECIMAL { Some(0x2Eu32) }
    else if vk == VK_DIVIDE { Some(0x2Fu32) }
    else if vk == VK_BACK { Some(0xFF08u32) }
    else if vk == VK_TAB { Some(0xFF09u32) }
    else if vk == VK_RETURN { Some(0xFF0Du32) }
    else if vk == VK_ESCAPE { Some(0xFF1Bu32) }
    else if vk == VK_SPACE { Some(0x20u32) }
    else if vk == VK_DELETE { Some(0xFFFFu32) }
    else if vk == VK_LEFT { Some(0xFF51u32) }
    else if vk == VK_UP { Some(0xFF52u32) }
    else if vk == VK_RIGHT { Some(0xFF53u32) }
    else if vk == VK_DOWN { Some(0xFF54u32) }
    else if vk == VK_HOME { Some(0xFF50u32) }
    else if vk == VK_END { Some(0xFF57u32) }
    else if vk == VK_PRIOR { Some(XK_PAGE_UP) }
    else if vk == VK_NEXT { Some(XK_PAGE_DOWN) }
    else if vk == VK_F4 { Some(0xFFC1u32) }
    else { None }
}

fn fixed_keysym(vk: u16) -> (sym: Option<u32>)
    ensures
        sym == spec_fixed_keysym(vk),
{
    if VK_NUMPAD0 <= vk && vk <= VK_NUMPAD9 { Some((0x30 + (vk - VK_NUMPAD0)) as u32) }
    else if vk == VK_MULTIPLY { Some(0x2A) }
    else if vk == VK_ADD { Some(0x2B) }
    else if vk == VK_SUBTRACT { Some(0x2D) }
    else if vk == VK_DECIMAL { Some(0x2E) }
    else if vk == VK_DIVIDE { Some(0x2F) }
    else if vk == VK_BACK { Some(0xFF08) }
    else if vk == VK_TAB { Some(0xFF09) }
    else if vk == VK_RETURN { Some(0xFF0D) }
    else if vk == VK_ESCAPE { Some(0xFF1B) }
    else if vk == VK_SPACE { Some(0x20) }
    else if vk == VK_DELETE { Some(0xFFFF) }
    else if vk == VK_LEFT { Some(0xFF51) }
    else if vk == VK_UP { Some(0xFF52) }
    else if vk == VK_RIGHT { Some(0xFF53) }
    else if vk == VK_DOWN { Some(0xFF54) }
    else if vk == VK_HOME { Some(0xFF50) }
    else if vk == VK_END { Some(0xFF57) }
    else if vk == VK_PRIOR { Some(XK_PAGE_UP) }
    else if vk == VK_NEXT { Some(XK_PAGE_DOWN) }
    else if vk == VK_F4 { Some(0xFFC1) }
    else { None }
}

/// The keysym a virtual key stands for; `None` for keys the text service
/// never takes. `packet` is what the system says a `VK_PACKET` carries, and
/// `printable` what the keyboard layout gives a printable key.
pub open spec fn spec_vk_to_keysym(vk: u16, mods: u32, packet: Option<u32>, printable: PrintableTranslation) -> Option<u32> {
    if vk == VK_PACKET {
        packet
    } else if spec_is_letter_vk(vk) {
        Some(((if mods & RIME_MOD_SHIFT != 0 { 0x41u32 } else { 0x61u32 }) + (vk - VK_A)) as u32)
    } else if spec_is_printable_vk(vk) {
        match printable {
            PrintableTranslation::Character(sym) => Some(sym),
            PrintableTranslation::DeadKey => None,
            PrintableTranslation::Unavailable => spec_fallback_printable_keysym(vk, mods),
        }
    } else {
        spec_fixed_keysym(vk)
    }
}

pub fn vk_to_keysym(vk: u16, mods: u32, packet: Option<u32>, printable: PrintableTranslation) -> (sym: Option<u32>)
    ensures
        sym == spec_vk_to_keysym(vk, mods, packet, printable),
{
    if vk == VK_PACKET {
        return packet;
    }
    if is_letter_vk(vk) {
        let base: u32 = if mods & RIME_MOD_SHIFT != 0 { 0x41 } else { 0x61 };
        return Some(base + (vk - VK_A) as u32);
    }
    if is_printable_vk(vk) {
        return match printable {
            PrintableTranslation::Character(sym) => Some(sym),
            PrintableTranslation::DeadKey => None,
            PrintableTranslation::Unavailable => fallback_printable_keysym(vk, mods),
        };
    }
    fixed_keysym(vk)
}

/// Whether the text service claims a key in its key test.
pub open spec fn spec_should_eat_key(vk: u16, has_composition: bool, mods: u32, packet: Option<u32>) -> bool {
    if mods & (RIME_MOD_CONTROL | RIME_MOD_ALT) != 0 {
        false
    } else if spec_shift_keysym_for_vk(vk) is Some {
        false
    } else if vk == VK_PACKET {
        match packet {
            Some(sym) => has_composition || spec_is_touch_keyboard_page_key(sym),
            None => false,
        }
    } else if vk == VK_F4 {
        true
    } else if has_composition {
        spec_is_nonstarter_vk(vk) || spec_is_letter_vk(vk) || spec_ascii_char_for_vk(vk) is Some
    } else {
        spec_is_letter_vk(vk)
    }
}

/// Never eat Control or Alt chords, nor Shift; claim letters always, and
/// while composing also editing keys, digits and punctuation.
pub fn should_eat_key(vk: u16, has_composition: bool, mods: u32, packet: Option<u32>) -> (eat: bool)
    ensures
        eat == spec_should_eat_key(vk, has_composition, mods, packet),
{
    if mods & (RIME_MOD_CONTROL | RIME_MOD_ALT) != 0 {
        return false;
    }
    if is_shift_vk(vk) {
        return false;
    }
    if vk == VK_PACKET {
        return match packet {
            Some(sym) => has_composition || is_touch_keyboard_page_key(sym),
            None => false,
        };
    }
    if vk == VK_F4 {
        return true;
    }
    if has_composition {
        is_nonstarter_vk(vk) || is_letter_vk(vk) || ascii_char_for_vk(vk).is_some()
    } else {
        is_letter_vk(vk)
    }
}

/// Distinct characters get distinct keysyms, so nothing the layout produces
/// is confused with another character.
pub proof fn lemma_unicode_keysyms_are_distinct(a: char, b: char)
    requires
        a != b,
    ensures
        spec_unicode_to_keysym(a) != spec_unicode_to_keysym(b),
{
    let va = a as u32;
    let vb = b as u32;
    assert(va != vb);
    assert(va <= 0x10FFFF && vb <= 0x10FFFF);
    if va > 0xff && vb > 0xff {
        assert((0x0100_0000u32 | va) != (0x0100_0000u32 | vb)) by (bit_vector)
            requires
                va != vb,
                va <= 0x10FFFF,
                vb <= 0x10FFFF,
        ;
    } else if va > 0xff {
        assert((0x0100_0000u32 | va) >= 0x0100_0000u32) by (bit_vector);
    } else if vb > 0xff {
        assert((0x0100_0000u32 | vb) >= 0x0100_0000u32) by (bit_vector);
    }
}

/// The editing and navigation keys have their X11 keysyms whatever the
/// modifiers and the layout say: BackSpace, Tab, Return, Escape, space,
/// Delete, the arrows, Home, End, Prior and Next.
pub proof fn lemma_editing_keysyms(mods: u32, packet: Option<u32>, printable: PrintableTranslation)
    ensures
        spec_vk_to_keysym(VK_BACK, mods, packet, printable) == Some(0xFF08u32),
        spec_vk_to_keysym(VK_TAB, mods, packet, printable) == Some(0xFF09u32),
        spec_vk_to_keysym(VK_RETURN, mods, packet, printable) == Some(0xFF0Du32),
        spec_vk_to_keysym(VK_ESCAPE, mods, packet, printable) == Some(0xFF1Bu32),
        spec_vk_to_keysym(VK_SPACE, mods, packet, printable) == Some(0x20u32),
        spec_vk_to_keysym(VK_DELETE, mods, packet, printable) == Some(0xFFFFu32),
        spec_vk_to_keysym(VK_LEFT, mods, packet, printable) == Some(0xFF51u32),
        spec_vk_to_keysym(VK_UP, mods, packet, printable) == Some(0xFF52u32),
        spec_vk_to_keysym(VK_RIGHT, mods, packet, printable) == Some(0xFF53u32),
        spec_vk_to_keysym(VK_DOWN, mods, packet, printable) == Some(0xFF54u32),
        spec_vk_to_keysym(VK_HOME, mods, packet, printable) == Some(0xFF50u32),
        spec_vk_to_keysym(VK_END, mods, packet, printable) == Some(0xFF57u32),
        spec_vk_to_keysym(VK_PRIOR, mods, packet, printable) == Some(0xFF55u32),
        spec_vk_to_keysym(VK_NEXT, mods, packet, printable) == Some(0xFF56u32),
{
}

/// A letter key gives its lower-case letter, or the upper-case one with
/// Shift; a numpad digit gives its digit; whatever the layout says.
pub proof fn lemma_letter_and_numpad_keysyms(vk: u16, mods: u32, packet: Option<u32>, printable: PrintableTranslation)
    ensures
        VK_A <= vk <= VK_Z && mods & RIME_MOD_SHIFT == 0
            ==> spec_vk_to_keysym(vk, mods, packet, printable) == Some(('a' as u32 + (vk - VK_A)) as u32),
        VK_A <= vk <= VK_Z && mods & RIME_MOD_SHIFT != 0
            ==> spec_vk_to_keysym(vk, mods, packet, printable) == Some(('A' as u32 + (vk - VK_A)) as u32),
        VK_NUMPAD0 <= vk <= VK_NUMPAD9
            ==> spec_vk_to_keysym(vk, mods, packet, printable) == Some(('0' as u32 + (vk - VK_NUMPAD0)) as u32),
{
}

/// The editing and navigation keys.
pub open spec fn is_editing_key(vk: u16) -> bool {
    vk == VK_SPACE || vk == VK_BACK || vk == VK_TAB || vk == VK_DELETE || vk == VK_ESCAPE || vk == VK_RETURN
        || vk == VK_LEFT || vk == VK_RIGHT || vk == VK_UP || vk == VK_DOWN || vk == VK_HOME || vk == VK_END
        || vk == VK_PRIOR || vk == VK_NEXT
}

/// Two different editing keys never reach the engine as the same keysym.
pub proof fn lemma_editing_keysyms_are_distinct(a: u16, b: u16, mods: u32, packet: Option<u32>, printable: PrintableTranslation)
    requires
        is_editing_key(a),
        is_editing_key(b),
        a != b,
    ensures
        spec_vk_to_keysym(a, mods, packet, printable) is Some,
        spec_vk_to_keysym(a, mods, packet, printable) != spec_vk_to_keysym(b, mods, packet, printable),
{
}

/// While a composition is live and neither Control nor Alt is held, every
/// editing and navigation key is claimed: Space commits, Backspace edits,
/// the arrows and paging keys move through the candidates.
pub proof fn lemma_composing_claims_editing_keys(vk: u16, mods: u32, packet: Option<u32>)
    requires
        is_editing_key(vk),
        mods & RIME_MOD_CONTROL == 0,
        mods & RIME_MOD_ALT == 0,
    ensures
        spec_should_eat_key(vk, true, mods, packet),
{
    assert(mods & 4u32 == 0 && mods & 8u32 == 0 ==> mods & (4u32 | 8u32) == 0) by (bit_vector);
}

/// Control and Alt chords always belong to the application.
pub proof fn lemma_shortcuts_are_never_eaten(vk: u16, has_composition: bool, mods: u32, packet: Option<u32>)
    requires
        mods & RIME_MOD_CONTROL != 0 || mods & RIME_MOD_ALT != 0,
    ensures
        !spec_should_eat_key(vk, has_composition, mods, packet),
{
    assert(mods & RIME_MOD_CONTROL != 0 ==> mods & (RIME_MOD_CONTROL | RIME_MOD_ALT) != 0) by (bit_vector);
    assert(mods & RIME_MOD_ALT != 0 ==> mods & (RIME_MOD_CONTROL | RIME_MOD_ALT) != 0) by (bit_vector);
}

/// Every key the text service claims without a composition is a letter, F4
/// or a touch-keyboard paging key.
pub proof fn lemma_idle_claims_only_starters(vk: u16, mods: u32, packet: Option<u32>)
    requires
        spec_should_eat_key(vk, false, mods, packet),
    ensures
        spec_is_letter_vk(vk) || vk == VK_F4 || (vk == VK_PACKET && (packet matches Some(sym)
            && spec_is_touch_keyboard_page_key(sym))),
{
}

} // verus!
