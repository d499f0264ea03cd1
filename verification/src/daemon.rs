//! How the Linux daemon reads its launch environment: whether KWin started
//! it as the virtual keyboard, which desktop it runs on, and what it starts.
use vstd::prelude::*;
use vstd::string::*;
use crate::text::{ascii_lower, char_to_ascii_lowercase};
use crate::session::{
    all_decimal_digits, decimal_value, no_backends, spec_any, spec_for_session, BackendSelection,
};

verus! {

broadcast use vstd::seq::group_seq_axioms;

/// The text after an optional leading sign.
pub open spec fn signed_digits(s: Seq<char>) -> Seq<char> {
    if s.len() > 0 && (s[0] == '+' || s[0] == '-') {
        s.drop_first()
    } else {
        s
    }
}

/// The largest magnitude an `i32` of this sign holds.
pub open spec fn i32_magnitude_bound(s: Seq<char>) -> nat {
    if s.len() > 0 && s[0] == '-' {
        0x8000_0000
    } else {
        0x7FFF_FFFF
    }
}

/// `i32::from_str` accepts the text: an optional sign, then one or more
/// decimal digits whose value fits.
pub open spec fn spec_parses_as_i32(s: Seq<char>) -> bool {
    let digits = signed_digits(s);
    digits.len() > 0 && all_decimal_digits(digits) && decimal_value(digits) <= i32_magnitude_bound(s)
}

proof fn lemma_decimal_prefix_grows(digits: Seq<char>, k: int)
    requires
        0 <= k <= digits.len(),
        all_decimal_digits(digits),
    ensures
        decimal_value(digits.subrange(0, k)) <= decimal_value(digits),
    decreases digits.len() - k,
{
    if k < digits.len() {
        lemma_decimal_prefix_grows(digits, k + 1);
        assert(digits.subrange(0, k + 1).drop_last() =~= digits.subrange(0, k));
    } else {
        assert(digits.subrange(0, k) =~= digits);
    }
}

/// Whether `i32::from_str` accepts the text.
pub fn parses_as_i32(s: &str) -> (ok: bool)
    ensures
        ok == spec_parses_as_i32(s@),
{
    let n = s.unicode_len();
    let negative = n > 0 && s.get_char(0) == '-';
    let start: usize = if n > 0 && (s.get_char(0) == '+' || s.get_char(0) == '-') { 1 } else { 0 };
    let bound: u64 = if negative { 0x8000_0000 } else { 0x7FFF_FFFF };
    let ghost digits = signed_digits(s@);
    assert(digits =~= s@.subrange(start as int, n as int));
    if start >= n {
        return false;
    }
    let mut value: u64 = 0;
    let mut i = start;
    while i < n
        invariant
            n == s@.len(),
            start <= i <= n,
            start < n,
            digits == s@.subrange(start as int, n as int),
            digits == signed_digits(s@),
            bound == i32_magnitude_bound(s@),
            forall|j: int| 0 <= j < i - start ==> '0' <= #[trigger] digits[j] && digits[j] <= '9',
            value == decimal_value(digits.subrange(0, i - start)),
            value <= bound,
        decreases n - i,
    {
        let c = s.get_char(i);
        assert(digits[i - start] == c);
        if c < '0' || c > '9' {
            assert(!('0' <= digits[i - start] && digits[i - start] <= '9'));
            return false;
        }
        let d = (c as u32 - 48) as u64;
        let ghost prefix = digits.subrange(0, i - start + 1);
        assert(prefix.drop_last() =~= digits.subrange(0, i - start));
        value = value * 10 + d;
        assert(prefix.last() == c);
        if value > bound {
            proof {
                if all_decimal_digits(digits) {
                    lemma_decimal_prefix_grows(digits, i - start + 1);
                }
            }
            return false;
        }
        i = i + 1;
    }
    assert(digits.subrange(0, n - start) =~= digits);
    true
}

/// A desktop name compares as `str::to_lowercase` folds it: ASCII letters
/// fold to lower case, and the Kelvin sign is the one other character whose
/// lower case is an ASCII letter.
pub open spec fn desktop_fold(c: char) -> char {
    if c == '\u{212A}' {
        'k'
    } else {
        ascii_lower(c)
    }
}

/// The `:`-separated entry of a desktop list starting at `k` folds to `word`.
pub open spec fn desktop_entry_at(desktop: Seq<char>, k: int, word: Seq<char>) -> bool {
    &&& 0 <= k
    &&& k + word.len() <= desktop.len()
    &&& (k == 0 || desktop[k - 1] == ':')
    &&& (k + word.len() == desktop.len() || desktop[k + word.len()] == ':')
    &&& forall|t: int| 0 <= t < word.len() ==> desktop_fold(#[trigger] desktop[k + t]) == word[t]
}

/// Some entry of an `XDG_CURRENT_DESKTOP` list names `word`.
pub open spec fn desktop_lists(desktop: Seq<char>, word: Seq<char>) -> bool {
    exists|k: int| #[trigger] desktop_entry_at(desktop, k, word)
}

fn fold_char(c: char) -> (f: char)
    ensures
        f == desktop_fold(c),
{
    if c == '\u{212A}' {
        'k'
    } else {
        char_to_ascii_lowercase(c)
    }
}

fn entry_at(desktop: &str, k: usize, word: &str) -> (b: bool)
    requires
        k + word@.len() <= desktop@.len(),
    ensures
        b == desktop_entry_at(desktop@, k as int, word@),
{
    let n = desktop.unicode_len();
    let m = word.unicode_len();
    if k > 0 && desktop.get_char(k - 1) != ':' {
        return false;
    }
    if k + m < n && desktop.get_char(k + m) != ':' {
        return false;
    }
    let mut t: usize = 0;
    while t < m
        invariant
            n == desktop@.len(),
            m == word@.len(),
            k + m <= n,
            t <= m,
            forall|j: int| 0 <= j < t ==> desktop_fold(#[trigger] desktop@[k + j]) == word@[j],
        decreases m - t,
    {
        if fold_char(desktop.get_char(k + t)) != word.get_char(t) {
            return false;
        }
        t = t + 1;
    }
    true
}

/// Whether an `XDG_CURRENT_DESKTOP` list names `word`.
pub fn desktop_lists_word(desktop: &str, word: &str) -> (b: bool)
    ensures
        b == desktop_lists(desktop@, word@),
{
    let n = desktop.unicode_len();
    let m = word.unicode_len();
    if m > n {
        assert forall|k: int| !#[trigger] desktop_entry_at(desktop@, k, word@) by {}
        return false;
    }
    let mut k: usize = 0;
    while k <= n - m
        invariant
            n == desktop@.len(),
            m == word@.len(),
            m <= n,
            k <= n - m + 1,
            forall|j: int| 0 <= j < k ==> !#[trigger] desktop_entry_at(desktop@, j, word@),
        decreases n - m + 1 - k,
    {
        if entry_at(desktop, k, word) {
            return true;
        }
        if k == n - m {
            assert forall|j: int| !#[trigger] desktop_entry_at(desktop@, j, word@) by {
                if 0 <= j <= k {
                }
            }
            return false;
        }
        k = k + 1;
    }
    assert forall|j: int| !#[trigger] desktop_entry_at(desktop@, j, word@) by {
        if 0 <= j < k {
        }
    }
    false
}

/// A desktop whose own panel shows IBus lookup tables.
pub open spec fn spec_is_gnome_like(desktop: Seq<char>) -> bool {
    desktop_lists(desktop, "gnome"@) || desktop_lists(desktop, "unity"@) || desktop_lists(desktop, "budgie"@)
        || desktop_lists(desktop, "pantheon"@) || desktop_lists(desktop, "x-cinnamon"@)
}

/// What the daemon does at startup.
#[derive(Clone, Copy, Debug, PartialEq, Eq)]
pub struct SessionPlan {
    /// The frontends to start.
    pub selected: BackendSelection,
    /// KWin launched this process as its virtual keyboard.
    pub kwin_virtual_keyboard: bool,
    /// Stop when another daemon already runs; the virtual keyboard never does.
    pub enforce_single_instance: bool,
    /// Remove the IBus environment overrides an older KDE setup left behind.
    pub remove_legacy_kde_env: bool,
}

pub open spec fn spec_plan_session(
    requested: BackendSelection,
    wayland_socket: Option<Seq<char>>,
    wayland_display: bool,
    x11_display: bool,
    desktop: Seq<char>,
) -> SessionPlan {
    let kwin = wayland_socket matches Some(s) && spec_parses_as_i32(s);
    let is_kde = !kwin && desktop_lists(desktop, "kde"@);
    SessionPlan {
        selected: if kwin {
            BackendSelection { wayland: true, ..no_backends() }
        } else if requested.ibus_engine || spec_any(requested) {
            requested
        } else {
            spec_for_session(kwin || wayland_display, x11_display, spec_is_gnome_like(desktop), is_kde)
        },
        kwin_virtual_keyboard: kwin,
        enforce_single_instance: !kwin,
        remove_legacy_kde_env: is_kde && !kwin && !spec_any(requested),
    }
}

/// The startup plan from the requested frontends and the launch
/// environment: `WAYLAND_SOCKET`, whether `WAYLAND_DISPLAY` and `DISPLAY` are
/// set, and `XDG_CURRENT_DESKTOP` (empty when unset).
pub fn plan_session(
    requested: BackendSelection,
    wayland_socket: Option<&str>,
    wayland_display: bool,
    x11_display: bool,
    desktop: &str,
) -> (plan: SessionPlan)
    ensures
        plan == spec_plan_session(
            requested,
            match wayland_socket { Some(s) => Some(s@), None => None::<Seq<char>> },
            wayland_display,
            x11_display,
            desktop@,
        ),
{
    let kwin = match wayland_socket {
        Some(s) => parses_as_i32(s),
        None => false,
    };
    let is_gnome = desktop_lists_word(desktop, "gnome") || desktop_lists_word(desktop, "unity")
        || desktop_lists_word(desktop, "budgie") || desktop_lists_word(desktop, "pantheon")
        || desktop_lists_word(desktop, "x-cinnamon");
    let is_kde = !kwin && desktop_lists_word(desktop, "kde");
    let selected = if kwin {
        BackendSelection { wayland: true, ..BackendSelection::none() }
    } else if requested.ibus_engine || requested.any() {
        requested
    } else {
        BackendSelection::for_session(kwin || wayland_display, x11_display, is_gnome, is_kde)
    };
    SessionPlan {
        selected,
        kwin_virtual_keyboard: kwin,
        enforce_single_instance: !kwin,
        remove_legacy_kde_env: is_kde && !kwin && !requested.any(),
    }
}

/// The virtual keyboard KWin launches only ever runs the Wayland frontend,
/// and never removes the KDE session's settings.
pub proof fn lemma_virtual_keyboard_is_wayland_only(
    requested: BackendSelection,
    socket: Seq<char>,
    wayland_display: bool,
    x11_display: bool,
    desktop: Seq<char>,
)
    requires
        spec_parses_as_i32(socket),
    ensures
        spec_plan_session(requested, Some(socket), wayland_display, x11_display, desktop).selected == (
        BackendSelection { wayland: true, ..no_backends() }),
        !spec_plan_session(requested, Some(socket), wayland_display, x11_display, desktop).remove_legacy_kde_env,
{
}

/// With nothing requested and no KWin socket, a desktop list naming GNOME,
/// Unity, Budgie, Pantheon or Cinnamon (`X-Cinnamon`) runs the standalone
/// IBus engine, beside XIM exactly when there is an X11 display, and never
/// the native Wayland input method or the IBus frontend.
pub proof fn lemma_gnome_like_desktops_run_the_ibus_engine(
    wayland_socket: Option<Seq<char>>,
    wayland_display: bool,
    x11_display: bool,
    desktop: Seq<char>,
)
    requires
        !(wayland_socket matches Some(s) && spec_parses_as_i32(s)),
        desktop_lists(desktop, "gnome"@) || desktop_lists(desktop, "unity"@) || desktop_lists(desktop, "budgie"@)
            || desktop_lists(desktop, "pantheon"@) || desktop_lists(desktop, "x-cinnamon"@),
    ensures
        spec_plan_session(no_backends(), wayland_socket, wayland_display, x11_display, desktop).selected
            == (BackendSelection { ibus_engine: true, xim: x11_display, wayland: false, ibus: false }),
{
}

/// Frontends asked for on the command line are the ones started, unless
/// KWin launched the process as its virtual keyboard.
pub proof fn lemma_requested_frontends_win(
    requested: BackendSelection,
    wayland_socket: Option<Seq<char>>,
    wayland_display: bool,
    x11_display: bool,
    desktop: Seq<char>,
)
    requires
        spec_any(requested),
        !(wayland_socket matches Some(s) && spec_parses_as_i32(s)),
    ensures
        spec_plan_session(requested, wayland_socket, wayland_display, x11_display, desktop).selected == requested,
{
}

} // verus!
