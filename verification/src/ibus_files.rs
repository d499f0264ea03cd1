//! The address files the IBus frontend publishes, so that IBus clients find
//! the daemon: which display numbers they are named after, what they hold,
//! and the sorted list of file names without repeats.
use vstd::prelude::*;
use vstd::string::*;
use crate::text::{decimal, push_decimal, trim, trim_str};
use crate::session::{parse_u32, spec_parse_u32};

verus! {

broadcast use vstd::seq::group_seq_axioms;

/// The text after the last `sep`, or all of it when there is none
/// (`str::rsplit(sep).next()`).
pub open spec fn after_last(s: Seq<char>, sep: char) -> Seq<char>
    decreases s.len(),
{
    if s.len() == 0 {
        s
    } else if s.last() == sep {
        Seq::empty()
    } else {
        after_last(s.drop_last(), sep).push(s.last())
    }
}

/// The text before the first `sep`, or all of it when there is none
/// (`str::split(sep).next()`).
pub open spec fn before_first(s: Seq<char>, sep: char) -> Seq<char>
    decreases s.len(),
{
    if s.len() == 0 {
        s
    } else if s[0] == sep {
        Seq::empty()
    } else {
        seq![s[0]] + before_first(s.drop_first(), sep)
    }
}

fn text_after_last(s: &str, sep: char) -> (t: &str)
    ensures
        t@ == after_last(s@, sep),
{
    let n = s.unicode_len();
    let mut j = n;
    assert(s@.subrange(0, n as int) =~= s@);
    assert(s@.subrange(n as int, n as int) =~= Seq::<char>::empty());
    while j > 0 && s.get_char(j - 1) != sep
        invariant
            n == s@.len(),
            j <= n,
            after_last(s@, sep) == after_last(s@.subrange(0, j as int), sep) + s@.subrange(j as int, n as int),
        decreases j,
    {
        let ghost head = s@.subrange(0, j as int);
        assert(head.drop_last() =~= s@.subrange(0, j - 1));
        assert(head.last() == s@[j - 1]);
        assert(after_last(head, sep) == after_last(head.drop_last(), sep).push(head.last()));
        assert(after_last(s@.subrange(0, j - 1), sep).push(s@[j - 1]) + s@.subrange(j as int, n as int)
            =~= after_last(s@.subrange(0, j - 1), sep) + s@.subrange(j - 1, n as int));
        j = j - 1;
    }
    proof {
        if j == 0 {
            assert(s@.subrange(0, 0) =~= Seq::<char>::empty());
        } else {
            assert(s@.subrange(0, j as int).last() == s@[j - 1]);
        }
        assert(after_last(s@.subrange(0, j as int), sep) =~= Seq::<char>::empty());
        assert(Seq::<char>::empty() + s@.subrange(j as int, n as int) =~= s@.subrange(j as int, n as int));
    }
    s.substring_char(j, n)
}

fn text_before_first(s: &str, sep: char) -> (t: &str)
    ensures
        t@ == before_first(s@, sep),
{
    let n = s.unicode_len();
    let mut i: usize = 0;
    assert(s@.subrange(0, n as int) =~= s@);
    assert(s@.subrange(0, 0) =~= Seq::<char>::empty());
    while i < n && s.get_char(i) != sep
        invariant
            n == s@.len(),
            i <= n,
            before_first(s@, sep) == s@.subrange(0, i as int) + before_first(s@.subrange(i as int, n as int), sep),
        decreases n - i,
    {
        let ghost rest = s@.subrange(i as int, n as int);
        assert(rest.drop_first() =~= s@.subrange(i + 1, n as int));
        assert(rest[0] == s@[i as int]);
        assert(s@.subrange(0, i as int) + (seq![s@[i as int]] + before_first(s@.subrange(i + 1, n as int), sep))
            =~= s@.subrange(0, i + 1) + before_first(s@.subrange(i + 1, n as int), sep));
        i = i + 1;
    }
    proof {
        let rest = s@.subrange(i as int, n as int);
        if i < n {
            assert(rest[0] == s@[i as int]);
        }
        assert(before_first(rest, sep) =~= Seq::<char>::empty());
        assert(s@.subrange(0, i as int) + Seq::<char>::empty() =~= s@.subrange(0, i as int));
    }
    s.substring_char(0, i)
}

/// The X display number in `DISPLAY` (as in `:1.0` or `host:10`), 0 when
/// it is unset or unreadable.
pub open spec fn spec_display_number(display: Option<Seq<char>>) -> u32 {
    match display {
        Some(d) => match spec_parse_u32(before_first(after_last(d, ':'), '.')) {
            Some(n) => n,
            None => 0,
        },
        None => 0,
    }
}

pub fn display_number(display: Option<&str>) -> (n: u32)
    ensures
        n == spec_display_number(match display { Some(d) => Some(d@), None => None::<Seq<char>> }),
{
    match display {
        Some(d) => match parse_u32(text_before_first(text_after_last(d, ':'), '.')) {
            Some(n) => n,
            None => 0,
        },
        None => 0,
    }
}

/// The number at the end of `WAYLAND_DISPLAY` (as in `wayland-1`), if any.
pub open spec fn spec_wayland_display_number(display: Option<Seq<char>>) -> Option<u32> {
    match display {
        Some(d) => spec_parse_u32(after_last(d, '-')),
        None => None,
    }
}

pub fn wayland_display_number(display: Option<&str>) -> (n: Option<u32>)
    ensures
        n == spec_wayland_display_number(match display { Some(d) => Some(d@), None => None::<Seq<char>> }),
{
    match display {
        Some(d) => parse_u32(text_after_last(d, '-')),
        None => None,
    }
}

/// What an address file holds.
pub open spec fn spec_address_file_content(address: Seq<char>, pid: u32) -> Seq<char> {
    "# This file is created by keytao-ime (IBus compatible)\nIBUS_ADDRESS="@ + address + "\nIBUS_DAEMON_PID="@
        + decimal(pid as nat) + "\n"@
}

pub fn address_file_content(address: &str, pid: u32) -> (content: String)
    ensures
        content@ == spec_address_file_content(address@, pid),
{
    let mut content = String::from_str("# This file is created by keytao-ime (IBus compatible)\nIBUS_ADDRESS=");
    content.append(address);
    content.append("\nIBUS_DAEMON_PID=");
    push_decimal(&mut content, pid as u64);
    content.append("\n");
    content
}

/// Strict lexicographic order on text, as `String`'s `Ord` compares (UTF-8
/// keeps the order of code points).
pub open spec fn text_lt(a: Seq<char>, b: Seq<char>) -> bool
    decreases a.len(),
{
    if a.len() == 0 {
        b.len() > 0
    } else if b.len() == 0 {
        false
    } else if a[0] != b[0] {
        a[0] < b[0]
    } else {
        text_lt(a.drop_first(), b.drop_first())
    }
}

proof fn lemma_text_lt_trichotomy(a: Seq<char>, b: Seq<char>)
    ensures
        text_lt(a, b) || text_lt(b, a) || a == b,
        !(text_lt(a, b) && text_lt(b, a)),
        !text_lt(a, a),
    decreases a.len(),
{
    if a.len() > 0 && b.len() > 0 {
        lemma_text_lt_trichotomy(a.drop_first(), b.drop_first());
        lemma_text_lt_trichotomy(a.drop_first(), a.drop_first());
        if a[0] == b[0] {
            if a.drop_first() == b.drop_first() {
                assert(a =~= seq![a[0]] + a.drop_first());
                assert(b =~= seq![b[0]] + b.drop_first());
            }
        }
    } else if a.len() == 0 && b.len() == 0 {
        assert(a =~= b);
    } else if a.len() > 0 {
        lemma_text_lt_trichotomy(a.drop_first(), a.drop_first());
    }
}

proof fn lemma_text_lt_transitive(a: Seq<char>, b: Seq<char>, c: Seq<char>)
    requires
        text_lt(a, b),
        text_lt(b, c),
    ensures
        text_lt(a, c),
    decreases a.len(),
{
    if a.len() > 0 && b.len() > 0 && c.len() > 0 && a[0] == b[0] && b[0] == c[0] {
        lemma_text_lt_transitive(a.drop_first(), b.drop_first(), c.drop_first());
    }
}

/// Compare two texts in `String` order.
fn text_less(a: &str, b: &str) -> (lt: bool)
    ensures
        lt == text_lt(a@, b@),
{
    let n = a.unicode_len();
    let m = b.unicode_len();
    let mut i: usize = 0;
    assert(a@.subrange(0, n as int) =~= a@);
    assert(b@.subrange(0, m as int) =~= b@);
    while i < n && i < m && a.get_char(i) == b.get_char(i)
        invariant
            n == a@.len(),
            m == b@.len(),
            i <= n,
            i <= m,
            text_lt(a@, b@) == text_lt(a@.subrange(i as int, n as int), b@.subrange(i as int, m as int)),
        decreases n - i,
    {
        let ghost x = a@.subrange(i as int, n as int);
        let ghost y = b@.subrange(i as int, m as int);
        assert(x.drop_first() =~= a@.subrange(i + 1, n as int));
        assert(y.drop_first() =~= b@.subrange(i + 1, m as int));
        assert(x[0] == a@[i as int] && y[0] == b@[i as int]);
        i = i + 1;
    }
    let ghost x = a@.subrange(i as int, n as int);
    let ghost y = b@.subrange(i as int, m as int);
    if i == n {
        i < m
    } else if i == m {
        false
    } else {
        assert(x[0] == a@[i as int] && y[0] == b@[i as int]);
        a.get_char(i) < b.get_char(i)
    }
}

pub open spec fn text_views(v: Seq<String>) -> Seq<Seq<char>> {
    v.map_values(|s: String| s@)
}

/// Every text is smaller than the next one: sorted, with no repeats.
pub open spec fn strictly_sorted(v: Seq<Seq<char>>) -> bool {
    forall|i: int, j: int| 0 <= i < j < v.len() ==> text_lt(#[trigger] v[i], #[trigger] v[j])
}

/// Insert a text into a strictly sorted list unless it is already there.
fn insert_sorted(names: &mut Vec<String>, name: String)
    requires
        strictly_sorted(text_views(old(names)@)),
    ensures
        strictly_sorted(text_views(final(names)@)),
        text_views(final(names)@).to_set() == text_views(old(names)@).to_set().insert(name@),
{
    let ghost before = text_views(names@);
    let n = names.len();
    let mut i: usize = 0;
    while i < n && text_less(names[i].as_str(), name.as_str())
        invariant
            n == names@.len(),
            before == text_views(names@),
            strictly_sorted(before),
            i <= n,
            forall|k: int| 0 <= k < i ==> text_lt(#[trigger] before[k], name@),
        decreases n - i,
    {
        assert(before[i as int] == names@[i as int]@);
        i = i + 1;
    }
    if i < n {
        assert(before[i as int] == names@[i as int]@);
        proof {
            lemma_text_lt_trichotomy(before[i as int], name@);
        }
        if !text_less(name.as_str(), names[i].as_str()) {
            // Neither is smaller: the name is already in the list.
            assert(before[i as int] == name@);
            assert(before.to_set().insert(name@) =~= before.to_set()) by {
                assert(before.contains(name@));
            }
            return;
        }
    }
    names.insert(i, name);
    let ghost after = text_views(names@);
    assert(after =~= before.insert(i as int, name@));
    assert forall|a: int, b: int| 0 <= a < b < after.len() implies text_lt(#[trigger] after[a], #[trigger] after[b]) by {
        if b < i {
            assert(after[a] == before[a] && after[b] == before[b]);
        } else if b == i {
            assert(after[a] == before[a]);
        } else if a < i {
            assert(after[a] == before[a] && after[b] == before[b - 1]);
            if a < b - 1 {
                assert(text_lt(before[a], before[b - 1]));
            }
        } else if a == i {
            assert(after[b] == before[b - 1]);
            if b - 1 > i {
                assert(text_lt(before[i as int], before[b - 1]));
                lemma_text_lt_transitive(name@, before[i as int], before[b - 1]);
            }
        } else {
            assert(after[a] == before[a - 1] && after[b] == before[b - 1]);
        }
    }
    assert(after.to_set() =~= before.to_set().insert(name@)) by {
        assert forall|t: Seq<char>| after.to_set().contains(t) <==> before.to_set().insert(name@).contains(t) by {
            if after.contains(t) {
                let k = choose|k: int| 0 <= k < after.len() && after[k] == t;
                if k < i {
                    assert(before[k] == t);
                } else if k > i {
                    assert(before[k - 1] == t);
                }
            }
            if before.contains(t) {
                let k = choose|k: int| 0 <= k < before.len() && before[k] == t;
                if k < i {
                    assert(after[k] == t);
                } else {
                    assert(after[k + 1] == t);
                }
            }
            if t == name@ {
                assert(after[i as int] == t);
            }
        }
    }
}

/// The names an address file is written under.
pub open spec fn address_file_name(machine_id: Seq<char>, suffix: Seq<char>) -> Seq<char> {
    machine_id + "-unix-"@ + suffix
}

/// The suffixes: the X display, the first two Wayland displays, and the
/// session's own Wayland display.
pub open spec fn address_file_names(machine_id: Seq<char>, display: u32, wayland: Option<u32>) -> Set<Seq<char>> {
    let base = set![
        address_file_name(machine_id, decimal(display as nat)),
        address_file_name(machine_id, "wayland-0"@),
        address_file_name(machine_id, "wayland-1"@),
    ];
    match wayland {
        Some(w) => base.insert(address_file_name(machine_id, "wayland-"@ + decimal(w as nat))),
        None => base,
    }
}

fn file_name(machine_id: &str, suffix: &str) -> (name: String)
    ensures
        name@ == address_file_name(machine_id@, suffix@),
{
    let mut name = String::from_str(machine_id);
    name.append("-unix-");
    name.append(suffix);
    name
}

/// The address file names, sorted and without repeats.
pub fn ibus_address_file_names(machine_id: &str, display: u32, wayland: Option<u32>) -> (names: Vec<String>)
    ensures
        strictly_sorted(text_views(names@)),
        text_views(names@).to_set() == address_file_names(machine_id@, display, wayland),
{
    let mut names: Vec<String> = Vec::new();
    let mut display_text = String::new();
    push_decimal(&mut display_text, display as u64);
    assert(display_text@ =~= decimal(display as nat));
    let first = file_name(machine_id, display_text.as_str());
    insert_sorted(&mut names, first);
    insert_sorted(&mut names, file_name(machine_id, "wayland-0"));
    insert_sorted(&mut names, file_name(machine_id, "wayland-1"));
    match wayland {
        Some(w) => {
            let mut suffix = String::from_str("wayland-");
            push_decimal(&mut suffix, w as u64);
            insert_sorted(&mut names, file_name(machine_id, suffix.as_str()));
        },
        None => {},
    }
    assert(text_views(names@).to_set() =~= address_file_names(machine_id@, display, wayland));
    names
}

/// The address files an engine looks in, in order: the session's own
/// Wayland display, the first Wayland display, then the X display.
pub open spec fn spec_lookup_names(machine_id: Seq<char>, display: u32, wayland: Option<u32>) -> Seq<Seq<char>> {
    let tail = seq![
        address_file_name(machine_id, "wayland-0"@),
        address_file_name(machine_id, decimal(display as nat)),
    ];
    match wayland {
        Some(w) => seq![address_file_name(machine_id, "wayland-"@ + decimal(w as nat))] + tail,
        None => tail,
    }
}

pub fn ibus_address_lookup_names(machine_id: &str, display: u32, wayland: Option<u32>) -> (names: Vec<String>)
    ensures
        text_views(names@) == spec_lookup_names(machine_id@, display, wayland),
{
    let mut names: Vec<String> = Vec::new();
    match wayland {
        Some(w) => {
            let mut suffix = String::from_str("wayland-");
            push_decimal(&mut suffix, w as u64);
            names.push(file_name(machine_id, suffix.as_str()));
        },
        None => {},
    }
    names.push(file_name(machine_id, "wayland-0"));
    let mut display_text = String::new();
    push_decimal(&mut display_text, display as u64);
    assert(display_text@ =~= decimal(display as nat));
    names.push(file_name(machine_id, display_text.as_str()));
    assert(text_views(names@) =~= spec_lookup_names(machine_id@, display, wayland));
    names
}

/// An `IBUS_ADDRESS` from the environment, trimmed, unless it is blank.
pub fn ibus_address_from_env(value: Option<String>) -> (address: Option<String>)
    ensures
        match address {
            Some(a) => value matches Some(v) && a@ == trim(v@) && a@.len() > 0,
            None => value matches Some(v) ==> trim(v@).len() == 0,
        },
{
    match value {
        Some(v) => {
            let t = trim_str(v.as_str());
            if t.unicode_len() > 0 {
                Some(String::from_str(t))
            } else {
                None
            }
        },
        None => None,
    }
}

} // verus!
