//! The rules by which a sandboxed host's private engine data is seeded from
//! the app's published public packages: which published generation is valid,
//! which relative paths may be written, which files are public at all, and
//! which previously copied files went stale.
use vstd::prelude::*;
use vstd::string::*;
use crate::text::{trim, trim_str, ascii_lower, char_to_ascii_lowercase, is_hex_digit, hex_digit_value, str_eq};
use crate::session::{split_lines, lemma_split_lines_first};

verus! {

broadcast use vstd::seq::group_seq_axioms;

/// A Windows path separator.
pub open spec fn is_sep(c: char) -> bool {
    c == '/' || c == '\\'
}

/// A `..` component starts at position `i`.
pub open spec fn parent_component_at(s: Seq<char>, i: int) -> bool {
    &&& 0 <= i
    &&& i + 2 <= s.len()
    &&& (i == 0 || is_sep(s[i - 1]))
    &&& s[i] == '.'
    &&& s[i + 1] == '.'
    &&& (i + 2 == s.len() || is_sep(s[i + 2]))
}

/// A path that stays inside the directory it is joined to: not empty, no
/// drive or stream colon, not rooted, not starting with `.`, and without a
/// `..` component (Windows separators).
pub open spec fn spec_checked_relative(s: Seq<char>) -> bool {
    &&& s.len() > 0
    &&& forall|i: int| 0 <= i < s.len() ==> #[trigger] s[i] != ':'
    &&& !is_sep(s[0])
    &&& !(s[0] == '.' && (s.len() == 1 || is_sep(s[1])))
    &&& forall|i: int| !#[trigger] parent_component_at(s, i)
}

pub open spec fn invalid_relative_message() -> Seq<char> {
    "invalid relative path in public schema snapshot"@
}

fn is_separator(c: char) -> (b: bool)
    ensures
        b == is_sep(c),
{
    c == '/' || c == '\\'
}

/// A relative path from a public snapshot, or an error when it could leave
/// the directory it is joined to.
pub fn checked_relative(text: &str) -> (r: Result<&str, String>)
    ensures
        match r {
            Ok(p) => spec_checked_relative(text@) && p@ == text@,
            Err(e) => !spec_checked_relative(text@) && e@ == invalid_relative_message(),
        },
{
    let n = text.unicode_len();
    if n == 0 {
        return Err(String::from_str("invalid relative path in public schema snapshot"));
    }
    let first = text.get_char(0);
    if is_separator(first) || (first == '.' && (n == 1 || is_separator(text.get_char(1)))) {
        return Err(String::from_str("invalid relative path in public schema snapshot"));
    }
    let mut i: usize = 0;
    while i < n
        invariant
            n == text@.len(),
            i <= n,
            forall|k: int| 0 <= k < i ==> #[trigger] text@[k] != ':',
            forall|k: int| 0 <= k < i ==> !#[trigger] parent_component_at(text@, k),
        decreases n - i,
    {
        let c = text.get_char(i);
        if c == ':' {
            return Err(String::from_str("invalid relative path in public schema snapshot"));
        }
        if c == '.' && i + 1 < n && text.get_char(i + 1) == '.' && (i == 0 || is_separator(text.get_char(i - 1)))
            && (i + 2 == n || is_separator(text.get_char(i + 2))) {
            assert(parent_component_at(text@, i as int));
            return Err(String::from_str("invalid relative path in public schema snapshot"));
        }
        assert(!parent_component_at(text@, i as int));
        i = i + 1;
    }
    assert forall|k: int| !#[trigger] parent_component_at(text@, k) by {
        if 0 <= k < n {
        }
    }
    Ok(text)
}

/// `s` ends with `suffix`.
pub open spec fn has_suffix(s: Seq<char>, suffix: Seq<char>) -> bool {
    suffix.len() <= s.len() && s.subrange(s.len() - suffix.len(), s.len() as int) == suffix
}

fn ends_with(s: &str, suffix: &str) -> (b: bool)
    ensures
        b == has_suffix(s@, suffix@),
{
    let n = s.unicode_len();
    let m = suffix.unicode_len();
    if m > n {
        return false;
    }
    let tail = s.substring_char(n - m, n);
    str_eq(tail, suffix)
}

/// The lower-cased text of a component names something private: a dot
/// file, a user dictionary or the log directory.
pub open spec fn private_component(lower: Seq<char>) -> bool {
    (lower.len() > 0 && lower[0] == '.') || has_suffix(lower, ".userdb"@) || lower == "log"@
}

/// A path, given by its components, is a public asset: no component is
/// private in any ASCII case, and the file is not the user's or the
/// installation's own configuration.
pub open spec fn spec_public_asset(components: Seq<Seq<char>>) -> bool {
    &&& forall|i: int|
        0 <= i < components.len() ==> !private_component(
            (#[trigger] components[i]).map_values(|c: char| ascii_lower(c)),
        )
    &&& !(components.len() > 0 && (components.last() == "user.yaml"@ || components.last() == "installation.yaml"@))
}

pub open spec fn component_views(components: Seq<String>) -> Seq<Seq<char>> {
    components.map_values(|c: String| c@)
}

fn to_lower(s: &str) -> (l: String)
    ensures
        l@ == s@.map_values(|c: char| ascii_lower(c)),
{
    let n = s.unicode_len();
    let mut out = String::new();
    let mut i: usize = 0;
    while i < n
        invariant
            n == s@.len(),
            i <= n,
            out@ =~= s@.subrange(0, i as int).map_values(|c: char| ascii_lower(c)),
        decreases n - i,
    {
        let c = s.get_char(i);
        let l = char_to_ascii_lowercase(c);
        if l == c {
            out.append(s.substring_char(i, i + 1));
        } else {
            let letters = "abcdefghijklmnopqrstuvwxyz";
            proof {
                reveal_strlit("abcdefghijklmnopqrstuvwxyz");
            }
            let k = (c as u32 - 65) as usize;
            out.append(letters.substring_char(k, k + 1));
        }
        assert(s@.subrange(0, i + 1).map_values(|c: char| ascii_lower(c))
            =~= s@.subrange(0, i as int).map_values(|c: char| ascii_lower(c)).push(ascii_lower(s@[i as int])));
        i = i + 1;
    }
    assert(s@.subrange(0, n as int) =~= s@);
    out
}

/// Whether a file of the public snapshot may be copied into the sandbox.
pub fn public_asset(components: &[String]) -> (b: bool)
    ensures
        b == spec_public_asset(component_views(components@)),
{
    let ghost views = component_views(components@);
    let n = components.len();
    let mut i: usize = 0;
    while i < n
        invariant
            n == components@.len(),
            views == component_views(components@),
            i <= n,
            forall|k: int| 0 <= k < i ==> !private_component(
                (#[trigger] views[k]).map_values(|c: char| ascii_lower(c)),
            ),
        decreases n - i,
    {
        let lower = to_lower(components[i].as_str());
        assert(views[i as int] == components@[i as int]@);
        let dot = lower.unicode_len() > 0 && lower.as_str().get_char(0) == '.';
        if dot || ends_with(lower.as_str(), ".userdb") || str_eq(lower.as_str(), "log") {
            return false;
        }
        i = i + 1;
    }
    if n > 0 {
        let last = components[n - 1].as_str();
        assert(views.last() == components@[n - 1]@);
        if str_eq(last, "user.yaml") || str_eq(last, "installation.yaml") {
            return false;
        }
    }
    true
}

/// A file at the top of the sandbox whose compiled form also goes when the
/// file goes: a single component naming a `.schema.yaml`.
pub fn is_top_level_schema(components: &[String]) -> (b: bool)
    ensures
        b == (components@.len() == 1 && has_suffix(components@[0]@, ".schema.yaml"@)),
{
    components.len() == 1 && ends_with(components[0].as_str(), ".schema.yaml")
}

pub open spec fn invalid_generation_message() -> Seq<char> {
    "invalid public schema generation"@
}

/// A published generation: the stamp's text, trimmed, must be 64
/// hexadecimal digits.
pub open spec fn spec_public_generation(stamp: Seq<char>) -> Option<Seq<char>> {
    let g = trim(stamp);
    if g.len() == 64 && forall|i: int| 0 <= i < g.len() ==> is_hex_digit(#[trigger] g[i]) {
        Some(g)
    } else {
        None
    }
}

/// The generation a published stamp names, or an error for anything that is
/// not 64 hexadecimal digits.
pub fn public_generation(stamp: &str) -> (r: Result<String, String>)
    ensures
        match r {
            Ok(g) => spec_public_generation(stamp@) == Some(g@),
            Err(e) => spec_public_generation(stamp@) is None && e@ == invalid_generation_message(),
        },
{
    let g = trim_str(stamp);
    let n = g.unicode_len();
    if n != 64 {
        return Err(String::from_str("invalid public schema generation"));
    }
    let mut i: usize = 0;
    while i < n
        invariant
            n == g@.len(),
            g@ == trim(stamp@),
            i <= n,
            forall|k: int| 0 <= k < i ==> is_hex_digit(#[trigger] g@[k]),
        decreases n - i,
    {
        if hex_digit_value(g.get_char(i)).is_none() {
            assert(!is_hex_digit(g@[i as int]));
            return Err(String::from_str("invalid public schema generation"));
        }
        i = i + 1;
    }
    Ok(String::from_str(g))
}

/// The sandbox must be seeded again unless its marker records exactly this
/// generation.
pub fn seed_changed(marker: Option<String>, generation: &str) -> (changed: bool)
    ensures
        changed == match marker {
            Some(m) => m@ != generation@,
            None => true,
        },
{
    match marker {
        Some(m) => !str_eq(m.as_str(), generation),
        None => true,
    }
}

/// A line without the carriage return of a `\r\n` ending.
pub open spec fn strip_cr(line: Seq<char>) -> Seq<char> {
    if line.len() > 0 && line.last() == '\r' {
        line.drop_last()
    } else {
        line
    }
}

/// `str::lines`: split at `\n`, a `\r` before it dropped, and no empty line
/// after a final line ending.
pub open spec fn std_lines(s: Seq<char>) -> Seq<Seq<char>> {
    let parts = split_lines(s);
    let ended = parts.drop_last().map_values(|l: Seq<char>| strip_cr(l));
    if parts.last().len() == 0 {
        ended
    } else {
        ended.push(parts.last())
    }
}

/// The files a previous seeding recorded that this one did not copy, in
/// their recorded order.
pub open spec fn spec_stale_names(previous: Seq<Seq<char>>, copied: Seq<Seq<char>>) -> Seq<Seq<char>> {
    previous.filter(|name: Seq<char>| !copied.contains(name))
}

fn contains_name(copied: &[String], name: &str) -> (b: bool)
    ensures
        b == component_views(copied@).contains(name@),
{
    let ghost views = component_views(copied@);
    let n = copied.len();
    let mut i: usize = 0;
    while i < n
        invariant
            n == copied@.len(),
            views == component_views(copied@),
            i <= n,
            forall|k: int| 0 <= k < i ==> #[trigger] views[k] != name@,
        decreases n - i,
    {
        if str_eq(copied[i].as_str(), name) {
            assert(views[i as int] == name@);
            return true;
        }
        i = i + 1;
    }
    false
}

/// The lines of a text, as `str::lines` yields them.
pub fn text_lines(text: &str) -> (lines: Vec<String>)
    ensures
        component_views(lines@) == std_lines(text@),
{
    let n = text.unicode_len();
    let mut lines: Vec<String> = Vec::new();
    let mut start: usize = 0;
    let ghost mut done: Seq<Seq<char>> = Seq::empty();
    let mut finished = false;
    let mut last: &str = "";
    assert(text@.subrange(0, n as int) =~= text@);
    while !finished
        invariant
            n == text@.len(),
            start <= n,
            !finished ==> split_lines(text@) == done + split_lines(text@.subrange(start as int, n as int)),
            finished ==> split_lines(text@) == done.push(last@),
            component_views(lines@) == done.map_values(|l: Seq<char>| strip_cr(l)),
        decreases n - start, if finished { 0int } else { 1int },
    {
        let mut k = start;
        while k < n && text.get_char(k) != '\n'
            invariant
                n == text@.len(),
                start <= k <= n,
                forall|j: int| start <= j < k ==> text@[j] != '\n',
            decreases n - k,
        {
            k = k + 1;
        }
        let part = text.substring_char(start, k);
        let ghost rest = text@.subrange(start as int, n as int);
        proof {
            lemma_split_lines_first(rest, (k - start) as int);
            assert(rest.subrange(0, (k - start) as int) =~= part@);
        }
        if k == n {
            proof {
                assert(rest =~= part@);
            }
            last = part;
            finished = true;
        } else {
            let m = part.unicode_len();
            let line = if m > 0 && part.get_char(m - 1) == '\r' {
                part.substring_char(0, m - 1)
            } else {
                part
            };
            assert(line@ =~= strip_cr(part@));
            lines.push(String::from_str(line));
            proof {
                assert(rest.subrange((k - start) + 1, rest.len() as int) =~= text@.subrange(k + 1, n as int));
                assert(done.push(part@).map_values(|l: Seq<char>| strip_cr(l))
                    =~= done.map_values(|l: Seq<char>| strip_cr(l)).push(strip_cr(part@)));
                assert(component_views(lines@) =~= done.push(part@).map_values(|l: Seq<char>| strip_cr(l)));
                assert(done + (seq![part@] + split_lines(text@.subrange(k + 1, n as int)))
                    =~= done.push(part@) + split_lines(text@.subrange(k + 1, n as int)));
                done = done.push(part@);
            }
            start = k + 1;
        }
    }
    proof {
        let parts = split_lines(text@);
        assert(parts.drop_last() =~= done);
        assert(parts.last() == last@);
    }
    if last.unicode_len() > 0 {
        lines.push(String::from_str(last));
        assert(component_views(lines@) =~= std_lines(text@));
    } else {
        assert(component_views(lines@) =~= std_lines(text@));
    }
    lines
}

/// The names a previous seeding recorded, one per line, that this seeding
/// did not copy: the files it must now remove.
pub fn stale_seed_names(previous: &str, copied: &[String]) -> (stale: Vec<String>)
    ensures
        component_views(stale@) == spec_stale_names(std_lines(previous@), component_views(copied@)),
{
    let lines = text_lines(previous);
    let ghost views = component_views(lines@);
    let ghost kept = component_views(copied@);
    let ghost pred = |name: Seq<char>| !kept.contains(name);
    let n = lines.len();
    let mut stale: Vec<String> = Vec::new();
    let mut i: usize = 0;
    assert(views.subrange(0, 0).filter(pred) =~= Seq::<Seq<char>>::empty()) by {
        reveal(Seq::filter);
    }
    while i < n
        invariant
            n == lines@.len(),
            views == component_views(lines@),
            kept == component_views(copied@),
            pred == (|name: Seq<char>| !kept.contains(name)),
            i <= n,
            component_views(stale@) == views.subrange(0, i as int).filter(pred),
        decreases n - i,
    {
        let name = lines[i].as_str();
        let keep_out = contains_name(copied, name);
        proof {
            reveal(Seq::filter);
            assert(views.subrange(0, i + 1).drop_last() =~= views.subrange(0, i as int));
            assert(views.subrange(0, i + 1).last() == name@);
        }
        if !keep_out {
            stale.push(String::from_str(name));
            assert(component_views(stale@) =~= views.subrange(0, i as int).filter(pred).push(name@));
        }
        i = i + 1;
    }
    assert(views.subrange(0, n as int) =~= views);
    stale
}

} // verus!
