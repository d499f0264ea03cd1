//! How the Linux daemon picks its frontends and finds its buses.
use vstd::prelude::*;
use vstd::string::*;
use crate::text::{trim, trim_str, str_eq, strip_prefix, has_prefix, decimal, push_decimal};

verus! {

broadcast use vstd::seq::group_seq_axioms;

/// Which frontends the daemon runs.
#[derive(Clone, Copy, Debug, PartialEq, Eq, Structural)]
pub struct BackendSelection {
    pub wayland: bool,
    pub xim: bool,
    pub ibus: bool,
    /// Run as a standalone IBus engine inside an existing ibus-daemon.
    pub ibus_engine: bool,
}

/// No frontend at all.
pub open spec fn no_backends() -> BackendSelection {
    BackendSelection { wayland: false, xim: false, ibus: false, ibus_engine: false }
}

/// Some frontend is selected.
pub open spec fn spec_any(s: BackendSelection) -> bool {
    s.wayland || s.xim || s.ibus || s.ibus_engine
}

/// `str::split(',')`: the pieces between commas, empty ones included.
pub open spec fn split_commas(s: Seq<char>) -> Seq<Seq<char>>
    decreases s.len(),
{
    if s.len() == 0 {
        seq![Seq::<char>::empty()]
    } else {
        let rest = split_commas(s.drop_first());
        if s[0] == ',' {
            seq![Seq::<char>::empty()] + rest
        } else {
            rest.update(0, seq![s[0]] + rest[0])
        }
    }
}

/// The message a backend name nobody knows is reported with.
pub open spec fn unknown_backend_message(name: Seq<char>) -> Seq<char> {
    "unknown backend '"@ + name + "'"@
}

/// Add one `--backend=` list item to a selection.
pub open spec fn apply_backend_item(item: Seq<char>, sel: BackendSelection) -> Result<BackendSelection, Seq<char>> {
    if item.len() == 0 {
        Ok(sel)
    } else if item == "wayland"@ {
        Ok(BackendSelection { wayland: true, ..sel })
    } else if item == "xim"@ || item == "x11"@ {
        Ok(BackendSelection { xim: true, ..sel })
    } else if item == "ibus"@ {
        Ok(BackendSelection { ibus: true, ..sel })
    } else {
        Err(unknown_backend_message(item))
    }
}

/// Apply the trimmed pieces in order; the first unknown one is the error.
pub open spec fn apply_backend_pieces(pieces: Seq<Seq<char>>, sel: BackendSelection) -> Result<BackendSelection, Seq<char>>
    decreases pieces.len(),
{
    if pieces.len() == 0 {
        Ok(sel)
    } else {
        match apply_backend_item(trim(pieces[0]), sel) {
            Ok(next) => apply_backend_pieces(pieces.drop_first(), next),
            Err(e) => Err(e),
        }
    }
}

/// A `--backend=` value: a comma-separated list that has to select something.
pub open spec fn spec_parse_list(value: Seq<char>) -> Result<BackendSelection, Seq<char>> {
    match apply_backend_pieces(split_commas(value), no_backends()) {
        Ok(sel) => if spec_any(sel) { Ok(sel) } else { Err("no backends selected"@) },
        Err(e) => Err(e),
    }
}

/// The command line from `i` on, with what was selected so far.
pub open spec fn spec_args_from(args: Seq<Seq<char>>, i: int, sel: BackendSelection, explicit: bool) -> Result<BackendSelection, Seq<char>>
    decreases args.len() - i,
{
    if i < 0 || i >= args.len() {
        if explicit {
            if spec_any(sel) { Ok(sel) } else { Err("no backends selected"@) }
        } else {
            Ok(no_backends())
        }
    } else {
        let arg = args[i];
        if arg == "--ibus-engine"@ {
            Ok(BackendSelection { ibus_engine: true, ..no_backends() })
        } else if has_prefix(arg, "--backend="@) {
            match spec_parse_list(arg.subrange("--backend="@.len() as int, arg.len() as int)) {
                Ok(next) => spec_args_from(args, i + 1, next, true),
                Err(e) => Err(e),
            }
        } else if arg == "--wayland"@ {
            spec_args_from(args, i + 1, BackendSelection { wayland: true, ..sel }, true)
        } else if arg == "--xim"@ {
            spec_args_from(args, i + 1, BackendSelection { xim: true, ..sel }, true)
        } else if arg == "--ibus"@ {
            spec_args_from(args, i + 1, BackendSelection { ibus: true, ..sel }, true)
        } else {
            spec_args_from(args, i + 1, sel, explicit)
        }
    }
}

/// The views of the arguments.
pub open spec fn arg_views(args: Seq<String>) -> Seq<Seq<char>> {
    args.map_values(|a: String| a@)
}

/// What the session's display servers and desktop call for.
pub open spec fn spec_for_session(has_wayland: bool, has_x11: bool, is_gnome: bool, is_kde: bool) -> BackendSelection {
    if is_gnome {
        BackendSelection { ibus_engine: true, xim: has_x11, ..no_backends() }
    } else if is_kde {
        BackendSelection { ibus: has_wayland || has_x11, xim: has_x11, ..no_backends() }
    } else if has_wayland && has_x11 {
        BackendSelection { wayland: true, xim: true, ibus: true, ibus_engine: false }
    } else if has_wayland {
        BackendSelection { wayland: true, ..no_backends() }
    } else if has_x11 {
        BackendSelection { xim: true, ibus: true, ..no_backends() }
    } else {
        no_backends()
    }
}

/// The comma-joined list of names.
pub open spec fn join_commas(parts: Seq<Seq<char>>) -> Seq<char>
    decreases parts.len(),
{
    if parts.len() == 0 {
        Seq::empty()
    } else if parts.len() == 1 {
        parts[0]
    } else {
        join_commas(parts.drop_last()) + ","@ + parts.last()
    }
}

/// The names of the selected frontends, in the order they are described.
pub open spec fn describe_parts(s: BackendSelection) -> Seq<Seq<char>> {
    let a = if s.ibus_engine { seq!["ibus-engine"@] } else { Seq::empty() };
    let b = if s.wayland { a.push("wayland"@) } else { a };
    let c = if s.xim { b.push("xim"@) } else { b };
    if s.ibus { c.push("ibus"@) } else { c }
}

/// Write one more name into the description.
fn push_part(out: &mut String, part: &str, first: bool, Ghost(parts): Ghost<Seq<Seq<char>>>)
    requires
        first <==> parts.len() == 0,
        old(out)@ == join_commas(parts),
    ensures
        final(out)@ == join_commas(parts.push(part@)),
{
    let ghost joined = parts.push(part@);
    assert(joined.drop_last() =~= parts);
    if !first {
        out.append(",");
        out.append(part);
    } else {
        out.append(part);
        assert(final(out)@ =~= part@);
    }
}

impl BackendSelection {
    pub fn none() -> (s: Self)
        ensures
            s == no_backends(),
    {
        BackendSelection { wayland: false, xim: false, ibus: false, ibus_engine: false }
    }

    pub fn any(self) -> (b: bool)
        ensures
            b == spec_any(self),
    {
        self.wayland || self.xim || self.ibus || self.ibus_engine
    }

    /// Parse a `--backend=` list.
    pub fn parse_list(value: &str) -> (r: Result<Self, String>)
        ensures
            match r {
                Ok(s) => spec_parse_list(value@) == Ok::<BackendSelection, Seq<char>>(s),
                Err(e) => spec_parse_list(value@) == Err::<BackendSelection, Seq<char>>(e@),
            },
    {
        let n = value.unicode_len();
        let mut selection = Self::none();
        let mut start: usize = 0;
        let mut done = false;
        assert(value@.subrange(0, n as int) =~= value@);
        while !done
            invariant
                n == value@.len(),
                start <= n,
                !done ==> apply_backend_pieces(split_commas(value@), no_backends())
                    == apply_backend_pieces(split_commas(value@.subrange(start as int, n as int)), selection),
                done ==> apply_backend_pieces(split_commas(value@), no_backends()) == Ok::<BackendSelection, Seq<char>>(selection),
            decreases n - start, if done { 0int } else { 1int },
        {
            let mut k = start;
            while k < n && value.get_char(k) != ','
                invariant
                    n == value@.len(),
                    start <= k <= n,
                    forall|j: int| start <= j < k ==> value@[j] != ',',
                decreases n - k,
            {
                k = k + 1;
            }
            let piece = value.substring_char(start, k);
            proof {
                lemma_split_first_piece(value@.subrange(start as int, n as int), (k - start) as int);
                assert(value@.subrange(start as int, n as int).subrange(0, (k - start) as int) =~= piece@);
            }
            let item = trim_str(piece);
            let ghost before = selection;
            if item.unicode_len() == 0 {
            } else if str_eq(item, "wayland") {
                selection.wayland = true;
            } else if str_eq(item, "xim") || str_eq(item, "x11") {
                selection.xim = true;
            } else if str_eq(item, "ibus") {
                selection.ibus = true;
            } else {
                let mut message = String::from_str("unknown backend '");
                message.append(item);
                message.append("'");
                return Err(message);
            }
            proof {
                assert(apply_backend_item(trim(piece@), before) == Ok::<BackendSelection, Seq<char>>(selection));
            }
            if k == n {
                done = true;
                proof {
                    let rest = value@.subrange(start as int, n as int);
                    assert(split_commas(rest) =~= seq![piece@]);
                    assert(seq![piece@].drop_first() =~= Seq::<Seq<char>>::empty());
                    assert(apply_backend_pieces(Seq::<Seq<char>>::empty(), selection) == Ok::<BackendSelection, Seq<char>>(selection));
                    assert(apply_backend_pieces(seq![piece@], before) == apply_backend_pieces(seq![piece@].drop_first(), selection));
                }
            } else {
                proof {
                    let rest = value@.subrange(start as int, n as int);
                    assert(rest.subrange((k - start) + 1, rest.len() as int) =~= value@.subrange(k + 1, n as int));
                    assert((seq![piece@] + split_commas(value@.subrange(k + 1, n as int))).drop_first()
                        =~= split_commas(value@.subrange(k + 1, n as int)));
                }
                start = k + 1;
            }
        }
        if !selection.any() {
            return Err(String::from_str("no backends selected"));
        }
        Ok(selection)
    }

    /// Read the command line: `--ibus-engine` wins outright, explicit flags
    /// have to select something, and no flag at all leaves the choice to the
    /// session.
    pub fn from_args(args: &[String]) -> (r: Result<Self, String>)
        ensures
            match r {
                Ok(s) => spec_args_from(arg_views(args@), 0, no_backends(), false) == Ok::<BackendSelection, Seq<char>>(s),
                Err(e) => spec_args_from(arg_views(args@), 0, no_backends(), false) == Err::<BackendSelection, Seq<char>>(e@),
            },
    {
        let ghost views = arg_views(args@);
        let mut selection = Self::none();
        let mut explicit = false;
        let mut i: usize = 0;
        while i < args.len()
            invariant
                i <= args@.len(),
                views == arg_views(args@),
                views.len() == args@.len(),
                spec_args_from(views, 0, no_backends(), false) == spec_args_from(views, i as int, selection, explicit),
            decreases args@.len() - i,
        {
            let arg = args[i].as_str();
            assert(views[i as int] == arg@);
            if str_eq(arg, "--ibus-engine") {
                return Ok(BackendSelection { ibus_engine: true, ..Self::none() });
            }
            match strip_prefix(arg, "--backend=") {
                Some(value) => {
                    explicit = true;
                    match Self::parse_list(value) {
                        Ok(s) => {
                            selection = s;
                        },
                        Err(e) => {
                            return Err(e);
                        },
                    }
                },
                None => {
                    if str_eq(arg, "--wayland") {
                        explicit = true;
                        selection.wayland = true;
                    } else if str_eq(arg, "--xim") {
                        explicit = true;
                        selection.xim = true;
                    } else if str_eq(arg, "--ibus") {
                        explicit = true;
                        selection.ibus = true;
                    }
                },
            }
            i = i + 1;
        }
        if explicit {
            if !selection.any() {
                return Err(String::from_str("no backends selected"));
            }
            Ok(selection)
        } else {
            Ok(Self::none())
        }
    }

    /// The frontends a session without explicit flags runs.
    pub fn for_session(has_wayland: bool, has_x11: bool, is_gnome: bool, is_kde: bool) -> (s: Self)
        ensures
            s == spec_for_session(has_wayland, has_x11, is_gnome, is_kde),
    {
        if is_gnome {
            return BackendSelection { ibus_engine: true, xim: has_x11, ..Self::none() };
        }
        if is_kde {
            return BackendSelection { ibus: has_wayland || has_x11, xim: has_x11, ..Self::none() };
        }
        if has_wayland && has_x11 {
            BackendSelection { wayland: true, xim: true, ibus: true, ibus_engine: false }
        } else if has_wayland {
            BackendSelection { wayland: true, ..Self::none() }
        } else if has_x11 {
            BackendSelection { xim: true, ibus: true, ..Self::none() }
        } else {
            Self::none()
        }
    }

    /// The selected frontends as a comma-separated list.
    pub fn describe(self) -> (text: String)
        ensures
            text@ == join_commas(describe_parts(self)),
    {
        let mut out = String::new();
        let ghost mut parts: Seq<Seq<char>> = Seq::empty();
        let mut first = true;
        assert(out@ =~= join_commas(parts));
        if self.ibus_engine {
            push_part(&mut out, "ibus-engine", first, Ghost(parts));
            proof { parts = parts.push("ibus-engine"@); }
            first = false;
        }
        if self.wayland {
            push_part(&mut out, "wayland", first, Ghost(parts));
            proof { parts = parts.push("wayland"@); }
            first = false;
        }
        if self.xim {
            push_part(&mut out, "xim", first, Ghost(parts));
            proof { parts = parts.push("xim"@); }
            first = false;
        }
        if self.ibus {
            push_part(&mut out, "ibus", first, Ghost(parts));
            proof { parts = parts.push("ibus"@); }
        }
        assert(parts =~= describe_parts(self));
        out
    }
}

/// Splitting at the first comma gives the piece before it, then the split
/// of what follows it; without a comma the whole text is the only piece.
pub proof fn lemma_split_first_piece(s: Seq<char>, k: int)
    requires
        0 <= k <= s.len(),
        forall|j: int| 0 <= j < k ==> s[j] != ',',
        k < s.len() ==> s[k] == ',',
    ensures
        k == s.len() ==> split_commas(s) == seq![s],
        k < s.len() ==> split_commas(s) == seq![s.subrange(0, k)] + split_commas(s.subrange(k + 1, s.len() as int)),
    decreases k,
{
    if k == 0 {
        if s.len() == 0 {
            assert(s =~= Seq::<char>::empty());
        } else {
            assert(s.drop_first() =~= s.subrange(1, s.len() as int));
            assert(s.subrange(0, 0) =~= Seq::<char>::empty());
        }
    } else {
        let t = s.drop_first();
        lemma_split_first_piece(t, k - 1);
        assert(split_commas(t).len() >= 1);
        if k == s.len() {
            assert(seq![s[0]] + t =~= s);
            assert(split_commas(t).update(0, seq![s[0]] + t) =~= seq![s]);
        } else {
            assert(t.subrange(k, t.len() as int) =~= s.subrange(k + 1, s.len() as int));
            assert(seq![s[0]] + t.subrange(0, k - 1) =~= s.subrange(0, k));
            assert((seq![t.subrange(0, k - 1)] + split_commas(s.subrange(k + 1, s.len() as int))).update(0, s.subrange(0, k))
                =~= seq![s.subrange(0, k)] + split_commas(s.subrange(k + 1, s.len() as int)));
        }
    }
}

proof fn lemma_join_commas_head(parts: Seq<Seq<char>>)
    requires
        parts.len() >= 2,
    ensures
        join_commas(parts) == parts[0] + ","@ + join_commas(parts.drop_first()),
    decreases parts.len(),
{
    if parts.len() == 2 {
        assert(parts.drop_last() =~= seq![parts[0]]);
        assert(parts.drop_first() =~= seq![parts[1]]);
        assert(join_commas(seq![parts[0]]) == parts[0]);
        assert(join_commas(seq![parts[1]]) == parts[1]);
        assert(parts.last() == parts[1]);
    } else {
        let init = parts.drop_last();
        lemma_join_commas_head(init);
        assert(init.drop_first() =~= parts.drop_first().drop_last());
        assert(init[0] == parts[0]);
        assert(parts.drop_first().last() == parts.last());
        assert(join_commas(parts.drop_first()) == join_commas(parts.drop_first().drop_last()) + ","@
            + parts.drop_first().last());
        assert(parts[0] + ","@ + join_commas(init.drop_first()) + ","@ + parts.last()
            =~= parts[0] + ","@ + (join_commas(init.drop_first()) + ","@ + parts.last()));
    }
}

/// Joining pieces that hold no comma and splitting the result gives the
/// pieces back.
proof fn lemma_split_join_commas(parts: Seq<Seq<char>>)
    requires
        parts.len() >= 1,
        forall|i: int| 0 <= i < parts.len() ==> !(#[trigger] parts[i]).contains(','),
    ensures
        split_commas(join_commas(parts)) == parts,
    decreases parts.len(),
{
    reveal_strlit(",");
    let p0 = parts[0];
    assert forall|j: int| 0 <= j < p0.len() implies p0[j] != ',' by {
        if p0[j] == ',' {
            assert(p0.contains(','));
        }
    }
    if parts.len() == 1 {
        lemma_split_first_piece(p0, p0.len() as int);
        assert(seq![p0] =~= parts);
    } else {
        let rest = parts.drop_first();
        lemma_join_commas_head(parts);
        let joined = join_commas(parts);
        let tail = join_commas(rest);
        assert(joined =~= p0 + seq![','] + tail);
        lemma_split_first_piece(joined, p0.len() as int);
        assert(joined.subrange(0, p0.len() as int) =~= p0);
        assert(joined.subrange(p0.len() as int + 1, joined.len() as int) =~= tail);
        assert forall|i: int| 0 <= i < rest.len() implies !(#[trigger] rest[i]).contains(',') by {
            assert(rest[i] == parts[i + 1]);
        }
        lemma_split_join_commas(rest);
        assert(seq![p0] + rest =~= parts);
    }
}

/// The text of a frontend name has no surrounding whitespace and no comma.
proof fn lemma_names_are_plain()
    ensures
        trim("wayland"@) == "wayland"@,
        trim("xim"@) == "xim"@,
        trim("ibus"@) == "ibus"@,
        !"wayland"@.contains(','),
        !"xim"@.contains(','),
        !"ibus"@.contains(','),
        "xim"@ != "wayland"@,
        "ibus"@ != "wayland"@,
        "ibus"@ != "xim"@,
        "ibus"@ != "x11"@,
{
    reveal_strlit("wayland");
    reveal_strlit("xim");
    reveal_strlit("ibus");
    reveal_strlit("x11");
    assert("wayland"@.last() == 'd');
    assert("xim"@.last() == 'm');
    assert("ibus"@.last() == 's');
    assert(!"xim"@.contains(',')) by {
        if "xim"@.contains(',') {
            let j = choose|j: int| 0 <= j < "xim"@.len() && "xim"@[j] == ',';
            assert("xim"@[j] == ',');
        }
    }
    assert(!"ibus"@.contains(',')) by {
        if "ibus"@.contains(',') {
            let j = choose|j: int| 0 <= j < "ibus"@.len() && "ibus"@[j] == ',';
            assert("ibus"@[j] == ',');
        }
    }
    assert(!"wayland"@.contains(',')) by {
        if "wayland"@.contains(',') {
            let j = choose|j: int| 0 <= j < "wayland"@.len() && "wayland"@[j] == ',';
            assert("wayland"@[j] == ',');
        }
    }
    assert("xim"@[2] != "x11"@[2]);
    assert("ibus"@[0] != "x11"@[0]);
}

/// A selection of native frontends is described by a list that the
/// `--backend=` option reads back as the same selection.
pub proof fn lemma_described_selection_parses_back(s: BackendSelection)
    requires
        !s.ibus_engine,
        spec_any(s),
    ensures
        spec_parse_list(join_commas(describe_parts(s))) == Ok::<BackendSelection, Seq<char>>(s),
{
    lemma_names_are_plain();
    reveal_strlit("wayland");
    reveal_strlit("xim");
    reveal_strlit("ibus");
    reveal_strlit("x11");
    let parts = describe_parts(s);
    assert forall|i: int| 0 <= i < parts.len() implies !(#[trigger] parts[i]).contains(',') by {
        assert(parts[i] == "wayland"@ || parts[i] == "xim"@ || parts[i] == "ibus"@);
    }
    lemma_split_join_commas(parts);
    reveal_with_fuel(apply_backend_pieces, 4);
    let w = BackendSelection { wayland: true, ..no_backends() };
    let x = BackendSelection { xim: true, ..no_backends() };
    let wx = BackendSelection { wayland: true, xim: true, ..no_backends() };
    assert(apply_backend_item("wayland"@, no_backends()) == Ok::<BackendSelection, Seq<char>>(w));
    assert(apply_backend_item("xim"@, no_backends()) == Ok::<BackendSelection, Seq<char>>(x));
    assert(apply_backend_item("xim"@, w) == Ok::<BackendSelection, Seq<char>>(wx));
    assert(apply_backend_pieces(parts, no_backends()) == Ok::<BackendSelection, Seq<char>>(s)) by {
        if s.wayland {
            assert(parts[0] == "wayland"@);
            if s.xim {
                assert(parts[1] == "xim"@);
            }
        } else if s.xim {
            assert(parts[0] == "xim"@);
        }
    }
}

/// The items of a `--backend=` list: the pieces between commas, trimmed,
/// the empty ones dropped.
pub open spec fn backend_items(pieces: Seq<Seq<char>>) -> Seq<Seq<char>>
    decreases pieces.len(),
{
    if pieces.len() == 0 {
        Seq::empty()
    } else if trim(pieces[0]).len() == 0 {
        backend_items(pieces.drop_first())
    } else {
        seq![trim(pieces[0])] + backend_items(pieces.drop_first())
    }
}

/// A name `--backend=` accepts.
pub open spec fn known_backend(name: Seq<char>) -> bool {
    name == "wayland"@ || name == "xim"@ || name == "x11"@ || name == "ibus"@
}

/// `sel` with every frontend the items name switched on.
pub open spec fn with_items(sel: BackendSelection, items: Seq<Seq<char>>) -> BackendSelection {
    BackendSelection {
        wayland: sel.wayland || items.contains("wayland"@),
        xim: sel.xim || items.contains("xim"@) || items.contains("x11"@),
        ibus: sel.ibus || items.contains("ibus"@),
        ibus_engine: sel.ibus_engine,
    }
}

/// `j` is the first item that is not a backend name.
pub open spec fn first_unknown_at(items: Seq<Seq<char>>, j: int) -> bool {
    &&& 0 <= j < items.len()
    &&& !known_backend(items[j])
    &&& forall|i: int| 0 <= i < j ==> #[trigger] known_backend(items[i])
}

proof fn lemma_contains_after_head(head: Seq<char>, rest: Seq<Seq<char>>, name: Seq<char>)
    ensures
        (seq![head] + rest).contains(name) == (head == name || rest.contains(name)),
{
    let all = seq![head] + rest;
    if all.contains(name) {
        let k = choose|k: int| 0 <= k < all.len() && all[k] == name;
        if k > 0 {
            assert(rest[k - 1] == name);
        }
    }
    if head == name {
        assert(all[0] == name);
    }
    if rest.contains(name) {
        let k = choose|k: int| 0 <= k < rest.len() && rest[k] == name;
        assert(all[k + 1] == name);
    }
}

/// Applying the pieces of a list: the first item that is not a backend name
/// is the error; when there is none, every named frontend is switched on.
proof fn lemma_apply_backend_pieces(pieces: Seq<Seq<char>>, sel: BackendSelection)
    ensures
        (forall|i: int| 0 <= i < backend_items(pieces).len() ==> #[trigger] known_backend(backend_items(pieces)[i]))
            ==> apply_backend_pieces(pieces, sel) == Ok::<BackendSelection, Seq<char>>(with_items(sel, backend_items(pieces))),
        forall|j: int| #[trigger] first_unknown_at(backend_items(pieces), j)
            ==> apply_backend_pieces(pieces, sel) == Err::<BackendSelection, Seq<char>>(unknown_backend_message(backend_items(pieces)[j])),
    decreases pieces.len(),
{
    let items = backend_items(pieces);
    if pieces.len() == 0 {
        assert(with_items(sel, items) == sel);
    } else {
        let rest = pieces.drop_first();
        let rest_items = backend_items(rest);
        let t = trim(pieces[0]);
        if t.len() == 0 {
            lemma_apply_backend_pieces(rest, sel);
        } else {
            assert(items == seq![t] + rest_items);
            assert forall|name: Seq<char>| #![trigger items.contains(name)] items.contains(name) == (t == name || rest_items.contains(name)) by {
                lemma_contains_after_head(t, rest_items, name);
            }
            if known_backend(t) {
                reveal_strlit("wayland");
                reveal_strlit("xim");
                reveal_strlit("x11");
                reveal_strlit("ibus");
                let next = match apply_backend_item(t, sel) {
                    Ok(n) => n,
                    Err(_) => sel,
                };
                assert(apply_backend_item(t, sel) == Ok::<BackendSelection, Seq<char>>(next));
                lemma_apply_backend_pieces(rest, next);
                if forall|i: int| 0 <= i < items.len() ==> #[trigger] known_backend(items[i]) {
                    assert forall|i: int| 0 <= i < rest_items.len() implies #[trigger] known_backend(rest_items[i]) by {
                        assert(items[i + 1] == rest_items[i]);
                    }
                    assert(with_items(next, rest_items) == with_items(sel, items));
                }
                assert forall|j: int| #[trigger] first_unknown_at(items, j) implies apply_backend_pieces(pieces, sel)
                    == Err::<BackendSelection, Seq<char>>(unknown_backend_message(items[j])) by {
                    assert(j > 0);
                    assert(items[j] == rest_items[j - 1]);
                    assert forall|i: int| 0 <= i < j - 1 implies #[trigger] known_backend(rest_items[i]) by {
                        assert(items[i + 1] == rest_items[i]);
                        assert(known_backend(items[i + 1]));
                    }
                    assert(first_unknown_at(rest_items, j - 1));
                }
            } else {
                assert(!known_backend(items[0]));
                assert forall|j: int| #[trigger] first_unknown_at(items, j) implies j == 0 by {
                    if j > 0 {
                        assert(known_backend(items[0]));
                    }
                }
            }
        }
    }
}

/// A `--backend=` list in closed form: the items are the pieces between
/// commas, trimmed, the empty ones dropped. When every item names a backend
/// the list selects exactly the named frontends (`x11` standing for `xim`),
/// or is refused with "no backends selected" when there is no item; otherwise
/// the first item that names none is reported.
pub proof fn lemma_parse_list_closed_form(value: Seq<char>)
    ensures
        (forall|i: int| 0 <= i < backend_items(split_commas(value)).len()
            ==> #[trigger] known_backend(backend_items(split_commas(value))[i]))
            ==> spec_parse_list(value) == if backend_items(split_commas(value)).len() == 0 {
                Err::<BackendSelection, Seq<char>>("no backends selected"@)
            } else {
                Ok::<BackendSelection, Seq<char>>(with_items(no_backends(), backend_items(split_commas(value))))
            },
        forall|j: int| #[trigger] first_unknown_at(backend_items(split_commas(value)), j)
            ==> spec_parse_list(value) == Err::<BackendSelection, Seq<char>>(
                unknown_backend_message(backend_items(split_commas(value))[j])),
{
    let items = backend_items(split_commas(value));
    lemma_apply_backend_pieces(split_commas(value), no_backends());
    if forall|i: int| 0 <= i < items.len() ==> #[trigger] known_backend(items[i]) {
        let s = with_items(no_backends(), items);
        if items.len() > 0 {
            assert(known_backend(items[0]));
            assert(items.contains(items[0]));
            assert(spec_any(s));
        } else {
            assert(!spec_any(s));
        }
    }
}

/// A flag that picks frontends explicitly.
pub open spec fn is_frontend_flag(arg: Seq<char>) -> bool {
    has_prefix(arg, "--backend="@) || arg == "--wayland"@ || arg == "--xim"@ || arg == "--ibus"@
}

/// The `--backend=` value of an argument that has the prefix.
pub open spec fn backend_value(arg: Seq<char>) -> Seq<char> {
    arg.subrange("--backend="@.len() as int, arg.len() as int)
}

proof fn lemma_engine_flag_wins_from(args: Seq<Seq<char>>, i: int, sel: BackendSelection, explicit: bool, k: int)
    requires
        0 <= i <= k < args.len(),
        args[k] == "--ibus-engine"@,
        forall|m: int| i <= m < k && has_prefix(#[trigger] args[m], "--backend="@) ==> spec_parse_list(backend_value(args[m])) is Ok,
    ensures
        spec_args_from(args, i, sel, explicit) == Ok::<BackendSelection, Seq<char>>(BackendSelection { ibus_engine: true, ..no_backends() }),
    decreases k - i,
{
    let arg = args[i];
    if arg != "--ibus-engine"@ {
        if has_prefix(arg, "--backend="@) {
            let next = match spec_parse_list(backend_value(arg)) {
                Ok(n) => n,
                Err(_) => sel,
            };
            lemma_engine_flag_wins_from(args, i + 1, next, true, k);
        } else if arg == "--wayland"@ {
            lemma_engine_flag_wins_from(args, i + 1, BackendSelection { wayland: true, ..sel }, true, k);
        } else if arg == "--xim"@ {
            lemma_engine_flag_wins_from(args, i + 1, BackendSelection { xim: true, ..sel }, true, k);
        } else if arg == "--ibus"@ {
            lemma_engine_flag_wins_from(args, i + 1, BackendSelection { ibus: true, ..sel }, true, k);
        } else {
            lemma_engine_flag_wins_from(args, i + 1, sel, explicit, k);
        }
    }
}

/// `--ibus-engine` wins outright: wherever it stands, the daemon runs only
/// the standalone engine, unless a `--backend=` list before it is refused.
pub proof fn lemma_ibus_engine_flag_wins(args: Seq<Seq<char>>, k: int)
    requires
        0 <= k < args.len(),
        args[k] == "--ibus-engine"@,
        forall|m: int| 0 <= m < k && has_prefix(#[trigger] args[m], "--backend="@) ==> spec_parse_list(backend_value(args[m])) is Ok,
    ensures
        spec_args_from(args, 0, no_backends(), false) == Ok::<BackendSelection, Seq<char>>(BackendSelection { ibus_engine: true, ..no_backends() }),
{
    lemma_engine_flag_wins_from(args, 0, no_backends(), false, k);
}

proof fn lemma_explicit_selection_from(args: Seq<Seq<char>>, i: int, sel: BackendSelection, explicit: bool)
    requires
        0 <= i <= args.len(),
    ensures
        spec_args_from(args, i, sel, explicit) matches Ok(s) ==> spec_any(s)
            || (!explicit && forall|m: int| i <= m < args.len() ==> !is_frontend_flag(#[trigger] args[m])),
    decreases args.len() - i,
{
    if i < args.len() {
        let arg = args[i];
        if arg == "--ibus-engine"@ {
        } else if has_prefix(arg, "--backend="@) {
            let next = match spec_parse_list(backend_value(arg)) {
                Ok(n) => n,
                Err(_) => sel,
            };
            lemma_explicit_selection_from(args, i + 1, next, true);
        } else if arg == "--wayland"@ {
            lemma_explicit_selection_from(args, i + 1, BackendSelection { wayland: true, ..sel }, true);
        } else if arg == "--xim"@ {
            lemma_explicit_selection_from(args, i + 1, BackendSelection { xim: true, ..sel }, true);
        } else if arg == "--ibus"@ {
            lemma_explicit_selection_from(args, i + 1, BackendSelection { ibus: true, ..sel }, true);
        } else {
            lemma_explicit_selection_from(args, i + 1, sel, explicit);
            assert(!is_frontend_flag(args[i]));
        }
    }
}

/// Once a flag picks frontends explicitly, an accepted command line selects
/// at least one frontend: an empty choice is refused, never run.
pub proof fn lemma_explicit_flags_select_something(args: Seq<Seq<char>>, m: int)
    requires
        0 <= m < args.len(),
        is_frontend_flag(args[m]),
    ensures
        spec_args_from(args, 0, no_backends(), false) matches Ok(s) ==> spec_any(s),
{
    lemma_explicit_selection_from(args, 0, no_backends(), false);
}

/// An explicitly parsed list always selects something.
pub proof fn lemma_parsed_list_selects_something(value: Seq<char>)
    ensures
        spec_parse_list(value) matches Ok(s) ==> spec_any(s),
{
}

/// A GNOME session always runs the standalone IBus engine, and never the
/// native Wayland input method.
pub proof fn lemma_gnome_uses_the_ibus_engine(has_wayland: bool, has_x11: bool, is_kde: bool)
    ensures
        spec_for_session(has_wayland, has_x11, true, is_kde).ibus_engine,
        !spec_for_session(has_wayland, has_x11, true, is_kde).wayland,
{
}

/// A session with a display server always gets some frontend.
pub proof fn lemma_display_means_a_frontend(has_wayland: bool, has_x11: bool, is_gnome: bool, is_kde: bool)
    requires
        has_wayland || has_x11,
    ensures
        spec_any(spec_for_session(has_wayland, has_x11, is_gnome, is_kde)),
{
}

/// Whether this process draws the candidate list itself: only when forced,
/// or when no desktop panel runs and an X11 display is there to draw on.
pub fn should_draw_overlay(force: bool, panel_available: bool, has_display: bool) -> (b: bool)
    ensures
        b == (force || (!panel_available && has_display)),
{
    force || (!panel_available && has_display)
}

/// The address of the session bus: the environment's address, else the
/// runtime directory's socket, else the standard socket of the user.
pub open spec fn spec_session_bus_address(dbus: Option<Seq<char>>, runtime_dir: Option<Seq<char>>, uid: u32) -> Seq<char> {
    match dbus {
        Some(v) if trim(v).len() > 0 => v,
        _ => match runtime_dir {
            Some(r) if trim(r).len() > 0 => "unix:path="@ + r + "/bus"@,
            _ => "unix:path=/run/user/"@ + decimal(uid as nat) + "/bus"@,
        },
    }
}

pub fn session_bus_address_from(dbus_session_bus_address: Option<String>, xdg_runtime_dir: Option<String>, uid: u32) -> (address: String)
    ensures
        address@ == spec_session_bus_address(
            match dbus_session_bus_address { Some(s) => Some(s@), None => None },
            match xdg_runtime_dir { Some(s) => Some(s@), None => None },
            uid,
        ),
{
    match dbus_session_bus_address {
        Some(value) => {
            if trim_str(value.as_str()).unicode_len() != 0 {
                return value;
            }
        },
        None => {},
    }
    match xdg_runtime_dir {
        Some(runtime_dir) => {
            if trim_str(runtime_dir.as_str()).unicode_len() != 0 {
                let mut address = String::from_str("unix:path=");
                address.append(runtime_dir.as_str());
                address.append("/bus");
                return address;
            }
        },
        None => {},
    }
    let mut address = String::from_str("unix:path=/run/user/");
    push_decimal(&mut address, uid as u64);
    address.append("/bus");
    address
}

/// A set `DBUS_SESSION_BUS_ADDRESS` (anything but blank) is the address,
/// whatever the runtime directory and the user are.
pub proof fn lemma_explicit_bus_address_wins(dbus: Seq<char>, runtime_dir: Option<Seq<char>>, uid: u32)
    requires
        trim(dbus).len() > 0,
    ensures
        spec_session_bus_address(Some(dbus), runtime_dir, uid) == dbus,
{
}

/// Without a usable bus address, a set runtime directory gives the `bus`
/// socket inside it, whatever the user is.
pub proof fn lemma_runtime_dir_bus_socket(dbus: Option<Seq<char>>, runtime_dir: Seq<char>, uid: u32)
    requires
        match dbus {
            Some(v) => trim(v).len() == 0,
            None => true,
        },
        trim(runtime_dir).len() > 0,
    ensures
        spec_session_bus_address(dbus, Some(runtime_dir), uid) == "unix:path="@ + runtime_dir + "/bus"@,
{
}

/// With neither set, the address is the user's socket under `/run/user`.
pub proof fn lemma_default_bus_is_per_user(dbus: Option<Seq<char>>, runtime_dir: Option<Seq<char>>, uid: u32)
    requires
        match dbus {
            Some(v) => trim(v).len() == 0,
            None => true,
        },
        match runtime_dir {
            Some(r) => trim(r).len() == 0,
            None => true,
        },
    ensures
        spec_session_bus_address(dbus, runtime_dir, uid) == "unix:path=/run/user/"@ + decimal(uid as nat) + "/bus"@,
{
}

/// `str::split('\n')`, as `str::lines` splits; the carriage returns `lines`
/// would also strip are whitespace the values are trimmed of anyway.
pub open spec fn split_lines(s: Seq<char>) -> Seq<Seq<char>>
    decreases s.len(),
{
    if s.len() == 0 {
        seq![Seq::<char>::empty()]
    } else {
        let rest = split_lines(s.drop_first());
        if s[0] == '\n' {
            seq![Seq::<char>::empty()] + rest
        } else {
            rest.update(0, seq![s[0]] + rest[0])
        }
    }
}

/// `u32::from_str`: an optional `+`, then one or more decimal digits whose
/// value fits.
pub open spec fn spec_parse_u32(s: Seq<char>) -> Option<u32> {
    let digits = unsigned_digits(s);
    if digits.len() > 0 && all_decimal_digits(digits) && decimal_value(digits) <= u32::MAX {
        Some(decimal_value(digits) as u32)
    } else {
        None
    }
}

/// The text after an optional leading `+`.
pub open spec fn unsigned_digits(s: Seq<char>) -> Seq<char> {
    if s.len() > 0 && s[0] == '+' { s.drop_first() } else { s }
}

/// Every character is a decimal digit.
pub open spec fn all_decimal_digits(s: Seq<char>) -> bool {
    forall|i: int| 0 <= i < s.len() ==> '0' <= #[trigger] s[i] && s[i] <= '9'
}

/// The value of a string of decimal digits.
pub open spec fn decimal_value(s: Seq<char>) -> nat
    decreases s.len(),
{
    if s.len() == 0 {
        0
    } else {
        decimal_value(s.drop_last()) * 10 + ((s.last() as u32 - 48) as nat)
    }
}

/// `u32::from_str`.
pub fn parse_u32(s: &str) -> (v: Option<u32>)
    ensures
        v == spec_parse_u32(s@),
{
    let n = s.unicode_len();
    let start: usize = if n > 0 && s.get_char(0) == '+' { 1 } else { 0 };
    let ghost digits = unsigned_digits(s@);
    assert(digits =~= s@.subrange(start as int, n as int));
    if start >= n {
        return None;
    }
    let mut value: u64 = 0;
    let mut i = start;
    while i < n
        invariant
            n == s@.len(),
            start <= i <= n,
            start < n,
            digits == s@.subrange(start as int, n as int),
            digits == unsigned_digits(s@),
            forall|j: int| 0 <= j < i - start ==> '0' <= #[trigger] digits[j] && digits[j] <= '9',
            value == decimal_value(digits.subrange(0, i - start)),
            value <= u32::MAX,
        decreases n - i,
    {
        let c = s.get_char(i);
        assert(digits[i - start] == c);
        if c < '0' || c > '9' {
            assert(!('0' <= digits[i - start] && digits[i - start] <= '9'));
            assert(!all_decimal_digits(digits));
            return None;
        }
        let d = (c as u32 - 48) as u64;
        let ghost prefix = digits.subrange(0, i - start + 1);
        assert(prefix.drop_last() =~= digits.subrange(0, i - start));
        value = value * 10 + d;
        assert(decimal_value(prefix) == decimal_value(prefix.drop_last()) * 10 + ((prefix.last() as u32 - 48) as nat));
        assert(prefix.last() == c);
        if value > 0xFFFF_FFFF {
            proof {
                if all_decimal_digits(digits) {
                    lemma_decimal_value_grows(digits, i - start + 1);
                }
            }
            return None;
        }
        i = i + 1;
    }
    assert(digits.subrange(0, n - start) =~= digits);
    Some(value as u32)
}

/// A longer prefix of digits never has a smaller value.
proof fn lemma_decimal_value_grows(digits: Seq<char>, k: int)
    requires
        0 <= k <= digits.len(),
        all_decimal_digits(digits),
    ensures
        decimal_value(digits.subrange(0, k)) <= decimal_value(digits),
    decreases digits.len() - k,
{
    if k < digits.len() {
        lemma_decimal_value_grows(digits, k + 1);
        let longer = digits.subrange(0, k + 1);
        assert(longer.drop_last() =~= digits.subrange(0, k));
    } else {
        assert(digits.subrange(0, k) =~= digits);
    }
}

/// What reading the lines of an IBus address file from `i` on yields, with
/// the address seen so far; a daemon pid equal to `own_pid` means the file
/// was written by this very process.
pub open spec fn spec_address_lines(lines: Seq<Seq<char>>, i: int, address: Option<Seq<char>>, own_pid: u32) -> Option<Seq<char>>
    decreases lines.len() - i,
{
    if i < 0 || i >= lines.len() {
        match address {
            Some(a) if a.len() > 0 => Some(a),
            _ => None,
        }
    } else {
        let line = lines[i];
        if has_prefix(line, "IBUS_ADDRESS="@) {
            spec_address_lines(lines, i + 1, Some(trim(line.subrange("IBUS_ADDRESS="@.len() as int, line.len() as int))), own_pid)
        } else if has_prefix(line, "IBUS_DAEMON_PID="@)
            && spec_parse_u32(trim(line.subrange("IBUS_DAEMON_PID="@.len() as int, line.len() as int))) == Some(own_pid) {
            None
        } else {
            spec_address_lines(lines, i + 1, address, own_pid)
        }
    }
}

/// The address an IBus address file names, unless the file is empty of one
/// or was written by this process.
pub fn parse_ibus_address_file(content: &str, own_pid: u32) -> (address: Option<String>)
    ensures
        match address {
            Some(a) => spec_address_lines(split_lines(content@), 0, None, own_pid) == Some(a@),
            None => spec_address_lines(split_lines(content@), 0, None, own_pid) is None,
        },
{
    let n = content.unicode_len();
    let mut address: Option<&str> = None;
    let mut start: usize = 0;
    let ghost mut line_no: int = 0;
    let mut done = false;
    let ghost lines = split_lines(content@);
    proof {
        assert(content@.subrange(0, n as int) =~= content@);
        assert(lines.skip(0) =~= lines);
        lemma_split_lines_nonempty(content@);
    }
    while !done
        invariant
            n == content@.len(),
            start <= n,
            lines == split_lines(content@),
            0 <= line_no,
            !done ==> line_no < lines.len(),
            !done ==> lines.skip(line_no) =~= split_lines(content@.subrange(start as int, n as int)),
            spec_address_lines(lines, 0, None, own_pid) == spec_address_lines(lines, line_no,
                match address { Some(a) => Some(a@), None => None::<Seq<char>> }, own_pid),
            done ==> line_no >= lines.len(),
        decreases n - start, if done { 0int } else { 1int },
    {
        let mut k = start;
        while k < n && content.get_char(k) != '\n'
            invariant
                n == content@.len(),
                start <= k <= n,
                forall|j: int| start <= j < k ==> content@[j] != '\n',
            decreases n - k,
        {
            k = k + 1;
        }
        let line = content.substring_char(start, k);
        proof {
            lemma_split_lines_first(content@.subrange(start as int, n as int), (k - start) as int);
            assert(content@.subrange(start as int, n as int).subrange(0, (k - start) as int) =~= line@);
            assert(lines.skip(line_no)[0] == lines[line_no]);
        }
        match strip_prefix(line, "IBUS_ADDRESS=") {
            Some(value) => {
                address = Some(trim_str(value));
            },
            None => {
                match strip_prefix(line, "IBUS_DAEMON_PID=") {
                    Some(value) => {
                        if parse_u32(trim_str(value)) == Some(own_pid) {
                            return None;
                        }
                    },
                    None => {},
                }
            },
        }
        if k == n {
            done = true;
            proof {
                let rest = content@.subrange(start as int, n as int);
                assert(lines.skip(line_no).len() == 1);
            }
            proof { line_no = line_no + 1; }
        } else {
            proof {
                let rest = content@.subrange(start as int, n as int);
                assert(rest.subrange((k - start) + 1, rest.len() as int) =~= content@.subrange(k + 1, n as int));
                assert(lines.skip(line_no + 1) =~= lines.skip(line_no).drop_first());
                assert((seq![line@] + split_lines(content@.subrange(k + 1, n as int))).drop_first()
                    =~= split_lines(content@.subrange(k + 1, n as int)));
                assert(split_lines(content@.subrange(k + 1, n as int)).len() >= 1) by {
                    lemma_split_lines_nonempty(content@.subrange(k + 1, n as int));
                }
            }
            start = k + 1;
            proof { line_no = line_no + 1; }
        }
    }
    match address {
        Some(a) => {
            if a.unicode_len() == 0 {
                None
            } else {
                Some(String::from_str(a))
            }
        },
        None => None,
    }
}

/// Splitting always yields at least one piece.
pub proof fn lemma_split_lines_nonempty(s: Seq<char>)
    ensures
        split_lines(s).len() >= 1,
    decreases s.len(),
{
    if s.len() > 0 {
        lemma_split_lines_nonempty(s.drop_first());
    }
}

/// Splitting at the first line break gives the line before it, then the
/// split of what follows; without one the whole text is the only line.
pub proof fn lemma_split_lines_first(s: Seq<char>, k: int)
    requires
        0 <= k <= s.len(),
        forall|j: int| 0 <= j < k ==> s[j] != '\n',
        k < s.len() ==> s[k] == '\n',
    ensures
        k == s.len() ==> split_lines(s) == seq![s],
        k < s.len() ==> split_lines(s) == seq![s.subrange(0, k)] + split_lines(s.subrange(k + 1, s.len() as int)),
    decreases k,
{
    if k == 0 {
        if s.len() == 0 {
            assert(s =~= Seq::<char>::empty());
        } else {
            assert(s.drop_first() =~= s.subrange(1, s.len() as int));
            assert(s.subrange(0, 0) =~= Seq::<char>::empty());
        }
    } else {
        let t = s.drop_first();
        lemma_split_lines_first(t, k - 1);
        lemma_split_lines_nonempty(t);
        if k == s.len() {
            assert(seq![s[0]] + t =~= s);
            assert(split_lines(t).update(0, seq![s[0]] + t) =~= seq![s]);
        } else {
            assert(t.subrange(k, t.len() as int) =~= s.subrange(k + 1, s.len() as int));
            assert(seq![s[0]] + t.subrange(0, k - 1) =~= s.subrange(0, k));
            assert((seq![t.subrange(0, k - 1)] + split_lines(s.subrange(k + 1, s.len() as int))).update(0, s.subrange(0, k))
                =~= seq![s.subrange(0, k)] + split_lines(s.subrange(k + 1, s.len() as int)));
        }
    }
}

/// Tracks which reload request the daemon has acted on.
///
/// The baseline only moves when a reload succeeded, and it moves to exactly
/// the signature that was loaded, so a request written while the engine was
/// reloading is still picked up on the next check, and a failed reload is
/// retried.
#[derive(Debug)]
pub struct ReloadStampGate {
    path: String,
    loaded_signature: Option<String>,
}

impl ReloadStampGate {
    pub closed spec fn spec_path(self) -> Seq<char> {
        self.path@
    }

    /// The signature of the deployment the engine runs on.
    pub closed spec fn spec_loaded(self) -> Option<Seq<char>> {
        match self.loaded_signature {
            Some(s) => Some(s@),
            None => None,
        }
    }

    /// Seeded with the stamp on disk at startup: that is the deployment the
    /// engine was just initialised on, not a pending request.
    pub fn new(path: String, signature_on_disk: Option<String>) -> (gate: Self)
        ensures
            gate.spec_path() == path@,
            gate.spec_loaded() == (match signature_on_disk { Some(s) => Some(s@), None => None::<Seq<char>> }),
    {
        ReloadStampGate { path, loaded_signature: signature_on_disk }
    }

    /// Where the stamp lives.
    pub fn path(&self) -> (p: &str)
        ensures
            p@ == self.spec_path(),
    {
        self.path.as_str()
    }

    /// The signature a reload is pending for, given the stamp now on disk,
    /// without consuming the request. A missing stamp is not a request.
    pub fn pending(&self, current: Option<String>) -> (requested: Option<String>)
        ensures
            match requested {
                None => spec_pending(self.spec_loaded(), match current { Some(c) => Some(c@), None => None::<Seq<char>> }) is None,
                Some(r) => spec_pending(self.spec_loaded(), match current { Some(c) => Some(c@), None => None::<Seq<char>> }) == Some(r@),
            },
    {
        match current {
            None => None,
            Some(c) => {
                let same = match &self.loaded_signature {
                    Some(loaded) => str_eq(loaded.as_str(), c.as_str()),
                    None => false,
                };
                if same {
                    None
                } else {
                    Some(c)
                }
            },
        }
    }

    /// Record the signature a reload actually loaded.
    pub fn commit(&mut self, signature: String)
        ensures
            final(self).spec_loaded() == Some(signature@),
            final(self).spec_path() == old(self).spec_path(),
    {
        self.loaded_signature = Some(signature);
    }
}

/// The request a stamp on disk stands for, given the signature loaded.
pub open spec fn spec_pending(loaded: Option<Seq<char>>, current: Option<Seq<char>>) -> Option<Seq<char>> {
    match current {
        None => None,
        Some(c) => if loaded == Some(c) { None } else { Some(c) },
    }
}

/// A request stays pending until exactly its signature is committed: once
/// committed it is not requested again, while a stamp written in the meantime
/// still is.
pub proof fn lemma_reload_request_fires_until_committed(loaded: Option<Seq<char>>, current: Seq<char>, committed: Seq<char>)
    ensures
        loaded != Some(current) ==> spec_pending(loaded, Some(current)) == Some(current),
        spec_pending(Some(current), Some(current)) is None,
        committed != current ==> spec_pending(Some(committed), Some(current)) == Some(current),
        spec_pending(loaded, None) is None,
{
}

} // verus!
