//! One directory entry: its display kind and its formatted line.
use crate::owner::{get_owner_and_group, name_field};
use crate::perms::{get_rwx_string, rwx_text};
use crate::size::{iec_text, size_text};
use crate::text::{pad_left, pad_left_string, pad_right, pad_right_string};
use vstd::prelude::*;
use vstd::string::StringExecFns;

verus! {

/// What the lister reads of an entry before rendering it.
pub struct EntryMeta {
    /// The path as enumerated, e.g. `./notes.txt`.
    pub path: String,
    pub is_dir: bool,
    /// Size in bytes.
    pub size: u64,
    /// POSIX mode bits.
    pub mode: u32,
    pub uid: u32,
    pub gid: u32,
}

/// The three display variants of an entry.
#[derive(PartialEq, Eq, Structural, Clone, Copy, Debug)]
pub enum EntryKind {
    Directory,
    Hidden,
    Regular,
}

/// Where the last path component of `p` starts: just after the last `/`, or 0.
pub open spec fn basename_start(p: Seq<char>) -> int
    decreases p.len(),
{
    if p.len() == 0 {
        0
    } else if p.last() == '/' {
        p.len() as int
    } else {
        basename_start(p.drop_last())
    }
}

proof fn lemma_basename_start_bounds(p: Seq<char>)
    ensures
        0 <= basename_start(p) <= p.len(),
    decreases p.len(),
{
    if p.len() > 0 && p.last() != '/' {
        lemma_basename_start_bounds(p.drop_last());
    }
}

/// The last path component of `p`.
pub open spec fn basename(p: Seq<char>) -> Seq<char> {
    p.subrange(basename_start(p), p.len() as int)
}

/// Whether the last path component of `p` starts with a dot.
pub open spec fn is_hidden(p: Seq<char>) -> bool {
    basename(p).len() > 0 && basename(p)[0] == '.'
}

/// The display kind: a directory first of all, then a hidden file, else a
/// regular file.
pub open spec fn kind_of(p: Seq<char>, is_dir: bool) -> EntryKind {
    if is_dir {
        EntryKind::Directory
    } else if is_hidden(p) {
        EntryKind::Hidden
    } else {
        EntryKind::Regular
    }
}

/// The marker before the path.
pub open spec fn lead_arrow(kind: EntryKind) -> Seq<char> {
    match kind {
        EntryKind::Directory => seq!['=', '>'],
        _ => seq!['-', '>'],
    }
}

/// The marker after the path.
pub open spec fn trail_arrow(kind: EntryKind) -> Seq<char> {
    match kind {
        EntryKind::Directory => seq!['<', '='],
        _ => seq!['<', '-'],
    }
}

/// The ANSI select-graphic-rendition parameters of each kind's colour:
/// bold magenta, yellow, white.
pub open spec fn style_code(kind: EntryKind) -> Seq<char> {
    match kind {
        EntryKind::Directory => seq!['1', ';', '3', '5'],
        EntryKind::Hidden => seq!['3', '3'],
        EntryKind::Regular => seq!['3', '7'],
    }
}

/// The ANSI reset sequence.
pub open spec fn reset_seq() -> Seq<char> {
    seq!['\x1B', '[', '0', 'm']
}

/// Whether `s` holds the ANSI reset sequence.
pub open spec fn contains_reset(s: Seq<char>) -> bool {
    exists|i: int| 0 <= i && i + 4 <= s.len() && #[trigger] s.subrange(i, i + 4) == reset_seq()
}

/// `s` between the escape that selects style `code` and the reset escape.
pub open spec fn styled(s: Seq<char>, code: Seq<char>) -> Seq<char> {
    seq!['\x1B', '['] + code + seq!['m'] + s + reset_seq()
}

/// What a colouring call may give for `s` in style `code`: colour is written
/// or not depending on the terminal and the environment; for text without a
/// reset sequence it is then `s` itself or `s` styled.
pub open spec fn painted_as(r: Seq<char>, s: Seq<char>, code: Seq<char>) -> bool {
    !contains_reset(s) ==> (r == s || r == styled(s, code))
}

/// Relies on colored's `Colorize::purple`, `ColoredString::bold` and the
/// `Display` of `ColoredString`: plain text when colouring is off, else the
/// input between the bold-magenta escape and the reset escape.
#[verifier::external_body]
fn purple_bold(s: &str) -> (r: String)
    ensures
        painted_as(r@, s@, seq!['1', ';', '3', '5']),
{
    colored::Colorize::bold(colored::Colorize::purple(s)).to_string()
}

/// Relies on colored's `Colorize::yellow` and the `Display` of
/// `ColoredString`: plain text when colouring is off, else the input between
/// the yellow escape and the reset escape.
#[verifier::external_body]
fn yellow(s: &str) -> (r: String)
    ensures
        painted_as(r@, s@, seq!['3', '3']),
{
    colored::Colorize::yellow(s).to_string()
}

/// Relies on colored's `Colorize::white` and the `Display` of
/// `ColoredString`: plain text when colouring is off, else the input between
/// the white escape and the reset escape.
#[verifier::external_body]
fn white(s: &str) -> (r: String)
    ensures
        painted_as(r@, s@, seq!['3', '7']),
{
    colored::Colorize::white(s).to_string()
}

/// The display kind of the entry at `path`.
pub fn classify(path: &str, is_dir: bool) -> (r: EntryKind)
    ensures
        r == kind_of(path@, is_dir),
{
    if is_dir {
        return EntryKind::Directory;
    }
    let n = path.unicode_len();
    let mut start: usize = 0;
    let mut i: usize = 0;
    while i < n
        invariant
            n == path@.len(),
            i <= n,
            start as int == basename_start(path@.subrange(0, i as int)),
        decreases n - i,
    {
        let c = path.get_char(i);
        assert(path@.subrange(0, i + 1).drop_last() =~= path@.subrange(0, i as int));
        if c == '/' {
            start = i + 1;
        }
        i = i + 1;
    }
    assert(path@.subrange(0, n as int) =~= path@);
    proof {
        lemma_basename_start_bounds(path@);
    }
    if start < n && path.get_char(start) == '.' {
        EntryKind::Hidden
    } else {
        EntryKind::Regular
    }
}

/// `path` in the colour of `kind`.
pub fn paint(path: &str, kind: EntryKind) -> (r: String)
    ensures
        painted_as(r@, path@, style_code(kind)),
{
    match kind {
        EntryKind::Directory => purple_bold(path),
        EntryKind::Hidden => yellow(path),
        EntryKind::Regular => white(path),
    }
}

/// Two different kinds never look alike: they differ in their colour, and a
/// directory's markers differ from those of both kinds of file.
pub proof fn lemma_kinds_look_different(a: EntryKind, b: EntryKind)
    requires
        a != b,
    ensures
        style_code(a) != style_code(b),
        (a == EntryKind::Directory || b == EntryKind::Directory) ==> lead_arrow(a) != lead_arrow(
            b,
        ) && trail_arrow(a) != trail_arrow(b),
{
    let d = EntryKind::Directory;
    let h = EntryKind::Hidden;
    let g = EntryKind::Regular;
    assert(style_code(d).len() != style_code(h).len());
    assert(style_code(d).len() != style_code(g).len());
    assert(style_code(h)[1] != style_code(g)[1]);
    assert(lead_arrow(d)[0] != lead_arrow(h)[0]);
    assert(lead_arrow(d)[0] != lead_arrow(g)[0]);
    assert(trail_arrow(d)[1] != trail_arrow(h)[1]);
    assert(trail_arrow(d)[1] != trail_arrow(g)[1]);
}

/// One entry's line: the size right-aligned to 7 columns, a tab, the kind's
/// leading marker, the painted path, a tab, the trailing marker, the
/// permission string, then owner and group each left-aligned to 6 columns.
pub open spec fn entry_line(
    size: Seq<char>,
    kind: EntryKind,
    painted: Seq<char>,
    perms: Seq<char>,
    user: Seq<char>,
    group: Seq<char>,
) -> Seq<char> {
    pad_left(size, 7) + seq!['\t'] + lead_arrow(kind) + seq![' '] + painted + seq!['\t', ' ']
        + trail_arrow(kind) + seq![' '] + perms + seq![' ', '|', ' ', 'u', ':', ' '] + pad_right(
        user,
        6,
    ) + seq![' ', '|', ' ', 'g', ':', ' '] + pad_right(group, 6)
}

/// Whether `line` is a rendering of the entry described by the other
/// arguments, for some outcome of colouring and of the name lookups.
pub open spec fn rendered_as(
    line: Seq<char>,
    path: Seq<char>,
    is_dir: bool,
    size: u64,
    mode: u32,
    uid: u32,
    gid: u32,
) -> bool {
    let kind = kind_of(path, is_dir);
    exists|painted: Seq<char>, user: Option<Seq<char>>, group: Option<Seq<char>>|
        painted_as(painted, path, style_code(kind)) && line == entry_line(
            iec_text(size),
            kind,
            painted,
            rwx_text(mode),
            name_field(user, uid),
            name_field(group, gid),
        )
}

/// Whether `line` renders `meta`.
pub open spec fn renders(line: Seq<char>, meta: EntryMeta) -> bool {
    rendered_as(line, meta.path@, meta.is_dir, meta.size, meta.mode, meta.uid, meta.gid)
}

fn lead_arrow_str(kind: EntryKind) -> (r: &'static str)
    ensures
        r@ == lead_arrow(kind),
{
    match kind {
        EntryKind::Directory => {
            proof { reveal_strlit("=>"); }
            "=>"
        },
        _ => {
            proof { reveal_strlit("->"); }
            "->"
        },
    }
}

fn trail_arrow_str(kind: EntryKind) -> (r: &'static str)
    ensures
        r@ == trail_arrow(kind),
{
    match kind {
        EntryKind::Directory => {
            proof { reveal_strlit("<="); }
            "<="
        },
        _ => {
            proof { reveal_strlit("<-"); }
            "<-"
        },
    }
}

/// Lays out one entry's line from its already rendered parts.
pub fn format_line(
    size: &str,
    kind: EntryKind,
    painted: &str,
    perms: &str,
    user: &str,
    group: &str,
) -> (r: String)
    ensures
        r@ == entry_line(size@, kind, painted@, perms@, user@, group@),
{
    proof {
        reveal_strlit("\t");
        reveal_strlit(" ");
        reveal_strlit("\t ");
        reveal_strlit(" | u: ");
        reveal_strlit(" | g: ");
    }
    let mut r = pad_left_string(size, 7);
    r.append("\t");
    r.append(lead_arrow_str(kind));
    r.append(" ");
    r.append(painted);
    r.append("\t ");
    r.append(trail_arrow_str(kind));
    r.append(" ");
    r.append(perms);
    r.append(" | u: ");
    let u = pad_right_string(user, 6);
    r.append(u.as_str());
    r.append(" | g: ");
    let g = pad_right_string(group, 6);
    r.append(g.as_str());
    assert(r@ =~= entry_line(size@, kind, painted@, perms@, user@, group@));
    r
}

/// Renders one entry: its size, kind, painted path, permission string and
/// owner and group names, laid out by [`format_line`].
pub fn render_entry(meta: &EntryMeta) -> (r: String)
    ensures
        renders(r@, *meta),
{
    let kind = classify(meta.path.as_str(), meta.is_dir);
    let size = size_text(meta.size);
    let painted = paint(meta.path.as_str(), kind);
    let perms = get_rwx_string(meta.mode);
    let (user, group) = get_owner_and_group(meta.uid, meta.gid);
    let r = format_line(
        size.as_str(),
        kind,
        painted.as_str(),
        perms.as_str(),
        user.as_str(),
        group.as_str(),
    );
    proof {
        let (u, g) = choose|u: Option<Seq<char>>, g: Option<Seq<char>>|
            user@ == name_field(u, meta.uid) && group@ == name_field(g, meta.gid);
        assert(painted_as(painted@, meta.path@, style_code(kind)) && r@ == entry_line(
            iec_text(meta.size),
            kind,
            painted@,
            rwx_text(meta.mode),
            name_field(u, meta.uid),
            name_field(g, meta.gid),
        ));
    }
    r
}

} // verus!
