//! The whole listing: a header line naming the directory, then one line per
//! entry, in the order in which the entries were enumerated.
use crate::entry::{painted_as, render_entry, renders, EntryMeta};
use vstd::prelude::*;
use vstd::string::StringExecFns;

verus! {

/// The ANSI select-graphic-rendition parameters of the header: bold green.
pub open spec fn header_code() -> Seq<char> {
    seq!['1', ';', '3', '2']
}

/// Whether `line` is the header for directory `cwd`: a blank line, then the
/// directory painted bold green, for some outcome of colouring.
pub open spec fn is_header(line: Seq<char>, cwd: Seq<char>) -> bool {
    exists|painted: Seq<char>| painted_as(painted, cwd, header_code()) && line == seq!['\n'] + painted
}

/// Relies on colored's `Colorize::green`, `ColoredString::bold` and the
/// `Display` of `ColoredString`: plain text when colouring is off, else the
/// input between the bold-green escape and the reset escape.
#[verifier::external_body]
fn green_bold(s: &str) -> (r: String)
    ensures
        painted_as(r@, s@, seq!['1', ';', '3', '2']),
{
    colored::Colorize::bold(colored::Colorize::green(s)).to_string()
}

/// The header line for directory `cwd`.
pub fn header_line(cwd: &str) -> (r: String)
    ensures
        is_header(r@, cwd@),
{
    let painted = green_bold(cwd);
    proof { reveal_strlit("\n"); }
    let mut r = String::from_str("\n");
    r.append(painted.as_str());
    assert(r@ =~= seq!['\n'] + painted@);
    r
}

/// The lines of a listing of directory `cwd` whose entries are `entries`:
/// exactly one header line, then exactly one line per entry, in order.
pub fn list_lines(cwd: &str, entries: &Vec<EntryMeta>) -> (r: Vec<String>)
    ensures
        r.len() == entries.len() + 1,
        is_header(r[0]@, cwd@),
        forall|i: int| 0 <= i < entries.len() ==> #[trigger] renders(r[i + 1]@, entries[i]),
{
    let mut r: Vec<String> = Vec::new();
    r.push(header_line(cwd));
    let mut i: usize = 0;
    while i < entries.len()
        invariant
            i <= entries.len(),
            r.len() == i + 1,
            is_header(r[0]@, cwd@),
            forall|j: int| 0 <= j < i ==> #[trigger] renders(r[j + 1]@, entries[j]),
        decreases entries.len() - i,
    {
        let line = render_entry(&entries[i]);
        r.push(line);
        i = i + 1;
    }
    r
}

} // verus!
