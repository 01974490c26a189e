//! Human-readable byte counts in binary (IEC) units.
use crate::text::decimal;
use vstd::prelude::*;

verus! {

/// The text that bytesize writes for a byte count in IEC style.
pub uninterp spec fn iec_text(bytes: u64) -> Seq<char>;

/// Relies on bytesize's `ByteSize::b(..).display().iec()` and its `Display`:
/// the text depends on the count alone, and a count below 1024 is written as
/// its decimal digits followed by " B".
#[verifier::external_body]
fn iec_display(bytes: u64) -> (r: String)
    ensures
        r@ == iec_text(bytes),
        bytes < 1024 ==> r@ == decimal(bytes as nat) + seq![' ', 'B'],
{
    bytesize::ByteSize::b(bytes).display().iec().to_string()
}

/// The size column of an entry: `bytes` in IEC units, scaled automatically
/// (`0 B`, `1.0 KiB`, `3.5 MiB`, ...).
pub fn size_text(bytes: u64) -> (r: String)
    ensures
        r@ == iec_text(bytes),
        bytes < 1024 ==> r@ == decimal(bytes as nat) + seq![' ', 'B'],
{
    iec_display(bytes)
}

} // verus!
