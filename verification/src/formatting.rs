//! Text shown to users.

use vstd::prelude::*;
use crate::text::{i64_to_decimal, signed_decimal, trim_end_char, trim_end_matches_char};

verus! {

/// The processor description: core count (when known), architecture and
/// CPU type.
pub open spec fn processor_info(core_count: Option<i64>, arch: Seq<char>, cpu: Seq<char>) -> Seq<
    char,
> {
    match core_count {
        Some(c) => signed_decimal(c as int) + "-Core "@ + arch + " "@ + cpu,
        None => arch + " "@ + cpu,
    }
}

/// Describes a processor, such as `8-Core x86_64 Intel`, or `arm64 AWS`
/// when the core count is unknown.
pub fn format_processor_info(core_count: Option<i64>, cpu_architecture: String, cpu_type: String) -> (r:
    String)
    ensures
        r@ == processor_info(core_count, cpu_architecture@, cpu_type@),
{
    let mut r = match core_count {
        Some(c) => {
            let mut t = i64_to_decimal(c);
            t.append("-Core ");
            t.append(cpu_architecture.as_str());
            t
        },
        None => cpu_architecture,
    };
    r.append(" ");
    r.append(cpu_type.as_str());
    r
}


/// The text printed for a buffered log event: the event without its
/// trailing line feeds, printed in a single piece; nothing when that is
/// empty.
pub open spec fn printed_event(text: Seq<char>) -> Option<Seq<char>> {
    let t = trim_end_char(text, '\n');
    if t.len() == 0 {
        None
    } else {
        Some(t)
    }
}

/// What one flush of a buffered log event prints: `None` for an event that
/// holds only line feeds, else the event without its trailing line feeds,
/// to be printed with a single call.
pub fn log_event_text(text: &str) -> (r: Option<String>)
    ensures
        match r {
            Some(t) => printed_event(text@) == Some(t@),
            None => printed_event(text@) is None,
        },
{
    let t = trim_end_matches_char(text, '\n');
    if t.unicode_len() == 0 {
        None
    } else {
        Some(t)
    }
}

} // verus!
