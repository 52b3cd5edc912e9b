//! Modified-time strings: the fixed day, abbreviated month, hour and
//! minute rendering of a modification timestamp, or the empty string
//! when no timestamp is available.

use vstd::prelude::*;

verus! {

/// What the fixed `"%e %b %H:%M"` calendar rendering of a second count
/// since the epoch looks like. The rendering is a function of the count
/// alone: the pattern names its month in fixed English and the calendar
/// is always the proleptic Gregorian one at UTC.
pub uninterp spec fn time_display_of(secs: i64) -> Seq<char>;

/// Second counts within this band lie well inside the range of dates
/// that the calendar library can represent (about thirty-one thousand
/// years either side of the epoch), so rendering them cannot fail.
pub open spec fn ts_renderable(secs: i64) -> bool {
    -1000000000000 <= secs <= 1000000000000
}

/// Relies on chrono's `DateTime::<Utc>::from_timestamp` and the fixed
/// format pattern `"%e %b %H:%M"`: the conversion fails only on an
/// out-of-range second count, and never on one within `ts_renderable`'s
/// band; the rendering depends on the second count alone.
#[verifier::external_body]
fn render_timestamp(secs: i64) -> (r: Option<String>)
    ensures
        r matches Some(t) ==> t@ == time_display_of(secs),
        ts_renderable(secs) ==> r is Some,
{
    match chrono::DateTime::<chrono::Utc>::from_timestamp(secs, 0) {
        Some(d) => Some(d.format("%e %b %H:%M").to_string()),
        None => None,
    }
}

/// Derive the modified field of one entry: the fixed calendar rendering
/// of the timestamp, or the empty string when none is available or the
/// count lies outside the representable range.
pub fn format_modified(secs: Option<i64>) -> (r: String)
    ensures
        secs is None ==> r@ == Seq::<char>::empty(),
        secs matches Some(s) ==> (ts_renderable(s) ==> r@ == time_display_of(s)),
        secs matches Some(s) ==> r@ == time_display_of(s) || r@ == Seq::<char>::empty(),
{
    match secs {
        None => String::new(),
        Some(s) => match render_timestamp(s) {
            Some(t) => t,
            None => String::new(),
        },
    }
}

} // verus!
