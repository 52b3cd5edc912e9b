//! Size strings: a three-tier rendering of a byte length, with a fixed
//! placeholder for directories.
//!
//! Lengths under 1024 bytes are shown as the raw integer; lengths above
//! 1024 * 1024 bytes are shown in whole mebibytes with the suffix `m`;
//! everything in between, both bounds included, is shown in whole
//! kibibytes with the suffix `k`. Quotients are rounded to the nearest
//! integer, halves away from zero.

use vstd::prelude::*;

use crate::digits::dec_str;
use crate::digits::u64_to_dec;
use crate::style::Style;
use crate::style::StyledText;
use crate::style::painted;

verus! {

/// The quotient `n / k`, rounded to the nearest integer with halves
/// rounded away from zero.
pub open spec fn round_div(n: int, k: int) -> int
    recommends
        k > 0,
{
    n / k + if n % k >= k / 2 {
        1int
    } else {
        0int
    }
}

/// The text of a size field: a fixed placeholder for directories, and the
/// tiered rendering of the byte length otherwise.
pub open spec fn size_text(len: u64, is_dir: bool) -> Seq<char> {
    if is_dir {
        seq!['-']
    } else if len < 1024 {
        dec_str(len as nat)
    } else if len > 1024 * 1024 {
        dec_str(round_div(len as int, 1024int * 1024) as nat).push('m')
    } else {
        dec_str(round_div(len as int, 1024int) as nat).push('k')
    }
}

/// The style of a size field: informational for directories, granted for
/// small lengths, attention for the two larger tiers.
pub open spec fn size_style(len: u64, is_dir: bool) -> Style {
    if is_dir {
        Style::Info
    } else if len < 1024 {
        Style::Granted
    } else {
        Style::Attention
    }
}

/// Divide by a tier divisor, rounding halves away from zero.
fn rounded_div(n: u64, k: u64) -> (r: u64)
    requires
        k == 1024 || k == 1024 * 1024,
    ensures
        r as int == round_div(n as int, k as int),
{
    let q = n / k;
    proof {
        vstd::arithmetic::div_mod::lemma_div_is_ordered(n as int, u64::MAX as int, k as int);
    }
    let rem = n % k;
    if rem >= k / 2 {
        q + 1
    } else {
        q
    }
}

/// Derive the size field of one entry: the text of its tier and the
/// style that goes with it.
pub fn format_size(len: u64, is_dir: bool) -> (r: StyledText)
    ensures
        r.text@ == size_text(len, is_dir),
        r.style == size_style(len, is_dir),
{
    if is_dir {
        let t = String::from_str("-");
        proof {
            reveal_strlit("-");
            assert(t@ =~= seq!['-']);
        }
        StyledText { text: t, style: Style::Info }
    } else if len < 1024 {
        StyledText { text: u64_to_dec(len), style: Style::Granted }
    } else if len > 1024 * 1024 {
        let t = u64_to_dec(rounded_div(len, 1024 * 1024)).concat("m");
        proof {
            reveal_strlit("m");
            assert(t@ =~= size_text(len, is_dir));
        }
        StyledText { text: t, style: Style::Attention }
    } else {
        let t = u64_to_dec(rounded_div(len, 1024)).concat("k");
        proof {
            reveal_strlit("k");
            assert(t@ =~= size_text(len, is_dir));
        }
        StyledText { text: t, style: Style::Attention }
    }
}

/// The size field of a directory ignores the byte length: whatever the
/// length, the text is the fixed placeholder and the style is the
/// informational one.
pub proof fn lemma_dir_size_placeholder(l1: u64, l2: u64)
    ensures
        size_text(l1, true) == size_text(l2, true),
        size_text(l1, true) == seq!['-'],
        size_style(l1, true) == Style::Info,
{
}

/// Render the size of a plain file as a styled string: the tier text,
/// painted with the tier's style.
pub fn parse_file_size(size: u64) -> (r: String)
    ensures
        r@ == painted(size_style(size, false), size_text(size, false)),
{
    let st = format_size(size, false);
    st.render()
}

} // verus!
