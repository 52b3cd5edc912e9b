//! Permission strings: the ten-character rendering of an entry's mode
//! bits, one lead character for the entry kind and nine positions for the
//! classic owner/group/other read-write-execute bits.
//!
//! Each of the nine positions is tested against its own bit, from the
//! owner read bit down to the other execute bit. A set bit shows its
//! letter; a cleared bit shows a muted filler. The owner triplet keeps an
//! emphasis of its own: read and execute draw attention, write signals
//! danger; set group and other bits are uniformly shown as granted.

use vstd::prelude::*;

use crate::style::Style;
use crate::style::StyledText;
use crate::style::bolded;
use crate::style::embolden;
use crate::style::painted;

verus! {

/// The mode bit tested at position `i` of the nine-character body:
/// `0o400` at position 0 down to `0o001` at position 8.
pub open spec fn perm_bit(i: int) -> u32 {
    if i == 0 {
        0x100u32
    } else if i == 1 {
        0x80u32
    } else if i == 2 {
        0x40u32
    } else if i == 3 {
        0x20u32
    } else if i == 4 {
        0x10u32
    } else if i == 5 {
        0x8u32
    } else if i == 6 {
        0x4u32
    } else if i == 7 {
        0x2u32
    } else {
        0x1u32
    }
}

/// Whether position `i`'s bit is set in the mode.
pub open spec fn perm_set(mode: u32, i: int) -> bool {
    mode & perm_bit(i) != 0
}

/// The letter of position `i`: read, write or execute, repeating over
/// the three triplets.
pub open spec fn perm_letter(i: int) -> char {
    if i % 3 == 0 {
        'r'
    } else if i % 3 == 1 {
        'w'
    } else {
        'x'
    }
}

/// The character shown at position `i`: the position's letter when its
/// bit is set, the filler otherwise.
pub open spec fn perm_char(mode: u32, i: int) -> char {
    if perm_set(mode, i) {
        perm_letter(i)
    } else {
        '-'
    }
}

/// The plain nine-character permission body of a mode.
pub open spec fn perm_body(mode: u32) -> Seq<char> {
    Seq::new(9, |i: int| perm_char(mode, i))
}

/// The style of position `i`: muted for a cleared bit; for a set bit,
/// danger on the owner write position, attention on the other owner
/// positions, granted on every group and other position.
pub open spec fn perm_style(mode: u32, i: int) -> Style {
    if !perm_set(mode, i) {
        Style::Muted
    } else if i < 3 {
        if perm_letter(i) == 'w' {
            Style::Danger
        } else {
            Style::Attention
        }
    } else {
        Style::Granted
    }
}

/// The lead character: a directory marker, or the neutral filler dot.
pub open spec fn lead_text(is_dir: bool) -> Seq<char> {
    if is_dir {
        seq!['d']
    } else {
        seq!['.']
    }
}

/// The style of the lead character.
pub open spec fn lead_style(is_dir: bool) -> Style {
    if is_dir {
        Style::Marker
    } else {
        Style::Neutral
    }
}

/// The painted concatenation of the lead cell and the first `n` body
/// cells of a permission string.
pub open spec fn perm_cells_painted(is_dir: bool, mode: u32, n: int) -> Seq<char>
    decreases n,
{
    if n <= 0 {
        painted(lead_style(is_dir), lead_text(is_dir))
    } else {
        perm_cells_painted(is_dir, mode, n - 1) + painted(
            perm_style(mode, n - 1),
            seq![perm_char(mode, n - 1)],
        )
    }
}

/// The full styled permission string: all ten painted cells, wrapped in
/// the bold style.
pub open spec fn permissions_display(is_dir: bool, mode: u32) -> Seq<char> {
    bolded(perm_cells_painted(is_dir, mode, 9))
}

/// The mode bit tested at body position `i`.
fn perm_bit_of(i: usize) -> (r: u32)
    requires
        i < 9,
    ensures
        r == perm_bit(i as int),
{
    match i {
        0 => 0x100,
        1 => 0x80,
        2 => 0x40,
        3 => 0x20,
        4 => 0x10,
        5 => 0x8,
        6 => 0x4,
        7 => 0x2,
        _ => 0x1,
    }
}

/// The one-character string of body position `i`'s letter.
fn perm_letter_str(i: usize) -> (r: &'static str)
    requires
        i < 9,
    ensures
        r@ == seq![perm_letter(i as int)],
{
    match i % 3 {
        0 => {
            proof {
                reveal_strlit("r");
                assert("r"@ =~= seq![perm_letter(i as int)]);
            }
            "r"
        },
        1 => {
            proof {
                reveal_strlit("w");
                assert("w"@ =~= seq![perm_letter(i as int)]);
            }
            "w"
        },
        _ => {
            proof {
                reveal_strlit("x");
                assert("x"@ =~= seq![perm_letter(i as int)]);
            }
            "x"
        },
    }
}

/// Derive the ten cells of a permission string: the lead cell for the
/// entry kind, then one cell per mode bit, each with its own style.
pub fn permission_cells(is_dir: bool, mode: u32) -> (r: Vec<StyledText>)
    ensures
        r@.len() == 10,
        r@[0].text@ == lead_text(is_dir),
        r@[0].style == lead_style(is_dir),
        forall|j: int|
            0 <= j < 9 ==> (#[trigger] r@[j + 1]).text@ == seq![perm_char(mode, j)] && r@[j
                + 1].style == perm_style(mode, j),
{
    let mut cells: Vec<StyledText> = Vec::new();
    if is_dir {
        let t = String::from_str("d");
        proof {
            reveal_strlit("d");
            assert(t@ =~= lead_text(is_dir));
        }
        cells.push(StyledText { text: t, style: Style::Marker });
    } else {
        let t = String::from_str(".");
        proof {
            reveal_strlit(".");
            assert(t@ =~= lead_text(is_dir));
        }
        cells.push(StyledText { text: t, style: Style::Neutral });
    }
    let mut i: usize = 0;
    while i < 9
        invariant
            i <= 9,
            cells@.len() == i + 1,
            cells@[0].text@ == lead_text(is_dir),
            cells@[0].style == lead_style(is_dir),
            forall|j: int|
                0 <= j < i ==> (#[trigger] cells@[j + 1]).text@ == seq![perm_char(mode, j)]
                    && cells@[j + 1].style == perm_style(mode, j),
        decreases 9 - i,
    {
        let bit = perm_bit_of(i);
        if mode & bit != 0 {
            let style = if i < 3 {
                if i == 1 {
                    Style::Danger
                } else {
                    Style::Attention
                }
            } else {
                Style::Granted
            };
            cells.push(StyledText { text: String::from_str(perm_letter_str(i)), style });
        } else {
            let t = String::from_str("-");
            proof {
                reveal_strlit("-");
                assert(t@ =~= seq![perm_char(mode, i as int)]);
            }
            cells.push(StyledText { text: t, style: Style::Muted });
        }
        i += 1;
    }
    cells
}

/// Derive the plain nine-character permission body of a mode.
pub fn permission_body(mode: u32) -> (r: String)
    ensures
        r@ == perm_body(mode),
{
    let mut s = String::new();
    let mut i: usize = 0;
    while i < 9
        invariant
            i <= 9,
            s@.len() == i,
            forall|j: int| 0 <= j < i ==> s@[j] == perm_char(mode, j),
        decreases 9 - i,
    {
        let bit = perm_bit_of(i);
        if mode & bit != 0 {
            s.append(perm_letter_str(i));
        } else {
            proof {
                reveal_strlit("-");
                assert("-"@ =~= seq!['-']);
            }
            s.append("-");
        }
        i += 1;
    }
    proof {
        assert(s@ =~= perm_body(mode));
    }
    s
}

/// Derive the full styled permission string of an entry: its ten painted
/// cells, wrapped in the bold style.
pub fn format_permissions(is_dir: bool, mode: u32) -> (r: String)
    ensures
        r@ == permissions_display(is_dir, mode),
{
    let cells = permission_cells(is_dir, mode);
    let mut s = cells[0].render();
    let mut i: usize = 1;
    while i < 10
        invariant
            1 <= i <= 10,
            cells@.len() == 10,
            cells@[0].text@ == lead_text(is_dir),
            cells@[0].style == lead_style(is_dir),
            forall|j: int|
                0 <= j < 9 ==> (#[trigger] cells@[j + 1]).text@ == seq![perm_char(mode, j)]
                    && cells@[j + 1].style == perm_style(mode, j),
            s@ == perm_cells_painted(is_dir, mode, i as int - 1),
        decreases 10 - i,
    {
        let piece = cells[i].render();
        proof {
            let j = i as int - 1;
            assert(cells@[j + 1].text@ == seq![perm_char(mode, j)]);
            assert(cells@[j + 1].style == perm_style(mode, j));
        }
        s.append(piece.as_str());
        proof {
            assert(s@ == perm_cells_painted(is_dir, mode, i as int));
        }
        i += 1;
    }
    embolden(s.as_str())
}

/// The lead cell of a permission string depends on the directory flag
/// alone: any two modes give the same painted lead cell, a directory
/// marker for a directory and the neutral filler dot otherwise.
pub proof fn lemma_lead_independent_of_mode(is_dir: bool, m1: u32, m2: u32)
    ensures
        perm_cells_painted(is_dir, m1, 0) == perm_cells_painted(is_dir, m2, 0),
        is_dir ==> perm_cells_painted(is_dir, m1, 0) == painted(Style::Marker, seq!['d']),
        !is_dir ==> perm_cells_painted(is_dir, m1, 0) == painted(Style::Neutral, seq!['.']),
{
}

} // verus!
