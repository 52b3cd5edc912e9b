//! Whole-entry formatting: the six display fields of one directory
//! entry, each derived from the entry's metadata snapshot alone.

use vstd::prelude::*;

use crate::perm::format_permissions;
use crate::perm::permissions_display;
use crate::size::format_size;
use crate::size::size_style;
use crate::size::size_text;
use crate::style::Style;
use crate::style::StyledText;
use crate::style::painted;
use crate::timefmt::format_modified;
use crate::timefmt::time_display_of;
use crate::timefmt::ts_renderable;

verus! {

/// The kind of a listed entry.
#[derive(Clone, Copy, Debug, PartialEq, Eq, Structural)]
pub enum FileType {
    File,
    Dir,
}

/// The type tag of an entry with the given directory flag.
pub open spec fn entry_type(is_dir: bool) -> FileType {
    if is_dir {
        FileType::Dir
    } else {
        FileType::File
    }
}

/// The display label of a type tag.
pub open spec fn type_label(t: FileType) -> Seq<char> {
    match t {
        FileType::File => "File"@,
        FileType::Dir => "Dir"@,
    }
}

impl FileType {
    /// The tag's display label.
    pub fn label(&self) -> (r: &'static str)
        ensures
            r@ == type_label(*self),
    {
        match self {
            FileType::File => "File",
            FileType::Dir => "Dir",
        }
    }
}

/// Classify an entry by its directory flag.
pub fn classify_type(is_dir: bool) -> (r: FileType)
    ensures
        r == entry_type(is_dir),
{
    if is_dir {
        FileType::Dir
    } else {
        FileType::File
    }
}

/// The placeholder shown for a name that could not be decoded as text.
pub open spec fn name_fallback() -> Seq<char> {
    "Unknown name"@
}

/// The style of a name field: accented for directories, neutral for
/// everything else.
pub open spec fn name_style(is_dir: bool) -> Style {
    if is_dir {
        Style::Accent
    } else {
        Style::Neutral
    }
}

/// Derive the name field of one entry: the decoded name passes through
/// unchanged, an undecodable one becomes the fixed placeholder, and the
/// style marks directories apart from plain files.
pub fn format_name(name: Option<String>, is_dir: bool) -> (r: StyledText)
    ensures
        name matches Some(n) ==> r.text@ == n@,
        name is None ==> r.text@ == name_fallback(),
        r.style == name_style(is_dir),
{
    let style = if is_dir {
        Style::Accent
    } else {
        Style::Neutral
    };
    match name {
        Some(n) => StyledText { text: n, style },
        None => StyledText { text: String::from_str("Unknown name"), style },
    }
}

/// The six display fields of one formatted directory entry.
#[derive(Clone, Debug)]
pub struct FileEntry {
    /// The styled ten-character permission string.
    pub permissions: String,
    /// The styled size string.
    pub length: String,
    /// The owner name, or the lookup sentinel.
    pub owner: String,
    /// The styled entry name.
    pub name: String,
    /// The type tag.
    pub e_type: FileType,
    /// The modified-time string, possibly empty.
    pub modified: String,
}

/// Derive the whole record of one entry from its metadata snapshot: the
/// name as decoded (or not) from the entry, the directory flag, the byte
/// length, the mode bits, the owner field as resolved beforehand, and
/// the modification time in seconds since the epoch, if one is known.
///
/// Every field is a function of these inputs alone: deriving the record
/// twice from the same snapshot yields byte-identical fields.
pub fn format_entry(
    name: Option<String>,
    is_dir: bool,
    len: u64,
    mode: u32,
    owner: String,
    modified: Option<i64>,
) -> (r: FileEntry)
    ensures
        r.permissions@ == permissions_display(is_dir, mode),
        r.length@ == painted(size_style(len, is_dir), size_text(len, is_dir)),
        r.owner@ == owner@,
        name matches Some(n) ==> r.name@ == painted(name_style(is_dir), n@),
        name is None ==> r.name@ == painted(name_style(is_dir), name_fallback()),
        r.e_type == entry_type(is_dir),
        modified is None ==> r.modified@ == Seq::<char>::empty(),
        modified matches Some(s) ==> (ts_renderable(s) ==> r.modified@ == time_display_of(s)),
        modified matches Some(s) ==> r.modified@ == time_display_of(s) || r.modified@
            == Seq::<char>::empty(),
{
    FileEntry {
        permissions: format_permissions(is_dir, mode),
        length: format_size(len, is_dir).render(),
        owner,
        name: format_name(name, is_dir).render(),
        e_type: classify_type(is_dir),
        modified: format_modified(modified),
    }
}

} // verus!
