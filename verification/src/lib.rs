//! A small library that derives the display fields of a directory listing:
//! permission strings, tiered size strings, owner names, entry names, type
//! tags and modification times, each rendered with a semantic style that
//! maps to one terminal colour.

pub mod digits;
pub mod entry;
pub mod outcome;
pub mod owner;
pub mod perm;
pub mod size;
pub mod style;
pub mod timefmt;
