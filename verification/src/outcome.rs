//! The whole-run decision: what a listing run does once the target path
//! has been checked for existence.

use vstd::prelude::*;

verus! {

/// What a run does after the existence check of its target path.
#[derive(Clone, Copy, Debug, PartialEq, Eq, Structural)]
pub enum PathAction {
    /// The path exists: list it and render the table.
    List,
    /// The path does not exist: report so, render nothing.
    ReportMissing,
    /// The existence check itself failed: report so, render nothing.
    ReportUnreadable,
}

/// Decide the run's action from the outcome of the existence check:
/// `Some(true)` when the path was found, `Some(false)` when it was
/// found missing, `None` when the check itself failed.
pub fn decide_path_action(exists: Option<bool>) -> (r: PathAction)
    ensures
        exists == Some(true) ==> r == PathAction::List,
        exists == Some(false) ==> r == PathAction::ReportMissing,
        exists is None ==> r == PathAction::ReportUnreadable,
{
    match exists {
        Some(true) => PathAction::List,
        Some(false) => PathAction::ReportMissing,
        None => PathAction::ReportUnreadable,
    }
}

/// The message of a run whose target path does not exist.
pub fn missing_message() -> (r: String)
    ensures
        r@ == "Path does not exist"@,
{
    String::from_str("Path does not exist")
}

/// The message of a run whose existence check failed.
pub fn unreadable_message() -> (r: String)
    ensures
        r@ == "Error reading directory"@,
{
    String::from_str("Error reading directory")
}

} // verus!
