//! The thin layer the host shell calls.
//!
//! It turns the outcome of the host's filesystem work into the answer
//! the shell expects: a finished tree or a single message, and, for the
//! folder picker, an outcome in which cancelling is not an error.

use crate::builder::{build_file_tree, spec_build};
use crate::node::FileNode;
use crate::snapshot::RawEntry;
use vstd::prelude::*;

verus! {

/// Hands back the tree for a snapshot, or one message for the one
/// failure the caller reported (the root could not be read) or the one
/// failure the builder finds (the root's listing failed). Nothing
/// partial is ever returned: every failure yields only a message.
pub fn get_file_tree(stat: Result<RawEntry, String>) -> (r: Result<FileNode, String>)
    ensures
        match stat {
            Result::Err(m) => r matches Err(e) && e@ == m@,
            Result::Ok(raw) => match spec_build(raw) {
                Option::Some(v) => r matches Ok(n) && n@ == v,
                Option::None => r matches Err(e) && e@ == raw.failure_message(),
            },
        },
{
    match stat {
        Result::Err(m) => Err(m),
        Result::Ok(raw) => build_file_tree(&raw),
    }
}

/// The outcome of asking the user for a folder.
pub enum Selection {
    /// The user chose this path.
    Chosen(String),
    /// The user closed the dialog without choosing. Not a failure:
    /// this variant is the only other outcome the picker has.
    Cancelled,
}

/// Reads the picker's raw answer. A path becomes [`Selection::Chosen`],
/// no path becomes [`Selection::Cancelled`]; there is no error outcome.
pub fn interpret_pick(choice: Option<String>) -> (s: Selection)
    ensures
        match choice {
            Option::Some(p) => s matches Selection::Chosen(q) && q@ == p@,
            Option::None => s is Cancelled,
        },
{
    match choice {
        Option::Some(p) => Selection::Chosen(p),
        Option::None => Selection::Cancelled,
    }
}

} // verus!
