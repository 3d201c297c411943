//! The input of the tree builder: a snapshot of one filesystem subtree.
//!
//! The caller walks the filesystem and records, for each entry it could
//! reach, its name, its path and — for a directory — the outcome of
//! listing it. Errors are recorded where they happened: a failed listing
//! as [`ListingOutcome::Failed`], a child whose metadata could not be
//! read as [`RawChild::Unreadable`]. The builder never touches the
//! filesystem itself.

use vstd::prelude::*;

verus! {

/// One filesystem entry as the caller found it.
pub enum RawEntry {
    /// Anything that is not a directory.
    File { name: String, path: String },
    /// A directory together with the outcome of listing it.
    Dir { name: String, path: String, listing: ListingOutcome },
}

/// What enumerating a directory produced.
pub enum ListingOutcome {
    /// The immediate entries, in the order the filesystem returned them.
    Listed(Vec<RawChild>),
    /// The listing call itself failed, with its message.
    Failed(String),
}

/// One immediate member of a listed directory.
pub enum RawChild {
    /// A member that could be read, as its own snapshot.
    Found(RawEntry),
    /// A member whose metadata could not be read, with the message.
    Unreadable(String),
}

impl RawEntry {
    /// The final path component recorded for this entry.
    pub open spec fn spec_name(self) -> Seq<char> {
        match self {
            RawEntry::File { name, .. } => name@,
            RawEntry::Dir { name, .. } => name@,
        }
    }

    /// The full path recorded for this entry.
    pub open spec fn spec_path(self) -> Seq<char> {
        match self {
            RawEntry::File { path, .. } => path@,
            RawEntry::Dir { path, .. } => path@,
        }
    }

    /// Whether this snapshot is a directory whose listing itself failed.
    /// Building such a snapshot is the one way the builder fails.
    pub open spec fn listing_failed(self) -> bool {
        self matches RawEntry::Dir { listing: ListingOutcome::Failed(_), .. }
    }

    /// The message recorded for a failed listing.
    pub open spec fn failure_message(self) -> Seq<char>
        recommends
            self.listing_failed(),
    {
        match self {
            RawEntry::Dir { listing: ListingOutcome::Failed(m), .. } => m@,
            _ => Seq::empty(),
        }
    }
}

} // verus!
