//! The failures that cache synchronisation can report.

use vstd::prelude::*;
use vstd::string::StringExecFns;

verus! {

/// Why a cache operation did not produce a result.
#[derive(Debug, Clone, PartialEq, Eq)]
pub enum SyncError {
    /// The remote source could not be reached, or its answer was not a version list.
    Unavailable,
    /// The remote source answered, but knows no version.
    Empty,
    /// The requested entry, or one of its kinds, is not in the store.
    NotFound,
    /// No version has ever been committed locally.
    NoLocalData,
    /// Stored bytes did not parse; carries the parser's explanation.
    Malformed(String),
    /// Reading from or writing to storage failed.
    IoFailure,
    /// A query arrived before any snapshot was installed.
    NotLoaded,
}

impl SyncError {
    /// The fixed part of the error's human-readable description.
    pub open spec fn headline(self) -> Seq<char> {
        match self {
            SyncError::Unavailable => "Remote version source unavailable"@,
            SyncError::Empty => "No versions found"@,
            SyncError::NotFound => "Cache entry not found"@,
            SyncError::NoLocalData => "No local data found. Please update."@,
            SyncError::Malformed(_) => "Local data is malformed: "@,
            SyncError::IoFailure => "Storage read or write failed"@,
            SyncError::NotLoaded => "Champion data not loaded in memory. Please load data first."@,
        }
    }

    /// The full human-readable description: the headline, followed by the
    /// parser's explanation where there is one.
    pub open spec fn describe(self) -> Seq<char> {
        match self {
            SyncError::Malformed(cause) => self.headline() + cause@,
            _ => self.headline(),
        }
    }

    /// Renders the error for display.
    pub fn message(&self) -> (r: String)
        ensures
            r@ == self.describe(),
    {
        match self {
            SyncError::Unavailable => String::from_str("Remote version source unavailable"),
            SyncError::Empty => String::from_str("No versions found"),
            SyncError::NotFound => String::from_str("Cache entry not found"),
            SyncError::NoLocalData => String::from_str("No local data found. Please update."),
            SyncError::Malformed(cause) => {
                let mut text = String::from_str("Local data is malformed: ");
                text.append(cause.as_str());
                text
            },
            SyncError::IoFailure => String::from_str("Storage read or write failed"),
            SyncError::NotLoaded => String::from_str(
                "Champion data not loaded in memory. Please load data first.",
            ),
        }
    }
}

} // verus!
