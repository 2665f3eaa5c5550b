//! The outcome of the symbol indexer run on a written archive.

use vstd::prelude::*;

verus! {

/// How the indexer run went.
#[derive(Debug, Clone, Copy, PartialEq, Eq)]
pub enum IndexerStatus {
    /// The indexer could not be started.
    NotLaunched,
    /// The indexer ran and exited; `code` is its exit code, when it has one.
    Exited { success: bool, code: Option<i32> },
}

/// A failure of the final step of a build.
#[derive(Debug, Clone, Copy, PartialEq, Eq)]
pub enum BuildError {
    /// The indexer could not be started.
    IndexerNotLaunched,
    /// The indexer exited unsuccessfully, with the exit code it reported.
    IndexerFailed { code: Option<i32> },
}

/// The build succeeds exactly when the indexer ran and exited successfully;
/// otherwise the failure carries what was observed.
pub fn indexer_outcome(status: IndexerStatus) -> (r: Result<(), BuildError>)
    ensures
        match status {
            IndexerStatus::NotLaunched => r == Err::<(), BuildError>(BuildError::IndexerNotLaunched),
            IndexerStatus::Exited { success, code } =>
                if success { r == Ok::<(), BuildError>(()) } else { r == Err::<(), BuildError>(BuildError::IndexerFailed { code }) },
        },
{
    match status {
        IndexerStatus::NotLaunched => Err(BuildError::IndexerNotLaunched),
        IndexerStatus::Exited { success, code } => {
            if success {
                Ok(())
            } else {
                Err(BuildError::IndexerFailed { code })
            }
        },
    }
}

} // verus!
