//! A batch of warnings produced by one invocation, wrapped with a fresh
//! run identifier, optional version-control metadata (filled in by the
//! caller, never by the parsers), a count, and a creation timestamp.

use vstd::prelude::*;

use crate::models::warning::Warning;

verus! {

/// Relies on `uuid::Uuid::new_v4` and the `Display` implementation of
/// `Uuid`: a fresh random identifier rendered in the hyphenated form,
/// which is exactly 36 ASCII characters.  Nothing is assumed about which
/// identifier comes back.
#[verifier::external_body]
fn fresh_run_id() -> (r: String)
    ensures
        r@.len() == 36,
{
    uuid::Uuid::new_v4().to_string()
}

/// Relies on `chrono::Utc::now` and `DateTime::timestamp`: the current
/// time in Unix seconds.  Nothing is assumed about the value.
#[verifier::external_body]
fn current_unix_time() -> i64 {
    chrono::Utc::now().timestamp()
}

pub struct WarningRun {
    pub id: String,
    pub commit_sha: Option<String>,
    pub branch: Option<String>,
    pub pull_request: Option<u32>,
    pub total_warnings: usize,
    pub warnings: Vec<Warning>,
    /// Creation time in Unix seconds.
    pub created_at: i64,
}

impl WarningRun {
    /// Wrap a filtered warning list; the count always equals the list
    /// length, and the version-control fields start out unset.
    pub fn new(warnings: Vec<Warning>) -> (r: Self)
        ensures
            r.warnings == warnings,
            r.total_warnings == warnings@.len(),
            r.commit_sha is None,
            r.branch is None,
            r.pull_request is None,
            r.id@.len() == 36,
    {
        let total_warnings = warnings.len();
        WarningRun {
            id: fresh_run_id(),
            commit_sha: None,
            branch: None,
            pull_request: None,
            total_warnings,
            warnings,
            created_at: current_unix_time(),
        }
    }
}

} // verus!
