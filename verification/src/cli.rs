//! The invocation options, as plain data.  Command-line parsing itself is
//! a caller concern; these types carry what the pipeline needs.

use vstd::prelude::*;

verus! {

#[derive(Debug, Clone)]
pub struct Cli {
    /// Input file path, or `-` for standard input.
    pub input: String,
    /// Output rendering to use.
    pub format: OutputFormat,
    /// Baseline file for comparison.
    pub baseline: Option<String>,
    /// Fail when the warning count exceeds this limit.
    pub threshold: Option<usize>,
    /// Keep only warnings of one type.
    pub filter: Option<WarningTypeFilter>,
    /// Lines of context to show around each diagnostic.
    pub context: usize,
    /// Verbose logging.
    pub verbose: bool,
}

#[derive(Debug, Clone, Copy, PartialEq, Eq, Structural)]
pub enum OutputFormat {
    Json,
    Markdown,
    Slack,
}

#[derive(Debug, Clone, Copy, PartialEq, Eq, Structural)]
pub enum WarningTypeFilter {
    ActorIsolation,
    Sendable,
    DataRace,
    Performance,
}

} // verus!
