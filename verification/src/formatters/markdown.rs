//! Labels for the markdown rendering of a run.  Assembling the document
//! itself is presentation and lives with the caller.

use vstd::prelude::*;

use crate::models::warning::{Severity, WarningType};

verus! {

pub struct MarkdownFormatter;

impl MarkdownFormatter {
    pub fn new() -> (r: Self)
        ensures
            r == (MarkdownFormatter {  }),
    {
        Self {  }
    }

    /// The marker shown before a warning of the given severity.
    pub fn severity_emoji(&self, severity: &Severity) -> (r: &str)
        ensures
            r@ == match severity {
                Severity::Critical => "🚨"@,
                Severity::High => "⚠️"@,
                Severity::Medium => "⚡"@,
                Severity::Low => "ℹ️"@,
            },
    {
        match severity {
            Severity::Critical => "🚨",
            Severity::High => "⚠️",
            Severity::Medium => "⚡",
            Severity::Low => "ℹ️",
        }
    }

    /// The human-readable name of a warning type.
    pub fn warning_type_label(&self, warning_type: &WarningType) -> (r: &str)
        ensures
            r@ == match warning_type {
                WarningType::ActorIsolation => "Actor Isolation"@,
                WarningType::SendableConformance => "Sendable Conformance"@,
                WarningType::DataRace => "Data Race"@,
                WarningType::PerformanceRegression => "Performance Regression"@,
                WarningType::Unknown => "Unknown"@,
            },
    {
        match warning_type {
            WarningType::ActorIsolation => "Actor Isolation",
            WarningType::SendableConformance => "Sendable Conformance",
            WarningType::DataRace => "Data Race",
            WarningType::PerformanceRegression => "Performance Regression",
            WarningType::Unknown => "Unknown",
        }
    }
}

} // verus!
