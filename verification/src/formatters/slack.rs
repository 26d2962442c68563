//! Labels and colors for the chat-message rendering of a run.  Assembling
//! the message itself is serialization and lives with the caller.

use vstd::prelude::*;

use crate::models::warning::{Severity, WarningType};

verus! {

pub struct SlackFormatter;

impl SlackFormatter {
    pub fn new() -> (r: Self)
        ensures
            r == (SlackFormatter {  }),
    {
        Self {  }
    }

    /// The attachment color for a severity.
    pub fn severity_color(&self, severity: &Severity) -> (r: &str)
        ensures
            r@ == match severity {
                Severity::Critical => "danger"@,
                Severity::High => "warning"@,
                Severity::Medium => "#ff9500"@,
                Severity::Low => "good"@,
            },
    {
        match severity {
            Severity::Critical => "danger",
            Severity::High => "warning",
            Severity::Medium => "#ff9500",
            Severity::Low => "good",
        }
    }

    /// The human-readable name of a warning type.
    pub fn warning_type_label(&self, warning_type: &WarningType) -> (r: &str)
        ensures
            r@ == match warning_type {
                WarningType::ActorIsolation => "Actor Isolation"@,
                WarningType::SendableConformance => "Sendable Conformance"@,
                WarningType::DataRace => "Data Race"@,
                WarningType::PerformanceRegression => "Performance Regression"@,
                WarningType::Unknown => "Unknown"@,
            },
    {
        match warning_type {
            WarningType::ActorIsolation => "Actor Isolation",
            WarningType::SendableConformance => "Sendable Conformance",
            WarningType::DataRace => "Data Race",
            WarningType::PerformanceRegression => "Performance Regression",
            WarningType::Unknown => "Unknown",
        }
    }
}

} // verus!
