//! The normalized unit of output: one classified concurrency diagnostic.

use vstd::prelude::*;

use crate::models::context::{CodeContext, CodeContextView};

verus! {

#[derive(Clone, Copy, Debug, PartialEq, Eq, Structural)]
pub enum WarningType {
    ActorIsolation,
    SendableConformance,
    DataRace,
    PerformanceRegression,
    Unknown,
}

#[derive(Clone, Copy, Debug, PartialEq, Eq, Structural)]
pub enum Severity {
    Critical,
    High,
    Medium,
    Low,
}

/// Spec-level value of a [`Warning`].
pub ghost struct WarningView {
    pub id: Seq<char>,
    pub warning_type: WarningType,
    pub severity: Severity,
    pub file_path: Seq<char>,
    pub line_number: int,
    pub column_number: Option<int>,
    pub message: Seq<char>,
    pub code_context: CodeContextView,
    pub suggested_fix: Option<Seq<char>>,
}

pub struct Warning {
    pub id: String,
    pub warning_type: WarningType,
    pub severity: Severity,
    pub file_path: String,
    pub line_number: usize,
    pub column_number: Option<usize>,
    pub message: String,
    pub code_context: CodeContext,
    pub suggested_fix: Option<String>,
}

impl View for Warning {
    type V = WarningView;

    open spec fn view(&self) -> WarningView {
        WarningView {
            id: self.id@,
            warning_type: self.warning_type,
            severity: self.severity,
            file_path: self.file_path@,
            line_number: self.line_number as int,
            column_number: match self.column_number {
                Some(c) => Some(c as int),
                None => None,
            },
            message: self.message@,
            code_context: self.code_context@,
            suggested_fix: match self.suggested_fix {
                Some(ref f) => Some(f@),
                None => None,
            },
        }
    }
}

impl DeepView for Warning {
    type V = WarningView;

    open spec fn deep_view(&self) -> WarningView {
        self.view()
    }
}

/// The views of a warning list.
pub open spec fn warning_views(ws: Seq<Warning>) -> Seq<WarningView> {
    Seq::new(ws.len(), |i: int| ws[i]@)
}

} // verus!
