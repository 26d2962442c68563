//! Filtering and threshold checks applied to the finished warning list.

use vstd::prelude::*;

use crate::cli::WarningTypeFilter;
use crate::models::warning::{warning_views, Warning, WarningType, WarningView};

verus! {

/// The warning type a filter selects.
pub open spec fn filter_target(f: WarningTypeFilter) -> WarningType {
    match f {
        WarningTypeFilter::ActorIsolation => WarningType::ActorIsolation,
        WarningTypeFilter::Sendable => WarningType::SendableConformance,
        WarningTypeFilter::DataRace => WarningType::DataRace,
        WarningTypeFilter::Performance => WarningType::PerformanceRegression,
    }
}

/// The subsequence of warnings with the given type, in order.
pub open spec fn keep_of_type(ws: Seq<WarningView>, t: WarningType) -> Seq<WarningView>
    decreases ws.len(),
{
    if ws.len() == 0 {
        Seq::empty()
    } else {
        let rest = keep_of_type(ws.drop_last(), t);
        if ws.last().warning_type == t {
            rest.push(ws.last())
        } else {
            rest
        }
    }
}

/// What filtering leaves: everything when no filter is given, else only
/// the warnings of the selected type.
pub open spec fn spec_filter_warnings(
    ws: Seq<WarningView>,
    filter: Option<WarningTypeFilter>,
) -> Seq<WarningView> {
    match filter {
        Some(f) => keep_of_type(ws, filter_target(f)),
        None => ws,
    }
}

/// Keep only the warnings the filter selects; no filter keeps them all.
pub fn filter_warnings(warnings: Vec<Warning>, filter: Option<WarningTypeFilter>) -> (r: Vec<
    Warning,
>)
    ensures
        warning_views(r@) == spec_filter_warnings(warning_views(warnings@), filter),
{
    let ghost wv = warning_views(warnings@);
    match filter {
        None => {
            proof {
                assert(warning_views(warnings@) =~= spec_filter_warnings(wv, filter));
            }
            warnings
        },
        Some(f) => {
            let target = match f {
                WarningTypeFilter::ActorIsolation => WarningType::ActorIsolation,
                WarningTypeFilter::Sendable => WarningType::SendableConformance,
                WarningTypeFilter::DataRace => WarningType::DataRace,
                WarningTypeFilter::Performance => WarningType::PerformanceRegression,
            };
            let ghost t = filter_target(f);
            let mut r: Vec<Warning> = Vec::new();
            let mut i: usize = 0;
            let n = warnings.len();
            while i < n
                invariant
                    i <= n,
                    n == warnings@.len(),
                    wv == warning_views(warnings@),
                    t == target,
                    warning_views(r@) =~= keep_of_type(wv.take(i as int), t),
                decreases n - i,
            {
                proof {
                    assert(wv.take(i as int + 1).drop_last() =~= wv.take(i as int));
                    assert(wv.take(i as int + 1).last() == warnings@[i as int]@);
                }
                let keep = match warnings[i].warning_type {
                    WarningType::ActorIsolation => matches!(target, WarningType::ActorIsolation),
                    WarningType::SendableConformance => matches!(
                        target,
                        WarningType::SendableConformance,
                    ),
                    WarningType::DataRace => matches!(target, WarningType::DataRace),
                    WarningType::PerformanceRegression => matches!(
                        target,
                        WarningType::PerformanceRegression,
                    ),
                    WarningType::Unknown => matches!(target, WarningType::Unknown),
                };
                if keep {
                    let w = clone_warning(&warnings[i]);
                    r.push(w);
                    proof {
                        assert(warning_views(r@) =~= warning_views(r@.drop_last()).push(
                            warnings@[i as int]@,
                        ));
                    }
                }
                i = i + 1;
            }
            proof {
                assert(wv.take(n as int) =~= wv);
            }
            r
        },
    }
}

/// A field-for-field copy of a warning.
fn clone_warning(w: &Warning) -> (r: Warning)
    ensures
        r@ == w@,
{
    let r = Warning {
        id: w.id.clone(),
        warning_type: w.warning_type,
        severity: w.severity,
        file_path: w.file_path.clone(),
        line_number: w.line_number,
        column_number: w.column_number,
        message: w.message.clone(),
        code_context: crate::models::context::CodeContext {
            before: clone_strings(&w.code_context.before),
            line: w.code_context.line.clone(),
            after: clone_strings(&w.code_context.after),
        },
        suggested_fix: match w.suggested_fix {
            Some(ref f) => Some(f.clone()),
            None => None,
        },
    };
    r
}

/// Copies of all lines.
fn clone_strings(v: &Vec<String>) -> (r: Vec<String>)
    ensures
        r.deep_view() == v.deep_view(),
{
    let mut r: Vec<String> = Vec::new();
    let mut i: usize = 0;
    while i < v.len()
        invariant
            i <= v@.len(),
            r@.len() == i,
            forall|k: int| 0 <= k < i ==> #[trigger] r@[k].deep_view() == v.deep_view()[k],
        decreases v@.len() - i,
    {
        r.push(v[i].clone());
        i = i + 1;
    }
    proof {
        assert(r.deep_view() =~= v.deep_view());
    }
    r
}

/// A warning batch passes its threshold when it is no larger than the
/// limit; no limit always passes.
pub fn check_threshold(warnings: &Vec<Warning>, threshold: Option<usize>) -> (r: bool)
    ensures
        r == match threshold {
            Some(limit) => warnings@.len() <= limit,
            None => true,
        },
{
    match threshold {
        Some(limit) => warnings.len() <= limit,
        None => true,
    }
}

} // verus!
