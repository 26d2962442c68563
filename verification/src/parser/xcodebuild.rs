//! The structured-diagnostic parser: each input line is one JSON object
//! describing a diagnostic.  Three record shapes are attempted per line —
//! the compiler-diagnostic shape, an older message shape, and a generic
//! probe over the decoded value — and unparseable lines are skipped.

use vstd::prelude::*;

use crate::error::ParseError;
use crate::json::{
    get_field, get_str_field, get_text, get_u64, json_get, json_of, parse_json_text, str_field,
    u64_field, JsonVal,
};
use crate::models::context::{empty_context, CodeContext};
use crate::models::warning::{warning_views, Warning, WarningType, WarningView};
use crate::parser::patterns::{categorize_chars, spec_classify};
use crate::parser::rawlog::{build_warning_id, warning_id};
use crate::text::{
    chars_eq_str, chars_of, contains_chars, contains_seq, seq_views, spec_lines, split_lines,
    string_from_chars, subvec, trim_chars, trim_spec,
};

verus! {

/// The compiler-diagnostic record shape.
pub struct XcodeBuildDiagnostic {
    pub diagnostic_type: String,
    pub message: String,
    pub file: Option<String>,
    pub line: Option<u64>,
    pub column: Option<u64>,
    pub severity: Option<String>,
    pub character_range_start: Option<u64>,
    pub character_range_end: Option<u64>,
    pub category_ident: Option<String>,
}

/// The older message record shape.
pub struct XcodeBuildMessage {
    pub message_type: String,
    pub message: String,
    pub file_path: Option<String>,
    pub line_number: Option<u64>,
    pub column_number: Option<u64>,
}

/// An optional string field: absent, null, or a string.
pub open spec fn opt_str_ok(o: Option<JsonVal>) -> bool {
    match o {
        None => true,
        Some(x) => x is Str || x is Null,
    }
}

/// An optional number field: absent, null, or an unsigned integer in
/// 64-bit range.
pub open spec fn opt_u64_ok(o: Option<JsonVal>) -> bool {
    match o {
        None => true,
        Some(x) => x is Num || x is Null,
    }
}

/// A required string field.
pub open spec fn req_str(o: Option<JsonVal>) -> bool {
    match o {
        Some(x) => x is Str,
        None => false,
    }
}

/// The decoded value fits the compiler-diagnostic shape.
pub open spec fn diag_shape_ok(v: JsonVal) -> bool {
    &&& v is Obj
    &&& req_str(json_get(v, "type"@))
    &&& req_str(json_get(v, "message"@))
    &&& opt_str_ok(json_get(v, "file"@))
    &&& opt_u64_ok(json_get(v, "line"@))
    &&& opt_u64_ok(json_get(v, "column"@))
    &&& opt_str_ok(json_get(v, "severity"@))
    &&& opt_u64_ok(json_get(v, "characterRangeStart"@))
    &&& opt_u64_ok(json_get(v, "characterRangeEnd"@))
    &&& opt_str_ok(json_get(v, "categoryIdent"@))
}

/// The decoded value fits the older message shape.
pub open spec fn msg_shape_ok(v: JsonVal) -> bool {
    &&& v is Obj
    &&& req_str(json_get(v, "type"@))
    &&& req_str(json_get(v, "message"@))
    &&& opt_str_ok(json_get(v, "filePath"@))
    &&& opt_u64_ok(json_get(v, "lineNumber"@))
    &&& opt_u64_ok(json_get(v, "columnNumber"@))
}

/// The remediation hint the structured parser attaches.
pub open spec fn xcb_suggest_fix(wt: WarningType, msg: Seq<char>) -> Option<Seq<char>> {
    match wt {
        WarningType::ActorIsolation => {
            if contains_seq(msg, "can not be referenced"@) || contains_seq(
                msg,
                "cannot be referenced"@,
            ) {
                Some("Consider using 'await' to access the actor-isolated member, or move this code into an actor context."@)
            } else if contains_seq(msg, "Main actor"@) {
                Some("Consider using '@MainActor' annotation or dispatching to the main queue."@)
            } else {
                Some("Ensure proper actor isolation by using 'await' or moving code to appropriate actor context."@)
            }
        },
        WarningType::SendableConformance => {
            if contains_seq(msg, "does not conform"@) {
                Some("Add 'Sendable' conformance to the type or use '@unchecked Sendable' if thread-safe."@)
            } else if contains_seq(msg, "capture"@) {
                Some("Ensure captured values conform to 'Sendable' or restructure to avoid capture."@)
            } else {
                Some("Review Sendable conformance requirements for concurrent contexts."@)
            }
        },
        WarningType::DataRace => Some(
            "Protect shared mutable state with proper synchronization (locks, actors, or atomic operations)."@,
        ),
        WarningType::PerformanceRegression => Some(
            "Review async/await usage patterns and consider optimizing concurrency structure."@,
        ),
        WarningType::Unknown => None,
    }
}

/// A warning assembled from decoded fields, with the structured parser's
/// remediation hints.  `None` when the message carries no concurrency
/// vocabulary.
pub open spec fn structured_warning(
    msg: Seq<char>,
    file: Seq<char>,
    ln: int,
    col: Option<int>,
) -> Option<WarningView> {
    let (wt, sev) = spec_classify(msg);
    if wt is Unknown {
        None
    } else {
        Some(
            WarningView {
                id: warning_id(file, ln, msg),
                warning_type: wt,
                severity: sev,
                file_path: file,
                line_number: ln,
                column_number: col,
                message: msg,
                code_context: empty_context(),
                suggested_fix: xcb_suggest_fix(wt, msg),
            },
        )
    }
}

/// What the compiler-diagnostic shape yields.
pub open spec fn diag_warning_of(v: JsonVal) -> Option<WarningView> {
    match (str_field(v, "type"@), str_field(v, "message"@)) {
        (Some(ty), Some(msg)) => {
            if ty != "warning"@ {
                None
            } else {
                structured_warning(
                    msg,
                    match str_field(v, "file"@) {
                        Some(f) => f,
                        None => "unknown"@,
                    },
                    ((match u64_field(v, "line"@) {
                        Some(n) => n,
                        None => 0,
                    } as usize) as int),
                    match u64_field(v, "column"@) {
                        Some(c) => Some((c as usize) as int),
                        None => None,
                    },
                )
            }
        },
        _ => None,
    }
}

/// What the older message shape yields.
pub open spec fn msg_warning_of(v: JsonVal) -> Option<WarningView> {
    match (str_field(v, "type"@), str_field(v, "message"@)) {
        (Some(ty), Some(msg)) => {
            if ty != "warning"@ {
                None
            } else {
                structured_warning(
                    msg,
                    match str_field(v, "filePath"@) {
                        Some(f) => f,
                        None => "unknown"@,
                    },
                    ((match u64_field(v, "lineNumber"@) {
                        Some(n) => n,
                        None => 0,
                    } as usize) as int),
                    match u64_field(v, "columnNumber"@) {
                        Some(c) => Some((c as usize) as int),
                        None => None,
                    },
                )
            }
        },
        _ => None,
    }
}

/// What the generic probe yields: `type` and `message` must be strings,
/// and the location may use either field naming, the unsuffixed name
/// taking precedence when present.
pub open spec fn value_warning_of(v: JsonVal) -> Option<WarningView> {
    match (str_field(v, "type"@), str_field(v, "message"@)) {
        (Some(ty), Some(msg)) => {
            if ty != "warning"@ {
                None
            } else {
                let fsel = if json_get(v, "file"@) is Some {
                    json_get(v, "file"@)
                } else {
                    json_get(v, "filePath"@)
                };
                let lsel = if json_get(v, "line"@) is Some {
                    json_get(v, "line"@)
                } else {
                    json_get(v, "lineNumber"@)
                };
                let csel = if json_get(v, "column"@) is Some {
                    json_get(v, "column"@)
                } else {
                    json_get(v, "columnNumber"@)
                };
                structured_warning(
                    msg,
                    match fsel {
                        Some(JsonVal::Str(f)) => f@,
                        _ => "unknown"@,
                    },
                    ((match lsel {
                        Some(JsonVal::Num(n)) => n,
                        _ => 0,
                    } as usize) as int),
                    match csel {
                        Some(JsonVal::Num(c)) => Some((c as usize) as int),
                        _ => None,
                    },
                )
            }
        },
        _ => None,
    }
}

/// What one input line yields: blank lines are skipped, undecodable lines
/// are skipped, and the three record shapes are attempted in order, the
/// first shape that fits deciding the outcome.
pub open spec fn jsonline_warning(line: Seq<char>) -> Option<WarningView> {
    if trim_spec(line).len() == 0 {
        None
    } else {
        match json_of(line) {
            None => None,
            Some(v) => {
                if diag_shape_ok(v) {
                    diag_warning_of(v)
                } else if msg_shape_ok(v) {
                    msg_warning_of(v)
                } else {
                    value_warning_of(v)
                }
            },
        }
    }
}

/// The warnings of a line sequence, in line order.
pub open spec fn xcb_warnings_of_lines(lines: Seq<Seq<char>>) -> Seq<WarningView>
    decreases lines.len(),
{
    if lines.len() == 0 {
        Seq::empty()
    } else {
        let rest = xcb_warnings_of_lines(lines.drop_last());
        match jsonline_warning(lines.last()) {
            Some(w) => rest.push(w),
            None => rest,
        }
    }
}

/// The view of an optional string.
pub open spec fn opt_str_view(o: Option<String>) -> Option<Seq<char>> {
    match o {
        Some(s) => Some(s@),
        None => None,
    }
}

/// Decode an optional string field; `None` when the field is present but
/// neither a string nor null.
fn decode_opt_str(v: &JsonVal, key: &str) -> (r: Option<Option<String>>)
    ensures
        match r {
            Some(o) => opt_str_ok(json_get(*v, key@)) && opt_str_view(o) == str_field(*v, key@),
            None => !opt_str_ok(json_get(*v, key@)),
        },
{
    match get_field(v, key) {
        None => Some(None),
        Some(x) => match x {
            JsonVal::Null => Some(None),
            JsonVal::Str(s) => Some(Some(string_from_chars(s))),
            _ => None,
        },
    }
}

/// Decode an optional number field; `None` when the field is present but
/// neither an in-range unsigned integer nor null.
fn decode_opt_u64(v: &JsonVal, key: &str) -> (r: Option<Option<u64>>)
    ensures
        match r {
            Some(o) => opt_u64_ok(json_get(*v, key@)) && o == u64_field(*v, key@),
            None => !opt_u64_ok(json_get(*v, key@)),
        },
{
    match get_field(v, key) {
        None => Some(None),
        Some(x) => match x {
            JsonVal::Null => Some(None),
            JsonVal::Num(n) => Some(Some(*n)),
            _ => None,
        },
    }
}

/// Decode the compiler-diagnostic shape; `None` exactly when the value
/// does not fit it.
fn decode_diagnostic(v: &JsonVal) -> (r: Option<XcodeBuildDiagnostic>)
    ensures
        match r {
            Some(d) => {
                &&& diag_shape_ok(*v)
                &&& Some(d.diagnostic_type@) == str_field(*v, "type"@)
                &&& Some(d.message@) == str_field(*v, "message"@)
                &&& opt_str_view(d.file) == str_field(*v, "file"@)
                &&& d.line == u64_field(*v, "line"@)
                &&& d.column == u64_field(*v, "column"@)
            },
            None => !diag_shape_ok(*v),
        },
{
    if !matches!(v, JsonVal::Obj(_)) {
        return None;
    }
    let diagnostic_type = match get_str_field(v, "type") {
        Some(s) => string_from_chars(s),
        None => {
            return None;
        },
    };
    let message = match get_str_field(v, "message") {
        Some(s) => string_from_chars(s),
        None => {
            return None;
        },
    };
    let file = match decode_opt_str(v, "file") {
        Some(o) => o,
        None => {
            return None;
        },
    };
    let line = match decode_opt_u64(v, "line") {
        Some(o) => o,
        None => {
            return None;
        },
    };
    let column = match decode_opt_u64(v, "column") {
        Some(o) => o,
        None => {
            return None;
        },
    };
    let severity = match decode_opt_str(v, "severity") {
        Some(o) => o,
        None => {
            return None;
        },
    };
    let character_range_start = match decode_opt_u64(v, "characterRangeStart") {
        Some(o) => o,
        None => {
            return None;
        },
    };
    let character_range_end = match decode_opt_u64(v, "characterRangeEnd") {
        Some(o) => o,
        None => {
            return None;
        },
    };
    let category_ident = match decode_opt_str(v, "categoryIdent") {
        Some(o) => o,
        None => {
            return None;
        },
    };
    Some(
        XcodeBuildDiagnostic {
            diagnostic_type,
            message,
            file,
            line,
            column,
            severity,
            character_range_start,
            character_range_end,
            category_ident,
        },
    )
}

/// Decode the older message shape; `None` exactly when the value does
/// not fit it.
fn decode_message(v: &JsonVal) -> (r: Option<XcodeBuildMessage>)
    ensures
        match r {
            Some(d) => {
                &&& msg_shape_ok(*v)
                &&& Some(d.message_type@) == str_field(*v, "type"@)
                &&& Some(d.message@) == str_field(*v, "message"@)
                &&& opt_str_view(d.file_path) == str_field(*v, "filePath"@)
                &&& d.line_number == u64_field(*v, "lineNumber"@)
                &&& d.column_number == u64_field(*v, "columnNumber"@)
            },
            None => !msg_shape_ok(*v),
        },
{
    if !matches!(v, JsonVal::Obj(_)) {
        return None;
    }
    let message_type = match get_str_field(v, "type") {
        Some(s) => string_from_chars(s),
        None => {
            return None;
        },
    };
    let message = match get_str_field(v, "message") {
        Some(s) => string_from_chars(s),
        None => {
            return None;
        },
    };
    let file_path = match decode_opt_str(v, "filePath") {
        Some(o) => o,
        None => {
            return None;
        },
    };
    let line_number = match decode_opt_u64(v, "lineNumber") {
        Some(o) => o,
        None => {
            return None;
        },
    };
    let column_number = match decode_opt_u64(v, "columnNumber") {
        Some(o) => o,
        None => {
            return None;
        },
    };
    Some(XcodeBuildMessage { message_type, message, file_path, line_number, column_number })
}

/// Assemble the warning for decoded record fields.
fn build_structured_warning(
    msg_chars: &Vec<char>,
    file_chars: &Vec<char>,
    ln: usize,
    col: Option<usize>,
) -> (r: Option<Warning>)
    ensures
        match r {
            Some(w) => structured_warning(
                msg_chars@,
                file_chars@,
                ln as int,
                match col {
                    Some(c) => Some(c as int),
                    None => None,
                },
            ) == Some(w@),
            None => structured_warning(
                msg_chars@,
                file_chars@,
                ln as int,
                match col {
                    Some(c) => Some(c as int),
                    None => None,
                },
            ) is None,
        },
{
    let (wt, sev) = categorize_chars(msg_chars);
    if let WarningType::Unknown = wt {
        return None;
    }
    let message = string_from_chars(msg_chars);
    let id = build_warning_id(file_chars, ln as u64, &message);
    let suggested_fix = suggest_fix_structured(wt, msg_chars);
    let warning = Warning {
        id,
        warning_type: wt,
        severity: sev,
        file_path: string_from_chars(file_chars),
        line_number: ln,
        column_number: col,
        message,
        code_context: CodeContext::empty(String::new()),
        suggested_fix,
    };
    proof {
        assert(warning@.code_context == empty_context());
    }
    Some(warning)
}

/// Choose the structured parser's remediation hint.
fn suggest_fix_structured(wt: WarningType, msg: &Vec<char>) -> (r: Option<String>)
    ensures
        match r {
            Some(f) => xcb_suggest_fix(wt, msg@) == Some(f@),
            None => xcb_suggest_fix(wt, msg@) is None,
        },
{
    match wt {
        WarningType::ActorIsolation => {
            if contains_chars(msg, &chars_of("can not be referenced")) || contains_chars(
                msg,
                &chars_of("cannot be referenced"),
            ) {
                Some(
                    "Consider using 'await' to access the actor-isolated member, or move this code into an actor context.".to_owned(),
                )
            } else if contains_chars(msg, &chars_of("Main actor")) {
                Some(
                    "Consider using '@MainActor' annotation or dispatching to the main queue.".to_owned(),
                )
            } else {
                Some(
                    "Ensure proper actor isolation by using 'await' or moving code to appropriate actor context.".to_owned(),
                )
            }
        },
        WarningType::SendableConformance => {
            if contains_chars(msg, &chars_of("does not conform")) {
                Some(
                    "Add 'Sendable' conformance to the type or use '@unchecked Sendable' if thread-safe.".to_owned(),
                )
            } else if contains_chars(msg, &chars_of("capture")) {
                Some(
                    "Ensure captured values conform to 'Sendable' or restructure to avoid capture.".to_owned(),
                )
            } else {
                Some("Review Sendable conformance requirements for concurrent contexts.".to_owned())
            }
        },
        WarningType::DataRace => Some(
            "Protect shared mutable state with proper synchronization (locks, actors, or atomic operations).".to_owned(),
        ),
        WarningType::PerformanceRegression => Some(
            "Review async/await usage patterns and consider optimizing concurrency structure.".to_owned(),
        ),
        WarningType::Unknown => None,
    }
}

pub struct XcodeBuildParser {
    /// Lines of context requested around each diagnostic; the parser
    /// itself leaves contexts empty (it has no access to source files),
    /// and the caller uses this width when it fills them in.
    pub context_lines: usize,
}

impl XcodeBuildParser {
    pub fn new(context_lines: usize) -> (r: Self)
        ensures
            r.context_lines == context_lines,
    {
        Self { context_lines }
    }

    /// Extract the warning a compiler-diagnostic record yields, if any.
    pub fn extract_warning_from_diagnostic(&self, d: &XcodeBuildDiagnostic) -> (r: Option<Warning>)
        ensures
            ({
                let expected = if d.diagnostic_type@ != "warning"@ {
                    None::<WarningView>
                } else {
                    structured_warning(
                        d.message@,
                        match d.file {
                            Some(ref f) => f@,
                            None => "unknown"@,
                        },
                        ((match d.line {
                            Some(n) => n,
                            None => 0,
                        } as usize) as int),
                        match d.column {
                            Some(c) => Some((c as usize) as int),
                            None => None,
                        },
                    )
                };
                match r {
                    Some(w) => expected == Some(w@),
                    None => expected is None,
                }
            }),
    {
        if !str_is_warning(&d.diagnostic_type) {
            return None;
        }
        let msg_chars = chars_of(d.message.as_str());
        let file_chars = match d.file {
            Some(ref f) => chars_of(f.as_str()),
            None => chars_of("unknown"),
        };
        let ln_u64: u64 = match d.line {
            Some(n) => n,
            None => 0,
        };
        let ln: usize = #[verifier::truncate] (ln_u64 as usize);
        let col: Option<usize> = match d.column {
            Some(c) => Some(#[verifier::truncate] (c as usize)),
            None => None,
        };
        build_structured_warning(&msg_chars, &file_chars, ln, col)
    }

    /// Extract the warning an older message record yields, if any.
    pub fn extract_warning_from_message(&self, d: &XcodeBuildMessage) -> (r: Option<Warning>)
        ensures
            ({
                let expected = if d.message_type@ != "warning"@ {
                    None::<WarningView>
                } else {
                    structured_warning(
                        d.message@,
                        match d.file_path {
                            Some(ref f) => f@,
                            None => "unknown"@,
                        },
                        ((match d.line_number {
                            Some(n) => n,
                            None => 0,
                        } as usize) as int),
                        match d.column_number {
                            Some(c) => Some((c as usize) as int),
                            None => None,
                        },
                    )
                };
                match r {
                    Some(w) => expected == Some(w@),
                    None => expected is None,
                }
            }),
    {
        if !str_is_warning(&d.message_type) {
            return None;
        }
        let msg_chars = chars_of(d.message.as_str());
        let file_chars = match d.file_path {
            Some(ref f) => chars_of(f.as_str()),
            None => chars_of("unknown"),
        };
        let ln_u64: u64 = match d.line_number {
            Some(n) => n,
            None => 0,
        };
        let ln: usize = #[verifier::truncate] (ln_u64 as usize);
        let col: Option<usize> = match d.column_number {
            Some(c) => Some(#[verifier::truncate] (c as usize)),
            None => None,
        };
        build_structured_warning(&msg_chars, &file_chars, ln, col)
    }

    /// Extract the warning the generic probe yields, if any.
    fn extract_warning_from_value(&self, v: &JsonVal) -> (r: Option<Warning>)
        ensures
            match r {
                Some(w) => value_warning_of(*v) == Some(w@),
                None => value_warning_of(*v) is None,
            },
    {
        let ty = match get_str_field(v, "type") {
            Some(s) => s,
            None => {
                return None;
            },
        };
        if !chars_eq_str(ty, "warning") {
            return None;
        }
        let msg = match get_str_field(v, "message") {
            Some(s) => s,
            None => {
                return None;
            },
        };
        let fsel = match get_field(v, "file") {
            Some(x) => Some(x),
            None => get_field(v, "filePath"),
        };
        let file_chars: Vec<char> = match fsel {
            Some(x) => match get_text(x) {
                Some(s) => subvec(s, 0, s.len()),
                None => chars_of("unknown"),
            },
            None => chars_of("unknown"),
        };
        let lsel = match get_field(v, "line") {
            Some(x) => Some(x),
            None => get_field(v, "lineNumber"),
        };
        let ln_u64: u64 = match lsel {
            Some(x) => match get_u64(x) {
                Some(n) => n,
                None => 0,
            },
            None => 0,
        };
        let csel = match get_field(v, "column") {
            Some(x) => Some(x),
            None => get_field(v, "columnNumber"),
        };
        let col: Option<usize> = match csel {
            Some(x) => match get_u64(x) {
                Some(c) => Some(#[verifier::truncate] (c as usize)),
                None => None,
            },
            None => None,
        };
        let ln: usize = #[verifier::truncate] (ln_u64 as usize);
        let msg_vec = subvec(msg, 0, msg.len());
        proof {
            assert(msg_vec@ =~= msg@);
        }
        let r = build_structured_warning(&msg_vec, &file_chars, ln, col);
        proof {
            // Walk the spec's field selections one by one so that each
            // matches what the code above computed.
            let vv = *v;
            let fsel_s = if json_get(vv, "file"@) is Some {
                json_get(vv, "file"@)
            } else {
                json_get(vv, "filePath"@)
            };
            let lsel_s = if json_get(vv, "line"@) is Some {
                json_get(vv, "line"@)
            } else {
                json_get(vv, "lineNumber"@)
            };
            let csel_s = if json_get(vv, "column"@) is Some {
                json_get(vv, "column"@)
            } else {
                json_get(vv, "columnNumber"@)
            };
            assert(str_field(vv, "type"@) == Some(ty@));
            assert(str_field(vv, "message"@) == Some(msg@));
            assert(file_chars@ == match fsel_s {
                Some(JsonVal::Str(f)) => f@,
                _ => "unknown"@,
            });
            assert(ln_u64 == match lsel_s {
                Some(JsonVal::Num(n)) => n,
                _ => 0u64,
            });
            assert((match col {
                Some(c) => Some(c as int),
                None => None::<int>,
            }) == (match csel_s {
                Some(JsonVal::Num(c)) => Some(#[verifier::truncate] (c as usize) as int),
                _ => None::<int>,
            }));
        }
        r
    }

    /// Parse one line, attempting the three record shapes in order.
    fn parse_line(&self, line: &Vec<char>) -> (r: Option<Warning>)
        ensures
            match r {
                Some(w) => jsonline_warning(line@) == Some(w@),
                None => jsonline_warning(line@) is None,
            },
    {
        let t = trim_chars(line);
        if t.len() == 0 {
            return None;
        }
        let s = string_from_chars(line);
        let v = match parse_json_text(s.as_str()) {
            Some(v) => v,
            None => {
                return None;
            },
        };
        if let Some(d) = decode_diagnostic(&v) {
            return self.extract_warning_from_diagnostic(&d);
        }
        if let Some(d) = decode_message(&v) {
            return self.extract_warning_from_message(&d);
        }
        self.extract_warning_from_value(&v)
    }

    /// Parse warnings out of newline-delimited JSON diagnostics, line by
    /// line.  Per-line malformation is skipped; this strategy never
    /// fails on buffered input.
    pub fn parse_stream(&self, input: &str) -> (r: Result<Vec<Warning>, ParseError>)
        ensures
            r is Ok,
            warning_views(r->Ok_0@) == xcb_warnings_of_lines(spec_lines(input@)),
    {
        let chars = chars_of(input);
        let lines = split_lines(&chars);
        let ghost lv = spec_lines(input@);
        assert(seq_views(lines@) == lv);
        let mut ws: Vec<Warning> = Vec::new();
        let mut i: usize = 0;
        while i < lines.len()
            invariant
                i <= lines@.len(),
                seq_views(lines@) == lv,
                warning_views(ws@) =~= xcb_warnings_of_lines(lv.take(i as int)),
            decreases lines@.len() - i,
        {
            proof {
                assert(lv.take(i as int + 1).drop_last() =~= lv.take(i as int));
                assert(lv.take(i as int + 1).last() == lines@[i as int]@);
            }
            if let Some(w) = self.parse_line(&lines[i]) {
                ws.push(w);
                proof {
                    assert(warning_views(ws@) =~= warning_views(ws@.drop_last()).push(w@));
                }
            }
            i = i + 1;
        }
        proof {
            assert(lv.take(lines@.len() as int) =~= lv);
        }
        Ok(ws)
    }
}

/// Every warning this parser emits is classified from its own message:
/// its type and severity are exactly what the classification engine
/// assigns to the message text, and the type is never the unknown one.
pub proof fn lemma_jsonline_warning_classified(line: Seq<char>)
    requires
        jsonline_warning(line) is Some,
    ensures
        ({
            let w = jsonline_warning(line)->Some_0;
            &&& w.warning_type == spec_classify(w.message).0
            &&& w.severity == spec_classify(w.message).1
            &&& !(w.warning_type is Unknown)
        }),
{
}

/// Classification filters before construction: no warning this strategy
/// emits has the unknown type.
pub proof fn lemma_xcb_warnings_relevant(lines: Seq<Seq<char>>)
    ensures
        forall|i: int|
            0 <= i < xcb_warnings_of_lines(lines).len() ==> !((#[trigger] xcb_warnings_of_lines(
                lines,
            )[i]).warning_type is Unknown),
    decreases lines.len(),
{
    if lines.len() > 0 {
        lemma_xcb_warnings_relevant(lines.drop_last());
        let rest = xcb_warnings_of_lines(lines.drop_last());
        let whole = xcb_warnings_of_lines(lines);
        if jsonline_warning(lines.last()) is Some {
            lemma_jsonline_warning_classified(lines.last());
        }
        assert forall|i: int|
            0 <= i < whole.len() implies !((#[trigger] whole[i]).warning_type is Unknown) by {
            if i < rest.len() {
                assert(whole[i] == rest[i]);
            }
        }
    }
}

/// Idempotence: two parses of byte-identical structured-diagnostic input
/// yield the same warning list — identifiers included, in the same
/// order.  The parse result is a function of the input text alone.
pub proof fn lemma_jsonlines_idempotent(
    content: Seq<char>,
    r1: Seq<WarningView>,
    r2: Seq<WarningView>,
)
    requires
        r1 == xcb_warnings_of_lines(spec_lines(content)),
        r2 == xcb_warnings_of_lines(spec_lines(content)),
    ensures
        r1 == r2,
        r1.len() == r2.len(),
        forall|i: int| 0 <= i < r1.len() ==> r1[i].id == r2[i].id,
{
}

/// Uniform data-race input: when every line of a structured-diagnostic
/// input yields a warning and every such message carries the "data race"
/// vocabulary, the parser emits exactly one warning per line, in order,
/// each classified as a data race with critical severity.
pub proof fn lemma_data_race_lines(lines: Seq<Seq<char>>)
    requires
        forall|i: int| 0 <= i < lines.len() ==> #[trigger] jsonline_warning(lines[i]) is Some,
        forall|i: int|
            0 <= i < lines.len() ==> crate::phrase::contains_words(
                (#[trigger] jsonline_warning(lines[i]))->Some_0.message,
                seq!["data"@, "race"@],
            ),
    ensures
        xcb_warnings_of_lines(lines).len() == lines.len(),
        forall|i: int|
            0 <= i < lines.len() ==> (#[trigger] xcb_warnings_of_lines(lines)[i]).warning_type
                == WarningType::DataRace && xcb_warnings_of_lines(lines)[i].severity
                == crate::models::warning::Severity::Critical,
    decreases lines.len(),
{
    if lines.len() > 0 {
        let prefix = lines.drop_last();
        assert(forall|i: int| 0 <= i < prefix.len() ==> prefix[i] == lines[i]);
        lemma_data_race_lines(prefix);
        let last = lines.last();
        assert(jsonline_warning(last) is Some);
        lemma_jsonline_warning_classified(last);
        crate::parser::patterns::lemma_data_race_precedence(jsonline_warning(last)->Some_0.message);
        let rest = xcb_warnings_of_lines(prefix);
        let whole = xcb_warnings_of_lines(lines);
        assert(whole == rest.push(jsonline_warning(last)->Some_0));
        assert forall|i: int|
            0 <= i < lines.len() implies (#[trigger] whole[i]).warning_type
            == WarningType::DataRace && whole[i].severity
            == crate::models::warning::Severity::Critical by {
            if i < lines.len() - 1 {
                assert(whole[i] == rest[i]);
            } else {
                assert(whole[i] == jsonline_warning(last)->Some_0);
            }
        }
    }
}

/// Whether a string holds exactly `warning`.
fn str_is_warning(s: &String) -> (r: bool)
    ensures
        r == (s@ == "warning"@),
{
    let c = chars_of(s.as_str());
    chars_eq_str(&c, "warning")
}

} // verus!
