//! The raw-text log parser: the most permissive strategy and the terminal
//! fallback.  Each line is matched against the shape
//! `<path ending in .swift>:<line>:<column>: warning: <message>`;
//! lines that do not match, and matching lines whose message carries no
//! concurrency vocabulary, are skipped.

use vstd::prelude::*;
use vstd::string::StringExecFns;

use crate::error::ParseError;
use crate::models::context::{empty_context, CodeContext};
use crate::models::warning::{warning_views, Warning, WarningType, WarningView};
use crate::parser::patterns::{categorize_chars, spec_classify};
use crate::text::{
    byte_len, chars_of, contains_chars, contains_seq, dec_digits, decimal_string, digits_val,
    find_char, find_char_from, lemma_find_char_from, lemma_skip_digits, lemma_skip_ws, parse_u64,
    seq_match_at, seq_match_at_exec, seq_views, skip_digits, skip_digits_exec, skip_ws,
    skip_ws_exec, spec_lines, split_lines, string_from_chars, subvec, trim_chars,
    trim_spec,
};

verus! {

/// The pieces of one well-shaped log line, after trimming.
pub ghost struct RawLineParts {
    pub file_path: Seq<char>,
    pub line_number: int,
    pub column_number: int,
    pub message: Seq<char>,
}

/// Decompose a trimmed log line of the shape
/// `<path ending in .swift>:<line>:<column>: warning: <message>`:
/// the path runs to the first colon and must end in `.swift`; the line
/// and column are non-empty digit runs each followed by a colon; then
/// optional whitespace, the literal `warning:`, optional whitespace, and
/// a non-empty message reaching the end of the line.
pub open spec fn raw_line_parse(line: Seq<char>) -> Option<RawLineParts> {
    let t = trim_spec(line);
    let c1 = find_char_from(t, ':', 0);
    if c1 == t.len() || c1 < 7 || !seq_match_at(t, ".swift"@, c1 - 6) {
        None
    } else {
        let l_end = skip_digits(t, c1 + 1);
        if l_end == c1 + 1 || l_end == t.len() || t[l_end] != ':' {
            None
        } else {
            let c_end = skip_digits(t, l_end + 1);
            if c_end == l_end + 1 || c_end == t.len() || t[c_end] != ':' {
                None
            } else {
                let w = skip_ws(t, c_end + 1);
                if !seq_match_at(t, "warning:"@, w) {
                    None
                } else {
                    let m = skip_ws(t, w + 8);
                    if m >= t.len() {
                        None
                    } else {
                        Some(
                            RawLineParts {
                                file_path: t.subrange(0, c1),
                                line_number: digits_val(t, c1 + 1, l_end),
                                column_number: digits_val(t, l_end + 1, c_end),
                                message: t.subrange(m, t.len() as int),
                            },
                        )
                    }
                }
            }
        }
    }
}

/// The stable identifier derived from a path, a line number, and a
/// message: `<path>:<line>:<byte length of message>`.
pub open spec fn warning_id(file_path: Seq<char>, line_number: int, message: Seq<char>) -> Seq<
    char,
> {
    file_path + seq![':'] + dec_digits(line_number) + seq![':'] + dec_digits(
        (byte_len(message) as usize) as int,
    )
}

/// The remediation hint the raw-log parser attaches, chosen from the
/// warning type and the message text.
pub open spec fn raw_suggest_fix(wt: WarningType, msg: Seq<char>) -> Option<Seq<char>> {
    match wt {
        WarningType::ActorIsolation => {
            if contains_seq(msg, "can not be mutated"@) || contains_seq(msg, "cannot be mutated"@) {
                Some("Consider using 'await' or @MainActor to safely mutate the actor-isolated property."@)
            } else if contains_seq(msg, "can not be referenced"@) || contains_seq(
                msg,
                "cannot be referenced"@,
            ) {
                Some("Use 'await' to access the actor-isolated member, or move this code into an actor context."@)
            } else if contains_seq(msg, "Main actor"@) {
                Some("Use '@MainActor' annotation or dispatch to the main queue with 'await MainActor.run'."@)
            } else {
                Some("Ensure proper actor isolation by using 'await' or moving code to appropriate actor context."@)
            }
        },
        WarningType::SendableConformance => {
            if contains_seq(msg, "does not conform"@) {
                Some("Add 'Sendable' conformance to the type or use '@unchecked Sendable' if thread-safe."@)
            } else if contains_seq(msg, "capture"@) {
                Some("Ensure captured values conform to 'Sendable' or restructure to avoid capture."@)
            } else {
                Some("Review Sendable conformance requirements for concurrent contexts."@)
            }
        },
        WarningType::DataRace => Some(
            "Protect shared mutable state with proper synchronization (actors, locks, or atomic operations)."@,
        ),
        WarningType::PerformanceRegression => Some(
            "Review async/await usage patterns and consider optimizing concurrency structure."@,
        ),
        WarningType::Unknown => None,
    }
}

/// The warning one log line yields: the line must have the log-line
/// shape, its line and column numbers must fit the machine word, and its
/// message must classify as concurrency-relevant.  The code context
/// starts out empty; the caller may fill it in from the source file.
pub open spec fn raw_warning_of_line(line: Seq<char>) -> Option<WarningView> {
    match raw_line_parse(line) {
        None => None,
        Some(p) => {
            if p.line_number > usize::MAX || p.column_number > usize::MAX {
                None
            } else {
                let (wt, sev) = spec_classify(p.message);
                if wt is Unknown {
                    None
                } else {
                    Some(
                        WarningView {
                            id: warning_id(p.file_path, p.line_number, p.message),
                            warning_type: wt,
                            severity: sev,
                            file_path: p.file_path,
                            line_number: p.line_number,
                            column_number: Some(p.column_number),
                            message: p.message,
                            code_context: empty_context(),
                            suggested_fix: raw_suggest_fix(wt, p.message),
                        },
                    )
                }
            }
        },
    }
}

/// The warnings of a line sequence, in line order.
pub open spec fn raw_warnings_of_lines(lines: Seq<Seq<char>>) -> Seq<WarningView>
    decreases lines.len(),
{
    if lines.len() == 0 {
        Seq::empty()
    } else {
        let rest = raw_warnings_of_lines(lines.drop_last());
        match raw_warning_of_line(lines.last()) {
            Some(w) => rest.push(w),
            None => rest,
        }
    }
}

/// Reproducibility: two parses of byte-identical raw-text input yield
/// the same warnings — identifiers included, in the same order.  The
/// parse result is a function of the input text alone.
pub proof fn lemma_rawlog_idempotent(content: Seq<char>, r1: Seq<WarningView>, r2: Seq<WarningView>)
    requires
        r1 == raw_warnings_of_lines(spec_lines(content)),
        r2 == raw_warnings_of_lines(spec_lines(content)),
    ensures
        r1 == r2,
        forall|i: int| 0 <= i < r1.len() ==> r1[i].id == r2[i].id,
{
}

/// Classification filters before construction: no warning this strategy
/// emits has the unknown type.
pub proof fn lemma_raw_warnings_relevant(lines: Seq<Seq<char>>)
    ensures
        forall|i: int|
            0 <= i < raw_warnings_of_lines(lines).len() ==> !((#[trigger] raw_warnings_of_lines(
                lines,
            )[i]).warning_type is Unknown),
    decreases lines.len(),
{
    if lines.len() > 0 {
        lemma_raw_warnings_relevant(lines.drop_last());
        let rest = raw_warnings_of_lines(lines.drop_last());
        let whole = raw_warnings_of_lines(lines);
        assert forall|i: int|
            0 <= i < whole.len() implies !((#[trigger] whole[i]).warning_type is Unknown) by {
            if i < rest.len() {
                assert(whole[i] == rest[i]);
            }
        }
    }
}

/// Build the identifier string `<path>:<line>:<byte length of message>`.
pub fn build_warning_id(path: &Vec<char>, line_number: u64, message: &String) -> (r: String)
    ensures
        r@ == warning_id(path@, line_number as int, message@),
{
    proof {
        reveal_strlit(":");
    }
    let mut id = string_from_chars(path);
    id.append(":");
    let ln = decimal_string(line_number);
    id.append(ln.as_str());
    id.append(":");
    let msg_len: usize = message.as_str().len();
    let ml = decimal_string(msg_len as u64);
    id.append(ml.as_str());
    proof {
        assert(id@ =~= warning_id(path@, line_number as int, message@));
    }
    id
}

/// Choose the raw-log remediation hint.
fn suggest_fix_exec(wt: WarningType, msg: &Vec<char>) -> (r: Option<String>)
    ensures
        match r {
            Some(f) => raw_suggest_fix(wt, msg@) == Some(f@),
            None => raw_suggest_fix(wt, msg@) is None,
        },
{
    match wt {
        WarningType::ActorIsolation => {
            if contains_chars(msg, &chars_of("can not be mutated")) || contains_chars(
                msg,
                &chars_of("cannot be mutated"),
            ) {
                Some(
                    "Consider using 'await' or @MainActor to safely mutate the actor-isolated property.".to_owned(),
                )
            } else if contains_chars(msg, &chars_of("can not be referenced")) || contains_chars(
                msg,
                &chars_of("cannot be referenced"),
            ) {
                Some(
                    "Use 'await' to access the actor-isolated member, or move this code into an actor context.".to_owned(),
                )
            } else if contains_chars(msg, &chars_of("Main actor")) {
                Some(
                    "Use '@MainActor' annotation or dispatch to the main queue with 'await MainActor.run'.".to_owned(),
                )
            } else {
                Some(
                    "Ensure proper actor isolation by using 'await' or moving code to appropriate actor context.".to_owned(),
                )
            }
        },
        WarningType::SendableConformance => {
            if contains_chars(msg, &chars_of("does not conform")) {
                Some(
                    "Add 'Sendable' conformance to the type or use '@unchecked Sendable' if thread-safe.".to_owned(),
                )
            } else if contains_chars(msg, &chars_of("capture")) {
                Some(
                    "Ensure captured values conform to 'Sendable' or restructure to avoid capture.".to_owned(),
                )
            } else {
                Some("Review Sendable conformance requirements for concurrent contexts.".to_owned())
            }
        },
        WarningType::DataRace => Some(
            "Protect shared mutable state with proper synchronization (actors, locks, or atomic operations).".to_owned(),
        ),
        WarningType::PerformanceRegression => Some(
            "Review async/await usage patterns and consider optimizing concurrency structure.".to_owned(),
        ),
        WarningType::Unknown => None,
    }
}

pub struct RawLogParser {
    /// Lines of context requested around each diagnostic; the parser
    /// itself leaves contexts empty (it has no access to source files),
    /// and the caller uses this width when it fills them in.
    pub context_lines: usize,
}

impl RawLogParser {
    pub fn new(context_lines: usize) -> (r: Self)
        ensures
            r.context_lines == context_lines,
    {
        Self { context_lines }
    }

    /// Parse one line; `None` when the line does not have the log-line
    /// shape or its message is not concurrency-relevant.
    fn parse_warning_line(&self, line: &Vec<char>) -> (r: Option<Warning>)
        ensures
            match r {
                Some(w) => raw_warning_of_line(line@) == Some(w@),
                None => raw_warning_of_line(line@) is None,
            },
    {
        proof {
            reveal_strlit(".swift");
            reveal_strlit("warning:");
        }
        let t = trim_chars(line);
        let ghost tv = t@;
        let n = t.len();
        let c1 = find_char(&t, ':', 0);
        proof {
            lemma_find_char_from(tv, ':', 0);
        }
        if c1 == n || c1 < 7 || !seq_match_at_exec(&t, &chars_of(".swift"), c1 - 6) {
            return None;
        }
        proof {
            lemma_skip_digits(tv, c1 as int + 1);
        }
        let l_end = skip_digits_exec(&t, c1 + 1);
        if l_end == c1 + 1 || l_end == n || t[l_end] != ':' {
            return None;
        }
        proof {
            lemma_skip_digits(tv, l_end as int + 1);
        }
        let c_end = skip_digits_exec(&t, l_end + 1);
        if c_end == l_end + 1 || c_end == n || t[c_end] != ':' {
            return None;
        }
        proof {
            lemma_skip_ws(tv, c_end as int + 1);
        }
        let w = skip_ws_exec(&t, c_end + 1);
        if !seq_match_at_exec(&t, &chars_of("warning:"), w) {
            return None;
        }
        proof {
            lemma_skip_ws(tv, w as int + 8);
        }
        let m = skip_ws_exec(&t, w + 8);
        if m >= n {
            return None;
        }
        let ghost parts = raw_line_parse(line@).unwrap();
        // Parse the numbers; a value that does not fit the machine word
        // makes the line unusable, so it is skipped.
        let line_u64 = match parse_u64(&t, c1 + 1, l_end) {
            Some(x) => x,
            None => {
                return None;
            },
        };
        if line_u64 > usize::MAX as u64 {
            return None;
        }
        let col_u64 = match parse_u64(&t, l_end + 1, c_end) {
            Some(x) => x,
            None => {
                return None;
            },
        };
        if col_u64 > usize::MAX as u64 {
            return None;
        }
        let msg_chars = subvec(&t, m, n);
        proof {
            assert(msg_chars@ == parts.message);
        }
        let (wt, sev) = categorize_chars(&msg_chars);
        if let WarningType::Unknown = wt {
            return None;
        }
        let path_chars = subvec(&t, 0, c1);
        let message = string_from_chars(&msg_chars);
        let id = build_warning_id(&path_chars, line_u64, &message);
        let suggested_fix = suggest_fix_exec(wt, &msg_chars);
        let warning = Warning {
            id,
            warning_type: wt,
            severity: sev,
            file_path: string_from_chars(&path_chars),
            line_number: line_u64 as usize,
            column_number: Some(col_u64 as usize),
            message,
            code_context: CodeContext::empty(String::new()),
            suggested_fix,
        };
        proof {
            assert(warning@.code_context == empty_context());
            assert(raw_warning_of_line(line@) == Some(warning@));
        }
        Some(warning)
    }

    /// Parse warnings out of raw log text, line by line.  Lines that do
    /// not match are skipped; this strategy never fails.
    pub fn parse_stream(&self, input: &str) -> (r: Result<Vec<Warning>, ParseError>)
        ensures
            r is Ok,
            warning_views(r->Ok_0@) == raw_warnings_of_lines(spec_lines(input@)),
    {
        let chars = chars_of(input);
        let lines = split_lines(&chars);
        let ghost lv = spec_lines(input@);
        assert(seq_views(lines@) == lv);
        let mut ws: Vec<Warning> = Vec::new();
        let mut i: usize = 0;
        while i < lines.len()
            invariant
                i <= lines@.len(),
                seq_views(lines@) == lv,
                warning_views(ws@) =~= raw_warnings_of_lines(lv.take(i as int)),
            decreases lines@.len() - i,
        {
            proof {
                assert(lv.take(i as int + 1).drop_last() =~= lv.take(i as int));
                assert(lv.take(i as int + 1).last() == lines@[i as int]@);
            }
            if let Some(w) = self.parse_warning_line(&lines[i]) {
                ws.push(w);
                proof {
                    assert(warning_views(ws@) =~= warning_views(ws@.drop_last()).push(w@));
                }
            }
            i = i + 1;
        }
        proof {
            assert(lv.take(lines@.len() as int) =~= lv);
        }
        Ok(ws)
    }
}

} // verus!
