//! Extraction and classification of structured-concurrency compiler
//! diagnostics from build logs.
//!
//! The library ingests build output in one of three encodings — newline
//! delimited JSON diagnostics, a nested JSON result bundle, or free-text
//! compiler output — classifies each diagnostic message by its
//! concurrency vocabulary, and produces a normalized warning list.  The
//! dispatcher below sniffs the content, runs the matching structured
//! strategy, and falls back to the raw-text strategy when the first
//! attempt finds nothing.

use vstd::prelude::*;

pub mod cli;
pub mod error;
pub mod formatters;
pub mod json;
pub mod models;
pub mod parser;
pub mod phrase;
pub mod text;

use crate::json::{json_of, JsonVal};
use crate::models::warning::{warning_views, Warning, WarningView};
use crate::parser::rawlog::{raw_warnings_of_lines, RawLogParser};
use crate::parser::xcodebuild::{xcb_warnings_of_lines, XcodeBuildParser};
use crate::parser::xcresult::{tree_issues, tree_warnings_of_issues, XcresultParser};
use crate::text::{chars_of, contains_chars, contains_seq, skip_ws, skip_ws_exec, spec_lines};

verus! {

/// The content sniff: a result-bundle document starts (after leading
/// whitespace) with `{` and mentions the bundle's array marker.
pub open spec fn detect_tree_format(content: Seq<char>) -> bool {
    let a = skip_ws(content, 0);
    a < content.len() && content[a] == '{' && contains_seq(content, "_values"@)
}

/// The structured-diagnostic strategy with the raw-text fallback: the
/// line-oriented result stands when it is non-empty, else the raw-text
/// parse of the same content.
pub open spec fn spec_structured_or_raw(content: Seq<char>) -> Seq<WarningView> {
    let xs = xcb_warnings_of_lines(spec_lines(content));
    if xs.len() > 0 {
        xs
    } else {
        raw_warnings_of_lines(spec_lines(content))
    }
}

/// What the dispatcher produces: the sniffed primary strategy's result
/// when non-empty, else the raw-text parse of the same content.  A tree
/// parse that fails (not JSON, or no issues array) also falls back.
pub open spec fn spec_dispatch(content: Seq<char>) -> Seq<WarningView> {
    if detect_tree_format(content) {
        match json_of(content) {
            Some(v) => match tree_issues(v) {
                Some(issues) => {
                    let ws = tree_warnings_of_issues(issues);
                    if ws.len() > 0 {
                        ws
                    } else {
                        raw_warnings_of_lines(spec_lines(content))
                    }
                },
                None => raw_warnings_of_lines(spec_lines(content)),
            },
            None => raw_warnings_of_lines(spec_lines(content)),
        }
    } else {
        spec_structured_or_raw(content)
    }
}

/// Run the structured-diagnostic strategy and fall back to the raw-text
/// strategy when it finds nothing.
pub fn structured_or_raw_warnings(content: &str, context_lines: usize) -> (r: Vec<Warning>)
    ensures
        warning_views(r@) == spec_structured_or_raw(content@),
{
    let xcodebuild_parser = XcodeBuildParser::new(context_lines);
    match xcodebuild_parser.parse_stream(content) {
        Ok(ws) => {
            if ws.len() > 0 {
                ws
            } else {
                let rawlog_parser = RawLogParser::new(context_lines);
                match rawlog_parser.parse_stream(content) {
                    Ok(rs) => rs,
                    Err(_) => Vec::new(),
                }
            }
        },
        Err(_) => {
            // The line-oriented strategy never fails on buffered input.
            proof {
                assert(false);
            }
            Vec::new()
        },
    }
}

/// Sniff the content and run the two-strategy fallback chain: the
/// detected structured strategy first, then — whenever it yields nothing
/// — the raw-text strategy on the same content.
pub fn dispatch_warnings(content: &str, context_lines: usize) -> (r: Vec<Warning>)
    ensures
        warning_views(r@) == spec_dispatch(content@),
{
    let chars = chars_of(content);
    proof {
        crate::text::lemma_skip_ws(content@, 0);
    }
    let a = skip_ws_exec(&chars, 0);
    let tree = a < chars.len() && chars[a] == '{' && contains_chars(&chars, &chars_of("_values"));
    if tree {
        let parser = XcresultParser::new(context_lines);
        match parser.parse_json(content) {
            Ok(ws) => {
                if ws.len() > 0 {
                    return ws;
                }
            },
            Err(_) => {},
        }
        let rawlog_parser = RawLogParser::new(context_lines);
        match rawlog_parser.parse_stream(content) {
            Ok(rs) => rs,
            Err(_) => Vec::new(),
        }
    } else {
        structured_or_raw_warnings(content, context_lines)
    }
}

/// The messages of a warning list, in order.
pub open spec fn messages_of(ws: Seq<WarningView>) -> Seq<Seq<char>> {
    Seq::new(ws.len(), |i: int| ws[i].message)
}

/// The views of a string list.
pub open spec fn str_views(ss: Seq<String>) -> Seq<Seq<char>> {
    Seq::new(ss.len(), |i: int| ss[i]@)
}

/// The diagnostic messages the structured-then-raw chain finds.
pub fn find_concurrency_warnings(input: &str) -> (r: Vec<String>)
    ensures
        str_views(r@) == messages_of(spec_structured_or_raw(input@)),
{
    let ws = structured_or_raw_warnings(input, 3);
    let ghost wv = warning_views(ws@);
    let mut r: Vec<String> = Vec::new();
    let mut i: usize = 0;
    while i < ws.len()
        invariant
            i <= ws@.len(),
            wv == warning_views(ws@),
            r@.len() == i,
            forall|k: int| 0 <= k < i ==> #[trigger] r@[k]@ == wv[k].message,
        decreases ws@.len() - i,
    {
        r.push(ws[i].message.clone());
        i = i + 1;
    }
    proof {
        assert(str_views(r@) =~= messages_of(wv));
    }
    r
}

/// The central filtering contract: whatever strategy wins, no warning
/// the dispatcher hands out has the unknown type — classification
/// filters irrelevant diagnostics out before a warning is built.
pub proof fn lemma_dispatch_warnings_relevant(content: Seq<char>)
    ensures
        forall|i: int|
            0 <= i < spec_dispatch(content).len() ==> !((#[trigger] spec_dispatch(
                content,
            )[i]).warning_type is Unknown),
{
    crate::parser::rawlog::lemma_raw_warnings_relevant(spec_lines(content));
    crate::parser::xcodebuild::lemma_xcb_warnings_relevant(spec_lines(content));
    if detect_tree_format(content) {
        match json_of(content) {
            Some(v) => match tree_issues(v) {
                Some(issues) => {
                    crate::parser::xcresult::lemma_tree_warnings_relevant(issues);
                },
                None => {},
            },
            None => {},
        }
    }
}

/// Fallback on an empty tree parse: a document that sniffs as a result
/// bundle and parses to an empty issue list (or to no issue array, or to
/// no JSON at all) makes the dispatcher's answer exactly the raw-text
/// parse of the same content — which is empty when no line has the
/// log-line shape, and no error is raised.
pub proof fn lemma_tree_empty_falls_back(content: Seq<char>)
    requires
        detect_tree_format(content),
        forall|v: JsonVal|
            json_of(content) == Some(v) ==> match tree_issues(v) {
                Some(issues) => tree_warnings_of_issues(issues).len() == 0,
                None => true,
            },
    ensures
        spec_dispatch(content) == raw_warnings_of_lines(spec_lines(content)),
{
    match json_of(content) {
        Some(v) => {
            assert(json_of(content) == Some(v));
        },
        None => {},
    }
}

} // verus!
