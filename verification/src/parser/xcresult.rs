//! The structured-tree parser: a single JSON result-bundle document whose
//! issues live in a top-level array.  Issue locations are URL-like
//! strings; the file path and line number are pulled out of the first
//! location key that is present.

use vstd::prelude::*;

use crate::error::ParseError;
use crate::json::{
    get_array, get_field, get_text, json_as_str, json_get, json_of, parse_json_text, JsonVal,
};
use crate::models::context::{empty_context, CodeContext};
use crate::models::warning::{warning_views, Warning, WarningType, WarningView};
use crate::parser::patterns::{categorize_chars, spec_classify};
use crate::parser::rawlog::{build_warning_id, warning_id};
use crate::phrase::{contains_words, contains_words_exec, word_wf, words_view};
use crate::text::{
    chars_of, digits_val, find_char, find_char_from, lemma_find_char_from, lemma_skip_digits,
    parse_u64, seq_match_at, seq_match_at_exec, skip_digits, skip_digits_exec, string_from_chars,
    subvec,
};

verus! {

/// Where a location key followed by `=` begins a digit run: the offset
/// just after the `=` for whichever key starts at `q`.
pub open spec fn url_key_at(s: Seq<char>, q: int) -> Option<int> {
    if seq_match_at(s, "StartingLineNumber="@, q) {
        Some(q + 19)
    } else if seq_match_at(s, "EndingLineNumber="@, q) {
        Some(q + 17)
    } else if seq_match_at(s, "line="@, q) {
        Some(q + 5)
    } else {
        None
    }
}

/// A key with at least one digit after its `=`, starting at `q`: the
/// digit run `[d, e)`.
pub open spec fn url_match_here(s: Seq<char>, q: int) -> Option<(int, int)> {
    match url_key_at(s, q) {
        Some(d) => {
            if d <= s.len() && skip_digits(s, d) > d {
                Some((d, skip_digits(s, d)))
            } else {
                None
            }
        },
        None => None,
    }
}

/// The earliest key-with-digits match at or after `q`.
pub open spec fn first_key_match(s: Seq<char>, q: int) -> Option<(int, int)>
    decreases s.len() - q,
{
    if !(0 <= q && q < s.len()) {
        None
    } else {
        match url_match_here(s, q) {
            Some(de) => Some(de),
            None => first_key_match(s, q + 1),
        }
    }
}

/// Parse a location URL, scanning for the leftmost `file://` occurrence
/// that is followed by a non-empty path, a `#`, and somewhere after that
/// a line-number key: yields the path (up to the first `#`) and the
/// unbounded value of the digit run.
pub open spec fn url_parse_from(s: Seq<char>, p: int) -> Option<(Seq<char>, int)>
    decreases s.len() - p,
{
    if !(0 <= p && p + 7 <= s.len()) {
        None
    } else if seq_match_at(s, "file://"@, p) {
        let h = find_char_from(s, '#', p + 7);
        let attempt = if h < s.len() && h > p + 7 {
            first_key_match(s, h + 1)
        } else {
            None
        };
        match attempt {
            Some(de) => Some((s.subrange(p + 7, h), digits_val(s, de.0, de.1))),
            None => url_parse_from(s, p + 1),
        }
    } else {
        url_parse_from(s, p + 1)
    }
}

/// The parsed line value as the warning records it: out-of-range values
/// collapse to zero.
pub open spec fn line_clamp(lv: int) -> int {
    if lv <= u32::MAX {
        lv
    } else {
        0
    }
}

/// The value of `o`'s field `key`, when `o` is an object holding it.
pub open spec fn opt_get(o: Option<JsonVal>, key: Seq<char>) -> Option<JsonVal> {
    match o {
        Some(x) => json_get(x, key),
        None => None,
    }
}

/// The characters of `o`, when it is a string.
pub open spec fn opt_as_str(o: Option<JsonVal>) -> Option<Seq<char>> {
    match o {
        Some(x) => json_as_str(x),
        None => None,
    }
}

/// The `_value` string under `key`.
pub open spec fn value_str(issue: JsonVal, key: Seq<char>) -> Option<Seq<char>> {
    opt_as_str(opt_get(json_get(issue, key), "_value"@))
}

/// The `url._value` string under `key`.
pub open spec fn url_str(issue: JsonVal, key: Seq<char>) -> Option<Seq<char>> {
    opt_as_str(opt_get(opt_get(json_get(issue, key), "url"@), "_value"@))
}

/// The issue's location URL: the primary key path, then the three
/// historical alternatives, first present one wins.
pub open spec fn issue_url(issue: JsonVal) -> Option<Seq<char>> {
    let a = url_str(issue, "documentLocationInCreatingWorkspace"@);
    let b = value_str(issue, "documentURL"@);
    let c = url_str(issue, "documentLocation"@);
    let d = url_str(issue, "documentLocationInWorkspace"@);
    if a is Some {
        a
    } else if b is Some {
        b
    } else if c is Some {
        c
    } else {
        d
    }
}

/// What one issue entry yields: its `issueType` must contain `warning`
/// (case-insensitively), its message must classify as
/// concurrency-relevant, and its URL must parse; otherwise the entry is
/// skipped.  This format carries no column and no suggested fix.
pub open spec fn tree_warning_of_issue(issue: JsonVal) -> Option<WarningView> {
    let ty = match value_str(issue, "issueType"@) {
        Some(t) => t,
        None => Seq::empty(),
    };
    if !contains_words(ty, seq!["warning"@]) {
        None
    } else {
        let msg = match value_str(issue, "message"@) {
            Some(m) => m,
            None => Seq::empty(),
        };
        let (wt, sev) = spec_classify(msg);
        if wt is Unknown {
            None
        } else {
            match issue_url(issue) {
                None => None,
                Some(url) => match url_parse_from(url, 0) {
                    None => None,
                    Some(pl) => {
                        let ln = line_clamp(pl.1);
                        Some(
                            WarningView {
                                id: warning_id(pl.0, ln, msg),
                                warning_type: wt,
                                severity: sev,
                                file_path: pl.0,
                                line_number: ln,
                                column_number: None,
                                message: msg,
                                code_context: empty_context(),
                                suggested_fix: None,
                            },
                        )
                    },
                },
            }
        }
    }
}

/// The issues array of the document: the `_values` array, or the bare
/// top-level array; `None` when neither is there.
pub open spec fn tree_issues(v: JsonVal) -> Option<Seq<JsonVal>> {
    match json_get(v, "_values"@) {
        Some(JsonVal::Arr(a)) => Some(a@),
        _ => {
            if v is Arr {
                Some(v->Arr_0@)
            } else {
                None
            }
        },
    }
}

/// The warnings of an issue sequence, in order.
pub open spec fn tree_warnings_of_issues(issues: Seq<JsonVal>) -> Seq<WarningView>
    decreases issues.len(),
{
    if issues.len() == 0 {
        Seq::empty()
    } else {
        let rest = tree_warnings_of_issues(issues.drop_last());
        match tree_warning_of_issue(issues.last()) {
            Some(w) => rest.push(w),
            None => rest,
        }
    }
}

/// Reproducibility: the tree strategy derives every identifier from the
/// decoded document alone, so two parses of byte-identical input yield
/// the same warnings, identifiers included, in the same order.
pub proof fn lemma_tree_idempotent(
    content: Seq<char>,
    issues: Seq<JsonVal>,
    r1: Seq<WarningView>,
    r2: Seq<WarningView>,
)
    requires
        json_of(content) is Some,
        tree_issues(json_of(content)->Some_0) == Some(issues),
        r1 == tree_warnings_of_issues(issues),
        r2 == tree_warnings_of_issues(issues),
    ensures
        r1 == r2,
        forall|i: int| 0 <= i < r1.len() ==> r1[i].id == r2[i].id,
{
}

/// Classification filters before construction: no warning this strategy
/// emits has the unknown type.
pub proof fn lemma_tree_warnings_relevant(issues: Seq<JsonVal>)
    ensures
        forall|i: int|
            0 <= i < tree_warnings_of_issues(issues).len() ==> !((
            #[trigger] tree_warnings_of_issues(issues)[i]).warning_type is Unknown),
    decreases issues.len(),
{
    if issues.len() > 0 {
        lemma_tree_warnings_relevant(issues.drop_last());
        let rest = tree_warnings_of_issues(issues.drop_last());
        let whole = tree_warnings_of_issues(issues);
        assert forall|i: int|
            0 <= i < whole.len() implies !((#[trigger] whole[i]).warning_type is Unknown) by {
            if i < rest.len() {
                assert(whole[i] == rest[i]);
            }
        }
    }
}

/// Find the earliest location-key match at or after `q0`.
fn find_key_match(url: &Vec<char>, q0: usize) -> (r: Option<(usize, usize)>)
    requires
        q0 <= url@.len(),
    ensures
        match r {
            Some(de) => {
                &&& first_key_match(url@, q0 as int) == Some((de.0 as int, de.1 as int))
                &&& de.0 <= de.1 <= url@.len()
                &&& crate::text::all_digits(url@, de.0 as int, de.1 as int)
            },
            None => first_key_match(url@, q0 as int) is None,
        },
{
    let ghost uw = url@;
    let mut q: usize = q0;
    while q < url.len()
        invariant
            q0 <= q <= uw.len(),
            uw == url@,
            first_key_match(uw, q0 as int) == first_key_match(uw, q as int),
        decreases uw.len() - q,
    {
        proof {
            reveal_strlit("StartingLineNumber=");
            reveal_strlit("EndingLineNumber=");
            reveal_strlit("line=");
        }
        let d: usize = if seq_match_at_exec(url, &chars_of("StartingLineNumber="), q) {
            q + 19
        } else if seq_match_at_exec(url, &chars_of("EndingLineNumber="), q) {
            q + 17
        } else if seq_match_at_exec(url, &chars_of("line="), q) {
            q + 5
        } else {
            q = q + 1;
            continue ;
        };
        proof {
            assert(url_key_at(uw, q as int) == Some(d as int));
            assert(d <= uw.len());
            lemma_skip_digits(uw, d as int);
        }
        let e = skip_digits_exec(url, d);
        if e > d {
            return Some((d, e));
        }
        q = q + 1;
    }
    None
}

/// Parse a location URL; `None` when it does not carry a `file://` path
/// with a line-number key.
fn url_parse_exec(url: &Vec<char>) -> (r: Option<(Vec<char>, u32)>)
    ensures
        match r {
            Some(pl) => {
                &&& url_parse_from(url@, 0) is Some
                &&& pl.0@ == url_parse_from(url@, 0)->Some_0.0
                &&& pl.1 as int == line_clamp(url_parse_from(url@, 0)->Some_0.1)
            },
            None => url_parse_from(url@, 0) is None,
        },
{
    let ghost uw = url@;
    let n = url.len();
    let file_lit = chars_of("file://");
    proof {
        reveal_strlit("file://");
    }
    let mut p: usize = 0;
    while n - p >= 7
        invariant
            p <= n,
            n == uw.len(),
            uw == url@,
            file_lit@ == "file://"@,
            "file://"@.len() == 7,
            url_parse_from(uw, 0) == url_parse_from(uw, p as int),
        decreases n - p,
    {
        if seq_match_at_exec(url, &file_lit, p) {
            proof {
                lemma_find_char_from(uw, '#', p as int + 7);
            }
            let h = find_char(url, '#', p + 7);
            let attempt: Option<(usize, usize)> = if h < n && h > p + 7 {
                find_key_match(url, h + 1)
            } else {
                None
            };
            if let Some(de) = attempt {
                proof {
                    lemma_skip_digits(uw, de.0 as int);
                }
                let path = subvec(url, p + 7, h);
                let ln: u32 = match parse_u64(url, de.0, de.1) {
                    Some(x) => {
                        if x <= u32::MAX as u64 {
                            x as u32
                        } else {
                            0
                        }
                    },
                    None => 0,
                };
                return Some((path, ln));
            }
        }
        p = p + 1;
    }
    None
}

pub struct XcresultParser {
    /// Lines of context requested around each diagnostic; the parser
    /// itself leaves contexts empty (it has no access to source files),
    /// and the caller uses this width when it fills them in.
    pub context_lines: usize,
}

impl XcresultParser {
    pub fn new(context_lines: usize) -> (r: Self)
        ensures
            r.context_lines == context_lines,
    {
        Self { context_lines }
    }

    /// Extract the warning one issue entry yields, if any.
    fn extract_issue(&self, issue: &JsonVal) -> (r: Option<Warning>)
        ensures
            match r {
                Some(w) => tree_warning_of_issue(*issue) == Some(w@),
                None => tree_warning_of_issue(*issue) is None,
            },
    {
        proof {
            reveal_strlit("warning");
        }
        let ty: Vec<char> = match self.value_str_exec(issue, "issueType") {
            Some(t) => t,
            None => Vec::new(),
        };
        proof {
            assert(ty@ == match value_str(*issue, "issueType"@) {
                Some(t) => t,
                None => Seq::<char>::empty(),
            });
        }
        let warning_word = chars_of("warning");
        let mut wgroup: Vec<Vec<char>> = Vec::new();
        wgroup.push(warning_word);
        proof {
            assert(words_view(wgroup@) =~= seq!["warning"@]);
            assert(word_wf("warning"@));
        }
        if !contains_words_exec(&ty, &wgroup, 0) {
            return None;
        }
        let msg: Vec<char> = match self.value_str_exec(issue, "message") {
            Some(m) => m,
            None => Vec::new(),
        };
        proof {
            assert(msg@ == match value_str(*issue, "message"@) {
                Some(m) => m,
                None => Seq::<char>::empty(),
            });
        }
        let (wt, sev) = categorize_chars(&msg);
        if let WarningType::Unknown = wt {
            return None;
        }
        let url: Vec<char> = match self.issue_url_exec(issue) {
            Some(u) => u,
            None => {
                return None;
            },
        };
        let (path, ln) = match url_parse_exec(&url) {
            Some(pl) => pl,
            None => {
                return None;
            },
        };
        let message = string_from_chars(&msg);
        let id = build_warning_id(&path, ln as u64, &message);
        let warning = Warning {
            id,
            warning_type: wt,
            severity: sev,
            file_path: string_from_chars(&path),
            line_number: ln as usize,
            column_number: None,
            message,
            code_context: CodeContext::empty(String::new()),
            suggested_fix: None,
        };
        proof {
            assert(warning@.code_context == empty_context());
        }
        Some(warning)
    }

    /// The `_value` string under `key`, copied out.
    fn value_str_exec(&self, issue: &JsonVal, key: &str) -> (r: Option<Vec<char>>)
        ensures
            match r {
                Some(t) => value_str(*issue, key@) == Some(t@),
                None => value_str(*issue, key@) is None,
            },
    {
        let inner = match get_field(issue, key) {
            Some(x) => x,
            None => {
                return None;
            },
        };
        let val = match get_field(inner, "_value") {
            Some(x) => x,
            None => {
                return None;
            },
        };
        match get_text(val) {
            Some(s) => {
                let c = subvec(s, 0, s.len());
                proof {
                    assert(c@ =~= s@);
                }
                Some(c)
            },
            None => None,
        }
    }

    /// The `url._value` string under `key`, copied out.
    fn url_str_exec(&self, issue: &JsonVal, key: &str) -> (r: Option<Vec<char>>)
        ensures
            match r {
                Some(t) => url_str(*issue, key@) == Some(t@),
                None => url_str(*issue, key@) is None,
            },
    {
        let loc = match get_field(issue, key) {
            Some(x) => x,
            None => {
                return None;
            },
        };
        let inner = match get_field(loc, "url") {
            Some(x) => x,
            None => {
                return None;
            },
        };
        let val = match get_field(inner, "_value") {
            Some(x) => x,
            None => {
                return None;
            },
        };
        match get_text(val) {
            Some(s) => {
                let c = subvec(s, 0, s.len());
                proof {
                    assert(c@ =~= s@);
                }
                Some(c)
            },
            None => None,
        }
    }

    /// The issue's location URL, trying the four key paths in order.
    fn issue_url_exec(&self, issue: &JsonVal) -> (r: Option<Vec<char>>)
        ensures
            match r {
                Some(u) => issue_url(*issue) == Some(u@),
                None => issue_url(*issue) is None,
            },
    {
        if let Some(u) = self.url_str_exec(issue, "documentLocationInCreatingWorkspace") {
            return Some(u);
        }
        if let Some(u) = self.value_str_exec(issue, "documentURL") {
            return Some(u);
        }
        if let Some(u) = self.url_str_exec(issue, "documentLocation") {
            return Some(u);
        }
        self.url_str_exec(issue, "documentLocationInWorkspace")
    }

    /// Parse a result-bundle document.  A document that is not JSON, or
    /// whose issues array is missing, is a terminal error for this
    /// strategy; individual malformed issues are skipped.
    pub fn parse_json(&self, json_content: &str) -> (r: Result<Vec<Warning>, ParseError>)
        ensures
            match json_of(json_content@) {
                None => r is Err && r->Err_0 is JsonError,
                Some(v) => match tree_issues(v) {
                    None => r is Err && r->Err_0 is InvalidFormat,
                    Some(issues) => r is Ok && warning_views(r->Ok_0@) == tree_warnings_of_issues(
                        issues,
                    ),
                },
            },
{
        let v = match parse_json_text(json_content) {
            Some(v) => v,
            None => {
                return Err(ParseError::JsonError("input is not valid JSON".to_owned()));
            },
        };
        let issues: &Vec<JsonVal> = match get_field(&v, "_values") {
            Some(x) => match get_array(x) {
                Some(a) => a,
                None => {
                    return Err(
                        ParseError::InvalidFormat(
                            "xcresult JSON missing _values array".to_owned(),
                        ),
                    );
                },
            },
            None => match get_array(&v) {
                Some(a) => a,
                None => {
                    return Err(
                        ParseError::InvalidFormat(
                            "xcresult JSON missing _values array".to_owned(),
                        ),
                    );
                },
            },
        };
        let ghost iv = issues@;
        proof {
            assert(tree_issues(v) == Some(iv));
        }
        let mut ws: Vec<Warning> = Vec::new();
        let mut i: usize = 0;
        while i < issues.len()
            invariant
                i <= iv.len(),
                iv == issues@,
                warning_views(ws@) =~= tree_warnings_of_issues(iv.take(i as int)),
            decreases iv.len() - i,
        {
            proof {
                assert(iv.take(i as int + 1).drop_last() =~= iv.take(i as int));
                assert(iv.take(i as int + 1).last() == iv[i as int]);
            }
            if let Some(w) = self.extract_issue(&issues[i]) {
                ws.push(w);
                proof {
                    assert(warning_views(ws@) =~= warning_views(ws@.drop_last()).push(w@));
                }
            }
            i = i + 1;
        }
        proof {
            assert(iv.take(iv.len() as int) =~= iv);
        }
        Ok(ws)
    }
}

} // verus!
