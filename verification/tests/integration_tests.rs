use swiftconcur_parser::cli::WarningTypeFilter;
use swiftconcur_parser::dispatch_warnings;
use swiftconcur_parser::error::ParseError;
use swiftconcur_parser::formatters::markdown::MarkdownFormatter;
use swiftconcur_parser::formatters::slack::SlackFormatter;
use swiftconcur_parser::find_concurrency_warnings;
use swiftconcur_parser::models::context::CodeContext;
use swiftconcur_parser::models::run::WarningRun;
use swiftconcur_parser::models::warning::{Severity, WarningType};
use swiftconcur_parser::parser::warnings::{check_threshold, filter_warnings};
use swiftconcur_parser::parser::xcodebuild::XcodeBuildParser;

#[test]
fn test_format_detection_xcresult_vs_xcodebuild() {
    // Test xcresult format detection
    let xcresult_content = r#"{
            "_values": [
                {
                    "documentLocationInCreatingWorkspace": {
                        "url": {
                            "_value": "file:///test.swift#EndingLineNumber=42"
                        }
                    },
                    "issueType": {
                        "_value": "Swift Compiler Warning"
                    },
                    "message": {
                        "_value": "actor-isolated property test"
                    }
                }
            ]
        }"#;

    // Test xcodebuild format
    let xcodebuild_content =
        r#"{"type": "warning", "message": "actor-isolated property test", "file": "test.swift"}"#;

    // Both should be detected and parsed correctly
    // (This is tested implicitly by the format detection logic in lib.rs)
    assert!(xcresult_content.contains("_values"));
    assert!(!xcodebuild_content.contains("_values"));
}

#[test]
fn test_detect_xcresult_format() {
    // Test various xcresult format indicators
    let xcresult_indicators = [
        r#"{"_values": []}"#,
        r#"{"_type": {"_name": "Array"}, "_values": [{"_type": {"_name": "IssueSummary"}}]}"#,
        r#"  {"_values": [{"issueType": {"_value": "Swift Compiler Warning"}}]}  "#,
    ];

    for content in &xcresult_indicators {
        let is_xcresult = content.trim_start().starts_with('{') && content.contains("_values");
        assert!(
            is_xcresult,
            "Failed to detect xcresult format for: {content}"
        );
    }
}

#[test]
fn test_detect_xcodebuild_format() {
    let xcodebuild_samples = [
        r#"{"type": "warning", "message": "test"}"#,
        r#"plain text xcodebuild output"#,
        r#"Some other JSON without _values"#,
    ];

    for content in &xcodebuild_samples {
        let is_xcresult = content.trim_start().starts_with('{')
            && content.contains("_values")
            && content.contains("IssueSummary");
        assert!(
            !is_xcresult,
            "Incorrectly detected xcresult format for: {content}"
        );
    }
}

#[test]
fn test_parse_github_action_log_warning() {
    // This is the exact warning format from continuous-integration logs
    let raw_log = r#"
/Users/runner/work/ConcurCLIDemo/ConcurCLIDemo/ConcurDemo/Item.swift:37:24: warning: main actor-isolated property 'count' can not be mutated from a Sendable closure; this is an error in the Swift 6 language mode
            self.model.count += 1
/Users/runner/work/ConcurCLIDemo/ConcurCLIDemo/ConcurDemo/Item.swift:22:9: note: mutation of this property is only permitted within the actor
    var count = 0
        ^
"#.trim();

    let warnings = find_concurrency_warnings(raw_log);

    assert_eq!(warnings.len(), 1);
    assert!(warnings[0]
        .contains("main actor-isolated property 'count' can not be mutated from a Sendable closure"));
}

#[test]
fn test_parse_multiple_concurrency_warnings_from_log() {
    let raw_log = r#"
Build started...
/project/DataManager.swift:42:15: warning: actor-isolated property 'data' can not be referenced from a non-isolated context
    return self.data.count
              ^
/project/NetworkService.swift:78:22: warning: Type 'NetworkManager' does not conform to the 'Sendable' protocol; this is an error in Swift 6
    let manager = NetworkManager()
                  ^
/project/ConcurrentQueue.swift:95:10: warning: data race condition detected between concurrent accesses to shared mutable state
    queue.append(item)
    ^
Build completed with warnings.
"#.trim();

    let warnings = find_concurrency_warnings(raw_log);

    assert_eq!(warnings.len(), 3);

    // Verify each warning type is detected
    assert!(warnings[0].contains("actor-isolated property"));
    assert!(warnings[1].contains("does not conform to the 'Sendable' protocol"));
    assert!(warnings[2].contains("data race condition detected"));
}

#[test]
fn test_ignore_non_swift_concurrency_warnings() {
    let raw_log = r#"
/project/File.swift:10:5: warning: variable 'unused' was never used; consider replacing with '_' or removing it
/project/Deprecated.swift:25:8: warning: 'oldFunction()' is deprecated: Use newFunction() instead
/project/Actor.swift:30:12: warning: main actor-isolated property 'state' can not be mutated from a Sendable closure
/project/Header.h:15:1: warning: some C header warning
"#
    .trim();

    let warnings = find_concurrency_warnings(raw_log);

    // Should only find the actor isolation warning, ignoring others
    assert_eq!(warnings.len(), 1);
    assert!(warnings[0].contains("main actor-isolated property"));
}

#[test]
fn test_empty_log_produces_no_warnings() {
    let empty_log = "";

    let warnings = find_concurrency_warnings(empty_log);

    assert_eq!(warnings.len(), 0);
}

#[test]
fn test_malformed_warning_lines_ignored() {
    let malformed_log = r#"
This is not a warning line
File.swift: incomplete line
/test/File.swift:invalid:25: warning: malformed line number
/test/Valid.swift:30:5: warning: actor-isolated property 'test' cannot be referenced
incomplete warning line without proper format
"#
    .trim();

    let warnings = find_concurrency_warnings(malformed_log);

    // Should only parse the valid warning line
    assert_eq!(warnings.len(), 1);
    assert!(warnings[0].contains("actor-isolated property"));
}

#[test]
fn test_mixed_build_output_with_warnings() {
    let mixed_log = r#"
Build settings from command line:
    CODE_SIGNING_ALLOWED = NO
    SWIFT_STRICT_CONCURRENCY = targeted

=== BUILD TARGET ConcurDemo OF PROJECT ConcurDemo ===

SwiftCompile normal arm64 /Users/runner/work/ConcurCLIDemo/ConcurCLIDemo/ConcurDemo/Item.swift
    cd /Users/runner/work/ConcurCLIDemo/ConcurCLIDemo
/Users/runner/work/ConcurCLIDemo/ConcurCLIDemo/ConcurDemo/Item.swift:37:24: warning: main actor-isolated property 'count' can not be mutated from a Sendable closure; this is an error in the Swift 6 language mode
            self.model.count += 1

** BUILD SUCCEEDED **
"#.trim();

    let warnings = find_concurrency_warnings(mixed_log);

    assert_eq!(warnings.len(), 1);
    assert!(warnings[0].contains("main actor-isolated property"));
}

#[test]
fn test_single_json_line_actor_isolation() {
    // One structured-diagnostic line yields one high-severity
    // actor-isolation warning.
    let input = r#"{"type": "warning", "message": "actor-isolated property 'shared' can not be referenced from a non-isolated context"}"#;

    let parser = XcodeBuildParser::new(3);
    let warnings = parser.parse_stream(input).unwrap();

    assert_eq!(warnings.len(), 1);
    assert_eq!(warnings[0].warning_type, WarningType::ActorIsolation);
    assert_eq!(warnings[0].severity, Severity::High);
    // Without location fields the defaults stand in.
    assert_eq!(warnings[0].file_path, "unknown");
    assert_eq!(warnings[0].line_number, 0);
}

#[test]
fn test_json_lines_all_data_race_critical() {
    // Every line is a warning with data-race vocabulary: one warning per
    // line, each critical.
    let input = r#"{"type": "warning", "message": "data race detected on counter", "file": "/a/A.swift", "line": 1}
{"type": "warning", "message": "race condition in cache", "file": "/a/B.swift", "line": 2}
{"type": "warning", "message": "mutation of captured var inside task", "file": "/a/C.swift", "line": 3}"#;

    let parser = XcodeBuildParser::new(3);
    let warnings = parser.parse_stream(input).unwrap();

    assert_eq!(warnings.len(), 3);
    for w in &warnings {
        assert_eq!(w.warning_type, WarningType::DataRace);
        assert_eq!(w.severity, Severity::Critical);
    }
}

#[test]
fn test_json_line_shape_chain() {
    let parser = XcodeBuildParser::new(3);

    // The compiler-diagnostic shape carries its own location fields.
    let diag = r#"{"type": "warning", "message": "data race detected", "file": "/a/F.swift", "line": 7, "column": 3}"#;
    let warnings = parser.parse_stream(diag).unwrap();
    assert_eq!(warnings.len(), 1);
    assert_eq!(warnings[0].file_path, "/a/F.swift");
    assert_eq!(warnings[0].line_number, 7);
    assert_eq!(warnings[0].column_number, Some(3));
    assert_eq!(warnings[0].id, format!("/a/F.swift:7:{}", "data race detected".len()));

    // When a diagnostic-shape field is mistyped, the older message shape
    // is attempted and reads the suffixed field names.
    let msg = r#"{"type": "warning", "message": "data race detected", "line": "seven", "filePath": "/a/G.swift", "lineNumber": 8}"#;
    let warnings = parser.parse_stream(msg).unwrap();
    assert_eq!(warnings.len(), 1);
    assert_eq!(warnings[0].file_path, "/a/G.swift");
    assert_eq!(warnings[0].line_number, 8);
    assert_eq!(warnings[0].column_number, None);
}

#[test]
fn test_json_lines_parse_is_idempotent() {
    // Parsing byte-identical input twice yields identical identifiers in
    // identical order.
    let input = r#"{"type": "warning", "message": "data race detected on counter", "file": "/a/A.swift", "line": 10}
{"type": "warning", "message": "actor-isolated property 'x' can not be referenced here", "filePath": "/a/B.swift", "lineNumber": 20}"#;

    let parser = XcodeBuildParser::new(3);
    let first = parser.parse_stream(input).unwrap();
    let second = parser.parse_stream(input).unwrap();

    assert_eq!(first.len(), second.len());
    for (a, b) in first.iter().zip(second.iter()) {
        assert_eq!(a.id, b.id);
    }
}

#[test]
fn test_dispatch_empty_tree_falls_back_to_raw_text() {
    // A tree-shaped document with an empty issues array makes the
    // dispatcher re-run the input through the raw-text strategy, which
    // (the input being JSON, not log lines) also finds nothing: the
    // final result is empty and no error is raised.
    let content = r#"{"_values": []}"#;
    let warnings = dispatch_warnings(content, 3);
    assert_eq!(warnings.len(), 0);
}

#[test]
fn test_dispatch_sniffs_tree_format() {
    let content = r#"{"_values": [{"documentURL": {"_value": "file:///x/Y.swift#line=5"}, "issueType": {"_value": "warning"}, "message": {"_value": "data race detected"}}]}"#;
    let warnings = dispatch_warnings(content, 3);
    assert_eq!(warnings.len(), 1);
    assert_eq!(warnings[0].file_path, "/x/Y.swift");
    assert_eq!(warnings[0].line_number, 5);
    assert_eq!(warnings[0].warning_type, WarningType::DataRace);
}

#[test]
fn test_dispatch_json_lines_then_raw_fallback() {
    // Plain log text is not line-JSON, so the dispatcher falls back to
    // the raw-text strategy.
    let content = "/test/File.swift:30:5: warning: actor-isolated property 'v' can not be referenced from here";
    let warnings = dispatch_warnings(content, 3);
    assert_eq!(warnings.len(), 1);
    assert_eq!(warnings[0].line_number, 30);
    assert_eq!(warnings[0].warning_type, WarningType::ActorIsolation);
}

#[test]
fn test_context_clipping_at_file_start() {
    // A 5-line file with context width 3: line 1 has nothing before it
    // and lines 2 through 4 after it.
    let lines: Vec<String> = vec![
        "line one".to_string(),
        "line two".to_string(),
        "line three".to_string(),
        "line four".to_string(),
        "line five".to_string(),
    ];

    let ctx = CodeContext::from_lines(&lines, 1, 3);
    assert!(ctx.before.is_empty());
    assert_eq!(ctx.line, "line one");
    assert_eq!(ctx.after, vec!["line two", "line three", "line four"]);
}

#[test]
fn test_context_out_of_range_is_empty() {
    let lines: Vec<String> = vec!["only line".to_string()];

    let zero = CodeContext::from_lines(&lines, 0, 3);
    assert!(zero.before.is_empty());
    assert!(zero.line.is_empty());
    assert!(zero.after.is_empty());

    let past_end = CodeContext::from_lines(&lines, 2, 3);
    assert!(past_end.before.is_empty());
    assert!(past_end.line.is_empty());
    assert!(past_end.after.is_empty());
}

#[test]
fn test_filter_and_threshold() {
    let input = r#"{"type": "warning", "message": "data race detected on counter", "file": "/a/A.swift", "line": 1}
{"type": "warning", "message": "Type 'C' does not conform to the 'Sendable' protocol", "file": "/a/B.swift", "line": 2}"#;
    let parser = XcodeBuildParser::new(3);
    let warnings = parser.parse_stream(input).unwrap();
    assert_eq!(warnings.len(), 2);

    let filtered = filter_warnings(warnings, Some(WarningTypeFilter::DataRace));
    assert_eq!(filtered.len(), 1);
    assert_eq!(filtered[0].warning_type, WarningType::DataRace);

    assert!(check_threshold(&filtered, Some(1)));
    assert!(!check_threshold(&filtered, Some(0)));
    assert!(check_threshold(&filtered, None));
}

#[test]
fn test_warning_run_wraps_list() {
    let input = "/test/File.swift:30:5: warning: data race detected in cache";
    let parser = swiftconcur_parser::parser::rawlog::RawLogParser::new(3);
    let warnings = parser.parse_stream(input).unwrap();
    assert_eq!(warnings.len(), 1);

    let run = WarningRun::new(warnings);
    assert_eq!(run.total_warnings, 1);
    assert_eq!(run.warnings.len(), 1);
    assert_eq!(run.id.chars().count(), 36);
    assert!(run.commit_sha.is_none());
    assert!(run.branch.is_none());
    assert!(run.pull_request.is_none());
}

#[test]
fn test_error_messages() {
    let e = ParseError::InvalidFormat("xcresult JSON missing _values array".to_string());
    assert_eq!(
        e.message(),
        "invalid format: xcresult JSON missing _values array"
    );
    assert_eq!(
        ParseError::NoWarnings.message(),
        "no warnings found in input"
    );
}

#[test]
fn test_formatter_labels() {
    let md = MarkdownFormatter::new();
    assert_eq!(md.warning_type_label(&WarningType::DataRace), "Data Race");
    assert_eq!(md.severity_emoji(&Severity::Critical), "🚨");

    let slack = SlackFormatter::new();
    assert_eq!(slack.severity_color(&Severity::High), "warning");
    assert_eq!(
        slack.warning_type_label(&WarningType::SendableConformance),
        "Sendable Conformance"
    );
}
