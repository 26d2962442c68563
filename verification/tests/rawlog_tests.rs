use swiftconcur_parser::models::warning::{Severity, WarningType};
use swiftconcur_parser::parser::rawlog::RawLogParser;

#[test]
fn test_parse_actor_isolation_warning() {
    let log_content = r#"
/Users/runner/work/ConcurCLIDemo/ConcurCLIDemo/ConcurDemo/Item.swift:37:24: warning: main actor-isolated property 'count' can not be mutated from a Sendable closure; this is an error in the Swift 6 language mode
        "#.trim();

    let parser = RawLogParser::new(3);
    let warnings = parser.parse_stream(log_content).unwrap();

    assert_eq!(warnings.len(), 1);
    let warning = &warnings[0];

    assert_eq!(warning.warning_type, WarningType::ActorIsolation);
    assert_eq!(warning.severity, Severity::High);
    assert_eq!(warning.line_number, 37);
    assert_eq!(warning.column_number, Some(24));
    assert!(warning.file_path.ends_with("Item.swift"));
    assert!(warning.message.contains("main actor-isolated"));
    assert!(warning.suggested_fix.is_some());
}

#[test]
fn test_parse_sendable_conformance_warning() {
    let log_content = r#"
/test/NetworkService.swift:78:15: warning: Type 'MyClass' does not conform to the 'Sendable' protocol
        "#.trim();

    let parser = RawLogParser::new(2);
    let warnings = parser.parse_stream(log_content).unwrap();

    assert_eq!(warnings.len(), 1);
    let warning = &warnings[0];

    assert_eq!(warning.warning_type, WarningType::SendableConformance);
    assert_eq!(warning.severity, Severity::High);
    assert_eq!(warning.line_number, 78);
    assert_eq!(warning.column_number, Some(15));
    assert!(warning.message.contains("does not conform to the 'Sendable'"));
}

#[test]
fn rawlog_test_parse_data_race_warning() {
    let log_content = r#"
/workspace/src/ConcurrentCode.swift:120:8: warning: data race detected between concurrent accesses to shared mutable state
        "#.trim();

    let parser = RawLogParser::new(2);
    let warnings = parser.parse_stream(log_content).unwrap();

    assert_eq!(warnings.len(), 1);
    let warning = &warnings[0];

    assert_eq!(warning.warning_type, WarningType::DataRace);
    assert_eq!(warning.severity, Severity::Critical);
    assert_eq!(warning.line_number, 120);
    assert_eq!(warning.column_number, Some(8));
    assert!(warning.message.contains("data race"));
}

#[test]
fn test_ignore_non_swift_files() {
    let log_content = r#"
/test/SomeClass.m:45:12: warning: some objective-c warning
/test/Main.swift:30:5: warning: main actor-isolated property cannot be referenced
/test/header.h:10:1: warning: deprecated function
        "#
    .trim();

    let parser = RawLogParser::new(2);
    let warnings = parser.parse_stream(log_content).unwrap();

    // Should only find the Swift concurrency warning
    assert_eq!(warnings.len(), 1);
    assert!(warnings[0].file_path.contains("Main.swift"));
    assert_eq!(warnings[0].warning_type, WarningType::ActorIsolation);
}

#[test]
fn test_ignore_non_concurrency_warnings() {
    let log_content = r#"
/test/File.swift:25:10: warning: variable 'unused' was never used; consider replacing with '_' or removing it
/test/File.swift:30:5: warning: actor-isolated property 'shared' can not be referenced from a Sendable closure
/test/File.swift:35:8: warning: function 'deprecated()' is deprecated
        "#.trim();

    let parser = RawLogParser::new(2);
    let warnings = parser.parse_stream(log_content).unwrap();

    // Should only find the actor isolation warning
    assert_eq!(warnings.len(), 1);
    assert_eq!(warnings[0].line_number, 30);
    assert_eq!(warnings[0].warning_type, WarningType::ActorIsolation);
}

#[test]
fn rawlog_test_multiple_warnings() {
    let log_content = r#"
Build started
/project/Actor.swift:42:15: warning: actor-isolated property 'data' can not be referenced from a non-isolated context
Some build output
/project/Service.swift:78:22: warning: Type 'NetworkManager' does not conform to the 'Sendable' protocol
More output
/project/Concurrent.swift:95:10: warning: data race condition detected in shared memory access
Build completed
        "#.trim();

    let parser = RawLogParser::new(1);
    let warnings = parser.parse_stream(log_content).unwrap();

    assert_eq!(warnings.len(), 3);

    // Verify all warnings are correctly parsed
    assert_eq!(warnings[0].warning_type, WarningType::ActorIsolation);
    assert_eq!(warnings[0].line_number, 42);

    assert_eq!(warnings[1].warning_type, WarningType::SendableConformance);
    assert_eq!(warnings[1].line_number, 78);

    assert_eq!(warnings[2].warning_type, WarningType::DataRace);
    assert_eq!(warnings[2].line_number, 95);
}

#[test]
fn rawlog_test_stable_id_generation() {
    let log_content = r#"
/workspace/Sources/MyApp/File.swift:42:15: warning: actor-isolated property 'shared' can not be referenced
        "#.trim();

    let parser = RawLogParser::new(2);
    let warnings = parser.parse_stream(log_content).unwrap();

    assert_eq!(warnings.len(), 1);
    let warning = &warnings[0];
    let expected_id = format!(
        "{}:{}:{}",
        "/workspace/Sources/MyApp/File.swift",
        42,
        "actor-isolated property 'shared' can not be referenced".len()
    );
    assert_eq!(warning.id, expected_id);
}

#[test]
fn test_malformed_lines() {
    let log_content = r#"
This is not a warning line
File.swift: some incomplete line
/test/File.swift:invalid:25: warning: bad line format
/test/Valid.swift:30:5: warning: actor-isolated property cannot be referenced
        "#
    .trim();

    let parser = RawLogParser::new(2);
    let warnings = parser.parse_stream(log_content).unwrap();

    // Should only parse the valid warning
    assert_eq!(warnings.len(), 1);
    assert_eq!(warnings[0].line_number, 30);
    assert!(warnings[0].file_path.contains("Valid.swift"));
}

#[test]
fn test_empty_input() {
    let log_content = "";

    let parser = RawLogParser::new(2);
    let warnings = parser.parse_stream(log_content).unwrap();

    assert_eq!(warnings.len(), 0);
}

#[test]
fn test_context_extraction_with_missing_file() {
    let log_content = r#"
/nonexistent/File.swift:42:15: warning: actor-isolated property 'test' can not be referenced
        "#
    .trim();

    let parser = RawLogParser::new(2);
    let warnings = parser.parse_stream(log_content).unwrap();

    assert_eq!(warnings.len(), 1);
    let warning = &warnings[0];

    // Should handle missing file gracefully
    assert!(warning.code_context.before.is_empty());
    assert!(warning.code_context.line.is_empty());
    assert!(warning.code_context.after.is_empty());
}

#[test]
fn test_suggested_fixes() {
    let test_cases = vec![
        (
            "/test/File.swift:30:5: warning: main actor-isolated property 'count' can not be mutated from a Sendable closure",
            "Consider using 'await' or @MainActor to safely mutate the actor-isolated property."
        ),
        (
            "/test/File.swift:42:8: warning: actor-isolated property 'data' can not be referenced from a non-isolated context",
            "Use 'await' to access the actor-isolated member, or move this code into an actor context."
        ),
        (
            "/test/File.swift:55:12: warning: Type 'MyClass' does not conform to the 'Sendable' protocol",
            "Add 'Sendable' conformance to the type or use '@unchecked Sendable' if thread-safe."
        ),
        (
            "/test/File.swift:70:20: warning: data race condition detected in concurrent memory access",
            "Protect shared mutable state with proper synchronization (actors, locks, or atomic operations)."
        ),
    ];

    let parser = RawLogParser::new(1);

    for (log_line, expected_fix_snippet) in test_cases {
        let warnings = parser.parse_stream(log_line).unwrap();

        assert_eq!(warnings.len(), 1);
        let fix = warnings[0].suggested_fix.as_ref().unwrap();
        assert!(
            fix.contains(expected_fix_snippet),
            "Expected fix to contain '{}', but got '{}'",
            expected_fix_snippet,
            fix
        );
    }
}

#[test]
fn test_sendable_line_fields() {
    // One raw-text line carrying a thread-safety conformance diagnostic.
    let line = "/test/File.swift:30:5: warning: Type 'MyClass' does not conform to the 'Sendable' protocol";
    let parser = RawLogParser::new(3);
    let warnings = parser.parse_stream(line).unwrap();

    assert_eq!(warnings.len(), 1);
    let warning = &warnings[0];
    assert!(warning.file_path.ends_with("File.swift"));
    assert_eq!(warning.line_number, 30);
    assert_eq!(warning.column_number, Some(5));
    assert_eq!(warning.warning_type, WarningType::SendableConformance);
}

#[test]
fn test_line_number_overflow_is_skipped() {
    // A line number that cannot fit the machine word makes the line
    // unusable, so it is skipped rather than mangled.
    let line = "/test/File.swift:99999999999999999999999:5: warning: data race detected";
    let parser = RawLogParser::new(1);
    let warnings = parser.parse_stream(line).unwrap();
    assert_eq!(warnings.len(), 0);
}
