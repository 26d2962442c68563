use swiftconcur_parser::models::warning::{Severity, WarningType};
use swiftconcur_parser::parser::patterns::categorize_warning;

#[test]
fn test_actor_isolation_patterns() {
    let messages = [
        "actor-isolated property 'shared' can not be referenced from a non-isolated context",
        "actor-isolated method 'updateData' cannot be called from non-isolated context",
        "actor-isolated instance method 'process' can not be referenced",
        "Main actor-isolated property cannot be accessed",
    ];

    for (i, message) in messages.iter().enumerate() {
        let (warning_type, severity) = categorize_warning(message);
        println!("Message {i}: {message} -> {warning_type:?}");
        assert_eq!(
            warning_type,
            WarningType::ActorIsolation,
            "Failed for message: {message}"
        );
        assert!(matches!(severity, Severity::High | Severity::Medium));
    }
}

#[test]
fn test_sendable_patterns() {
    let messages = vec![
        "Type 'MyClass' does not conform to the 'Sendable' protocol",
        "capture of 'self' with non-sendable type requires 'Sendable' conformance",
        "passing non-sendable parameter to async function",
    ];

    for message in messages {
        let (warning_type, _) = categorize_warning(message);
        assert_eq!(warning_type, WarningType::SendableConformance);
    }
}

#[test]
fn test_data_race_patterns() {
    let messages = vec![
        "data race detected in concurrent access to variable",
        "race condition in shared mutable state",
        "mutation of captured var in concurrently-executing code",
    ];

    for message in messages {
        let (warning_type, severity) = categorize_warning(message);
        assert_eq!(warning_type, WarningType::DataRace);
        assert_eq!(severity, Severity::Critical);
    }
}

#[test]
fn test_data_race_wins_over_actor_isolation() {
    // A message carrying both vocabularies classifies as the more
    // critical data race, never as actor isolation.
    let message =
        "data race on actor-isolated property 'shared' that can not be referenced concurrently";
    let (warning_type, severity) = categorize_warning(message);
    assert_eq!(warning_type, WarningType::DataRace);
    assert_eq!(severity, Severity::Critical);
}

#[test]
fn test_task_and_performance_patterns() {
    let (t1, s1) = categorize_warning("detached task escaped its scope");
    assert_eq!(t1, WarningType::ActorIsolation);
    assert_eq!(s1, Severity::Medium);

    let (t2, s2) = categorize_warning("potential deadlock in async code");
    assert_eq!(t2, WarningType::PerformanceRegression);
    assert_eq!(s2, Severity::Medium);

    let (t3, s3) = categorize_warning("a task was silently cancelled here");
    assert_eq!(t3, WarningType::ActorIsolation);
    assert_eq!(s3, Severity::Medium);

    let (t4, s4) = categorize_warning("excessive await points in this loop");
    assert_eq!(t4, WarningType::PerformanceRegression);
    assert_eq!(s4, Severity::Medium);
}

#[test]
fn test_unrelated_message_is_unknown() {
    let (warning_type, severity) = categorize_warning("variable 'unused' was never used");
    assert_eq!(warning_type, WarningType::Unknown);
    assert_eq!(severity, Severity::Low);
}

#[test]
fn test_flexible_whitespace_in_phrases() {
    // Phrase words may be separated by any run of whitespace, and the
    // "cannot" clause may be written glued or split.
    let (t1, _) = categorize_warning("data  race detected");
    assert_eq!(t1, WarningType::DataRace);

    let (t2, _) = categorize_warning("actor-isolated var 'x' can   not be mutated");
    assert_eq!(t2, WarningType::ActorIsolation);

    let (t3, _) = categorize_warning("actor-isolated let 'y' cannot be accessed");
    assert_eq!(t3, WarningType::ActorIsolation);
}

#[test]
fn test_case_insensitive_classification() {
    let (warning_type, severity) = categorize_warning("DATA RACE detected");
    assert_eq!(warning_type, WarningType::DataRace);
    assert_eq!(severity, Severity::Critical);
}
