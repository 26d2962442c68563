use swiftconcur_parser::error::ParseError;
use swiftconcur_parser::models::warning::{Severity, WarningType};
use swiftconcur_parser::parser::xcresult::XcresultParser;

#[test]
fn test_parse_xcresult_json() {
    let json_content = r#"
        {
            "_values": [
                {
                    "documentLocationInCreatingWorkspace": {
                        "url": {
                            "_value": "file:///Users/test/Item.swift#EndingColumnNumber=23&EndingLineNumber=36&StartingColumnNumber=23&StartingLineNumber=36"
                        }
                    },
                    "issueType": {
                        "_value": "Swift Compiler Warning"
                    },
                    "message": {
                        "_value": "Main actor-isolated property 'count' can not be mutated from a Sendable closure"
                    }
                }
            ]
        }
        "#;

    let parser = XcresultParser::new(3);
    let warnings = parser.parse_json(json_content).unwrap();

    assert_eq!(warnings.len(), 1);
    let warning = &warnings[0];
    assert_eq!(warning.line_number, 36);
    assert!(warning.file_path.ends_with("Item.swift"));
    assert_eq!(warning.warning_type, WarningType::ActorIsolation);
    assert!(warning.message.contains("Main actor-isolated"));
}

#[test]
fn test_parse_sendable_warning() {
    let json_content = r#"
        {
            "_values": [
                {
                    "documentLocationInCreatingWorkspace": {
                        "url": {
                            "_value": "file:///test/NetworkService.swift#EndingLineNumber=78&StartingLineNumber=78"
                        }
                    },
                    "issueType": {
                        "_value": "Swift Compiler Warning"
                    },
                    "message": {
                        "_value": "Type 'MyClass' does not conform to the 'Sendable' protocol"
                    }
                }
            ]
        }
        "#;

    let parser = XcresultParser::new(2);
    let warnings = parser.parse_json(json_content).unwrap();

    assert_eq!(warnings.len(), 1);
    let warning = &warnings[0];
    assert_eq!(warning.warning_type, WarningType::SendableConformance);
    assert_eq!(warning.severity, Severity::High);
    assert_eq!(warning.line_number, 78);
}

#[test]
fn xcresult_test_parse_data_race_warning() {
    let json_content = r#"
        {
            "_values": [
                {
                    "documentLocationInCreatingWorkspace": {
                        "url": {
                            "_value": "file:///test/ConcurrentCode.swift#EndingLineNumber=120&StartingLineNumber=120"
                        }
                    },
                    "issueType": {
                        "_value": "Swift Compiler Warning"
                    },
                    "message": {
                        "_value": "data race detected: concurrent access to shared mutable state"
                    }
                }
            ]
        }
        "#;

    let parser = XcresultParser::new(2);
    let warnings = parser.parse_json(json_content).unwrap();

    assert_eq!(warnings.len(), 1);
    let warning = &warnings[0];
    assert_eq!(warning.warning_type, WarningType::DataRace);
    assert_eq!(warning.severity, Severity::Critical);
}

#[test]
fn test_skip_non_warning_issues() {
    let json_content = r#"
        {
            "_values": [
                {
                    "documentLocationInCreatingWorkspace": {
                        "url": {
                            "_value": "file:///test/Error.swift#EndingLineNumber=25&StartingLineNumber=25"
                        }
                    },
                    "issueType": {
                        "_value": "Swift Compiler Error"
                    },
                    "message": {
                        "_value": "Use of unresolved identifier 'undefined'"
                    }
                },
                {
                    "documentLocationInCreatingWorkspace": {
                        "url": {
                            "_value": "file:///test/Warning.swift#EndingLineNumber=30&StartingLineNumber=30"
                        }
                    },
                    "issueType": {
                        "_value": "Swift Compiler Warning"
                    },
                    "message": {
                        "_value": "Variable 'unused' was never used"
                    }
                }
            ]
        }
        "#;

    let parser = XcresultParser::new(2);
    let warnings = parser.parse_json(json_content).unwrap();

    // Should skip both: error and non-concurrency warning
    assert_eq!(warnings.len(), 0);
}

#[test]
fn test_error_issue_skipped_regardless_of_message() {
    // A non-"warning" issue type is skipped even when its message
    // carries concurrency vocabulary.
    let json_content = r#"
        {
            "_values": [
                {
                    "documentLocationInCreatingWorkspace": {
                        "url": {
                            "_value": "file:///test/Race.swift#StartingLineNumber=12"
                        }
                    },
                    "issueType": {
                        "_value": "Swift Compiler Error"
                    },
                    "message": {
                        "_value": "data race detected in concurrent access"
                    }
                }
            ]
        }
        "#;

    let parser = XcresultParser::new(2);
    let warnings = parser.parse_json(json_content).unwrap();
    assert_eq!(warnings.len(), 0);
}

#[test]
fn test_malformed_json() {
    let parser = XcresultParser::new(2);

    let malformed_json = r#"{"invalid": json}"#;
    assert!(parser.parse_json(malformed_json).is_err());

    let missing_values = r#"{"wrong_structure": []}"#;
    assert!(parser.parse_json(missing_values).is_err());
}

#[test]
fn test_error_variants() {
    let parser = XcresultParser::new(2);

    // Undecodable input raises the JSON error ...
    let malformed_json = r#"{"invalid": json}"#;
    assert!(matches!(
        parser.parse_json(malformed_json),
        Err(ParseError::JsonError(_))
    ));

    // ... and a decodable document without an issues array raises the
    // format error.
    let missing_values = r#"{"wrong_structure": []}"#;
    assert!(matches!(
        parser.parse_json(missing_values),
        Err(ParseError::InvalidFormat(_))
    ));
}

#[test]
fn test_url_parsing_edge_cases() {
    let json_content = r#"
        {
            "_values": [
                {
                    "documentLocationInCreatingWorkspace": {
                        "url": {
                            "_value": "invalid-url-format"
                        }
                    },
                    "issueType": {
                        "_value": "Swift Compiler Warning"
                    },
                    "message": {
                        "_value": "actor-isolated property test"
                    }
                }
            ]
        }
        "#;

    let parser = XcresultParser::new(2);
    let warnings = parser.parse_json(json_content).unwrap();

    // Should skip warnings with unparseable URLs
    assert_eq!(warnings.len(), 0);
}

#[test]
fn test_empty_xcresult() {
    let json_content = r#"{"_values": []}"#;

    let parser = XcresultParser::new(2);
    let warnings = parser.parse_json(json_content).unwrap();

    assert_eq!(warnings.len(), 0);
}

#[test]
fn xcresult_test_multiple_warnings() {
    let json_content = r#"
        {
            "_values": [
                {
                    "documentLocationInCreatingWorkspace": {
                        "url": {
                            "_value": "file:///test/File1.swift#EndingLineNumber=42&StartingLineNumber=42"
                        }
                    },
                    "issueType": {
                        "_value": "Swift Compiler Warning"
                    },
                    "message": {
                        "_value": "actor-isolated property 'shared' can not be referenced"
                    }
                },
                {
                    "documentLocationInCreatingWorkspace": {
                        "url": {
                            "_value": "file:///test/File2.swift#EndingLineNumber=78&StartingLineNumber=78"
                        }
                    },
                    "issueType": {
                        "_value": "Swift Compiler Warning"
                    },
                    "message": {
                        "_value": "Type 'MyClass' does not conform to the 'Sendable' protocol"
                    }
                }
            ]
        }
        "#;

    let parser = XcresultParser::new(2);
    let warnings = parser.parse_json(json_content).unwrap();

    assert_eq!(warnings.len(), 2);
    assert_eq!(warnings[0].warning_type, WarningType::ActorIsolation);
    assert_eq!(warnings[1].warning_type, WarningType::SendableConformance);
}

#[test]
fn xcresult_test_stable_id_generation() {
    let json_content = r#"
        {
            "_values": [
                {
                    "documentLocationInCreatingWorkspace": {
                        "url": { "_value": "file:///workspace/Sources/MyApp/File1.swift#EndingLineNumber=42&StartingLineNumber=42" }
                    },
                    "issueType": { "_value": "Swift Compiler Warning" },
                    "message": { "_value": "actor-isolated property 'shared' can not be referenced" }
                }
            ]
        }
        "#;

    let parser = XcresultParser::new(2);
    let warnings = parser.parse_json(json_content).unwrap();

    assert_eq!(warnings.len(), 1);
    let w = &warnings[0];
    let expected = format!(
        "{}:{}:{}",
        "/workspace/Sources/MyApp/File1.swift",
        42,
        "actor-isolated property 'shared' can not be referenced".len()
    );
    assert_eq!(w.id, expected);
}

#[test]
fn test_xcresult_url_parsing() {
    let parser = XcresultParser::new(3);
    let json_content = r#"{
            "_values": [
                {
                    "documentLocationInCreatingWorkspace": {
                        "url": {
                            "_value": "file:///Users/test/MyProject/Sources/App/Controller.swift#EndingColumnNumber=25&EndingLineNumber=123&StartingColumnNumber=10&StartingLineNumber=123"
                        }
                    },
                    "issueType": {
                        "_value": "Swift Compiler Warning"
                    },
                    "message": {
                        "_value": "actor-isolated method 'process' cannot be called from non-isolated context"
                    }
                }
            ]
        }"#;

    let warnings = parser.parse_json(json_content).unwrap();
    assert_eq!(warnings.len(), 1);

    let warning = &warnings[0];
    assert_eq!(warning.line_number, 123);
    assert!(warning.file_path.ends_with("Controller.swift"));
    assert_eq!(warning.warning_type, WarningType::ActorIsolation);
}

#[test]
fn test_xcresult_missing_url() {
    let parser = XcresultParser::new(3);
    let json_content = r#"{
            "_values": [
                {
                    "documentLocationInCreatingWorkspace": {
                        "url": {
                            "_value": "invalid-url-format"
                        }
                    },
                    "issueType": {
                        "_value": "Swift Compiler Warning"
                    },
                    "message": {
                        "_value": "actor-isolated property test"
                    }
                }
            ]
        }"#;

    let warnings = parser.parse_json(json_content).unwrap();
    // Should skip warnings with unparseable URLs
    assert_eq!(warnings.len(), 0);
}

#[test]
fn test_xcresult_malformed_json() {
    let parser = XcresultParser::new(3);
    let malformed_json = r#"{"invalid": "json", "missing_values"}"#;

    let result = parser.parse_json(malformed_json);
    assert!(result.is_err());
}

#[test]
fn test_alternate_location_keys() {
    // The historical location key paths are each honored.
    let parser = XcresultParser::new(2);

    let with_document_url = r#"{
            "_values": [
                {
                    "documentURL": { "_value": "file:///test/A.swift#line=7" },
                    "issueType": { "_value": "warning" },
                    "message": { "_value": "data race detected" }
                }
            ]
        }"#;
    let warnings = parser.parse_json(with_document_url).unwrap();
    assert_eq!(warnings.len(), 1);
    assert_eq!(warnings[0].line_number, 7);
    assert_eq!(warnings[0].file_path, "/test/A.swift");

    let with_document_location = r#"{
            "_values": [
                {
                    "documentLocation": { "url": { "_value": "file:///test/B.swift#line=9" } },
                    "issueType": { "_value": "warning" },
                    "message": { "_value": "race condition found" }
                }
            ]
        }"#;
    let warnings = parser.parse_json(with_document_location).unwrap();
    assert_eq!(warnings.len(), 1);
    assert_eq!(warnings[0].line_number, 9);

    let with_workspace_location = r#"{
            "_values": [
                {
                    "documentLocationInWorkspace": { "url": { "_value": "file:///test/C.swift#line=11" } },
                    "issueType": { "_value": "warning" },
                    "message": { "_value": "concurrent access detected" }
                }
            ]
        }"#;
    let warnings = parser.parse_json(with_workspace_location).unwrap();
    assert_eq!(warnings.len(), 1);
    assert_eq!(warnings[0].line_number, 11);
}

#[test]
fn test_bare_top_level_array() {
    // A bare top-level array counts as the issues array.  Such a
    // document never sniffs as the tree format at the dispatcher, but
    // the parser accepts it directly.
    let parser = XcresultParser::new(2);
    let json_content = r#"[
            {
                "documentURL": { "_value": "file:///test/D.swift#line=3" },
                "issueType": { "_value": "warning" },
                "message": { "_value": "data race detected" }
            }
        ]"#;
    let warnings = parser.parse_json(json_content).unwrap();
    assert_eq!(warnings.len(), 1);
    assert_eq!(warnings[0].line_number, 3);

    // This format never carries a column or a suggested fix.
    assert_eq!(warnings[0].column_number, None);
    assert_eq!(warnings[0].suggested_fix, None);
}
