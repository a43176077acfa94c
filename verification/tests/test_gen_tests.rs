use git_helper::test_gen::{parse_generated_sections, sanitize_output_path, build_test_gen_prompt, TestGenError};

#[test]
fn parses_generated_files_and_summary() {
    let parsed = parse_generated_sections(
        "=== FILE: tests/test_login.py ===\n```python\nassert True\n```\n=== SUMMARY ===\ncreated 1 file\n",
    );

    assert_eq!(parsed.files.len(), 1);
    assert_eq!(parsed.files[0].path, "tests/test_login.py");
    assert_eq!(parsed.files[0].content, "assert True");
    assert_eq!(parsed.summary.as_deref(), Some("created 1 file"));
}

#[test]
fn sanitize_joins_segments_under_base() {
    let path = sanitize_output_path("out", "tests\\unit/./test_a.py").unwrap();
    assert_eq!(path, "out/tests/unit/test_a.py");
}

#[test]
fn sanitize_refuses_parent_segments() {
    assert_eq!(
        sanitize_output_path("out", "../escape.py"),
        Err(TestGenError::PathEscapesOutputDir)
    );
}

#[test]
fn test_gen_prompt_puts_task_prompt_first() {
    let prompt = build_test_gen_prompt("focus on login", "Rust", "tests", "+fn a() {}");
    assert!(prompt.starts_with("focus on login\n\n"));
    assert!(prompt.contains("Rust"));
    assert!(prompt.contains("+fn a() {}"));
    assert!(!prompt.contains("{language}"));
}
