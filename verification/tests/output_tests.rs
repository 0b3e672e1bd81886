use cargo_cost_lint::findings::{
    escape_github_message, escape_github_property, format_diagnostic, format_github_annotation, sarif_report, sarif_results, SarifRegion,
    LintFinding, OutputFormat, Span,
};
use cargo_cost_lint::run::{
    cargo_subcommand_args, emit_github_annotation, filter_findings_to_changed_files, handle_finding,
    has_error_findings, parse_dylint_output, findings_from_json_lines, decode_json_line, FindingOutput, JsonValue,
};
use cargo_cost_lint::paths::filter_files_by_changed;
use cargo_cost_lint::summary::print_findings_summary;

fn finding(name: &str, level: &str, line: usize, message: &str) -> LintFinding {
    LintFinding {
        name: name.to_string(),
        level: level.to_string(),
        file: "src/lib.rs".to_string(),
        span: Span { line_start: line, line_end: line, column_start: 1, column_end: 5 },
        message: message.to_string(),
        help: None,
        suggestion: None,
    }
}

#[test]
fn test_summary_zero_findings() {
    let output = print_findings_summary(&OutputFormat::Text, &[]);
    assert!(output.contains("No cost lints found. Clean workspace!"));
}

#[test]
fn test_summary_populated_findings() {
    let findings = vec![
        finding("lint_b", "warning", 1, "msg b"),
        finding("lint_a", "warning", 2, "msg a1"),
        finding("lint_a", "error", 3, "msg a2"),
    ];

    let output = print_findings_summary(&OutputFormat::Text, &findings);

    assert!(output.contains("Found 3 cost lint findings:"));
    assert!(output.contains("By lint name:"));
    assert!(output.contains("By severity:"));

    let idx_a = output.find("lint_a: 2").unwrap();
    let idx_b = output.find("lint_b: 1").unwrap();
    assert!(idx_a < idx_b, "lint_a should appear before lint_b due to higher count");
}

#[test]
fn test_summary_suppression_under_machine_formats() {
    let findings = vec![finding("lint_a", "warning", 1, "msg")];

    for fmt in &[OutputFormat::Json, OutputFormat::Sarif, OutputFormat::Github] {
        let output = print_findings_summary(fmt, &findings);
        assert!(output.is_empty(), "Summary should be omitted for format {:?}", fmt);
    }
}

#[test]
fn summary_text_is_exact_for_one_finding() {
    let output = print_findings_summary(&OutputFormat::Text, &[finding("lint_a", "warning", 1, "m")]);
    assert_eq!(
        output,
        "\nFound 1 cost lint finding:\n  By lint name:\n    - lint_a: 1\n  By severity:\n    - warning: 1\n"
    );
}

#[test]
fn severities_sort_by_name_descending() {
    let findings = vec![finding("a", "error", 1, "m"), finding("b", "warning", 1, "m"), finding("c", "deny", 1, "m")];
    let output = print_findings_summary(&OutputFormat::Text, &findings);
    let w = output.find("- warning: 1").unwrap();
    let e = output.find("- error: 1").unwrap();
    let d = output.find("- deny: 1").unwrap();
    assert!(w < e && e < d);
}

#[test]
fn github_escapes_follow_workflow_command_rules() {
    assert_eq!(escape_github_message("50%\r\nnext"), "50%25%0D%0Anext");
    assert_eq!(escape_github_property("a:b,c%"), "a%3Ab%2Cc%25");
}

#[test]
fn github_annotation_forms() {
    let f = finding("lint_a", "deny", 3, "bad, thing");
    assert_eq!(format_github_annotation(&f, None), "::error file=src/lib.rs,line=3,col=1::bad, thing");
    let mut g = finding("lint_a", "warning", 0, "m");
    assert_eq!(format_github_annotation(&g, None), "::warning file=src/lib.rs::m");
    g.file = String::new();
    assert_eq!(format_github_annotation(&g, None), "::warning::m");
    let h = LintFinding { file: "/work/src/x.rs".to_string(), ..finding("l", "warning", 2, "m") };
    assert_eq!(format_github_annotation(&h, Some("/work")), "::warning file=src/x.rs,line=2,col=1::m");
    assert_eq!(emit_github_annotation(&h, Some("/work")), "::warning file=src/x.rs,line=2,col=1::m\n");
}

#[test]
fn diagnostic_text_lists_location_note_help_and_suggestion() {
    let mut f = finding("lint_a", "warn", 4, "msg");
    f.help = Some("do this".to_string());
    f.suggestion = Some("x".to_string());
    assert_eq!(
        format_diagnostic(&f),
        "warning: [lint_a] msg\n  --> src/lib.rs:4:1\n  = note: msg\n  = help: do this\n  = suggestion: x"
    );
    let g = LintFinding { file: String::new(), ..finding("l", "other", 0, "m") };
    assert_eq!(format_diagnostic(&g), "note: [l] m\n  --> unknown location\n  = note: m");
}

#[test]
fn sarif_results_carry_level_uri_and_region() {
    let f = LintFinding {
        span: Span { line_start: 2, line_end: 0, column_start: 0, column_end: 9 },
        ..finding("lint_a", "deny", 2, "m")
    };
    let r = sarif_results(&[f], None);
    assert_eq!(r.len(), 1);
    assert_eq!(r[0].rule_id, "lint_a");
    assert_eq!(r[0].level, "error");
    assert_eq!(r[0].locations[0].physical_location.artifact_location.uri, "file:///src/lib.rs");
    let region = r[0].locations[0].physical_location.region.as_ref().unwrap();
    assert_eq!(region.start_line, 2);
    assert_eq!(region.start_column, None);
    assert_eq!(region.end_line, None);
    assert_eq!(region.end_column, Some(9));
}

#[test]
fn handle_finding_records_and_chooses_output() {
    let f = finding("lint_a", "warning", 1, "m");
    let mut acc = Vec::new();
    assert!(matches!(handle_finding(OutputFormat::Json, &f, &mut acc, None), FindingOutput::Json));
    assert!(matches!(handle_finding(OutputFormat::Sarif, &f, &mut acc, None), FindingOutput::Nothing));
    match handle_finding(OutputFormat::Text, &f, &mut acc, None) {
        FindingOutput::Line(l) => assert_eq!(l, format_diagnostic(&f)),
        _ => panic!("expected a line"),
    }
    match handle_finding(OutputFormat::Github, &f, &mut acc, None) {
        FindingOutput::Line(l) => assert_eq!(l, format_github_annotation(&f, None)),
        _ => panic!("expected a line"),
    }
    assert_eq!(acc.len(), 4);
}

#[test]
fn errors_and_denials_fail_the_run() {
    assert!(!has_error_findings(&[finding("a", "warning", 1, "m")]));
    assert!(has_error_findings(&[finding("a", "warning", 1, "m"), finding("b", "deny", 1, "m")]));
    assert!(has_error_findings(&[finding("a", "error", 1, "m")]));
    assert!(!has_error_findings(&[]));
}

#[test]
fn cargo_subcommand_name_is_dropped() {
    let args = vec!["cost-lint".to_string(), "--package".to_string(), "x".to_string()];
    assert_eq!(cargo_subcommand_args(&args), vec!["--package".to_string(), "x".to_string()]);
    let args = vec!["--package".to_string()];
    assert_eq!(cargo_subcommand_args(&args), vec!["--package".to_string()]);
}

#[test]
fn findings_are_kept_only_in_changed_files() {
    let a = LintFinding { file: "/repo/src/lib.rs".to_string(), ..finding("a", "warning", 1, "m") };
    let b = LintFinding { file: "/repo/src/other.rs".to_string(), ..finding("b", "warning", 1, "m") };
    let kept = filter_findings_to_changed_files(&[a, b], &["src/lib.rs".to_string()], "/repo");
    assert_eq!(kept.len(), 1);
    assert_eq!(kept[0].name, "a");
    let none = filter_findings_to_changed_files(&[finding("c", "warning", 1, "m")], &[], "/repo");
    assert!(none.is_empty());
}

fn s(x: &str) -> JsonValue {
    JsonValue::Str(x.to_string())
}

fn obj(fields: Vec<(&str, JsonValue)>) -> JsonValue {
    JsonValue::Object(fields.into_iter().map(|(k, v)| (k.to_string(), v)).collect())
}

#[test]
fn compiler_messages_become_findings() {
    let span = obj(vec![
        ("file_name", s("src/lib.rs")),
        ("line_start", JsonValue::Number(Some(7))),
        ("line_end", JsonValue::Number(Some(8))),
        ("column_start", JsonValue::Number(Some(3))),
        ("column_end", JsonValue::Number(None)),
    ]);
    let msg = obj(vec![
        ("code", obj(vec![("code", s("soroban_storage_in_loop"))])),
        ("level", s("error")),
        ("message", s("storage in loop")),
        ("spans", JsonValue::Array(vec![span])),
    ]);
    let line = obj(vec![("reason", s("compiler-message")), ("message", msg)]);
    let no_code = obj(vec![("reason", s("compiler-message")), ("message", obj(vec![("level", s("warning"))]))]);
    let other = obj(vec![("reason", s("build-finished"))]);
    let bare = obj(vec![
        ("reason", s("compiler-message")),
        ("message", obj(vec![("code", obj(vec![("code", s("unwrap_on_storage_get"))]))])),
    ]);
    let found = findings_from_json_lines(&[None, Some(line), Some(no_code), Some(other), Some(bare)]);
    assert_eq!(found.len(), 2);
    assert_eq!(found[0].name, "soroban_storage_in_loop");
    assert_eq!(found[0].level, "error");
    assert_eq!(found[0].file, "src/lib.rs");
    assert_eq!(found[0].message, "storage in loop");
    assert_eq!(found[0].span, Span { line_start: 7, line_end: 8, column_start: 3, column_end: 0 });
    assert_eq!(found[1].name, "unwrap_on_storage_get");
    assert_eq!(found[1].level, "warning");
    assert_eq!(found[1].file, "");
    assert_eq!(found[1].message, "");
}

#[test]
fn raw_compiler_output_is_decoded_line_by_line() {
    let out = "   Compiling demo v0.1.0\n{\"reason\":\"compiler-message\",\"message\":{\"code\":{\"code\":\"soroban_storage_in_loop\"},\"level\":\"error\",\"message\":\"storage in loop\",\"spans\":[{\"file_name\":\"src/lib.rs\",\"line_start\":7,\"line_end\":8,\"column_start\":3,\"column_end\":9}]}}\n{\"reason\":\"build-finished\",\"success\":true}\nnot json at all\n";
    let found = parse_dylint_output(out);
    assert_eq!(found.len(), 1);
    assert_eq!(found[0].name, "soroban_storage_in_loop");
    assert_eq!(found[0].level, "error");
    assert_eq!(found[0].file, "src/lib.rs");
    assert_eq!(found[0].message, "storage in loop");
    assert_eq!(found[0].span, Span { line_start: 7, line_end: 8, column_start: 3, column_end: 9 });
    assert!(parse_dylint_output("").is_empty());
    assert!(parse_dylint_output("warning: unused\nerror: aborting").is_empty());
}

#[test]
fn json_lines_decode_to_values() {
    assert!(decode_json_line("not json").is_none());
    match decode_json_line("{\"a\": [1, \"x\", null, true, -2]}") {
        Some(JsonValue::Object(fields)) => {
            assert_eq!(fields.len(), 1);
            assert_eq!(fields[0].0, "a");
            match &fields[0].1 {
                JsonValue::Array(items) => {
                    assert_eq!(items.len(), 5);
                    assert!(matches!(items[0], JsonValue::Number(Some(1))));
                    assert!(matches!(&items[1], JsonValue::Str(x) if x == "x"));
                    assert!(matches!(items[2], JsonValue::Null));
                    assert!(matches!(items[3], JsonValue::Bool(true)));
                    assert!(matches!(items[4], JsonValue::Number(None)));
                }
                _ => panic!("expected an array"),
            }
        }
        _ => panic!("expected an object"),
    }
}

#[test]
fn empty_lint_code_is_not_a_finding() {
    let line = obj(vec![
        ("reason", s("compiler-message")),
        ("message", obj(vec![("code", obj(vec![("code", s(""))]))])),
    ]);
    assert!(findings_from_json_lines(&[Some(line)]).is_empty());
}

/// Findings are kept by the same rule as files: the path relative to the root must be a changed path.
#[test]
fn findings_and_files_are_judged_alike() {
    let files = vec!["/repo/src/lib.rs".to_string(), "/repo/other/lib.rs".to_string(), "/repo/src/main.rs".to_string()];
    let findings: Vec<LintFinding> = files
        .iter()
        .map(|f| LintFinding { file: f.clone(), ..finding("a", "warning", 1, "m") })
        .collect();
    let changed = vec!["src/lib.rs".to_string()];
    let kept: Vec<String> = filter_findings_to_changed_files(&findings, &changed, "/repo").into_iter().map(|f| f.file).collect();
    assert_eq!(kept, filter_files_by_changed(&files, &changed, "/repo"));
    assert_eq!(kept, vec!["/repo/src/lib.rs".to_string()]);
}

/// Reads an escaped message back, left to right.
fn unescape(t: &str) -> String {
    let mut out = String::new();
    let cs: Vec<char> = t.chars().collect();
    let mut i = 0;
    while i < cs.len() {
        let three: String = cs[i..(i + 3).min(cs.len())].iter().collect();
        if three == "%25" {
            out.push('%');
            i += 3;
        } else if three == "%0D" {
            out.push('\r');
            i += 3;
        } else if three == "%0A" {
            out.push('\n');
            i += 3;
        } else {
            out.push(cs[i]);
            i += 1;
        }
    }
    out
}

#[test]
fn escaped_messages_read_back_to_the_original() {
    for s in ["50%\r\nnext", "%0A literally", "%25%", "", "plain text", "a\n\n%%\rb"] {
        let e = escape_github_message(s);
        assert!(!e.contains('\r') && !e.contains('\n'));
        assert_eq!(unescape(&e), s);
    }
    assert_eq!(escape_github_message("%0A"), "%250A");
    assert_eq!(escape_github_message("no specials"), "no specials");
}

#[test]
fn sarif_report_frames_one_run_of_results() {
    let f = LintFinding {
        name: "lint_a".to_string(),
        level: "deny".to_string(),
        file: "src/lib.rs".to_string(),
        span: Span { line_start: 3, line_end: 3, column_start: 0, column_end: 9 },
        message: "m".to_string(),
        help: None,
        suggestion: None,
    };
    let report = sarif_report(&[f], None);
    assert_eq!(report.schema, "https://schemastore.azurewebsites.net/schemas/json/sarif-2.1.0-rtm.5.json");
    assert_eq!(report.version, "2.1.0");
    assert_eq!(report.runs.len(), 1);
    let run = &report.runs[0];
    assert_eq!(run.tool.driver.name, "cargo-cost-lint");
    assert_eq!(run.tool.driver.version, "0.1.0");
    assert_eq!(run.tool.driver.information_uri.as_deref(), Some("https://github.com/Tollcraft/soroban-cost-linter"));
    assert!(run.tool.driver.rules.is_empty());
    assert_eq!(run.results.len(), 1);
    let r = &run.results[0];
    assert_eq!(r.rule_id, "lint_a");
    assert_eq!(r.level, "error");
    assert_eq!(r.message.text, "m");
    assert_eq!(r.locations.len(), 1);
    assert_eq!(r.locations[0].physical_location.artifact_location.uri, "file:///src/lib.rs");
    assert_eq!(
        r.locations[0].physical_location.region,
        Some(SarifRegion { start_line: 3, start_column: None, end_line: Some(3), end_column: Some(9) })
    );
    let empty = sarif_report(&[], Some("/repo"));
    assert_eq!(empty.runs.len(), 1);
    assert!(empty.runs[0].results.is_empty());
}
