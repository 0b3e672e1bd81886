//! One linter run: the command line, reading findings out of the compiler's
//! JSON messages, and deciding what to print and how the run ends.

use vstd::prelude::*;

use crate::findings::{format_diagnostic, format_github_annotation, diagnostic_text, github_annotation_text,
    github_property_escape, github_relative_file, is_error_level, level_is_error, LintFinding, OutputFormat, Span};
use crate::paths::{changed_files, file_changed, is_file_changed};
use crate::text::{lines_of, owned, push_str, split_lines, str_eq};

verus! {

/// The command line of `cargo cost-lint`.
#[derive(Clone, Debug)]
pub struct Cli {
    /// Output format for findings.
    pub format: OutputFormat,
    /// Print the lint inventory instead of linting.
    pub list_lints: bool,
    /// Reuse and record results in the cache.
    pub cache: bool,
    /// Where cached results live.
    pub cache_dir: String,
    /// Only report findings in files changed against the default branch.
    pub diff_only: bool,
    /// Arguments handed on to cargo.
    pub cargo_args: Vec<String>,
}

/// The arguments handed to cargo: the command line's trailing arguments
/// without the leading `cost-lint` that cargo inserts for a subcommand.
pub open spec fn forwarded_args(args: Seq<String>) -> Seq<String> {
    if args.len() > 0 && args[0]@ == "cost-lint"@ {
        args.drop_first()
    } else {
        args
    }
}

/// Drops the `cost-lint` that cargo passes first when run as `cargo cost-lint`.
pub fn cargo_subcommand_args(args: &Vec<String>) -> (res: Vec<String>)
    ensures
        res@.map_values(|a: String| a@) == forwarded_args(args@).map_values(|a: String| a@),
{
    let mut out: Vec<String> = Vec::new();
    let start: usize = if args.len() > 0 && str_eq(args[0].as_str(), "cost-lint") {
        1
    } else {
        0
    };
    let mut i: usize = start;
    while i < args.len()
        invariant
            start <= i <= args@.len(),
            start == (if args@.len() > 0 && args@[0]@ == "cost-lint"@ {
                1int
            } else {
                0int
            }),
            out@.map_values(|a: String| a@) == args@.subrange(start as int, i as int).map_values(|a: String| a@),
        decreases args@.len() - i,
    {
        let a = owned(args[i].as_str());
        let ghost before = out@;
        out.push(a);
        assert(args@.subrange(start as int, i + 1) =~= args@.subrange(start as int, i as int).push(args@[i as int]));
        assert(out@.map_values(|a: String| a@) =~= before.map_values(|a: String| a@).push(a@));
        assert(out@.map_values(|a: String| a@) =~= args@.subrange(start as int, i + 1).map_values(
            |a: String| a@,
        ));
        i = i + 1;
    }
    assert(args@.subrange(start as int, i as int) =~= forwarded_args(args@));
    out
}

/// Whether some finding is at `error` or `deny` level, which fails the run.
pub fn has_error_findings(findings: &[LintFinding]) -> (res: bool)
    ensures
        res == exists|i: int| 0 <= i < findings@.len() && is_error_level(#[trigger] findings@[i].level@),
{
    let mut i: usize = 0;
    while i < findings.len()
        invariant
            i <= findings@.len(),
            forall|j: int| 0 <= j < i ==> !is_error_level(#[trigger] findings@[j].level@),
        decreases findings@.len() - i,
    {
        if level_is_error(findings[i].level.as_str()) {
            return true;
        }
        i = i + 1;
    }
    false
}

/// The findings in changed files, in order: those whose file
/// `is_file_changed` accepts, the rule `filter_files_by_changed` applies to files.
pub open spec fn findings_in_changed(findings: Seq<LintFinding>, changed: Seq<String>, cwd: Seq<char>) -> Seq<LintFinding> {
    findings.filter(|f: LintFinding| file_changed(f.file@, changed, cwd))
}

/// Keeps the findings that lie in the `changed` files (paths relative to the
/// repository root), comparing each finding's path relative to `cwd` by the
/// same rule as `is_file_changed`. No changed file means nothing to report.
pub fn filter_findings_to_changed_files(findings: &[LintFinding], changed: &[String], cwd: &str) -> (res: Vec<
    LintFinding,
>)
    ensures
        res@ == findings_in_changed(findings@, changed@, cwd@),
        changed@.len() == 0 ==> res@.len() == 0,
{
    let mut res: Vec<LintFinding> = Vec::new();
    let mut i: usize = 0;
    while i < findings.len()
        invariant
            i <= findings@.len(),
            res@ == findings_in_changed(findings@.take(i as int), changed@, cwd@),
        decreases findings@.len() - i,
    {
        proof {
            reveal_with_fuel(Seq::filter, 1);
            assert(findings@.take(i + 1).drop_last() =~= findings@.take(i as int));
        }
        if is_file_changed(findings[i].file.as_str(), changed, cwd) {
            res.push(findings[i].duplicate());
        }
        i = i + 1;
    }
    assert(findings@.take(i as int) =~= findings@);
    proof {
        if changed@.len() == 0 {
            lemma_nothing_changed(findings@, changed@, cwd@);
        }
    }
    res
}

/// A finding and a file are judged by the same rule: the files of the kept
/// findings are exactly the kept files among the findings' files.
pub proof fn law_findings_and_files_judged_alike(findings: Seq<LintFinding>, changed: Seq<String>, cwd: Seq<char>)
    ensures
        findings_in_changed(findings, changed, cwd).map_values(|f: LintFinding| f.file@) == changed_files(
            findings.map_values(|f: LintFinding| f.file),
            changed,
            cwd,
        ).map_values(|f: String| f@),
    decreases findings.len(),
{
    reveal_with_fuel(Seq::filter, 1);
    if findings.len() > 0 {
        let prev = findings.drop_last();
        law_findings_and_files_judged_alike(prev, changed, cwd);
        assert(findings.map_values(|f: LintFinding| f.file).drop_last() =~= prev.map_values(|f: LintFinding| f.file));
        let kept = findings_in_changed(prev, changed, cwd);
        let files = changed_files(prev.map_values(|f: LintFinding| f.file), changed, cwd);
        if file_changed(findings.last().file@, changed, cwd) {
            assert(findings_in_changed(findings, changed, cwd).map_values(|f: LintFinding| f.file@) =~= kept.map_values(
                |f: LintFinding| f.file@,
            ).push(findings.last().file@));
            assert(changed_files(findings.map_values(|f: LintFinding| f.file), changed, cwd).map_values(|f: String| f@)
                =~= files.map_values(|f: String| f@).push(findings.last().file@));
        } else {
            assert(findings_in_changed(findings, changed, cwd) == kept);
            assert(changed_files(findings.map_values(|f: LintFinding| f.file), changed, cwd) == files);
        }
    }
}

proof fn lemma_nothing_changed(findings: Seq<LintFinding>, changed: Seq<String>, cwd: Seq<char>)
    requires
        changed.len() == 0,
    ensures
        findings_in_changed(findings, changed, cwd).len() == 0,
    decreases findings.len(),
{
    reveal_with_fuel(Seq::filter, 1);
    if findings.len() > 0 {
        lemma_nothing_changed(findings.drop_last(), changed, cwd);
    }
}

/// What to print for one finding.
#[derive(Clone, Debug)]
pub enum FindingOutput {
    /// The finding as one line of JSON.
    Json,
    /// This text, on a line of its own.
    Line(String),
    /// Nothing now (SARIF is written once at the end).
    Nothing,
}

/// Records `finding` for the end-of-run report and says what to print for it:
/// a JSON line, a GitHub annotation, or a text diagnostic; nothing under SARIF.
pub fn handle_finding(
    format: OutputFormat,
    finding: &LintFinding,
    findings_acc: &mut Vec<LintFinding>,
    current_dir: Option<&str>,
) -> (res: FindingOutput)
    ensures
        final(findings_acc)@ == old(findings_acc)@.push(*finding),
        format == OutputFormat::Json ==> res is Json,
        format == OutputFormat::Sarif ==> res is Nothing,
        format == OutputFormat::Github ==> (res matches FindingOutput::Line(l) && l@ == github_annotation_text(
            *finding,
            github_property_escape(github_relative_file(finding.file@, match current_dir {
                Some(d) => Some(d@),
                None => None,
            })),
        )),
        format == OutputFormat::Text ==> (res matches FindingOutput::Line(l) && l@ == diagnostic_text(*finding)),
{
    findings_acc.push(finding.duplicate());
    match format {
        OutputFormat::Json => FindingOutput::Json,
        OutputFormat::Github => FindingOutput::Line(format_github_annotation(finding, current_dir)),
        OutputFormat::Text => FindingOutput::Line(format_diagnostic(finding)),
        OutputFormat::Sarif => FindingOutput::Nothing,
    }
}

/// The line written for a finding under `--format github`, newline included.
pub fn emit_github_annotation(finding: &LintFinding, current_dir: Option<&str>) -> (res: String)
    ensures
        res@ == github_annotation_text(
            *finding,
            github_property_escape(github_relative_file(finding.file@, match current_dir {
                Some(d) => Some(d@),
                None => None,
            })),
        ) + "\n"@,
{
    let mut line = format_github_annotation(finding, current_dir);
    push_str(&mut line, "\n");
    line
}

// ---------------------------------------------------------------------------
// Compiler JSON messages
// ---------------------------------------------------------------------------

/// A JSON value as the message reader sees it. Numbers keep what the reader
/// uses of them: their value when it is a non-negative integer that fits `u64`.
#[derive(Debug)]
pub enum JsonValue {
    Null,
    Bool(bool),
    Number(Option<u64>),
    Str(String),
    Array(Vec<JsonValue>),
    Object(Vec<(String, JsonValue)>),
}

/// The value of the first field named `key`.
pub open spec fn field_lookup(fields: Seq<(String, JsonValue)>, key: Seq<char>) -> Option<JsonValue>
    decreases fields.len(),
{
    if fields.len() == 0 {
        None
    } else if fields[0].0@ == key {
        Some(fields[0].1)
    } else {
        field_lookup(fields.drop_first(), key)
    }
}

/// The field `key` of an object; `None` for a missing field or a non-object.
pub open spec fn json_get(v: Option<JsonValue>, key: Seq<char>) -> Option<JsonValue> {
    match v {
        Some(JsonValue::Object(fields)) => field_lookup(fields@, key),
        _ => None,
    }
}

/// The text of a string value.
pub open spec fn json_str(v: Option<JsonValue>) -> Option<Seq<char>> {
    match v {
        Some(JsonValue::Str(s)) => Some(s@),
        _ => None,
    }
}

/// A numeric field as a `usize`, zero when absent or not a `u64`.
pub open spec fn json_count(v: Option<JsonValue>) -> usize {
    match v {
        Some(JsonValue::Number(Some(n))) => n as usize,
        _ => 0,
    }
}

/// The text of a string value, or `default`.
pub open spec fn json_str_or(v: Option<JsonValue>, default: Seq<char>) -> Seq<char> {
    match json_str(v) {
        Some(s) => s,
        None => default,
    }
}

/// The first element of an array field.
pub open spec fn json_first(v: Option<JsonValue>) -> Option<JsonValue> {
    match v {
        Some(JsonValue::Array(items)) => if items@.len() > 0 {
            Some(items@[0])
        } else {
            None
        },
        _ => None,
    }
}

/// The parts of a finding read from a message: name, level, file, span and text.
pub type FindingParts = (Seq<char>, Seq<char>, Seq<char>, Span, Seq<char>);

/// The finding a compiler message describes: one whose `reason` is
/// `compiler-message` and whose `message` object carries a non-empty lint
/// code. Level defaults to `warning`, text to empty, and the location comes
/// from the first span (empty file and zeros without one).
pub open spec fn json_finding(v: JsonValue) -> Option<FindingParts> {
    let m = json_get(Some(v), "message"@);
    if !(json_str(json_get(Some(v), "reason"@)) == Some("compiler-message"@)) {
        None
    } else if !(m matches Some(JsonValue::Object(_))) {
        None
    } else {
        match json_get(json_get(m, "code"@), "code"@) {
            None => None,
            Some(code) => {
                let name = json_str_or(Some(code), ""@);
                if name.len() == 0 {
                    None
                } else {
                    let sp = json_first(json_get(m, "spans"@));
                    let span = Span {
                        line_start: json_count(json_get(sp, "line_start"@)),
                        line_end: json_count(json_get(sp, "line_end"@)),
                        column_start: json_count(json_get(sp, "column_start"@)),
                        column_end: json_count(json_get(sp, "column_end"@)),
                    };
                    Some(
                        (
                            name,
                            json_str_or(json_get(m, "level"@), "warning"@),
                            json_str_or(json_get(sp, "file_name"@), ""@),
                            span,
                            json_str_or(json_get(m, "message"@), ""@),
                        ),
                    )
                }
            },
        }
    }
}

/// The parts of a finding that a message can set.
pub open spec fn finding_parts(f: LintFinding) -> FindingParts {
    (f.name@, f.level@, f.file@, f.span, f.message@)
}

/// The findings the lines describe, in order; lines that are not JSON (`None`)
/// or describe no finding are skipped.
pub open spec fn json_findings(lines: Seq<Option<JsonValue>>) -> Seq<FindingParts>
    decreases lines.len(),
{
    if lines.len() == 0 {
        Seq::empty()
    } else {
        let prev = json_findings(lines.drop_last());
        match lines.last() {
            Some(v) => match json_finding(v) {
                Some(p) => prev.push(p),
                None => prev,
            },
            None => prev,
        }
    }
}

fn get_field<'a>(v: Option<&'a JsonValue>, key: &str) -> (res: Option<&'a JsonValue>)
    ensures
        res matches Some(r) ==> json_get(
            match v {
                Some(x) => Some(*x),
                None => None,
            },
            key@,
        ) == Some(*r),
        res is None ==> json_get(
            match v {
                Some(x) => Some(*x),
                None => None,
            },
            key@,
        ) is None,
{
    let x = match v {
        Some(x) => x,
        None => {
            return None;
        },
    };
    match x {
        JsonValue::Object(fields) => {
            let mut i: usize = 0;
            assert(fields@.skip(0) =~= fields@);
            while i < fields.len()
                invariant
                    i <= fields@.len(),
                    v == Some(x),
                    *x == JsonValue::Object(*fields),
                    field_lookup(fields@, key@) == field_lookup(fields@.skip(i as int), key@),
                decreases fields@.len() - i,
            {
                assert(fields@.skip(i as int).drop_first() =~= fields@.skip(i + 1));
                assert(fields@.skip(i as int)[0] == fields@[i as int]);
                if str_eq(fields[i].0.as_str(), key) {
                    return Some(&fields[i].1);
                }
                i = i + 1;
            }
            None
        },
        _ => None,
    }
}

fn str_of<'a>(v: Option<&'a JsonValue>) -> (res: Option<&'a str>)
    ensures
        res matches Some(s) ==> json_str(
            match v {
                Some(x) => Some(*x),
                None => None,
            },
        ) == Some(s@),
        res is None ==> json_str(
            match v {
                Some(x) => Some(*x),
                None => None,
            },
        ) is None,
{
    match v {
        Some(JsonValue::Str(s)) => Some(s.as_str()),
        _ => None,
    }
}

fn str_or(v: Option<&JsonValue>, default: &str) -> (res: String)
    ensures
        res@ == json_str_or(
            match v {
                Some(x) => Some(*x),
                None => None,
            },
            default@,
        ),
{
    match str_of(v) {
        Some(s) => owned(s),
        None => owned(default),
    }
}

fn count_of(v: Option<&JsonValue>) -> (res: usize)
    ensures
        res == json_count(
            match v {
                Some(x) => Some(*x),
                None => None,
            },
        ),
{
    match v {
        Some(JsonValue::Number(Some(n))) => *n as usize,
        _ => 0,
    }
}

fn first_of<'a>(v: Option<&'a JsonValue>) -> (res: Option<&'a JsonValue>)
    ensures
        res matches Some(r) ==> json_first(
            match v {
                Some(x) => Some(*x),
                None => None,
            },
        ) == Some(*r),
        res is None ==> json_first(
            match v {
                Some(x) => Some(*x),
                None => None,
            },
        ) is None,
{
    match v {
        Some(JsonValue::Array(items)) => if items.len() > 0 {
            Some(&items[0])
        } else {
            None
        },
        _ => None,
    }
}

/// Reads the finding a compiler JSON message describes, if any.
pub fn finding_from_json(v: &JsonValue) -> (res: Option<LintFinding>)
    ensures
        res matches Some(f) ==> json_finding(*v) == Some(finding_parts(f)) && f.help is None && f.suggestion is None,
        res is None ==> json_finding(*v) is None,
{
    proof {
        reveal_strlit("compiler-message");
        reveal_strlit("");
    }
    match str_of(get_field(Some(v), "reason")) {
        Some(r) => {
            if !str_eq(r, "compiler-message") {
                return None;
            }
        },
        None => {
            return None;
        },
    }
    let m = get_field(Some(v), "message");
    match m {
        Some(JsonValue::Object(_)) => {},
        _ => {
            return None;
        },
    }
    let code = match get_field(get_field(m, "code"), "code") {
        Some(c) => c,
        None => {
            return None;
        },
    };
    let name = str_or(Some(code), "");
    if name.as_str().is_empty() {
        return None;
    }
    let sp = first_of(get_field(m, "spans"));
    let span = Span {
        line_start: count_of(get_field(sp, "line_start")),
        line_end: count_of(get_field(sp, "line_end")),
        column_start: count_of(get_field(sp, "column_start")),
        column_end: count_of(get_field(sp, "column_end")),
    };
    Some(
        LintFinding {
            name,
            level: str_or(get_field(m, "level"), "warning"),
            file: str_or(get_field(sp, "file_name"), ""),
            span,
            message: str_or(get_field(m, "message"), ""),
            help: None,
            suggestion: None,
        },
    )
}

/// The findings that the compiler's output lines describe, given each line
/// decoded as JSON (`None` for a line that is not JSON), in order.
pub fn findings_from_json_lines(lines: &[Option<JsonValue>]) -> (res: Vec<LintFinding>)
    ensures
        res@.map_values(|f: LintFinding| finding_parts(f)) == json_findings(lines@),
        forall|i: int| 0 <= i < res@.len() ==> (#[trigger] res@[i]).help is None && res@[i].suggestion is None,
{
    let mut out: Vec<LintFinding> = Vec::new();
    let mut i: usize = 0;
    while i < lines.len()
        invariant
            i <= lines@.len(),
            out@.map_values(|f: LintFinding| finding_parts(f)) == json_findings(lines@.take(i as int)),
            forall|k: int| 0 <= k < out@.len() ==> (#[trigger] out@[k]).help is None && out@[k].suggestion is None,
        decreases lines@.len() - i,
    {
        assert(lines@.take(i + 1).drop_last() =~= lines@.take(i as int));
        match &lines[i] {
            Some(v) => match finding_from_json(v) {
                Some(f) => {
                    let ghost before = out@;
                    out.push(f);
                    assert(out@.map_values(|f: LintFinding| finding_parts(f)) =~= before.map_values(
                        |f: LintFinding| finding_parts(f),
                    ).push(finding_parts(f)));
                },
                None => {},
            },
            None => {},
        }
        i = i + 1;
    }
    assert(lines@.take(i as int) =~= lines@);
    out
}

/// A parsed JSON document (`serde_json::Value`).
#[verifier::external_type_specification]
#[verifier::external_body]
pub struct ExJsonDocument(serde_json::Value);

/// What `serde_json::from_str::<serde_json::Value>` makes of a line, in the
/// library's terms: `None` when the line is not JSON.
pub uninterp spec fn json_of_line(line: Seq<char>) -> Option<JsonValue>;

/// `serde_json::Value` turned into the library's `JsonValue`, variant by
/// variant (a number keeps `Number::as_u64`).
///
/// Trusted: a conversion with nothing stated of it; its one caller,
/// `decode_json_line`, states the result it hands on.
#[verifier::external_body]
fn json_value_of(v: &serde_json::Value) -> JsonValue {
    match v {
        serde_json::Value::Null => JsonValue::Null,
        serde_json::Value::Bool(b) => JsonValue::Bool(*b),
        serde_json::Value::Number(n) => JsonValue::Number(n.as_u64()),
        serde_json::Value::String(s) => JsonValue::Str(s.clone()),
        serde_json::Value::Array(items) => JsonValue::Array(items.iter().map(json_value_of).collect()),
        serde_json::Value::Object(fields) => JsonValue::Object(fields.iter().map(|(k, x)| (k.clone(), json_value_of(x))).collect()),
    }
}

/// `serde_json::from_str::<serde_json::Value>(line)`, as a `JsonValue`.
///
/// Trusted: the result is named by `json_of_line`; it depends on the line
/// alone. What serde_json accepts as JSON is left to serde_json and not
/// described here.
#[verifier::external_body]
pub fn decode_json_line(line: &str) -> (res: Option<JsonValue>)
    ensures
        res == json_of_line(line@),
{
    serde_json::from_str::<serde_json::Value>(line).ok().map(|v| json_value_of(&v))
}

/// Reads the findings out of the compiler's output: each line is decoded as
/// JSON, and the findings that the decoded lines describe are kept, in order.
pub fn parse_dylint_output(output: &str) -> (res: Vec<LintFinding>)
    ensures
        res@.map_values(|f: LintFinding| finding_parts(f)) == json_findings(
            lines_of(output@).map_values(|l: Seq<char>| json_of_line(l)),
        ),
        forall|i: int| 0 <= i < res@.len() ==> (#[trigger] res@[i]).help is None && res@[i].suggestion is None,
{
    let lines = split_lines(output);
    let ghost ls = lines@.map_values(|l: String| l@);
    let mut parsed: Vec<Option<JsonValue>> = Vec::new();
    let mut i: usize = 0;
    while i < lines.len()
        invariant
            i <= lines@.len(),
            ls == lines@.map_values(|l: String| l@),
            parsed@ == ls.take(i as int).map_values(|l: Seq<char>| json_of_line(l)),
        decreases lines@.len() - i,
    {
        let v = decode_json_line(lines[i].as_str());
        parsed.push(v);
        assert(ls.take(i + 1) =~= ls.take(i as int).push(ls[i as int]));
        assert(parsed@ =~= ls.take(i + 1).map_values(|l: Seq<char>| json_of_line(l)));
        i = i + 1;
    }
    assert(ls.take(i as int) =~= ls);
    findings_from_json_lines(&parsed)
}

} // verus!
