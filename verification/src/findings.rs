//! Lint findings and their renderings: text diagnostics, GitHub Actions
//! workflow annotations and SARIF result records.

use vstd::prelude::*;

use crate::paths::{stripped_path, strip_path_prefix};
use crate::text::{decimal, owned, push_char, push_decimal, push_str, str_eq};

verus! {

/// Output format for lint results.
#[derive(Clone, Copy, Debug, PartialEq, Eq, Structural)]
pub enum OutputFormat {
    /// Human-readable text output (default).
    Text,
    /// Newline-delimited JSON objects.
    Json,
    /// SARIF 2.1.0 JSON report.
    Sarif,
    /// GitHub Actions workflow command annotations.
    Github,
}

/// Source-location span for a lint finding.
#[derive(Clone, Copy, Debug, PartialEq, Eq, Structural)]
pub struct Span {
    pub line_start: usize,
    pub line_end: usize,
    pub column_start: usize,
    pub column_end: usize,
}

/// A single lint finding produced by the compiler driver.
#[derive(Clone, Debug)]
pub struct LintFinding {
    pub name: String,
    pub level: String,
    pub file: String,
    pub span: Span,
    pub message: String,
    pub help: Option<String>,
    pub suggestion: Option<String>,
}

impl LintFinding {
    /// A field-by-field copy of this finding.
    pub fn duplicate(&self) -> (res: Self)
        ensures
            res == *self,
    {
        LintFinding {
            name: self.name.clone(),
            level: self.level.clone(),
            file: self.file.clone(),
            span: self.span,
            message: self.message.clone(),
            help: match &self.help {
                Some(h) => Some(h.clone()),
                None => None,
            },
            suggestion: match &self.suggestion {
                Some(s) => Some(s.clone()),
                None => None,
            },
        }
    }
}

// ---------------------------------------------------------------------------
// Character replacement and GitHub escaping
// ---------------------------------------------------------------------------

/// `s` with every occurrence of the character `c` replaced by `r`.
pub open spec fn replace_char(s: Seq<char>, c: char, r: Seq<char>) -> Seq<char>
    decreases s.len(),
{
    if s.len() == 0 {
        s
    } else if s.last() == c {
        replace_char(s.drop_last(), c, r) + r
    } else {
        replace_char(s.drop_last(), c, r).push(s.last())
    }
}

/// A character other than `c` occurs in `replace_char(s, c, r)` only if it
/// occurs in `s` or in `r`; and `c` itself does not occur unless `r` holds it.
pub proof fn lemma_replace_char_contents(s: Seq<char>, c: char, r: Seq<char>, x: char)
    ensures
        replace_char(s, c, r).contains(x) ==> (x != c && s.contains(x)) || r.contains(x),
    decreases s.len(),
{
    if s.len() > 0 {
        lemma_replace_char_contents(s.drop_last(), c, r, x);
        let prev = replace_char(s.drop_last(), c, r);
        if replace_char(s, c, r).contains(x) {
            if s.last() == c {
                let k = choose|k: int| 0 <= k < (prev + r).len() && (prev + r)[k] == x;
                if k < prev.len() {
                    assert(prev[k] == x);
                    assert(prev.contains(x));
                } else {
                    assert(r[k - prev.len()] == x);
                }
            } else {
                let k = choose|k: int| 0 <= k < prev.push(s.last()).len() && prev.push(s.last())[k] == x;
                if k < prev.len() {
                    assert(prev[k] == x);
                    assert(prev.contains(x));
                } else {
                    assert(s[s.len() - 1] == x);
                }
            }
            if prev.contains(x) && !r.contains(x) {
                let j = choose|j: int| 0 <= j < s.drop_last().len() && s.drop_last()[j] == x;
                assert(s[j] == x);
            }
        }
    }
}

/// Replaces every `c` in `s` by `r`.
pub fn replace_char_in(s: &str, c: char, r: &str) -> (res: String)
    ensures
        res@ == replace_char(s@, c, r@),
{
    let cs = crate::text::chars_of(s);
    let mut out = String::new();
    let mut i: usize = 0;
    while i < cs.len()
        invariant
            i <= cs@.len(),
            cs@ == s@,
            out@ == replace_char(s@.take(i as int), c, r@),
        decreases cs@.len() - i,
    {
        assert(s@.take(i + 1).drop_last() =~= s@.take(i as int));
        if cs[i] == c {
            push_str(&mut out, r);
        } else {
            push_char(&mut out, cs[i]);
        }
        i = i + 1;
    }
    assert(s@.take(i as int) =~= s@);
    out
}

/// GitHub Actions escaping of a workflow command message body.
pub open spec fn github_message_escape(s: Seq<char>) -> Seq<char> {
    replace_char(replace_char(replace_char(s, '%', "%25"@), '\r', "%0D"@), '\n', "%0A"@)
}

/// GitHub Actions escaping of a workflow command property value.
pub open spec fn github_property_escape(s: Seq<char>) -> Seq<char> {
    replace_char(replace_char(github_message_escape(s), ':', "%3A"@), ',', "%2C"@)
}

/// Escapes special characters for GitHub Actions workflow command message bodies:
/// `%` as `%25`, `\r` as `%0D`, `\n` as `%0A`.
pub fn escape_github_message(s: &str) -> (res: String)
    ensures
        res@ == github_message_escape(s@),
{
    let a = replace_char_in(s, '%', "%25");
    let b = replace_char_in(a.as_str(), '\r', "%0D");
    replace_char_in(b.as_str(), '\n', "%0A")
}

/// Escapes special characters for GitHub Actions workflow command property
/// values: as for messages, plus `:` as `%3A` and `,` as `%2C`.
pub fn escape_github_property(s: &str) -> (res: String)
    ensures
        res@ == github_property_escape(s@),
{
    let m = escape_github_message(s);
    let a = replace_char_in(m.as_str(), ':', "%3A");
    replace_char_in(a.as_str(), ',', "%2C")
}

/// An escaped message can never break a workflow command line: it holds no
/// carriage return and no line feed.
pub proof fn law_github_message_escape_is_single_line(s: Seq<char>)
    ensures
        !github_message_escape(s).contains('\r'),
        !github_message_escape(s).contains('\n'),
{
    reveal_strlit("%25");
    reveal_strlit("%0D");
    reveal_strlit("%0A");
    let a = replace_char(s, '%', "%25"@);
    let b = replace_char(a, '\r', "%0D"@);
    let e = replace_char(b, '\n', "%0A"@);
    lemma_replace_char_contents(s, '%', "%25"@, '\r');
    lemma_replace_char_contents(a, '\r', "%0D"@, '\r');
    lemma_replace_char_contents(b, '\n', "%0A"@, '\r');
    lemma_replace_char_contents(b, '\n', "%0A"@, '\n');
    assert(!"%0D"@.contains('\r'));
    assert(!"%0A"@.contains('\r'));
    assert(!"%0A"@.contains('\n'));
}

/// An escaped property value holds none of the characters that delimit
/// workflow command properties or lines: no `:`, `,`, `\r` or `\n`.
pub proof fn law_github_property_escape_has_no_delimiters(s: Seq<char>)
    ensures
        !github_property_escape(s).contains(':'),
        !github_property_escape(s).contains(','),
        !github_property_escape(s).contains('\r'),
        !github_property_escape(s).contains('\n'),
{
    reveal_strlit("%3A");
    reveal_strlit("%2C");
    let m = github_message_escape(s);
    let a = replace_char(m, ':', "%3A"@);
    law_github_message_escape_is_single_line(s);
    lemma_replace_char_contents(m, ':', "%3A"@, ':');
    lemma_replace_char_contents(a, ',', "%2C"@, ':');
    lemma_replace_char_contents(a, ',', "%2C"@, ',');
    lemma_replace_char_contents(m, ':', "%3A"@, '\r');
    lemma_replace_char_contents(a, ',', "%2C"@, '\r');
    lemma_replace_char_contents(m, ':', "%3A"@, '\n');
    lemma_replace_char_contents(a, ',', "%2C"@, '\n');
    assert(!"%3A"@.contains(':'));
    assert(!"%2C"@.contains(':'));
    assert(!"%2C"@.contains(','));
    assert(!"%3A"@.contains('\r'));
    assert(!"%2C"@.contains('\r'));
    assert(!"%3A"@.contains('\n'));
    assert(!"%2C"@.contains('\n'));
}

/// `replace_char` works piecewise: on a concatenation it is the
/// concatenation of the two replacements.
proof fn lemma_replace_char_concat(a: Seq<char>, b: Seq<char>, c: char, r: Seq<char>)
    ensures
        replace_char(a + b, c, r) == replace_char(a, c, r) + replace_char(b, c, r),
    decreases b.len(),
{
    if b.len() == 0 {
        assert(a + b =~= a);
        assert(replace_char(a, c, r) + replace_char(b, c, r) =~= replace_char(a, c, r));
    } else {
        let b2 = b.drop_last();
        assert((a + b).drop_last() =~= a + b2);
        assert((a + b).last() == b.last());
        lemma_replace_char_concat(a, b2, c, r);
        if b.last() == c {
            assert(replace_char(a, c, r) + replace_char(b2, c, r) + r =~= replace_char(a, c, r) + (
            replace_char(b2, c, r) + r));
        } else {
            assert((replace_char(a, c, r) + replace_char(b2, c, r)).push(b.last()) =~= replace_char(a, c, r)
                + replace_char(b2, c, r).push(b.last()));
        }
    }
}

/// A sequence without `c` is left as it is by `replace_char`.
proof fn lemma_replace_char_absent(s: Seq<char>, c: char, r: Seq<char>)
    requires
        !s.contains(c),
    ensures
        replace_char(s, c, r) == s,
    decreases s.len(),
{
    if s.len() > 0 {
        assert(s.drop_last().len() < s.len());
        if s.drop_last().contains(c) {
            let j = choose|j: int| 0 <= j < s.drop_last().len() && s.drop_last()[j] == c;
            assert(s[j] == c);
        }
        assert(s[s.len() - 1] == s.last());
        lemma_replace_char_absent(s.drop_last(), c, r);
        assert(s.drop_last().push(s.last()) =~= s);
    }
}

/// `replace_char` on a single character.
proof fn lemma_replace_char_single(x: char, c: char, r: Seq<char>)
    ensures
        replace_char(seq![x], c, r) == (if x == c { r } else { seq![x] }),
{
    let e = Seq::<char>::empty();
    assert(seq![x].drop_last() =~= e);
    assert(seq![x].len() == 1 && seq![x].last() == x);
    assert(replace_char(e, c, r) == e);
    assert(e + r =~= r);
    assert(e.push(x) =~= seq![x]);
}

/// The reading of an escaped message, left to right: `%25` is `%`, `%0D` is
/// a carriage return, `%0A` a line feed, and any other character itself.
pub open spec fn github_message_unescape(t: Seq<char>) -> Seq<char>
    decreases t.len(),
{
    if t.len() == 0 {
        t
    } else if t.len() >= 3 && t[0] == '%' && t[1] == '2' && t[2] == '5' {
        seq!['%'] + github_message_unescape(t.skip(3))
    } else if t.len() >= 3 && t[0] == '%' && t[1] == '0' && t[2] == 'D' {
        seq!['\r'] + github_message_unescape(t.skip(3))
    } else if t.len() >= 3 && t[0] == '%' && t[1] == '0' && t[2] == 'A' {
        seq!['\n'] + github_message_unescape(t.skip(3))
    } else {
        seq![t[0]] + github_message_unescape(t.skip(1))
    }
}

/// The escape of one character.
spec fn escaped_char(x: char) -> Seq<char> {
    if x == '%' {
        "%25"@
    } else if x == '\r' {
        "%0D"@
    } else if x == '\n' {
        "%0A"@
    } else {
        seq![x]
    }
}

/// The escape of a message, one character at a time, equals the escape
/// that replaces `%`, `\r` and `\n` in turn.
proof fn lemma_message_escape_front(s: Seq<char>)
    requires
        s.len() > 0,
    ensures
        github_message_escape(s) == escaped_char(s[0]) + github_message_escape(s.skip(1)),
{
    reveal_strlit("%25");
    reveal_strlit("%0D");
    reveal_strlit("%0A");
    let x = s[0];
    let rest = s.skip(1);
    assert(s =~= seq![x] + rest);
    let a = replace_char(s, '%', "%25"@);
    let b = replace_char(a, '\r', "%0D"@);
    lemma_replace_char_concat(seq![x], rest, '%', "%25"@);
    let a1 = replace_char(seq![x], '%', "%25"@);
    let a2 = replace_char(rest, '%', "%25"@);
    lemma_replace_char_concat(a1, a2, '\r', "%0D"@);
    let b1 = replace_char(a1, '\r', "%0D"@);
    let b2 = replace_char(a2, '\r', "%0D"@);
    lemma_replace_char_concat(b1, b2, '\n', "%0A"@);
    lemma_replace_char_single(x, '%', "%25"@);
    if x == '%' {
        assert(!"%25"@.contains('\r'));
        assert(!"%25"@.contains('\n'));
        lemma_replace_char_absent("%25"@, '\r', "%0D"@);
        lemma_replace_char_absent("%25"@, '\n', "%0A"@);
    } else {
        lemma_replace_char_single(x, '\r', "%0D"@);
        if x == '\r' {
            assert(!"%0D"@.contains('\n'));
            lemma_replace_char_absent("%0D"@, '\n', "%0A"@);
        } else {
            lemma_replace_char_single(x, '\n', "%0A"@);
        }
    }
}

/// Unescaping reads back one escaped character at a time.
proof fn lemma_unescape_front(x: char, rest: Seq<char>)
    ensures
        github_message_unescape(escaped_char(x) + rest) == seq![x] + github_message_unescape(rest),
{
    reveal_strlit("%25");
    reveal_strlit("%0D");
    reveal_strlit("%0A");
    let t = escaped_char(x) + rest;
    if x == '%' || x == '\r' || x == '\n' {
        assert(t.skip(3) =~= rest);
    } else {
        assert(t.skip(1) =~= rest);
    }
}

/// A `%` at `i` in `t` starts one of the three escapes `%25`, `%0D`, `%0A`.
pub open spec fn percent_escape_at(t: Seq<char>, i: int) -> bool {
    t[i] == '%' ==> i + 2 < t.len() && ((t[i + 1] == '2' && t[i + 2] == '5') || (t[i + 1] == '0' && (t[i + 2]
        == 'D' || t[i + 2] == 'A')))
}

/// Every `%` in an escaped message starts an escape.
proof fn lemma_escape_percents(s: Seq<char>)
    ensures
        forall|i: int| 0 <= i < github_message_escape(s).len() ==> #[trigger] percent_escape_at(github_message_escape(s), i),
    decreases s.len(),
{
    reveal_strlit("%25");
    reveal_strlit("%0D");
    reveal_strlit("%0A");
    let t = github_message_escape(s);
    if s.len() == 0 {
        assert(replace_char(s, '%', "%25"@) == s);
        assert(replace_char(replace_char(s, '%', "%25"@), '\r', "%0D"@) == s);
        assert(t == s);
    } else {
        lemma_message_escape_front(s);
        lemma_escape_percents(s.skip(1));
        let e = escaped_char(s[0]);
        let r = github_message_escape(s.skip(1));
        assert(t == e + r);
        assert forall|i: int| 0 <= i < t.len() implies #[trigger] percent_escape_at(t, i) by {
            if i >= e.len() {
                assert(percent_escape_at(r, i - e.len()));
                assert(t[i] == r[i - e.len()]);
                if t[i] == '%' {
                    assert(t[i + 1] == r[i - e.len() + 1]);
                    assert(t[i + 2] == r[i - e.len() + 2]);
                }
            }
        }
    }
}

/// Escaping loses nothing: every `%` of an escaped message starts `%25`,
/// `%0D` or `%0A`; reading it back left to right (`%25` as `%`, `%0D` as a
/// carriage return, `%0A` as a line feed) gives the original text; and a
/// message without `%`, `\r` or `\n` is left as it is.
pub proof fn law_github_message_escape_round_trips(s: Seq<char>)
    ensures
        forall|i: int| 0 <= i < github_message_escape(s).len() ==> #[trigger] percent_escape_at(github_message_escape(s), i),
        github_message_unescape(github_message_escape(s)) == s,
        !s.contains('%') && !s.contains('\r') && !s.contains('\n') ==> github_message_escape(s) == s,
    decreases s.len(),
{
    lemma_escape_percents(s);
    if s.len() == 0 {
        assert(replace_char(s, '%', "%25"@) == s);
        assert(replace_char(replace_char(s, '%', "%25"@), '\r', "%0D"@) == s);
        assert(github_message_escape(s) == s);
    } else {
        lemma_message_escape_front(s);
        law_github_message_escape_round_trips(s.skip(1));
        lemma_unescape_front(s[0], github_message_escape(s.skip(1)));
        assert(seq![s[0]] + s.skip(1) =~= s);
        if !s.contains('%') && !s.contains('\r') && !s.contains('\n') {
            assert(s[0] != '%' && s[0] != '\r' && s[0] != '\n');
            assert forall|c: char| s.skip(1).contains(c) implies s.contains(c) by {
                let j = choose|j: int| 0 <= j < s.skip(1).len() && s.skip(1)[j] == c;
                assert(s[j + 1] == c);
            }
        }
    }
}

// ---------------------------------------------------------------------------
// Severity mapping
// ---------------------------------------------------------------------------

/// Whether a finding level is error-grade (`error` or `deny`).
pub open spec fn is_error_level(level: Seq<char>) -> bool {
    level == "error"@ || level == "deny"@
}

/// Whether a finding level is warning-grade (`warning` or `warn`).
pub open spec fn is_warning_level(level: Seq<char>) -> bool {
    level == "warning"@ || level == "warn"@
}

/// The three-way severity (`error`, `warning`, otherwise `note`) of a level.
pub open spec fn severity_of(level: Seq<char>) -> Seq<char> {
    if is_error_level(level) {
        "error"@
    } else if is_warning_level(level) {
        "warning"@
    } else {
        "note"@
    }
}

/// Whether `level` is `error` or `deny`.
pub fn level_is_error(level: &str) -> (res: bool)
    ensures
        res == is_error_level(level@),
{
    str_eq(level, "error") || str_eq(level, "deny")
}

/// The three-way severity of a finding level.
pub fn severity_label(level: &str) -> (res: &'static str)
    ensures
        res@ == severity_of(level@),
{
    if level_is_error(level) {
        "error"
    } else if str_eq(level, "warning") || str_eq(level, "warn") {
        "warning"
    } else {
        "note"
    }
}

// ---------------------------------------------------------------------------
// Text diagnostics
// ---------------------------------------------------------------------------

/// Where a finding points, as shown in a text diagnostic.
pub open spec fn diagnostic_location(f: LintFinding) -> Seq<char> {
    if f.file@.len() > 0 && f.span.line_start > 0 {
        f.file@ + ":"@ + decimal(f.span.line_start as nat) + ":"@ + decimal(f.span.column_start as nat)
    } else if f.file@.len() > 0 {
        f.file@
    } else {
        "unknown location"@
    }
}

/// An optional trailing note line of a text diagnostic.
pub open spec fn optional_note(label: Seq<char>, value: Option<String>) -> Seq<char> {
    match value {
        Some(v) => "\n  = "@ + label + ": "@ + v@,
        None => Seq::empty(),
    }
}

/// The human-readable text diagnostic for a finding.
pub open spec fn diagnostic_text(f: LintFinding) -> Seq<char> {
    severity_of(f.level@) + ": ["@ + f.name@ + "] "@ + f.message@ + "\n  --> "@
        + diagnostic_location(f) + "\n  = note: "@ + f.message@
        + optional_note("help"@, f.help) + optional_note("suggestion"@, f.suggestion)
}

/// Format a finding as a human-readable text diagnostic.
pub fn format_diagnostic(finding: &LintFinding) -> (res: String)
    ensures
        res@ == diagnostic_text(*finding),
{
    let mut out = String::new();
    push_str(&mut out, severity_label(finding.level.as_str()));
    push_str(&mut out, ": [");
    push_str(&mut out, finding.name.as_str());
    push_str(&mut out, "] ");
    push_str(&mut out, finding.message.as_str());
    push_str(&mut out, "\n  --> ");
    let ghost before_loc = out@;
    if !finding.file.as_str().is_empty() && finding.span.line_start > 0 {
        push_str(&mut out, finding.file.as_str());
        push_str(&mut out, ":");
        push_decimal(&mut out, finding.span.line_start);
        push_str(&mut out, ":");
        push_decimal(&mut out, finding.span.column_start);
    } else if !finding.file.as_str().is_empty() {
        push_str(&mut out, finding.file.as_str());
    } else {
        push_str(&mut out, "unknown location");
    }
    assert(out@ =~= before_loc + diagnostic_location(*finding));
    push_str(&mut out, "\n  = note: ");
    push_str(&mut out, finding.message.as_str());
    let ghost before_help = out@;
    match &finding.help {
        Some(h) => {
            push_str(&mut out, "\n  = help: ");
            push_str(&mut out, h.as_str());
        },
        None => {},
    }
    assert(out@ =~= before_help + optional_note("help"@, finding.help)) by {
        reveal_strlit("\n  = help: ");
        reveal_strlit("\n  = ");
        reveal_strlit("help");
        reveal_strlit(": ");
    }
    let ghost before_sugg = out@;
    match &finding.suggestion {
        Some(s) => {
            push_str(&mut out, "\n  = suggestion: ");
            push_str(&mut out, s.as_str());
        },
        None => {},
    }
    assert(out@ =~= before_sugg + optional_note("suggestion"@, finding.suggestion)) by {
        reveal_strlit("\n  = suggestion: ");
        reveal_strlit("\n  = ");
        reveal_strlit("suggestion");
        reveal_strlit(": ");
    }
    assert(out@ =~= diagnostic_text(*finding));
    out
}

// ---------------------------------------------------------------------------
// GitHub Actions annotations
// ---------------------------------------------------------------------------

/// The file a finding names, relative to `current_dir` when it lies under it,
/// with backslashes turned into forward slashes.
pub open spec fn github_relative_file(file: Seq<char>, current_dir: Option<Seq<char>>) -> Seq<char> {
    match current_dir {
        Some(cwd) => match stripped_path(file, cwd) {
            Some(r) => replace_char(r, '\\', "/"@),
            None => replace_char(file, '\\', "/"@),
        },
        None => replace_char(file, '\\', "/"@),
    }
}

/// `file` relative to `current_dir` (when it lies under it), with forward slashes.
pub fn github_file_path(file: &str, current_dir: Option<&str>) -> (res: String)
    ensures
        res@ == github_relative_file(file@, match current_dir {
            Some(d) => Some(d@),
            None => None,
        }),
{
    match current_dir {
        Some(cwd) => match strip_path_prefix(file, cwd) {
            Some(r) => replace_char_in(r.as_str(), '\\', "/"),
            None => replace_char_in(file, '\\', "/"),
        },
        None => replace_char_in(file, '\\', "/"),
    }
}

/// The GitHub severity of a finding level: `error` for `error`/`deny`, else `warning`.
pub open spec fn github_severity(level: Seq<char>) -> Seq<char> {
    if is_error_level(level) {
        "error"@
    } else {
        "warning"@
    }
}

/// The workflow command annotating a finding, given the escaped file path.
pub open spec fn github_annotation_text(f: LintFinding, escaped_file: Seq<char>) -> Seq<char> {
    let sev = github_severity(f.level@);
    let msg = github_message_escape(f.message@);
    if f.span.line_start > 0 {
        if f.span.column_start > 0 {
            "::"@ + sev + " file="@ + escaped_file + ",line="@ + decimal(f.span.line_start as nat) + ",col="@
                + decimal(f.span.column_start as nat) + "::"@ + msg
        } else {
            "::"@ + sev + " file="@ + escaped_file + ",line="@ + decimal(f.span.line_start as nat) + "::"@ + msg
        }
    } else if escaped_file.len() > 0 {
        "::"@ + sev + " file="@ + escaped_file + "::"@ + msg
    } else {
        "::"@ + sev + "::"@ + msg
    }
}

/// Format a single finding as a GitHub Actions workflow command annotation,
/// with its file made relative to `current_dir`.
pub fn format_github_annotation(finding: &LintFinding, current_dir: Option<&str>) -> (res: String)
    ensures
        res@ == github_annotation_text(
            *finding,
            github_property_escape(github_relative_file(finding.file@, match current_dir {
                Some(d) => Some(d@),
                None => None,
            })),
        ),
{
    let severity = if level_is_error(finding.level.as_str()) {
        "error"
    } else {
        "warning"
    };
    let escaped_message = escape_github_message(finding.message.as_str());
    let rel_file = github_file_path(finding.file.as_str(), current_dir);
    let escaped_file = escape_github_property(rel_file.as_str());
    let mut out = String::new();
    push_str(&mut out, "::");
    push_str(&mut out, severity);
    if finding.span.line_start > 0 {
        push_str(&mut out, " file=");
        push_str(&mut out, escaped_file.as_str());
        push_str(&mut out, ",line=");
        push_decimal(&mut out, finding.span.line_start);
        if finding.span.column_start > 0 {
            push_str(&mut out, ",col=");
            push_decimal(&mut out, finding.span.column_start);
        }
    } else if !escaped_file.as_str().is_empty() {
        push_str(&mut out, " file=");
        push_str(&mut out, escaped_file.as_str());
    }
    push_str(&mut out, "::");
    push_str(&mut out, escaped_message.as_str());
    proof {
        let ef = escaped_file@;
        let t = github_annotation_text(*finding, ef);
        assert(out@ =~= t);
    }
    out
}

// ---------------------------------------------------------------------------
// SARIF result records
// ---------------------------------------------------------------------------

/// SARIF message text.
pub struct SarifMessage {
    pub text: String,
}

/// SARIF artifact location (file URI).
pub struct SarifArtifactLocation {
    pub uri: String,
}

/// SARIF region (line/column range within a file).
#[derive(Clone, Copy, Debug, PartialEq, Eq, Structural)]
pub struct SarifRegion {
    pub start_line: usize,
    pub start_column: Option<usize>,
    pub end_line: Option<usize>,
    pub end_column: Option<usize>,
}

/// SARIF physical location in a file.
pub struct SarifPhysicalLocation {
    pub artifact_location: SarifArtifactLocation,
    pub region: Option<SarifRegion>,
}

/// SARIF location referencing a physical file.
pub struct SarifLocation {
    pub physical_location: SarifPhysicalLocation,
}

/// A single SARIF result (one lint finding).
pub struct SarifResult {
    pub rule_id: String,
    pub level: String,
    pub message: SarifMessage,
    pub locations: Vec<SarifLocation>,
}

/// A positive value, or nothing for zero.
pub open spec fn positive(n: usize) -> Option<usize> {
    if n > 0 {
        Some(n)
    } else {
        None
    }
}

/// The SARIF region of a span: present only when the span has a start line.
pub open spec fn sarif_region_of(span: Span) -> Option<SarifRegion> {
    if span.line_start > 0 {
        Some(
            SarifRegion {
                start_line: span.line_start,
                start_column: positive(span.column_start),
                end_line: positive(span.line_end),
                end_column: positive(span.column_end),
            },
        )
    } else {
        None
    }
}

/// The `file:///` URI of a finding's file, relative to `current_dir` when under it.
pub open spec fn sarif_uri_of(file: Seq<char>, current_dir: Option<Seq<char>>) -> Seq<char> {
    "file:///"@ + github_relative_file(file, current_dir)
}

fn positive_or_none(n: usize) -> (res: Option<usize>)
    ensures
        res == positive(n),
{
    if n > 0 {
        Some(n)
    } else {
        None
    }
}

/// The SARIF region for a span.
pub fn sarif_region(span: &Span) -> (res: Option<SarifRegion>)
    ensures
        res == sarif_region_of(*span),
{
    if span.line_start > 0 {
        Some(
            SarifRegion {
                start_line: span.line_start,
                start_column: positive_or_none(span.column_start),
                end_line: positive_or_none(span.line_end),
                end_column: positive_or_none(span.column_end),
            },
        )
    } else {
        None
    }
}

/// The SARIF result record for one finding.
pub fn sarif_result(finding: &LintFinding, current_dir: Option<&str>) -> (res: SarifResult)
    ensures
        res.rule_id@ == finding.name@,
        res.level@ == severity_of(finding.level@),
        res.message.text@ == finding.message@,
        res.locations@.len() == 1,
        res.locations@[0].physical_location.artifact_location.uri@ == sarif_uri_of(
            finding.file@,
            match current_dir {
                Some(d) => Some(d@),
                None => None,
            },
        ),
        res.locations@[0].physical_location.region == sarif_region_of(finding.span),
{
    let path = github_file_path(finding.file.as_str(), current_dir);
    let mut uri = String::new();
    push_str(&mut uri, "file:///");
    push_str(&mut uri, path.as_str());
    let location = SarifLocation {
        physical_location: SarifPhysicalLocation {
            artifact_location: SarifArtifactLocation { uri },
            region: sarif_region(&finding.span),
        },
    };
    let mut locations = Vec::new();
    locations.push(location);
    SarifResult {
        rule_id: finding.name.clone(),
        level: owned(severity_label(finding.level.as_str())),
        message: SarifMessage { text: finding.message.clone() },
        locations,
    }
}

/// The SARIF result records for `findings`, one per finding and in order.
pub fn sarif_results(findings: &[LintFinding], current_dir: Option<&str>) -> (res: Vec<SarifResult>)
    ensures
        res@.len() == findings@.len(),
        forall|i: int|
            0 <= i < findings@.len() ==> {
                &&& (#[trigger] res@[i]).rule_id@ == findings@[i].name@
                &&& res@[i].level@ == severity_of(findings@[i].level@)
                &&& res@[i].message.text@ == findings@[i].message@
                &&& res@[i].locations@.len() == 1
                &&& res@[i].locations@[0].physical_location.artifact_location.uri@ == sarif_uri_of(
                    findings@[i].file@,
                    match current_dir {
                        Some(d) => Some(d@),
                        None => None,
                    },
                )
                &&& res@[i].locations@[0].physical_location.region == sarif_region_of(findings@[i].span)
            },
{
    let mut res: Vec<SarifResult> = Vec::new();
    let mut i: usize = 0;
    while i < findings.len()
        invariant
            i <= findings@.len(),
            res@.len() == i,
            forall|k: int|
                0 <= k < i ==> {
                    &&& (#[trigger] res@[k]).rule_id@ == findings@[k].name@
                    &&& res@[k].level@ == severity_of(findings@[k].level@)
                    &&& res@[k].message.text@ == findings@[k].message@
                    &&& res@[k].locations@.len() == 1
                    &&& res@[k].locations@[0].physical_location.artifact_location.uri@ == sarif_uri_of(
                        findings@[k].file@,
                        match current_dir {
                            Some(d) => Some(d@),
                            None => None,
                        },
                    )
                    &&& res@[k].locations@[0].physical_location.region == sarif_region_of(findings@[k].span)
                },
        decreases findings@.len() - i,
    {
        res.push(sarif_result(&findings[i], current_dir));
        i = i + 1;
    }
    res
}

// ---------------------------------------------------------------------------
// SARIF report
// ---------------------------------------------------------------------------

/// The tool's version, as its manifest gives it.
pub const TOOL_VERSION: &'static str = "0.1.0";

/// The JSON schema a SARIF 2.1.0 report names.
pub open spec fn sarif_schema_uri() -> Seq<char> {
    "https://schemastore.azurewebsites.net/schemas/json/sarif-2.1.0-rtm.5.json"@
}

/// Where the tool's documentation lives.
pub open spec fn tool_information_uri() -> Seq<char> {
    "https://github.com/Tollcraft/soroban-cost-linter"@
}

/// Tool-driver metadata of a SARIF run.
pub struct SarifToolDriver {
    pub name: String,
    pub version: String,
    pub information_uri: Option<String>,
    pub rules: Vec<serde_json::Value>,
}

/// Tool metadata of a SARIF run.
pub struct SarifTool {
    pub driver: SarifToolDriver,
}

/// A single SARIF run (one invocation of the linter).
pub struct SarifRun {
    pub tool: SarifTool,
    pub results: Vec<SarifResult>,
}

/// A SARIF 2.1.0 report.
pub struct SarifReport {
    pub schema: String,
    pub version: String,
    pub runs: Vec<SarifRun>,
}

/// Whether `results` are the SARIF records of `findings`: one per finding,
/// in order, each with the finding's rule, severity, message, file URI and
/// region.
pub open spec fn sarif_results_of(
    results: Seq<SarifResult>,
    findings: Seq<LintFinding>,
    current_dir: Option<Seq<char>>,
) -> bool {
    &&& results.len() == findings.len()
    &&& forall|i: int|
        0 <= i < findings.len() ==> {
            &&& (#[trigger] results[i]).rule_id@ == findings[i].name@
            &&& results[i].level@ == severity_of(findings[i].level@)
            &&& results[i].message.text@ == findings[i].message@
            &&& results[i].locations@.len() == 1
            &&& results[i].locations@[0].physical_location.artifact_location.uri@ == sarif_uri_of(
                findings[i].file@,
                current_dir,
            )
            &&& results[i].locations@[0].physical_location.region == sarif_region_of(findings[i].span)
        }
}

/// The SARIF 2.1.0 report of `findings`: the 2.1.0 schema and version, and a
/// single run whose tool driver is `cargo-cost-lint` (with its version and
/// documentation link, and no rule metadata) and whose results are the
/// findings' records, in order. File URIs are made relative to `current_dir`
/// where it is given.
pub fn sarif_report(findings: &[LintFinding], current_dir: Option<&str>) -> (res: SarifReport)
    ensures
        res.schema@ == sarif_schema_uri(),
        res.version@ == "2.1.0"@,
        res.runs@.len() == 1,
        res.runs@[0].tool.driver.name@ == "cargo-cost-lint"@,
        res.runs@[0].tool.driver.version@ == TOOL_VERSION@,
        res.runs@[0].tool.driver.information_uri matches Some(u) && u@ == tool_information_uri(),
        res.runs@[0].tool.driver.rules@.len() == 0,
        sarif_results_of(
            res.runs@[0].results@,
            findings@,
            match current_dir {
                Some(d) => Some(d@),
                None => None,
            },
        ),
{
    let results = sarif_results(findings, current_dir);
    let driver = SarifToolDriver {
        name: owned("cargo-cost-lint"),
        version: owned(TOOL_VERSION),
        information_uri: Some(owned("https://github.com/Tollcraft/soroban-cost-linter")),
        rules: Vec::new(),
    };
    let mut runs: Vec<SarifRun> = Vec::new();
    runs.push(SarifRun { tool: SarifTool { driver }, results });
    SarifReport {
        schema: owned("https://schemastore.azurewebsites.net/schemas/json/sarif-2.1.0-rtm.5.json"),
        version: owned("2.1.0"),
        runs,
    }
}

} // verus!
