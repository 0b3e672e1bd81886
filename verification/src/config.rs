//! `budget.toml` lint levels: validation of the configured lint names and
//! levels, and their translation into rustc `-A`/`-W`/`-D` flags.

use vstd::prelude::*;

use crate::text::{is_one_of, owned, push_str, str_eq, str_in};

verus! {

/// What `str::to_lowercase` yields for a string.
pub uninterp spec fn lowercase(s: Seq<char>) -> Seq<char>;

/// Whether every character of `s` is ASCII.
pub open spec fn is_ascii_text(s: Seq<char>) -> bool {
    forall|i: int| 0 <= i < s.len() ==> (s[i] as u32) < 128
}

/// The ASCII lower-case form of a character: `A`–`Z` become `a`–`z`.
pub open spec fn ascii_lower(c: char) -> char {
    if 'A' <= c && c <= 'Z' {
        ((c as u32) + 32) as char
    } else {
        c
    }
}

/// `str::to_lowercase` (std).
///
/// Trusted: the result is named by `lowercase`. Of the Unicode case mapping
/// only its ASCII part is stated: on an all-ASCII string it maps `A`–`Z` to
/// `a`–`z` and leaves every other character as it is. Other characters are
/// left to std and not described here.
#[verifier::external_body]
fn to_lowercase(s: &str) -> (res: String)
    ensures
        res@ == lowercase(s@),
        is_ascii_text(s@) ==> res@ == s@.map_values(|c: char| ascii_lower(c)),
{
    s.to_lowercase()
}

/// Folds a user-written lint name into the form the lint inventory is keyed by:
/// its lower-case form (for an ASCII name, `A`–`Z` folded to `a`–`z`).
pub fn normalize_lint_name(name: &str) -> (res: String)
    ensures
        res@ == lowercase(name@),
        is_ascii_text(name@) ==> res@ == name@.map_values(|c: char| ascii_lower(c)),
{
    to_lowercase(name)
}

/// Folding an ASCII name twice is folding it once: a normalised name is
/// already in the form the inventory is keyed by.
pub proof fn law_normalizing_ascii_is_idempotent(name: Seq<char>)
    requires
        is_ascii_text(name),
    ensures
        is_ascii_text(name.map_values(|c: char| ascii_lower(c))),
        name.map_values(|c: char| ascii_lower(c)).map_values(|c: char| ascii_lower(c)) == name.map_values(
            |c: char| ascii_lower(c),
        ),
{
    let once = name.map_values(|c: char| ascii_lower(c));
    assert forall|i: int| 0 <= i < once.len() implies (once[i] as u32) < 128 by {
        assert((name[i] as u32) < 128);
    }
    assert(once.map_values(|c: char| ascii_lower(c)) =~= once);
}

/// One `[lints]` entry of a `budget.toml`: a lint name and its level.
#[derive(Clone, Debug)]
pub struct LintSetting {
    pub name: String,
    pub level: String,
}

/// The lint-level part of a `budget.toml`.
#[derive(Clone, Debug)]
pub struct BudgetConfig {
    pub lints: Option<Vec<LintSetting>>,
}

impl BudgetConfig {
    /// The configuration is well formed: no lint is set twice (the lint
    /// section maps each name to one level).
    pub open spec fn wf(&self) -> bool {
        self.lints matches Some(v) ==> forall|a: int, b: int| 0 <= a < b < v@.len() ==> (#[trigger] v@[a]).name@
            != (#[trigger] v@[b]).name@
    }
}

impl Default for BudgetConfig {
    /// A configuration without a `[lints]` section.
    fn default() -> (res: Self)
        ensures
            res.lints is None,
            res.wf(),
    {
        BudgetConfig { lints: None }
    }
}

/// The rustc flag prefix for a lint level: `-A`, `-W` or `-D`.
pub open spec fn level_flag_prefix(level: Seq<char>) -> Option<Seq<char>> {
    if level == "allow"@ {
        Some("-A"@)
    } else if level == "warn"@ {
        Some("-W"@)
    } else if level == "deny"@ {
        Some("-D"@)
    } else {
        None
    }
}

/// The flags for `settings`, in order: `"<prefix> <name>"` for each setting
/// whose level is `allow`, `warn` or `deny`; other settings give no flag.
pub open spec fn lint_flags(settings: Seq<(Seq<char>, Seq<char>)>) -> Seq<Seq<char>>
    decreases settings.len(),
{
    if settings.len() == 0 {
        Seq::empty()
    } else {
        let prev = lint_flags(settings.drop_last());
        match level_flag_prefix(settings.last().1) {
            Some(p) => prev.push(p + " "@ + settings.last().0),
            None => prev,
        }
    }
}

fn flag_prefix(level: &str) -> (res: Option<&'static str>)
    ensures
        res matches Some(p) ==> level_flag_prefix(level@) == Some(p@),
        res is None ==> level_flag_prefix(level@) is None,
{
    proof {
        reveal_strlit("-A");
        reveal_strlit("-W");
        reveal_strlit("-D");
    }
    if str_eq(level, "allow") {
        Some("-A")
    } else if str_eq(level, "warn") {
        Some("-W")
    } else if str_eq(level, "deny") {
        Some("-D")
    } else {
        None
    }
}

impl BudgetConfig {
    /// Converts the lint severity settings into rustc-compatible flags for
    /// `DYLINT_RUSTFLAGS`: `allow` → `-A`, `warn` → `-W`, `deny` → `-D`,
    /// each followed by a space and the lint name. A setting with any other
    /// level gives no flag; no `[lints]` section gives no flags.
    pub fn to_lint_flags(&self) -> (res: Vec<String>)
        ensures
            self.lints is None ==> res@.len() == 0,
            self.lints matches Some(v) ==> res@.map_values(|f: String| f@) == lint_flags(settings_view(v@)),
    {
        let lints = match &self.lints {
            None => {
                return Vec::new();
            },
            Some(v) => v,
        };
        let mut flags: Vec<String> = Vec::new();
        let mut i: usize = 0;
        while i < lints.len()
            invariant
                i <= lints@.len(),
                flags@.map_values(|f: String| f@) == lint_flags(settings_view(lints@.take(i as int))),
            decreases lints@.len() - i,
        {
            let ghost prefix = lints@.take(i as int);
            assert(settings_view(lints@.take(i + 1)).drop_last() =~= settings_view(prefix));
            let e = &lints[i];
            match flag_prefix(e.level.as_str()) {
                Some(p) => {
                    let mut flag = owned(p);
                    push_str(&mut flag, " ");
                    push_str(&mut flag, e.name.as_str());
                    let ghost before = flags@;
                    flags.push(flag);
                    assert(flags@.map_values(|f: String| f@) =~= before.map_values(|f: String| f@).push(
                        flag@,
                    ));
                },
                None => {},
            }
            i = i + 1;
        }
        assert(lints@.take(i as int) =~= lints@);
        flags
    }
}

/// Why a `budget.toml` lint section was rejected.
#[derive(Clone, Debug)]
pub enum ConfigError {
    /// A lint name that is not in the inventory, as the user wrote it.
    UnknownLintName { name: String, path: String, valid: String },
    /// A level other than `allow`, `warn` or `deny`.
    InvalidLintLevel { level: String, lint: String, path: String },
    /// Two spellings of one lint set to different levels.
    DuplicateLintName { name: String, path: String },
}

/// The text reported for a rejected lint section.
pub open spec fn config_error_text(e: ConfigError) -> Seq<char> {
    match e {
        ConfigError::UnknownLintName { name, path, valid } => "Error: Unknown lint name '"@ + name@ + "' in "@
            + path@ + ". Valid lints: "@ + valid@,
        ConfigError::InvalidLintLevel { level, lint, path } => "Error: Unknown lint level '"@ + level@ + "' for '"@
            + lint@ + "' in "@ + path@ + ". Valid levels are allow, warn, and deny."@,
        ConfigError::DuplicateLintName { name, path } => "Error: Conflicting levels for '"@ + name@ + "' in "@
            + path@ + ": the same lint is spelled two ways with different levels; keep one spelling"@,
    }
}

impl ConfigError {
    /// The message reported for this rejection, naming the file and the offending value.
    pub fn message(&self) -> (res: String)
        ensures
            res@ == config_error_text(*self),
    {
        match self {
            ConfigError::UnknownLintName { name, path, valid } => {
                let mut m = owned("Error: Unknown lint name '");
                push_str(&mut m, name.as_str());
                push_str(&mut m, "' in ");
                push_str(&mut m, path.as_str());
                push_str(&mut m, ". Valid lints: ");
                push_str(&mut m, valid.as_str());
                m
            },
            ConfigError::InvalidLintLevel { level, lint, path } => {
                let mut m = owned("Error: Unknown lint level '");
                push_str(&mut m, level.as_str());
                push_str(&mut m, "' for '");
                push_str(&mut m, lint.as_str());
                push_str(&mut m, "' in ");
                push_str(&mut m, path.as_str());
                push_str(&mut m, ". Valid levels are allow, warn, and deny.");
                m
            },
            ConfigError::DuplicateLintName { name, path } => {
                let mut m = owned("Error: Conflicting levels for '");
                push_str(&mut m, name.as_str());
                push_str(&mut m, "' in ");
                push_str(&mut m, path.as_str());
                push_str(
                    &mut m,
                    ": the same lint is spelled two ways with different levels; keep one spelling",
                );
                m
            },
        }
    }
}

/// The kind of a rejection, for specifications.
#[derive(Clone, Copy, Debug, PartialEq, Eq, Structural)]
pub enum Rejection {
    UnknownName,
    BadLevel,
    Conflict,
}

/// Whether `level` is one of `allow`, `warn`, `deny`.
pub open spec fn is_valid_level(level: Seq<char>) -> bool {
    level == "allow"@ || level == "warn"@ || level == "deny"@
}

/// Whether an earlier entry spells the same (normalised) lint with another level.
pub open spec fn conflicts_with(prev: Seq<LintSetting>, name: Seq<char>, level: Seq<char>) -> bool {
    exists|j: int| 0 <= j < prev.len() && lowercase(#[trigger] prev[j].name@) == name && prev[j].level@ != level
}

/// The first entry that makes `entries` invalid, with the reason, if any.
pub open spec fn first_rejection(entries: Seq<LintSetting>, known: Seq<&str>) -> Option<(int, Rejection)>
    decreases entries.len(),
{
    if entries.len() == 0 {
        None
    } else {
        match first_rejection(entries.drop_last(), known) {
            Some(r) => Some(r),
            None => {
                let e = entries.last();
                let n = lowercase(e.name@);
                if !is_one_of(n, known) {
                    Some(((entries.len() - 1) as int, Rejection::UnknownName))
                } else if !is_valid_level(e.level@) {
                    Some(((entries.len() - 1) as int, Rejection::BadLevel))
                } else if conflicts_with(entries.drop_last(), n, e.level@) {
                    Some(((entries.len() - 1) as int, Rejection::Conflict))
                } else {
                    None
                }
            },
        }
    }
}

/// Whether some setting in `s` has name `name`.
pub open spec fn names_setting(s: Seq<LintSetting>, name: Seq<char>) -> bool {
    exists|j: int| 0 <= j < s.len() && #[trigger] s[j].name@ == name
}

/// The canonical settings: one per normalised lint name, first spelling's
/// position, with its level.
pub open spec fn canonical_settings(entries: Seq<LintSetting>) -> Seq<(Seq<char>, Seq<char>)>
    decreases entries.len(),
{
    if entries.len() == 0 {
        Seq::empty()
    } else {
        let prev = canonical_settings(entries.drop_last());
        let n = lowercase(entries.last().name@);
        if exists|j: int| 0 <= j < prev.len() && #[trigger] prev[j].0 == n {
            prev
        } else {
            prev.push((n, entries.last().level@))
        }
    }
}

/// The view of settings as (name, level) pairs.
pub open spec fn settings_view(s: Seq<LintSetting>) -> Seq<(Seq<char>, Seq<char>)> {
    s.map_values(|e: LintSetting| (e.name@, e.level@))
}

/// The list of names joined with `sep`.
pub open spec fn joined(items: Seq<&str>, sep: Seq<char>) -> Seq<char>
    decreases items.len(),
{
    if items.len() == 0 {
        Seq::empty()
    } else if items.len() == 1 {
        items[0]@
    } else {
        joined(items.drop_last(), sep) + sep + items.last()@
    }
}

/// Joins `items` with `sep` between consecutive items.
pub fn join_strs(items: &[&str], sep: &str) -> (res: String)
    ensures
        res@ == joined(items@, sep@),
{
    let mut out = String::new();
    let mut i: usize = 0;
    while i < items.len()
        invariant
            i <= items@.len(),
            out@ == joined(items@.take(i as int), sep@),
        decreases items@.len() - i,
    {
        assert(items@.take(i + 1).drop_last() =~= items@.take(i as int));
        if i > 0 {
            push_str(&mut out, sep);
        }
        push_str(&mut out, items[i]);
        proof {
            if i == 0 {
                assert(out@ =~= items@.take(1)[0]@);
            }
        }
        i = i + 1;
    }
    assert(items@.take(i as int) =~= items@);
    out
}

/// Every setting of `s` has a valid level, a known name, and no name occurs twice.
pub open spec fn settings_canonical(s: Seq<(Seq<char>, Seq<char>)>, known: Seq<&str>) -> bool {
    &&& forall|j: int| 0 <= j < s.len() ==> is_valid_level(#[trigger] s[j].1) && is_one_of(s[j].0, known)
    &&& forall|a: int, b: int| 0 <= a < b < s.len() ==> (#[trigger] s[a]).0 != (#[trigger] s[b]).0
}

/// Whether the folded name and the level of `e` are one of the settings `s`.
pub open spec fn represented(s: Seq<(Seq<char>, Seq<char>)>, e: LintSetting) -> bool {
    exists|j: int| 0 <= j < s.len() && #[trigger] s[j] == (lowercase(e.name@), e.level@)
}

/// Whether `p` is the folded name and the level of some entry of `entries`.
pub open spec fn sourced(entries: Seq<LintSetting>, p: (Seq<char>, Seq<char>)) -> bool {
    exists|k: int| 0 <= k < entries.len() && p == (lowercase(#[trigger] entries[k].name@), entries[k].level@)
}

/// A lint section that passes validation folds into canonical settings: each
/// lint appears once, under a known lower-cased name, with a valid level, and
/// every configured entry is represented by the setting of its folded name,
/// with the same level.
pub proof fn law_validated_settings_are_canonical(entries: Seq<LintSetting>, known: Seq<&str>)
    requires
        first_rejection(entries, known) is None,
    ensures
        settings_canonical(canonical_settings(entries), known),
        forall|k: int| 0 <= k < entries.len() ==> #[trigger] represented(canonical_settings(entries), entries[k]),
        forall|j: int| 0 <= j < canonical_settings(entries).len() ==> #[trigger] sourced(entries, canonical_settings(entries)[j]),
    decreases entries.len(),
{
    if entries.len() > 0 {
        let prev = entries.drop_last();
        law_validated_settings_are_canonical(prev, known);
        let c = canonical_settings(prev);
        let n = lowercase(entries.last().name@);
        let lvl = entries.last().level@;
        let all = canonical_settings(entries);
        if exists|j: int| 0 <= j < c.len() && #[trigger] c[j].0 == n {
            let j = choose|j: int| 0 <= j < c.len() && #[trigger] c[j].0 == n;
            assert(all == c);
            // The folded name was configured before, and with the same level.
            assert(sourced(prev, c[j]));
            let k = choose|k: int| 0 <= k < prev.len() && c[j] == (lowercase(#[trigger] prev[k].name@), prev[k].level@);
            assert(!conflicts_with(prev, n, lvl));
            assert(lowercase(prev[k].name@) == n);
            assert(c[j] == (n, lvl));
            assert forall|q: int| 0 <= q < entries.len() implies #[trigger] represented(all, entries[q]) by {
                if q < prev.len() {
                    assert(entries[q] == prev[q]);
                } else {
                    assert(all[j] == (lowercase(entries[q].name@), entries[q].level@));
                }
            }
            assert forall|i: int| 0 <= i < all.len() implies #[trigger] sourced(entries, all[i]) by {
                assert(sourced(prev, c[i]));
                let k = choose|k: int| 0 <= k < prev.len() && c[i] == (lowercase(#[trigger] prev[k].name@), prev[k].level@);
                assert(entries[k] == prev[k]);
            }
        } else {
            assert(all == c.push((n, lvl)));
            assert forall|q: int| 0 <= q < entries.len() implies #[trigger] represented(all, entries[q]) by {
                if q < prev.len() {
                    assert(entries[q] == prev[q]);
                    assert(represented(c, prev[q]));
                    let i = choose|i: int| 0 <= i < c.len() && #[trigger] c[i] == (lowercase(prev[q].name@), prev[q].level@);
                    assert(all[i] == c[i]);
                } else {
                    assert(all[c.len() as int] == (n, lvl));
                }
            }
            assert forall|i: int| 0 <= i < all.len() implies #[trigger] sourced(entries, all[i]) by {
                if i < c.len() {
                    assert(sourced(prev, c[i]));
                    let k = choose|k: int| 0 <= k < prev.len() && c[i] == (lowercase(#[trigger] prev[k].name@), prev[k].level@);
                    assert(entries[k] == prev[k]);
                } else {
                    assert(all[i] == (lowercase(entries[entries.len() - 1].name@), entries[entries.len() - 1].level@));
                }
            }
        }
    }
}

/// Under validation, `to_lint_flags` gives exactly one flag per configured lint.
pub proof fn law_validated_config_gives_one_flag_per_lint(entries: Seq<LintSetting>, known: Seq<&str>)
    requires
        first_rejection(entries, known) is None,
    ensures
        lint_flags(canonical_settings(entries)).len() == canonical_settings(entries).len(),
{
    law_validated_settings_are_canonical(entries, known);
    lemma_valid_levels_flag_count(canonical_settings(entries));
}

/// With only valid levels, each setting gives one flag.
proof fn lemma_valid_levels_flag_count(s: Seq<(Seq<char>, Seq<char>)>)
    requires
        forall|j: int| 0 <= j < s.len() ==> is_valid_level(#[trigger] s[j].1),
    ensures
        lint_flags(s).len() == s.len(),
    decreases s.len(),
{
    if s.len() > 0 {
        assert(is_valid_level(s[s.len() - 1].1));
        lemma_valid_levels_flag_count(s.drop_last());
    }
}

/// The outcome `budget.toml` validation owes for `lints` against the `known` inventory.
pub open spec fn validation_ok(lints: Option<Seq<LintSetting>>, known: Seq<&str>) -> bool {
    match lints {
        None => true,
        Some(entries) => first_rejection(entries, known) is None,
    }
}

fn find_canonical(out: &Vec<LintSetting>, name: &str) -> (res: Option<usize>)
    ensures
        res matches Some(j) ==> j < out@.len() && out@[j as int].name@ == name@,
        res is None ==> !names_setting(out@, name@),
{
    let mut j: usize = 0;
    while j < out.len()
        invariant
            j <= out@.len(),
            forall|k: int| 0 <= k < j ==> (#[trigger] out@[k]).name@ != name@,
        decreases out@.len() - j,
    {
        if str_eq(out[j].name.as_str(), name) {
            return Some(j);
        }
        j = j + 1;
    }
    None
}

/// A rejection found in a prefix is the rejection of the whole sequence.
proof fn lemma_rejection_extends(s: Seq<LintSetting>, known: Seq<&str>, n: int)
    requires
        0 <= n <= s.len(),
        first_rejection(s.take(n), known) is Some,
    ensures
        first_rejection(s, known) == first_rejection(s.take(n), known),
    decreases s.len() - n,
{
    if n < s.len() {
        assert(s.take(n + 1).drop_last() =~= s.take(n));
        lemma_rejection_extends(s, known, n + 1);
    } else {
        assert(s.take(n) =~= s);
    }
}

/// Validates the `[lints]` section read from the `budget.toml` at `path`:
/// every name, folded to lower case, must be one of `known_lints`; every level
/// one of `allow`/`warn`/`deny`; and two spellings of one lint must agree on the
/// level. Entries are checked in order and the first offending entry decides
/// the error. On success the settings come back keyed by their canonical
/// names, one per lint, in order of first appearance.
pub fn validate_lints(lints: Option<Vec<LintSetting>>, known_lints: &[&str], path: &str) -> (res: Result<
    BudgetConfig,
    ConfigError,
>)
    ensures
        res is Ok <==> validation_ok(
            match lints {
                Some(v) => Some(v@),
                None => None,
            },
            known_lints@,
        ),
        lints is None ==> (res matches Ok(c) && c.lints is None),
        res matches Ok(c) ==> c.wf(),
        lints matches Some(v) ==> match res {
            Ok(c) => c.lints matches Some(out) && settings_view(out@) == canonical_settings(v@),
            Err(ConfigError::UnknownLintName { name, path: p, valid }) => first_rejection(v@, known_lints@)
                matches Some((i, Rejection::UnknownName)) && name@ == v@[i].name@ && p@ == path@ && valid@
                == joined(known_lints@, ", "@),
            Err(ConfigError::InvalidLintLevel { level, lint, path: p }) => first_rejection(v@, known_lints@)
                matches Some((i, Rejection::BadLevel)) && level@ == v@[i].level@ && lint@ == v@[i].name@ && p@
                == path@,
            Err(ConfigError::DuplicateLintName { name, path: p }) => first_rejection(v@, known_lints@)
                matches Some((i, Rejection::Conflict)) && name@ == lowercase(v@[i].name@) && p@ == path@,
        },
{
    let ghost given = lints;
    let entries = match lints {
        None => {
            return Ok(BudgetConfig { lints: None });
        },
        Some(v) => v,
    };
    assert(given == Some(entries));
    let mut out: Vec<LintSetting> = Vec::new();
    let mut i: usize = 0;
    while i < entries.len()
        invariant
            given == Some(entries),
            lints == given,
            i <= entries@.len(),
            first_rejection(entries@.take(i as int), known_lints@) is None,
            settings_view(out@) == canonical_settings(entries@.take(i as int)),
            forall|j: int| 0 <= j < out@.len() ==> exists|k: int| 0 <= k < i && #[trigger] out@[j].name@ == lowercase(entries@[k].name@) && out@[j].level@ == entries@[k].level@,
            forall|j: int, k: int| 0 <= j < out@.len() && 0 <= k < i && #[trigger] out@[j].name@ == lowercase(#[trigger] entries@[k].name@) ==> entries@[k].level@ == out@[j].level@,
            forall|k: int| 0 <= k < i ==> names_setting(out@, lowercase(#[trigger] entries@[k].name@)),
            forall|a: int, b: int| 0 <= a < out@.len() && 0 <= b < out@.len() && a != b ==> (#[trigger] out@[a]).name@ != (#[trigger] out@[b]).name@,
        decreases entries@.len() - i,
    {
        let ghost prefix = entries@.take(i as int);
        let ghost next = entries@.take(i + 1);
        assert(next.drop_last() =~= prefix);
        assert(next.last() == entries@[i as int]);
        let e = &entries[i];
        let name = normalize_lint_name(e.name.as_str());
        if !str_in(name.as_str(), known_lints) {
            proof {
                assert(!is_one_of(lowercase(next.last().name@), known_lints@));
                assert(first_rejection(next, known_lints@) == Some((i as int, Rejection::UnknownName)));
                lemma_rejection_extends(entries@, known_lints@, i + 1);
            }
            let valid = join_strs(known_lints, ", ");
            return Err(ConfigError::UnknownLintName {
                name: e.name.clone(),
                path: crate::text::owned(path),
                valid,
            });
        }
        if !(str_eq(e.level.as_str(), "allow") || str_eq(e.level.as_str(), "warn") || str_eq(e.level.as_str(), "deny")) {
            proof {
                lemma_rejection_extends(entries@, known_lints@, i + 1);
            }
            return Err(ConfigError::InvalidLintLevel {
                level: e.level.clone(),
                lint: e.name.clone(),
                path: crate::text::owned(path),
            });
        }
        match find_canonical(&out, name.as_str()) {
            Some(j) => {
                if !str_eq(out[j].level.as_str(), e.level.as_str()) {
                    proof {
                        let k = choose|k: int| 0 <= k < i && #[trigger] out@[j as int].name@ == lowercase(entries@[k].name@) && out@[j as int].level@ == entries@[k].level@;
                        assert(prefix[k] == entries@[k]);
                        assert(conflicts_with(prefix, name@, e.level@));
                        lemma_rejection_extends(entries@, known_lints@, i + 1);
                    }
                    return Err(ConfigError::DuplicateLintName { name, path: crate::text::owned(path) });
                }
                proof {
                    assert forall|k: int| 0 <= k < prefix.len() implies !(lowercase(#[trigger] prefix[k].name@) == name@ && prefix[k].level@ != e.level@) by {
                        assert(prefix[k] == entries@[k]);
                        if lowercase(entries@[k].name@) == name@ {
                            assert(out@[j as int].name@ == lowercase(entries@[k].name@));
                        }
                    }
                    assert(!conflicts_with(prefix, name@, e.level@));
                    assert(settings_view(out@)[j as int].0 == name@);
                    assert(settings_view(out@) =~= canonical_settings(next));
                    assert(names_setting(out@, lowercase(entries@[i as int].name@))) by {
                        assert(out@[j as int].name@ == name@);
                    }
                    assert forall|q: int| 0 <= q < i + 1 implies names_setting(out@, lowercase(#[trigger] entries@[q].name@)) by {}
                    assert forall|a: int, k: int| 0 <= a < out@.len() && 0 <= k < i + 1 && #[trigger] out@[a].name@ == lowercase(#[trigger] entries@[k].name@) implies entries@[k].level@ == out@[a].level@ by {
                        if k == i && a != j {
                            assert(out@[a].name@ != out@[j as int].name@);
                        }
                    }
                    assert forall|a: int| 0 <= a < out@.len() implies exists|k: int| 0 <= k < i + 1 && #[trigger] out@[a].name@ == lowercase(entries@[k].name@) && out@[a].level@ == entries@[k].level@ by {
                        let k = choose|k: int| 0 <= k < i && #[trigger] out@[a].name@ == lowercase(entries@[k].name@) && out@[a].level@ == entries@[k].level@;
                    }
                }
            },
            None => {
                proof {
                    assert(!conflicts_with(prefix, name@, e.level@)) by {
                        if conflicts_with(prefix, name@, e.level@) {
                            let k = choose|k: int| 0 <= k < prefix.len() && lowercase(#[trigger] prefix[k].name@) == name@ && prefix[k].level@ != e.level@;
                            assert(prefix[k] == entries@[k]);
                            assert(names_setting(out@, lowercase(entries@[k].name@)));
                        }
                    }
                    assert(!(exists|q: int| 0 <= q < canonical_settings(prefix).len() && #[trigger] canonical_settings(prefix)[q].0 == name@)) by {
                        if exists|q: int| 0 <= q < canonical_settings(prefix).len() && #[trigger] canonical_settings(prefix)[q].0 == name@ {
                            let q = choose|q: int| 0 <= q < canonical_settings(prefix).len() && #[trigger] canonical_settings(prefix)[q].0 == name@;
                            assert(settings_view(out@)[q].0 == out@[q].name@);
                        }
                    }
                }
                let ghost out_before = out@;
                out.push(LintSetting { name, level: e.level.clone() });
                proof {
                    assert(settings_view(out@) =~= canonical_settings(next));
                    assert forall|q: int| 0 <= q < i + 1 implies names_setting(out@, lowercase(#[trigger] entries@[q].name@)) by {
                        if q < i {
                            let j = choose|j: int| 0 <= j < out_before.len() && #[trigger] out_before[j].name@ == lowercase(entries@[q].name@);
                            assert(out@[j] == out_before[j]);
                        } else {
                            assert(out@[out@.len() - 1].name@ == lowercase(entries@[q].name@));
                        }
                    }
                    assert forall|a: int, b: int| 0 <= a < out@.len() && 0 <= b < out@.len() && a != b implies (#[trigger] out@[a]).name@ != (#[trigger] out@[b]).name@ by {
                        if a == out@.len() - 1 {
                            assert(out@[b] == out_before[b]);
                        } else if b == out@.len() - 1 {
                            assert(out@[a] == out_before[a]);
                        } else {
                            assert(out@[a] == out_before[a]);
                            assert(out@[b] == out_before[b]);
                        }
                    }
                    assert forall|a: int, k: int| 0 <= a < out@.len() && 0 <= k < i + 1 && #[trigger] out@[a].name@ == lowercase(#[trigger] entries@[k].name@) implies entries@[k].level@ == out@[a].level@ by {
                        if a < out@.len() - 1 {
                            assert(out@[a] == out_before[a]);
                            if k == i {
                                assert(names_setting(out_before, name@));
                            }
                        } else if k < i {
                            assert(names_setting(out_before, lowercase(entries@[k].name@)));
                            let j2 = choose|j2: int| 0 <= j2 < out_before.len() && #[trigger] out_before[j2].name@ == lowercase(entries@[k].name@);
                        }
                    }
                    assert forall|a: int| 0 <= a < out@.len() implies exists|k: int| 0 <= k < i + 1 && #[trigger] out@[a].name@ == lowercase(entries@[k].name@) && out@[a].level@ == entries@[k].level@ by {
                        if a < out@.len() - 1 {
                            assert(out@[a] == out_before[a]);
                            let k = choose|k: int| 0 <= k < i && #[trigger] out_before[a].name@ == lowercase(entries@[k].name@) && out_before[a].level@ == entries@[k].level@;
                        } else {
                            assert(out@[a].name@ == lowercase(entries@[i as int].name@));
                        }
                    }
                }
            },
        }
        i = i + 1;
    }
    assert(entries@.take(i as int) =~= entries@);
    Ok(BudgetConfig { lints: Some(out) })
}

} // verus!
