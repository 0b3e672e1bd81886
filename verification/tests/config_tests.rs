use cargo_cost_lint::config::{normalize_lint_name, validate_lints, BudgetConfig, ConfigError, LintSetting};

const KNOWN_LINTS: &[&str] = &["soroban_storage_in_loop", "redundant_env_clone", "redundant_address_clone"];

fn setting(name: &str, level: &str) -> LintSetting {
    LintSetting { name: name.to_string(), level: level.to_string() }
}

#[test]
fn default_config_has_no_lints() {
    let config = BudgetConfig::default();
    assert!(config.lints.is_none());
    assert!(config.to_lint_flags().is_empty());
}

#[test]
fn normalize_lint_name_folds_case_only() {
    assert_eq!(normalize_lint_name("Soroban_Storage_In_Loop"), "soroban_storage_in_loop");
    assert_eq!(normalize_lint_name("soroban_storage_in_loop"), "soroban_storage_in_loop");
    assert_eq!(normalize_lint_name("not-a-lint"), "not-a-lint");
}

#[test]
fn to_lint_flags_maps_severity_to_rustc_flag() {
    let lints = vec![setting("soroban_storage_in_loop", "deny"), setting("redundant_env_clone", "warn")];
    let config = BudgetConfig { lints: Some(lints) };
    let flags = config.to_lint_flags();
    assert_eq!(flags.len(), 2);
    assert!(flags.contains(&"-D soroban_storage_in_loop".to_string()));
    assert!(flags.contains(&"-W redundant_env_clone".to_string()));
}

#[test]
fn allow_maps_to_a_and_unknown_levels_give_no_flag() {
    let config = BudgetConfig { lints: Some(vec![setting("redundant_env_clone", "allow"), setting("x", "loud")]) };
    assert_eq!(config.to_lint_flags(), vec!["-A redundant_env_clone".to_string()]);
}

#[test]
fn validation_accepts_any_casing_and_returns_canonical_keys() {
    let config = validate_lints(
        Some(vec![setting("Soroban_Storage_In_Loop", "deny"), setting("Redundant_Env_Clone", "warn")]),
        KNOWN_LINTS,
        "budget.toml",
    )
    .unwrap();
    let lints = config.lints.as_ref().unwrap();
    assert_eq!(lints.len(), 2);
    assert_eq!(lints[0].name, "soroban_storage_in_loop");
    assert_eq!(lints[0].level, "deny");
    assert_eq!(lints[1].name, "redundant_env_clone");
    let flags = config.to_lint_flags();
    assert_eq!(flags.len(), 2);
    assert!(flags.contains(&"-D soroban_storage_in_loop".to_string()));
}

#[test]
fn validation_rejects_unknown_lint_name() {
    match validate_lints(Some(vec![setting("not_a_real_lint", "deny")]), KNOWN_LINTS, "budget.toml") {
        Err(ConfigError::UnknownLintName { name, path, valid }) => {
            assert_eq!(name, "not_a_real_lint");
            assert_eq!(path, "budget.toml");
            assert_eq!(valid, "soroban_storage_in_loop, redundant_env_clone, redundant_address_clone");
        }
        other => panic!("expected UnknownLintName, got {:?}", other),
    }
}

#[test]
fn validation_rejects_unknown_level() {
    match validate_lints(Some(vec![setting("soroban_storage_in_loop", "oops")]), KNOWN_LINTS, "budget.toml") {
        Err(ConfigError::InvalidLintLevel { level, lint, path }) => {
            assert_eq!(level, "oops");
            assert_eq!(lint, "soroban_storage_in_loop");
            assert_eq!(path, "budget.toml");
        }
        other => panic!("expected InvalidLintLevel, got {:?}", other),
    }
}

#[test]
fn validation_rejects_case_variants_that_disagree_on_level() {
    match validate_lints(
        Some(vec![setting("Soroban_Storage_In_Loop", "deny"), setting("soroban_storage_in_loop", "warn")]),
        KNOWN_LINTS,
        "budget.toml",
    ) {
        Err(ConfigError::DuplicateLintName { name, path }) => {
            assert_eq!(name, "soroban_storage_in_loop");
            assert_eq!(path, "budget.toml");
        }
        other => panic!("expected DuplicateLintName, got {:?}", other),
    }
}

#[test]
fn validation_collapses_case_variants_that_agree() {
    let config = validate_lints(
        Some(vec![setting("Soroban_Storage_In_Loop", "deny"), setting("soroban_storage_in_loop", "deny")]),
        KNOWN_LINTS,
        "budget.toml",
    )
    .unwrap();
    let lints = config.lints.unwrap();
    assert_eq!(lints.len(), 1);
    assert_eq!(lints[0].name, "soroban_storage_in_loop");
    assert_eq!(lints[0].level, "deny");
}

#[test]
fn validation_without_lints_section_keeps_none() {
    let config = validate_lints(None, KNOWN_LINTS, "budget.toml").unwrap();
    assert!(config.lints.is_none());
    assert!(config.to_lint_flags().is_empty());
}

/// The first offending entry decides the error.
#[test]
fn validation_reports_the_first_offence() {
    match validate_lints(
        Some(vec![setting("soroban_storage_in_loop", "oops"), setting("nope", "deny")]),
        KNOWN_LINTS,
        "b.toml",
    ) {
        Err(ConfigError::InvalidLintLevel { .. }) => {}
        other => panic!("expected InvalidLintLevel, got {:?}", other),
    }
}

#[test]
fn normalizing_twice_changes_nothing() {
    for name in ["Soroban_Storage_In_Loop", "REDUNDANT_ENV_CLONE", "already_lower"] {
        let once = normalize_lint_name(name);
        assert_eq!(normalize_lint_name(&once), once);
    }
}

/// A validated section yields exactly one flag per configured lint.
#[test]
fn validated_config_gives_one_flag_per_lint() {
    let config = validate_lints(
        Some(vec![
            setting("Soroban_Storage_In_Loop", "deny"),
            setting("soroban_storage_in_loop", "deny"),
            setting("redundant_address_clone", "allow"),
        ]),
        KNOWN_LINTS,
        "budget.toml",
    )
    .unwrap();
    assert_eq!(config.to_lint_flags(), vec!["-D soroban_storage_in_loop".to_string(), "-A redundant_address_clone".to_string()]);
}

#[test]
fn rejection_messages_name_the_file_and_value() {
    let e = validate_lints(Some(vec![setting("nope", "deny")]), &["a", "b"], "budget.toml").unwrap_err();
    assert_eq!(e.message(), "Error: Unknown lint name 'nope' in budget.toml. Valid lints: a, b");
    let e = validate_lints(Some(vec![setting("a", "oops")]), &["a"], "budget.toml").unwrap_err();
    assert_eq!(
        e.message(),
        "Error: Unknown lint level 'oops' for 'a' in budget.toml. Valid levels are allow, warn, and deny."
    );
    let e = validate_lints(Some(vec![setting("A", "deny"), setting("a", "warn")]), &["a"], "budget.toml").unwrap_err();
    assert_eq!(
        e.message(),
        "Error: Conflicting levels for 'a' in budget.toml: the same lint is spelled two ways with different levels; keep one spelling"
    );
}
