use cargo_cost_lint::cache::{
    cache_entry_path, get_cache_dir, hash_source_files, is_cache_entry_extension, is_source_target,
    toolchain_version_text, select_source_files, sort_source_files, CacheEntry, CacheKey, SourceFile, WalkedFile,
};
use cargo_cost_lint::hasher::DeterministicHasher;

fn sample_cache_key() -> CacheKey {
    CacheKey {
        linter_version: "0.1.1".to_string(),
        toolchain: "rustc 1.86.0-nightly (2026-04-16)".to_string(),
        lint_flags: vec!["-D soroban_storage_in_loop".to_string()],
        package_args: vec!["--package".to_string(), "my-contract".to_string()],
        output_format: "text".to_string(),
        source_hash: "a1b2c3d4e5f6".to_string(),
    }
}

#[test]
fn test_cache_key_deterministic() {
    let key1 = sample_cache_key();
    let key2 = sample_cache_key();
    assert_eq!(key1.compute_hash(), key2.compute_hash());
}

#[test]
fn test_cache_key_invalidated_by_source_change() {
    let key1 = sample_cache_key();
    let mut key2 = sample_cache_key();
    key2.source_hash = "f6e5d4c3b2a1".to_string();
    assert_ne!(key1.compute_hash(), key2.compute_hash());
}

#[test]
fn test_cache_key_invalidated_by_lint_levels_change() {
    let key1 = sample_cache_key();
    let mut key2 = sample_cache_key();
    key2.lint_flags = vec!["-W soroban_storage_in_loop".to_string()];
    assert_ne!(key1.compute_hash(), key2.compute_hash());
}

#[test]
fn test_cache_key_invalidated_by_linter_version_change() {
    let key1 = sample_cache_key();
    let mut key2 = sample_cache_key();
    key2.linter_version = "0.1.2".to_string();
    assert_ne!(key1.compute_hash(), key2.compute_hash());
}

#[test]
fn test_cache_key_invalidated_by_toolchain_change() {
    let key1 = sample_cache_key();
    let mut key2 = sample_cache_key();
    key2.toolchain = "rustc 1.87.0-nightly (2026-05-01)".to_string();
    assert_ne!(key1.compute_hash(), key2.compute_hash());
}

#[test]
fn test_cache_key_invalidated_by_output_format_change() {
    let key1 = sample_cache_key();
    let mut key2 = sample_cache_key();
    key2.output_format = "json".to_string();
    assert_ne!(key1.compute_hash(), key2.compute_hash());
}

#[test]
fn test_cache_key_invalidated_by_package_args_change() {
    let key1 = sample_cache_key();
    let mut key2 = sample_cache_key();
    key2.package_args = vec!["--workspace".to_string()];
    assert_ne!(key1.compute_hash(), key2.compute_hash());
}

/// FNV-1a of the empty input is the offset basis; of "a" it is the published vector.
#[test]
fn hasher_matches_fnv1a_reference_values() {
    let h = DeterministicHasher::new();
    assert_eq!(h.finish_hex(), "cbf29ce484222325");
    let mut h = DeterministicHasher::new();
    h.write_str("a");
    assert_eq!(h.finish_hex(), "af63dc4c8601ec8c");
    let mut h = DeterministicHasher::new();
    h.write_bytes(b"foobar");
    assert_eq!(h.finish_hex(), "85944171f73967e8");
}

#[test]
fn default_hasher_starts_from_zero() {
    let h = DeterministicHasher::default();
    assert_eq!(h.finish_hex(), "0000000000000000");
}

/// Hashing in two writes gives the same state as hashing the concatenation.
#[test]
fn hasher_writes_compose() {
    let mut a = DeterministicHasher::new();
    a.write_str("linter_version:");
    a.write_str("0.1.1");
    let mut b = DeterministicHasher::new();
    b.write_str("linter_version:0.1.1");
    assert_eq!(a.finish_hex(), b.finish_hex());
}

#[test]
fn cache_key_hash_is_sixteen_hex_digits() {
    let h = sample_cache_key().compute_hash();
    assert_eq!(h.len(), 16);
    assert!(h.chars().all(|c| c.is_ascii_hexdigit() && !c.is_ascii_uppercase()));
}

#[test]
fn cache_dir_defaults_under_current_directory() {
    assert_eq!(get_cache_dir(None), "./target/cost-lint-cache");
    assert_eq!(get_cache_dir(Some("/work/space")), "/work/space/target/cost-lint-cache");
}

#[test]
fn cache_entry_path_appends_json_file() {
    assert_eq!(cache_entry_path("/tmp/cache", "abc"), "/tmp/cache/abc.json");
    assert!(is_cache_entry_extension(Some("json")));
    assert!(!is_cache_entry_extension(Some("txt")));
    assert!(!is_cache_entry_extension(None));
}

#[test]
fn source_targets_are_rust_files_and_manifests() {
    assert!(is_source_target("rs", "main.rs"));
    assert!(is_source_target("toml", "Cargo.toml"));
    assert!(is_source_target("lock", "Cargo.lock"));
    assert!(is_source_target("toml", "budget.toml"));
    assert!(!is_source_target("toml", "rustfmt.toml"));
    assert!(!is_source_target("md", "README.md"));
}

#[test]
fn source_hash_changes_with_content() {
    let a = vec![SourceFile { rel_path: "src/main.rs".to_string(), content: b"fn main() {}".to_vec() }];
    let b = vec![SourceFile {
        rel_path: "src/main.rs".to_string(),
        content: b"fn main() { let x = 1; }".to_vec(),
    }];
    assert_ne!(hash_source_files(&a), hash_source_files(&b));
    assert_eq!(hash_source_files(&a), hash_source_files(&a.clone()));
    // Path then content, in order: the same bytes as one write of both.
    let mut h = DeterministicHasher::new();
    h.write_str("src/main.rsfn main() {}");
    assert_eq!(hash_source_files(&a), h.finish_hex());
}

#[test]
fn toolchain_text_is_trimmed_or_unknown() {
    assert_eq!(toolchain_version_text(true, "rustc 1.86.0\nhost: x\n"), "rustc 1.86.0\nhost: x");
    assert_eq!(toolchain_version_text(false, "ignored"), "unknown-toolchain");
}

#[test]
fn cache_entry_holds_run_output() {
    let e = CacheEntry { key: "k".to_string(), exit_code: 1, stdout: "out".to_string(), stderr: "err".to_string() };
    let c = e.clone();
    assert_eq!(c.exit_code, 1);
    assert_eq!(c.stdout, "out");
}

fn walked(path: &str, extension: &str, file_name: &str) -> WalkedFile {
    WalkedFile { path: path.to_string(), extension: extension.to_string(), file_name: file_name.to_string() }
}

#[test]
fn only_sources_and_manifests_are_selected() {
    let files = vec![
        walked("/w/src/main.rs", "rs", "main.rs"),
        walked("/w/README.md", "md", "README.md"),
        walked("/w/Cargo.toml", "toml", "Cargo.toml"),
        walked("/w/Cargo.lock", "lock", "Cargo.lock"),
        walked("/w/budget.toml", "toml", "budget.toml"),
        walked("/w/other.toml", "toml", "other.toml"),
        walked("/w/Makefile", "", "Makefile"),
    ];
    let kept: Vec<String> = select_source_files(files).into_iter().map(|f| f.path).collect();
    assert_eq!(kept, vec!["/w/src/main.rs", "/w/Cargo.toml", "/w/Cargo.lock", "/w/budget.toml"]);
    let with_readme = vec![walked("/w/README.md", "md", "README.md"), walked("/w/src/lib.rs", "rs", "lib.rs")];
    let without = vec![walked("/w/src/lib.rs", "rs", "lib.rs")];
    let a: Vec<String> = select_source_files(with_readme).into_iter().map(|f| f.path).collect();
    let b: Vec<String> = select_source_files(without).into_iter().map(|f| f.path).collect();
    assert_eq!(a, b);
    assert!(select_source_files(Vec::new()).is_empty());
}

fn src(rel: &str, content: &str) -> SourceFile {
    SourceFile { rel_path: rel.to_string(), content: content.as_bytes().to_vec() }
}

#[test]
fn sources_sort_by_path_components() {
    let sorted: Vec<String> = sort_source_files(vec![
        src("src/a.rs", "a"),
        src("Cargo.toml", "t"),
        src("src/a/b.rs", "b"),
        src("build.rs", "x"),
    ])
    .into_iter()
    .map(|f| f.rel_path)
    .collect();
    // Paths compare component by component: `a` sorts before `a.rs`.
    assert_eq!(sorted, vec!["Cargo.toml", "build.rs", "src/a/b.rs", "src/a.rs"]);
    assert!(sort_source_files(Vec::new()).is_empty());
}

#[test]
fn walk_order_does_not_change_the_hash() {
    let one = vec![src("src/main.rs", "fn main() {}"), src("Cargo.toml", "[package]"), src("src/lib.rs", "")];
    let two = vec![src("src/lib.rs", ""), src("src/main.rs", "fn main() {}"), src("Cargo.toml", "[package]")];
    let h1 = hash_source_files(&sort_source_files(one));
    let h2 = hash_source_files(&sort_source_files(two));
    assert_eq!(h1, h2);
    let changed = vec![src("src/main.rs", "fn main() { let x = 1; }"), src("Cargo.toml", "[package]"), src("src/lib.rs", "")];
    assert_ne!(h1, hash_source_files(&sort_source_files(changed)));
}
