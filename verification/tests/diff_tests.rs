use cargo_cost_lint::diff::{
    branch_from_origin_head, choose_default_branch, default_branch_candidates, diff_file_names, merge_base_sha, no_merge_base_message,
    origin_branch, strip_prefix,
};
use cargo_cost_lint::paths::{filter_files_by_changed, is_file_changed};

#[test]
fn test_filter_files_by_changed() {
    let root = "/workspace";
    let files = vec!["src/lib.rs".to_string(), "src/other.rs".to_string(), "tests/test.rs".to_string()];
    let changed = vec!["src/lib.rs".to_string()];

    let filtered = filter_files_by_changed(&files, &changed, root);
    assert_eq!(filtered.len(), 1);
    assert_eq!(filtered[0], "src/lib.rs");
}

#[test]
fn test_filter_empty_changed() {
    let root = "/workspace";
    let files = vec!["src/lib.rs".to_string()];
    let changed: Vec<String> = vec![];

    let filtered = filter_files_by_changed(&files, &changed, root);
    assert!(filtered.is_empty());
}

#[test]
fn changed_file_matches_only_the_root_relative_path() {
    let changed = vec!["src/lib.rs".to_string()];
    assert!(is_file_changed("/workspace/src/lib.rs", &changed, "/workspace"));
    assert!(is_file_changed("src/lib.rs", &changed, "/workspace"));
    assert!(!is_file_changed("other/src/lib.rs", &changed, "/workspace"));
    assert!(!is_file_changed("tests/lib.rs", &changed, "/workspace"));
    assert!(!is_file_changed("/workspace/tests/mylib.rs", &changed, "/workspace"));
    assert!(!is_file_changed("/workspace/src/main.rs", &changed, "/workspace"));
}

#[test]
fn origin_head_names_the_default_branch() {
    assert_eq!(branch_from_origin_head(true, "refs/remotes/origin/main\n"), Some("main".to_string()));
    assert_eq!(branch_from_origin_head(true, "refs/heads/main\n"), None);
    assert_eq!(branch_from_origin_head(false, "refs/remotes/origin/main\n"), None);
    assert_eq!(default_branch_candidates(), vec!["main", "master"]);
    assert_eq!(origin_branch("main"), "origin/main");
}

#[test]
fn diff_names_skip_empty_lines_and_trim() {
    assert_eq!(
        diff_file_names("src/lib.rs\n\n src/a.rs \r\nREADME.md"),
        vec!["src/lib.rs".to_string(), "src/a.rs".to_string(), "README.md".to_string()]
    );
    assert!(diff_file_names("").is_empty());
    assert_eq!(merge_base_sha("abc123\n"), "abc123");
    assert_eq!(
        no_merge_base_message("main", "fatal"),
        "No common ancestor found between HEAD and origin/main.\nfatal"
    );
    assert_eq!(strip_prefix("abc", "ab"), Some("c".to_string()));
    assert_eq!(strip_prefix("abc", "b"), None);
}

#[test]
fn default_branch_is_origin_head_then_main_then_master() {
    assert_eq!(choose_default_branch(true, "refs/remotes/origin/develop\n", true, true), Ok("develop".to_string()));
    assert_eq!(choose_default_branch(false, "", true, true), Ok("main".to_string()));
    assert_eq!(choose_default_branch(true, "refs/heads/main\n", false, true), Ok("master".to_string()));
    let err = choose_default_branch(false, "", false, false).unwrap_err();
    assert!(err.starts_with("Could not determine the default branch."));
    assert_eq!(
        err,
        "Could not determine the default branch. Ensure 'origin/HEAD', 'origin/main', or 'origin/master' exists."
    );
}
