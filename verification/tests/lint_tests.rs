use cargo_cost_lint::lints::discarded_storage_read::{is_expr_discarded, is_storage_read, Parent};
use cargo_cost_lint::lints::ledger_context_read_in_loop::{is_ledger_receiver, ledger_read_message};
use cargo_cost_lint::lints::loop_invariant_storage_access::{
    is_storage_access_call, ENV_STORAGE_METHOD, LOOP_INVARIANT_STORAGE_ACCESS_HELP,
};
use cargo_cost_lint::lints::metadata::{declared_lints, lint_inventory, lint_metadata, list_lints_text, LintCategory};
use cargo_cost_lint::lints::option_wrapping_in_storage::is_reported as option_write_reported;
use cargo_cost_lint::lints::redundant_require_auth::{redundant_auths, AuthStmt};
use cargo_cost_lint::lints::require_auth_in_loop::{is_require_auth_method, REQUIRE_AUTH_METHODS, SOROBAN_ADDRESS_TYPE};
use cargo_cost_lint::lints::soroban_redundant_storage_read::{
    extract_storage_op, is_soroban_root, is_storage_accessor_path, redundant_reads, StorageOp,
    SOROBAN_REDUNDANT_STORAGE_READ_HELP, SOROBAN_REDUNDANT_STORAGE_READ_MSG,
    STORAGE_READ_METHODS as REDUNDANT_READ_METHODS, STORAGE_WRITE_METHOD as REDUNDANT_WRITE_METHOD,
};
use cargo_cost_lint::lints::storage_read_modify_write::{
    infer_namespace_from_receiver, is_potential_storage_call, make_key, repeated_cycles, ExprShape, RmwOp, StorageKey,
};
use cargo_cost_lint::lints::storage_write_without_read::{
    is_initialiser, unread_writes, StorageCall, STORAGE_READ_METHODS, STORAGE_WRITE_METHOD,
    STORAGE_WRITE_WITHOUT_READ_HELP, STORAGE_WRITE_WITHOUT_READ_MSG,
};
use cargo_cost_lint::lints::string_concat_in_loop::{SOROBAN_STRING_PATH, STRING_CONCAT_METHODS};
use cargo_cost_lint::lints::unbounded_input_loop::{
    is_reported as unbounded_reported, iterates_over_input, name_contains_any, BodyCall, LoopSource, RangeBound,
    COLLECTION_FRAGMENTS, STORAGE_TYPE_FRAGMENTS, WRITE_METHODS,
};
use cargo_cost_lint::lints::unwrap_on_storage_get::{is_reported as unwrap_reported, PANICKING_METHODS, STORAGE_READ_METHOD};

#[test]
fn env_storage_method_name_is_stable() {
    assert_eq!(ENV_STORAGE_METHOD, "storage");
}

#[test]
fn help_is_a_single_sentence() {
    assert!(!LOOP_INVARIANT_STORAGE_ACCESS_HELP.contains('.'));
    assert!(LOOP_INVARIANT_STORAGE_ACCESS_HELP.contains("hoist"));
}

#[test]
fn storage_access_calls_are_accessor_methods_or_env_storage() {
    assert!(is_storage_access_call("get", true, false));
    assert!(is_storage_access_call("storage", false, true));
    assert!(!is_storage_access_call("ledger", false, true));
    assert!(!is_storage_access_call("storage", false, false));
}

#[test]
fn methods_are_exactly_the_two_authorization_calls() {
    assert_eq!(REQUIRE_AUTH_METHODS, ["require_auth", "require_auth_for_args"]);
    assert!(is_require_auth_method("require_auth"));
    assert!(is_require_auth_method("require_auth_for_args"));
    assert!(!is_require_auth_method("require_auth_for_args_extra"));
    assert!(!is_require_auth_method("clone"));
}

#[test]
fn only_address_is_tracked() {
    assert_eq!(SOROBAN_ADDRESS_TYPE, [["soroban_sdk", "Address"]]);
}

#[test]
fn accessor_paths_match_the_three_storage_tiers() {
    for path in [
        "soroban_sdk::storage::Instance",
        "soroban_sdk::storage::Persistent",
        "soroban_sdk::storage::Temporary",
    ] {
        assert!(is_storage_accessor_path(path));
    }
    assert!(!is_storage_accessor_path("soroban_sdk::storage::Storage"));
    assert!(!is_storage_accessor_path("core::option::Option"));
}

#[test]
fn anchored_paths_require_a_soroban_root() {
    assert!(is_storage_accessor_path("soroban_env_host::soroban_sdk::storage::Instance"));
    assert!(!is_storage_accessor_path("other_crate::storage::Instance"));
}

#[test]
fn roots_are_limited_to_known_sdk_crates() {
    assert!(is_soroban_root("soroban_sdk::storage::Instance"));
    assert!(is_soroban_root("soroban_env_host::storage::Instance"));
    assert!(is_soroban_root("soroban_env_common::storage::Instance"));
    assert!(!is_soroban_root("my_crate::storage::Instance"));
}

#[test]
fn method_tables_and_messages_are_pinned() {
    assert_eq!(REDUNDANT_READ_METHODS, ["get", "has"]);
    assert_eq!(REDUNDANT_WRITE_METHOD, "set");
    assert!(!SOROBAN_REDUNDANT_STORAGE_READ_MSG.is_empty());
    assert!(!SOROBAN_REDUNDANT_STORAGE_READ_HELP.is_empty());
}

fn read(acc: &str, key: &str) -> Option<StorageOp> {
    Some(StorageOp::Read { accessor: acc.to_string(), key_text: key.to_string() })
}

#[test]
fn repeated_reads_are_reported_until_a_write() {
    let inst = "soroban_sdk::storage::Instance";
    let pers = "soroban_sdk::storage::Persistent";
    let ops = vec![
        read(inst, "key"),
        read(inst, "key"),
        None,
        read(inst, "key"),
        Some(StorageOp::Write),
        read(inst, "key"),
        read(pers, "key"),
        read(pers, "other"),
    ];
    assert_eq!(redundant_reads(&ops), vec![1, 3]);
}

#[test]
fn storage_calls_classify_by_method_accessor_and_key() {
    let inst = "soroban_sdk::storage::Instance";
    assert!(matches!(extract_storage_op("get", Some(inst), Some("k")), Some(StorageOp::Read { .. })));
    assert!(matches!(extract_storage_op("set", Some(inst), None), Some(StorageOp::Write)));
    assert!(extract_storage_op("get", Some(inst), None).is_none());
    assert!(extract_storage_op("get", Some("soroban_sdk::storage::Storage"), Some("k")).is_none());
    assert!(extract_storage_op("remove", Some(inst), Some("k")).is_none());
    assert!(extract_storage_op("get", None, Some("k")).is_none());
}

#[test]
fn read_methods_cover_every_observing_access() {
    for method in ["get", "try_get", "has", "remove", "update"] {
        assert!(STORAGE_READ_METHODS.contains(&method), "{method} should count as a read",);
    }
    assert!(!STORAGE_READ_METHODS.contains(&"set"));
}

#[test]
fn write_method_is_set() {
    assert_eq!(STORAGE_WRITE_METHOD, "set");
}

#[test]
fn initialisers_are_recognised_by_substring() {
    for name in ["initialize", "init_owner", "set_admin", "set_admin_key"] {
        assert!(is_initialiser(name), "{name} should be an initialiser");
    }
    for name in ["transfer", "record_set", "read_admin_flag"] {
        assert!(!is_initialiser(name), "{name} should not be an initialiser");
    }
}

#[test]
fn message_and_help_are_non_empty() {
    assert!(!STORAGE_WRITE_WITHOUT_READ_MSG.is_empty());
    assert!(!STORAGE_WRITE_WITHOUT_READ_HELP.is_empty());
}

fn call(method: &str, receiver: &str, key: &str, args: usize) -> StorageCall {
    StorageCall {
        method: method.to_string(),
        storage_receiver: true,
        receiver: receiver.to_string(),
        key: key.to_string(),
        arg_count: args,
    }
}

#[test]
fn writes_without_an_earlier_read_are_reported() {
    let calls = vec![
        call("get", "env.storage().instance()", "&1", 1),
        call("set", "env.storage().instance()", "&1", 2),
        call("set", "env.storage().instance()", "&2", 2),
        call("set", "env.storage().persistent()", "&1", 2),
        call("has", "env.storage().persistent()", "&1", 1),
    ];
    assert_eq!(unread_writes("transfer", &calls), vec![2, 3]);
    assert!(unread_writes("initialize", &calls).is_empty());
}

#[test]
fn concat_method_list_is_exactly_append() {
    assert_eq!(STRING_CONCAT_METHODS, ["append"]);
}

#[test]
fn string_def_path_suffix_is_bare_type_name() {
    assert_eq!(SOROBAN_STRING_PATH, ["soroban_sdk", "String"]);
    let joined = SOROBAN_STRING_PATH.join("::");
    assert!(joined.ends_with("String"));
}

#[test]
fn no_empty_match_fragments() {
    assert!(COLLECTION_FRAGMENTS.iter().all(|f| !f.is_empty()));
    assert!(STORAGE_TYPE_FRAGMENTS.iter().all(|f| !f.is_empty()));
}

#[test]
fn write_methods_are_exact_storage_mutations() {
    assert_eq!(WRITE_METHODS, ["set", "put", "make_persistent"]);
    assert!(!WRITE_METHODS.contains(&"get"));
    assert!(!WRITE_METHODS.contains(&"has"));
}

#[test]
fn empty_fragment_list_matches_nothing() {
    assert!(!name_contains_any("Instance", &[]));
}

#[test]
fn unrelated_types_match_neither_list() {
    for name in ["bool", "u32", "i128", "()"] {
        assert!(!name_contains_any(name, &COLLECTION_FRAGMENTS), "{name} must not look like a collection");
        assert!(!name_contains_any(name, &STORAGE_TYPE_FRAGMENTS), "{name} must not look like a storage accessor");
    }
}

#[test]
fn every_soroban_name_is_recognised() {
    for name in ["Vec", "Map", "Array", "Bytes", "Set", "Vec<soroban_sdk::map::Map<u32, u32>>"] {
        assert!(name_contains_any(name, &COLLECTION_FRAGMENTS), "{name} must be recognised as a collection");
    }

    for name in ["Storage", "Instance", "Persistent", "Temporary", "soroban_sdk::storage::Persistent"] {
        assert!(name_contains_any(name, &STORAGE_TYPE_FRAGMENTS), "{name} must be recognised as a storage accessor");
    }
}

#[test]
fn the_two_fragment_lists_are_disjoint() {
    for storage in STORAGE_TYPE_FRAGMENTS {
        assert!(!COLLECTION_FRAGMENTS.contains(&storage), "{storage} appears in both fragment lists");
    }
}

#[test]
fn input_driven_loops_with_storage_writes_are_reported() {
    let over_input = LoopSource::MethodCall { method: "iter".to_string(), receiver_type: "Vec<u32>".to_string() };
    let over_range = LoopSource::Call {
        args: vec![RangeBound::Expr { ty: "i32".to_string() }, RangeBound::MethodCall {
            method: "len".to_string(),
            receiver_type: "soroban_sdk::Vec<u32>".to_string(),
        }],
    };
    let fixed = LoopSource::Call { args: vec![RangeBound::Expr { ty: "i32".to_string() }] };
    assert!(iterates_over_input(&over_input));
    assert!(iterates_over_input(&over_range));
    assert!(!iterates_over_input(&fixed));
    assert!(iterates_over_input(&LoopSource::PathOrBorrow { ty: "Map<u32, u32>".to_string() }));
    assert!(!iterates_over_input(&LoopSource::Other));
    let writes = vec![BodyCall { method: "set".to_string(), receiver_type: "soroban_sdk::storage::Persistent".to_string() }];
    let reads = vec![BodyCall { method: "get".to_string(), receiver_type: "soroban_sdk::storage::Persistent".to_string() }];
    assert!(unbounded_reported(&over_input, &writes));
    assert!(!unbounded_reported(&over_input, &reads));
    assert!(!unbounded_reported(&fixed, &writes));
}

#[test]
fn panic_list_is_exactly_unwrap_and_expect() {
    assert_eq!(PANICKING_METHODS, ["unwrap", "expect"]);
}

#[test]
fn storage_read_method_is_get() {
    assert_eq!(STORAGE_READ_METHOD, "get");
}

#[test]
fn unwrap_on_storage_get_outside_tests_is_reported() {
    assert!(unwrap_reported("unwrap", Some("get"), true, false));
    assert!(unwrap_reported("expect", Some("get"), true, false));
    assert!(!unwrap_reported("unwrap", Some("get"), true, true));
    assert!(!unwrap_reported("unwrap", Some("has"), true, false));
    assert!(!unwrap_reported("unwrap_or", Some("get"), true, false));
    assert!(!unwrap_reported("unwrap", None, true, false));
}

fn auth(method: &str, ty: &str, text: &str) -> AuthStmt {
    AuthStmt { method: Some(method.to_string()), receiver_type: ty.to_string(), receiver_text: Some(text.to_string()) }
}

#[test]
fn repeated_authorizations_are_reported_until_a_contract_call() {
    let stmts = vec![
        auth("require_auth", "soroban_sdk::Address", "addr"),
        auth("require_auth_for_args", "soroban_sdk::Address", "addr"),
        auth("require_auth", "soroban_sdk::Address", "other"),
        auth("invoke_contract", "soroban_sdk::Env", "env"),
        auth("require_auth", "soroban_sdk::Address", "addr"),
        AuthStmt { method: None, receiver_type: String::new(), receiver_text: None },
        auth("require_auth", "soroban_sdk::Address", "addr"),
        auth("require_auth", "NotAnAccount", "addr"),
    ];
    assert_eq!(redundant_auths(&stmts), vec![1, 6]);
}

fn key(text: &str) -> StorageKey {
    StorageKey { text: text.to_string(), namespace: "instance".to_string() }
}

#[test]
fn second_read_modify_write_cycle_is_reported() {
    let ops = vec![
        RmwOp::Read(key("1")),
        RmwOp::Write(Some(key("1"))),
        RmwOp::Read(key("1")),
        RmwOp::Write(Some(key("1"))),
        RmwOp::Read(key("1")),
        RmwOp::Write(Some(key("1"))),
    ];
    assert_eq!(repeated_cycles(&ops), vec![3, 5]);
    let separated = vec![
        RmwOp::Read(key("1")),
        RmwOp::Write(Some(key("1"))),
        RmwOp::Other(ExprShape::Call),
        RmwOp::Read(key("1")),
        RmwOp::Write(Some(key("1"))),
    ];
    assert!(repeated_cycles(&separated).is_empty());
    let different = vec![
        RmwOp::Read(key("1")),
        RmwOp::Write(Some(key("1"))),
        RmwOp::Read(key("2")),
        RmwOp::Write(Some(key("2"))),
    ];
    assert!(repeated_cycles(&different).is_empty());
}

#[test]
fn potential_storage_calls_follow_the_expression_shape() {
    assert!(is_potential_storage_call(&ExprShape::Call));
    assert!(!is_potential_storage_call(&ExprShape::MethodCall { literal_receiver: true }));
    assert!(is_potential_storage_call(&ExprShape::MethodCall { literal_receiver: false }));
    assert!(!is_potential_storage_call(&ExprShape::Other));
    let nested = ExprShape::If {
        then_branch: vec![ExprShape::Other],
        else_branch: Some(Box::new(ExprShape::Block(vec![ExprShape::Other, ExprShape::Call]))),
    };
    assert!(is_potential_storage_call(&nested));
    let quiet = ExprShape::If { then_branch: vec![ExprShape::Other], else_branch: None };
    assert!(!is_potential_storage_call(&quiet));
    assert_eq!(infer_namespace_from_receiver("soroban_sdk::storage::Persistent", None), "persistent");
    assert_eq!(infer_namespace_from_receiver("T", Some("temporary")), "temporary");
    assert_eq!(infer_namespace_from_receiver("T", Some("other")), "unknown");
}

#[test]
fn discarded_reads_follow_the_parent_chain() {
    assert!(is_storage_read("get", "soroban_sdk::storage::Instance"));
    assert!(!is_storage_read("set", "soroban_sdk::storage::Instance"));
    assert!(is_expr_discarded(&[Parent::SemiStatement]));
    assert!(is_expr_discarded(&[Parent::LetWildcard]));
    assert!(!is_expr_discarded(&[Parent::LetOther]));
    assert!(is_expr_discarded(&[Parent::BlockTail, Parent::SemiStatement]));
    assert!(!is_expr_discarded(&[Parent::BlockTail, Parent::OtherExpression]));
    assert!(!is_expr_discarded(&[Parent::BlockTail, Parent::FunctionBody]));
    assert!(!is_expr_discarded(&[Parent::FunctionBody]));
    assert!(is_expr_discarded(&[]));
}

#[test]
fn ledger_reads_and_option_writes() {
    assert!(is_ledger_receiver(Some("ledger"), 0, "soroban_sdk::Env"));
    assert!(!is_ledger_receiver(Some("ledger"), 1, "soroban_sdk::Env"));
    assert_eq!(
        ledger_read_message("sequence"),
        "reading ledger context `sequence` inside a loop — the value cannot change during this invocation"
    );
    assert!(option_write_reported("set", 2, "soroban_sdk::storage::Instance", true));
    assert!(!option_write_reported("set", 2, "soroban_sdk::storage::Instance", false));
    assert!(!option_write_reported("set", 1, "soroban_sdk::storage::Instance", true));
}

#[test]
fn inventory_lists_every_registered_lint() {
    assert_eq!(lint_metadata().len(), 31);
    assert_eq!(LintCategory::Storage.as_str(), "Storage");
    let declared = declared_lints();
    assert_eq!(declared.len(), 32);
    assert_eq!(declared[0].name, "soroban_storage_in_loop");
    assert_eq!(declared[0].default_level, "deny");
    let inv = lint_inventory();
    assert_eq!(inv.len(), 32);
    assert_eq!(
        inv[0].documentation_url,
        "https://github.com/Tollcraft/soroban-cost-linter/blob/main/docs/lints/soroban_storage_in_loop.md"
    );
    let legacy = inv.iter().find(|e| e.name == "unnecessary_host_function_call_legacy").unwrap();
    assert_eq!(legacy.category, "Unknown");
    let text = list_lints_text("1.0", &inv[..1]);
    assert_eq!(
        text,
        "Lint inventory (version 1.0):\n  soroban_storage_in_loop | Storage | deny | performs a storage read or write inside a loop body | https://github.com/Tollcraft/soroban-cost-linter/blob/main/docs/lints/soroban_storage_in_loop.md\n"
    );
}

#[test]
fn keys_are_their_text_and_tier() {
    let a = make_key("&1", Some("get"), "soroban_sdk::storage::Instance", None);
    let b = make_key("&1", Some("set"), "T", Some("instance"));
    assert_eq!(a.text, "&1");
    assert_eq!(a.namespace, "instance");
    assert_eq!(b.namespace, "instance");
    assert_eq!((a.text.clone(), a.namespace.clone()), (b.text.clone(), b.namespace.clone()));
    let p = make_key("&1", Some("has"), "soroban_sdk::storage::Persistent", None);
    assert_eq!(p.namespace, "persistent");
    let elsewhere = make_key("&1", Some("extend_ttl"), "soroban_sdk::storage::Instance", None);
    assert_eq!(elsewhere.namespace, "unknown");
    let top = make_key("key", None, "", None);
    assert_eq!(top.namespace, "unknown");
    let ops = vec![
        RmwOp::Read(make_key("&1", Some("get"), "soroban_sdk::storage::Instance", None)),
        RmwOp::Write(Some(make_key("&1", Some("set"), "soroban_sdk::storage::Instance", None))),
        RmwOp::Read(make_key("&1", Some("get"), "T", Some("instance"))),
        RmwOp::Write(Some(make_key("&1", Some("set"), "T", Some("instance")))),
    ];
    assert_eq!(repeated_cycles(&ops), vec![3]);
}

#[test]
fn text_listing_has_one_row_per_lint() {
    let inv = lint_inventory();
    let text = list_lints_text("1.0", &inv);
    assert!(text.starts_with("Lint inventory (version 1.0):\n"));
    let rows: Vec<&str> = text.lines().filter(|l| l.contains('|')).collect();
    assert_eq!(rows.len(), inv.len());
    assert_eq!(text.lines().count(), inv.len() + 1);
    for (row, entry) in rows.iter().zip(inv.iter()) {
        assert!(row.contains(entry.name));
        assert!(row.contains(entry.description));
    }
}
