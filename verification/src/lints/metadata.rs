//! The lint inventory: every lint's name, category, default level and
//! one-line description, and the `--list-lints` rendering of it.

use vstd::prelude::*;

use crate::text::{lemma_lines_of_concat, lemma_lines_of_single, lines_of, owned, push_str, str_eq};

verus! {

/// The lint pass collection registered with the driver.
pub struct SorobanCostLints;

/// What a lint is about.
#[derive(Clone, Copy, Debug, PartialEq, Eq, Structural)]
pub enum LintCategory {
    Storage,
    Compute,
    Memory,
    Host,
    Security,
}

/// The display name of a category.
pub open spec fn category_name(c: LintCategory) -> Seq<char> {
    match c {
        LintCategory::Storage => "Storage"@,
        LintCategory::Compute => "Compute"@,
        LintCategory::Memory => "Memory"@,
        LintCategory::Host => "Host"@,
        LintCategory::Security => "Security"@,
    }
}

impl LintCategory {
    /// The display name of this category.
    pub fn as_str(&self) -> (res: &'static str)
        ensures
            res@ == category_name(*self),
    {
        match self {
            LintCategory::Storage => "Storage",
            LintCategory::Compute => "Compute",
            LintCategory::Memory => "Memory",
            LintCategory::Host => "Host",
            LintCategory::Security => "Security",
        }
    }
}

/// Documentation metadata of one lint.
#[derive(Clone, Copy, Debug)]
pub struct LintMeta {
    pub name: &'static str,
    pub category: LintCategory,
    pub description: &'static str,
    pub rationale: &'static str,
}
/// The names of the documented lints, in table order.
pub open spec fn metadata_names() -> Seq<Seq<char>> {
    seq![
        "soroban_storage_in_loop"@,
        "redundant_env_clone"@,
        "unnecessary_host_function_call"@,
        "soroban_redundant_storage_read"@,
        "storage_write_without_read"@,
        "discarded_storage_read"@,
        "instance_storage_for_unbounded_data"@,
        "persistent_read_without_ttl_extension"@,
        "loop_invariant_storage_access"@,
        "storage_key_construction_in_loop"@,
        "bytes_append_in_loop"@,
        "unbounded_input_loop"@,
        "unnecessary_string_to_bytes"@,
        "map_insert_in_loop"@,
        "inefficient_bytes_concat"@,
        "contract_call_in_loop"@,
        "extend_ttl_in_loop"@,
        "formatted_panic_payload"@,
        "linear_scan_in_loop"@,
        "require_auth_in_loop"@,
        "signature_verification_in_loop"@,
        "symbol_key_boundary"@,
        "symbol_key_enum_storage"@,
        "symbol_key_event_topics"@,
        "symbol_new_for_short_literal"@,
        "unbounded_recursion"@,
        "unwrap_on_storage_get"@,
        "vec_where_slice_could_be_used"@,
        "soroban_inefficient_bytes_concat"@,
        "u128_where_u64_suffices"@,
        "storage_read_modify_write"@,
    ]
}
/// The categories of the documented lints, in table order.
pub open spec fn metadata_categories() -> Seq<LintCategory> {
    seq![
        LintCategory::Storage,
        LintCategory::Host,
        LintCategory::Host,
        LintCategory::Storage,
        LintCategory::Storage,
        LintCategory::Storage,
        LintCategory::Storage,
        LintCategory::Storage,
        LintCategory::Storage,
        LintCategory::Storage,
        LintCategory::Memory,
        LintCategory::Compute,
        LintCategory::Memory,
        LintCategory::Compute,
        LintCategory::Memory,
        LintCategory::Compute,
        LintCategory::Storage,
        LintCategory::Compute,
        LintCategory::Compute,
        LintCategory::Security,
        LintCategory::Security,
        LintCategory::Storage,
        LintCategory::Storage,
        LintCategory::Host,
        LintCategory::Compute,
        LintCategory::Compute,
        LintCategory::Storage,
        LintCategory::Memory,
        LintCategory::Memory,
        LintCategory::Compute,
        LintCategory::Storage,
    ]
}

/// The documentation table of the lints, one entry per documented lint.
pub fn lint_metadata() -> (res: Vec<LintMeta>)
    ensures
        res@.map_values(|m: LintMeta| m.name@) == metadata_names(),
        res@.map_values(|m: LintMeta| m.category) == metadata_categories(),
{
    let mut v: Vec<LintMeta> = Vec::new();
    v.push(LintMeta {
        name: "soroban_storage_in_loop",
        category: LintCategory::Storage,
        description: "Performs a storage read or write inside a loop body",
        rationale: "Storage operations are extremely expensive in Soroban; performing them inside loops can quickly exhaust budget.",
    });
    v.push(LintMeta {
        name: "redundant_env_clone",
        category: LintCategory::Host,
        description: "Clones the Env handle redundantly",
        rationale: "Env is a cheap handle and cloning it repeatedly adds overhead.",
    });
    v.push(LintMeta {
        name: "unnecessary_host_function_call",
        category: LintCategory::Host,
        description: "Calls host functions that could be hoisted or avoided",
        rationale: "Host function calls cross the Wasm boundary and consume CPU.",
    });
    v.push(LintMeta {
        name: "soroban_redundant_storage_read",
        category: LintCategory::Storage,
        description: "Performs sequential redundant reads or has/get checks on the same key",
        rationale: "Repeatedly reading the same storage entry without intervening writes wastes ledger IO and CPU.",
    });
    v.push(LintMeta {
        name: "storage_write_without_read",
        category: LintCategory::Storage,
        description: "Performs a storage set without any prior get or has in the function",
        rationale: "Blind writes can overwrite state accidentally and lack update guards.",
    });
    v.push(LintMeta {
        name: "discarded_storage_read",
        category: LintCategory::Storage,
        description: "Reads from storage whose result is never used",
        rationale: "Storage reads are among the most expensive operations in Soroban; reading data without using it wastes ledger bandwidth and gas with zero behavioral purpose.",
    });
    v.push(LintMeta {
        name: "instance_storage_for_unbounded_data",
        category: LintCategory::Storage,
        description: "Stores unbounded collections like Vec, Map, or Bytes in instance storage",
        rationale: "Instance storage has a strict 64KB footprint limit and shares contract TTL.",
    });
    v.push(LintMeta {
        name: "persistent_read_without_ttl_extension",
        category: LintCategory::Storage,
        description: "Reads from persistent storage without extending its TTL in the same function",
        rationale: "Persistent entries expire if their TTL is not extended, risking archival.",
    });
    v.push(LintMeta {
        name: "loop_invariant_storage_access",
        category: LintCategory::Storage,
        description: "Performs storage access inside a loop with loop-invariant operands",
        rationale: "Invariants should be hoisted outside the loop.",
    });
    v.push(LintMeta {
        name: "storage_key_construction_in_loop",
        category: LintCategory::Storage,
        description: "Constructs storage keys inside loop bodies where the key is invariant",
        rationale: "Key construction inside loops wastes CPU.",
    });
    v.push(LintMeta {
        name: "bytes_append_in_loop",
        category: LintCategory::Memory,
        description: "Appends to Bytes or Vec inside loop bodies causing repeated host reallocations",
        rationale: "Reallocating memory inside loops is inefficient.",
    });
    v.push(LintMeta {
        name: "unbounded_input_loop",
        category: LintCategory::Compute,
        description: "Loops with iteration count derived from untrusted input performing storage writes",
        rationale: "Loops controlled by untrusted input can cause excessive execution cost.",
    });
    v.push(LintMeta {
        name: "unnecessary_string_to_bytes",
        category: LintCategory::Memory,
        description: "Performs unnecessary string to bytes conversion",
        rationale: "Unnecessary string-to-bytes conversions waste CPU cycles.",
    });
    v.push(LintMeta {
        name: "map_insert_in_loop",
        category: LintCategory::Compute,
        description: "Inserts into Map inside a loop",
        rationale: "Map insertions inside loops can be expensive.",
    });
    v.push(LintMeta {
        name: "inefficient_bytes_concat",
        category: LintCategory::Memory,
        description: "Inefficient bytes concatenation",
        rationale: "Concatenating bytes inefficiently leads to high memory overhead.",
    });
    v.push(LintMeta {
        name: "contract_call_in_loop",
        category: LintCategory::Compute,
        description: "Performs contract call inside loop",
        rationale: "Contract calls inside loops multiply cross-contract overhead.",
    });
    v.push(LintMeta {
        name: "extend_ttl_in_loop",
        category: LintCategory::Storage,
        description: "Extends ttl inside loop",
        rationale: "Extending TTL inside loops is redundant and costly.",
    });
    v.push(LintMeta {
        name: "formatted_panic_payload",
        category: LintCategory::Compute,
        description: "Formatted panic payload",
        rationale: "Formatted panic strings consume unnecessary memory and CPU.",
    });
    v.push(LintMeta {
        name: "linear_scan_in_loop",
        category: LintCategory::Compute,
        description: "Linear scan inside loop",
        rationale: "Linear scans inside loops degrade algorithmic complexity.",
    });
    v.push(LintMeta {
        name: "require_auth_in_loop",
        category: LintCategory::Security,
        description: "Requires auth inside loop",
        rationale: "Authorization checks inside loops repeat expensive signature validations.",
    });
    v.push(LintMeta {
        name: "signature_verification_in_loop",
        category: LintCategory::Security,
        description: "Signature verification inside loop",
        rationale: "Signature verifications are computationally heavy.",
    });
    v.push(LintMeta {
        name: "symbol_key_boundary",
        category: LintCategory::Storage,
        description: "Symbol key boundary",
        rationale: "Ensure symbol keys respect length limits and conventions.",
    });
    v.push(LintMeta {
        name: "symbol_key_enum_storage",
        category: LintCategory::Storage,
        description: "Symbol key enum storage",
        rationale: "Optimizes enum storage keys.",
    });
    v.push(LintMeta {
        name: "symbol_key_event_topics",
        category: LintCategory::Host,
        description: "Symbol key event topics",
        rationale: "Optimizes event topic symbol keys.",
    });
    v.push(LintMeta {
        name: "symbol_new_for_short_literal",
        category: LintCategory::Compute,
        description: "Uses Symbol::new for short literal",
        rationale: "Use symbol_short! macro instead of Symbol::new for short literals.",
    });
    v.push(LintMeta {
        name: "unbounded_recursion",
        category: LintCategory::Compute,
        description: "Unbounded recursion",
        rationale: "Recursion without bounds can overflow stack and exhaust resources.",
    });
    v.push(LintMeta {
        name: "unwrap_on_storage_get",
        category: LintCategory::Storage,
        description: "Unwraps on storage get",
        rationale: "Unwrapping optional storage gets can cause unexpected contract panics when keys are absent.",
    });
    v.push(LintMeta {
        name: "vec_where_slice_could_be_used",
        category: LintCategory::Memory,
        description: "Uses Vec where slice could be used",
        rationale: "Slices avoid unnecessary heap allocations.",
    });
    v.push(LintMeta {
        name: "soroban_inefficient_bytes_concat",
        category: LintCategory::Memory,
        description: "Soroban inefficient bytes concat",
        rationale: "Inefficient bytes concatenation in Soroban environment.",
    });
    v.push(LintMeta {
        name: "u128_where_u64_suffices",
        category: LintCategory::Compute,
        description: "Uses 128-bit arithmetic where 64 bits would suffice, which is extremely expensive on wasm32",
        rationale: "wasm32 lacks native 128-bit integer instructions; emulating them is very slow.",
    });
    v.push(LintMeta {
        name: "storage_read_modify_write",
        category: LintCategory::Storage,
        description: "Performs two or more read-modify-write cycles on the same storage key",
        rationale: "Each extra cycle is a full metered read plus a full metered write for a value that never left the host between them. On a balance update touched by three helpers, that is six storage operations where two would do.",
    });
    assert(v@.map_values(|m: LintMeta| m.name@) =~= metadata_names());
    assert(v@.map_values(|m: LintMeta| m.category) =~= metadata_categories());
    v
}

/// A lint as declared to the driver: name, default level and description.
#[derive(Clone, Copy, Debug)]
pub struct DeclaredLint {
    pub name: &'static str,
    pub default_level: &'static str,
    pub description: &'static str,
}
/// The names of the registered lints, in registration order.
pub open spec fn registered_names() -> Seq<Seq<char>> {
    seq![
        "soroban_storage_in_loop"@,
        "redundant_env_clone"@,
        "unnecessary_host_function_call"@,
        "soroban_redundant_storage_read"@,
        "storage_write_without_read"@,
        "discarded_storage_read"@,
        "instance_storage_for_unbounded_data"@,
        "persistent_read_without_ttl_extension"@,
        "loop_invariant_storage_access"@,
        "storage_key_construction_in_loop"@,
        "bytes_append_in_loop"@,
        "unbounded_input_loop"@,
        "unnecessary_string_to_bytes"@,
        "unnecessary_host_function_call_legacy"@,
        "map_insert_in_loop"@,
        "inefficient_bytes_concat"@,
        "contract_call_in_loop"@,
        "extend_ttl_in_loop"@,
        "formatted_panic_payload"@,
        "linear_scan_in_loop"@,
        "require_auth_in_loop"@,
        "signature_verification_in_loop"@,
        "symbol_key_boundary"@,
        "symbol_key_enum_storage"@,
        "symbol_key_event_topics"@,
        "symbol_new_for_short_literal"@,
        "unbounded_recursion"@,
        "unwrap_on_storage_get"@,
        "vec_where_slice_could_be_used"@,
        "soroban_inefficient_bytes_concat"@,
        "u128_where_u64_suffices"@,
        "storage_read_modify_write"@,
    ]
}
/// The declared default level of each registered lint, in registration order.
pub open spec fn registered_levels() -> Seq<Seq<char>> {
    seq![
        "deny"@,
        "warn"@,
        "warn"@,
        "warn"@,
        "warn"@,
        "warn"@,
        "warn"@,
        "warn"@,
        "warn"@,
        "warn"@,
        "warn"@,
        "warn"@,
        "warn"@,
        "warn"@,
        "warn"@,
        "warn"@,
        "warn"@,
        "warn"@,
        "warn"@,
        "warn"@,
        "warn"@,
        "warn"@,
        "warn"@,
        "warn"@,
        "warn"@,
        "warn"@,
        "warn"@,
        "warn"@,
        "warn"@,
        "warn"@,
        "warn"@,
        "warn"@,
    ]
}

/// The declared description of each registered lint, in registration order.
pub open spec fn registered_descriptions() -> Seq<Seq<char>> {
    seq![
        "performs a storage read or write inside a loop body"@,
        "clones the Env handle redundantly"@,
        "calls host functions that could be hoisted or avoided"@,
        "performs sequential redundant reads or has/get checks on the same key"@,
        "performs a storage set without any prior get or has in the function"@,
        "reads from storage whose result is never used"@,
        "stores unbounded collections like Vec, Map, or Bytes in instance storage"@,
        "reads from persistent storage without extending its TTL in the same function"@,
        "performs storage access inside a loop with loop-invariant operands"@,
        "constructs storage keys inside loop bodies where the key is invariant"@,
        "appends to Bytes or Vec inside loop bodies causing repeated host reallocations"@,
        "loops with iteration count derived from untrusted input performing storage writes"@,
        "performs unnecessary string to bytes conversion"@,
        "legacy unnecessary host function call"@,
        "inserts into Map inside a loop"@,
        "inefficient bytes concatenation"@,
        "performs contract call inside loop"@,
        "extends ttl inside loop"@,
        "formatted panic payload"@,
        "linear scan inside loop"@,
        "requires auth inside loop"@,
        "signature verification inside loop"@,
        "symbol key boundary"@,
        "symbol key enum storage"@,
        "symbol key event topics"@,
        "uses Symbol::new for short literal"@,
        "unbounded recursion"@,
        "unwraps on storage get"@,
        "uses Vec where slice could be used"@,
        "soroban inefficient bytes concat"@,
        "uses 128-bit arithmetic where 64 bits would suffice, which is extremely expensive on wasm32"@,
        "performs two or more read-modify-write cycles on the same storage key"@,
    ]
}

/// `s` holds no line break (`\n` or `\r`).
pub open spec fn single_line(s: Seq<char>) -> bool {
    forall|j: int| 0 <= j < s.len() ==> #[trigger] s[j] != '\n' && s[j] != '\r'
}

/// The names, default levels and descriptions of the registered lints are
/// single lines.
proof fn lemma_registered_single_line()
    ensures
        forall|i: int| 0 <= i < registered_names().len() ==> single_line(#[trigger] registered_names()[i]),
        forall|i: int| 0 <= i < registered_levels().len() ==> single_line(#[trigger] registered_levels()[i]),
        forall|i: int| 0 <= i < registered_descriptions().len() ==> single_line(
            #[trigger] registered_descriptions()[i],
        ),
{
    reveal_strlit("soroban_storage_in_loop");
    reveal_strlit("deny");
    reveal_strlit("performs a storage read or write inside a loop body");
    reveal_strlit("redundant_env_clone");
    reveal_strlit("warn");
    reveal_strlit("clones the Env handle redundantly");
    reveal_strlit("unnecessary_host_function_call");
    reveal_strlit("calls host functions that could be hoisted or avoided");
    reveal_strlit("soroban_redundant_storage_read");
    reveal_strlit("performs sequential redundant reads or has/get checks on the same key");
    reveal_strlit("storage_write_without_read");
    reveal_strlit("performs a storage set without any prior get or has in the function");
    reveal_strlit("discarded_storage_read");
    reveal_strlit("reads from storage whose result is never used");
    reveal_strlit("instance_storage_for_unbounded_data");
    reveal_strlit("stores unbounded collections like Vec, Map, or Bytes in instance storage");
    reveal_strlit("persistent_read_without_ttl_extension");
    reveal_strlit("reads from persistent storage without extending its TTL in the same function");
    reveal_strlit("loop_invariant_storage_access");
    reveal_strlit("performs storage access inside a loop with loop-invariant operands");
    reveal_strlit("storage_key_construction_in_loop");
    reveal_strlit("constructs storage keys inside loop bodies where the key is invariant");
    reveal_strlit("bytes_append_in_loop");
    reveal_strlit("appends to Bytes or Vec inside loop bodies causing repeated host reallocations");
    reveal_strlit("unbounded_input_loop");
    reveal_strlit("loops with iteration count derived from untrusted input performing storage writes");
    reveal_strlit("unnecessary_string_to_bytes");
    reveal_strlit("performs unnecessary string to bytes conversion");
    reveal_strlit("unnecessary_host_function_call_legacy");
    reveal_strlit("legacy unnecessary host function call");
    reveal_strlit("map_insert_in_loop");
    reveal_strlit("inserts into Map inside a loop");
    reveal_strlit("inefficient_bytes_concat");
    reveal_strlit("inefficient bytes concatenation");
    reveal_strlit("contract_call_in_loop");
    reveal_strlit("performs contract call inside loop");
    reveal_strlit("extend_ttl_in_loop");
    reveal_strlit("extends ttl inside loop");
    reveal_strlit("formatted_panic_payload");
    reveal_strlit("formatted panic payload");
    reveal_strlit("linear_scan_in_loop");
    reveal_strlit("linear scan inside loop");
    reveal_strlit("require_auth_in_loop");
    reveal_strlit("requires auth inside loop");
    reveal_strlit("signature_verification_in_loop");
    reveal_strlit("signature verification inside loop");
    reveal_strlit("symbol_key_boundary");
    reveal_strlit("symbol key boundary");
    reveal_strlit("symbol_key_enum_storage");
    reveal_strlit("symbol key enum storage");
    reveal_strlit("symbol_key_event_topics");
    reveal_strlit("symbol key event topics");
    reveal_strlit("symbol_new_for_short_literal");
    reveal_strlit("uses Symbol::new for short literal");
    reveal_strlit("unbounded_recursion");
    reveal_strlit("unbounded recursion");
    reveal_strlit("unwrap_on_storage_get");
    reveal_strlit("unwraps on storage get");
    reveal_strlit("vec_where_slice_could_be_used");
    reveal_strlit("uses Vec where slice could be used");
    reveal_strlit("soroban_inefficient_bytes_concat");
    reveal_strlit("soroban inefficient bytes concat");
    reveal_strlit("u128_where_u64_suffices");
    reveal_strlit("uses 128-bit arithmetic where 64 bits would suffice, which is extremely expensive on wasm32");
    reveal_strlit("storage_read_modify_write");
    reveal_strlit("performs two or more read-modify-write cycles on the same storage key");
    assert(single_line("soroban_storage_in_loop"@) && single_line("deny"@) && single_line("performs a storage read or write inside a loop body"@));
    assert(single_line("redundant_env_clone"@) && single_line("warn"@) && single_line("clones the Env handle redundantly"@));
    assert(single_line("unnecessary_host_function_call"@) && single_line("warn"@) && single_line("calls host functions that could be hoisted or avoided"@));
    assert(single_line("soroban_redundant_storage_read"@) && single_line("warn"@) && single_line("performs sequential redundant reads or has/get checks on the same key"@));
    assert(single_line("storage_write_without_read"@) && single_line("warn"@) && single_line("performs a storage set without any prior get or has in the function"@));
    assert(single_line("discarded_storage_read"@) && single_line("warn"@) && single_line("reads from storage whose result is never used"@));
    assert(single_line("instance_storage_for_unbounded_data"@) && single_line("warn"@) && single_line("stores unbounded collections like Vec, Map, or Bytes in instance storage"@));
    assert(single_line("persistent_read_without_ttl_extension"@) && single_line("warn"@) && single_line("reads from persistent storage without extending its TTL in the same function"@));
    assert(single_line("loop_invariant_storage_access"@) && single_line("warn"@) && single_line("performs storage access inside a loop with loop-invariant operands"@));
    assert(single_line("storage_key_construction_in_loop"@) && single_line("warn"@) && single_line("constructs storage keys inside loop bodies where the key is invariant"@));
    assert(single_line("bytes_append_in_loop"@) && single_line("warn"@) && single_line("appends to Bytes or Vec inside loop bodies causing repeated host reallocations"@));
    assert(single_line("unbounded_input_loop"@) && single_line("warn"@) && single_line("loops with iteration count derived from untrusted input performing storage writes"@));
    assert(single_line("unnecessary_string_to_bytes"@) && single_line("warn"@) && single_line("performs unnecessary string to bytes conversion"@));
    assert(single_line("unnecessary_host_function_call_legacy"@) && single_line("warn"@) && single_line("legacy unnecessary host function call"@));
    assert(single_line("map_insert_in_loop"@) && single_line("warn"@) && single_line("inserts into Map inside a loop"@));
    assert(single_line("inefficient_bytes_concat"@) && single_line("warn"@) && single_line("inefficient bytes concatenation"@));
    assert(single_line("contract_call_in_loop"@) && single_line("warn"@) && single_line("performs contract call inside loop"@));
    assert(single_line("extend_ttl_in_loop"@) && single_line("warn"@) && single_line("extends ttl inside loop"@));
    assert(single_line("formatted_panic_payload"@) && single_line("warn"@) && single_line("formatted panic payload"@));
    assert(single_line("linear_scan_in_loop"@) && single_line("warn"@) && single_line("linear scan inside loop"@));
    assert(single_line("require_auth_in_loop"@) && single_line("warn"@) && single_line("requires auth inside loop"@));
    assert(single_line("signature_verification_in_loop"@) && single_line("warn"@) && single_line("signature verification inside loop"@));
    assert(single_line("symbol_key_boundary"@) && single_line("warn"@) && single_line("symbol key boundary"@));
    assert(single_line("symbol_key_enum_storage"@) && single_line("warn"@) && single_line("symbol key enum storage"@));
    assert(single_line("symbol_key_event_topics"@) && single_line("warn"@) && single_line("symbol key event topics"@));
    assert(single_line("symbol_new_for_short_literal"@) && single_line("warn"@) && single_line("uses Symbol::new for short literal"@));
    assert(single_line("unbounded_recursion"@) && single_line("warn"@) && single_line("unbounded recursion"@));
    assert(single_line("unwrap_on_storage_get"@) && single_line("warn"@) && single_line("unwraps on storage get"@));
    assert(single_line("vec_where_slice_could_be_used"@) && single_line("warn"@) && single_line("uses Vec where slice could be used"@));
    assert(single_line("soroban_inefficient_bytes_concat"@) && single_line("warn"@) && single_line("soroban inefficient bytes concat"@));
    assert(single_line("u128_where_u64_suffices"@) && single_line("warn"@) && single_line("uses 128-bit arithmetic where 64 bits would suffice, which is extremely expensive on wasm32"@));
    assert(single_line("storage_read_modify_write"@) && single_line("warn"@) && single_line("performs two or more read-modify-write cycles on the same storage key"@));
    let ns = registered_names();
    let ls = registered_levels();
    let ds = registered_descriptions();
    assert(ns[0] == "soroban_storage_in_loop"@ && ls[0] == "deny"@ && ds[0] == "performs a storage read or write inside a loop body"@);
    assert(ns[1] == "redundant_env_clone"@ && ls[1] == "warn"@ && ds[1] == "clones the Env handle redundantly"@);
    assert(ns[2] == "unnecessary_host_function_call"@ && ls[2] == "warn"@ && ds[2] == "calls host functions that could be hoisted or avoided"@);
    assert(ns[3] == "soroban_redundant_storage_read"@ && ls[3] == "warn"@ && ds[3] == "performs sequential redundant reads or has/get checks on the same key"@);
    assert(ns[4] == "storage_write_without_read"@ && ls[4] == "warn"@ && ds[4] == "performs a storage set without any prior get or has in the function"@);
    assert(ns[5] == "discarded_storage_read"@ && ls[5] == "warn"@ && ds[5] == "reads from storage whose result is never used"@);
    assert(ns[6] == "instance_storage_for_unbounded_data"@ && ls[6] == "warn"@ && ds[6] == "stores unbounded collections like Vec, Map, or Bytes in instance storage"@);
    assert(ns[7] == "persistent_read_without_ttl_extension"@ && ls[7] == "warn"@ && ds[7] == "reads from persistent storage without extending its TTL in the same function"@);
    assert(ns[8] == "loop_invariant_storage_access"@ && ls[8] == "warn"@ && ds[8] == "performs storage access inside a loop with loop-invariant operands"@);
    assert(ns[9] == "storage_key_construction_in_loop"@ && ls[9] == "warn"@ && ds[9] == "constructs storage keys inside loop bodies where the key is invariant"@);
    assert(ns[10] == "bytes_append_in_loop"@ && ls[10] == "warn"@ && ds[10] == "appends to Bytes or Vec inside loop bodies causing repeated host reallocations"@);
    assert(ns[11] == "unbounded_input_loop"@ && ls[11] == "warn"@ && ds[11] == "loops with iteration count derived from untrusted input performing storage writes"@);
    assert(ns[12] == "unnecessary_string_to_bytes"@ && ls[12] == "warn"@ && ds[12] == "performs unnecessary string to bytes conversion"@);
    assert(ns[13] == "unnecessary_host_function_call_legacy"@ && ls[13] == "warn"@ && ds[13] == "legacy unnecessary host function call"@);
    assert(ns[14] == "map_insert_in_loop"@ && ls[14] == "warn"@ && ds[14] == "inserts into Map inside a loop"@);
    assert(ns[15] == "inefficient_bytes_concat"@ && ls[15] == "warn"@ && ds[15] == "inefficient bytes concatenation"@);
    assert(ns[16] == "contract_call_in_loop"@ && ls[16] == "warn"@ && ds[16] == "performs contract call inside loop"@);
    assert(ns[17] == "extend_ttl_in_loop"@ && ls[17] == "warn"@ && ds[17] == "extends ttl inside loop"@);
    assert(ns[18] == "formatted_panic_payload"@ && ls[18] == "warn"@ && ds[18] == "formatted panic payload"@);
    assert(ns[19] == "linear_scan_in_loop"@ && ls[19] == "warn"@ && ds[19] == "linear scan inside loop"@);
    assert(ns[20] == "require_auth_in_loop"@ && ls[20] == "warn"@ && ds[20] == "requires auth inside loop"@);
    assert(ns[21] == "signature_verification_in_loop"@ && ls[21] == "warn"@ && ds[21] == "signature verification inside loop"@);
    assert(ns[22] == "symbol_key_boundary"@ && ls[22] == "warn"@ && ds[22] == "symbol key boundary"@);
    assert(ns[23] == "symbol_key_enum_storage"@ && ls[23] == "warn"@ && ds[23] == "symbol key enum storage"@);
    assert(ns[24] == "symbol_key_event_topics"@ && ls[24] == "warn"@ && ds[24] == "symbol key event topics"@);
    assert(ns[25] == "symbol_new_for_short_literal"@ && ls[25] == "warn"@ && ds[25] == "uses Symbol::new for short literal"@);
    assert(ns[26] == "unbounded_recursion"@ && ls[26] == "warn"@ && ds[26] == "unbounded recursion"@);
    assert(ns[27] == "unwrap_on_storage_get"@ && ls[27] == "warn"@ && ds[27] == "unwraps on storage get"@);
    assert(ns[28] == "vec_where_slice_could_be_used"@ && ls[28] == "warn"@ && ds[28] == "uses Vec where slice could be used"@);
    assert(ns[29] == "soroban_inefficient_bytes_concat"@ && ls[29] == "warn"@ && ds[29] == "soroban inefficient bytes concat"@);
    assert(ns[30] == "u128_where_u64_suffices"@ && ls[30] == "warn"@ && ds[30] == "uses 128-bit arithmetic where 64 bits would suffice, which is extremely expensive on wasm32"@);
    assert(ns[31] == "storage_read_modify_write"@ && ls[31] == "warn"@ && ds[31] == "performs two or more read-modify-write cycles on the same storage key"@);
}

/// The registered lints in registration order, as declared.
pub fn declared_lints() -> (res: Vec<DeclaredLint>)
    ensures
        res@.map_values(|d: DeclaredLint| d.name@) == registered_names(),
        res@.map_values(|d: DeclaredLint| d.default_level@) == registered_levels(),
        res@.map_values(|d: DeclaredLint| d.description@) == registered_descriptions(),
        forall|i: int| 0 <= i < res@.len() ==> (#[trigger] res@[i]).default_level@ == "warn"@ || res@[i].default_level@ == "deny"@,
{
    let mut v: Vec<DeclaredLint> = Vec::new();
    v.push(DeclaredLint { name: "soroban_storage_in_loop", default_level: "deny", description: "performs a storage read or write inside a loop body" });
    v.push(DeclaredLint { name: "redundant_env_clone", default_level: "warn", description: "clones the Env handle redundantly" });
    v.push(DeclaredLint { name: "unnecessary_host_function_call", default_level: "warn", description: "calls host functions that could be hoisted or avoided" });
    v.push(DeclaredLint { name: "soroban_redundant_storage_read", default_level: "warn", description: "performs sequential redundant reads or has/get checks on the same key" });
    v.push(DeclaredLint { name: "storage_write_without_read", default_level: "warn", description: "performs a storage set without any prior get or has in the function" });
    v.push(DeclaredLint { name: "discarded_storage_read", default_level: "warn", description: "reads from storage whose result is never used" });
    v.push(DeclaredLint { name: "instance_storage_for_unbounded_data", default_level: "warn", description: "stores unbounded collections like Vec, Map, or Bytes in instance storage" });
    v.push(DeclaredLint { name: "persistent_read_without_ttl_extension", default_level: "warn", description: "reads from persistent storage without extending its TTL in the same function" });
    v.push(DeclaredLint { name: "loop_invariant_storage_access", default_level: "warn", description: "performs storage access inside a loop with loop-invariant operands" });
    v.push(DeclaredLint { name: "storage_key_construction_in_loop", default_level: "warn", description: "constructs storage keys inside loop bodies where the key is invariant" });
    v.push(DeclaredLint { name: "bytes_append_in_loop", default_level: "warn", description: "appends to Bytes or Vec inside loop bodies causing repeated host reallocations" });
    v.push(DeclaredLint { name: "unbounded_input_loop", default_level: "warn", description: "loops with iteration count derived from untrusted input performing storage writes" });
    v.push(DeclaredLint { name: "unnecessary_string_to_bytes", default_level: "warn", description: "performs unnecessary string to bytes conversion" });
    v.push(DeclaredLint { name: "unnecessary_host_function_call_legacy", default_level: "warn", description: "legacy unnecessary host function call" });
    v.push(DeclaredLint { name: "map_insert_in_loop", default_level: "warn", description: "inserts into Map inside a loop" });
    v.push(DeclaredLint { name: "inefficient_bytes_concat", default_level: "warn", description: "inefficient bytes concatenation" });
    v.push(DeclaredLint { name: "contract_call_in_loop", default_level: "warn", description: "performs contract call inside loop" });
    v.push(DeclaredLint { name: "extend_ttl_in_loop", default_level: "warn", description: "extends ttl inside loop" });
    v.push(DeclaredLint { name: "formatted_panic_payload", default_level: "warn", description: "formatted panic payload" });
    v.push(DeclaredLint { name: "linear_scan_in_loop", default_level: "warn", description: "linear scan inside loop" });
    v.push(DeclaredLint { name: "require_auth_in_loop", default_level: "warn", description: "requires auth inside loop" });
    v.push(DeclaredLint { name: "signature_verification_in_loop", default_level: "warn", description: "signature verification inside loop" });
    v.push(DeclaredLint { name: "symbol_key_boundary", default_level: "warn", description: "symbol key boundary" });
    v.push(DeclaredLint { name: "symbol_key_enum_storage", default_level: "warn", description: "symbol key enum storage" });
    v.push(DeclaredLint { name: "symbol_key_event_topics", default_level: "warn", description: "symbol key event topics" });
    v.push(DeclaredLint { name: "symbol_new_for_short_literal", default_level: "warn", description: "uses Symbol::new for short literal" });
    v.push(DeclaredLint { name: "unbounded_recursion", default_level: "warn", description: "unbounded recursion" });
    v.push(DeclaredLint { name: "unwrap_on_storage_get", default_level: "warn", description: "unwraps on storage get" });
    v.push(DeclaredLint { name: "vec_where_slice_could_be_used", default_level: "warn", description: "uses Vec where slice could be used" });
    v.push(DeclaredLint { name: "soroban_inefficient_bytes_concat", default_level: "warn", description: "soroban inefficient bytes concat" });
    v.push(DeclaredLint { name: "u128_where_u64_suffices", default_level: "warn", description: "uses 128-bit arithmetic where 64 bits would suffice, which is extremely expensive on wasm32" });
    v.push(DeclaredLint { name: "storage_read_modify_write", default_level: "warn", description: "performs two or more read-modify-write cycles on the same storage key" });
    assert(v@.map_values(|d: DeclaredLint| d.name@) =~= registered_names());
    assert(v@.map_values(|d: DeclaredLint| d.default_level@) =~= registered_levels());
    assert(v@.map_values(|d: DeclaredLint| d.description@) =~= registered_descriptions());
    v
}

/// The version of the inventory format.
pub const INVENTORY_VERSION: &'static str = "1.0";

/// Where a lint's documentation lives.
pub open spec fn docs_url_of(name: Seq<char>) -> Seq<char> {
    "https://github.com/Tollcraft/soroban-cost-linter/blob/main/docs/lints/"@ + name + ".md"@
}

/// The documentation page of the lint `name`.
pub fn docs_url(name: &str) -> (res: String)
    ensures
        res@ == docs_url_of(name@),
{
    let mut u = owned("https://github.com/Tollcraft/soroban-cost-linter/blob/main/docs/lints/");
    push_str(&mut u, name);
    push_str(&mut u, ".md");
    u
}

/// The category of the first lint named `name` in a table with these names
/// and categories, or `Unknown`.
pub open spec fn category_of(names: Seq<Seq<char>>, cats: Seq<LintCategory>, name: Seq<char>) -> Seq<char>
    decreases names.len(),
{
    if names.len() == 0 || cats.len() == 0 {
        "Unknown"@
    } else if names[0] == name {
        category_name(cats[0])
    } else {
        category_of(names.drop_first(), cats.drop_first(), name)
    }
}

fn category_for(metas: &Vec<LintMeta>, name: &str) -> (res: &'static str)
    ensures
        res@ == category_of(metas@.map_values(|m: LintMeta| m.name@), metas@.map_values(|m: LintMeta| m.category), name@),
{
    let ghost ns = metas@.map_values(|m: LintMeta| m.name@);
    let ghost cs = metas@.map_values(|m: LintMeta| m.category);
    let mut i: usize = 0;
    assert(ns.skip(0) =~= ns);
    assert(cs.skip(0) =~= cs);
    while i < metas.len()
        invariant
            i <= metas@.len(),
            ns == metas@.map_values(|m: LintMeta| m.name@),
            cs == metas@.map_values(|m: LintMeta| m.category),
            category_of(ns, cs, name@) == category_of(ns.skip(i as int), cs.skip(i as int), name@),
        decreases metas@.len() - i,
    {
        assert(ns.skip(i as int).drop_first() =~= ns.skip(i + 1));
        assert(cs.skip(i as int).drop_first() =~= cs.skip(i + 1));
        if str_eq(metas[i].name, name) {
            return metas[i].category.as_str();
        }
        i = i + 1;
    }
    "Unknown"
}

/// One row of the lint inventory.
#[derive(Clone, Debug)]
pub struct LintInventoryEntry {
    pub name: &'static str,
    pub default_level: &'static str,
    pub description: &'static str,
    pub category: &'static str,
    pub documentation_url: String,
}

/// A category name, or `Unknown`, is a single line.
proof fn lemma_category_single_line(names: Seq<Seq<char>>, cats: Seq<LintCategory>, name: Seq<char>)
    ensures
        single_line(category_of(names, cats, name)),
    decreases names.len(),
{
    reveal_strlit("Unknown");
    reveal_strlit("Storage");
    reveal_strlit("Compute");
    reveal_strlit("Memory");
    reveal_strlit("Host");
    reveal_strlit("Security");
    if names.len() == 0 || cats.len() == 0 {
        assert(single_line("Unknown"@));
    } else if names[0] == name {
        assert(single_line("Storage"@) && single_line("Compute"@) && single_line("Memory"@) && single_line(
            "Host"@,
        ) && single_line("Security"@));
    } else {
        lemma_category_single_line(names.drop_first(), cats.drop_first(), name);
    }
}

/// The documentation page of a single-line name is a single line.
proof fn lemma_docs_url_single_line(name: Seq<char>)
    requires
        single_line(name),
    ensures
        single_line(docs_url_of(name)),
{
    reveal_strlit("https://github.com/Tollcraft/soroban-cost-linter/blob/main/docs/lints/");
    reveal_strlit(".md");
    let prefix = "https://github.com/Tollcraft/soroban-cost-linter/blob/main/docs/lints/"@;
    assert(single_line(prefix));
    assert(single_line(".md"@));
    lemma_concat_single_line(prefix, name);
    lemma_concat_single_line(prefix + name, ".md"@);
}

/// The lint inventory: every registered lint in registration order, with its
/// declared level and description, its documented category (`Unknown` when
/// undocumented) and its documentation page. Every field is a single line.
pub fn lint_inventory() -> (res: Vec<LintInventoryEntry>)
    ensures
        res@.map_values(|e: LintInventoryEntry| e.name@) == registered_names(),
        res@.map_values(|e: LintInventoryEntry| e.default_level@) == registered_levels(),
        res@.map_values(|e: LintInventoryEntry| e.description@) == registered_descriptions(),
        forall|i: int| 0 <= i < res@.len() ==> (#[trigger] res@[i]).documentation_url@ == docs_url_of(res@[i].name@)
            && res@[i].category@ == category_of(metadata_names(), metadata_categories(), res@[i].name@),
        forall|i: int| 0 <= i < res@.len() ==> entry_single_line(#[trigger] res@[i]),
{
    let declared = declared_lints();
    let metas = lint_metadata();
    let ghost ns = metas@.map_values(|m: LintMeta| m.name@);
    let ghost cs = metas@.map_values(|m: LintMeta| m.category);
    let mut out: Vec<LintInventoryEntry> = Vec::new();
    let mut i: usize = 0;
    while i < declared.len()
        invariant
            i <= declared@.len(),
            declared@.map_values(|d: DeclaredLint| d.name@) == registered_names(),
            ns == metadata_names(),
            cs == metadata_categories(),
            ns == metas@.map_values(|m: LintMeta| m.name@),
            cs == metas@.map_values(|m: LintMeta| m.category),
            declared@.map_values(|d: DeclaredLint| d.default_level@) == registered_levels(),
            declared@.map_values(|d: DeclaredLint| d.description@) == registered_descriptions(),
            out@.map_values(|e: LintInventoryEntry| e.name@) == declared@.take(i as int).map_values(|d: DeclaredLint| d.name@),
            out@.map_values(|e: LintInventoryEntry| e.default_level@) == declared@.take(i as int).map_values(
                |d: DeclaredLint| d.default_level@,
            ),
            out@.map_values(|e: LintInventoryEntry| e.description@) == declared@.take(i as int).map_values(
                |d: DeclaredLint| d.description@,
            ),
            forall|j: int| 0 <= j < out@.len() ==> (#[trigger] out@[j]).documentation_url@ == docs_url_of(out@[j].name@)
                && out@[j].category@ == category_of(ns, cs, out@[j].name@),
        decreases declared@.len() - i,
    {
        let d = declared[i];
        let e = LintInventoryEntry {
            name: d.name,
            default_level: d.default_level,
            description: d.description,
            category: category_for(&metas, d.name),
            documentation_url: docs_url(d.name),
        };
        let ghost before = out@;
        out.push(e);
        assert(declared@.take(i + 1) =~= declared@.take(i as int).push(declared@[i as int]));
        assert(out@.map_values(|e: LintInventoryEntry| e.name@) =~= before.map_values(|e: LintInventoryEntry| e.name@).push(e.name@));
        assert(out@.map_values(|e: LintInventoryEntry| e.default_level@) =~= before.map_values(
            |e: LintInventoryEntry| e.default_level@,
        ).push(e.default_level@));
        assert(out@.map_values(|e: LintInventoryEntry| e.description@) =~= before.map_values(
            |e: LintInventoryEntry| e.description@,
        ).push(e.description@));
        i = i + 1;
    }
    assert(declared@.take(i as int) =~= declared@);
    proof {
        lemma_registered_single_line();
        assert forall|k: int| 0 <= k < out@.len() implies entry_single_line(#[trigger] out@[k]) by {
            let names = out@.map_values(|e: LintInventoryEntry| e.name@);
            let levels = out@.map_values(|e: LintInventoryEntry| e.default_level@);
            let descs = out@.map_values(|e: LintInventoryEntry| e.description@);
            assert(names[k] == out@[k].name@);
            assert(levels[k] == out@[k].default_level@);
            assert(descs[k] == out@[k].description@);
            assert(single_line(registered_names()[k]));
            assert(single_line(registered_levels()[k]));
            assert(single_line(registered_descriptions()[k]));
            lemma_category_single_line(metadata_names(), metadata_categories(), out@[k].name@);
            lemma_docs_url_single_line(out@[k].name@);
        }
    }
    out
}

/// The table row `--list-lints` prints for one lint: its name, category,
/// default level, description and documentation page, separated by `|`.
pub open spec fn inventory_lines(e: LintInventoryEntry) -> Seq<char> {
    inventory_row(e) + "\n"@
}

/// The row of one lint, without its line break.
pub open spec fn inventory_row(e: LintInventoryEntry) -> Seq<char> {
    "  "@ + e.name@ + " | "@ + e.category@ + " | "@ + e.default_level@ + " | "@ + e.description@ + " | "@
        + e.documentation_url@
}

/// Every field of the entry is a single line.
pub open spec fn entry_single_line(e: LintInventoryEntry) -> bool {
    single_line(e.name@) && single_line(e.category@) && single_line(e.default_level@) && single_line(
        e.description@,
    ) && single_line(e.documentation_url@)
}

proof fn lemma_concat_single_line(a: Seq<char>, b: Seq<char>)
    requires
        single_line(a),
        single_line(b),
    ensures
        single_line(a + b),
{
    assert forall|j: int| 0 <= j < (a + b).len() implies #[trigger] (a + b)[j] != '\n' && (a + b)[j] != '\r' by {
        if j < a.len() {
            assert((a + b)[j] == a[j]);
        } else {
            assert((a + b)[j] == b[j - a.len()]);
        }
    }
}

proof fn lemma_row_single_line(e: LintInventoryEntry)
    requires
        entry_single_line(e),
    ensures
        single_line(inventory_row(e)),
        inventory_row(e).contains('|'),
{
    reveal_strlit("  ");
    reveal_strlit(" | ");
    let sep = " | "@;
    let p1 = "  "@ + e.name@;
    let p2 = p1 + sep;
    let p3 = p2 + e.category@;
    let p4 = p3 + sep;
    let p5 = p4 + e.default_level@;
    let p6 = p5 + sep;
    let p7 = p6 + e.description@;
    let p8 = p7 + sep;
    assert(single_line("  "@));
    assert(single_line(sep));
    lemma_concat_single_line("  "@, e.name@);
    lemma_concat_single_line(p1, sep);
    lemma_concat_single_line(p2, e.category@);
    lemma_concat_single_line(p3, sep);
    lemma_concat_single_line(p4, e.default_level@);
    lemma_concat_single_line(p5, sep);
    lemma_concat_single_line(p6, e.description@);
    lemma_concat_single_line(p7, sep);
    lemma_concat_single_line(p8, e.documentation_url@);
    let r = inventory_row(e);
    assert(r =~= p8 + e.documentation_url@);
    assert(r[p1.len() as int + 1] == '|');
}

proof fn lemma_body_lines(es: Seq<LintInventoryEntry>)
    requires
        forall|i: int| 0 <= i < es.len() ==> entry_single_line(#[trigger] es[i]),
    ensures
        lines_of(inventory_body(es)) == es.map_values(|e: LintInventoryEntry| inventory_row(e)),
        inventory_body(es).len() == 0 || inventory_body(es).last() == '\n',
    decreases es.len(),
{
    reveal_strlit("\n");
    if es.len() == 0 {
        assert(lines_of(inventory_body(es)) =~= es.map_values(|e: LintInventoryEntry| inventory_row(e)));
    } else {
        let prev = es.drop_last();
        assert forall|i: int| 0 <= i < prev.len() implies entry_single_line(#[trigger] prev[i]) by {
            assert(prev[i] == es[i]);
        }
        lemma_body_lines(prev);
        let e = es.last();
        assert(entry_single_line(es[es.len() - 1]));
        lemma_row_single_line(e);
        let r = inventory_row(e);
        assert(inventory_lines(e) =~= r.push('\n'));
        if r.len() > 0 {
            assert(r[r.len() - 1] != '\r');
        }
        lemma_lines_of_single(r);
        lemma_lines_of_concat(inventory_body(prev), inventory_lines(e));
        assert(es.map_values(|e: LintInventoryEntry| inventory_row(e)) =~= prev.map_values(
            |e: LintInventoryEntry| inventory_row(e),
        ).push(r));
        assert(inventory_body(es).last() == '\n');
    }
}

/// The listing has one row per lint: after the heading, each line of the
/// text is the `|`-separated row of one lint, in order; the heading has no
/// `|` and every row has one. So the lines with a `|` are as many as the lints.
pub proof fn law_one_listing_row_per_lint(version: Seq<char>, es: Seq<LintInventoryEntry>)
    requires
        single_line(version),
        !version.contains('|'),
        forall|i: int| 0 <= i < es.len() ==> entry_single_line(#[trigger] es[i]),
    ensures
        lines_of("Lint inventory (version "@ + version + "):\n"@ + inventory_body(es)) == seq![
            "Lint inventory (version "@ + version + "):"@,
        ] + es.map_values(|e: LintInventoryEntry| inventory_row(e)),
        !("Lint inventory (version "@ + version + "):"@).contains('|'),
        forall|i: int| 0 <= i < es.len() ==> (#[trigger] inventory_row(es[i])).contains('|'),
{
    reveal_strlit("Lint inventory (version ");
    reveal_strlit("):\n");
    reveal_strlit("):");
    let a = "Lint inventory (version "@;
    let head = a + version + "):"@;
    assert(a + version + "):\n"@ =~= head.push('\n'));
    assert(single_line(a));
    assert(single_line("):"@));
    lemma_concat_single_line(a, version);
    lemma_concat_single_line(a + version, "):"@);
    assert(head[head.len() - 1] == ':');
    lemma_lines_of_single(head);
    lemma_lines_of_concat(head.push('\n'), inventory_body(es));
    lemma_body_lines(es);
    assert(!head.contains('|')) by {
        if head.contains('|') {
            let j = choose|j: int| 0 <= j < head.len() && head[j] == '|';
            if j < a.len() {
                assert(head[j] == a[j]);
            } else if j < a.len() + version.len() {
                assert(head[j] == version[j - a.len()]);
                assert(version.contains('|'));
            } else {
                assert(head[j] == "):"@[j - a.len() - version.len()]);
            }
        }
    }
    assert forall|i: int| 0 <= i < es.len() implies (#[trigger] inventory_row(es[i])).contains('|') by {
        lemma_row_single_line(es[i]);
    }
}

/// The lines for every lint, in order.
pub open spec fn inventory_body(es: Seq<LintInventoryEntry>) -> Seq<char>
    decreases es.len(),
{
    if es.len() == 0 {
        Seq::empty()
    } else {
        inventory_body(es.drop_last()) + inventory_lines(es.last())
    }
}

/// The text `--list-lints` prints: a heading with the inventory version,
/// then one `|`-separated row per lint.
pub fn list_lints_text(version: &str, entries: &[LintInventoryEntry]) -> (res: String)
    ensures
        res@ == "Lint inventory (version "@ + version@ + "):\n"@ + inventory_body(entries@),
{
    let mut out = owned("Lint inventory (version ");
    push_str(&mut out, version);
    push_str(&mut out, "):\n");
    let ghost head = out@;
    let mut i: usize = 0;
    assert(inventory_body(entries@.take(0)) =~= Seq::<char>::empty());
    while i < entries.len()
        invariant
            i <= entries@.len(),
            out@ == head + inventory_body(entries@.take(i as int)),
        decreases entries@.len() - i,
    {
        let e = &entries[i];
        push_str(&mut out, "  ");
        push_str(&mut out, e.name);
        push_str(&mut out, " | ");
        push_str(&mut out, e.category);
        push_str(&mut out, " | ");
        push_str(&mut out, e.default_level);
        push_str(&mut out, " | ");
        push_str(&mut out, e.description);
        push_str(&mut out, " | ");
        push_str(&mut out, e.documentation_url.as_str());
        push_str(&mut out, "\n");
        proof {
            assert(entries@.take(i + 1).drop_last() =~= entries@.take(i as int));
            assert(entries@.take(i + 1).last() == *e);
            assert(out@ =~= head + inventory_body(entries@.take(i + 1)));
        }
        i = i + 1;
    }
    assert(entries@.take(i as int) =~= entries@);
    out
}

} // verus!
