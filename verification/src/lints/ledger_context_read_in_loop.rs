//! `ledger_context_read_in_loop` — flags a ledger context read inside a loop;
//! the value cannot change during one invocation.

use vstd::prelude::*;

use crate::text::{has_infix, is_one_of, owned, push_str, str_contains, str_eq, str_in};

verus! {

/// Ledger accessors whose value is fixed for an invocation.
pub const LEDGER_READ_METHODS: [&'static str; 4] = ["sequence", "timestamp", "network_id", "protocol_version"];

/// Whether the receiver is `env.ledger()`: a `ledger()` call without
/// arguments on a receiver whose type name contains `Env`.
pub fn is_ledger_receiver(receiver_method: Option<&str>, arg_count: usize, env_type: &str) -> (res: bool)
    ensures
        res == (receiver_method matches Some(m) && m@ == "ledger"@ && arg_count == 0 && has_infix(env_type@, "Env"@)),
{
    match receiver_method {
        Some(m) => str_eq(m, "ledger") && arg_count == 0 && str_contains(env_type, "Env"),
        None => false,
    }
}

/// Whether a call is reported: a ledger accessor on `env.ledger()` inside a loop.
pub fn is_reported(method: &str, receiver_is_ledger: bool, inside_loop: bool) -> (res: bool)
    ensures
        res == (is_one_of(method@, LEDGER_READ_METHODS@) && receiver_is_ledger && inside_loop),
{
    str_in(method, LEDGER_READ_METHODS.as_slice()) && receiver_is_ledger && inside_loop
}

/// The message reported for reading `method` inside a loop.
pub fn ledger_read_message(method: &str) -> (res: String)
    ensures
        res@ == "reading ledger context `"@ + method@ + "` inside a loop — the value cannot change during this invocation"@,
{
    let mut m = owned("reading ledger context `");
    push_str(&mut m, method);
    push_str(&mut m, "` inside a loop — the value cannot change during this invocation");
    m
}

/// The help note for reading `method` inside a loop.
pub fn ledger_read_help(method: &str) -> (res: String)
    ensures
        res@ == "ledger context values ("@ + method@ + ") are invariant during a single invocation; hoist this read outside the loop to avoid repeated host calls"@,
{
    let mut m = owned("ledger context values (");
    push_str(&mut m, method);
    push_str(&mut m, ") are invariant during a single invocation; hoist this read outside the loop to avoid repeated host calls");
    m
}

/// The ledger reads reported inside a loop are exactly `sequence`,
/// `timestamp`, `network_id` and `protocol_version` on `env.ledger()`.
pub proof fn law_ledger_reads(method: Seq<char>, receiver_is_ledger: bool, inside_loop: bool)
    ensures
        (is_one_of(method, LEDGER_READ_METHODS@) && receiver_is_ledger && inside_loop) <==> ((method == "sequence"@
            || method == "timestamp"@ || method == "network_id"@ || method == "protocol_version"@)
            && receiver_is_ledger && inside_loop),
{
    assert(LEDGER_READ_METHODS@[0]@ == "sequence"@);
    assert(LEDGER_READ_METHODS@[1]@ == "timestamp"@);
    assert(LEDGER_READ_METHODS@[2]@ == "network_id"@);
    assert(LEDGER_READ_METHODS@[3]@ == "protocol_version"@);
    if is_one_of(method, LEDGER_READ_METHODS@) {
        let i = choose|i: int| 0 <= i < LEDGER_READ_METHODS@.len() && LEDGER_READ_METHODS@[i]@ == method;
        assert(0 <= i < 4);
    }
}

} // verus!
