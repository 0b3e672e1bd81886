//! `redundant_require_auth` — flags a second authorization call on the same
//! address within one block.
//!
//! Addresses are keyed by their source text. A cross-contract call on `Env`
//! clears what the block has seen, since the callee may authorize differently.

use vstd::prelude::*;

use crate::text::{has_infix, is_one_of, owned, str_contains, str_eq, str_in};

verus! {

/// Methods on `soroban_sdk::Address` that establish authorization.
pub const REQUIRE_AUTH_METHODS: [&'static str; 2] = ["require_auth", "require_auth_for_args"];

/// Methods on `Env` that call into another contract.
pub const CROSS_CONTRACT_CALL_METHODS: [&'static str; 2] = ["invoke_contract", "try_invoke_contract"];

/// Message reported for a duplicate authorization.
pub const REDUNDANT_REQUIRE_AUTH_MSG: &'static str = "require_auth already called on this address in this function";

/// Help note attached to the message.
pub const REDUNDANT_REQUIRE_AUTH_HELP: &'static str = "remove this duplicate authorization call; the first require_auth on an address already establishes authorization for the entire invocation";

/// Whether a receiver type name is `Env` (it contains `Env`).
pub fn is_env_type(ty: &str) -> (res: bool)
    ensures
        res == (has_infix(ty@, "soroban_sdk::Env"@) || has_infix(ty@, "Env"@)),
{
    str_contains(ty, "soroban_sdk::Env") || str_contains(ty, "Env")
}

/// Whether a receiver type name is `Address` (it contains `Address`).
pub fn is_address_type(ty: &str) -> (res: bool)
    ensures
        res == (has_infix(ty@, "soroban_sdk::Address"@) || has_infix(ty@, "Address"@)),
{
    str_contains(ty, "soroban_sdk::Address") || str_contains(ty, "Address")
}

/// A statement of a block, as the lint sees it: the method call it evaluates,
/// if it evaluates one.
#[derive(Clone, Debug)]
pub struct AuthStmt {
    /// The method called, when the statement's expression is a method call.
    pub method: Option<String>,
    /// The receiver's type name (references peeled).
    pub receiver_type: String,
    /// The receiver's source text, when available.
    pub receiver_text: Option<String>,
}

/// Whether the statement is a cross-contract call on `Env`.
pub open spec fn is_cross_call(s: AuthStmt) -> bool {
    s.method matches Some(m) && is_one_of(m@, CROSS_CONTRACT_CALL_METHODS@) && (has_infix(
        s.receiver_type@,
        "soroban_sdk::Env"@,
    ) || has_infix(s.receiver_type@, "Env"@))
}

/// The address a statement authorizes, keyed by its source text.
pub open spec fn auth_key(s: AuthStmt) -> Option<Seq<char>> {
    if s.method matches Some(m) && is_one_of(m@, REQUIRE_AUTH_METHODS@) && (has_infix(
        s.receiver_type@,
        "soroban_sdk::Address"@,
    ) || has_infix(s.receiver_type@, "Address"@)) {
        match s.receiver_text {
            Some(t) => Some(t@),
            None => None,
        }
    } else {
        None
    }
}

/// Whether `key` was authorized in `stmts` since the last cross-contract call.
pub open spec fn authorized(stmts: Seq<AuthStmt>, key: Seq<char>) -> bool
    decreases stmts.len(),
{
    if stmts.len() == 0 {
        false
    } else if is_cross_call(stmts.last()) {
        false
    } else if auth_key(stmts.last()) == Some(key) {
        true
    } else {
        authorized(stmts.drop_last(), key)
    }
}

/// Whether the statement at `i` repeats an authorization still in force.
pub open spec fn redundant_auth_at(stmts: Seq<AuthStmt>, i: int) -> bool {
    !is_cross_call(stmts[i]) && match auth_key(stmts[i]) {
        Some(k) => authorized(stmts.take(i), k),
        None => false,
    }
}

/// The indices of the redundant authorizations, in order.
pub open spec fn redundant_auths_spec(stmts: Seq<AuthStmt>) -> Seq<int> {
    Seq::new(stmts.len(), |i: int| i).filter(|i: int| redundant_auth_at(stmts, i))
}

fn stmt_is_cross_call(s: &AuthStmt) -> (res: bool)
    ensures
        res == is_cross_call(*s),
{
    match &s.method {
        Some(m) => str_in(m.as_str(), CROSS_CONTRACT_CALL_METHODS.as_slice()) && is_env_type(s.receiver_type.as_str()),
        None => false,
    }
}

fn stmt_auth_key(s: &AuthStmt) -> (res: Option<String>)
    ensures
        res matches Some(k) ==> auth_key(*s) == Some(k@),
        res is None ==> auth_key(*s) is None,
{
    match &s.method {
        Some(m) => {
            if str_in(m.as_str(), REQUIRE_AUTH_METHODS.as_slice()) && is_address_type(s.receiver_type.as_str()) {
                match &s.receiver_text {
                    Some(t) => Some(owned(t.as_str())),
                    None => None,
                }
            } else {
                None
            }
        },
        None => None,
    }
}

fn seen_contains(seen: &Vec<String>, key: &str) -> (res: bool)
    ensures
        res == exists|j: int| 0 <= j < seen@.len() && (#[trigger] seen@[j])@ == key@,
{
    let mut j: usize = 0;
    while j < seen.len()
        invariant
            j <= seen@.len(),
            forall|q: int| 0 <= q < j ==> (#[trigger] seen@[q])@ != key@,
        decreases seen@.len() - j,
    {
        if str_eq(seen[j].as_str(), key) {
            return true;
        }
        j = j + 1;
    }
    false
}

/// The statements of a block that are reported: authorization calls on an
/// address (by source text) already authorized earlier in the block, with
/// no cross-contract call in between.
pub fn redundant_auths(stmts: &[AuthStmt]) -> (res: Vec<usize>)
    ensures
        res@.map_values(|i: usize| i as int) == redundant_auths_spec(stmts@),
{
    let ghost all = Seq::new(stmts@.len(), |i: int| i);
    let mut seen: Vec<String> = Vec::new();
    let mut out: Vec<usize> = Vec::new();
    let mut i: usize = 0;
    while i < stmts.len()
        invariant
            i <= stmts@.len(),
            all == Seq::new(stmts@.len(), |i: int| i),
            out@.map_values(|i: usize| i as int) == all.take(i as int).filter(|i: int| redundant_auth_at(stmts@, i)),
            forall|key: Seq<char>| #![trigger authorized(stmts@.take(i as int), key)]
                authorized(stmts@.take(i as int), key) <==> exists|j: int| 0 <= j < seen@.len() && (#[trigger] seen@[j])@ == key,
        decreases stmts@.len() - i,
    {
        let ghost pre = stmts@.take(i as int);
        let ghost next = stmts@.take(i + 1);
        proof {
            reveal_with_fuel(Seq::filter, 1);
            assert(all.take(i + 1).drop_last() =~= all.take(i as int));
            assert(all.take(i + 1).last() == i as int);
            assert(next.drop_last() =~= pre);
            assert(next.last() == stmts@[i as int]);
        }
        let s = &stmts[i];
        if stmt_is_cross_call(s) {
            seen = Vec::new();
            assert forall|key: Seq<char>| #![trigger authorized(next, key)]
                authorized(next, key) <==> exists|j: int| 0 <= j < seen@.len() && (#[trigger] seen@[j])@ == key by {}
        } else {
            match stmt_auth_key(s) {
                Some(k) => {
                    if seen_contains(&seen, k.as_str()) {
                        assert(authorized(pre, k@));
                        assert forall|key: Seq<char>| #![trigger authorized(next, key)]
                            authorized(next, key) <==> exists|j: int| 0 <= j < seen@.len() && (#[trigger] seen@[j])@ == key by {
                            if key != k@ {
                                assert(authorized(next, key) == authorized(pre, key));
                            }
                        }
                        let ghost before = out@;
                        out.push(i);
                        assert(out@.map_values(|i: usize| i as int) =~= before.map_values(|i: usize| i as int).push(
                            i as int,
                        ));
                    } else {
                        let ghost old_seen = seen@;
                        seen.push(k);
                        assert forall|key: Seq<char>| #![trigger authorized(next, key)]
                            authorized(next, key) <==> exists|j: int| 0 <= j < seen@.len() && (#[trigger] seen@[j])@ == key by {
                            if key == k@ {
                                assert(seen@[seen@.len() - 1]@ == key);
                            } else {
                                assert(authorized(next, key) == authorized(pre, key));
                                if exists|j: int| 0 <= j < seen@.len() && (#[trigger] seen@[j])@ == key {
                                    let j = choose|j: int| 0 <= j < seen@.len() && (#[trigger] seen@[j])@ == key;
                                    assert(old_seen[j] == seen@[j]);
                                }
                                if authorized(pre, key) {
                                    let j = choose|j: int| 0 <= j < old_seen.len() && (#[trigger] old_seen[j])@ == key;
                                    assert(seen@[j] == old_seen[j]);
                                }
                            }
                        }
                    }
                },
                None => {
                    assert forall|key: Seq<char>| #![trigger authorized(next, key)]
                        authorized(next, key) <==> exists|j: int| 0 <= j < seen@.len() && (#[trigger] seen@[j])@ == key by {
                        assert(authorized(next, key) == authorized(pre, key));
                    }
                },
            }
        }
        i = i + 1;
    }
    assert(all.take(i as int) =~= all);
    out
}

/// The first authorization of an address in a block is never reported.
pub proof fn law_first_authorization_is_kept(stmts: Seq<AuthStmt>, i: int, key: Seq<char>)
    requires
        0 <= i < stmts.len(),
        auth_key(stmts[i]) == Some(key),
        forall|j: int| 0 <= j < i ==> auth_key(#[trigger] stmts[j]) != Some(key),
    ensures
        !redundant_auth_at(stmts, i),
{
    lemma_never_authorized(stmts.take(i), key);
}

proof fn lemma_never_authorized(stmts: Seq<AuthStmt>, key: Seq<char>)
    requires
        forall|j: int| 0 <= j < stmts.len() ==> auth_key(#[trigger] stmts[j]) != Some(key),
    ensures
        !authorized(stmts, key),
    decreases stmts.len(),
{
    if stmts.len() > 0 {
        assert(auth_key(stmts[stmts.len() - 1]) != Some(key));
        lemma_never_authorized(stmts.drop_last(), key);
    }
}

/// A cross-contract call resets the block: an authorization right after one
/// is never reported.
pub proof fn law_cross_contract_call_resets(stmts: Seq<AuthStmt>, i: int)
    requires
        1 <= i < stmts.len(),
        is_cross_call(stmts[i - 1]),
    ensures
        !redundant_auth_at(stmts, i),
{
    assert(stmts.take(i).last() == stmts[i - 1]);
}

/// A method on `Env` is a cross-contract call exactly when it is
/// `invoke_contract` or `try_invoke_contract`; an `Address` authorizes exactly
/// through `require_auth` or `require_auth_for_args`, keyed by its source text.
pub proof fn law_which_calls_reset_and_authorize(s: AuthStmt)
    ensures
        is_cross_call(s) <==> (s.method matches Some(m) && (m@ == "invoke_contract"@ || m@ == "try_invoke_contract"@)
            && has_infix(s.receiver_type@, "Env"@)),
        (s.method matches Some(m) && (m@ == "require_auth"@ || m@ == "require_auth_for_args"@) && has_infix(
            s.receiver_type@,
            "Address"@,
        ) && s.receiver_text is Some) ==> auth_key(s) == Some(s.receiver_text.unwrap()@),
        (s.method matches Some(m) && m@ != "require_auth"@ && m@ != "require_auth_for_args"@) ==> auth_key(s) is None,
        s.method is None ==> auth_key(s) is None && !is_cross_call(s),
{
    lemma_env_infix(s.receiver_type@);
    assert(CROSS_CONTRACT_CALL_METHODS@[0]@ == "invoke_contract"@);
    assert(CROSS_CONTRACT_CALL_METHODS@[1]@ == "try_invoke_contract"@);
    assert(REQUIRE_AUTH_METHODS@[0]@ == "require_auth"@);
    assert(REQUIRE_AUTH_METHODS@[1]@ == "require_auth_for_args"@);
    lemma_address_infix(s.receiver_type@);
    if let Some(m) = s.method {
        if is_one_of(m@, CROSS_CONTRACT_CALL_METHODS@) {
            let i = choose|i: int| 0 <= i < CROSS_CONTRACT_CALL_METHODS@.len() && CROSS_CONTRACT_CALL_METHODS@[i]@ == m@;
            assert(i == 0 || i == 1);
        }
        if is_one_of(m@, REQUIRE_AUTH_METHODS@) {
            let i = choose|i: int| 0 <= i < REQUIRE_AUTH_METHODS@.len() && REQUIRE_AUTH_METHODS@[i]@ == m@;
            assert(i == 0 || i == 1);
        }
    }
}

/// A text that contains `soroban_sdk::Env` contains `Env`.
proof fn lemma_env_infix(t: Seq<char>)
    ensures
        has_infix(t, "soroban_sdk::Env"@) ==> has_infix(t, "Env"@),
{
    reveal_strlit("soroban_sdk::Env");
    reveal_strlit("Env");
    if has_infix(t, "soroban_sdk::Env"@) {
        let n = "soroban_sdk::Env"@;
        let i = choose|i: int| 0 <= i <= t.len() - n.len() && #[trigger] t.subrange(i, i + n.len()) == n;
        let w = t.subrange(i, i + n.len());
        assert(forall|k: int| 0 <= k < 3 ==> #[trigger] t.subrange(i + 13, i + 16)[k] == w[13 + k]);
        assert(t.subrange(i + 13, i + 16) =~= "Env"@);
        assert(t.subrange(i + 13, i + 13 + "Env"@.len()) == "Env"@);
    }
}

/// A text that contains `soroban_sdk::Address` contains `Address`.
proof fn lemma_address_infix(t: Seq<char>)
    ensures
        has_infix(t, "soroban_sdk::Address"@) ==> has_infix(t, "Address"@),
{
    reveal_strlit("soroban_sdk::Address");
    reveal_strlit("Address");
    if has_infix(t, "soroban_sdk::Address"@) {
        let n = "soroban_sdk::Address"@;
        let i = choose|i: int| 0 <= i <= t.len() - n.len() && #[trigger] t.subrange(i, i + n.len()) == n;
        let w = t.subrange(i, i + n.len());
        assert(forall|k: int| 0 <= k < 7 ==> #[trigger] t.subrange(i + 13, i + 20)[k] == w[13 + k]);
        assert(t.subrange(i + 13, i + 20) =~= "Address"@);
        assert(t.subrange(i + 13, i + 13 + "Address"@.len()) == "Address"@);
    }
}

/// An authorization right after `invoke_contract` or `try_invoke_contract`
/// on `Env` is never reported: either call resets what the block has seen.
pub proof fn law_invoking_a_contract_resets(stmts: Seq<AuthStmt>, i: int)
    requires
        1 <= i < stmts.len(),
        stmts[i - 1].method matches Some(m) && (m@ == "invoke_contract"@ || m@ == "try_invoke_contract"@),
        has_infix(stmts[i - 1].receiver_type@, "Env"@),
    ensures
        !redundant_auth_at(stmts, i),
{
    law_which_calls_reset_and_authorize(stmts[i - 1]);
    law_cross_contract_call_resets(stmts, i);
}

/// How one more statement moves what is authorized: a cross-contract call
/// forgets every address; an authorization adds its address; any other
/// statement changes nothing.
pub proof fn law_one_statement_step(stmts: Seq<AuthStmt>, s: AuthStmt, key: Seq<char>)
    ensures
        is_cross_call(s) ==> !authorized(stmts.push(s), key),
        !is_cross_call(s) && auth_key(s) == Some(key) ==> authorized(stmts.push(s), key),
        !is_cross_call(s) && auth_key(s) != Some(key) ==> authorized(stmts.push(s), key) == authorized(stmts, key),
{
    assert(stmts.push(s).drop_last() =~= stmts);
}

/// A second authorization of the same address, with no cross-contract call in
/// between, is reported.
pub proof fn law_repeated_authorization_is_reported(stmts: Seq<AuthStmt>, j: int, i: int, key: Seq<char>)
    requires
        0 <= j < i < stmts.len(),
        auth_key(stmts[j]) == Some(key),
        auth_key(stmts[i]) == Some(key),
        !is_cross_call(stmts[i]),
        forall|q: int| j <= q < i ==> !is_cross_call(#[trigger] stmts[q]),
    ensures
        redundant_auth_at(stmts, i),
    decreases i - j,
{
    lemma_authorized_since(stmts, j, i, key);
}

proof fn lemma_authorized_since(stmts: Seq<AuthStmt>, j: int, n: int, key: Seq<char>)
    requires
        0 <= j < n <= stmts.len(),
        auth_key(stmts[j]) == Some(key),
        forall|q: int| j <= q < n ==> !is_cross_call(#[trigger] stmts[q]),
    ensures
        authorized(stmts.take(n), key),
    decreases n - j,
{
    let t = stmts.take(n);
    assert(t.last() == stmts[n - 1]);
    assert(t.drop_last() =~= stmts.take(n - 1));
    assert(!is_cross_call(stmts[n - 1]));
    if n - 1 > j {
        lemma_authorized_since(stmts, j, n - 1, key);
    }
}

} // verus!
