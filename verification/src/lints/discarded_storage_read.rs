//! `discarded_storage_read` — flags a storage read whose result is thrown away.

use vstd::prelude::*;

use crate::text::{has_infix, str_contains, str_eq};

verus! {

/// Message reported for a discarded read.
pub const DISCARDED_STORAGE_READ_MSG: &'static str = "storage read result is discarded";

/// Help note attached to the message.
pub const DISCARDED_STORAGE_READ_HELP: &'static str = "delete the storage read or use its returned value";

/// Whether a receiver type name is a storage accessor (as printed by the type checker).
pub open spec fn is_storage_type_name(ty: Seq<char>) -> bool {
    has_infix(ty, "Storage"@) || has_infix(ty, "Instance"@) || has_infix(ty, "Persistent"@) || has_infix(
        ty,
        "Temporary"@,
    )
}

/// Whether a method call reads storage: `get` or `has` on a receiver whose
/// type name mentions storage or one of the accessors.
pub fn is_storage_read(method: &str, receiver_type: &str) -> (res: bool)
    ensures
        res == ((method@ == "get"@ || method@ == "has"@) && (has_infix(receiver_type@, "storage"@)
            || is_storage_type_name(receiver_type@))),
{
    (str_eq(method, "get") || str_eq(method, "has")) && (str_contains(receiver_type, "storage") || str_contains(
        receiver_type,
        "Storage",
    ) || str_contains(receiver_type, "Instance") || str_contains(receiver_type, "Persistent") || str_contains(
        receiver_type,
        "Temporary",
    ))
}

/// Where an expression sits, as one step of its parent chain.
#[derive(Clone, Debug)]
pub enum Parent {
    /// The expression of a statement ending in `;`.
    SemiStatement,
    /// The initialiser of `let _ = ..`.
    LetWildcard,
    /// The initialiser of a `let` with any other pattern (a binding is
    /// counted as used).
    LetOther,
    /// The trailing expression of a block.
    BlockTail,
    /// Another position inside a block.
    BlockOther,
    /// The body of a function: its value is the function's result.
    FunctionBody,
    /// Any other expression.
    OtherExpression,
    /// Any other node, or none.
    OtherNode,
}

/// Whether the value of an expression with parent chain `chain` (nearest
/// first) is thrown away.
pub open spec fn discarded(chain: Seq<Parent>) -> bool
    decreases chain.len(),
{
    if chain.len() == 0 {
        true
    } else {
        match chain[0] {
            Parent::SemiStatement => true,
            Parent::LetWildcard => true,
            Parent::LetOther => false,
            Parent::BlockTail => discarded(chain.drop_first()),
            Parent::BlockOther => true,
            Parent::FunctionBody => false,
            Parent::OtherExpression => false,
            Parent::OtherNode => true,
        }
    }
}

/// Whether the value of an expression is thrown away, given its parent chain
/// (nearest first): a `;` statement or `let _ =` discards it, a binding or
/// another expression uses it, a function body's value is returned, and a
/// block's trailing expression is discarded when the block is.
pub fn is_expr_discarded(chain: &[Parent]) -> (res: bool)
    ensures
        res == discarded(chain@),
{
    let mut i: usize = 0;
    assert(chain@.skip(0) =~= chain@);
    while i < chain.len()
        invariant
            i <= chain@.len(),
            discarded(chain@) == discarded(chain@.skip(i as int)),
        decreases chain@.len() - i,
    {
        assert(chain@.skip(i as int)[0] == chain@[i as int]);
        assert(chain@.skip(i as int).drop_first() =~= chain@.skip(i + 1));
        match chain[i] {
            Parent::SemiStatement => {
                return true;
            },
            Parent::LetWildcard => {
                return true;
            },
            Parent::LetOther => {
                return false;
            },
            Parent::BlockTail => {},
            Parent::BlockOther => {
                return true;
            },
            Parent::FunctionBody => {
                return false;
            },
            Parent::OtherExpression => {
                return false;
            },
            Parent::OtherNode => {
                return true;
            },
        }
        i = i + 1;
    }
    true
}

/// The value a function body ends with is returned, not discarded: a read
/// that is the trailing expression of a function's body block is kept.
pub proof fn law_returned_tail_is_kept(chain: Seq<Parent>)
    requires
        chain.len() >= 2,
        chain[0] is BlockTail,
        chain[1] is FunctionBody,
    ensures
        !discarded(chain),
{
    assert(chain.drop_first()[0] is FunctionBody);
    assert(!discarded(chain.drop_first()));
}

/// Whether a storage read is reported: its value is discarded.
pub fn is_reported(method: &str, receiver_type: &str, chain: &[Parent]) -> (res: bool)
    ensures
        res == ((method@ == "get"@ || method@ == "has"@) && (has_infix(receiver_type@, "storage"@)
            || is_storage_type_name(receiver_type@)) && discarded(chain@)),
{
    is_storage_read(method, receiver_type) && is_expr_discarded(chain)
}

/// Where a read sits decides whether its value is lost, whatever lies above:
/// `expr;` and `let _ = expr` throw it away; a named binding, an operand or
/// argument, and a function's result keep it; a block's trailing expression
/// is lost exactly when its block's value is.
pub proof fn law_position_decides(rest: Seq<Parent>)
    ensures
        discarded(seq![Parent::SemiStatement] + rest),
        discarded(seq![Parent::LetWildcard] + rest),
        !discarded(seq![Parent::LetOther] + rest),
        !discarded(seq![Parent::OtherExpression] + rest),
        !discarded(seq![Parent::FunctionBody] + rest),
        discarded(seq![Parent::BlockTail] + rest) == discarded(rest),
{
    assert((seq![Parent::BlockTail] + rest).drop_first() =~= rest);
}

} // verus!
