//! The authorization engine: whether an actor may transfer or send a leased
//! name "now".  Three independent grounds, any one sufficient: the actor is
//! the record's owner; the actor holds an unexpired per-name approval; or the
//! actor holds an unexpired blanket operator grant from the record's owner.

use crate::error::ContractError;
use crate::state::{Approval, Name, Operator};
use vstd::prelude::*;

verus! {

/// Whether `actor` holds an approval entry in `aps` that has not expired at
/// `now`.
pub open spec fn spec_has_active_approval(aps: Seq<Approval>, actor: Seq<char>, now: u64) -> bool {
    exists|i: int|
        0 <= i < aps.len() && aps[i].spender@ == actor && !aps[i].expires.spec_is_expired(now)
}

/// Whether `actor` holds a blanket grant in `ops` that has not expired at
/// `now`.
pub open spec fn spec_has_active_operator(ops: Seq<Operator>, actor: Seq<char>, now: u64) -> bool {
    exists|i: int|
        0 <= i < ops.len() && ops[i].owner@ == actor && !ops[i].expires.spec_is_expired(now)
}

/// Whether `actor` may transfer or send the name held by `rec`, given the
/// blanket grants `ops` stored under the record's owner.
pub open spec fn spec_can_act(rec: Name, ops: Seq<Operator>, actor: Seq<char>, now: u64) -> bool {
    ||| rec.owner@ == actor
    ||| spec_has_active_approval(rec.approvals@, actor, now)
    ||| spec_has_active_operator(ops, actor, now)
}

/// Decides whether `sender` may transfer or send `token` at clock value
/// `now`, given the blanket grants `op` stored under the token's owner.  The
/// three grounds are checked in order, but any one alone suffices.
pub fn check_can_send(op: &Vec<Operator>, sender: &String, now: u64, token: &Name) -> (r: Result<
    (),
    ContractError,
>)
    ensures
        r is Ok <==> spec_can_act(*token, op@, sender@, now),
        r is Err ==> r == Err::<(), ContractError>(ContractError::Unauthorized),
{
    // owner can send
    if token.owner == *sender {
        return Ok(());
    }
    // any non-expired per-name approval can send
    let mut i: usize = 0;
    let napr = token.approvals.len();
    while i < napr
        invariant
            napr == token.approvals@.len(),
            i <= napr,
            forall|j: int|
                0 <= j < i ==> !(token.approvals@[j].spender@ == sender@
                    && !token.approvals@[j].expires.spec_is_expired(now)),
        decreases napr - i,
    {
        let apr = &token.approvals[i];
        if apr.spender == *sender && !apr.expires.is_expired(now) {
            return Ok(());
        }
        i += 1;
    }
    // an operator with a non-expired blanket grant can send
    let mut i: usize = 0;
    let nops = op.len();
    while i < nops
        invariant
            nops == op@.len(),
            i <= nops,
            forall|j: int|
                0 <= j < i ==> !(op@[j].owner@ == sender@ && !op@[j].expires.spec_is_expired(now)),
        decreases nops - i,
    {
        let o = &op[i];
        if o.owner == *sender && !o.expires.is_expired(now) {
            return Ok(());
        }
        i += 1;
    }
    Err(ContractError::Unauthorized)
}

} // verus!
