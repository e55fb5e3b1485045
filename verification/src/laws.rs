//! The registry's global laws, stated over the same spec functions the
//! command contracts use and proved from them.

use crate::auth::{spec_can_act, spec_has_active_approval, spec_has_active_operator};
use crate::contract::{
    add_time_post, approve_all_post, register_post, revoke_all_post, spec_expires_or_never,
    transfer_post,
};
use crate::error::ContractError;
use crate::msg::Response;
use crate::pricing::{spec_covers, spec_quote, spec_tier_price};
use crate::registry::Registry;
use crate::state::{Env, Expiration, MessageInfo, Operator, State};
use vstd::prelude::*;

verus! {

/// A price schedule in which shorter names cost at least as much per unit:
/// each tier's unit price is no less than the next longer tier's.
pub open spec fn schedule_monotone(state: State) -> bool {
    &&& state.cost_for_1 >= state.cost_for_2
    &&& state.cost_for_2 >= state.cost_for_3
    &&& state.cost_for_3 >= state.cost_for_4
    &&& state.cost_for_4 >= state.cost_for_5
    &&& state.cost_for_5 >= state.cost_for_6
}

/// Registration succeeds exactly on availability: with funds that cover the
/// quote and a duration whose expiry fits the clock, a register command
/// returns success if and only if no record exists for the name or the
/// existing record's expiry has passed — and otherwise fails as already
/// existing.
pub proof fn lemma_register_iff_available(
    pre: Registry,
    post: Registry,
    env: Env,
    info: MessageInfo,
    name: String,
    years: u64,
    avatar_url: Option<String>,
    terra_address: Option<String>,
    secret_address: Option<String>,
    crypto_org_address: Option<String>,
    starname_address: Option<String>,
    persistence_address: Option<String>,
    kava_address: Option<String>,
    website: Option<String>,
    email: Option<String>,
    twitter: Option<String>,
    telegram: Option<String>,
    discord: Option<String>,
    instagram: Option<String>,
    reddit: Option<String>,
    r: Result<Response, ContractError>,
)
    requires
        register_post(
            pre,
            post,
            env,
            info,
            name,
            years,
            avatar_url,
            terra_address,
            secret_address,
            crypto_org_address,
            starname_address,
            persistence_address,
            kava_address,
            website,
            email,
            twitter,
            telegram,
            discord,
            instagram,
            reddit,
            r,
        ),
        spec_covers(info.funds@, pre.state.denom@, spec_quote(pre.state, name@.len(), years)),
        env.now + years * pre.state.blocks_per_year <= u64::MAX,
    ensures
        r is Ok <==> pre.spec_available(name@, env.now),
        r is Err ==> r == Err::<Response, ContractError>(ContractError::AlreadyExists),
{
}

/// Availability is consumed by registration: after a successful registration
/// that purchased any positive amount of lease time, the same name is no
/// longer available at the same instant, so a second registration at that
/// instant is refused as already existing.
pub proof fn lemma_register_consumes_availability(
    pre: Registry,
    post: Registry,
    env: Env,
    info: MessageInfo,
    name: String,
    years: u64,
    avatar_url: Option<String>,
    terra_address: Option<String>,
    secret_address: Option<String>,
    crypto_org_address: Option<String>,
    starname_address: Option<String>,
    persistence_address: Option<String>,
    kava_address: Option<String>,
    website: Option<String>,
    email: Option<String>,
    twitter: Option<String>,
    telegram: Option<String>,
    discord: Option<String>,
    instagram: Option<String>,
    reddit: Option<String>,
    r: Result<Response, ContractError>,
)
    requires
        register_post(
            pre,
            post,
            env,
            info,
            name,
            years,
            avatar_url,
            terra_address,
            secret_address,
            crypto_org_address,
            starname_address,
            persistence_address,
            kava_address,
            website,
            email,
            twitter,
            telegram,
            discord,
            instagram,
            reddit,
            r,
        ),
        r is Ok,
        years * pre.state.blocks_per_year >= 1,
    ensures
        !post.spec_available(name@, env.now),
        post.spec_visible(name@, env.now),
{
    assert(post.rec(name@).expires == env.now + years * pre.state.blocks_per_year);
}

/// Renewal is additive, never destructive: a successful renewal extends the
/// expiry by exactly the purchased duration — it never decreases it — and
/// neither the owner nor anything else about the record changes.
pub proof fn lemma_renewal_additive(
    pre: Registry,
    post: Registry,
    info: MessageInfo,
    name: String,
    years: u64,
    r: Result<Response, ContractError>,
)
    requires
        add_time_post(pre, post, info, name, years, r),
        r is Ok,
    ensures
        post.rec(name@).expires == pre.rec(name@).expires + years * pre.state.blocks_per_year,
        post.rec(name@).expires >= pre.rec(name@).expires,
        post.rec(name@).owner == pre.rec(name@).owner,
{
    assert(years * pre.state.blocks_per_year >= 0) by (nonlinear_arith);
}

/// Pricing is strictly monotone in the duration: with a positive unit price,
/// a longer lease for the same name costs strictly more.
pub proof fn lemma_quote_monotone_in_duration(state: State, char_count: nat, y1: u64, y2: u64)
    requires
        y1 < y2,
        spec_tier_price(state, char_count) > 0,
    ensures
        spec_quote(state, char_count, y1) < spec_quote(state, char_count, y2),
{
    let p = spec_tier_price(state, char_count) as int;
    assert(p * y1 < p * y2) by (nonlinear_arith)
        requires
            p > 0,
            y1 < y2,
    ;
}

/// Pricing is antitone in the name's length up to the five-character tier:
/// under a schedule in which shorter names are at least as expensive, a
/// shorter name never costs less than a longer one for the same duration.
pub proof fn lemma_quote_antitone_in_length(state: State, l1: nat, l2: nat, y: u64)
    requires
        schedule_monotone(state),
        1 <= l1 < l2 <= 5,
    ensures
        spec_quote(state, l1, y) >= spec_quote(state, l2, y),
{
    let p1 = spec_tier_price(state, l1) as int;
    let p2 = spec_tier_price(state, l2) as int;
    assert(p1 >= p2);
    assert(p1 * y >= p2 * y) by (nonlinear_arith)
        requires
            p1 >= p2,
            y >= 0,
    ;
}

/// A transfer clears all delegation: afterwards an actor may transfer the
/// name if and only if it is the new owner or holds an unexpired blanket
/// grant from the new owner — the prior owner and the prior per-name
/// delegates as such are powerless.
pub proof fn lemma_transfer_clears_delegation(
    pre: Registry,
    post: Registry,
    env: Env,
    info: MessageInfo,
    recipient: String,
    token_id: String,
    r: Result<Response, ContractError>,
    actor: Seq<char>,
    later: u64,
)
    requires
        transfer_post(pre, post, env, info, recipient, token_id, r),
        r is Ok,
    ensures
        spec_can_act(
            post.rec(token_id@),
            post.ops_of(post.rec(token_id@).owner@),
            actor,
            later,
        ) <==> (actor == recipient@ || spec_has_active_operator(
            post.ops_of(recipient@),
            actor,
            later,
        )),
{
    assert(post.rec(token_id@).approvals@.len() == 0);
    assert(!spec_has_active_approval(post.rec(token_id@).approvals@, actor, later));
}

/// A blanket grant alone is sufficient: once an owner has granted an
/// operator whose expiration is still in the future, that operator may act
/// on every name the owner holds, with no per-name approval.
pub proof fn lemma_operator_grant_sufficient(
    pre: Registry,
    post: Registry,
    env: Env,
    info: MessageInfo,
    operator: String,
    expires: Option<Expiration>,
    r: Result<Response, ContractError>,
    key: Seq<char>,
    later: u64,
)
    requires
        approve_all_post(pre, post, env, info, operator, expires, r),
        r is Ok,
        post.spec_has(key),
        post.rec(key).owner@ == info.sender@,
        !spec_expires_or_never(expires).spec_is_expired(later),
    ensures
        spec_can_act(post.rec(key), post.ops_of(post.rec(key).owner@), operator@, later),
{
    let ops = post.ops_of(info.sender@);
    let i: int = ops.len() as int - 1;
    assert(ops[i] == (Operator {
        owner: operator,
        expires: spec_expires_or_never(expires),
    }));
    assert(spec_has_active_operator(ops, operator@, later));
}

/// Revoking all blanket grants removes the capability at once: after an
/// owner clears its operator directory entry, no actor other than the owner
/// can act on any of the owner's names unless it still holds an unexpired
/// per-name approval on that record.
pub proof fn lemma_revoke_all_removes_capability(
    pre: Registry,
    post: Registry,
    info: MessageInfo,
    r: Result<Response, ContractError>,
    key: Seq<char>,
    actor: Seq<char>,
    later: u64,
)
    requires
        revoke_all_post(pre, post, info, r),
        post.spec_has(key),
        post.rec(key).owner@ == info.sender@,
        actor != info.sender@,
        !spec_has_active_approval(post.rec(key).approvals@, actor, later),
    ensures
        !spec_can_act(post.rec(key), post.ops_of(post.rec(key).owner@), actor, later),
{
    assert(post.ops_of(info.sender@).len() == 0);
}

/// An expired record is invisible and its name is free again: once the
/// clock reaches the expiry, the name reports not-found to every name-scoped
/// query and is simultaneously available for fresh registration by anyone.
pub proof fn lemma_expired_is_invisible(reg: Registry, key: Seq<char>, now: u64)
    requires
        reg.spec_has(key),
        reg.rec(key).expires <= now,
    ensures
        !reg.spec_visible(key, now),
        reg.spec_available(key, now),
{
}

/// A record never holds two approvals for the same delegate: the registry's
/// well-formedness, preserved by every command, bounds each delegate to at
/// most one entry per name.
pub proof fn lemma_approvals_unique(reg: Registry, key: Seq<char>, i: int, j: int)
    requires
        reg.wf(),
        reg.spec_has(key),
        0 <= i < j < reg.rec(key).approvals@.len(),
    ensures
        reg.rec(key).approvals@[i].spender@ != reg.rec(key).approvals@[j].spender@,
{
    let w = reg.index_of(key);
    assert(reg.names@[w] == reg.rec(key));
}

} // verus!
