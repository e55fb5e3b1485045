//! The registry contract: the command surface over the lease record store,
//! the operator directory and the global configuration, and the read-only
//! queries.  Every command takes the host-supplied environment (`Env`) and
//! the caller (`MessageInfo`), mutates the registry atomically, and leaves
//! all state unchanged on every error.

use crate::auth::{check_can_send, spec_can_act};
use crate::error::ContractError;
use crate::msg::{
    ApprovedForAllResponse, Attribute, BankSend, BlocksResponse, ContractInfoResponse,
    ExecuteMsg, InstantiateMsg, NameResponse, NftInfoResponse, NumTokensResponse, OwnerResponse,
    QueryAnswer, QueryMsg, Response,
};
use crate::pricing::{covers, quote, spec_covers, spec_quote};
use crate::registry::Registry;
use crate::state::{
    clone_approvals, clone_operators, distinct_spenders, lemma_remove_spender, no_profile,
    profile_is, remove_spender, same_profile, spec_remove_spender, Approval, Env, Expiration,
    MessageInfo, Name, Operator, OperatorEntry, State,
};
use vstd::prelude::*;
use vstd::string::StringExecFns;

verus! {

/// The price a configuration message sets, or the built-in default where the
/// message leaves the tier out.
pub open spec fn spec_price_or(o: Option<u64>, d: u64) -> u64 {
    match o {
        Some(x) => x,
        None => d,
    }
}

/// The operator directory maps every grantor to the same grants in both
/// registries.
pub open spec fn ops_unchanged(pre: Registry, post: Registry) -> bool {
    forall|o: Seq<char>| post.ops_of(o) == pre.ops_of(o)
}

/// The lease table holds the same keys and records in both registries.
pub open spec fn names_unchanged(pre: Registry, post: Registry) -> bool {
    &&& forall|k: Seq<char>| post.spec_has(k) <==> pre.spec_has(k)
    &&& forall|k: Seq<char>| pre.spec_has(k) ==> post.rec(k) == pre.rec(k)
}

/// The lease table holds the same keys and records in both registries, apart
/// from (possibly) the one key `key`.
pub open spec fn names_unchanged_except(pre: Registry, post: Registry, key: Seq<char>) -> bool {
    &&& forall|k: Seq<char>| k != key ==> (post.spec_has(k) <==> pre.spec_has(k))
    &&& forall|k: Seq<char>| k != key && pre.spec_has(k) ==> post.rec(k) == pre.rec(k)
}

/// Constructs the Global Configuration singleton from the instantiation
/// message — prices the message leaves out fall back to the built-in
/// schedule — and hands back the empty registry it governs.  The caller
/// becomes the admin.
pub fn instantiate(info: MessageInfo, msg: InstantiateMsg) -> (r: (Registry, Response))
    ensures
        r.0.wf(),
        r.0.state.blocks_per_year == msg.blocks_per_year,
        r.0.state.owner == info.sender,
        r.0.state.meta_url == msg.meta_url,
        r.0.state.denom == msg.denom,
        r.0.state.cost_for_6 == spec_price_or(msg.cost_for_6, 156250),
        r.0.state.cost_for_5 == spec_price_or(msg.cost_for_5, 312500),
        r.0.state.cost_for_4 == spec_price_or(msg.cost_for_4, 625000),
        r.0.state.cost_for_3 == spec_price_or(msg.cost_for_3, 1250000),
        r.0.state.cost_for_2 == spec_price_or(msg.cost_for_2, 2500000),
        r.0.state.cost_for_1 == spec_price_or(msg.cost_for_1, 5000000),
        forall|k: Seq<char>| !r.0.spec_has(k),
        forall|o: Seq<char>| r.0.ops_of(o) == Seq::<Operator>::empty(),
        r.1.messages@.len() == 0,
{
    let owner_attr = info.sender.clone();
    let state = State {
        blocks_per_year: msg.blocks_per_year,
        owner: info.sender,
        meta_url: msg.meta_url,
        denom: msg.denom,
        cost_for_6: match msg.cost_for_6 {
            Some(x) => x,
            None => 156250,
        },
        cost_for_5: match msg.cost_for_5 {
            Some(x) => x,
            None => 312500,
        },
        cost_for_4: match msg.cost_for_4 {
            Some(x) => x,
            None => 625000,
        },
        cost_for_3: match msg.cost_for_3 {
            Some(x) => x,
            None => 1250000,
        },
        cost_for_2: match msg.cost_for_2 {
            Some(x) => x,
            None => 2500000,
        },
        cost_for_1: match msg.cost_for_1 {
            Some(x) => x,
            None => 5000000,
        },
    };
    let bpy_attr = msg.blocks_per_year.to_string();
    let reg = Registry { state, names: Vec::new(), operators: Vec::new() };
    let resp = Response {
        messages: Vec::new(),
        attributes: vec![
            Attribute { key: "method".to_string(), value: "instantiate".to_string() },
            Attribute { key: "owner".to_string(), value: owner_attr },
            Attribute { key: "blocks_per_year".to_string(), value: bpy_attr },
        ],
    };
    (reg, resp)
}

/// What changing the lease-duration constant does: refused unless the caller
/// is the admin; on success only that one configuration field changes.
pub open spec fn set_blocks_per_year_post(
    pre: Registry,
    post: Registry,
    info: MessageInfo,
    blocks_per_year: u64,
    r: Result<Response, ContractError>,
) -> bool {
    let admin = pre.state.owner@ == info.sender@;
    match r {
        Ok(resp) => {
            &&& admin
            &&& post.state.blocks_per_year == blocks_per_year
            &&& post.state.owner == pre.state.owner
            &&& post.state.meta_url == pre.state.meta_url
            &&& post.state.denom == pre.state.denom
            &&& post.state.cost_for_6 == pre.state.cost_for_6
            &&& post.state.cost_for_5 == pre.state.cost_for_5
            &&& post.state.cost_for_4 == pre.state.cost_for_4
            &&& post.state.cost_for_3 == pre.state.cost_for_3
            &&& post.state.cost_for_2 == pre.state.cost_for_2
            &&& post.state.cost_for_1 == pre.state.cost_for_1
            &&& names_unchanged(pre, post)
            &&& ops_unchanged(pre, post)
            &&& resp.messages@.len() == 0
        },
        Err(e) => {
            &&& post == pre
            &&& e == ContractError::Unauthorized
            &&& !admin
        },
    }
}

/// Overwrites the lease-duration constant; admin only.
pub fn try_set_blocks_per_year(
    reg: &mut Registry,
    info: MessageInfo,
    blocks_per_year: u64,
) -> (r: Result<Response, ContractError>)
    requires
        old(reg).wf(),
    ensures
        final(reg).wf(),
        set_blocks_per_year_post(*old(reg), *final(reg), info, blocks_per_year, r),
{
    if !(info.sender == reg.state.owner) {
        return Err(ContractError::Unauthorized);
    }
    reg.state.blocks_per_year = blocks_per_year;
    proof {
        Registry::lemma_same_tables(*old(reg), *reg);
    }
    Ok(Response {
        messages: Vec::new(),
        attributes: vec![
            Attribute { key: "method".to_string(), value: "try_increment".to_string() },
        ],
    })
}

/// What changing the admin does: refused unless the caller is the admin; on
/// success only the admin field changes.
pub open spec fn set_owner_post(
    pre: Registry,
    post: Registry,
    info: MessageInfo,
    owner: String,
    r: Result<Response, ContractError>,
) -> bool {
    let admin = pre.state.owner@ == info.sender@;
    match r {
        Ok(resp) => {
            &&& admin
            &&& post.state.owner == owner
            &&& post.state.blocks_per_year == pre.state.blocks_per_year
            &&& post.state.meta_url == pre.state.meta_url
            &&& post.state.denom == pre.state.denom
            &&& post.state.cost_for_6 == pre.state.cost_for_6
            &&& post.state.cost_for_5 == pre.state.cost_for_5
            &&& post.state.cost_for_4 == pre.state.cost_for_4
            &&& post.state.cost_for_3 == pre.state.cost_for_3
            &&& post.state.cost_for_2 == pre.state.cost_for_2
            &&& post.state.cost_for_1 == pre.state.cost_for_1
            &&& names_unchanged(pre, post)
            &&& ops_unchanged(pre, post)
            &&& resp.messages@.len() == 0
        },
        Err(e) => {
            &&& post == pre
            &&& e == ContractError::Unauthorized
            &&& !admin
        },
    }
}

/// Hands the admin role to another account; admin only.
pub fn try_set_owner(reg: &mut Registry, info: MessageInfo, owner: String) -> (r: Result<
    Response,
    ContractError,
>)
    requires
        old(reg).wf(),
    ensures
        final(reg).wf(),
        set_owner_post(*old(reg), *final(reg), info, owner, r),
{
    if !(info.sender == reg.state.owner) {
        return Err(ContractError::Unauthorized);
    }
    reg.state.owner = owner;
    proof {
        Registry::lemma_same_tables(*old(reg), *reg);
    }
    Ok(Response {
        messages: Vec::new(),
        attributes: vec![Attribute { key: "method".to_string(), value: "reset".to_string() }],
    })
}

/// What registering a name does.  The name must be available — no record,
/// or one whose expiry has passed — and the attached funds must cover the
/// quote; the lease then runs from `now` for the purchased duration, owned
/// by the caller, with no approvals and exactly the given profile.  A
/// duration whose expiry would not fit the clock's range is refused.
pub open spec fn register_post(
    pre: Registry,
    post: Registry,
    env: Env,
    info: MessageInfo,
    name: String,
    years: u64,
    avatar_url: Option<String>,
    terra_address: Option<String>,
    secret_address: Option<String>,
    crypto_org_address: Option<String>,
    starname_address: Option<String>,
    persistence_address: Option<String>,
    kava_address: Option<String>,
    website: Option<String>,
    email: Option<String>,
    twitter: Option<String>,
    telegram: Option<String>,
    discord: Option<String>,
    instagram: Option<String>,
    reddit: Option<String>,
    r: Result<Response, ContractError>,
) -> bool {
    let avail = pre.spec_available(name@, env.now);
    let cover = spec_covers(
        info.funds@,
        pre.state.denom@,
        spec_quote(pre.state, name@.len(), years),
    );
    let fits = env.now + years * pre.state.blocks_per_year <= u64::MAX;
    match r {
        Ok(resp) => {
            &&& avail
            &&& cover
            &&& fits
            &&& post.spec_has(name@)
            &&& post.rec(name@).id@ == name@
            &&& post.rec(name@).owner == info.sender
            &&& post.rec(name@).expires == env.now + years * pre.state.blocks_per_year
            &&& post.rec(name@).approvals@.len() == 0
            &&& profile_is(
                post.rec(name@),
                avatar_url,
                secret_address,
                crypto_org_address,
                starname_address,
                persistence_address,
                kava_address,
                terra_address,
                website,
                email,
                twitter,
                telegram,
                discord,
                instagram,
                reddit,
            )
            &&& names_unchanged_except(pre, post, name@)
            &&& ops_unchanged(pre, post)
            &&& post.state == pre.state
            &&& resp.messages@.len() == 0
        },
        Err(e) => {
            &&& post == pre
            &&& match e {
                ContractError::AlreadyExists => !avail,
                ContractError::InsufficientPayment => avail && !cover,
                ContractError::InvalidArgument => avail && cover && !fits,
                _ => false,
            }
        },
    }
}

/// Registers (or re-registers, once the old lease has lapsed) a name for the
/// caller.
pub fn try_register_name(
    reg: &mut Registry,
    env: Env,
    info: MessageInfo,
    name: String,
    years: u64,
    avatar_url: Option<String>,
    terra_address: Option<String>,
    secret_address: Option<String>,
    crypto_org_address: Option<String>,
    starname_address: Option<String>,
    persistence_address: Option<String>,
    kava_address: Option<String>,
    website: Option<String>,
    email: Option<String>,
    twitter: Option<String>,
    telegram: Option<String>,
    discord: Option<String>,
    instagram: Option<String>,
    reddit: Option<String>,
) -> (r: Result<Response, ContractError>)
    requires
        old(reg).wf(),
    ensures
        final(reg).wf(),
        register_post(
            *old(reg),
            *final(reg),
            env,
            info,
            name,
            years,
            avatar_url,
            terra_address,
            secret_address,
            crypto_org_address,
            starname_address,
            persistence_address,
            kava_address,
            website,
            email,
            twitter,
            telegram,
            discord,
            instagram,
            reddit,
            r,
        ),
{
    let idx = reg.find_name(&name);
    match idx {
        Some(i) => {
            if reg.names[i].expires > env.now {
                return Err(ContractError::AlreadyExists);
            }
        },
        None => {},
    }
    let total_cost = quote(&reg.state, &name, years);
    if !covers(&info.funds, &reg.state.denom, total_cost) {
        return Err(ContractError::InsufficientPayment);
    }
    let added = match years.checked_mul(reg.state.blocks_per_year) {
        Some(p) => p,
        None => {
            return Err(ContractError::InvalidArgument);
        },
    };
    let expiration_date = match env.now.checked_add(added) {
        Some(x) => x,
        None => {
            return Err(ContractError::InvalidArgument);
        },
    };
    let cost_attr = total_cost.to_string();
    let data = Name {
        id: name.clone(),
        expires: expiration_date,
        owner: info.sender,
        approvals: Vec::new(),
        avatar_url,
        secret_address,
        crypto_org_address,
        starname_address,
        persistence_address,
        kava_address,
        terra_address,
        website,
        email,
        twitter,
        telegram,
        discord,
        instagram,
        reddit,
    };
    let ghost gdata = data;
    match idx {
        Some(i) => {
            reg.names.set(i, data);
            proof {
                Registry::lemma_names_update(*old(reg), *reg, i as int, gdata);
            }
        },
        None => {
            reg.names.push(data);
            proof {
                Registry::lemma_names_push(*old(reg), *reg, gdata);
            }
        },
    }
    Ok(Response {
        messages: Vec::new(),
        attributes: vec![
            Attribute { key: "method".to_string(), value: "try_register_name".to_string() },
            Attribute { key: "tokens_used".to_string(), value: cost_attr },
            Attribute { key: "name_registered".to_string(), value: name },
        ],
    })
}

/// What renewing a lease does.  The record must exist — expired or not — and
/// only the direct owner may renew; delegation is not honored here.  On
/// success the expiry is extended additively by the purchased duration, and
/// nothing else about the record changes.
pub open spec fn add_time_post(
    pre: Registry,
    post: Registry,
    info: MessageInfo,
    name: String,
    years: u64,
    r: Result<Response, ContractError>,
) -> bool {
    let exists_ = pre.spec_has(name@);
    let owner_ok = exists_ && pre.rec(name@).owner@ == info.sender@;
    let cover = spec_covers(
        info.funds@,
        pre.state.denom@,
        spec_quote(pre.state, name@.len(), years),
    );
    let fits = exists_ && pre.rec(name@).expires + years * pre.state.blocks_per_year <= u64::MAX;
    match r {
        Ok(resp) => {
            &&& owner_ok
            &&& cover
            &&& fits
            &&& post.spec_has(name@)
            &&& post.rec(name@).id@ == name@
            &&& post.rec(name@).owner == pre.rec(name@).owner
            &&& post.rec(name@).expires == pre.rec(name@).expires + years
                * pre.state.blocks_per_year
            &&& post.rec(name@).approvals@ == pre.rec(name@).approvals@
            &&& same_profile(post.rec(name@), pre.rec(name@))
            &&& names_unchanged_except(pre, post, name@)
            &&& ops_unchanged(pre, post)
            &&& post.state == pre.state
            &&& resp.messages@.len() == 0
        },
        Err(e) => {
            &&& post == pre
            &&& match e {
                ContractError::NotFound => !exists_,
                ContractError::Unauthorized => exists_ && pre.rec(name@).owner@ != info.sender@,
                ContractError::InsufficientPayment => owner_ok && !cover,
                ContractError::InvalidArgument => owner_ok && cover && !fits,
                _ => false,
            }
        },
    }
}

/// Extends a lease by the purchased duration; owner only, payment required.
pub fn try_add_time(
    reg: &mut Registry,
    _env: Env,
    info: MessageInfo,
    name: String,
    years: u64,
) -> (r: Result<Response, ContractError>)
    requires
        old(reg).wf(),
    ensures
        final(reg).wf(),
        add_time_post(*old(reg), *final(reg), info, name, years, r),
{
    let idx = match reg.find_name(&name) {
        Some(i) => i,
        None => {
            return Err(ContractError::NotFound);
        },
    };
    if !(reg.names[idx].owner == info.sender) {
        return Err(ContractError::Unauthorized);
    }
    let total_cost = quote(&reg.state, &name, years);
    if !covers(&info.funds, &reg.state.denom, total_cost) {
        return Err(ContractError::InsufficientPayment);
    }
    let added = match years.checked_mul(reg.state.blocks_per_year) {
        Some(p) => p,
        None => {
            return Err(ContractError::InvalidArgument);
        },
    };
    let new_expires = match reg.names[idx].expires.checked_add(added) {
        Some(x) => x,
        None => {
            return Err(ContractError::InvalidArgument);
        },
    };
    let cost_attr = total_cost.to_string();
    let mut data = reg.names[idx].clone();
    data.expires = new_expires;
    let ghost gdata = data;
    reg.names.set(idx, data);
    proof {
        assert(distinct_spenders(old(reg).names@[idx as int].approvals@));
        Registry::lemma_names_update(*old(reg), *reg, idx as int, gdata);
    }
    Ok(Response {
        messages: Vec::new(),
        attributes: vec![
            Attribute { key: "method".to_string(), value: "try_register_name".to_string() },
            Attribute { key: "tokens_used".to_string(), value: cost_attr },
            Attribute { key: "name_registered".to_string(), value: name },
        ],
    })
}

/// What replacing a name's profile does.  The record must exist and still be
/// valid, and only the owner may update it.  The replacement is wholesale:
/// fields left out of the request become unset, not left unchanged.  Only
/// the profile is touched: owner, expiry and the approvals stay.
pub open spec fn update_params_post(
    pre: Registry,
    post: Registry,
    env: Env,
    info: MessageInfo,
    name: String,
    avatar_url: Option<String>,
    terra_address: Option<String>,
    secret_address: Option<String>,
    crypto_org_address: Option<String>,
    starname_address: Option<String>,
    persistence_address: Option<String>,
    kava_address: Option<String>,
    website: Option<String>,
    email: Option<String>,
    twitter: Option<String>,
    telegram: Option<String>,
    discord: Option<String>,
    instagram: Option<String>,
    reddit: Option<String>,
    r: Result<Response, ContractError>,
) -> bool {
    let visible = pre.spec_visible(name@, env.now);
    match r {
        Ok(resp) => {
            &&& visible
            &&& pre.rec(name@).owner@ == info.sender@
            &&& post.spec_has(name@)
            &&& post.rec(name@).id@ == name@
            &&& post.rec(name@).owner == pre.rec(name@).owner
            &&& post.rec(name@).expires == pre.rec(name@).expires
            &&& post.rec(name@).approvals@ == pre.rec(name@).approvals@
            &&& profile_is(
                post.rec(name@),
                avatar_url,
                secret_address,
                crypto_org_address,
                starname_address,
                persistence_address,
                kava_address,
                terra_address,
                website,
                email,
                twitter,
                telegram,
                discord,
                instagram,
                reddit,
            )
            &&& names_unchanged_except(pre, post, name@)
            &&& ops_unchanged(pre, post)
            &&& post.state == pre.state
            &&& resp.messages@.len() == 0
        },
        Err(e) => {
            &&& post == pre
            &&& match e {
                ContractError::NotFound => !visible,
                ContractError::Unauthorized => visible && pre.rec(name@).owner@ != info.sender@,
                _ => false,
            }
        },
    }
}

/// Replaces a name's profile wholesale; owner only, and only while the lease
/// is valid.
pub fn try_update_name(
    reg: &mut Registry,
    env: Env,
    info: MessageInfo,
    name: String,
    avatar_url: Option<String>,
    terra_address: Option<String>,
    secret_address: Option<String>,
    crypto_org_address: Option<String>,
    starname_address: Option<String>,
    persistence_address: Option<String>,
    kava_address: Option<String>,
    website: Option<String>,
    email: Option<String>,
    twitter: Option<String>,
    telegram: Option<String>,
    discord: Option<String>,
    instagram: Option<String>,
    reddit: Option<String>,
) -> (r: Result<Response, ContractError>)
    requires
        old(reg).wf(),
    ensures
        final(reg).wf(),
        update_params_post(
            *old(reg),
            *final(reg),
            env,
            info,
            name,
            avatar_url,
            terra_address,
            secret_address,
            crypto_org_address,
            starname_address,
            persistence_address,
            kava_address,
            website,
            email,
            twitter,
            telegram,
            discord,
            instagram,
            reddit,
            r,
        ),
{
    let idx = match reg.find_name(&name) {
        Some(i) => i,
        None => {
            return Err(ContractError::NotFound);
        },
    };
    if reg.names[idx].expires <= env.now {
        return Err(ContractError::NotFound);
    }
    if !(reg.names[idx].owner == info.sender) {
        return Err(ContractError::Unauthorized);
    }
    let data = Name {
        id: reg.names[idx].id.clone(),
        expires: reg.names[idx].expires,
        owner: reg.names[idx].owner.clone(),
        approvals: clone_approvals(&reg.names[idx].approvals),
        avatar_url,
        secret_address,
        crypto_org_address,
        starname_address,
        persistence_address,
        kava_address,
        terra_address,
        website,
        email,
        twitter,
        telegram,
        discord,
        instagram,
        reddit,
    };
    let ghost gdata = data;
    reg.names.set(idx, data);
    proof {
        assert(distinct_spenders(old(reg).names@[idx as int].approvals@));
        Registry::lemma_names_update(*old(reg), *reg, idx as int, gdata);
    }
    Ok(Response {
        messages: Vec::new(),
        attributes: vec![
            Attribute { key: "method".to_string(), value: "try_register_name".to_string() },
            Attribute { key: "name_updated".to_string(), value: name },
        ],
    })
}

/// What transferring a name does.  The record must exist (expired leases can
/// still be transferred); the caller must pass the authorization engine
/// against the record and the current owner's blanket grants; and the host
/// must have found the recipient string a valid identity.  On success the
/// new owner takes over with the expiry kept, and the record carries no
/// inherited approvals and no inherited profile.
pub open spec fn transfer_post(
    pre: Registry,
    post: Registry,
    env: Env,
    info: MessageInfo,
    recipient: String,
    token_id: String,
    r: Result<Response, ContractError>,
) -> bool {
    let exists_ = pre.spec_has(token_id@);
    let auth = exists_ && spec_can_act(
        pre.rec(token_id@),
        pre.ops_of(pre.rec(token_id@).owner@),
        info.sender@,
        env.now,
    );
    match r {
        Ok(resp) => {
            &&& exists_
            &&& auth
            &&& env.recipient_valid
            &&& post.spec_has(token_id@)
            &&& post.rec(token_id@).id@ == token_id@
            &&& post.rec(token_id@).owner == recipient
            &&& post.rec(token_id@).expires == pre.rec(token_id@).expires
            &&& post.rec(token_id@).approvals@.len() == 0
            &&& no_profile(post.rec(token_id@))
            &&& names_unchanged_except(pre, post, token_id@)
            &&& ops_unchanged(pre, post)
            &&& post.state == pre.state
            &&& resp.messages@.len() == 0
        },
        Err(e) => {
            &&& post == pre
            &&& match e {
                ContractError::NotFound => !exists_,
                ContractError::Unauthorized => exists_ && !auth,
                ContractError::InvalidArgument => exists_ && auth && !env.recipient_valid,
                _ => false,
            }
        },
    }
}

/// Transfers the name to `recipient`: the common core of the plain transfer
/// and the send-to-contract command.
pub fn _try_transfer_nft(
    reg: &mut Registry,
    env: Env,
    info: MessageInfo,
    recipient: String,
    token_id: String,
) -> (r: Result<Response, ContractError>)
    requires
        old(reg).wf(),
    ensures
        final(reg).wf(),
        transfer_post(*old(reg), *final(reg), env, info, recipient, token_id, r),
{
    let idx = match reg.find_name(&token_id) {
        Some(i) => i,
        None => {
            return Err(ContractError::NotFound);
        },
    };
    let owner_key = reg.names[idx].owner.clone();
    let allowed = match reg.find_ops(&owner_key) {
        Some(oi) => check_can_send(&reg.operators[oi].grants, &info.sender, env.now, &reg.names[idx]),
        None => {
            let no_ops: Vec<Operator> = Vec::new();
            proof {
                assert(no_ops@ =~= old(reg).ops_of(old(reg).rec(token_id@).owner@));
            }
            check_can_send(&no_ops, &info.sender, env.now, &reg.names[idx])
        },
    };
    if allowed.is_err() {
        return Err(ContractError::Unauthorized);
    }
    if !env.recipient_valid {
        return Err(ContractError::InvalidArgument);
    }
    let new_owner_attr = recipient.clone();
    let data = Name {
        id: reg.names[idx].id.clone(),
        expires: reg.names[idx].expires,
        owner: recipient,
        approvals: Vec::new(),
        avatar_url: None,
        secret_address: None,
        crypto_org_address: None,
        starname_address: None,
        persistence_address: None,
        kava_address: None,
        terra_address: None,
        website: None,
        email: None,
        twitter: None,
        telegram: None,
        discord: None,
        instagram: None,
        reddit: None,
    };
    let ghost gdata = data;
    reg.names.set(idx, data);
    proof {
        Registry::lemma_names_update(*old(reg), *reg, idx as int, gdata);
    }
    Ok(Response {
        messages: Vec::new(),
        attributes: vec![
            Attribute { key: "method".to_string(), value: "try_transfer_nft".to_string() },
            Attribute { key: "name_transfered".to_string(), value: token_id },
            Attribute { key: "new_owner".to_string(), value: new_owner_attr },
        ],
    })
}

/// Transfers the name to a new holder, if the caller owns it or holds an
/// unexpired approval or blanket grant for it.
pub fn transfer_nft(
    reg: &mut Registry,
    env: Env,
    info: MessageInfo,
    recipient: String,
    token_id: String,
) -> (r: Result<Response, ContractError>)
    requires
        old(reg).wf(),
    ensures
        final(reg).wf(),
        transfer_post(*old(reg), *final(reg), env, info, recipient, token_id, r),
{
    let rec2 = recipient.clone();
    let tok2 = token_id.clone();
    match _try_transfer_nft(reg, env, info, rec2, tok2) {
        Ok(_inner) => {},
        Err(e) => {
            return Err(e);
        },
    }
    Ok(Response {
        messages: Vec::new(),
        attributes: vec![
            Attribute { key: "method".to_string(), value: "try_transfer_nft".to_string() },
            Attribute { key: "name_transfered".to_string(), value: token_id },
            Attribute { key: "new_owner".to_string(), value: recipient },
        ],
    })
}

/// What sending a name to a contract does: the opaque payload must decode on
/// the host's side before the transfer is attempted; the transfer itself
/// behaves exactly like a plain transfer with the contract as recipient.
pub open spec fn send_nft_post(
    pre: Registry,
    post: Registry,
    env: Env,
    info: MessageInfo,
    contract: String,
    token_id: String,
    r: Result<Response, ContractError>,
) -> bool {
    if !env.payload_decodable {
        &&& post == pre
        &&& r == Err::<Response, ContractError>(ContractError::InvalidArgument)
    } else {
        transfer_post(pre, post, env, info, contract, token_id, r)
    }
}

/// Transfers the name to a contract, after the host has checked that the
/// attached opaque payload is well-formed.
pub fn try_send_nft(
    reg: &mut Registry,
    env: Env,
    info: MessageInfo,
    contract: String,
    token_id: String,
    _msg: Vec<u8>,
) -> (r: Result<Response, ContractError>)
    requires
        old(reg).wf(),
    ensures
        final(reg).wf(),
        send_nft_post(*old(reg), *final(reg), env, info, contract, token_id, r),
{
    // the payload must decode before the transfer is attempted
    if !env.payload_decodable {
        return Err(ContractError::InvalidArgument);
    }
    let sender_attr = info.sender.clone();
    let rec2 = contract.clone();
    let tok2 = token_id.clone();
    match _try_transfer_nft(reg, env, info, rec2, tok2) {
        Ok(_inner) => {},
        Err(e) => {
            return Err(e);
        },
    }
    Ok(Response {
        messages: Vec::new(),
        attributes: vec![
            Attribute { key: "action".to_string(), value: "send_nft".to_string() },
            Attribute { key: "sender".to_string(), value: sender_attr },
            Attribute { key: "recipient".to_string(), value: contract },
            Attribute { key: "token_id".to_string(), value: token_id },
        ],
    })
}

/// The supplied expiration, or "never" where the command leaves it out.
pub open spec fn spec_expires_or_never(expires: Option<Expiration>) -> Expiration {
    match expires {
        Some(e) => e,
        None => Expiration::Never,
    }
}

/// The record keyed `token_id` after an approval change: the named delegate's
/// entries removed and — when granting — one fresh entry appended; owner,
/// expiry and profile untouched, and everything else in the registry too.
pub open spec fn approvals_updated(
    pre: Registry,
    post: Registry,
    spender: String,
    token_id: String,
    add: bool,
    exp: Expiration,
) -> bool {
    &&& post.spec_has(token_id@)
    &&& post.rec(token_id@).id@ == token_id@
    &&& post.rec(token_id@).owner == pre.rec(token_id@).owner
    &&& post.rec(token_id@).expires == pre.rec(token_id@).expires
    &&& same_profile(post.rec(token_id@), pre.rec(token_id@))
    &&& post.rec(token_id@).approvals@ == (if add {
        spec_remove_spender(pre.rec(token_id@).approvals@, spender@).push(
            (Approval { spender: spender, expires: exp }),
        )
    } else {
        spec_remove_spender(pre.rec(token_id@).approvals@, spender@)
    })
    &&& names_unchanged_except(pre, post, token_id@)
    &&& ops_unchanged(pre, post)
    &&& post.state == pre.state
}

/// Why an approval change is refused: no record under the name; a caller who
/// is not the owner; or, when granting, an expiration already in the past.
pub open spec fn approvals_err(
    pre: Registry,
    sender: Seq<char>,
    token_id: String,
    add: bool,
    exp: Expiration,
    now: u64,
    e: ContractError,
) -> bool {
    let exists_ = pre.spec_has(token_id@);
    match e {
        ContractError::NotFound => !exists_,
        ContractError::Unauthorized => exists_ && pre.rec(token_id@).owner@ != sender,
        ContractError::InvalidArgument => {
            &&& exists_
            &&& pre.rec(token_id@).owner@ == sender
            &&& add
            &&& exp.spec_is_expired(now)
        },
        _ => false,
    }
}

/// Re-derives a record's approval list: the named delegate's entries are
/// removed, and — when granting — a fresh entry is appended whose expiration
/// must lie strictly in the future.  Owner only.
pub fn _update_approvals(
    reg: &mut Registry,
    env: Env,
    sender: String,
    spender: String,
    token_id: String,
    add: bool,
    expires: Option<Expiration>,
) -> (r: Result<NameResponse, ContractError>)
    requires
        old(reg).wf(),
    ensures
        final(reg).wf(),
        match r {
            Ok(resp) => {
                &&& old(reg).spec_has(token_id@)
                &&& old(reg).rec(token_id@).owner@ == sender@
                &&& (add ==> !spec_expires_or_never(expires).spec_is_expired(env.now))
                &&& approvals_updated(
                    *old(reg),
                    *final(reg),
                    spender,
                    token_id,
                    add,
                    spec_expires_or_never(expires),
                )
                &&& resp.name.id@ == token_id@
                &&& resp.name.approvals@ == final(reg).rec(token_id@).approvals@
            },
            Err(e) => {
                &&& *final(reg) == *old(reg)
                &&& approvals_err(
                    *old(reg),
                    sender@,
                    token_id,
                    add,
                    spec_expires_or_never(expires),
                    env.now,
                    e,
                )
            },
        },
{
    let idx = match reg.find_name(&token_id) {
        Some(i) => i,
        None => {
            return Err(ContractError::NotFound);
        },
    };
    if !(reg.names[idx].owner == sender) {
        return Err(ContractError::Unauthorized);
    }
    // remove any entry for the same delegate before (possibly) re-inserting
    let mut new_aps = remove_spender(&reg.names[idx].approvals, &spender);
    proof {
        lemma_remove_spender(old(reg).names@[idx as int].approvals@, spender@);
        assert(distinct_spenders(old(reg).names@[idx as int].approvals@));
    }
    if add {
        let exp = match expires {
            Some(e) => e,
            None => Expiration::Never,
        };
        // reject expired data as invalid
        if exp.is_expired(env.now) {
            return Err(ContractError::InvalidArgument);
        }
        new_aps.push(Approval { spender, expires: exp });
        proof {
            let pre_aps = old(reg).names@[idx as int].approvals@;
            let filtered = spec_remove_spender(pre_aps, spender@);
            assert forall|a: int, b: int|
                0 <= a < b < new_aps@.len() implies new_aps@[a].spender@
                != new_aps@[b].spender@ by {
                if b < filtered.len() {
                } else {
                    assert(new_aps@[a] == filtered[a]);
                    assert(filtered[a].spender@ != spender@);
                }
            }
        }
    }
    let mut data = reg.names[idx].clone();
    data.approvals = new_aps;
    let ghost gdata = data;
    reg.names.set(idx, data);
    proof {
        Registry::lemma_names_update(*old(reg), *reg, idx as int, gdata);
    }
    let resp_name = reg.names[idx].clone();
    Ok(NameResponse { name: resp_name })
}

/// What granting a per-name approval does, seen from the command surface.
pub open spec fn approve_post(
    pre: Registry,
    post: Registry,
    env: Env,
    info: MessageInfo,
    spender: String,
    token_id: String,
    expires: Option<Expiration>,
    r: Result<Response, ContractError>,
) -> bool {
    let exp = spec_expires_or_never(expires);
    match r {
        Ok(resp) => {
            &&& pre.spec_has(token_id@)
            &&& pre.rec(token_id@).owner@ == info.sender@
            &&& !exp.spec_is_expired(env.now)
            &&& approvals_updated(pre, post, spender, token_id, true, exp)
            &&& resp.messages@.len() == 0
        },
        Err(e) => {
            &&& post == pre
            &&& approvals_err(pre, info.sender@, token_id, true, exp, env.now, e)
        },
    }
}

/// Grants `spender` transfer rights over one name until `expires`; owner
/// only, and the expiration must lie strictly in the future.
pub fn handle_approve(
    reg: &mut Registry,
    env: Env,
    info: MessageInfo,
    spender: String,
    token_id: String,
    expires: Option<Expiration>,
) -> (r: Result<Response, ContractError>)
    requires
        old(reg).wf(),
    ensures
        final(reg).wf(),
        approve_post(*old(reg), *final(reg), env, info, spender, token_id, expires, r),
{
    let sp2 = spender.clone();
    let tok2 = token_id.clone();
    let sender2 = info.sender.clone();
    match _update_approvals(reg, env, sender2, sp2, tok2, true, expires) {
        Ok(_n) => {},
        Err(e) => {
            return Err(e);
        },
    }
    Ok(Response {
        messages: Vec::new(),
        attributes: vec![
            Attribute { key: "action".to_string(), value: "approve".to_string() },
            Attribute { key: "sender".to_string(), value: info.sender },
            Attribute { key: "spender".to_string(), value: spender },
            Attribute { key: "token_id".to_string(), value: token_id },
        ],
    })
}

/// What revoking a per-name approval does, seen from the command surface.
/// Revoking a delegate who holds no approval is not an error.
pub open spec fn revoke_post(
    pre: Registry,
    post: Registry,
    info: MessageInfo,
    spender: String,
    token_id: String,
    r: Result<Response, ContractError>,
) -> bool {
    match r {
        Ok(resp) => {
            &&& pre.spec_has(token_id@)
            &&& pre.rec(token_id@).owner@ == info.sender@
            &&& approvals_updated(pre, post, spender, token_id, false, Expiration::Never)
            &&& resp.messages@.len() == 0
        },
        Err(e) => {
            &&& post == pre
            // a revocation grants nothing, so no expiration and no clock
            // value bear on its errors
            &&& approvals_err(pre, info.sender@, token_id, false, Expiration::Never, 0, e)
        },
    }
}

/// Removes any approval entry for `spender` on one name; owner only,
/// idempotent.
pub fn handle_revoke(
    reg: &mut Registry,
    env: Env,
    info: MessageInfo,
    spender: String,
    token_id: String,
) -> (r: Result<Response, ContractError>)
    requires
        old(reg).wf(),
    ensures
        final(reg).wf(),
        revoke_post(*old(reg), *final(reg), info, spender, token_id, r),
{
    let sp2 = spender.clone();
    let tok2 = token_id.clone();
    let sender2 = info.sender.clone();
    match _update_approvals(reg, env, sender2, sp2, tok2, false, None) {
        Ok(_n) => {},
        Err(e) => {
            return Err(e);
        },
    }
    Ok(Response {
        messages: Vec::new(),
        attributes: vec![
            Attribute { key: "action".to_string(), value: "revoke".to_string() },
            Attribute { key: "sender".to_string(), value: info.sender },
            Attribute { key: "spender".to_string(), value: spender },
            Attribute { key: "token_id".to_string(), value: token_id },
        ],
    })
}

/// What granting a blanket operator does: the expiration must lie strictly
/// in the future; the grant is appended to the caller's entry of the
/// operator directory, and nothing else changes.
pub open spec fn approve_all_post(
    pre: Registry,
    post: Registry,
    env: Env,
    info: MessageInfo,
    operator: String,
    expires: Option<Expiration>,
    r: Result<Response, ContractError>,
) -> bool {
    let exp = spec_expires_or_never(expires);
    match r {
        Ok(resp) => {
            &&& !exp.spec_is_expired(env.now)
            &&& post.ops_of(info.sender@) == pre.ops_of(info.sender@).push(
                (Operator { owner: operator, expires: exp }),
            )
            &&& forall|o: Seq<char>| o != info.sender@ ==> post.ops_of(o) == pre.ops_of(o)
            &&& names_unchanged(pre, post)
            &&& post.state == pre.state
            &&& resp.messages@.len() == 0
        },
        Err(e) => {
            &&& post == pre
            &&& e == ContractError::InvalidArgument
            &&& exp.spec_is_expired(env.now)
        },
    }
}

/// Grants `operator` transfer rights over all of the caller's names until
/// `expires`; the expiration must lie strictly in the future.
pub fn handle_approve_all(
    reg: &mut Registry,
    env: Env,
    info: MessageInfo,
    operator: String,
    expires: Option<Expiration>,
) -> (r: Result<Response, ContractError>)
    requires
        old(reg).wf(),
    ensures
        final(reg).wf(),
        approve_all_post(*old(reg), *final(reg), env, info, operator, expires, r),
{
    let exp = match expires {
        Some(e) => e,
        None => Expiration::Never,
    };
    if exp.is_expired(env.now) {
        return Err(ContractError::InvalidArgument);
    }
    let op_attr = operator.clone();
    let op = Operator { owner: operator, expires: exp };
    let ghost gop = op;
    match reg.find_ops(&info.sender) {
        Some(i) => {
            let mut grants = clone_operators(&reg.operators[i].grants);
            grants.push(op);
            let entry = OperatorEntry { grantor: reg.operators[i].grantor.clone(), grants };
            let ghost ge = entry;
            reg.operators.set(i, entry);
            proof {
                Registry::lemma_ops_update(*old(reg), *reg, i as int, ge);
            }
        },
        None => {
            let grantor = info.sender.clone();
            let mut grants: Vec<Operator> = Vec::new();
            grants.push(op);
            let entry = OperatorEntry { grantor, grants };
            let ghost ge = entry;
            reg.operators.push(entry);
            proof {
                Registry::lemma_ops_push(*old(reg), *reg, ge);
                assert(old(reg).ops_of(info.sender@).push(gop) =~= ge.grants@);
            }
        },
    }
    Ok(Response {
        messages: Vec::new(),
        attributes: vec![
            Attribute { key: "action".to_string(), value: "approve_all".to_string() },
            Attribute { key: "sender".to_string(), value: info.sender },
            Attribute { key: "operator".to_string(), value: op_attr },
        ],
    })
}

/// What revoking blanket operators does: every grant stored under the caller
/// is cleared, whichever delegate the request named; nothing else changes,
/// and the command never fails.
pub open spec fn revoke_all_post(
    pre: Registry,
    post: Registry,
    info: MessageInfo,
    r: Result<Response, ContractError>,
) -> bool {
    match r {
        Ok(resp) => {
            &&& post.ops_of(info.sender@) == Seq::<Operator>::empty()
            &&& forall|o: Seq<char>| o != info.sender@ ==> post.ops_of(o) == pre.ops_of(o)
            &&& names_unchanged(pre, post)
            &&& post.state == pre.state
            &&& resp.messages@.len() == 0
        },
        Err(_) => false,
    }
}

/// Clears every blanket grant stored under the caller.  The named delegate
/// is recorded but not consulted: revocation is wholesale.
pub fn handle_revoke_all(
    reg: &mut Registry,
    _env: Env,
    info: MessageInfo,
    operator: String,
) -> (r: Result<Response, ContractError>)
    requires
        old(reg).wf(),
    ensures
        final(reg).wf(),
        revoke_all_post(*old(reg), *final(reg), info, r),
{
    match reg.find_ops(&info.sender) {
        Some(i) => {
            let entry = OperatorEntry {
                grantor: reg.operators[i].grantor.clone(),
                grants: Vec::new(),
            };
            let ghost ge = entry;
            reg.operators.set(i, entry);
            proof {
                Registry::lemma_ops_update(*old(reg), *reg, i as int, ge);
                assert(ge.grants@ =~= Seq::<Operator>::empty());
            }
        },
        None => {},
    }
    Ok(Response {
        messages: Vec::new(),
        attributes: vec![
            Attribute { key: "action".to_string(), value: "approve_all".to_string() },
            Attribute { key: "sender".to_string(), value: info.sender },
            Attribute { key: "operator".to_string(), value: operator },
        ],
    })
}

/// What withdrawing the collected fees does: refused unless the caller is
/// the admin; on success the state is untouched and the host is instructed
/// to send the contract's entire held balance to the caller.
pub open spec fn withdraw_post(
    pre: Registry,
    post: Registry,
    info: MessageInfo,
    r: Result<Response, ContractError>,
) -> bool {
    let admin = pre.state.owner@ == info.sender@;
    &&& post == pre
    &&& match r {
        Ok(resp) => {
            &&& admin
            &&& resp.messages@.len() == 1
            &&& resp.messages@[0].to_address@ == info.sender@
        },
        Err(e) => {
            &&& e == ContractError::Unauthorized
            &&& !admin
        },
    }
}

/// Instructs the host to send the contract's whole held balance to the
/// caller; admin only.  The balance itself is host state the core never
/// sees, so the result only names the recipient.
pub fn handle_withdraw_balance(reg: &mut Registry, _env: Env, info: MessageInfo) -> (r: Result<
    Response,
    ContractError,
>)
    requires
        old(reg).wf(),
    ensures
        final(reg).wf(),
        withdraw_post(*old(reg), *final(reg), info, r),
{
    if !(info.sender == reg.state.owner) {
        return Err(ContractError::Unauthorized);
    }
    let payed_to = info.sender.clone();
    Ok(Response {
        messages: vec![BankSend { to_address: info.sender }],
        attributes: vec![
            Attribute { key: "action".to_string(), value: "withdraw".to_string() },
            Attribute { key: "payed_to".to_string(), value: payed_to },
        ],
    })
}

/// What dispatching one command does: exactly what the named handler does.
pub open spec fn execute_post(
    pre: Registry,
    post: Registry,
    env: Env,
    info: MessageInfo,
    msg: ExecuteMsg,
    r: Result<Response, ContractError>,
) -> bool {
    match msg {
        ExecuteMsg::SetBlocksPerYear { blocks_per_year } => set_blocks_per_year_post(
            pre,
            post,
            info,
            blocks_per_year,
            r,
        ),
        ExecuteMsg::SetOwner { owner } => set_owner_post(pre, post, info, owner, r),
        ExecuteMsg::RegisterName {
            name,
            years,
            avatar_url,
            secret_address,
            crypto_org_address,
            starname_address,
            persistence_address,
            kava_address,
            terra_address,
            website,
            email,
            twitter,
            telegram,
            discord,
            instagram,
            reddit,
        } => register_post(
            pre,
            post,
            env,
            info,
            name,
            years,
            avatar_url,
            terra_address,
            secret_address,
            crypto_org_address,
            starname_address,
            persistence_address,
            kava_address,
            website,
            email,
            twitter,
            telegram,
            discord,
            instagram,
            reddit,
            r,
        ),
        ExecuteMsg::AddTime { name, years } => add_time_post(pre, post, info, name, years, r),
        ExecuteMsg::UpdateParams {
            name,
            avatar_url,
            secret_address,
            crypto_org_address,
            starname_address,
            persistence_address,
            kava_address,
            terra_address,
            website,
            email,
            twitter,
            telegram,
            discord,
            instagram,
            reddit,
        } => update_params_post(
            pre,
            post,
            env,
            info,
            name,
            avatar_url,
            terra_address,
            secret_address,
            crypto_org_address,
            starname_address,
            persistence_address,
            kava_address,
            website,
            email,
            twitter,
            telegram,
            discord,
            instagram,
            reddit,
            r,
        ),
        ExecuteMsg::TransferNft { recipient, token_id } => transfer_post(
            pre,
            post,
            env,
            info,
            recipient,
            token_id,
            r,
        ),
        ExecuteMsg::SendNft { contract, token_id, message: _ } => send_nft_post(
            pre,
            post,
            env,
            info,
            contract,
            token_id,
            r,
        ),
        ExecuteMsg::Approve { spender, token_id, expires } => approve_post(
            pre,
            post,
            env,
            info,
            spender,
            token_id,
            expires,
            r,
        ),
        ExecuteMsg::Revoke { spender, token_id } => revoke_post(
            pre,
            post,
            info,
            spender,
            token_id,
            r,
        ),
        ExecuteMsg::ApproveAll { operator, expires } => approve_all_post(
            pre,
            post,
            env,
            info,
            operator,
            expires,
            r,
        ),
        ExecuteMsg::RevokeAll { operator: _ } => revoke_all_post(pre, post, info, r),
        ExecuteMsg::WithdrawBalance {  } => withdraw_post(pre, post, info, r),
    }
}

/// Dispatches one command to its handler.
pub fn execute(reg: &mut Registry, env: Env, info: MessageInfo, msg: ExecuteMsg) -> (r: Result<
    Response,
    ContractError,
>)
    requires
        old(reg).wf(),
    ensures
        final(reg).wf(),
        execute_post(*old(reg), *final(reg), env, info, msg, r),
{
    match msg {
        ExecuteMsg::SetBlocksPerYear { blocks_per_year } => try_set_blocks_per_year(
            reg,
            info,
            blocks_per_year,
        ),
        ExecuteMsg::SetOwner { owner } => try_set_owner(reg, info, owner),
        ExecuteMsg::RegisterName {
            name,
            years,
            avatar_url,
            secret_address,
            crypto_org_address,
            starname_address,
            persistence_address,
            kava_address,
            terra_address,
            website,
            email,
            twitter,
            telegram,
            discord,
            instagram,
            reddit,
        } => try_register_name(
            reg,
            env,
            info,
            name,
            years,
            avatar_url,
            terra_address,
            secret_address,
            crypto_org_address,
            starname_address,
            persistence_address,
            kava_address,
            website,
            email,
            twitter,
            telegram,
            discord,
            instagram,
            reddit,
        ),
        ExecuteMsg::AddTime { name, years } => try_add_time(reg, env, info, name, years),
        ExecuteMsg::UpdateParams {
            name,
            avatar_url,
            secret_address,
            crypto_org_address,
            starname_address,
            persistence_address,
            kava_address,
            terra_address,
            website,
            email,
            twitter,
            telegram,
            discord,
            instagram,
            reddit,
        } => try_update_name(
            reg,
            env,
            info,
            name,
            avatar_url,
            terra_address,
            secret_address,
            crypto_org_address,
            starname_address,
            persistence_address,
            kava_address,
            website,
            email,
            twitter,
            telegram,
            discord,
            instagram,
            reddit,
        ),
        ExecuteMsg::TransferNft { recipient, token_id } => transfer_nft(
            reg,
            env,
            info,
            recipient,
            token_id,
        ),
        ExecuteMsg::SendNft { contract, token_id, message } => try_send_nft(
            reg,
            env,
            info,
            contract,
            token_id,
            message,
        ),
        ExecuteMsg::Approve { spender, token_id, expires } => handle_approve(
            reg,
            env,
            info,
            spender,
            token_id,
            expires,
        ),
        ExecuteMsg::Revoke { spender, token_id } => handle_revoke(
            reg,
            env,
            info,
            spender,
            token_id,
        ),
        ExecuteMsg::ApproveAll { operator, expires } => handle_approve_all(
            reg,
            env,
            info,
            operator,
            expires,
        ),
        ExecuteMsg::RevokeAll { operator } => handle_revoke_all(reg, env, info, operator),
        ExecuteMsg::WithdrawBalance {  } => handle_withdraw_balance(reg, env, info),
    }
}

/// The display record a name resolves to while its lease is valid.
fn query_nft_info(reg: &Registry, env: Env, token_id: String) -> (r: Result<
    NftInfoResponse,
    ContractError,
>)
    requires
        reg.wf(),
    ensures
        match r {
            Ok(n) => {
                &&& reg.spec_visible(token_id@, env.now)
                &&& n.name@ == token_id@ + ".rns"@
                &&& n.description@ == "An IBC Name Resolver living on the JUNO network."@
                &&& n.image@ == reg.state.meta_url@ + "/"@ + token_id@
            },
            Err(e) => {
                &&& e == ContractError::NotFound
                &&& !reg.spec_visible(token_id@, env.now)
            },
        },
{
    let idx = match reg.find_name(&token_id) {
        Some(i) => i,
        None => {
            return Err(ContractError::NotFound);
        },
    };
    if reg.names[idx].expires <= env.now {
        return Err(ContractError::NotFound);
    }
    let image = reg.state.meta_url.clone().concat("/").concat(token_id.as_str());
    Ok(NftInfoResponse {
        name: token_id.concat(".rns"),
        description: "An IBC Name Resolver living on the JUNO network.".to_string(),
        image,
    })
}

/// The registry's display identity: fixed by the deployment.
fn query_contract_info() -> (r: ContractInfoResponse)
    ensures
        r.name@ == "JACKAL Name Service"@,
        r.symbol@ == "RNS"@,
{
    ContractInfoResponse {
        name: "JACKAL Name Service".to_string(),
        symbol: "RNS".to_string(),
    }
}

/// The token count this interface reports, pinned at zero.
fn query_num_tokens() -> (r: NumTokensResponse)
    ensures
        r.tokens == 0,
{
    NumTokensResponse { tokens: 0 }
}

/// Every blanket grant stored under `owner`, expired ones included.
fn query_all_approvals(reg: &Registry, owner: String) -> (r: ApprovedForAllResponse)
    requires
        reg.wf(),
    ensures
        r.operators@ == reg.ops_of(owner@),
{
    match reg.find_ops(&owner) {
        Some(i) => ApprovedForAllResponse { operators: clone_operators(&reg.operators[i].grants) },
        None => {
            let none: Vec<Operator> = Vec::new();
            proof {
                assert(none@ =~= reg.ops_of(owner@));
            }
            ApprovedForAllResponse { operators: none }
        },
    }
}

/// The configured lease-duration constant.
fn query_blocks_per_year(reg: &Registry) -> (r: BlocksResponse)
    ensures
        r.blocks_per_year == reg.state.blocks_per_year,
{
    BlocksResponse { blocks_per_year: reg.state.blocks_per_year }
}

/// The admin of the registry.
fn query_owner(reg: &Registry) -> (r: OwnerResponse)
    ensures
        r.owner == reg.state.owner,
{
    OwnerResponse { owner: reg.state.owner.clone() }
}

/// The full record of a name while its lease is valid; an expired or absent
/// name reports not-found.
fn query_name_attributes(reg: &Registry, env: Env, name: String) -> (r: Result<
    NameResponse,
    ContractError,
>)
    requires
        reg.wf(),
    ensures
        match r {
            Ok(nr) => {
                &&& reg.spec_visible(name@, env.now)
                &&& nr.name.id == reg.rec(name@).id
                &&& nr.name.expires == reg.rec(name@).expires
                &&& nr.name.owner == reg.rec(name@).owner
                &&& nr.name.approvals@ == reg.rec(name@).approvals@
                &&& same_profile(nr.name, reg.rec(name@))
            },
            Err(e) => {
                &&& e == ContractError::NotFound
                &&& !reg.spec_visible(name@, env.now)
            },
        },
{
    let idx = match reg.find_name(&name) {
        Some(i) => i,
        None => {
            return Err(ContractError::NotFound);
        },
    };
    if reg.names[idx].expires <= env.now {
        return Err(ContractError::NotFound);
    }
    Ok(NameResponse { name: reg.names[idx].clone() })
}

/// The owner a name resolves to while its lease is valid; an expired or
/// absent name reports not-found.
fn query_name_owner(reg: &Registry, env: Env, name: String) -> (r: Result<
    OwnerResponse,
    ContractError,
>)
    requires
        reg.wf(),
    ensures
        match r {
            Ok(o) => {
                &&& reg.spec_visible(name@, env.now)
                &&& o.owner == reg.rec(name@).owner
            },
            Err(e) => {
                &&& e == ContractError::NotFound
                &&& !reg.spec_visible(name@, env.now)
            },
        },
{
    let idx = match reg.find_name(&name) {
        Some(i) => i,
        None => {
            return Err(ContractError::NotFound);
        },
    };
    if reg.names[idx].expires <= env.now {
        return Err(ContractError::NotFound);
    }
    Ok(OwnerResponse { owner: reg.names[idx].owner.clone() })
}

/// What each read-only query answers.  Every name-scoped query treats a
/// record whose expiry has passed exactly as a missing one.
pub open spec fn query_post(
    reg: Registry,
    env: Env,
    msg: QueryMsg,
    r: Result<QueryAnswer, ContractError>,
) -> bool {
    match msg {
        QueryMsg::GetBlocksPerYear {  } => r == Ok::<QueryAnswer, ContractError>(
            QueryAnswer::Blocks((BlocksResponse { blocks_per_year: reg.state.blocks_per_year })),
        ),
        QueryMsg::GetOwner {  } => match r {
            Ok(QueryAnswer::Owner(o)) => o.owner == reg.state.owner,
            _ => false,
        },
        QueryMsg::ResolveName { name } => match r {
            Ok(QueryAnswer::Owner(o)) => reg.spec_visible(name@, env.now) && o.owner == reg.rec(
                name@,
            ).owner,
            Err(e) => e == ContractError::NotFound && !reg.spec_visible(name@, env.now),
            _ => false,
        },
        QueryMsg::OwnerOf { token_id } => match r {
            Ok(QueryAnswer::Owner(o)) => reg.spec_visible(token_id@, env.now) && o.owner
                == reg.rec(token_id@).owner,
            Err(e) => e == ContractError::NotFound && !reg.spec_visible(token_id@, env.now),
            _ => false,
        },
        QueryMsg::ResolveAttributes { name } => match r {
            Ok(QueryAnswer::Name(nr)) => {
                &&& reg.spec_visible(name@, env.now)
                &&& nr.name.id == reg.rec(name@).id
                &&& nr.name.expires == reg.rec(name@).expires
                &&& nr.name.owner == reg.rec(name@).owner
                &&& nr.name.approvals@ == reg.rec(name@).approvals@
                &&& same_profile(nr.name, reg.rec(name@))
            },
            Err(e) => e == ContractError::NotFound && !reg.spec_visible(name@, env.now),
            _ => false,
        },
        QueryMsg::ApprovedForAll { owner, start_after: _, limit: _ } => match r {
            Ok(QueryAnswer::ApprovedForAll(a)) => a.operators@ == reg.ops_of(owner@),
            _ => false,
        },
        QueryMsg::NumTokens {  } => match r {
            Ok(QueryAnswer::NumTokens(n)) => n.tokens == 0,
            _ => false,
        },
        QueryMsg::ContractInfo {  } => match r {
            Ok(QueryAnswer::ContractInfo(c)) => c.name@ == "JACKAL Name Service"@ && c.symbol@
                == "RNS"@,
            _ => false,
        },
        QueryMsg::NftInfo { token_id } => match r {
            Ok(QueryAnswer::NftInfo(n)) => {
                &&& reg.spec_visible(token_id@, env.now)
                &&& n.name@ == token_id@ + ".rns"@
                &&& n.description@ == "An IBC Name Resolver living on the JUNO network."@
                &&& n.image@ == reg.state.meta_url@ + "/"@ + token_id@
            },
            Err(e) => e == ContractError::NotFound && !reg.spec_visible(token_id@, env.now),
            _ => false,
        },
    }
}

/// Dispatches one read-only query; never mutates state.
pub fn query(reg: &Registry, env: Env, msg: QueryMsg) -> (r: Result<QueryAnswer, ContractError>)
    requires
        reg.wf(),
    ensures
        query_post(*reg, env, msg, r),
{
    match msg {
        QueryMsg::GetBlocksPerYear {  } => Ok(QueryAnswer::Blocks(query_blocks_per_year(reg))),
        QueryMsg::GetOwner {  } => Ok(QueryAnswer::Owner(query_owner(reg))),
        QueryMsg::ResolveName { name } => match query_name_owner(reg, env, name) {
            Ok(o) => Ok(QueryAnswer::Owner(o)),
            Err(e) => Err(e),
        },
        QueryMsg::ResolveAttributes { name } => match query_name_attributes(reg, env, name) {
            Ok(n) => Ok(QueryAnswer::Name(n)),
            Err(e) => Err(e),
        },
        QueryMsg::OwnerOf { token_id } => match query_name_owner(reg, env, token_id) {
            Ok(o) => Ok(QueryAnswer::Owner(o)),
            Err(e) => Err(e),
        },
        QueryMsg::ApprovedForAll { owner, start_after: _, limit: _ } => Ok(
            QueryAnswer::ApprovedForAll(query_all_approvals(reg, owner)),
        ),
        QueryMsg::NumTokens {  } => Ok(QueryAnswer::NumTokens(query_num_tokens())),
        QueryMsg::ContractInfo {  } => Ok(QueryAnswer::ContractInfo(query_contract_info())),
        QueryMsg::NftInfo { token_id } => match query_nft_info(reg, env, token_id) {
            Ok(n) => Ok(QueryAnswer::NftInfo(n)),
            Err(e) => Err(e),
        },
    }
}

} // verus!
