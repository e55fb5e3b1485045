use ibc_name_service::contract::{execute, instantiate, query};
use ibc_name_service::error::ContractError;
use ibc_name_service::msg::{ExecuteMsg, QueryAnswer, QueryMsg};
use ibc_name_service::pricing::quote;
use ibc_name_service::state::{Coin, Env, Expiration, MessageInfo, State};
use ibc_name_service::msg::InstantiateMsg;

const NOW: u64 = 1571797419879305533;

fn env_at(now: u64) -> Env {
    Env { now, recipient_valid: true, payload_decodable: true }
}

fn info(sender: &str, amount: u128, denom: &str) -> MessageInfo {
    MessageInfo {
        sender: sender.to_string(),
        funds: vec![Coin { denom: denom.to_string(), amount }],
    }
}

fn init_msg(blocks_per_year: u64) -> InstantiateMsg {
    InstantiateMsg {
        blocks_per_year,
        meta_url: "example.com".to_string(),
        denom: "ujuno".to_string(),
        cost_for_6: Some(1),
        cost_for_5: Some(2),
        cost_for_4: Some(4),
        cost_for_3: Some(8),
        cost_for_2: Some(16),
        cost_for_1: Some(32),
    }
}

fn reg_msg(name: &str, years: u64) -> ExecuteMsg {
    ExecuteMsg::RegisterName {
        name: name.to_string(),
        years,
        avatar_url: None,
        secret_address: None,
        crypto_org_address: None,
        starname_address: None,
        persistence_address: None,
        kava_address: None,
        terra_address: None,
        website: None,
        email: None,
        twitter: None,
        telegram: None,
        discord: None,
        instagram: None,
        reddit: None,
    }
}

fn schedule() -> State {
    State {
        blocks_per_year: 1000,
        owner: "creator".to_string(),
        meta_url: "example.com".to_string(),
        denom: "ujuno".to_string(),
        cost_for_6: 1,
        cost_for_5: 2,
        cost_for_4: 4,
        cost_for_3: 8,
        cost_for_2: 16,
        cost_for_1: 32,
    }
}

#[test]
fn price_schedule_scenario() {
    // price schedule {1:32, 2:16, 3:8, 4:4, 5:2, 6+:1} per unit; "ab" for two
    // units costs 16 * 2 = 32, and a payment of exactly 32 registers it
    let (mut reg, _res) = instantiate(info("creator", 0, "ujuno"), init_msg(1000));

    let res = execute(&mut reg, env_at(NOW), info("annie", 32, "ujuno"), reg_msg("ab", 2));
    assert!(res.is_ok());

    // a second registration by a different caller before expiry fails
    let res = execute(&mut reg, env_at(NOW), info("bobby", 32, "ujuno"), reg_msg("ab", 2));
    assert_eq!(res.unwrap_err(), ContractError::AlreadyExists);

    // after expiry, it succeeds
    let after = NOW + 2 * 1000;
    let res = execute(&mut reg, env_at(after), info("bobby", 32, "ujuno"), reg_msg("ab", 2));
    assert!(res.is_ok());
}

#[test]
fn quote_per_tier() {
    let state = schedule();
    assert_eq!(quote(&state, &"a".to_string(), 1), 32);
    assert_eq!(quote(&state, &"ab".to_string(), 1), 16);
    assert_eq!(quote(&state, &"abc".to_string(), 1), 8);
    assert_eq!(quote(&state, &"abcd".to_string(), 1), 4);
    assert_eq!(quote(&state, &"abcde".to_string(), 1), 2);
    assert_eq!(quote(&state, &"abcdef".to_string(), 1), 1);
    assert_eq!(quote(&state, &"abcdefgh".to_string(), 1), 1);
    // the tariff counts characters, not bytes
    assert_eq!(quote(&state, &"日本".to_string(), 1), 16);
    // strictly monotone in the duration, antitone in the length
    assert!(quote(&state, &"abc".to_string(), 2) < quote(&state, &"abc".to_string(), 3));
    assert!(quote(&state, &"a".to_string(), 7) >= quote(&state, &"ab".to_string(), 7));
    assert_eq!(quote(&state, &"ab".to_string(), 0), 0);
}

#[test]
fn insufficient_payment_is_refused() {
    let (mut reg, _res) = instantiate(info("creator", 0, "ujuno"), init_msg(1000));
    let res = execute(&mut reg, env_at(NOW), info("annie", 31, "ujuno"), reg_msg("ab", 2));
    assert_eq!(res.unwrap_err(), ContractError::InsufficientPayment);

    // the wrong denomination does not pay either
    let res = execute(&mut reg, env_at(NOW), info("annie", 32, "earth"), reg_msg("ab", 2));
    assert_eq!(res.unwrap_err(), ContractError::InsufficientPayment);
}

#[test]
fn first_coin_of_the_denom_decides() {
    let (mut reg, _res) = instantiate(info("creator", 0, "ujuno"), init_msg(1000));
    // two coins of the fee denom: the first one is consulted and is short
    let funds = vec![
        Coin { denom: "ujuno".to_string(), amount: 10 },
        Coin { denom: "ujuno".to_string(), amount: 100 },
    ];
    let payer = MessageInfo { sender: "annie".to_string(), funds };
    let res = execute(&mut reg, env_at(NOW), payer, reg_msg("ab", 2));
    assert_eq!(res.unwrap_err(), ContractError::InsufficientPayment);

    // a foreign coin ahead of a sufficient fee coin does not get in the way
    let funds = vec![
        Coin { denom: "earth".to_string(), amount: 5 },
        Coin { denom: "ujuno".to_string(), amount: 100 },
    ];
    let payer = MessageInfo { sender: "annie".to_string(), funds };
    let res = execute(&mut reg, env_at(NOW), payer, reg_msg("ab", 2));
    assert!(res.is_ok());
}

#[test]
fn renewal_is_additive() {
    let (mut reg, _res) = instantiate(info("creator", 0, "ujuno"), init_msg(1000));
    execute(&mut reg, env_at(NOW), info("annie", 32, "ujuno"), reg_msg("ab", 2)).unwrap();

    let msg = ExecuteMsg::AddTime { name: "ab".to_string(), years: 3 };
    execute(&mut reg, env_at(NOW), info("annie", 48, "ujuno"), msg).unwrap();

    let res = query(&reg, env_at(NOW), QueryMsg::ResolveAttributes { name: "ab".to_string() })
        .unwrap();
    let name = match res {
        QueryAnswer::Name(n) => n.name,
        _ => panic!("wrong answer kind"),
    };
    assert_eq!(name.expires, NOW + 2 * 1000 + 3 * 1000);
    assert_eq!(name.owner, "annie".to_string());
}

#[test]
fn renewal_errors() {
    let (mut reg, _res) = instantiate(info("creator", 0, "ujuno"), init_msg(1000));
    let msg = ExecuteMsg::AddTime { name: "ab".to_string(), years: 1 };
    let res = execute(&mut reg, env_at(NOW), info("annie", 16, "ujuno"), msg);
    assert_eq!(res.unwrap_err(), ContractError::NotFound);

    execute(&mut reg, env_at(NOW), info("annie", 32, "ujuno"), reg_msg("ab", 2)).unwrap();
    let msg = ExecuteMsg::AddTime { name: "ab".to_string(), years: 1 };
    let res = execute(&mut reg, env_at(NOW), info("bobby", 16, "ujuno"), msg);
    assert_eq!(res.unwrap_err(), ContractError::Unauthorized);
}

#[test]
fn overlong_duration_is_refused() {
    let (mut reg, _res) = instantiate(info("creator", 0, "ujuno"), init_msg(1000));
    let res = execute(
        &mut reg,
        env_at(NOW),
        info("annie", u128::MAX, "ujuno"),
        reg_msg("abcdefgh", u64::MAX),
    );
    assert_eq!(res.unwrap_err(), ContractError::InvalidArgument);
}

#[test]
fn expired_name_is_invisible_and_free() {
    let (mut reg, _res) = instantiate(info("creator", 0, "ujuno"), init_msg(1000));
    execute(&mut reg, env_at(NOW), info("annie", 32, "ujuno"), reg_msg("ab", 2)).unwrap();

    let gone = NOW + 2 * 1000;
    let res = query(&reg, env_at(gone), QueryMsg::ResolveName { name: "ab".to_string() });
    assert_eq!(res.unwrap_err(), ContractError::NotFound);
    let res = query(&reg, env_at(gone), QueryMsg::ResolveAttributes { name: "ab".to_string() });
    assert_eq!(res.unwrap_err(), ContractError::NotFound);
    let res = query(&reg, env_at(gone), QueryMsg::NftInfo { token_id: "ab".to_string() });
    assert_eq!(res.unwrap_err(), ContractError::NotFound);
    let res = query(&reg, env_at(gone), QueryMsg::OwnerOf { token_id: "ab".to_string() });
    assert_eq!(res.unwrap_err(), ContractError::NotFound);

    // one clock tick earlier everything still resolves
    let res = query(&reg, env_at(gone - 1), QueryMsg::ResolveName { name: "ab".to_string() });
    assert!(res.is_ok());

    // and a different caller can register the lapsed name afresh
    let res = execute(&mut reg, env_at(gone), info("bobby", 32, "ujuno"), reg_msg("ab", 2));
    assert!(res.is_ok());
}

#[test]
fn transfer_clears_delegation_and_profile() {
    let (mut reg, _res) = instantiate(info("creator", 0, "ujuno"), init_msg(1000));
    let msg = ExecuteMsg::RegisterName {
        name: "melt".to_string(),
        years: 2,
        avatar_url: Some("http://avatar".to_string()),
        secret_address: None,
        crypto_org_address: None,
        starname_address: None,
        persistence_address: None,
        kava_address: None,
        terra_address: None,
        website: Some("http://site".to_string()),
        email: None,
        twitter: None,
        telegram: None,
        discord: None,
        instagram: None,
        reddit: None,
    };
    execute(&mut reg, env_at(NOW), info("annie", 8, "ujuno"), msg).unwrap();

    let approve = ExecuteMsg::Approve {
        spender: "bobby".to_string(),
        token_id: "melt".to_string(),
        expires: None,
    };
    execute(&mut reg, env_at(NOW), info("annie", 0, "ujuno"), approve).unwrap();

    // the approved delegate transfers the name away
    let transfer = ExecuteMsg::TransferNft {
        recipient: "carl".to_string(),
        token_id: "melt".to_string(),
    };
    execute(&mut reg, env_at(NOW), info("bobby", 0, "ujuno"), transfer).unwrap();

    // the record now belongs to the recipient, with no approvals and no profile
    let res = query(&reg, env_at(NOW), QueryMsg::ResolveAttributes { name: "melt".to_string() })
        .unwrap();
    let name = match res {
        QueryAnswer::Name(n) => n.name,
        _ => panic!("wrong answer kind"),
    };
    assert_eq!(name.owner, "carl".to_string());
    assert!(name.approvals.is_empty());
    assert_eq!(name.avatar_url, None);
    assert_eq!(name.website, None);

    // neither the prior owner nor the prior delegate can transfer it on
    let back = ExecuteMsg::TransferNft {
        recipient: "annie".to_string(),
        token_id: "melt".to_string(),
    };
    let res = execute(&mut reg, env_at(NOW), info("annie", 0, "ujuno"), back.clone());
    assert_eq!(res.unwrap_err(), ContractError::Unauthorized);
    let res = execute(&mut reg, env_at(NOW), info("bobby", 0, "ujuno"), back);
    assert_eq!(res.unwrap_err(), ContractError::Unauthorized);

    // the new owner can
    let onward = ExecuteMsg::TransferNft {
        recipient: "dora".to_string(),
        token_id: "melt".to_string(),
    };
    let res = execute(&mut reg, env_at(NOW), info("carl", 0, "ujuno"), onward);
    assert!(res.is_ok());
}

#[test]
fn operator_grant_spans_all_names_until_revoked() {
    let (mut reg, _res) = instantiate(info("creator", 0, "ujuno"), init_msg(1000));
    execute(&mut reg, env_at(NOW), info("annie", 32, "ujuno"), reg_msg("ab", 2)).unwrap();
    execute(&mut reg, env_at(NOW), info("annie", 16, "ujuno"), reg_msg("abc", 2)).unwrap();

    // a blanket grant, with no per-name approval, lets the operator move any
    // of the owner's names
    let grant = ExecuteMsg::ApproveAll { operator: "xena".to_string(), expires: None };
    execute(&mut reg, env_at(NOW), info("annie", 0, "ujuno"), grant).unwrap();

    let transfer = ExecuteMsg::TransferNft {
        recipient: "carl".to_string(),
        token_id: "ab".to_string(),
    };
    let res = execute(&mut reg, env_at(NOW), info("xena", 0, "ujuno"), transfer);
    assert!(res.is_ok());

    // revoking all grants removes the capability for the rest of them at once
    let revoke = ExecuteMsg::RevokeAll { operator: "xena".to_string() };
    execute(&mut reg, env_at(NOW), info("annie", 0, "ujuno"), revoke).unwrap();

    let transfer = ExecuteMsg::TransferNft {
        recipient: "carl".to_string(),
        token_id: "abc".to_string(),
    };
    let res = execute(&mut reg, env_at(NOW), info("xena", 0, "ujuno"), transfer);
    assert_eq!(res.unwrap_err(), ContractError::Unauthorized);
}

#[test]
fn approvals_expire_on_the_clock() {
    let (mut reg, _res) = instantiate(info("creator", 0, "ujuno"), init_msg(1000));
    execute(&mut reg, env_at(NOW), info("annie", 32, "ujuno"), reg_msg("ab", 2)).unwrap();

    let approve = ExecuteMsg::Approve {
        spender: "bobby".to_string(),
        token_id: "ab".to_string(),
        expires: Some(Expiration::AtTime(NOW + 10)),
    };
    execute(&mut reg, env_at(NOW), info("annie", 0, "ujuno"), approve).unwrap();

    // at the deadline the approval no longer authorizes
    let transfer = ExecuteMsg::TransferNft {
        recipient: "carl".to_string(),
        token_id: "ab".to_string(),
    };
    let res = execute(&mut reg, env_at(NOW + 10), info("bobby", 0, "ujuno"), transfer.clone());
    assert_eq!(res.unwrap_err(), ContractError::Unauthorized);

    // strictly before it, it does
    let res = execute(&mut reg, env_at(NOW + 9), info("bobby", 0, "ujuno"), transfer);
    assert!(res.is_ok());
}

#[test]
fn stale_grants_are_refused_outright() {
    let (mut reg, _res) = instantiate(info("creator", 0, "ujuno"), init_msg(1000));
    execute(&mut reg, env_at(NOW), info("annie", 32, "ujuno"), reg_msg("ab", 2)).unwrap();

    // an approval whose expiration is already past cannot be set
    let approve = ExecuteMsg::Approve {
        spender: "bobby".to_string(),
        token_id: "ab".to_string(),
        expires: Some(Expiration::AtTime(NOW)),
    };
    let res = execute(&mut reg, env_at(NOW), info("annie", 0, "ujuno"), approve);
    assert_eq!(res.unwrap_err(), ContractError::InvalidArgument);

    // the same holds for a blanket grant
    let grant = ExecuteMsg::ApproveAll {
        operator: "xena".to_string(),
        expires: Some(Expiration::AtTime(NOW)),
    };
    let res = execute(&mut reg, env_at(NOW), info("annie", 0, "ujuno"), grant);
    assert_eq!(res.unwrap_err(), ContractError::InvalidArgument);
}

#[test]
fn revoke_is_idempotent_and_owner_only() {
    let (mut reg, _res) = instantiate(info("creator", 0, "ujuno"), init_msg(1000));
    execute(&mut reg, env_at(NOW), info("annie", 32, "ujuno"), reg_msg("ab", 2)).unwrap();

    // revoking a delegate who holds nothing is not an error
    let revoke = ExecuteMsg::Revoke {
        spender: "bobby".to_string(),
        token_id: "ab".to_string(),
    };
    assert!(execute(&mut reg, env_at(NOW), info("annie", 0, "ujuno"), revoke.clone()).is_ok());

    // but only the owner may revoke
    let res = execute(&mut reg, env_at(NOW), info("carl", 0, "ujuno"), revoke);
    assert_eq!(res.unwrap_err(), ContractError::Unauthorized);
}

#[test]
fn invalid_recipient_is_refused() {
    let (mut reg, _res) = instantiate(info("creator", 0, "ujuno"), init_msg(1000));
    execute(&mut reg, env_at(NOW), info("annie", 32, "ujuno"), reg_msg("ab", 2)).unwrap();

    let env = Env { now: NOW, recipient_valid: false, payload_decodable: true };
    let transfer = ExecuteMsg::TransferNft {
        recipient: "not an address".to_string(),
        token_id: "ab".to_string(),
    };
    let res = execute(&mut reg, env, info("annie", 0, "ujuno"), transfer);
    assert_eq!(res.unwrap_err(), ContractError::InvalidArgument);
}

#[test]
fn send_nft_checks_the_payload_first() {
    let (mut reg, _res) = instantiate(info("creator", 0, "ujuno"), init_msg(1000));
    execute(&mut reg, env_at(NOW), info("annie", 32, "ujuno"), reg_msg("ab", 2)).unwrap();

    // an undecodable payload is refused before the transfer is attempted
    let env = Env { now: NOW, recipient_valid: true, payload_decodable: false };
    let send = ExecuteMsg::SendNft {
        contract: "receiver".to_string(),
        token_id: "ab".to_string(),
        message: vec![0xff],
    };
    let res = execute(&mut reg, env, info("annie", 0, "ujuno"), send.clone());
    assert_eq!(res.unwrap_err(), ContractError::InvalidArgument);
    // the refused send changed nothing: the owner is still the sender
    let res = query(&reg, env_at(NOW), QueryMsg::OwnerOf { token_id: "ab".to_string() }).unwrap();
    match res {
        QueryAnswer::Owner(o) => assert_eq!(o.owner, "annie".to_string()),
        _ => panic!("wrong answer kind"),
    }

    // a well-formed payload lets the transfer through
    let res = execute(&mut reg, env_at(NOW), info("annie", 0, "ujuno"), send);
    assert!(res.is_ok());
    let res = query(&reg, env_at(NOW), QueryMsg::OwnerOf { token_id: "ab".to_string() }).unwrap();
    match res {
        QueryAnswer::Owner(o) => assert_eq!(o.owner, "receiver".to_string()),
        _ => panic!("wrong answer kind"),
    }
}

#[test]
fn update_replaces_profile_wholesale() {
    let (mut reg, _res) = instantiate(info("creator", 0, "ujuno"), init_msg(1000));
    let msg = ExecuteMsg::RegisterName {
        name: "ab".to_string(),
        years: 2,
        avatar_url: Some("http://old-avatar".to_string()),
        secret_address: None,
        crypto_org_address: None,
        starname_address: None,
        persistence_address: None,
        kava_address: None,
        terra_address: None,
        website: Some("http://old-site".to_string()),
        email: None,
        twitter: None,
        telegram: None,
        discord: None,
        instagram: None,
        reddit: None,
    };
    execute(&mut reg, env_at(NOW), info("annie", 32, "ujuno"), msg).unwrap();

    // a delegation granted before the update must survive it
    let approve = ExecuteMsg::Approve {
        spender: "bobby".to_string(),
        token_id: "ab".to_string(),
        expires: None,
    };
    execute(&mut reg, env_at(NOW), info("annie", 0, "ujuno"), approve).unwrap();

    let update = ExecuteMsg::UpdateParams {
        name: "ab".to_string(),
        avatar_url: None,
        secret_address: None,
        crypto_org_address: None,
        starname_address: None,
        persistence_address: None,
        kava_address: None,
        terra_address: None,
        website: None,
        email: Some("annie@example.com".to_string()),
        twitter: None,
        telegram: None,
        discord: None,
        instagram: None,
        reddit: None,
    };
    // only the owner may update
    let res = execute(&mut reg, env_at(NOW), info("bobby", 0, "ujuno"), update.clone());
    assert_eq!(res.unwrap_err(), ContractError::Unauthorized);
    execute(&mut reg, env_at(NOW), info("annie", 0, "ujuno"), update.clone()).unwrap();

    let res = query(&reg, env_at(NOW), QueryMsg::ResolveAttributes { name: "ab".to_string() })
        .unwrap();
    let name = match res {
        QueryAnswer::Name(n) => n.name,
        _ => panic!("wrong answer kind"),
    };
    // fields left out of the request are unset, not left unchanged
    assert_eq!(name.avatar_url, None);
    assert_eq!(name.website, None);
    assert_eq!(name.email, Some("annie@example.com".to_string()));
    // only the profile is replaced: the approval granted before survives
    assert_eq!(name.approvals.len(), 1);
    assert_eq!(name.approvals[0].spender, "bobby".to_string());

    // once the lease has lapsed, the update reports not-found
    let res = execute(&mut reg, env_at(NOW + 2 * 1000), info("annie", 0, "ujuno"), update);
    assert_eq!(res.unwrap_err(), ContractError::NotFound);
}

#[test]
fn operators_are_listed_and_cleared() {
    let (mut reg, _res) = instantiate(info("creator", 0, "ujuno"), init_msg(1000));
    let grant = ExecuteMsg::ApproveAll {
        operator: "xena".to_string(),
        expires: Some(Expiration::AtTime(NOW + 50)),
    };
    execute(&mut reg, env_at(NOW), info("annie", 0, "ujuno"), grant).unwrap();

    let q = QueryMsg::ApprovedForAll {
        owner: "annie".to_string(),
        start_after: None,
        limit: None,
    };
    let res = query(&reg, env_at(NOW), q.clone()).unwrap();
    let ops = match res {
        QueryAnswer::ApprovedForAll(a) => a.operators,
        _ => panic!("wrong answer kind"),
    };
    assert_eq!(ops.len(), 1);
    assert_eq!(ops[0].owner, "xena".to_string());
    assert_eq!(ops[0].expires, Expiration::AtTime(NOW + 50));

    let revoke = ExecuteMsg::RevokeAll { operator: "xena".to_string() };
    execute(&mut reg, env_at(NOW), info("annie", 0, "ujuno"), revoke).unwrap();
    let res = query(&reg, env_at(NOW), q).unwrap();
    let ops = match res {
        QueryAnswer::ApprovedForAll(a) => a.operators,
        _ => panic!("wrong answer kind"),
    };
    assert!(ops.is_empty());
}

#[test]
fn display_queries() {
    let (mut reg, _res) = instantiate(info("creator", 0, "ujuno"), init_msg(1000));
    execute(&mut reg, env_at(NOW), info("annie", 2, "ujuno"), reg_msg("testname", 2)).unwrap();

    let res = query(&reg, env_at(NOW), QueryMsg::NftInfo { token_id: "testname".to_string() })
        .unwrap();
    let nft = match res {
        QueryAnswer::NftInfo(n) => n,
        _ => panic!("wrong answer kind"),
    };
    assert_eq!(nft.name, "testname.rns".to_string());
    assert_eq!(
        nft.description,
        "An IBC Name Resolver living on the JUNO network.".to_string()
    );
    assert_eq!(nft.image, "example.com/testname".to_string());

    let res = query(&reg, env_at(NOW), QueryMsg::NumTokens {}).unwrap();
    match res {
        QueryAnswer::NumTokens(n) => assert_eq!(n.tokens, 0),
        _ => panic!("wrong answer kind"),
    }

    let res = query(&reg, env_at(NOW), QueryMsg::ContractInfo {}).unwrap();
    match res {
        QueryAnswer::ContractInfo(c) => {
            assert_eq!(c.name, "JACKAL Name Service".to_string());
            assert_eq!(c.symbol, "RNS".to_string());
        }
        _ => panic!("wrong answer kind"),
    }
}

#[test]
fn withdraw_goes_to_the_admin_alone() {
    let (mut reg, _res) = instantiate(info("creator", 0, "ujuno"), init_msg(1000));

    let res = execute(&mut reg, env_at(NOW), info("annie", 0, "ujuno"), ExecuteMsg::WithdrawBalance {});
    assert_eq!(res.unwrap_err(), ContractError::Unauthorized);

    let res = execute(&mut reg, env_at(NOW), info("creator", 0, "ujuno"), ExecuteMsg::WithdrawBalance {})
        .unwrap();
    assert_eq!(res.messages.len(), 1);
    assert_eq!(res.messages[0].to_address, "creator".to_string());
}

#[test]
fn a_fresh_approval_replaces_the_old_one() {
    let (mut reg, _res) = instantiate(info("creator", 0, "ujuno"), init_msg(1000));
    execute(&mut reg, env_at(NOW), info("annie", 32, "ujuno"), reg_msg("ab", 2)).unwrap();

    let first = ExecuteMsg::Approve {
        spender: "bobby".to_string(),
        token_id: "ab".to_string(),
        expires: Some(Expiration::AtTime(NOW + 5)),
    };
    execute(&mut reg, env_at(NOW), info("annie", 0, "ujuno"), first).unwrap();
    let second = ExecuteMsg::Approve {
        spender: "bobby".to_string(),
        token_id: "ab".to_string(),
        expires: Some(Expiration::AtTime(NOW + 500)),
    };
    execute(&mut reg, env_at(NOW), info("annie", 0, "ujuno"), second).unwrap();

    // one entry, carrying the later deadline
    let res = query(&reg, env_at(NOW), QueryMsg::ResolveAttributes { name: "ab".to_string() })
        .unwrap();
    let name = match res {
        QueryAnswer::Name(n) => n.name,
        _ => panic!("wrong answer kind"),
    };
    assert_eq!(name.approvals.len(), 1);
    assert_eq!(name.approvals[0].spender, "bobby".to_string());
    assert_eq!(name.approvals[0].expires, Expiration::AtTime(NOW + 500));
}
