use ibc_name_service::contract::{execute, instantiate, query};
use ibc_name_service::error::ContractError;
use ibc_name_service::msg::{
    BlocksResponse, ExecuteMsg, InstantiateMsg, OwnerResponse, QueryAnswer, QueryMsg,
};
use ibc_name_service::state::{Coin, Env, MessageInfo, Name};

const MOCK_NOW: u64 = 1571797419879305533;

fn mock_env() -> Env {
    Env { now: MOCK_NOW, recipient_valid: true, payload_decodable: true }
}

fn mock_info(sender: &str, funds: &[Coin]) -> MessageInfo {
    MessageInfo { sender: sender.to_string(), funds: funds.to_vec() }
}

fn coins(amount: u128, denom: &str) -> Vec<Coin> {
    vec![Coin { denom: denom.to_string(), amount }]
}

fn int_mgs() -> InstantiateMsg {
    InstantiateMsg {
        blocks_per_year: 5048093,
        meta_url: "example.com".to_string(),
        denom: "ujuno".to_string(),
        cost_for_6: Some(1),
        cost_for_5: Some(2),
        cost_for_4: Some(4),
        cost_for_3: Some(8),
        cost_for_2: Some(16),
        cost_for_1: Some(32),
    }
}

fn register_msg(name: &str, years: u64) -> ExecuteMsg {
    ExecuteMsg::RegisterName {
        name: name.to_string(),
        years,
        avatar_url: None,
        secret_address: None,
        crypto_org_address: None,
        starname_address: None,
        persistence_address: None,
        kava_address: None,
        terra_address: None,
        website: None,
        email: None,
        twitter: None,
        telegram: None,
        discord: None,
        instagram: None,
        reddit: None,
    }
}

#[test]
fn proper_initialization() {
    let msg = int_mgs();
    let info = mock_info("creator", &coins(1000, "earth"));

    let (reg, res) = instantiate(info, msg);
    assert_eq!(0, res.messages.len());

    // it worked, let's query the state
    let res = query(&reg, mock_env(), QueryMsg::GetBlocksPerYear {}).unwrap();
    let value: BlocksResponse = match res {
        QueryAnswer::Blocks(b) => b,
        _ => panic!("wrong answer kind"),
    };
    assert_eq!(5048093, value.blocks_per_year);
}

#[test]
fn change_block_count() {
    let msg = int_mgs();
    let info = mock_info("creator", &coins(2, "token"));
    let (mut reg, _res) = instantiate(info, msg);

    let info = mock_info("creator", &coins(2, "token"));
    let msg = ExecuteMsg::SetBlocksPerYear { blocks_per_year: 5048094 };
    let _res = execute(&mut reg, mock_env(), info, msg).unwrap();

    let res = query(&reg, mock_env(), QueryMsg::GetBlocksPerYear {}).unwrap();
    let value: BlocksResponse = match res {
        QueryAnswer::Blocks(b) => b,
        _ => panic!("wrong answer kind"),
    };
    assert_eq!(5048094, value.blocks_per_year);
}

#[test]
fn change_owner() {
    let msg = int_mgs();
    let info = mock_info("creator", &coins(2, "token"));
    let (mut reg, _res) = instantiate(info, msg);

    let unauth_info = mock_info("anyone", &coins(2, "token"));
    let msg = ExecuteMsg::SetOwner { owner: "anyone".to_string() };
    let res = execute(&mut reg, mock_env(), unauth_info, msg);
    match res {
        Err(ContractError::Unauthorized) => {}
        _ => panic!("Must return unauthorized error"),
    }

    // only the original creator can hand the admin role over
    let auth_info = mock_info("creator", &coins(2, "token"));
    let msg = ExecuteMsg::SetOwner { owner: "anyone".to_string() };
    let _res = execute(&mut reg, mock_env(), auth_info, msg).unwrap();

    let res = query(&reg, mock_env(), QueryMsg::GetOwner {}).unwrap();
    let value: OwnerResponse = match res {
        QueryAnswer::Owner(o) => o,
        _ => panic!("wrong answer kind"),
    };
    assert_eq!("anyone".to_string(), value.owner);
}

#[test]
fn register_name() {
    let msg = int_mgs();
    let info = mock_info("creator", &coins(1000, "ujuno"));

    let (mut reg, res) = instantiate(info, msg);
    assert_eq!(0, res.messages.len());

    let auth_info = mock_info("annie", &coins(200000, "ujuno"));
    let res1 = execute(&mut reg, mock_env(), auth_info, register_msg("testname", 2)).unwrap();

    let auth_info = mock_info("bobby", &coins(200000, "ujuno"));
    let res2 = execute(&mut reg, mock_env(), auth_info, register_msg("testname", 3));

    assert_eq!(res2.is_err(), true);

    println!("{:?}", res1);
    println!("{:?}", res2);
}

#[test]
fn add_time_to_name() {
    let msg = int_mgs();
    let info = mock_info("creator", &coins(1000, "ujuno"));

    let (mut reg, res) = instantiate(info, msg);
    assert_eq!(0, res.messages.len());

    let auth_info = mock_info("annie", &coins(200000, "ujuno"));
    let res1 = execute(&mut reg, mock_env(), auth_info, register_msg("testname", 2)).unwrap();

    let auth_info = mock_info("annie", &coins(200000, "ujuno"));
    let msg = ExecuteMsg::AddTime { name: "testname".to_string(), years: 2 };
    let res2 = execute(&mut reg, mock_env(), auth_info, msg).unwrap();

    let auth_info = mock_info("bobby", &coins(200000, "ujuno"));
    let msg = ExecuteMsg::AddTime { name: "testname".to_string(), years: 2 };
    let res3 = execute(&mut reg, mock_env(), auth_info, msg);
    assert_eq!(res3.is_err(), true);

    println!("{:?}", res1);
    println!("{:?}", res2);
    println!("{:?}", res3);
}

#[test]
fn resolve_name() {
    let msg = int_mgs();
    let info = mock_info("creator", &coins(1000, "ujuno"));

    let (mut reg, res) = instantiate(info, msg);
    assert_eq!(0, res.messages.len());

    let auth_info = mock_info("annie", &coins(200000, "ujuno"));
    let _res = execute(&mut reg, mock_env(), auth_info, register_msg("testname", 2)).unwrap();

    let res = query(&reg, mock_env(), QueryMsg::ResolveName { name: "testname".to_string() })
        .unwrap();
    let value: OwnerResponse = match res {
        QueryAnswer::Owner(o) => o,
        _ => panic!("wrong answer kind"),
    };
    assert_eq!("annie".to_string(), value.owner);
}

#[test]
fn request_name() {
    let msg = int_mgs();
    let info = mock_info("creator", &coins(1000, "ujuno"));

    let (mut reg, res) = instantiate(info, msg);
    assert_eq!(0, res.messages.len());

    let auth_info = mock_info("annie", &coins(200000, "ujuno"));
    let _res = execute(&mut reg, mock_env(), auth_info, register_msg("testname", 2)).unwrap();

    let res = query(
        &reg,
        mock_env(),
        QueryMsg::ResolveAttributes { name: "testname".to_string() },
    )
    .unwrap();
    let value = match res {
        QueryAnswer::Name(n) => n,
        _ => panic!("wrong answer kind"),
    };
    // two purchased duration units, at the configured duration per unit
    assert_eq!(
        Name {
            id: "testname".to_string(),
            expires: 1571797419879305533 + 2 * 5048093,
            owner: "annie".to_string(),
            approvals: vec![],
            avatar_url: None,
            terra_address: None,
            secret_address: None,
            crypto_org_address: None,
            kava_address: None,
            persistence_address: None,
            starname_address: None,
            website: None,
            email: None,
            twitter: None,
            telegram: None,
            discord: None,
            instagram: None,
            reddit: None
        },
        value.name
    );
}

#[test]
fn transferring_nft() {
    let msg = int_mgs();
    let info = mock_info("creator", &coins(1000, "ujuno"));

    let (mut reg, res) = instantiate(info, msg);
    assert_eq!(0, res.messages.len());

    // Mint a token
    let token_id = "melt".to_string();

    let auth_info = mock_info("annie", &coins(200000, "ujuno"));
    let _res1 = execute(&mut reg, mock_env(), auth_info, register_msg("melt", 2)).unwrap();

    // random cannot transfer
    let random = mock_info("bobby", &coins(200000, "ujuno"));
    let transfer_msg = ExecuteMsg::TransferNft {
        recipient: "random".to_string(),
        token_id: token_id.clone(),
    };

    let _err = execute(&mut reg, mock_env(), random, transfer_msg.clone()).unwrap_err();

    // owner can
    let success = mock_info("annie", &coins(200000, "ujuno"));
    let transfer_msg = ExecuteMsg::TransferNft {
        recipient: "random".to_string(),
        token_id: token_id.clone(),
    };

    let res = execute(&mut reg, mock_env(), success, transfer_msg.clone());

    assert_eq!(res.is_err(), false);
}

#[test]
fn approving_revoking() {
    let msg = int_mgs();
    let info = mock_info("creator", &coins(1000, "ujuno"));

    let (mut reg, res) = instantiate(info, msg);
    assert_eq!(0, res.messages.len());

    // Mint a token
    let token_id = "melt".to_string();

    let auth_info = mock_info("annie", &coins(200000, "ujuno"));
    let _res1 = execute(&mut reg, mock_env(), auth_info, register_msg("melt", 2)).unwrap();

    let transfer_msg = ExecuteMsg::TransferNft {
        recipient: "carl".to_string(),
        token_id: token_id.clone(),
    };

    let approved = mock_info("bobby", &coins(200000, "ujuno"));
    let res = execute(&mut reg, mock_env(), approved, transfer_msg);
    println!("{:?}", res);

    // Give bobby transferring power
    let approve_msg = ExecuteMsg::Approve {
        spender: "bobby".to_string(),
        token_id: token_id.clone(),
        expires: None,
    };

    let owner = mock_info("annie", &coins(200000, "ujuno"));

    let res = execute(&mut reg, mock_env(), owner, approve_msg);

    assert_eq!(res.is_err(), false);

    let transfer_msg = ExecuteMsg::TransferNft {
        recipient: "carl".to_string(),
        token_id: token_id.clone(),
    };

    let approved = mock_info("bobby", &coins(200000, "ujuno"));
    let res = execute(&mut reg, mock_env(), approved, transfer_msg);

    println!("{:?}", res);
}

#[test]
fn blocks() {
    let msg = int_mgs();
    let admin = mock_info("ADMIN", &[]);
    let (mut reg, _res) = instantiate(admin, msg);

    let msg = ExecuteMsg::SetBlocksPerYear { blocks_per_year: 5048093 };
    let admin = mock_info("ADMIN", &[]);
    execute(&mut reg, mock_env(), admin, msg).unwrap();
}
