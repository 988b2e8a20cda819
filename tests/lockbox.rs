use cw1_lockbox::contract::{
    execute, execute_claim, execute_create_lockbox, execute_deposit, execute_deposit_native,
    execute_receive, execute_reset_lockbox, instantiate, query, query_lockbox, range_lockbox,
    Action, Attribute, Ledger, MessageInfo,
};
use cw1_lockbox::error::ContractError;
use cw1_lockbox::gateway::{encode_transfer, OutgoingMsg};
use cw1_lockbox::msg::{
    Cw20ReceiveMsg, ExecuteMsg, InstantiateMsg, LockBoxResponse, QueryMsg, QueryResponse,
    ReceiveMsg,
};
use cw1_lockbox::state::{BlockInfo, Coin, RawClaim, Scheduled, TransferIntent};

fn block(height: u64) -> BlockInfo {
    BlockInfo { height, time: 1_000 }
}

fn raw(addr: &str, amount: u128) -> RawClaim {
    RawClaim { addr: addr.to_string(), amount }
}

fn coin(denom: &str, amount: u128) -> Coin {
    Coin { denom: denom.to_string(), amount }
}

fn info(sender: &str, funds: Vec<Coin>) -> MessageInfo {
    MessageInfo { sender: sender.to_string(), funds }
}

fn fresh() -> Ledger {
    instantiate("creator".to_string(), InstantiateMsg {}).0
}

fn create_native(ledger: &mut Ledger, claims: Vec<RawClaim>) -> u64 {
    execute_create_lockbox(
        ledger,
        &block(500_000),
        "owner".to_string(),
        claims,
        Scheduled::AtHeight(1_000_000),
        Some("atom".to_string()),
        None,
    )
    .unwrap();
    ledger.seq
}

fn create_cw20(ledger: &mut Ledger, claims: Vec<RawClaim>) -> u64 {
    execute_create_lockbox(
        ledger,
        &block(500_000),
        "owner".to_string(),
        claims,
        Scheduled::AtHeight(1_000_000),
        None,
        Some("token".to_string()),
    )
    .unwrap();
    ledger.seq
}

#[test]
fn instantiate_starts_empty() {
    let (ledger, response) = instantiate("creator".to_string(), InstantiateMsg {});
    assert_eq!(ledger.seq, 0);
    assert!(ledger.lockboxes.is_empty());
    assert!(response.messages.is_empty());
    assert_eq!(
        response.attributes,
        vec![Attribute::Method(Action::Instantiate), Attribute::Owner("creator".to_string())]
    );
    assert!(ledger.is_well_formed());
}

#[test]
fn create_sums_claims_and_assigns_ids() {
    let mut ledger = fresh();
    let response = execute_create_lockbox(
        &mut ledger,
        &block(500_000),
        "owner".to_string(),
        vec![raw("a", 5), raw("b", 10)],
        Scheduled::AtHeight(1_000_000),
        Some("atom".to_string()),
        None,
    )
    .unwrap();
    assert_eq!(response.attributes, vec![Attribute::Method(Action::CreateLockbox), Attribute::Id(1)]);
    assert!(response.messages.is_empty());
    let lb = &ledger.lockboxes[0];
    assert_eq!(lb.id, 1);
    assert_eq!(lb.total_amount, 15);
    assert!(!lb.reset);
    assert_eq!(lb.claims.len(), 2);
    assert!(lb.claims.iter().all(|c| !c.claimed));
    assert_eq!(create_native(&mut ledger, vec![raw("c", 1)]), 2);
    assert!(ledger.is_well_formed());
}

#[test]
fn create_with_no_claims_owes_nothing() {
    let mut ledger = fresh();
    let id = create_native(&mut ledger, vec![]);
    assert_eq!(query_lockbox(&ledger, id).unwrap().total_amount, 0);
}

#[test]
fn create_after_expiration_fails() {
    let mut ledger = fresh();
    let r = execute_create_lockbox(
        &mut ledger,
        &block(1_000_000),
        "owner".to_string(),
        vec![raw("a", 5)],
        Scheduled::AtHeight(1_000_000),
        Some("atom".to_string()),
        None,
    );
    assert_eq!(r, Err(ContractError::LockBoxExpired {}));
    assert_eq!(ledger.seq, 0);
}

#[test]
fn create_after_time_expiration_fails() {
    let mut ledger = fresh();
    let r = execute_create_lockbox(
        &mut ledger,
        &BlockInfo { height: 1, time: 50 },
        "owner".to_string(),
        vec![raw("a", 5)],
        Scheduled::AtTime(50),
        Some("atom".to_string()),
        None,
    );
    assert_eq!(r, Err(ContractError::LockBoxExpired {}));
}

#[test]
fn create_with_both_or_neither_funding_fails() {
    let mut ledger = fresh();
    let both = execute_create_lockbox(
        &mut ledger,
        &block(500_000),
        "owner".to_string(),
        vec![raw("a", 5)],
        Scheduled::AtHeight(1_000_000),
        Some("atom".to_string()),
        Some("token".to_string()),
    );
    assert_eq!(both, Err(ContractError::DenomNotSupported {}));
    let neither = execute_create_lockbox(
        &mut ledger,
        &block(500_000),
        "owner".to_string(),
        vec![raw("a", 5)],
        Scheduled::AtHeight(1_000_000),
        None,
        None,
    );
    assert_eq!(neither, Err(ContractError::DenomNotSupported {}));
    assert_eq!(ledger.seq, 0);
    assert!(ledger.lockboxes.is_empty());
}

#[test]
fn create_with_overflowing_claims_fails() {
    let mut ledger = fresh();
    let r = execute_create_lockbox(
        &mut ledger,
        &block(500_000),
        "owner".to_string(),
        vec![raw("a", u128::MAX), raw("b", 1)],
        Scheduled::AtHeight(1_000_000),
        Some("atom".to_string()),
        None,
    );
    assert_eq!(r, Err(ContractError::ArithmeticFault {}));
    assert_eq!(ledger.seq, 0);
}

#[test]
fn create_with_largest_total_succeeds() {
    let mut ledger = fresh();
    let id = create_native(&mut ledger, vec![raw("a", u128::MAX - 1), raw("b", 1)]);
    assert_eq!(ledger.lockboxes[0].total_amount, u128::MAX);
    assert_eq!(id, 1);
}

#[test]
fn native_scenario_deposit_then_claim() {
    let mut ledger = fresh();
    let id = create_native(&mut ledger, vec![raw("a", 5), raw("b", 10)]);
    assert_eq!(ledger.lockboxes[0].total_amount, 15);

    let r = execute_deposit_native(&mut ledger, &block(600_000), &info("x", vec![coin("atom", 15)]), id)
        .unwrap();
    assert_eq!(r.attributes, vec![Attribute::Method(Action::Deposit), Attribute::Amount(15)]);
    assert_eq!(ledger.lockboxes[0].total_amount, 0);

    let balances = vec![coin("atom", 15)];
    let early = execute_claim(&mut ledger, &block(999_999), &info("a", vec![]), &balances, id);
    assert_eq!(early, Err(ContractError::LockBoxNotExpired {}));

    let paid = execute_claim(&mut ledger, &block(1_000_001), &info("a", vec![]), &balances, id).unwrap();
    assert_eq!(
        paid.messages,
        vec![TransferIntent::Bank { to_address: "a".to_string(), denom: "atom".to_string(), amount: 5 }]
    );
    assert!(ledger.lockboxes[0].claims[0].claimed);
    assert!(!ledger.lockboxes[0].claims[1].claimed);

    let again = execute_claim(&mut ledger, &block(1_000_001), &info("a", vec![]), &balances, id);
    assert_eq!(again, Err(ContractError::AlreadyClaimed {}));
    assert!(ledger.is_well_formed());
}

#[test]
fn claim_at_expiration_height_succeeds() {
    let mut ledger = fresh();
    let id = create_native(&mut ledger, vec![raw("a", 5)]);
    execute_deposit_native(&mut ledger, &block(600_000), &info("x", vec![coin("atom", 5)]), id).unwrap();
    let r = execute_claim(&mut ledger, &block(1_000_000), &info("a", vec![]), &vec![coin("atom", 5)], id);
    assert!(r.is_ok());
}

#[test]
fn cw20_scenario_receive_then_claim() {
    let mut ledger = fresh();
    let id = create_cw20(&mut ledger, vec![raw("a", 5), raw("b", 10)]);
    let wrapper = Cw20ReceiveMsg { sender: "payer".to_string(), amount: 15, msg: ReceiveMsg::Deposit { id } };
    let r = execute_receive(&mut ledger, &block(600_000), &info("token", vec![]), wrapper).unwrap();
    assert_eq!(r.attributes, vec![Attribute::Method(Action::Deposit), Attribute::Amount(15)]);
    assert_eq!(ledger.lockboxes[0].total_amount, 0);
    let paid = execute_claim(&mut ledger, &block(1_000_001), &info("b", vec![]), &vec![], id).unwrap();
    assert_eq!(
        paid.messages,
        vec![TransferIntent::Cw20 {
            contract_addr: "token".to_string(),
            recipient: "b".to_string(),
            amount: 10
        }]
    );
    assert!(ledger.lockboxes[0].claims[1].claimed);
}

#[test]
fn token_deposit_from_other_sender_is_unauthorized() {
    let mut ledger = fresh();
    let id = create_cw20(&mut ledger, vec![raw("a", 5)]);
    let r = execute_deposit(&mut ledger, &block(600_000), &info("impostor", vec![]), id, 5);
    assert_eq!(r, Err(ContractError::Unauthorized {}));
    assert_eq!(ledger.lockboxes[0].total_amount, 5);
}

#[test]
fn wrong_deposit_path_fails() {
    let mut ledger = fresh();
    let native = create_native(&mut ledger, vec![raw("a", 5)]);
    let token = create_cw20(&mut ledger, vec![raw("a", 5)]);
    let r = execute_deposit(&mut ledger, &block(600_000), &info("token", vec![]), native, 5);
    assert_eq!(r, Err(ContractError::DenomNotSupported {}));
    let r = execute_deposit_native(&mut ledger, &block(600_000), &info("x", vec![coin("atom", 5)]), token);
    assert_eq!(r, Err(ContractError::CW20TokensRequired {}));
    assert_eq!(ledger.lockboxes[0].native_denom, Some("atom".to_string()));
    assert_eq!(ledger.lockboxes[1].cw20_addr, Some("token".to_string()));
}

#[test]
fn native_deposit_without_matching_coin_fails() {
    let mut ledger = fresh();
    let id = create_native(&mut ledger, vec![raw("a", 5)]);
    let r = execute_deposit_native(&mut ledger, &block(600_000), &info("x", vec![coin("osmo", 5)]), id);
    assert_eq!(r, Err(ContractError::DenomNotSupported {}));
}

#[test]
fn native_deposit_uses_first_matching_coin() {
    let mut ledger = fresh();
    let id = create_native(&mut ledger, vec![raw("a", 10)]);
    let funds = vec![coin("osmo", 7), coin("atom", 3), coin("atom", 4)];
    let r = execute_deposit_native(&mut ledger, &block(600_000), &info("x", funds), id).unwrap();
    assert_eq!(r.attributes, vec![Attribute::Method(Action::Deposit), Attribute::Amount(3)]);
    assert_eq!(ledger.lockboxes[0].total_amount, 7);
}

#[test]
fn over_deposit_fails() {
    let mut ledger = fresh();
    let id = create_native(&mut ledger, vec![raw("a", 5)]);
    let r = execute_deposit_native(&mut ledger, &block(600_000), &info("x", vec![coin("atom", 6)]), id);
    assert_eq!(r, Err(ContractError::ArithmeticFault {}));
    assert_eq!(ledger.lockboxes[0].total_amount, 5);
}

#[test]
fn deposit_after_expiration_fails() {
    let mut ledger = fresh();
    let id = create_native(&mut ledger, vec![raw("a", 5)]);
    let r = execute_deposit_native(&mut ledger, &block(1_000_000), &info("x", vec![coin("atom", 5)]), id);
    assert_eq!(r, Err(ContractError::LockBoxExpired {}));
}

#[test]
fn unknown_lockbox_is_not_found() {
    let mut ledger = fresh();
    create_native(&mut ledger, vec![raw("a", 5)]);
    assert_eq!(execute_reset_lockbox(&mut ledger, &block(1), 0), Err(ContractError::NotFound {}));
    assert_eq!(execute_reset_lockbox(&mut ledger, &block(1), 2), Err(ContractError::NotFound {}));
    assert_eq!(query_lockbox(&ledger, 7), Err(ContractError::NotFound {}));
    let r = execute_claim(&mut ledger, &block(1), &info("a", vec![]), &vec![], 9);
    assert_eq!(r, Err(ContractError::NotFound {}));
}

#[test]
fn reset_before_deposit_pays_nothing() {
    let mut ledger = fresh();
    let id = create_native(&mut ledger, vec![raw("a", 5), raw("b", 10)]);
    let r = execute_reset_lockbox(&mut ledger, &block(600_000), id).unwrap();
    assert!(r.messages.is_empty());
    assert_eq!(r.attributes, vec![Attribute::Method(Action::Reset)]);
    assert!(ledger.lockboxes[0].reset);
}

#[test]
fn reset_after_partial_deposit_pays_owner_back() {
    let mut ledger = fresh();
    let id = create_native(&mut ledger, vec![raw("a", 5), raw("b", 10)]);
    execute_deposit_native(&mut ledger, &block(600_000), &info("x", vec![coin("atom", 6)]), id).unwrap();
    let r = execute_reset_lockbox(&mut ledger, &block(600_001), id).unwrap();
    assert_eq!(
        r.messages,
        vec![TransferIntent::Bank { to_address: "owner".to_string(), denom: "atom".to_string(), amount: 6 }]
    );
    assert!(r.attributes.is_empty());
}

#[test]
fn reset_of_token_lockbox_pays_through_ledger() {
    let mut ledger = fresh();
    let id = create_cw20(&mut ledger, vec![raw("a", 5)]);
    execute_deposit(&mut ledger, &block(600_000), &info("token", vec![]), id, 2).unwrap();
    let r = execute_reset_lockbox(&mut ledger, &block(600_001), id).unwrap();
    assert_eq!(
        r.messages,
        vec![TransferIntent::Cw20 { contract_addr: "token".to_string(), recipient: "owner".to_string(), amount: 2 }]
    );
}

#[test]
fn everything_after_reset_fails() {
    let mut ledger = fresh();
    let id = create_native(&mut ledger, vec![raw("a", 5)]);
    execute_reset_lockbox(&mut ledger, &block(600_000), id).unwrap();
    assert_eq!(execute_reset_lockbox(&mut ledger, &block(600_001), id), Err(ContractError::LockBoxReset {}));
    let r = execute_deposit_native(&mut ledger, &block(600_001), &info("x", vec![coin("atom", 5)]), id);
    assert_eq!(r, Err(ContractError::LockBoxReset {}));
    let r = execute_claim(&mut ledger, &block(2_000_000), &info("a", vec![]), &vec![coin("atom", 5)], id);
    assert_eq!(r, Err(ContractError::LockBoxReset {}));
    assert!(ledger.lockboxes[0].reset);
}

#[test]
fn reset_after_expiration_fails() {
    let mut ledger = fresh();
    let id = create_native(&mut ledger, vec![raw("a", 5)]);
    let r = execute_reset_lockbox(&mut ledger, &block(1_000_000), id);
    assert_eq!(r, Err(ContractError::LockBoxExpired {}));
    assert!(!ledger.lockboxes[0].reset);
}

#[test]
fn claim_before_full_funding_fails() {
    let mut ledger = fresh();
    let id = create_native(&mut ledger, vec![raw("a", 5)]);
    execute_deposit_native(&mut ledger, &block(600_000), &info("x", vec![coin("atom", 4)]), id).unwrap();
    let r = execute_claim(&mut ledger, &block(1_000_001), &info("a", vec![]), &vec![coin("atom", 4)], id);
    assert_eq!(r, Err(ContractError::DepositClaimImbalance {}));
}

#[test]
fn claim_by_stranger_is_unauthorized() {
    let mut ledger = fresh();
    let id = create_native(&mut ledger, vec![raw("a", 5)]);
    execute_deposit_native(&mut ledger, &block(600_000), &info("x", vec![coin("atom", 5)]), id).unwrap();
    let r = execute_claim(&mut ledger, &block(1_000_001), &info("z", vec![]), &vec![coin("atom", 5)], id);
    assert_eq!(r, Err(ContractError::Unauthorized {}));
}

#[test]
fn claim_with_short_balance_fails() {
    let mut ledger = fresh();
    let id = create_native(&mut ledger, vec![raw("a", 5)]);
    execute_deposit_native(&mut ledger, &block(600_000), &info("x", vec![coin("atom", 5)]), id).unwrap();
    let r = execute_claim(&mut ledger, &block(1_000_001), &info("a", vec![]), &vec![coin("atom", 4)], id);
    assert_eq!(r, Err(ContractError::InsufficientFunds {}));
    let r = execute_claim(&mut ledger, &block(1_000_001), &info("a", vec![]), &vec![coin("osmo", 9)], id);
    assert_eq!(r, Err(ContractError::InsufficientFunds {}));
    assert!(!ledger.lockboxes[0].claims[0].claimed);
}

#[test]
fn listing_pages_through_ids() {
    let mut ledger = fresh();
    for _ in 0..25 {
        create_native(&mut ledger, vec![raw("a", 1)]);
    }
    let first = range_lockbox(&ledger, None, Some(10));
    let ids: Vec<u64> = first.lockboxes.iter().map(|l| l.id).collect();
    assert_eq!(ids, (1..=10).collect::<Vec<u64>>());
    let second = range_lockbox(&ledger, Some(10), Some(10));
    let ids: Vec<u64> = second.lockboxes.iter().map(|l| l.id).collect();
    assert_eq!(ids, (11..=20).collect::<Vec<u64>>());
    let last = range_lockbox(&ledger, Some(20), Some(10));
    assert_eq!(last.lockboxes.len(), 5);
    assert!(range_lockbox(&ledger, Some(25), None).lockboxes.is_empty());
    assert!(range_lockbox(&ledger, Some(u64::MAX), None).lockboxes.is_empty());
}

#[test]
fn listing_limit_defaults_and_caps() {
    let mut ledger = fresh();
    for _ in 0..40 {
        create_native(&mut ledger, vec![raw("a", 1)]);
    }
    assert_eq!(range_lockbox(&ledger, None, None).lockboxes.len(), 10);
    assert_eq!(range_lockbox(&ledger, None, Some(100)).lockboxes.len(), 30);
    assert_eq!(range_lockbox(&ledger, None, Some(0)).lockboxes.len(), 0);
    assert_eq!(range_lockbox(&ledger, Some(35), Some(30)).lockboxes.len(), 5);
}

#[test]
fn query_reports_lockbox() {
    let mut ledger = fresh();
    let id = create_cw20(&mut ledger, vec![raw("a", 5)]);
    let r = query(&ledger, QueryMsg::GetLockBox { id }).unwrap();
    match r {
        QueryResponse::LockBox(LockBoxResponse { id, owner, total_amount, cw20_addr, native_denom, reset, .. }) => {
            assert_eq!(id, 1);
            assert_eq!(owner, "owner");
            assert_eq!(total_amount, 5);
            assert_eq!(cw20_addr, Some("token".to_string()));
            assert_eq!(native_denom, None);
            assert!(!reset);
        }
        _ => panic!("expected a single lockbox"),
    }
    assert_eq!(query(&ledger, QueryMsg::GetLockBox { id: 2 }), Err(ContractError::NotFound {}));
    match query(&ledger, QueryMsg::ListLockBoxes { start_after: None, limit: None }).unwrap() {
        QueryResponse::LockBoxList(list) => assert_eq!(list.lockboxes.len(), 1),
        _ => panic!("expected a list"),
    }
}

#[test]
fn response_from_lockbox_keeps_fields() {
    let mut ledger = fresh();
    create_native(&mut ledger, vec![raw("a", 5)]);
    let lb = ledger.lockboxes.pop().unwrap();
    let response: LockBoxResponse = lb.into();
    assert_eq!(response.id, 1);
    assert_eq!(response.claims.len(), 1);
    assert_eq!(response.native_denom, Some("atom".to_string()));
}

#[test]
fn execute_routes_each_request() {
    let mut ledger = fresh();
    let create = ExecuteMsg::CreateLockbox {
        owner: "owner".to_string(),
        raw_claims: vec![raw("a", 5)],
        expiration: Scheduled::AtHeight(1_000_000),
        native_token: Some("atom".to_string()),
        cw20_addr: None,
    };
    execute(&mut ledger, &block(500_000), &info("x", vec![]), &vec![], create).unwrap();
    let deposit = ExecuteMsg::Deposit { id: 1 };
    execute(&mut ledger, &block(500_001), &info("x", vec![coin("atom", 5)]), &vec![], deposit).unwrap();
    assert_eq!(ledger.lockboxes[0].total_amount, 0);
    let claim = ExecuteMsg::Claim { id: 1 };
    let r = execute(&mut ledger, &block(1_000_000), &info("a", vec![]), &vec![coin("atom", 5)], claim).unwrap();
    assert_eq!(r.messages.len(), 1);
    let reset = ExecuteMsg::Reset { id: 1 };
    let r = execute(&mut ledger, &block(1_000_000), &info("owner", vec![]), &vec![], reset);
    assert_eq!(r, Err(ContractError::LockBoxExpired {}));
}

#[test]
fn well_formedness_check_rejects_broken_store() {
    let mut ledger = fresh();
    create_native(&mut ledger, vec![raw("a", 5)]);
    assert!(ledger.is_well_formed());
    ledger.lockboxes[0].total_amount = 6;
    assert!(!ledger.is_well_formed());
    ledger.lockboxes[0].total_amount = 5;
    ledger.lockboxes[0].cw20_addr = Some("token".to_string());
    assert!(!ledger.is_well_formed());
    ledger.lockboxes[0].cw20_addr = None;
    ledger.seq = 2;
    assert!(!ledger.is_well_formed());
}

#[test]
fn token_transfer_encodes_cw20_message() {
    let t = TransferIntent::Cw20 { contract_addr: "token".to_string(), recipient: "bob".to_string(), amount: 5 };
    match encode_transfer(t).unwrap() {
        OutgoingMsg::WasmExecute { contract_addr, msg } => {
            assert_eq!(contract_addr, "token");
            assert_eq!(msg, br#"{"transfer":{"recipient":"bob","amount":"5"}}"#.to_vec());
        }
        other => panic!("unexpected {:?}", other),
    }
}

#[test]
fn bank_transfer_stays_a_bank_send() {
    let t = TransferIntent::Bank { to_address: "a".to_string(), denom: "atom".to_string(), amount: 5 };
    assert_eq!(
        encode_transfer(t),
        Ok(OutgoingMsg::BankSend { to_address: "a".to_string(), denom: "atom".to_string(), amount: 5 })
    );
}
