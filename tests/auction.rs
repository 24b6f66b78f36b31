use auction_escrow::contract::{
    execute, execute_claim, execute_end_auction, execute_receive, instantiate, query,
    query_deposit, receive_begin_auction, receive_deposit,
};
use auction_escrow::msg::{
    Action, ContractError, ExecuteMsg, InstantiateMsg, OutMsg, QueryMsg, QueryResponse,
    ReceiveMsg, Snip20Msg,
};
use auction_escrow::state::{Deposits, State};

const ADMIN: &str = "admin";
const PROJECT: &str = "project_token";
const PAIRED: &str = "paired_token";

fn s(v: &str) -> String {
    v.to_string()
}

fn setup() -> (State, Deposits) {
    let msg = InstantiateMsg {
        auction_admin: s(ADMIN),
        project_snip_contract: s(PROJECT),
        project_snip_hash: s("project_hash"),
        paired_snip_contract: s(PAIRED),
        paired_snip_hash: s("paired_hash"),
    };
    let (state, deposits, _) = instantiate(&s("creator"), &s("own_hash"), msg);
    (state, deposits)
}

fn begin(state: &mut State, pool: u128) {
    receive_begin_auction(state, &s(PROJECT), s(ADMIN), pool).unwrap();
}

fn deposit(state: &mut State, deposits: &mut Deposits, who: &str, amount: u128) {
    receive_deposit(state, deposits, &s(PAIRED), s(who), amount).unwrap();
}

fn transfer(contract: &str, hash: &str, recipient: &str, amount: u128) -> OutMsg {
    OutMsg {
        contract_addr: s(contract),
        code_hash: s(hash),
        msg: Snip20Msg::transfer_snip(s(recipient), amount),
    }
}

#[test]
fn instantiate_registers_both_tokens() {
    let msg = InstantiateMsg {
        auction_admin: s(ADMIN),
        project_snip_contract: s(PROJECT),
        project_snip_hash: s("project_hash"),
        paired_snip_contract: s(PAIRED),
        paired_snip_hash: s("paired_hash"),
    };
    let (state, deposits, resp) = instantiate(&s("creator"), &s("own_hash"), msg);
    assert_eq!(state.auction_amount, 0);
    assert_eq!(state.total_deposits, 0);
    assert!(!state.auction_active);
    assert_eq!(deposits.get(&s("anyone")), None);
    assert_eq!(resp.action, Action::Instantiate);
    assert_eq!(resp.from, s("creator"));
    assert_eq!(resp.amount, None);
    assert_eq!(
        resp.messages,
        vec![
            OutMsg {
                contract_addr: s(PROJECT),
                code_hash: s("project_hash"),
                msg: Snip20Msg::register_receive(s("own_hash")),
            },
            OutMsg {
                contract_addr: s(PAIRED),
                code_hash: s("paired_hash"),
                msg: Snip20Msg::register_receive(s("own_hash")),
            },
        ]
    );
}

#[test]
fn full_round_pays_proportional_shares() {
    let (mut state, mut deposits) = setup();
    begin(&mut state, 1000);
    deposit(&mut state, &mut deposits, "a", 300);
    deposit(&mut state, &mut deposits, "b", 700);
    assert_eq!(state.total_deposits, 1000);

    let end = execute_end_auction(&mut state, &s(ADMIN)).unwrap();
    assert_eq!(end.action, Action::EndAuction);
    assert_eq!(end.amount, Some(1000));
    assert_eq!(end.messages, vec![transfer(PAIRED, "paired_hash", ADMIN, 1000)]);

    let a = execute_claim(&state, &mut deposits, &s("a")).unwrap();
    assert_eq!(a.action, Action::Claim);
    assert_eq!(a.from, s("a"));
    assert_eq!(a.amount, Some(300));
    assert_eq!(a.messages, vec![transfer(PROJECT, "project_hash", "a", 300)]);

    let b = execute_claim(&state, &mut deposits, &s("b")).unwrap();
    assert_eq!(b.amount, Some(700));
    assert_eq!(b.messages, vec![transfer(PROJECT, "project_hash", "b", 700)]);

    assert_eq!(execute_claim(&state, &mut deposits, &s("a")), Err(ContractError::NoDeposit));
}

#[test]
fn shares_are_floored_and_fit_the_pool() {
    let (mut state, mut deposits) = setup();
    begin(&mut state, 1000);
    deposit(&mut state, &mut deposits, "a", 1);
    deposit(&mut state, &mut deposits, "b", 2);
    execute_end_auction(&mut state, &s(ADMIN)).unwrap();
    let a = execute_claim(&state, &mut deposits, &s("a")).unwrap().amount.unwrap();
    let b = execute_claim(&state, &mut deposits, &s("b")).unwrap().amount.unwrap();
    assert_eq!(a, 333);
    assert_eq!(b, 666);
    assert!(a + b <= 1000);
}

#[test]
fn share_uses_wide_intermediate_product() {
    let (mut state, mut deposits) = setup();
    let pool = u128::MAX / 2;
    begin(&mut state, pool);
    deposit(&mut state, &mut deposits, "a", u128::MAX / 4);
    deposit(&mut state, &mut deposits, "b", u128::MAX / 4);
    execute_end_auction(&mut state, &s(ADMIN)).unwrap();
    let a = execute_claim(&state, &mut deposits, &s("a")).unwrap().amount.unwrap();
    assert_eq!(a, pool / 2);
}

#[test]
fn deposits_accumulate_and_sum_to_total() {
    let (mut state, mut deposits) = setup();
    begin(&mut state, 10);
    deposit(&mut state, &mut deposits, "a", 5);
    deposit(&mut state, &mut deposits, "b", 7);
    deposit(&mut state, &mut deposits, "a", 8);
    let a = query_deposit(&deposits, &s("a")).unclaimed_deposit;
    let b = query_deposit(&deposits, &s("b")).unclaimed_deposit;
    assert_eq!(a, 13);
    assert_eq!(b, 7);
    assert_eq!(a + b, state.total_deposits);
    assert_eq!(state.total_deposits, 20);
}

#[test]
fn query_deposit_defaults_to_zero() {
    let (_, deposits) = setup();
    assert_eq!(query_deposit(&deposits, &s("nobody")).unclaimed_deposit, 0);
}

#[test]
fn query_reports_state_and_deposit() {
    let (mut state, mut deposits) = setup();
    begin(&mut state, 50);
    deposit(&mut state, &mut deposits, "a", 4);
    match query(&state, &deposits, &QueryMsg::GetState {}) {
        QueryResponse::State(r) => assert_eq!(r.state, state),
        other => panic!("unexpected answer {:?}", other),
    }
    match query(&state, &deposits, &QueryMsg::GetDeposit { address: s("a") }) {
        QueryResponse::Deposit(r) => assert_eq!(r.unclaimed_deposit, 4),
        other => panic!("unexpected answer {:?}", other),
    }
}

#[test]
fn deposit_while_idle_is_refused() {
    let (mut state, mut deposits) = setup();
    let before = state.clone();
    assert_eq!(
        receive_deposit(&mut state, &mut deposits, &s(PAIRED), s("a"), 5),
        Err(ContractError::AuctionNotActive)
    );
    assert_eq!(state, before);
    assert_eq!(deposits.get(&s("a")), None);
}

#[test]
fn begin_while_active_is_refused() {
    let (mut state, _) = setup();
    begin(&mut state, 100);
    assert_eq!(
        receive_begin_auction(&mut state, &s(PROJECT), s(ADMIN), 5),
        Err(ContractError::AlreadyActive)
    );
    assert_eq!(state.auction_amount, 100);
}

#[test]
fn claim_while_active_is_refused() {
    let (mut state, mut deposits) = setup();
    begin(&mut state, 100);
    deposit(&mut state, &mut deposits, "a", 5);
    assert_eq!(
        execute_claim(&state, &mut deposits, &s("a")),
        Err(ContractError::AuctionStillActive)
    );
    assert_eq!(deposits.get(&s("a")), Some(5));
}

#[test]
fn end_auction_by_stranger_is_refused() {
    let (mut state, _) = setup();
    begin(&mut state, 100);
    assert_eq!(
        execute_end_auction(&mut state, &s("mallory")),
        Err(ContractError::Unauthorized)
    );
    assert!(state.auction_active);
}

#[test]
fn end_auction_when_idle_is_refused() {
    let (mut state, _) = setup();
    assert_eq!(
        execute_end_auction(&mut state, &s(ADMIN)),
        Err(ContractError::AuctionNotActive)
    );
}

#[test]
fn deposit_from_wrong_token_is_refused() {
    let (mut state, mut deposits) = setup();
    begin(&mut state, 100);
    assert_eq!(
        receive_deposit(&mut state, &mut deposits, &s(PROJECT), s("a"), 5),
        Err(ContractError::InvalidAssetSource)
    );
    assert_eq!(state.total_deposits, 0);
}

#[test]
fn begin_from_wrong_token_is_refused() {
    let (mut state, _) = setup();
    assert_eq!(
        receive_begin_auction(&mut state, &s(PAIRED), s(ADMIN), 5),
        Err(ContractError::InvalidAssetSource)
    );
}

#[test]
fn begin_by_non_admin_is_refused() {
    let (mut state, _) = setup();
    assert_eq!(
        receive_begin_auction(&mut state, &s(PROJECT), s("mallory"), 5),
        Err(ContractError::Unauthorized)
    );
    assert!(!state.auction_active);
}

#[test]
fn claim_with_zero_total_is_refused() {
    let (mut state, mut deposits) = setup();
    begin(&mut state, 100);
    deposit(&mut state, &mut deposits, "a", 0);
    execute_end_auction(&mut state, &s(ADMIN)).unwrap();
    assert_eq!(
        execute_claim(&state, &mut deposits, &s("a")),
        Err(ContractError::DivisionByZero)
    );
}

#[test]
fn claim_without_deposit_is_refused() {
    let (mut state, mut deposits) = setup();
    begin(&mut state, 100);
    execute_end_auction(&mut state, &s(ADMIN)).unwrap();
    assert_eq!(
        execute_claim(&state, &mut deposits, &s("a")),
        Err(ContractError::NoDeposit)
    );
}

#[test]
fn deposit_overflowing_total_is_refused() {
    let (mut state, mut deposits) = setup();
    begin(&mut state, 100);
    deposit(&mut state, &mut deposits, "a", u128::MAX);
    assert_eq!(
        receive_deposit(&mut state, &mut deposits, &s(PAIRED), s("b"), 1),
        Err(ContractError::Overflow)
    );
    assert_eq!(deposits.get(&s("b")), None);
}

#[test]
fn begin_overflowing_pool_is_refused() {
    let (mut state, _) = setup();
    begin(&mut state, u128::MAX);
    execute_end_auction(&mut state, &s(ADMIN)).unwrap();
    assert_eq!(
        receive_begin_auction(&mut state, &s(PROJECT), s(ADMIN), 1),
        Err(ContractError::Overflow)
    );
    assert_eq!(state.auction_amount, u128::MAX);
}

#[test]
fn execute_dispatches_operations() {
    let (mut state, mut deposits) = setup();
    let r = execute(
        &mut state,
        &mut deposits,
        &s(PROJECT),
        ExecuteMsg::Receive {
            sender: s(ADMIN),
            from: s(ADMIN),
            amount: 90,
            msg: ReceiveMsg::BeginAuction {},
            memo: None,
        },
    )
    .unwrap();
    assert_eq!(r.action, Action::BeginAuction);
    assert_eq!(r.amount, Some(90));
    let r = execute_receive(&mut state, &mut deposits, &s(PAIRED), s("a"), 3, ReceiveMsg::Deposit {})
        .unwrap();
    assert_eq!(r.action, Action::Deposit);
    assert_eq!(r.from, s("a"));
    execute(&mut state, &mut deposits, &s(ADMIN), ExecuteMsg::EndAuction {}).unwrap();
    let r = execute(&mut state, &mut deposits, &s("a"), ExecuteMsg::Claim {}).unwrap();
    assert_eq!(r.amount, Some(90));
}

#[test]
fn snip20_constructors() {
    assert_eq!(
        Snip20Msg::mint_msg(s("r"), 4),
        Snip20Msg::Mint { recipient: s("r"), amount: 4 }
    );
    assert_eq!(
        Snip20Msg::transfer_snip(s("r"), 4),
        Snip20Msg::Transfer { recipient: s("r"), amount: 4, padding: None }
    );
    assert_eq!(
        Snip20Msg::register_receive(s("h")),
        Snip20Msg::RegisterReceive { code_hash: s("h"), padding: None }
    );
}
