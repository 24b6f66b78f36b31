use vstd::prelude::*;
use crate::msg::{
    is_registration, is_transfer, reports, Action, ContractError, ExecuteMsg, InstantiateMsg,
    OutMsg, QueryMsg, QueryResponse, ReceiveMsg, Response, Snip20Msg, StateResponse,
    UnclaimedDepositResponse,
};
use crate::state::{amount_of, credited, withdrawn, Deposits, LedgerView, State};

verus! {

/// `floor(pool * deposit / total)`: the part of the pool owed for `deposit`.
pub open spec fn share_of(pool: u128, deposit: u128, total: u128) -> int {
    (pool as int) * (deposit as int) / (total as int)
}

/// The state after the project token contract `caller` reports that `from`
/// sent `amount` to open the auction.
pub open spec fn begin_auction_outcome(
    st: State,
    caller: Seq<char>,
    from: Seq<char>,
    amount: u128,
) -> Result<State, ContractError> {
    if caller != st.project_snip_contract@ {
        Err(ContractError::InvalidAssetSource)
    } else if from != st.auction_admin@ {
        Err(ContractError::Unauthorized)
    } else if st.auction_active {
        Err(ContractError::AlreadyActive)
    } else if st.auction_amount + amount > u128::MAX {
        Err(ContractError::Overflow)
    } else {
        Ok(State { auction_amount: (st.auction_amount + amount) as u128, auction_active: true, ..st })
    }
}

/// The state and ledger after the paired token contract `caller` reports a
/// deposit of `amount` by `from`.
pub open spec fn deposit_outcome(
    st: State,
    s: LedgerView,
    caller: Seq<char>,
    from: Seq<char>,
    amount: u128,
) -> Result<(State, LedgerView), ContractError> {
    if caller != st.paired_snip_contract@ {
        Err(ContractError::InvalidAssetSource)
    } else if !st.auction_active {
        Err(ContractError::AuctionNotActive)
    } else if st.total_deposits + amount > u128::MAX {
        Err(ContractError::Overflow)
    } else if amount_of(s, from) matches Some(a) && a + amount > u128::MAX {
        Err(ContractError::Overflow)
    } else {
        Ok(
            (
                State { total_deposits: (st.total_deposits + amount) as u128, ..st },
                credited(s, from, amount),
            ),
        )
    }
}

/// The state after `caller` asks to close the auction.
pub open spec fn end_auction_outcome(st: State, caller: Seq<char>) -> Result<
    State,
    ContractError,
> {
    if caller != st.auction_admin@ {
        Err(ContractError::Unauthorized)
    } else if !st.auction_active {
        Err(ContractError::AuctionNotActive)
    } else {
        Ok(State { auction_active: false, ..st })
    }
}

/// The ledger after `caller` claims, and the share of the pool paid out.
pub open spec fn claim_outcome(st: State, s: LedgerView, caller: Seq<char>) -> Result<
    (LedgerView, u128),
    ContractError,
> {
    if st.auction_active {
        Err(ContractError::AuctionStillActive)
    } else if amount_of(s, caller) is None {
        Err(ContractError::NoDeposit)
    } else if st.total_deposits == 0 {
        Err(ContractError::DivisionByZero)
    } else if share_of(st.auction_amount, amount_of(s, caller)->0, st.total_deposits)
        > u128::MAX {
        Err(ContractError::Overflow)
    } else {
        Ok(
            (
                withdrawn(s, caller),
                share_of(st.auction_amount, amount_of(s, caller)->0, st.total_deposits) as u128,
            ),
        )
    }
}

/// How `r` and the new state `st2` follow from a begin-auction notification.
pub open spec fn begin_auction_post(
    st: State,
    caller: Seq<char>,
    from: Seq<char>,
    amount: u128,
    r: Result<Response, ContractError>,
    st2: State,
) -> bool {
    match begin_auction_outcome(st, caller, from, amount) {
        Ok(next) => st2 == next && (r matches Ok(resp) && reports(
            resp,
            Action::BeginAuction,
            from,
            Some(amount),
        ) && resp.messages@.len() == 0),
        Err(e) => r == Err::<Response, ContractError>(e) && st2 == st,
    }
}

/// How `r`, the new state and the new ledger follow from a deposit
/// notification.
pub open spec fn deposit_post(
    st: State,
    s: LedgerView,
    caller: Seq<char>,
    from: Seq<char>,
    amount: u128,
    r: Result<Response, ContractError>,
    st2: State,
    s2: LedgerView,
) -> bool {
    match deposit_outcome(st, s, caller, from, amount) {
        Ok((next, ledger)) => st2 == next && s2 == ledger && (r matches Ok(resp) && reports(
            resp,
            Action::Deposit,
            from,
            Some(amount),
        ) && resp.messages@.len() == 0),
        Err(e) => r == Err::<Response, ContractError>(e) && st2 == st && s2 == s,
    }
}

/// How `r` and the new state follow from a request to close the auction: on
/// success the admin is sent the total of deposits in the paired token.
pub open spec fn end_auction_post(
    st: State,
    caller: Seq<char>,
    r: Result<Response, ContractError>,
    st2: State,
) -> bool {
    match end_auction_outcome(st, caller) {
        Ok(next) => st2 == next && (r matches Ok(resp) && reports(
            resp,
            Action::EndAuction,
            caller,
            Some(st.total_deposits),
        ) && resp.messages@.len() == 1 && is_transfer(
            resp.messages@[0],
            st.paired_snip_contract@,
            st.paired_snip_hash@,
            st.auction_admin@,
            st.total_deposits,
        )),
        Err(e) => r == Err::<Response, ContractError>(e) && st2 == st,
    }
}

/// How `r` and the new ledger follow from a claim: on success the caller is
/// sent its share in the project token.
pub open spec fn claim_post(
    st: State,
    s: LedgerView,
    caller: Seq<char>,
    r: Result<Response, ContractError>,
    s2: LedgerView,
) -> bool {
    match claim_outcome(st, s, caller) {
        Ok((ledger, share)) => s2 == ledger && (r matches Ok(resp) && reports(
            resp,
            Action::Claim,
            caller,
            Some(share),
        ) && resp.messages@.len() == 1 && is_transfer(
            resp.messages@[0],
            st.project_snip_contract@,
            st.project_snip_hash@,
            caller,
            share,
        )),
        Err(e) => r == Err::<Response, ContractError>(e) && s2 == s,
    }
}

/// `b` holds the same values as `a`.
pub open spec fn same_state(a: State, b: State) -> bool {
    &&& a.auction_admin@ == b.auction_admin@
    &&& a.project_snip_contract@ == b.project_snip_contract@
    &&& a.project_snip_hash@ == b.project_snip_hash@
    &&& a.paired_snip_contract@ == b.paired_snip_contract@
    &&& a.paired_snip_hash@ == b.paired_snip_hash@
    &&& a.auction_amount == b.auction_amount
    &&& a.total_deposits == b.total_deposits
    &&& a.auction_active == b.auction_active
}

/// Relies on `Uint128::checked_multiply_ratio` of secret-cosmwasm-std: the
/// floor of `value * numerator / denominator`, computed in 256 bits, or an
/// error when that exceeds `u128::MAX`.
#[verifier::external_body]
fn multiply_ratio(value: u128, numerator: u128, denominator: u128) -> (r: Option<u128>)
    requires
        denominator > 0,
    ensures
        match r {
            Some(v) => v == share_of(value, numerator, denominator),
            None => share_of(value, numerator, denominator) > u128::MAX,
        },
{
    secret_cosmwasm_std::Uint128::new(value).checked_multiply_ratio(numerator, denominator).ok().map(
        |v: secret_cosmwasm_std::Uint128| v.u128(),
    )
}

/// Creates the auction, inactive with an empty pool and no deposits, and asks
/// both token contracts to notify the contract (code hash `own_code_hash`) of
/// tokens sent to it.
pub fn instantiate(caller: &String, own_code_hash: &String, msg: InstantiateMsg) -> (r: (
    State,
    Deposits,
    Response,
))
    ensures
        r.0 == (State {
            auction_admin: msg.auction_admin,
            project_snip_contract: msg.project_snip_contract,
            project_snip_hash: msg.project_snip_hash,
            paired_snip_contract: msg.paired_snip_contract,
            paired_snip_hash: msg.paired_snip_hash,
            auction_amount: 0,
            total_deposits: 0,
            auction_active: false,
        }),
        r.1.wf(),
        r.1@.len() == 0,
        reports(r.2, Action::Instantiate, caller@, None),
        r.2.messages@.len() == 2,
        is_registration(
            r.2.messages@[0],
            msg.project_snip_contract@,
            msg.project_snip_hash@,
            own_code_hash@,
        ),
        is_registration(
            r.2.messages@[1],
            msg.paired_snip_contract@,
            msg.paired_snip_hash@,
            own_code_hash@,
        ),
{
    let state = State {
        auction_admin: msg.auction_admin,
        project_snip_contract: msg.project_snip_contract,
        project_snip_hash: msg.project_snip_hash,
        paired_snip_contract: msg.paired_snip_contract,
        paired_snip_hash: msg.paired_snip_hash,
        auction_amount: 0,
        total_deposits: 0,
        auction_active: false,
    };
    let project_message = OutMsg {
        contract_addr: state.project_snip_contract.clone(),
        code_hash: state.project_snip_hash.clone(),
        msg: Snip20Msg::register_receive(own_code_hash.clone()),
    };
    let paired_message = OutMsg {
        contract_addr: state.paired_snip_contract.clone(),
        code_hash: state.paired_snip_hash.clone(),
        msg: Snip20Msg::register_receive(own_code_hash.clone()),
    };
    let response = Response {
        messages: vec![project_message, paired_message],
        action: Action::Instantiate,
        from: caller.clone(),
        amount: None,
    };
    (state, Deposits::new(), response)
}

/// Runs one operation sent by `caller`.
pub fn execute(state: &mut State, deposits: &mut Deposits, caller: &String, msg: ExecuteMsg) -> (r:
    Result<Response, ContractError>)
    requires
        old(deposits).wf(),
    ensures
        final(deposits).wf(),
        match msg {
            ExecuteMsg::Claim {  } => *final(state) == *old(state) && claim_post(
                *old(state),
                old(deposits)@,
                caller@,
                r,
                final(deposits)@,
            ),
            ExecuteMsg::EndAuction {  } => final(deposits)@ == old(deposits)@ && end_auction_post(
                *old(state),
                caller@,
                r,
                *final(state),
            ),
            ExecuteMsg::Receive { from, amount, msg: ReceiveMsg::Deposit {  }, .. } => deposit_post(
                *old(state),
                old(deposits)@,
                caller@,
                from@,
                amount,
                r,
                *final(state),
                final(deposits)@,
            ),
            ExecuteMsg::Receive { from, amount, msg: ReceiveMsg::BeginAuction {  }, .. } =>
                final(deposits)@ == old(deposits)@ && begin_auction_post(
                *old(state),
                caller@,
                from@,
                amount,
                r,
                *final(state),
            ),
        },
{
    match msg {
        ExecuteMsg::Claim {  } => execute_claim(state, deposits, caller),
        ExecuteMsg::EndAuction {  } => execute_end_auction(state, caller),
        ExecuteMsg::Receive { sender: _, from, amount, msg, memo: _ } => execute_receive(
            state,
            deposits,
            caller,
            from,
            amount,
            msg,
        ),
    }
}

/// Pays `caller` its share of the pool and removes its deposit; only once the
/// auction is closed.
pub fn execute_claim(state: &State, deposits: &mut Deposits, caller: &String) -> (r: Result<
    Response,
    ContractError,
>)
    requires
        old(deposits).wf(),
    ensures
        final(deposits).wf(),
        claim_post(*state, old(deposits)@, caller@, r, final(deposits)@),
        state.auction_active ==> r == Err::<Response, ContractError>(
            ContractError::AuctionStillActive,
        ),
        !state.auction_active && amount_of(old(deposits)@, caller@) is Some
            && state.total_deposits == 0 ==> r == Err::<Response, ContractError>(
            ContractError::DivisionByZero,
        ),
{
    if state.auction_active {
        return Err(ContractError::AuctionStillActive);
    }
    let deposit = match deposits.get(caller) {
        Some(d) => d,
        None => return Err(ContractError::NoDeposit),
    };
    if state.total_deposits == 0 {
        return Err(ContractError::DivisionByZero);
    }
    let share = match multiply_ratio(state.auction_amount, deposit, state.total_deposits) {
        Some(v) => v,
        None => return Err(ContractError::Overflow),
    };
    deposits.remove(caller);
    let transfer = OutMsg {
        contract_addr: state.project_snip_contract.clone(),
        code_hash: state.project_snip_hash.clone(),
        msg: Snip20Msg::transfer_snip(caller.clone(), share),
    };
    Ok(
        Response {
            messages: vec![transfer],
            action: Action::Claim,
            from: caller.clone(),
            amount: Some(share),
        },
    )
}

/// Closes the auction and sends the admin the deposits in the paired token;
/// admin only.
pub fn execute_end_auction(state: &mut State, caller: &String) -> (r: Result<
    Response,
    ContractError,
>)
    ensures
        end_auction_post(*old(state), caller@, r, *final(state)),
        caller@ != old(state).auction_admin@ ==> r == Err::<Response, ContractError>(
            ContractError::Unauthorized,
        ),
{
    if *caller != state.auction_admin {
        return Err(ContractError::Unauthorized);
    }
    if !state.auction_active {
        return Err(ContractError::AuctionNotActive);
    }
    state.auction_active = false;
    let transfer = OutMsg {
        contract_addr: state.paired_snip_contract.clone(),
        code_hash: state.paired_snip_hash.clone(),
        msg: Snip20Msg::transfer_snip(state.auction_admin.clone(), state.total_deposits),
    };
    Ok(
        Response {
            messages: vec![transfer],
            action: Action::EndAuction,
            from: caller.clone(),
            amount: Some(state.total_deposits),
        },
    )
}

/// Handles tokens that the token contract `caller` received for this
/// contract from `from`.
pub fn execute_receive(
    state: &mut State,
    deposits: &mut Deposits,
    caller: &String,
    from: String,
    amount: u128,
    msg: ReceiveMsg,
) -> (r: Result<Response, ContractError>)
    requires
        old(deposits).wf(),
    ensures
        final(deposits).wf(),
        match msg {
            ReceiveMsg::Deposit {  } => deposit_post(
                *old(state),
                old(deposits)@,
                caller@,
                from@,
                amount,
                r,
                *final(state),
                final(deposits)@,
            ),
            ReceiveMsg::BeginAuction {  } => final(deposits)@ == old(deposits)@
                && begin_auction_post(*old(state), caller@, from@, amount, r, *final(state)),
        },
{
    match msg {
        ReceiveMsg::Deposit {  } => receive_deposit(state, deposits, caller, from, amount),
        ReceiveMsg::BeginAuction {  } => receive_begin_auction(state, caller, from, amount),
    }
}

/// Records a deposit of `amount` paired tokens by `from`, reported by the
/// paired token contract `caller` while the auction is active.
pub fn receive_deposit(
    state: &mut State,
    deposits: &mut Deposits,
    caller: &String,
    from: String,
    amount: u128,
) -> (r: Result<Response, ContractError>)
    requires
        old(deposits).wf(),
    ensures
        final(deposits).wf(),
        deposit_post(
            *old(state),
            old(deposits)@,
            caller@,
            from@,
            amount,
            r,
            *final(state),
            final(deposits)@,
        ),
        caller@ != old(state).paired_snip_contract@ ==> r == Err::<Response, ContractError>(
            ContractError::InvalidAssetSource,
        ),
        caller@ == old(state).paired_snip_contract@ && !old(state).auction_active ==> r == Err::<
            Response,
            ContractError,
        >(ContractError::AuctionNotActive),
{
    if *caller != state.paired_snip_contract {
        return Err(ContractError::InvalidAssetSource);
    }
    if !state.auction_active {
        return Err(ContractError::AuctionNotActive);
    }
    let total = match state.total_deposits.checked_add(amount) {
        Some(t) => t,
        None => return Err(ContractError::Overflow),
    };
    match deposits.credit(&from, amount) {
        Some(_) => {},
        None => return Err(ContractError::Overflow),
    }
    state.total_deposits = total;
    Ok(Response { messages: Vec::new(), action: Action::Deposit, from, amount: Some(amount) })
}

/// Opens the auction and adds `amount` project tokens to the pool, reported by
/// the project token contract `caller` as sent by the admin `from`.
pub fn receive_begin_auction(state: &mut State, caller: &String, from: String, amount: u128) -> (r:
    Result<Response, ContractError>)
    ensures
        begin_auction_post(*old(state), caller@, from@, amount, r, *final(state)),
        caller@ == old(state).project_snip_contract@ && from@ == old(state).auction_admin@
            && old(state).auction_active ==> r == Err::<Response, ContractError>(
            ContractError::AlreadyActive,
        ),
{
    if *caller != state.project_snip_contract {
        return Err(ContractError::InvalidAssetSource);
    }
    if from != state.auction_admin {
        return Err(ContractError::Unauthorized);
    }
    if state.auction_active {
        return Err(ContractError::AlreadyActive);
    }
    let pool = match state.auction_amount.checked_add(amount) {
        Some(p) => p,
        None => return Err(ContractError::Overflow),
    };
    state.auction_amount = pool;
    state.auction_active = true;
    Ok(
        Response {
            messages: Vec::new(),
            action: Action::BeginAuction,
            from,
            amount: Some(amount),
        },
    )
}

/// Answers a read-only request.
pub fn query(state: &State, deposits: &Deposits, msg: &QueryMsg) -> (r: QueryResponse)
    requires
        deposits.wf(),
    ensures
        match msg {
            QueryMsg::GetState {  } => r matches QueryResponse::State(resp) && same_state(
                resp.state,
                *state,
            ),
            QueryMsg::GetDeposit { address } => r == QueryResponse::Deposit(
                UnclaimedDepositResponse {
                    unclaimed_deposit: match amount_of(deposits@, address@) {
                        Some(a) => a,
                        None => 0,
                    },
                },
            ),
        },
{
    match msg {
        QueryMsg::GetState {  } => QueryResponse::State(query_state(state)),
        QueryMsg::GetDeposit { address } => QueryResponse::Deposit(query_deposit(deposits, address)),
    }
}

fn query_state(state: &State) -> (r: StateResponse)
    ensures
        same_state(r.state, *state),
{
    StateResponse {
        state: State {
            auction_admin: state.auction_admin.clone(),
            project_snip_contract: state.project_snip_contract.clone(),
            project_snip_hash: state.project_snip_hash.clone(),
            paired_snip_contract: state.paired_snip_contract.clone(),
            paired_snip_hash: state.paired_snip_hash.clone(),
            auction_amount: state.auction_amount,
            total_deposits: state.total_deposits,
            auction_active: state.auction_active,
        },
    }
}

/// The unclaimed deposit of `address`, zero when it has none.
pub fn query_deposit(deposits: &Deposits, address: &String) -> (r: UnclaimedDepositResponse)
    requires
        deposits.wf(),
    ensures
        r.unclaimed_deposit == match amount_of(deposits@, address@) {
            Some(a) => a,
            None => 0,
        },
{
    let unclaimed_deposit = match deposits.get(address) {
        Some(a) => a,
        None => 0,
    };
    UnclaimedDepositResponse { unclaimed_deposit }
}

} // verus!
