use vstd::prelude::*;
use crate::state::State;

verus! {

/// Parameters the contract is created with.
#[derive(Clone, Debug, PartialEq, Eq)]
pub struct InstantiateMsg {
    pub auction_admin: String,
    pub project_snip_contract: String,
    pub project_snip_hash: String,
    pub paired_snip_contract: String,
    pub paired_snip_hash: String,
}

/// Operations that change the auction.
#[derive(Clone, Debug, PartialEq, Eq)]
pub enum ExecuteMsg {
    Claim {},
    EndAuction {},
    /// A token contract reports that `from` sent it `amount` for this
    /// contract; `msg` selects what the tokens are for.
    Receive { sender: String, from: String, amount: u128, msg: ReceiveMsg, memo: Option<String> },
}

/// What tokens received from a token contract are for.
#[derive(Clone, Copy, Debug, PartialEq, Eq, Structural)]
pub enum ReceiveMsg {
    Deposit {},
    BeginAuction {},
}

/// Read-only requests.
#[derive(Clone, Debug, PartialEq, Eq)]
pub enum QueryMsg {
    GetState {},
    GetDeposit { address: String },
}

/// The whole state of the auction.
#[derive(Clone, Debug, PartialEq, Eq)]
pub struct StateResponse {
    pub state: State,
}

/// The unclaimed deposit of one address.
#[derive(Clone, Copy, Debug, PartialEq, Eq, Structural)]
pub struct UnclaimedDepositResponse {
    pub unclaimed_deposit: u128,
}

/// The answer to a `QueryMsg`.
#[derive(Clone, Debug, PartialEq, Eq)]
pub enum QueryResponse {
    State(StateResponse),
    Deposit(UnclaimedDepositResponse),
}

/// Messages sent to SNIP-20 token contracts.
#[derive(Clone, Debug, PartialEq, Eq)]
pub enum Snip20Msg {
    RegisterReceive { code_hash: String, padding: Option<String> },
    Transfer { recipient: String, amount: u128, padding: Option<String> },
    Mint { recipient: String, amount: u128 },
}

impl Snip20Msg {
    pub fn register_receive(code_hash: String) -> (r: Self)
        ensures
            r == (Snip20Msg::RegisterReceive { code_hash: code_hash, padding: None }),
    {
        Snip20Msg::RegisterReceive { code_hash, padding: None }
    }

    pub fn transfer_snip(recipient: String, amount: u128) -> (r: Self)
        ensures
            r == (Snip20Msg::Transfer { recipient: recipient, amount: amount, padding: None }),
    {
        Snip20Msg::Transfer { recipient, amount, padding: None }
    }

    pub fn mint_msg(recipient: String, amount: u128) -> (r: Self)
        ensures
            r == (Snip20Msg::Mint { recipient: recipient, amount: amount }),
    {
        Snip20Msg::Mint { recipient, amount }
    }
}

/// A message to be executed on a token contract after the operation returns.
#[derive(Clone, Debug, PartialEq, Eq)]
pub struct OutMsg {
    pub contract_addr: String,
    pub code_hash: String,
    pub msg: Snip20Msg,
}

/// The operation an event reports.
#[derive(Clone, Copy, Debug, PartialEq, Eq, Structural)]
pub enum Action {
    Instantiate,
    BeginAuction,
    Deposit,
    EndAuction,
    Claim,
}

/// The result of a successful operation: outgoing token messages and the
/// event attributes `action`, `from` and, where there is one, `amount`.
#[derive(Clone, Debug, PartialEq, Eq)]
pub struct Response {
    pub messages: Vec<OutMsg>,
    pub action: Action,
    pub from: String,
    pub amount: Option<u128>,
}

/// Why an operation was refused; a refused operation changes nothing.
#[derive(Clone, Copy, Debug, PartialEq, Eq, Structural)]
pub enum ContractError {
    /// The caller is not the auction admin.
    Unauthorized,
    /// The notification did not come from the expected token contract.
    InvalidAssetSource,
    AuctionNotActive,
    AlreadyActive,
    AuctionStillActive,
    /// The caller has no unclaimed deposit.
    NoDeposit,
    /// A claim while the total of deposits is zero.
    DivisionByZero,
    /// An amount would exceed `u128::MAX`.
    Overflow,
}

/// `m` tells `contract` (with code hash `hash`) to send `amount` to `recipient`.
pub open spec fn is_transfer(
    m: OutMsg,
    contract: Seq<char>,
    hash: Seq<char>,
    recipient: Seq<char>,
    amount: u128,
) -> bool {
    &&& m.contract_addr@ == contract
    &&& m.code_hash@ == hash
    &&& m.msg matches Snip20Msg::Transfer { recipient: to, amount: a, padding }
    &&& to@ == recipient
    &&& a == amount
    &&& padding is None
}

/// `m` asks `contract` (with code hash `hash`) to notify the contract with code
/// hash `receiver` of incoming tokens.
pub open spec fn is_registration(
    m: OutMsg,
    contract: Seq<char>,
    hash: Seq<char>,
    receiver: Seq<char>,
) -> bool {
    &&& m.contract_addr@ == contract
    &&& m.code_hash@ == hash
    &&& m.msg matches Snip20Msg::RegisterReceive { code_hash, padding }
    &&& code_hash@ == receiver
    &&& padding is None
}

/// `r` reports `action` by `from` with `amount`.
pub open spec fn reports(r: Response, action: Action, from: Seq<char>, amount: Option<u128>) -> bool {
    &&& r.action == action
    &&& r.from@ == from
    &&& r.amount == amount
}

} // verus!
