use vstd::prelude::*;

verus! {

/// One-time setup request: the four collaborator identities and the total
/// supply of the distributed token.
#[derive(Clone, Debug)]
pub struct InstantiateMsg {
    pub red_token_address: String,
    pub blue_token_address: String,
    pub token_address: String,
    pub total_supply: u128,
}

/// A transfer notification: an input token contract reports that it moved
/// `amount` tokens from `sender` to this contract.
#[derive(Clone, Debug)]
pub struct ReceiveMsg {
    pub sender: String,
    pub amount: u128,
}

#[derive(Clone, Debug)]
pub enum ExecuteMsg {
    /// Handler for incoming token deposits.
    Receive(ReceiveMsg),
    /// Use deposited tokens to claim distributed tokens.
    Claim,
}

#[derive(Clone, Debug)]
pub enum QueryMsg {
    /// Get supply info.
    SupplyInfo,
    /// Get deposit info for an address.
    DepositInfo { address: String },
}

#[derive(Clone, Copy, Debug, PartialEq, Eq, Structural)]
pub struct SupplyInfoResponse {
    pub total_supply: u128,
    pub claimed_supply: u128,
    pub remaining_supply: u128,
}

#[derive(Clone, Copy, Debug, PartialEq, Eq, Structural)]
pub struct DepositInfoResponse {
    pub red: u128,
    pub blue: u128,
}

/// How a transfer notification was accounted.
#[derive(Clone, Copy, Debug, PartialEq, Eq, Structural)]
pub enum TransferEffect {
    /// The notification reported the administrator's initial funding of the
    /// distributed token; no depositor record is touched.
    AdminFunding,
    /// The notification credited an ordinary depositor's record.
    DepositCredit,
}

/// An outbound instruction directing the token contract `contract_addr` to
/// move `amount` of its tokens from this contract to `recipient`.
#[derive(Clone, Debug)]
pub struct TransferInstruction {
    pub contract_addr: String,
    pub recipient: String,
    pub amount: u128,
}

/// One observed balance held by this contract, keyed by the token contract
/// that issued it.
#[derive(Clone, Debug)]
pub struct CoinRecord {
    pub address: String,
    pub amount: u128,
}

/// The result of a successful execute call.
#[derive(Clone, Debug)]
pub enum ExecuteOutcome {
    Received(TransferEffect),
    Claimed(TransferInstruction),
}

/// The result of a successful query call.
#[derive(Clone, Debug)]
pub enum QueryAnswer {
    Supply(SupplyInfoResponse),
    Deposit(DepositInfoResponse),
}

} // verus!
