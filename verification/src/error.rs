use vstd::prelude::*;

verus! {

/// Failure results of the contract's entry points.
#[derive(Clone, Copy, Debug, PartialEq, Eq, Structural)]
pub enum ContractError {
    /// A transfer notification arrived from a ledger other than the two
    /// configured input token contracts.
    Unauthorized,
    /// An operation addressed a depositor record that does not exist.
    NotFound,
    /// A claim was attempted while either input token balance is zero.
    NoFunds,
    /// An amount addition or subtraction would overflow or underflow the
    /// 128-bit amount representation.
    ArithmeticFailure,
    /// A read or write of persistent state failed in the hosting runtime.
    StateAccess,
}

} // verus!
