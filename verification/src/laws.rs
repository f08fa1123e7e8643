use vstd::prelude::*;

use crate::contract::{
    balance_of, claim_deposits, claim_outcome, min_amount, receive_deposits, receive_outcome,
};
use crate::error::ContractError;
use crate::msg::TransferEffect;
use crate::state::{Config, Deposit};

verus! {

/// One transfer notification, as the deposit accounting engine sees it: the
/// notifying token contract, the depositor, and the amount moved.
pub struct TransferNotice {
    pub ledger: Seq<char>,
    pub from: Seq<char>,
    pub amount: u128,
}

/// The deposit ledger after a sequence of transfer notifications, applied in
/// order.
pub open spec fn apply_notices(
    cfg: Config,
    deposits: Map<Seq<char>, Deposit>,
    evs: Seq<TransferNotice>,
) -> Map<Seq<char>, Deposit>
    decreases evs.len(),
{
    if evs.len() == 0 {
        deposits
    } else {
        receive_deposits(
            cfg,
            apply_notices(cfg, deposits, evs.drop_last()),
            evs.last().ledger,
            evs.last().from,
            evs.last().amount,
        )
    }
}

/// Every notification in `evs`, applied in order, credits a depositor.
pub open spec fn notices_credited(
    cfg: Config,
    deposits: Map<Seq<char>, Deposit>,
    evs: Seq<TransferNotice>,
) -> bool
    decreases evs.len(),
{
    if evs.len() == 0 {
        true
    } else {
        notices_credited(cfg, deposits, evs.drop_last()) && receive_outcome(
            cfg,
            apply_notices(cfg, deposits, evs.drop_last()),
            evs.last().ledger,
            evs.last().from,
            evs.last().amount,
        ) == Ok::<TransferEffect, ContractError>(TransferEffect::DepositCredit)
    }
}

/// Sum of the amounts notified from `ledger` on behalf of `from`.
pub open spec fn sum_notified(evs: Seq<TransferNotice>, ledger: Seq<char>, from: Seq<char>) -> int
    decreases evs.len(),
{
    if evs.len() == 0 {
        0
    } else {
        sum_notified(evs.drop_last(), ledger, from) + if evs.last().ledger == ledger
            && evs.last().from == from {
            evs.last().amount as int
        } else {
            0
        }
    }
}

/// Accumulation law: after any sequence of credited transfer notifications,
/// in any interleaving order, a depositor's stored balances equal the
/// starting balances plus the sum of the amounts notified for each input
/// token. The two input token contracts must be distinct, as configured at
/// instantiation.
pub proof fn lemma_deposit_accumulation(
    cfg: Config,
    deposits: Map<Seq<char>, Deposit>,
    evs: Seq<TransferNotice>,
    d: Seq<char>,
)
    requires
        cfg.red_token_address@ != cfg.blue_token_address@,
        notices_credited(cfg, deposits, evs),
    ensures
        balance_of(apply_notices(cfg, deposits, evs), d).red_tokens == balance_of(deposits, d).red_tokens
            + sum_notified(evs, cfg.red_token_address@, d),
        balance_of(apply_notices(cfg, deposits, evs), d).blue_tokens == balance_of(deposits, d).blue_tokens
            + sum_notified(evs, cfg.blue_token_address@, d),
    decreases evs.len(),
{
    if evs.len() > 0 {
        lemma_deposit_accumulation(cfg, deposits, evs.drop_last(), d);
    }
}

/// A transfer notification from an unconfigured token contract always fails
/// with `Unauthorized` and never changes the deposit ledger. The
/// administrator's own funding transfers are excluded: they succeed as a
/// no-op whatever contract notified them.
pub proof fn lemma_unconfigured_ledger_rejected(
    cfg: Config,
    deposits: Map<Seq<char>, Deposit>,
    notifying: Seq<char>,
    from: Seq<char>,
    amount: u128,
)
    requires
        from != cfg.admin@,
        notifying != cfg.red_token_address@,
        notifying != cfg.blue_token_address@,
    ensures
        receive_outcome(cfg, deposits, notifying, from, amount) == Err::<
            TransferEffect,
            ContractError,
        >(ContractError::Unauthorized),
        receive_deposits(cfg, deposits, notifying, from, amount) == deposits,
{
}

/// A claim while either stored balance is zero always fails with `NoFunds`
/// and changes nothing.
pub proof fn lemma_claim_no_funds(deposits: Map<Seq<char>, Deposit>, depositor: Seq<char>)
    requires
        deposits.contains_key(depositor),
        deposits[depositor].red_tokens == 0 || deposits[depositor].blue_tokens == 0,
    ensures
        claim_outcome(deposits, depositor) == Err::<u128, ContractError>(ContractError::NoFunds),
        claim_deposits(deposits, depositor) == deposits,
{
}

/// After a successful claim the emitted transfer amount equals the pre-claim
/// minimum of the two stored balances, and the minimum of the stored balances
/// is exactly zero.
pub proof fn lemma_claim_settles(deposits: Map<Seq<char>, Deposit>, depositor: Seq<char>)
    requires
        claim_outcome(deposits, depositor) is Ok,
    ensures
        claim_outcome(deposits, depositor) == Ok::<u128, ContractError>(
            min_amount(deposits[depositor].red_tokens, deposits[depositor].blue_tokens),
        ),
        claim_deposits(deposits, depositor).contains_key(depositor),
        min_amount(
            claim_deposits(deposits, depositor)[depositor].red_tokens,
            claim_deposits(deposits, depositor)[depositor].blue_tokens,
        ) == 0,
{
}

/// Idempotence of failure: after a successful claim, a second claim with no
/// intervening deposit fails with `NoFunds` and changes nothing.
pub proof fn lemma_second_claim_fails(deposits: Map<Seq<char>, Deposit>, depositor: Seq<char>)
    requires
        claim_outcome(deposits, depositor) is Ok,
    ensures
        claim_outcome(claim_deposits(deposits, depositor), depositor) == Err::<
            u128,
            ContractError,
        >(ContractError::NoFunds),
        claim_deposits(claim_deposits(deposits, depositor), depositor) == claim_deposits(
            deposits,
            depositor,
        ),
{
}

/// A transfer notification on behalf of the administrator is initial funding:
/// it succeeds without creating or updating any depositor record, whatever
/// the notifying contract and whatever the amount.
pub proof fn lemma_admin_transfer_is_funding(
    cfg: Config,
    deposits: Map<Seq<char>, Deposit>,
    notifying: Seq<char>,
    amount: u128,
)
    ensures
        receive_outcome(cfg, deposits, notifying, cfg.admin@, amount) == Ok::<
            TransferEffect,
            ContractError,
        >(TransferEffect::AdminFunding),
        receive_deposits(cfg, deposits, notifying, cfg.admin@, amount) == deposits,
{
}

} // verus!
