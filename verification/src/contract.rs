use vstd::prelude::*;

use crate::error::ContractError;
use crate::msg::{
    CoinRecord, DepositInfoResponse, ExecuteMsg, ExecuteOutcome, InstantiateMsg, QueryAnswer,
    QueryMsg, ReceiveMsg, SupplyInfoResponse, TransferEffect, TransferInstruction,
};
use crate::state::{Config, ContractState, Deposit, DepositLedger};

verus! {

/// The balances used for computation: the stored record, or (0, 0) when the
/// depositor has none yet.
pub open spec fn balance_of(deposits: Map<Seq<char>, Deposit>, addr: Seq<char>) -> Deposit {
    if deposits.contains_key(addr) {
        deposits[addr]
    } else {
        Deposit { red_tokens: 0, blue_tokens: 0 }
    }
}

/// The record after crediting `amount` to one side of `prior`.
pub open spec fn credited(prior: Deposit, to_red: bool, amount: u128) -> Deposit {
    if to_red {
        Deposit {
            red_tokens: (prior.red_tokens + amount) as u128,
            blue_tokens: prior.blue_tokens,
        }
    } else {
        Deposit {
            red_tokens: prior.red_tokens,
            blue_tokens: (prior.blue_tokens + amount) as u128,
        }
    }
}

/// Outcome of one transfer notification: the administrator's own transfers
/// are initial funding and touch no record; every other depositor is credited
/// only when the notifying contract is one of the two configured input token
/// contracts and the addition does not overflow.
pub open spec fn receive_outcome(
    cfg: Config,
    deposits: Map<Seq<char>, Deposit>,
    notifying: Seq<char>,
    from: Seq<char>,
    amount: u128,
) -> Result<TransferEffect, ContractError> {
    if from == cfg.admin@ {
        Ok(TransferEffect::AdminFunding)
    } else if notifying != cfg.red_token_address@ && notifying != cfg.blue_token_address@ {
        Err(ContractError::Unauthorized)
    } else {
        let prior = balance_of(deposits, from);
        let bal = if notifying == cfg.red_token_address@ {
            prior.red_tokens
        } else {
            prior.blue_tokens
        };
        if bal + amount > u128::MAX {
            Err(ContractError::ArithmeticFailure)
        } else {
            Ok(TransferEffect::DepositCredit)
        }
    }
}

/// The deposit ledger after one transfer notification: changed exactly when
/// the notification credits a depositor, and then only in that depositor's
/// record.
pub open spec fn receive_deposits(
    cfg: Config,
    deposits: Map<Seq<char>, Deposit>,
    notifying: Seq<char>,
    from: Seq<char>,
    amount: u128,
) -> Map<Seq<char>, Deposit> {
    if receive_outcome(cfg, deposits, notifying, from, amount) == Ok::<
        TransferEffect,
        ContractError,
    >(TransferEffect::DepositCredit) {
        deposits.insert(
            from,
            credited(balance_of(deposits, from), notifying == cfg.red_token_address@, amount),
        )
    } else {
        deposits
    }
}

pub open spec fn min_amount(a: u128, b: u128) -> u128 {
    if a <= b {
        a
    } else {
        b
    }
}

/// Outcome of a claim: the claimable amount, or the exact error. A claim
/// requires an existing record with strictly positive balances of both input
/// tokens, and settles the minimum of the two.
pub open spec fn claim_outcome(
    deposits: Map<Seq<char>, Deposit>,
    depositor: Seq<char>,
) -> Result<u128, ContractError> {
    if !deposits.contains_key(depositor) {
        Err(ContractError::NotFound)
    } else if deposits[depositor].red_tokens == 0 || deposits[depositor].blue_tokens == 0 {
        Err(ContractError::NoFunds)
    } else {
        Ok(min_amount(deposits[depositor].red_tokens, deposits[depositor].blue_tokens))
    }
}

/// The record after settling a claim: both sides lose the minimum of the two.
pub open spec fn settled(dep: Deposit) -> Deposit {
    let m = min_amount(dep.red_tokens, dep.blue_tokens);
    Deposit {
        red_tokens: (dep.red_tokens - m) as u128,
        blue_tokens: (dep.blue_tokens - m) as u128,
    }
}

/// The deposit ledger after a claim: changed exactly when the claim succeeds,
/// and then only in the claiming depositor's record.
pub open spec fn claim_deposits(
    deposits: Map<Seq<char>, Deposit>,
    depositor: Seq<char>,
) -> Map<Seq<char>, Deposit> {
    if claim_outcome(deposits, depositor) is Ok {
        deposits.insert(depositor, settled(deposits[depositor]))
    } else {
        deposits
    }
}

/// Sum of the observed amounts issued by the token contract `asset`; any
/// other observed asset contributes zero.
pub open spec fn sum_matching(coins: Seq<CoinRecord>, asset: Seq<char>) -> int
    decreases coins.len(),
{
    if coins.len() == 0 {
        0
    } else {
        sum_matching(coins.drop_last(), asset) + if coins.last().address@ == asset {
            coins.last().amount as int
        } else {
            0
        }
    }
}

/// The supply report: the fixed total, the live remaining balance of the
/// distributed token, and the claimed difference; an observation exceeding
/// the total cannot be subtracted and fails.
pub open spec fn supply_info_result(cfg: Config, observed: Seq<CoinRecord>) -> Result<
    SupplyInfoResponse,
    ContractError,
> {
    let remaining = sum_matching(observed, cfg.token_address@);
    if remaining <= cfg.total_supply {
        Ok(
            SupplyInfoResponse {
                total_supply: cfg.total_supply,
                claimed_supply: (cfg.total_supply - remaining) as u128,
                remaining_supply: remaining as u128,
            },
        )
    } else {
        Err(ContractError::ArithmeticFailure)
    }
}

/// The deposit report: the stored pair of one depositor, or `NotFound` when
/// no record exists.
pub open spec fn deposit_info_result(
    deposits: Map<Seq<char>, Deposit>,
    address: Seq<char>,
) -> Result<DepositInfoResponse, ContractError> {
    if deposits.contains_key(address) {
        Ok(
            DepositInfoResponse {
                red: deposits[address].red_tokens,
                blue: deposits[address].blue_tokens,
            },
        )
    } else {
        Err(ContractError::NotFound)
    }
}

/// One-time setup: records the caller as administrator and persists the four
/// collaborator identities and the total supply; no depositor record exists
/// yet.
pub fn instantiate(info_sender: &String, msg: InstantiateMsg) -> (r: ContractState)
    ensures
        r.config.admin@ == info_sender@,
        r.config.red_token_address@ == msg.red_token_address@,
        r.config.blue_token_address@ == msg.blue_token_address@,
        r.config.token_address@ == msg.token_address@,
        r.config.total_supply == msg.total_supply,
        r.deposits@ == Map::<Seq<char>, Deposit>::empty(),
{
    ContractState {
        config: Config {
            admin: info_sender.clone(),
            red_token_address: msg.red_token_address,
            blue_token_address: msg.blue_token_address,
            token_address: msg.token_address,
            total_supply: msg.total_supply,
        },
        deposits: DepositLedger::new(),
    }
}

/// Apply one transfer notification to the deposit ledger. `info_sender` is
/// the token contract that sent the notification; `wrapper.sender` is the
/// depositor on whose behalf it moved the tokens.
pub fn execute_receive(state: &mut ContractState, info_sender: &String, wrapper: &ReceiveMsg) -> (r:
    Result<TransferEffect, ContractError>)
    ensures
        final(state).config == old(state).config,
        r == receive_outcome(
            old(state).config,
            old(state).deposits@,
            info_sender@,
            wrapper.sender@,
            wrapper.amount,
        ),
        final(state).deposits@ == receive_deposits(
            old(state).config,
            old(state).deposits@,
            info_sender@,
            wrapper.sender@,
            wrapper.amount,
        ),
{
    if wrapper.sender == state.config.admin {
        return Ok(TransferEffect::AdminFunding);
    }
    let is_red = *info_sender == state.config.red_token_address;
    let is_blue = *info_sender == state.config.blue_token_address;
    if !is_red && !is_blue {
        return Err(ContractError::Unauthorized);
    }
    let prior = match state.deposits.get(&wrapper.sender) {
        Some(dep) => dep,
        None => Deposit { red_tokens: 0, blue_tokens: 0 },
    };
    let updated = if is_red {
        if prior.red_tokens > u128::MAX - wrapper.amount {
            return Err(ContractError::ArithmeticFailure);
        }
        Deposit {
            red_tokens: prior.red_tokens + wrapper.amount,
            blue_tokens: prior.blue_tokens,
        }
    } else {
        if prior.blue_tokens > u128::MAX - wrapper.amount {
            return Err(ContractError::ArithmeticFailure);
        }
        Deposit {
            red_tokens: prior.red_tokens,
            blue_tokens: prior.blue_tokens + wrapper.amount,
        }
    };
    state.deposits.set(&wrapper.sender, updated);
    Ok(TransferEffect::DepositCredit)
}

/// Settle the calling depositor's claim: subtract the minimum of the two
/// stored balances from both and instruct the distributed token's contract to
/// transfer that amount to the depositor.
pub fn execute_claim(state: &mut ContractState, info_sender: &String) -> (r: Result<
    TransferInstruction,
    ContractError,
>)
    ensures
        final(state).config == old(state).config,
        final(state).deposits@ == claim_deposits(old(state).deposits@, info_sender@),
        match r {
            Ok(instr) => claim_outcome(old(state).deposits@, info_sender@) == Ok::<
                u128,
                ContractError,
            >(instr.amount) && instr.contract_addr@ == old(state).config.token_address@
                && instr.recipient@ == info_sender@,
            Err(e) => claim_outcome(old(state).deposits@, info_sender@) == Err::<
                u128,
                ContractError,
            >(e),
        },
{
    let deposit = match state.deposits.get(info_sender) {
        Some(dep) => dep,
        None => {
            return Err(ContractError::NotFound);
        },
    };
    if deposit.blue_tokens == 0 || deposit.red_tokens == 0 {
        return Err(ContractError::NoFunds);
    }
    let claim_amount = if deposit.blue_tokens < deposit.red_tokens {
        deposit.blue_tokens
    } else {
        deposit.red_tokens
    };
    let coin = CoinRecord { address: state.config.token_address.clone(), amount: claim_amount };
    let instruction = send_cw20_tokens(info_sender, &coin);
    let updated = Deposit {
        red_tokens: deposit.red_tokens - claim_amount,
        blue_tokens: deposit.blue_tokens - claim_amount,
    };
    state.deposits.set(info_sender, updated);
    Ok(instruction)
}

/// Dispatch one execute request to the deposit accounting engine or the claim
/// engine.
pub fn execute(state: &mut ContractState, info_sender: &String, msg: ExecuteMsg) -> (r: Result<
    ExecuteOutcome,
    ContractError,
>)
    ensures
        final(state).config == old(state).config,
        match msg {
            ExecuteMsg::Receive(wrapper) => {
                &&& final(state).deposits@ == receive_deposits(
                    old(state).config,
                    old(state).deposits@,
                    info_sender@,
                    wrapper.sender@,
                    wrapper.amount,
                )
                &&& match r {
                    Ok(out) => out matches ExecuteOutcome::Received(eff) && receive_outcome(
                        old(state).config,
                        old(state).deposits@,
                        info_sender@,
                        wrapper.sender@,
                        wrapper.amount,
                    ) == Ok::<TransferEffect, ContractError>(eff),
                    Err(e) => receive_outcome(
                        old(state).config,
                        old(state).deposits@,
                        info_sender@,
                        wrapper.sender@,
                        wrapper.amount,
                    ) == Err::<TransferEffect, ContractError>(e),
                }
            },
            ExecuteMsg::Claim => {
                &&& final(state).deposits@ == claim_deposits(old(state).deposits@, info_sender@)
                &&& match r {
                    Ok(out) => out matches ExecuteOutcome::Claimed(instr) && claim_outcome(
                        old(state).deposits@,
                        info_sender@,
                    ) == Ok::<u128, ContractError>(instr.amount) && instr.contract_addr@ == old(
                        state,
                    ).config.token_address@ && instr.recipient@ == info_sender@,
                    Err(e) => claim_outcome(old(state).deposits@, info_sender@) == Err::<
                        u128,
                        ContractError,
                    >(e),
                }
            },
        },
{
    match msg {
        ExecuteMsg::Receive(wrapper) => match execute_receive(state, info_sender, &wrapper) {
            Ok(eff) => Ok(ExecuteOutcome::Received(eff)),
            Err(e) => Err(e),
        },
        ExecuteMsg::Claim => match execute_claim(state, info_sender) {
            Ok(instr) => Ok(ExecuteOutcome::Claimed(instr)),
            Err(e) => Err(e),
        },
    }
}

proof fn lemma_sum_matching_prefix(coins: Seq<CoinRecord>, asset: Seq<char>, i: int)
    requires
        0 <= i <= coins.len(),
    ensures
        sum_matching(coins.subrange(0, i), asset) <= sum_matching(coins, asset),
    decreases coins.len() - i,
{
    if i == coins.len() {
        assert(coins.subrange(0, i) =~= coins);
    } else {
        lemma_sum_matching_prefix(coins, asset, i + 1);
        assert(coins.subrange(0, i + 1).drop_last() =~= coins.subrange(0, i));
        assert(coins.subrange(0, i + 1).last() == coins[i]);
    }
}

/// Report total, claimed and remaining supply of the distributed token.
/// `observed` is the live balance observation handed in by the caller: the
/// asset amounts held by this contract, keyed by issuing token contract.
pub fn query_supply_info(config: &Config, observed: &Vec<CoinRecord>) -> (r: Result<
    SupplyInfoResponse,
    ContractError,
>)
    ensures
        r == supply_info_result(*config, observed@),
{
    let n = observed.len();
    let mut i: usize = 0;
    let mut acc: u128 = 0;
    while i < n
        invariant
            n == observed@.len(),
            i <= n,
            acc == sum_matching(observed@.subrange(0, i as int), config.token_address@),
        decreases n - i,
    {
        proof {
            assert(observed@.subrange(0, i + 1).drop_last() =~= observed@.subrange(0, i as int));
            assert(observed@.subrange(0, i + 1).last() == observed@[i as int]);
        }
        if observed[i].address == config.token_address {
            if acc > u128::MAX - observed[i].amount {
                proof {
                    lemma_sum_matching_prefix(observed@, config.token_address@, i + 1);
                }
                return Err(ContractError::ArithmeticFailure);
            }
            acc = acc + observed[i].amount;
        }
        i += 1;
    }
    proof {
        assert(observed@.subrange(0, n as int) =~= observed@);
    }
    if acc > config.total_supply {
        return Err(ContractError::ArithmeticFailure);
    }
    Ok(
        SupplyInfoResponse {
            total_supply: config.total_supply,
            claimed_supply: config.total_supply - acc,
            remaining_supply: acc,
        },
    )
}

/// Report the stored deposit pair of one depositor.
pub fn query_deposit_info(state: &ContractState, address: &String) -> (r: Result<
    DepositInfoResponse,
    ContractError,
>)
    ensures
        r == deposit_info_result(state.deposits@, address@),
{
    match state.deposits.get(address) {
        Some(dep) => Ok(DepositInfoResponse { red: dep.red_tokens, blue: dep.blue_tokens }),
        None => Err(ContractError::NotFound),
    }
}

/// Dispatch one query. `observed` is the live balance observation used by the
/// supply report.
pub fn query(state: &ContractState, observed: &Vec<CoinRecord>, msg: &QueryMsg) -> (r: Result<
    QueryAnswer,
    ContractError,
>)
    ensures
        match msg {
            QueryMsg::SupplyInfo => match r {
                Ok(ans) => ans matches QueryAnswer::Supply(info) && supply_info_result(
                    state.config,
                    observed@,
                ) == Ok::<SupplyInfoResponse, ContractError>(info),
                Err(e) => supply_info_result(state.config, observed@) == Err::<
                    SupplyInfoResponse,
                    ContractError,
                >(e),
            },
            QueryMsg::DepositInfo { address } => match r {
                Ok(ans) => ans matches QueryAnswer::Deposit(info) && deposit_info_result(
                    state.deposits@,
                    address@,
                ) == Ok::<DepositInfoResponse, ContractError>(info),
                Err(e) => deposit_info_result(state.deposits@, address@) == Err::<
                    DepositInfoResponse,
                    ContractError,
                >(e),
            },
        },
{
    match msg {
        QueryMsg::SupplyInfo => match query_supply_info(&state.config, observed) {
            Ok(info) => Ok(QueryAnswer::Supply(info)),
            Err(e) => Err(e),
        },
        QueryMsg::DepositInfo { address } => match query_deposit_info(state, address) {
            Ok(info) => Ok(QueryAnswer::Deposit(info)),
            Err(e) => Err(e),
        },
    }
}

/// Build the outbound instruction that moves `balance.amount` tokens of the
/// token contract `balance.address` from this contract to `to`.
pub fn send_cw20_tokens(to: &String, balance: &CoinRecord) -> (r: TransferInstruction)
    ensures
        r.contract_addr@ == balance.address@,
        r.recipient@ == to@,
        r.amount == balance.amount,
{
    TransferInstruction {
        contract_addr: balance.address.clone(),
        recipient: to.clone(),
        amount: balance.amount,
    }
}

} // verus!
