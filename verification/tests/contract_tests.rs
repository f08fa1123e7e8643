use black::contract::{
    execute, execute_claim, execute_receive, instantiate, query, query_deposit_info,
    query_supply_info, send_cw20_tokens,
};
use black::error::ContractError;
use black::msg::{
    CoinRecord, DepositInfoResponse, ExecuteMsg, ExecuteOutcome, InstantiateMsg, QueryAnswer,
    QueryMsg, ReceiveMsg, SupplyInfoResponse, TransferEffect,
};
use black::state::ContractState;

const RED: &str = "contract0";
const BLUE: &str = "contract1";
const BLACK: &str = "contract2";

const ADMIN: &str = "admin";
const USER: &str = "user";

// Initial contract setup: the administrator instantiates the contract and
// funds it with 5000 of the distributed token through the same notification
// channel the depositors use.
fn setup_contract() -> ContractState {
    let mut state = instantiate(
        &ADMIN.to_string(),
        InstantiateMsg {
            red_token_address: RED.to_string(),
            blue_token_address: BLUE.to_string(),
            token_address: BLACK.to_string(),
            total_supply: 5000,
        },
    );

    let res = execute_receive(
        &mut state,
        &BLACK.to_string(),
        &ReceiveMsg { sender: ADMIN.to_string(), amount: 5000 },
    );
    assert!(res.is_ok());

    state
}

fn deposit(state: &mut ContractState, ledger: &str, from: &str, amount: u128) {
    let res = execute_receive(
        state,
        &ledger.to_string(),
        &ReceiveMsg { sender: from.to_string(), amount },
    );
    assert_eq!(res, Ok(TransferEffect::DepositCredit));
}

#[test]
fn proper_initialization() {
    setup_contract();
}

#[test]
fn try_deposit() {
    let mut state = setup_contract();

    // Send 5000 $RED
    let res = execute_receive(
        &mut state,
        &RED.to_string(),
        &ReceiveMsg { sender: USER.to_string(), amount: 5000 },
    );
    assert!(res.is_ok());
}

#[test]
fn try_claim() {
    let mut state = setup_contract();

    // Send 5000 $RED
    let res = execute_receive(
        &mut state,
        &RED.to_string(),
        &ReceiveMsg { sender: USER.to_string(), amount: 5000 },
    );
    assert!(res.is_ok());

    // Send 5000 $BLUE
    let res = execute_receive(
        &mut state,
        &BLUE.to_string(),
        &ReceiveMsg { sender: USER.to_string(), amount: 5000 },
    );
    assert!(res.is_ok());

    // Claim tokens
    let res = execute(&mut state, &USER.to_string(), ExecuteMsg::Claim);
    assert!(res.is_ok());

    let info = query_deposit_info(&state, &USER.to_string()).unwrap();
    assert!(info.red == 0);
    assert!(info.blue == 0);

    // The emitted instruction moves 5000 of the distributed token to the user.
    match res.unwrap() {
        ExecuteOutcome::Claimed(instr) => {
            assert_eq!(instr.amount, 5000);
            assert_eq!(instr.contract_addr, BLACK.to_string());
            assert_eq!(instr.recipient, USER.to_string());
        }
        ExecuteOutcome::Received(_) => panic!("claim reported as a deposit"),
    }
}

#[test]
fn try_claim_error() {
    let mut state = setup_contract();

    // Send 5000 $RED
    let res = execute_receive(
        &mut state,
        &RED.to_string(),
        &ReceiveMsg { sender: USER.to_string(), amount: 5000 },
    );
    assert!(res.is_ok());

    // Claim tokens
    let res = execute(&mut state, &USER.to_string(), ExecuteMsg::Claim);
    assert!(res.is_err());

    let info = query_deposit_info(&state, &USER.to_string()).unwrap();
    assert_eq!(info.red, 5000);
}

#[test]
fn instantiate_records_config() {
    let state = instantiate(
        &ADMIN.to_string(),
        InstantiateMsg {
            red_token_address: RED.to_string(),
            blue_token_address: BLUE.to_string(),
            token_address: BLACK.to_string(),
            total_supply: 5000,
        },
    );
    assert_eq!(state.config.admin, ADMIN.to_string());
    assert_eq!(state.config.red_token_address, RED.to_string());
    assert_eq!(state.config.blue_token_address, BLUE.to_string());
    assert_eq!(state.config.token_address, BLACK.to_string());
    assert_eq!(state.config.total_supply, 5000);
}

#[test]
fn first_deposit_sets_other_side_zero() {
    let mut state = setup_contract();
    deposit(&mut state, RED, USER, 5000);
    let info = query_deposit_info(&state, &USER.to_string()).unwrap();
    assert_eq!(info, DepositInfoResponse { red: 5000, blue: 0 });

    deposit(&mut state, BLUE, USER, 5000);
    let info = query_deposit_info(&state, &USER.to_string()).unwrap();
    assert_eq!(info, DepositInfoResponse { red: 5000, blue: 5000 });
}

#[test]
fn deposits_accumulate_interleaved() {
    let mut state = setup_contract();
    deposit(&mut state, RED, USER, 100);
    deposit(&mut state, BLUE, USER, 50);
    deposit(&mut state, RED, USER, 200);
    let info = query_deposit_info(&state, &USER.to_string()).unwrap();
    assert_eq!(info, DepositInfoResponse { red: 300, blue: 50 });

    // The same amounts in another interleaving give the same balances.
    let mut other = setup_contract();
    deposit(&mut other, BLUE, USER, 50);
    deposit(&mut other, RED, USER, 200);
    deposit(&mut other, RED, USER, 100);
    let info = query_deposit_info(&other, &USER.to_string()).unwrap();
    assert_eq!(info, DepositInfoResponse { red: 300, blue: 50 });
}

#[test]
fn unconfigured_ledger_rejected() {
    let mut state = setup_contract();
    let res = execute_receive(
        &mut state,
        &"mallory".to_string(),
        &ReceiveMsg { sender: USER.to_string(), amount: 5000 },
    );
    assert_eq!(res, Err(ContractError::Unauthorized));
    // No record was created.
    assert_eq!(
        query_deposit_info(&state, &USER.to_string()),
        Err(ContractError::NotFound)
    );
}

#[test]
fn admin_transfer_never_credits() {
    let mut state = setup_contract();
    // Even from a configured input ledger, the administrator's own transfer
    // is initial funding and touches no depositor record.
    let res = execute_receive(
        &mut state,
        &RED.to_string(),
        &ReceiveMsg { sender: ADMIN.to_string(), amount: 7777 },
    );
    assert_eq!(res, Ok(TransferEffect::AdminFunding));
    assert_eq!(
        query_deposit_info(&state, &ADMIN.to_string()),
        Err(ContractError::NotFound)
    );
}

#[test]
fn deposit_info_absent_record_not_found() {
    let state = setup_contract();
    assert_eq!(
        query_deposit_info(&state, &"nobody".to_string()),
        Err(ContractError::NotFound)
    );
}

#[test]
fn claim_without_record_not_found() {
    let mut state = setup_contract();
    let res = execute_claim(&mut state, &USER.to_string());
    assert_eq!(res.unwrap_err(), ContractError::NotFound);
}

#[test]
fn claim_with_one_empty_side_no_funds() {
    let mut state = setup_contract();
    deposit(&mut state, BLUE, USER, 5000);
    let res = execute_claim(&mut state, &USER.to_string());
    assert_eq!(res.unwrap_err(), ContractError::NoFunds);
    // The failed claim performed no mutation.
    let info = query_deposit_info(&state, &USER.to_string()).unwrap();
    assert_eq!(info, DepositInfoResponse { red: 0, blue: 5000 });
}

#[test]
fn second_claim_no_funds_and_no_mutation() {
    let mut state = setup_contract();
    deposit(&mut state, RED, USER, 5000);
    deposit(&mut state, BLUE, USER, 5000);

    let first = execute_claim(&mut state, &USER.to_string());
    assert_eq!(first.unwrap().amount, 5000);

    let second = execute_claim(&mut state, &USER.to_string());
    assert_eq!(second.unwrap_err(), ContractError::NoFunds);
    let info = query_deposit_info(&state, &USER.to_string()).unwrap();
    assert_eq!(info, DepositInfoResponse { red: 0, blue: 0 });
}

#[test]
fn claim_leaves_residual_of_larger_side() {
    let mut state = setup_contract();
    deposit(&mut state, RED, USER, 7000);
    deposit(&mut state, BLUE, USER, 5000);

    let res = execute_claim(&mut state, &USER.to_string());
    assert_eq!(res.unwrap().amount, 5000);
    let info = query_deposit_info(&state, &USER.to_string()).unwrap();
    assert_eq!(info, DepositInfoResponse { red: 2000, blue: 0 });

    // Raising both sides above zero again allows a further claim.
    deposit(&mut state, BLUE, USER, 1);
    let res = execute_claim(&mut state, &USER.to_string());
    assert_eq!(res.unwrap().amount, 1);
    let info = query_deposit_info(&state, &USER.to_string()).unwrap();
    assert_eq!(info, DepositInfoResponse { red: 1999, blue: 0 });
}

#[test]
fn deposit_overflow_fails_without_mutation() {
    let mut state = setup_contract();
    deposit(&mut state, RED, USER, u128::MAX);
    let res = execute_receive(
        &mut state,
        &RED.to_string(),
        &ReceiveMsg { sender: USER.to_string(), amount: 1 },
    );
    assert_eq!(res, Err(ContractError::ArithmeticFailure));
    let info = query_deposit_info(&state, &USER.to_string()).unwrap();
    assert_eq!(info, DepositInfoResponse { red: u128::MAX, blue: 0 });
}

#[test]
fn supply_info_reports_exact_amounts() {
    let state = setup_contract();
    let observed = vec![
        CoinRecord { address: BLACK.to_string(), amount: 2000 },
        CoinRecord { address: "other".to_string(), amount: 500 },
    ];
    let info = query_supply_info(&state.config, &observed).unwrap();
    assert_eq!(
        info,
        SupplyInfoResponse { total_supply: 5000, claimed_supply: 3000, remaining_supply: 2000 }
    );
}

#[test]
fn supply_info_sums_matching_observations() {
    let state = setup_contract();
    let observed = vec![
        CoinRecord { address: BLACK.to_string(), amount: 1000 },
        CoinRecord { address: BLACK.to_string(), amount: 500 },
    ];
    let info = query_supply_info(&state.config, &observed).unwrap();
    assert_eq!(
        info,
        SupplyInfoResponse { total_supply: 5000, claimed_supply: 3500, remaining_supply: 1500 }
    );
}

#[test]
fn supply_info_empty_observation_all_claimed() {
    let state = setup_contract();
    let info = query_supply_info(&state.config, &vec![]).unwrap();
    assert_eq!(
        info,
        SupplyInfoResponse { total_supply: 5000, claimed_supply: 5000, remaining_supply: 0 }
    );
}

#[test]
fn supply_info_excess_observation_fails() {
    let state = setup_contract();
    let observed = vec![CoinRecord { address: BLACK.to_string(), amount: 6000 }];
    let res = query_supply_info(&state.config, &observed);
    assert_eq!(res.unwrap_err(), ContractError::ArithmeticFailure);
}

#[test]
fn execute_dispatches_receive() {
    let mut state = setup_contract();
    let res = execute(
        &mut state,
        &RED.to_string(),
        ExecuteMsg::Receive(ReceiveMsg { sender: USER.to_string(), amount: 42 }),
    );
    match res.unwrap() {
        ExecuteOutcome::Received(eff) => assert_eq!(eff, TransferEffect::DepositCredit),
        ExecuteOutcome::Claimed(_) => panic!("deposit reported as a claim"),
    }
    let info = query_deposit_info(&state, &USER.to_string()).unwrap();
    assert_eq!(info, DepositInfoResponse { red: 42, blue: 0 });
}

#[test]
fn query_dispatches_both_requests() {
    let mut state = setup_contract();
    deposit(&mut state, RED, USER, 5000);

    let observed = vec![CoinRecord { address: BLACK.to_string(), amount: 5000 }];
    let ans = query(&state, &observed, &QueryMsg::SupplyInfo).unwrap();
    match ans {
        QueryAnswer::Supply(info) => {
            assert_eq!(
                info,
                SupplyInfoResponse {
                    total_supply: 5000,
                    claimed_supply: 0,
                    remaining_supply: 5000,
                }
            );
        }
        QueryAnswer::Deposit(_) => panic!("supply query answered with deposit info"),
    }

    let ans = query(&state, &observed, &QueryMsg::DepositInfo { address: USER.to_string() })
        .unwrap();
    match ans {
        QueryAnswer::Deposit(info) => {
            assert_eq!(info, DepositInfoResponse { red: 5000, blue: 0 });
        }
        QueryAnswer::Supply(_) => panic!("deposit query answered with supply info"),
    }
}

#[test]
fn depositors_are_tracked_independently() {
    let mut state = setup_contract();
    deposit(&mut state, RED, "alice", 100);
    deposit(&mut state, RED, "bob", 7);
    deposit(&mut state, BLUE, "alice", 40);
    deposit(&mut state, BLUE, "bob", 9);
    deposit(&mut state, RED, "alice", 1);

    let res = execute_claim(&mut state, &"alice".to_string());
    assert_eq!(res.unwrap().amount, 40);

    let info = query_deposit_info(&state, &"alice".to_string()).unwrap();
    assert_eq!(info, DepositInfoResponse { red: 61, blue: 0 });
    let info = query_deposit_info(&state, &"bob".to_string()).unwrap();
    assert_eq!(info, DepositInfoResponse { red: 7, blue: 9 });
}

#[test]
fn send_cw20_tokens_builds_instruction() {
    let instr = send_cw20_tokens(
        &USER.to_string(),
        &CoinRecord { address: BLACK.to_string(), amount: 123 },
    );
    assert_eq!(instr.contract_addr, BLACK.to_string());
    assert_eq!(instr.recipient, USER.to_string());
    assert_eq!(instr.amount, 123);
}
