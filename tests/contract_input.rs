use dlc_manager::contract_input::{
    ContractDescriptor, ContractInput, ContractInputInfo, EnumDescriptor, EnumerationPayout, LoanContractInput,
    OracleInput, Payout,
};
use dlc_manager::error::ContractError;
use secp256k1_zkp::{Keypair, SecretKey, XOnlyPublicKey, SECP256K1};

fn oracle_key(byte: u8) -> XOnlyPublicKey {
    let sk = SecretKey::from_slice(&[byte; 32]).unwrap();
    XOnlyPublicKey::from_keypair(&Keypair::from_secret_key(SECP256K1, &sk)).0
}

fn get_base_input() -> ContractInput {
    ContractInput {
        offer_collateral: 1000000,
        accept_collateral: 2000000,
        fee_rate: 1234,
        contract_infos: vec![ContractInputInfo {
            contract_descriptor: ContractDescriptor::Enum(EnumDescriptor {
                outcome_payouts: vec![
                    EnumerationPayout {
                        outcome: "A".to_string(),
                        payout: Payout { offer: 3000000, accept: 0 },
                    },
                    EnumerationPayout {
                        outcome: "B".to_string(),
                        payout: Payout { offer: 0, accept: 3000000 },
                    },
                ],
            }),
            oracles: OracleInput {
                public_keys: vec![oracle_key(1)],
                event_id: "1234".to_string(),
                threshold: 1,
            },
        }],
    }
}

fn get_loan_input() -> LoanContractInput {
    let base = get_base_input();
    LoanContractInput {
        collateral_ratio: 150,
        liquidation_ratio: 120,
        interest_rate: 5,
        duration: 86400,
        collateral: 2000000,
        fee_rate: base.fee_rate,
        contract_infos: base.contract_infos,
    }
}

#[test]
fn valid_contract_input_is_valid() {
    let input = get_base_input();
    input.validate().expect("the contract input to be valid.");
}

#[test]
fn no_contract_info_contract_input_is_not_valid() {
    let mut input = get_base_input();
    input.contract_infos.clear();
    input.validate().expect_err("the contract input to be invalid.");
}

#[test]
fn invalid_fee_rate_contract_input_is_not_valid() {
    let mut input = get_base_input();
    input.fee_rate = 251 * 25;
    input.validate().expect_err("the contract input to be invalid.");
}

#[test]
fn no_public_keys_oracle_input_contract_input_is_not_valid() {
    let mut input = get_base_input();
    input.contract_infos[0].oracles.public_keys.clear();
    input.validate().expect_err("the contract input to be invalid.");
}

#[test]
fn invalid_oracle_info_threshold_oracle_input_contract_input_is_not_valid() {
    let mut input = get_base_input();
    input.contract_infos[0].oracles.threshold = 2;
    input.validate().expect_err("the contract input to be invalid.");
}

#[test]
fn invalid_oracle_info_threshold_zero() {
    let mut input = get_base_input();
    input.contract_infos[0].oracles.threshold = 0;
    input.validate().expect_err("the contract input to be invalid.");
}

#[test]
fn fee_rate_at_the_bound_is_valid() {
    let mut input = get_base_input();
    input.fee_rate = 25 * 250;
    assert!(input.validate().is_ok());
    input.fee_rate = 25 * 250 + 1;
    assert!(matches!(input.validate(), Err(ContractError::InvalidParameters(_))));
}

#[test]
fn threshold_equal_to_key_count_is_valid() {
    let mut input = get_base_input();
    input.contract_infos[0].oracles.public_keys.push(oracle_key(2));
    input.contract_infos[0].oracles.threshold = 2;
    assert!(input.validate().is_ok());
    input.contract_infos[0].oracles.threshold = 3;
    assert!(input.validate().is_err());
}

#[test]
fn every_outcome_space_is_checked() {
    let mut input = get_base_input();
    let mut second = input.contract_infos[0].clone();
    second.oracles.threshold = 0;
    input.contract_infos.push(second);
    assert!(matches!(input.validate(), Err(ContractError::InvalidParameters(_))));
}

#[test]
fn valid_loan_input_is_valid() {
    assert!(get_loan_input().validate().is_ok());
}

#[test]
fn zero_interest_rate_loan_input_is_not_valid() {
    let mut input = get_loan_input();
    input.interest_rate = 0;
    assert!(matches!(input.validate(), Err(ContractError::InvalidParameters(_))));
    input.interest_rate = 101;
    assert!(input.validate().is_err());
    input.interest_rate = 100;
    assert!(input.validate().is_ok());
}

#[test]
fn zero_duration_loan_input_is_not_valid() {
    let mut input = get_loan_input();
    input.duration = 0;
    assert!(matches!(input.validate(), Err(ContractError::InvalidParameters(_))));
}

#[test]
fn loan_input_checks_contract_terms() {
    let mut input = get_loan_input();
    input.contract_infos.clear();
    assert!(input.validate().is_err());
    let mut input = get_loan_input();
    input.fee_rate = 7000;
    assert!(input.validate().is_err());
}
