use bitcoin::{Amount, OutPoint, ScriptBuf, Transaction, TxOut};
use dlc::{PartyParams, TxInputInfo};
use dlc_manager::contract::{compute_id, id_to_string, pnl_for_outputs, AcceptedContract, OfferedContract};
use dlc_manager::contract_input::{
    ContractDescriptor, ContractInput, ContractInputInfo, EnumDescriptor, EnumerationPayout, LoanContractInput,
    OracleInput, Payout,
};
use dlc_manager::contract_updater::{
    accept_contract, accept_loan_contract_internal, get_signed_cet, get_signed_refund, offer_contract,
    offer_loan_contract, verify_accepted_and_sign_contract, verify_accepted_and_sign_loan_contract,
    verify_signed_contract,
};
use dlc_manager::error::ContractError;
use dlc_messages::oracle_msgs::{EnumEventDescriptor, EventDescriptor, OracleAnnouncement, OracleAttestation, OracleEvent};
use dlc_messages::FundingSignatures;
use secp256k1_zkp::{Keypair, Message, PublicKey, SecretKey, XOnlyPublicKey, SECP256K1};

const OFFER_SK: [u8; 32] = [7; 32];
const ACCEPT_SK: [u8; 32] = [9; 32];
const ORACLE_SK: [u8; 32] = [3; 32];
const NONCE_SK: [u8; 32] = [5; 32];

fn keypair(bytes: [u8; 32]) -> Keypair {
    Keypair::from_secret_key(SECP256K1, &SecretKey::from_slice(&bytes).unwrap())
}

fn script(tag: u8) -> ScriptBuf {
    let mut bytes = vec![0x00, 0x14];
    bytes.extend_from_slice(&[tag; 20]);
    ScriptBuf::from_bytes(bytes)
}

fn outcome_message(outcome: &str) -> Message {
    let digest = <bitcoin::hashes::sha256::Hash as bitcoin::hashes::Hash>::hash(outcome.as_bytes());
    Message::from_digest(bitcoin::hashes::Hash::to_byte_array(digest))
}

fn announcement() -> OracleAnnouncement {
    let oracle = keypair(ORACLE_SK);
    let nonce = XOnlyPublicKey::from_keypair(&keypair(NONCE_SK)).0;
    OracleAnnouncement {
        announcement_signature: SECP256K1.sign_schnorr_no_aux_rand(&outcome_message("announce"), &oracle),
        oracle_public_key: XOnlyPublicKey::from_keypair(&oracle).0,
        oracle_event: OracleEvent {
            oracle_nonces: vec![nonce],
            event_maturity_epoch: 1_700_000_000,
            event_descriptor: EventDescriptor::EnumEvent(EnumEventDescriptor {
                outcomes: vec!["A".to_string(), "B".to_string()],
            }),
            event_id: "event".to_string(),
        },
    }
}

fn attestation(outcome: &str, signed: &str) -> OracleAttestation {
    let oracle = keypair(ORACLE_SK);
    let sig = dlc::secp_utils::schnorrsig_sign_with_nonce(SECP256K1, &outcome_message(signed), &oracle, &NONCE_SK);
    OracleAttestation {
        event_id: "event".to_string(),
        oracle_public_key: XOnlyPublicKey::from_keypair(&oracle).0,
        signatures: vec![sig],
        outcomes: vec![outcome.to_string()],
    }
}

fn contract_input() -> ContractInput {
    ContractInput {
        offer_collateral: 1000000,
        accept_collateral: 2000000,
        fee_rate: 2,
        contract_infos: vec![ContractInputInfo {
            contract_descriptor: ContractDescriptor::Enum(EnumDescriptor {
                outcome_payouts: vec![
                    EnumerationPayout { outcome: "A".to_string(), payout: Payout { offer: 3000000, accept: 0 } },
                    EnumerationPayout { outcome: "B".to_string(), payout: Payout { offer: 0, accept: 3000000 } },
                ],
            }),
            oracles: OracleInput {
                public_keys: vec![XOnlyPublicKey::from_keypair(&keypair(ORACLE_SK)).0],
                event_id: "event".to_string(),
                threshold: 1,
            },
        }],
    }
}

fn party_params(sk: [u8; 32], tag: u8, collateral: u64) -> PartyParams {
    let txid = <bitcoin::Txid as bitcoin::hashes::Hash>::from_byte_array([tag; 32]);
    PartyParams {
        fund_pubkey: PublicKey::from_secret_key(SECP256K1, &SecretKey::from_slice(&sk).unwrap()),
        change_script_pubkey: script(tag),
        change_serial_id: tag as u64 * 10 + 1,
        payout_script_pubkey: script(tag + 1),
        payout_serial_id: tag as u64 * 10 + 2,
        inputs: vec![TxInputInfo {
            outpoint: OutPoint { txid, vout: 0 },
            max_witness_len: 108,
            redeem_script: ScriptBuf::new(),
            serial_id: tag as u64 * 10 + 3,
        }],
        input_amount: 5000000,
        collateral,
    }
}

fn offered(counter_party: PublicKey) -> OfferedContract {
    offer_contract(
        &contract_input(),
        &vec![vec![announcement()]],
        86400,
        &counter_party,
        party_params(OFFER_SK, 10, 1000000),
        Vec::new(),
        [4; 32],
        [6; 32],
        77,
    )
    .expect("a valid offer")
}

fn secret(bytes: [u8; 32]) -> SecretKey {
    SecretKey::from_slice(&bytes).unwrap()
}

fn no_funding_signatures() -> FundingSignatures {
    FundingSignatures { funding_signatures: Vec::new() }
}

fn accepted_pair() -> (OfferedContract, AcceptedContract, Vec<secp256k1_zkp::EcdsaAdaptorSignature>) {
    let offer = offered(PublicKey::from_secret_key(SECP256K1, &secret(ACCEPT_SK)));
    let accept_params = party_params(ACCEPT_SK, 20, 2000000);
    let (accepted, sigs) = accept_contract(&offer, &accept_params, &Vec::new(), &secret(ACCEPT_SK)).expect("accepted");
    (offer, accepted, sigs)
}

#[test]
fn accept_contract_test() {
    let dummy_pubkey: PublicKey =
        "02e6642fd69bd211f93f7f1f36ca51a26a5290eb2dd1b0d8279a87bb0d480c8443".parse().unwrap();
    let offer = offered(dummy_pubkey);
    let accept_params = party_params(ACCEPT_SK, 20, offer.total_collateral - 1000000);
    accept_contract(&offer, &accept_params, &Vec::new(), &secret(ACCEPT_SK)).expect("Not to fail");
}

#[test]
fn offer_contract_sets_lock_times_and_collateral() {
    let offer = offered(PublicKey::from_secret_key(SECP256K1, &secret(ACCEPT_SK)));
    assert_eq!(offer.total_collateral, 3000000);
    assert_eq!(offer.cet_locktime, 1_700_000_000);
    assert_eq!(offer.refund_locktime, 1_700_000_000 + 86400);
    assert!(offer.is_offer_party);
    assert_eq!(offer.contract_info.len(), 1);
    assert_eq!(offer.contract_info[0].threshold, 1);
    assert_eq!(offer.contract_info[0].get_payouts(), vec![Payout { offer: 3000000, accept: 0 }, Payout { offer: 0, accept: 3000000 }]);
}

#[test]
fn offer_contract_rejects_invalid_terms() {
    let pk = PublicKey::from_secret_key(SECP256K1, &secret(ACCEPT_SK));
    let mut input = contract_input();
    input.contract_infos.clear();
    let r = offer_contract(&input, &Vec::new(), 10, &pk, party_params(OFFER_SK, 10, 1), Vec::new(), [0; 32], [0; 32], 1);
    assert!(matches!(r, Err(ContractError::InvalidParameters(_))));
    let mut input = contract_input();
    input.fee_rate = 6251;
    let r = offer_contract(&input, &vec![vec![announcement()]], 10, &pk, party_params(OFFER_SK, 10, 1), Vec::new(), [0; 32], [0; 32], 1);
    assert!(matches!(r, Err(ContractError::InvalidParameters(_))));
    let r = offer_contract(&contract_input(), &Vec::new(), 10, &pk, party_params(OFFER_SK, 10, 1), Vec::new(), [0; 32], [0; 32], 1);
    assert!(matches!(r, Err(ContractError::InvalidParameters(_))));
}

#[test]
fn offer_contract_rejects_overflowing_refund_time() {
    let pk = PublicKey::from_secret_key(SECP256K1, &secret(ACCEPT_SK));
    let r = offer_contract(&contract_input(), &vec![vec![announcement()]], u32::MAX, &pk, party_params(OFFER_SK, 10, 1000000), Vec::new(), [0; 32], [0; 32], 1);
    assert!(matches!(r, Err(ContractError::OutOfRange)));
    let r = offer_contract(&contract_input(), &vec![vec![announcement()]], 10, &pk, party_params(OFFER_SK, 10, 1), Vec::new(), [0; 32], [0; 32], 1);
    assert!(matches!(r, Err(ContractError::InvalidParameters(_))));
}

#[test]
fn offer_loan_contract_commits_to_the_preimage() {
    let pk = PublicKey::from_secret_key(SECP256K1, &secret(ACCEPT_SK));
    let base = contract_input();
    let loan = LoanContractInput {
        collateral_ratio: 150,
        liquidation_ratio: 120,
        interest_rate: 5,
        duration: 3600,
        collateral: 3000000,
        fee_rate: 2,
        contract_infos: base.contract_infos,
    };
    let offer = offer_loan_contract(&loan, &vec![vec![announcement()]], 10, &pk, 42, party_params(OFFER_SK, 10, 0), [1; 32], [2; 32], 3)
        .expect("a valid loan offer");
    let digest = <bitcoin::hashes::sha256::Hash as bitcoin::hashes::Hash>::hash(&42u128.to_be_bytes());
    assert_eq!(offer.lender_hash, bitcoin::hashes::Hash::to_byte_array(digest));
    assert_eq!(offer.offered_contract.total_collateral, 3000000);
    assert_eq!(offer.interest_rate, 5);
    let mut bad = loan.clone();
    bad.duration = 0;
    let r = offer_loan_contract(&bad, &vec![vec![announcement()]], 10, &pk, 42, party_params(OFFER_SK, 10, 0), [1; 32], [2; 32], 3);
    assert!(matches!(r, Err(ContractError::InvalidParameters(_))));
}

#[test]
fn accepted_contract_lays_out_adaptor_infos() {
    let (_, accepted, sigs) = accepted_pair();
    assert_eq!(sigs.len(), 2);
    assert_eq!(accepted.dlc_transactions.cets.len(), 2);
    assert_eq!(accepted.adaptor_infos.len(), 1);
    assert_eq!(accepted.adaptor_infos[0].adaptor_index_start, 0);
    assert_eq!(accepted.adaptor_infos[0].nb_outcomes, 2);
    assert!(accepted.adaptor_signatures.is_none());
}

#[test]
fn round_trip_yields_identical_transactions() {
    let (offer, accepted, accept_sigs) = accepted_pair();
    let accept_params = party_params(ACCEPT_SK, 20, 2000000);
    let (signed_offer, offer_sigs) = verify_accepted_and_sign_contract(
        &offer,
        &accept_params,
        &Vec::new(),
        &accepted.accept_refund_signature,
        &accept_sigs,
        &secret(OFFER_SK),
        no_funding_signatures(),
    )
    .expect("the accepting party's signatures verify");
    let (signed_accept, fund) = verify_signed_contract(
        &accepted,
        &signed_offer.offer_refund_signature,
        &offer_sigs,
        &no_funding_signatures(),
    )
    .expect("the offering party's signatures verify");
    let a = &signed_offer.accepted_contract.dlc_transactions;
    let b = &signed_accept.accepted_contract.dlc_transactions;
    assert_eq!(a.fund, b.fund);
    assert_eq!(a.cets, b.cets);
    assert_eq!(a.refund, b.refund);
    assert_eq!(a.funding_script_pubkey, b.funding_script_pubkey);
    assert_eq!(fund, accepted.dlc_transactions.fund);
    assert_eq!(signed_offer.get_contract_id(), signed_accept.get_contract_id());
    assert_eq!(signed_accept.get_contract_id(), accepted.get_contract_id());
}

#[test]
fn swapped_adaptor_signatures_are_rejected() {
    let (offer, accepted, mut accept_sigs) = accepted_pair();
    accept_sigs.swap(0, 1);
    let r = verify_accepted_and_sign_contract(
        &offer,
        &party_params(ACCEPT_SK, 20, 2000000),
        &Vec::new(),
        &accepted.accept_refund_signature,
        &accept_sigs,
        &secret(OFFER_SK),
        no_funding_signatures(),
    );
    assert!(matches!(r, Err(ContractError::DlcError(_))));
}

#[test]
fn missing_adaptor_signature_is_rejected() {
    let (offer, accepted, mut accept_sigs) = accepted_pair();
    accept_sigs.pop();
    let r = verify_accepted_and_sign_contract(
        &offer,
        &party_params(ACCEPT_SK, 20, 2000000),
        &Vec::new(),
        &accepted.accept_refund_signature,
        &accept_sigs,
        &secret(OFFER_SK),
        no_funding_signatures(),
    );
    assert!(matches!(r, Err(ContractError::InvalidParameters(_))));
}

#[test]
fn wrong_refund_signature_is_rejected() {
    let (offer, accepted, accept_sigs) = accepted_pair();
    let (signed_offer, offer_sigs) = verify_accepted_and_sign_contract(
        &offer,
        &party_params(ACCEPT_SK, 20, 2000000),
        &Vec::new(),
        &accepted.accept_refund_signature,
        &accept_sigs,
        &secret(OFFER_SK),
        no_funding_signatures(),
    )
    .unwrap();
    // The accepting party's own refund signature is not the offering party's.
    let r = verify_signed_contract(&accepted, &accepted.accept_refund_signature, &offer_sigs, &no_funding_signatures());
    assert!(r.is_err());
    let r = verify_signed_contract(&accepted, &signed_offer.offer_refund_signature, &accept_sigs, &no_funding_signatures());
    assert!(r.is_err());
}

fn counter_signature_verifies(cet: &Transaction, accepted: &AcceptedContract, counter: &PublicKey) -> bool {
    let funding_script = ScriptBuf::from_bytes(accepted.dlc_transactions.funding_script_pubkey.clone());
    let fund_output_script = funding_script.to_p2wsh();
    let value = accepted.dlc_transactions.fund.output.iter().find(|o| o.script_pubkey == fund_output_script).unwrap().value.to_sat();
    let witness = cet.input[0].witness.to_vec();
    assert_eq!(witness.len(), 4);
    witness[1..3].iter().any(|w| {
        let sig = secp256k1_zkp::ecdsa::Signature::from_der(&w[..w.len() - 1]).unwrap();
        dlc::verify_tx_input_sig(SECP256K1, &sig, cet, 0, &funding_script, value, counter).is_ok()
    })
}

#[test]
fn completed_signature_spends_the_attested_cet() {
    let (offer, accepted, accept_sigs) = accepted_pair();
    let (signed_offer, _) = verify_accepted_and_sign_contract(
        &offer,
        &party_params(ACCEPT_SK, 20, 2000000),
        &Vec::new(),
        &accepted.accept_refund_signature,
        &accept_sigs,
        &secret(OFFER_SK),
        no_funding_signatures(),
    )
    .unwrap();
    let info = &signed_offer.accepted_contract.offered_contract.contract_info[0];
    let adaptor_info = signed_offer.accepted_contract.adaptor_infos[0];
    let accept_pk = PublicKey::from_secret_key(SECP256K1, &secret(ACCEPT_SK));
    let cet = get_signed_cet(&signed_offer, info, &adaptor_info, &vec![(0, attestation("B", "B"))], &secret(OFFER_SK))
        .expect("a signed settlement transaction");
    assert_eq!(cet.compute_txid(), signed_offer.accepted_contract.dlc_transactions.cets[1].compute_txid());
    assert!(counter_signature_verifies(&cet, &signed_offer.accepted_contract, &accept_pk));
    // An attestation whose signature is for another outcome decrypts nothing valid.
    let r = get_signed_cet(&signed_offer, info, &adaptor_info, &vec![(0, attestation("B", "A"))], &secret(OFFER_SK));
    assert!(matches!(r, Err(ContractError::InvalidParameters(_))));
    // An attestation that claims another oracle index is refused.
    let r = get_signed_cet(&signed_offer, info, &adaptor_info, &vec![(1, attestation("B", "B"))], &secret(OFFER_SK));
    assert!(matches!(r, Err(ContractError::InvalidParameters(_))));
    // More attestations than attesting oracles are refused.
    let r = get_signed_cet(
        &signed_offer,
        info,
        &adaptor_info,
        &vec![(0, attestation("B", "B")), (1, attestation("B", "B"))],
        &secret(OFFER_SK),
    );
    assert!(matches!(r, Err(ContractError::InvalidParameters(_))));
    // The accepting side does not keep its own adaptor signatures.
    let mut missing = signed_offer.clone();
    missing.accepted_contract.adaptor_signatures = None;
    let r = get_signed_cet(&missing, info, &adaptor_info, &vec![(0, attestation("B", "B"))], &secret(OFFER_SK));
    assert!(matches!(r, Err(ContractError::InvalidState(_))));
    // An outcome that the contract does not know is refused.
    let r = get_signed_cet(&signed_offer, info, &adaptor_info, &vec![(0, attestation("C", "C"))], &secret(OFFER_SK));
    assert!(matches!(r, Err(ContractError::InvalidParameters(_))));
    let r = get_signed_cet(&signed_offer, info, &adaptor_info, &Vec::new(), &secret(OFFER_SK));
    assert!(matches!(r, Err(ContractError::InvalidParameters(_))));
}

#[test]
fn refund_is_signed_by_both_parties() {
    let (offer, accepted, accept_sigs) = accepted_pair();
    let (signed_offer, _) = verify_accepted_and_sign_contract(
        &offer,
        &party_params(ACCEPT_SK, 20, 2000000),
        &Vec::new(),
        &accepted.accept_refund_signature,
        &accept_sigs,
        &secret(OFFER_SK),
        no_funding_signatures(),
    )
    .unwrap();
    let refund = get_signed_refund(&signed_offer, &secret(OFFER_SK)).expect("a signed refund");
    assert_eq!(refund.compute_txid(), accepted.dlc_transactions.refund.compute_txid());
    assert_eq!(refund.input[0].witness.len(), 4);
}

#[test]
fn contract_id_string_has_prefix_and_hex() {
    let (_, accepted, _) = accepted_pair();
    let s = accepted.get_contract_id_string();
    assert_eq!(s.len(), 66);
    assert!(s.starts_with("0x"));
    let id = accepted.get_contract_id();
    let expected: String = id.iter().map(|b| format!("{:02x}", b)).collect();
    assert_eq!(&s[2..], expected);
}

#[test]
fn compute_id_xors_txid_index_and_temporary_id() {
    let mut txid = [0u8; 32];
    txid[31] = 0xff;
    txid[0] = 0x01;
    let temporary = [0x0f; 32];
    let id = compute_id(&txid, 0x0102, &temporary);
    assert_eq!(id[0], 0xff ^ 0x0f);
    assert_eq!(id[1], 0x0f);
    assert_eq!(id[30], 0x0f ^ 0x01);
    assert_eq!(id[31], 0x01 ^ 0x0f ^ 0x02);
    assert_eq!(id_to_string(&[0xab; 32]), format!("0x{}", "ab".repeat(32)));
}

fn tx_with_outputs(outputs: Vec<(ScriptBuf, u64)>) -> Transaction {
    Transaction {
        version: bitcoin::transaction::Version::TWO,
        lock_time: bitcoin::absolute::LockTime::ZERO,
        input: Vec::new(),
        output: outputs.into_iter().map(|(s, v)| TxOut { value: Amount::from_sat(v), script_pubkey: s }).collect(),
    }
}

#[test]
fn pnl_compute_test() {
    let (_, mut accepted, _) = accepted_pair();
    accepted.offered_contract.is_offer_party = false;
    accepted.accept_params.collateral = 11000000;
    let own = accepted.accept_params.payout_script_pubkey.clone();
    let first = tx_with_outputs(vec![(script(99), 5), (own.clone(), 101000000)]);
    let last = tx_with_outputs(vec![(script(99), 112000000)]);
    assert_eq!(accepted.compute_pnl(&first).unwrap(), 90000000);
    assert_eq!(accepted.compute_pnl(&last).unwrap(), -11000000);
}

#[test]
fn pnl_is_zero_when_payout_equals_collateral() {
    let script_bytes = vec![1u8, 2, 3];
    let outs = vec![(vec![9u8], 7u64), (script_bytes.clone(), 500), (script_bytes.clone(), 900)];
    assert_eq!(pnl_for_outputs(&outs, &script_bytes, 500).unwrap(), 0);
    assert_eq!(pnl_for_outputs(&outs, &vec![4u8], 500).unwrap(), -500);
    let big = vec![(script_bytes.clone(), u64::MAX)];
    assert!(matches!(pnl_for_outputs(&big, &script_bytes, 1), Err(ContractError::OutOfRange)));
    assert!(matches!(pnl_for_outputs(&outs, &script_bytes, u64::MAX), Err(ContractError::OutOfRange)));
}

#[test]
fn offer_side_pnl_uses_offer_params() {
    let (_, accepted, _) = accepted_pair();
    let own = accepted.offered_contract.offer_params.payout_script_pubkey.clone();
    let cet = tx_with_outputs(vec![(own, 3000000)]);
    assert_eq!(accepted.compute_pnl(&cet).unwrap(), 2000000);
}

#[test]
fn contract_id_follows_fund_transaction() {
    let (_, accepted, _) = accepted_pair();
    let txs = &accepted.dlc_transactions;
    let fund_script = ScriptBuf::from_bytes(txs.funding_script_pubkey.clone()).to_p2wsh();
    let vout = txs.fund.output.iter().position(|o| o.script_pubkey == fund_script).unwrap();
    assert_eq!(txs.get_fund_output_index(), vout);
    assert_eq!(txs.get_fund_output_value(), txs.fund.output[vout].value.to_sat());
    let txid = bitcoin::hashes::Hash::to_byte_array(txs.fund.compute_txid());
    let mut expected = [0u8; 32];
    for i in 0..32 {
        expected[i] = txid[31 - i] ^ accepted.offered_contract.id[i];
    }
    expected[30] ^= ((vout as u16) >> 8) as u8;
    expected[31] ^= ((vout as u16) & 0xff) as u8;
    assert_eq!(accepted.get_contract_id(), expected);
}

#[test]
fn two_outcome_spaces_share_one_flat_index() {
    let mut input = contract_input();
    let second = input.contract_infos[0].clone();
    input.contract_infos.push(second);
    let accept_pk = PublicKey::from_secret_key(SECP256K1, &secret(ACCEPT_SK));
    let offer = offer_contract(
        &input,
        &vec![vec![announcement()], vec![announcement()]],
        86400,
        &accept_pk,
        party_params(OFFER_SK, 10, 1000000),
        Vec::new(),
        [4; 32],
        [6; 32],
        77,
    )
    .unwrap();
    let accept_params = party_params(ACCEPT_SK, 20, 2000000);
    let (accepted, accept_sigs) = accept_contract(&offer, &accept_params, &Vec::new(), &secret(ACCEPT_SK)).unwrap();
    assert_eq!(accepted.dlc_transactions.cets.len(), 4);
    assert_eq!(accept_sigs.len(), 4);
    assert_eq!(accepted.adaptor_infos[1].adaptor_index_start, 2);
    assert_eq!(accepted.adaptor_infos[1].nb_outcomes, 2);
    assert_eq!(accepted.dlc_transactions.cets[2].input, accepted.dlc_transactions.cets[0].input);
    assert!(accepted.is_well_formed());
    let (signed_offer, offer_sigs) = verify_accepted_and_sign_contract(
        &offer,
        &accept_params,
        &Vec::new(),
        &accepted.accept_refund_signature,
        &accept_sigs,
        &secret(OFFER_SK),
        no_funding_signatures(),
    )
    .unwrap();
    assert_eq!(offer_sigs.len(), 4);
    let (signed_accept, _) =
        verify_signed_contract(&accepted, &signed_offer.offer_refund_signature, &offer_sigs, &no_funding_signatures()).unwrap();
    assert_eq!(signed_offer.accepted_contract.dlc_transactions.cets, signed_accept.accepted_contract.dlc_transactions.cets);
    // A signature of the second space moved into the first is refused.
    let mut mixed = offer_sigs.clone();
    mixed.swap(1, 2);
    assert!(verify_signed_contract(&accepted, &signed_offer.offer_refund_signature, &mixed, &no_funding_signatures()).is_err());
}

#[test]
fn loan_verification_uses_the_given_collateral_transactions() {
    let (offer, accepted, accept_sigs) = accepted_pair();
    let accept_params = party_params(ACCEPT_SK, 20, 2000000);
    let (signed, _) = verify_accepted_and_sign_loan_contract(
        &offer,
        &accept_params,
        &Vec::new(),
        &accepted.accept_refund_signature,
        &accept_sigs,
        &accepted.dlc_transactions,
        &secret(OFFER_SK),
        no_funding_signatures(),
    )
    .expect("the collateral transactions and signatures verify");
    assert_eq!(signed.accepted_contract.dlc_transactions.fund, accepted.dlc_transactions.fund);
    let mut malformed = accepted.dlc_transactions.clone();
    malformed.funding_script_pubkey = vec![0x51];
    let r = verify_accepted_and_sign_loan_contract(
        &offer,
        &accept_params,
        &Vec::new(),
        &accepted.accept_refund_signature,
        &accept_sigs,
        &malformed,
        &secret(OFFER_SK),
        no_funding_signatures(),
    );
    assert!(matches!(r, Err(ContractError::InvalidParameters(_))));
    let mut short = accepted.dlc_transactions.clone();
    short.cets.pop();
    let r = verify_accepted_and_sign_loan_contract(
        &offer,
        &accept_params,
        &Vec::new(),
        &accepted.accept_refund_signature,
        &accept_sigs,
        &short,
        &secret(OFFER_SK),
        no_funding_signatures(),
    );
    assert!(matches!(r, Err(ContractError::InvalidParameters(_))));
}

#[test]
fn accepted_loan_converts_to_accepted_contract() {
    let pk = PublicKey::from_secret_key(SECP256K1, &secret(ACCEPT_SK));
    let base = contract_input();
    let loan = LoanContractInput {
        collateral_ratio: 150,
        liquidation_ratio: 120,
        interest_rate: 5,
        duration: 3600,
        collateral: 3000000,
        fee_rate: 2,
        contract_infos: base.contract_infos,
    };
    let offer = offer_loan_contract(&loan, &vec![vec![announcement()]], 10, &pk, 42, party_params(OFFER_SK, 10, 0), [1; 32], [2; 32], 3)
        .unwrap();
    let accept_params = party_params(ACCEPT_SK, 20, 3000000);
    let (plain, _) = accept_contract(&offer.offered_contract, &accept_params, &Vec::new(), &secret(ACCEPT_SK)).unwrap();
    let txs = plain.dlc_transactions.clone();
    let value = txs.get_fund_output_value();
    let escrow_txid = txs.fund.compute_txid();
    let (accepted_loan, sigs) = accept_loan_contract_internal(
        &offer,
        &accept_params,
        &Vec::new(),
        &secret(ACCEPT_SK),
        value,
        None,
        &txs,
        escrow_txid,
        [5; 32],
        txs.refund.clone(),
    )
    .unwrap();
    assert_eq!(sigs.len(), 2);
    assert_eq!(accepted_loan.escrow_txid, escrow_txid);
    assert_eq!(accepted_loan.borrower_hash, [5; 32]);
    assert_eq!(accepted_loan.offered_loan_contract.interest_rate, 5);
    let id = accepted_loan.get_contract_id();
    let converted = accepted_loan.to_accepted_contract();
    assert_eq!(converted.get_contract_id(), id);
    assert_eq!(converted.get_contract_id(), plain.get_contract_id());
    assert_eq!(converted.dlc_transactions.cets, plain.dlc_transactions.cets);
    assert_eq!(converted.adaptor_infos, plain.adaptor_infos);
}

#[test]
fn accept_contract_checks_collateral() {
    let offer = offered(PublicKey::from_secret_key(SECP256K1, &secret(ACCEPT_SK)));
    let r = accept_contract(&offer, &party_params(ACCEPT_SK, 20, 1999999), &Vec::new(), &secret(ACCEPT_SK));
    assert!(matches!(r, Err(ContractError::InvalidParameters(_))));
}

#[test]
fn dust_collateral_is_refused() {
    let pk = PublicKey::from_secret_key(SECP256K1, &secret(ACCEPT_SK));
    let mut input = contract_input();
    input.offer_collateral = 300;
    input.accept_collateral = 200;
    input.contract_infos[0].contract_descriptor = ContractDescriptor::Enum(EnumDescriptor {
        outcome_payouts: vec![
            EnumerationPayout { outcome: "A".to_string(), payout: Payout { offer: 500, accept: 0 } },
            EnumerationPayout { outcome: "B".to_string(), payout: Payout { offer: 0, accept: 500 } },
        ],
    });
    let offer = offer_contract(&input, &vec![vec![announcement()]], 10, &pk, party_params(OFFER_SK, 10, 300), Vec::new(), [4; 32], [6; 32], 77)
        .unwrap();
    let r = accept_contract(&offer, &party_params(ACCEPT_SK, 20, 200), &Vec::new(), &secret(ACCEPT_SK));
    assert!(matches!(r, Err(ContractError::InvalidParameters(_))));
}
