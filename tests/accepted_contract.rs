use dlc_manager::contract::{AcceptedLoanContract, DlcTransactions, OfferedContract, OfferedLoanContract};
use secp256k1_zkp::{PublicKey, SecretKey, SECP256K1};

fn empty_tx() -> bitcoin::Transaction {
    bitcoin::Transaction {
        version: bitcoin::transaction::Version::TWO,
        lock_time: bitcoin::absolute::LockTime::ZERO,
        input: Vec::new(),
        output: Vec::new(),
    }
}

fn params() -> dlc::PartyParams {
    dlc::PartyParams {
        fund_pubkey: PublicKey::from_secret_key(SECP256K1, &SecretKey::from_slice(&[2; 32]).unwrap()),
        change_script_pubkey: bitcoin::ScriptBuf::new(),
        change_serial_id: 1,
        payout_script_pubkey: bitcoin::ScriptBuf::new(),
        payout_serial_id: 2,
        inputs: Vec::new(),
        input_amount: 10,
        collateral: 5,
    }
}

#[test]
fn loan_conversion_keeps_base_fields() {
    let sig = secp256k1_zkp::ecdsa::Signature::from_compact(&[1u8; 64]).unwrap();
    let offered = OfferedContract {
        id: [8; 32],
        is_offer_party: false,
        contract_info: Vec::new(),
        counter_party: params().fund_pubkey,
        offer_params: params(),
        total_collateral: 5,
        funding_inputs: Vec::new(),
        fund_output_serial_id: 3,
        fee_rate_per_vb: 2,
        cet_locktime: 10,
        refund_locktime: 20,
        keys_id: [9; 32],
    };
    let loan = AcceptedLoanContract {
        offered_loan_contract: OfferedLoanContract {
            offered_contract: offered,
            collateral_ratio: 150,
            liquidation_ratio: 120,
            interest_rate: 5,
            duration: 60,
            lender_hash: [1; 32],
        },
        accept_params: params(),
        funding_inputs: Vec::new(),
        adaptor_infos: Vec::new(),
        adaptor_signatures: None,
        accept_refund_signature: sig,
        dlc_transactions: DlcTransactions {
            fund: empty_tx(),
            cets: vec![empty_tx()],
            refund: empty_tx(),
            funding_script_pubkey: vec![1, 2, 3],
        },
        escrow_txid: empty_tx().compute_txid(),
        borrower_hash: [2; 32],
        signed_escrow_spend_tx: empty_tx(),
    };
    let accepted = loan.clone().to_accepted_contract();
    assert_eq!(accepted.offered_contract.id, [8; 32]);
    assert_eq!(accepted.offered_contract.keys_id, [9; 32]);
    assert_eq!(accepted.accept_refund_signature, sig);
    assert_eq!(accepted.dlc_transactions.funding_script_pubkey, vec![1, 2, 3]);
    assert_eq!(accepted.dlc_transactions.cets.len(), 1);
    assert_eq!(accepted.accept_params.collateral, loan.accept_params.collateral);
    assert_eq!(accepted.accept_params.payout_serial_id, loan.accept_params.payout_serial_id);
    assert!(accepted.adaptor_signatures.is_none());
}
