//! Facts that relate the results of several transitions.
use crate::contract::{
    first_output_from, outputs_view, payout_to, same_accepted, same_transactions, AcceptedContract,
    AcceptedLoanContract, DlcTransactions, OfferedContractView, SignedContract,
};
use crate::contract_updater::{
    accept_signatures_valid, accepted_record, offer_signatures_valid, offer_signed_record, signatures_produced,
};
use crate::external::{fund_pubkey_of, pubkey_of};
use vstd::prelude::*;

verus! {

/// Both parties build the same transactions: the accepting party's record (as
/// `accept_contract` returns it) and the offering party's signed record (as
/// `verify_accepted_and_sign_contract` returns it), built from the same offer,
/// accepting party's parameters and transactions, hold the same fund, refund
/// and settlement transactions and the same funding script.
pub proof fn lemma_parties_build_same_transactions(
    offered: OfferedContractView,
    accept_params: dlc::PartyParams,
    txs: DlcTransactions,
    accept_side_inputs: Seq<dlc_messages::FundingInput>,
    offer_side_inputs: Seq<dlc_messages::FundingInput>,
    accepted: AcceptedContract,
    refund_signature: secp256k1_zkp::ecdsa::Signature,
    cet_adaptor_signatures: Seq<secp256k1_zkp::EcdsaAdaptorSignature>,
    funding_signatures: dlc_messages::FundingSignatures,
    channel_id: Option<[u8; 32]>,
    offer_signed: SignedContract,
)
    requires
        accepted_record(offered, accept_params, accept_side_inputs, txs, accepted),
        offer_signed_record(
            offered,
            accept_params,
            offer_side_inputs,
            txs,
            refund_signature,
            cet_adaptor_signatures,
            funding_signatures,
            channel_id,
            offer_signed,
        ),
    ensures
        same_transactions(accepted.dlc_transactions, offer_signed.accepted_contract.dlc_transactions),
{
}

/// A round trip ends with the same transactions on both sides: after
/// `accept_contract`, `verify_accepted_and_sign_contract` and
/// `verify_signed_contract`, the offering party's signed record and the
/// accepting party's signed record hold the same transactions.
pub proof fn lemma_round_trip_same_transactions(
    offered: OfferedContractView,
    accept_params: dlc::PartyParams,
    txs: DlcTransactions,
    funding_inputs: Seq<dlc_messages::FundingInput>,
    accepted: AcceptedContract,
    refund_signature: secp256k1_zkp::ecdsa::Signature,
    cet_adaptor_signatures: Seq<secp256k1_zkp::EcdsaAdaptorSignature>,
    funding_signatures: dlc_messages::FundingSignatures,
    channel_id: Option<[u8; 32]>,
    offer_signed: SignedContract,
    accept_signed: SignedContract,
)
    requires
        accepted_record(offered, accept_params, funding_inputs, txs, accepted),
        offer_signed_record(
            offered,
            accept_params,
            funding_inputs,
            txs,
            refund_signature,
            cet_adaptor_signatures,
            funding_signatures,
            channel_id,
            offer_signed,
        ),
        same_accepted(accept_signed.accepted_contract, accepted),
    ensures
        same_transactions(offer_signed.accepted_contract.dlc_transactions, accept_signed.accepted_contract.dlc_transactions),
        offer_signed.accepted_contract.offered_contract@ == accept_signed.accepted_contract.offered_contract@,
        offer_signed.accepted_contract.adaptor_infos@ == accept_signed.accepted_contract.adaptor_infos@,
{
}

/// The contract id does not depend on the stage: a signed record that wraps
/// an accepted record (as `verify_signed_contract` returns it) has its id,
/// and the offering party's signed record has the id of the accepting
/// party's accepted record.
pub proof fn lemma_contract_id_stable(
    offered: OfferedContractView,
    accept_params: dlc::PartyParams,
    txs: DlcTransactions,
    funding_inputs: Seq<dlc_messages::FundingInput>,
    accepted: AcceptedContract,
    refund_signature: secp256k1_zkp::ecdsa::Signature,
    cet_adaptor_signatures: Seq<secp256k1_zkp::EcdsaAdaptorSignature>,
    funding_signatures: dlc_messages::FundingSignatures,
    channel_id: Option<[u8; 32]>,
    offer_signed: SignedContract,
    accept_signed: SignedContract,
)
    requires
        accepted_record(offered, accept_params, funding_inputs, txs, accepted),
        offer_signed_record(
            offered,
            accept_params,
            funding_inputs,
            txs,
            refund_signature,
            cet_adaptor_signatures,
            funding_signatures,
            channel_id,
            offer_signed,
        ),
        same_accepted(accept_signed.accepted_contract, accepted),
    ensures
        accept_signed.accepted_contract.contract_id() == accepted.contract_id(),
        offer_signed.accepted_contract.contract_id() == accepted.contract_id(),
{
}

/// An honest accepting party passes the offering party's checks: the
/// signatures that `accept_contract` returns with the key of the accepting
/// party's parameters verify for that key, so that
/// `verify_accepted_and_sign_contract` succeeds on them.
pub proof fn lemma_honest_accept_verifies(
    offered: OfferedContractView,
    accept_params: dlc::PartyParams,
    txs: DlcTransactions,
    funding_inputs: Seq<dlc_messages::FundingInput>,
    accept_sk: secp256k1_zkp::SecretKey,
    accepted: AcceptedContract,
    accept_sigs: Seq<secp256k1_zkp::EcdsaAdaptorSignature>,
)
    requires
        accepted_record(offered, accept_params, funding_inputs, txs, accepted),
        signatures_produced(
            offered,
            accept_params,
            txs,
            txs.funding_script_pubkey@,
            txs.fund_output_value_spec(),
            accept_sk,
            accepted.accept_refund_signature,
            accept_sigs,
        ),
        pubkey_of(accept_sk) == fund_pubkey_of(accept_params),
    ensures
        accept_signatures_valid(offered, accept_params, txs, accepted.accept_refund_signature, accept_sigs),
{
}

/// An honest offering party passes the accepting party's checks: the
/// signatures that `verify_accepted_and_sign_contract` returns with the key of
/// the offering party's parameters verify, on the accepting party's record of
/// the same transactions, so that `verify_signed_contract` succeeds on them.
pub proof fn lemma_honest_sign_verifies(
    offered: OfferedContractView,
    accept_params: dlc::PartyParams,
    txs: DlcTransactions,
    accept_side_inputs: Seq<dlc_messages::FundingInput>,
    offer_side_inputs: Seq<dlc_messages::FundingInput>,
    accepted: AcceptedContract,
    refund_signature: secp256k1_zkp::ecdsa::Signature,
    cet_adaptor_signatures: Seq<secp256k1_zkp::EcdsaAdaptorSignature>,
    funding_signatures: dlc_messages::FundingSignatures,
    channel_id: Option<[u8; 32]>,
    offer_sk: secp256k1_zkp::SecretKey,
    offer_signed: SignedContract,
    offer_sigs: Seq<secp256k1_zkp::EcdsaAdaptorSignature>,
)
    requires
        accepted_record(offered, accept_params, accept_side_inputs, txs, accepted),
        offer_signed_record(
            offered,
            accept_params,
            offer_side_inputs,
            txs,
            refund_signature,
            cet_adaptor_signatures,
            funding_signatures,
            channel_id,
            offer_signed,
        ),
        signatures_produced(
            offered,
            accept_params,
            txs,
            txs.funding_script_pubkey@,
            txs.fund_output_value_spec(),
            offer_sk,
            offer_signed.offer_refund_signature,
            offer_sigs,
        ),
        pubkey_of(offer_sk) == fund_pubkey_of(offered.offer_params),
    ensures
        offer_signatures_valid(
            accepted,
            offer_signed.offer_refund_signature,
            offer_sigs,
            accepted.dlc_transactions.fund_output_value_spec(),
            accepted.dlc_transactions.funding_script_pubkey@,
            fund_pubkey_of(accepted.offered_contract.offer_params),
        ),
{
}

/// Converting a loan record keeps its contract id.
pub proof fn lemma_loan_conversion_keeps_id(loan: AcceptedLoanContract)
    ensures
        loan.base().contract_id() == loan.contract_id(),
        loan.base().own_params() == loan.own_params(),
{
}

/// Where no output pays to the script, the payout is zero.
pub proof fn lemma_no_matching_output_pays_nothing(outs: Seq<(Seq<u8>, u64)>, script: Seq<u8>)
    requires
        forall|k: int| 0 <= k < outs.len() ==> (#[trigger] outs[k]).0 != script,
    ensures
        payout_to(outs, script) == 0,
{
    lemma_no_match_from(outs, script, 0);
}

proof fn lemma_no_match_from(outs: Seq<(Seq<u8>, u64)>, script: Seq<u8>, i: int)
    requires
        0 <= i,
        forall|k: int| 0 <= k < outs.len() ==> (#[trigger] outs[k]).0 != script,
    ensures
        first_output_from(outs, script, i) is None,
    decreases outs.len() - i,
{
    if i < outs.len() {
        lemma_no_match_from(outs, script, i + 1);
    }
}

/// Profit and loss of a party over plain outputs: zero where the first output
/// paying to its script holds exactly its collateral, and minus its collateral
/// where no output pays to its script.
pub proof fn lemma_pnl_break_even_and_full_loss(outs: Seq<(Vec<u8>, u64)>, script: Seq<u8>, collateral: u64)
    ensures
        payout_to(outputs_view(outs), script) == collateral ==> payout_to(outputs_view(outs), script) - collateral
            == 0,
        (forall|k: int| 0 <= k < outs.len() ==> (#[trigger] outs[k]).0@ != script) ==> payout_to(
            outputs_view(outs),
            script,
        ) - collateral == -collateral,
{
    if forall|k: int| 0 <= k < outs.len() ==> (#[trigger] outs[k]).0@ != script {
        assert forall|k: int| 0 <= k < outputs_view(outs).len() implies (#[trigger] outputs_view(outs)[k]).0
            != script by {
            assert(outputs_view(outs)[k].0 == outs[k].0@);
        }
        lemma_no_matching_output_pays_nothing(outputs_view(outs), script);
    }
}

} // verus!
