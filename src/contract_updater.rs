//! The state transitions of a contract: offer, accept, verify-accept-and-sign
//! and verify-signed, their loan variants, and the signing of the settlement
//! and refund transactions of a signed contract.
use crate::adaptor::{all_points_exist, generated_sig_valid, outcome_sig_valid, space_sigs_valid};
use crate::external::{collateral_of, input_sig_of, party_collateral, pubkey_of, DUST_LIMIT};
use crate::contract::{same_accepted, AcceptedLoanContract, OfferedLoanContract, SignedContract};
use crate::external::{
    built_transactions, create_dlc_transactions, fund_pubkey_of, input_sig_valid, party_fund_pubkey, sign_first_input,
    verify_first_input_sig,
};
use crate::contract::{
    infos_view, AcceptedContract, AdaptorInfo, ContractInfo, ContractInfoView, DlcTransactions, OfferedContract,
    OfferedContractView,
};
use crate::contract_input::{
    contract_terms_valid, loan_terms_valid, ContractDescriptor, ContractInput, ContractInputInfo, EnumerationPayout,
    LoanContractInput,
};
use crate::error::ContractError;
use crate::external::{
    add_secrets, attestation_is_valid, attestation_outcomes, attestation_signatures, attestation_valid,
    attested_outcomes, attested_signatures, cet_completes, first_sigs, oracle_secret_upto, s_value_of, sign_cet,
    sign_multi_sig_input, tx_outputs, txid_of,
};
use crate::external::{announcement_maturity, be_bytes_u128, maturity_of, sha256, sha256_of, u128_to_be_bytes};
use crate::external::{
    built_cets, create_cets, party_payout_script, party_payout_serial_id, payout_script_of, payout_serial_id_of,
    tx_input_count,
};
use vstd::prelude::*;

verus! {

/// The number of outcomes of the first `n` outcome spaces.
pub open spec fn outcomes_before(infos: Seq<ContractInfoView>, n: int) -> int
    decreases n,
{
    if n <= 0 {
        0
    } else {
        outcomes_before(infos, n - 1) + infos[n - 1].outcomes().len()
    }
}

/// Where each outcome space sits in the flat sequence of settlement
/// transactions and adaptor signatures: the spaces one after the other, in
/// declaration order.
pub open spec fn expected_adaptor_infos(infos: Seq<ContractInfoView>) -> Seq<AdaptorInfo> {
    Seq::new(
        infos.len(),
        |i: int|
            AdaptorInfo {
                adaptor_index_start: outcomes_before(infos, i) as usize,
                nb_outcomes: infos[i].outcomes().len() as usize,
            },
    )
}

/// The settlement transactions of outcome space `i`, spending the same input as
/// `first_cet`.
pub open spec fn space_cets(
    offered: OfferedContractView,
    accept_params: dlc::PartyParams,
    first_cet: bitcoin::Transaction,
    i: int,
) -> Seq<bitcoin::Transaction> {
    built_cets(
        (
            first_cet,
            payout_script_of(offered.offer_params),
            payout_serial_id_of(offered.offer_params),
            payout_script_of(accept_params),
            payout_serial_id_of(accept_params),
            offered.contract_info[i].payouts_spec(),
        ),
    )
}

/// The settlement transactions of the first `n` outcome spaces: those of the
/// first space, `base`, then those of each later space in order.
pub open spec fn cets_upto(
    offered: OfferedContractView,
    accept_params: dlc::PartyParams,
    base: Seq<bitcoin::Transaction>,
    n: int,
) -> Seq<bitcoin::Transaction>
    decreases n,
{
    if n <= 1 {
        base
    } else {
        cets_upto(offered, accept_params, base, n - 1) + space_cets(offered, accept_params, base[0], n - 1)
    }
}

/// The settlement transactions of all outcome spaces.
pub open spec fn all_cets(
    offered: OfferedContractView,
    accept_params: dlc::PartyParams,
    base: Seq<bitcoin::Transaction>,
) -> Seq<bitcoin::Transaction> {
    cets_upto(offered, accept_params, base, offered.contract_info.len() as int)
}

/// The adaptor signatures of the first `n` outcome spaces all verify.
pub open spec fn spaces_valid(
    infos: Seq<ContractInfoView>,
    pubkey: secp256k1_zkp::PublicKey,
    script: Seq<u8>,
    value: u64,
    cets: Seq<bitcoin::Transaction>,
    sigs: Seq<secp256k1_zkp::EcdsaAdaptorSignature>,
    n: int,
) -> bool {
    forall|i: int|
        0 <= i < n ==> #[trigger] space_sigs_valid(infos[i], pubkey, script, value, cets, sigs, outcomes_before(infos, i))
}

/// Counting outcomes over more spaces gives no fewer.
pub proof fn lemma_outcomes_before_monotone(infos: Seq<ContractInfoView>, i: int, j: int)
    requires
        i <= j,
    ensures
        outcomes_before(infos, i) <= outcomes_before(infos, j),
    decreases j - i,
{
    if i < j {
        lemma_outcomes_before_monotone(infos, i, j - 1);
    }
}

/// Builds the settlement transactions of all outcome spaces from those of the
/// first: each later space gets one per outcome, spending the same input.
fn build_all_cets(
    offered: &OfferedContract,
    accept_params: &dlc::PartyParams,
    base: &Vec<bitcoin::Transaction>,
) -> (r: Result<Vec<bitcoin::Transaction>, ContractError>)
    requires
        offered.wf(),
        base@.len() == offered@.contract_info[0].outcomes().len(),
        forall|i: int| 0 <= i < base@.len() ==> tx_input_count(#[trigger] base@[i]) == 1,
    ensures
        r is Err <==> offered@.contract_info.len() > 1 && base@.len() == 0,
        r is Err ==> r->Err_0 is InvalidParameters,
        r is Ok ==> r->Ok_0@ == all_cets(offered@, *accept_params, base@),
        r is Ok ==> r->Ok_0@.len() == outcomes_before(offered@.contract_info, offered@.contract_info.len() as int),
        r is Ok ==> forall|i: int| 0 <= i < r->Ok_0@.len() ==> tx_input_count(#[trigger] r->Ok_0@[i]) == 1,
{
    let n = offered.contract_info.len();
    let ghost infos = offered@.contract_info;
    assert(outcomes_before(infos, 1) == outcomes_before(infos, 0) + infos[0].outcomes().len());
    if n > 1 && base.len() == 0 {
        return Err(ContractError::InvalidParameters("No settlement transaction to spend from.".to_string()));
    }
    let mut cets = base.clone();
    assert(cets@ =~= base@);
    if n <= 1 {
        return Ok(cets);
    }
    let offer_script = party_payout_script(&offered.offer_params);
    let offer_serial = party_payout_serial_id(&offered.offer_params);
    let accept_script = party_payout_script(accept_params);
    let accept_serial = party_payout_serial_id(accept_params);
    let mut i: usize = 1;
    while i < n
        invariant
            offered.wf(),
            n == offered@.contract_info.len(),
            infos == offered@.contract_info,
            1 <= i <= n,
            base@.len() > 0,
            forall|j: int| 0 <= j < base@.len() ==> tx_input_count(#[trigger] base@[j]) == 1,
            offer_script@ == payout_script_of(offered.offer_params),
            offer_serial == payout_serial_id_of(offered.offer_params),
            accept_script@ == payout_script_of(*accept_params),
            accept_serial == payout_serial_id_of(*accept_params),
            cets@ == cets_upto(offered@, *accept_params, base@, i as int),
            cets@.len() == outcomes_before(infos, i as int),
            forall|j: int| 0 <= j < cets@.len() ==> tx_input_count(#[trigger] cets@[j]) == 1,
        decreases n - i,
    {
        let payouts = offered.contract_info[i].get_payouts();
        let mut tmp = create_cets(&base[0], &offer_script, offer_serial, &accept_script, accept_serial, &payouts);
        let ghost old_cets = cets@;
        let ghost added = tmp@;
        cets.append(&mut tmp);
        proof {
            assert(added == space_cets(offered@, *accept_params, base@[0], i as int));
            assert(cets@ == old_cets + added);
            assert(forall|j: int| 0 <= j < cets@.len() ==> tx_input_count(#[trigger] cets@[j]) == 1) by {
                assert forall|j: int| 0 <= j < cets@.len() implies tx_input_count(#[trigger] cets@[j]) == 1 by {
                    if j >= old_cets.len() {
                        assert(cets@[j] == added[j - old_cets.len()]);
                    } else {
                        assert(cets@[j] == old_cets[j]);
                    }
                }
            }
        }
        i = i + 1;
    }
    Ok(cets)
}

/// Every outcome of every outcome space has an encryption point.
pub open spec fn contract_points_exist(infos: Seq<ContractInfoView>) -> bool {
    forall|i: int| 0 <= i < infos.len() ==> #[trigger] all_points_exist(infos[i])
}

/// Generates the adaptor signatures of every outcome space, one after the
/// other over the flat sequence of settlement transactions.
fn generate_all_sigs(
    infos: &Vec<ContractInfo>,
    funding_sk: &secp256k1_zkp::SecretKey,
    funding_script: &Vec<u8>,
    fund_output_value: u64,
    cets: &Vec<bitcoin::Transaction>,
) -> (r: Result<(Vec<AdaptorInfo>, Vec<secp256k1_zkp::EcdsaAdaptorSignature>), ContractError>)
    requires
        forall|i: int| 0 <= i < infos@.len() ==> (#[trigger] infos_view(infos@)[i]).wf(),
        outcomes_before(infos_view(infos@), infos@.len() as int) <= cets@.len(),
        forall|j: int| 0 <= j < cets@.len() ==> tx_input_count(#[trigger] cets@[j]) >= 1,
    ensures
        contract_points_exist(infos_view(infos@)) ==> r is Ok,
        r is Ok ==> r->Ok_0.0@ == expected_adaptor_infos(infos_view(infos@)),
        r is Ok ==> r->Ok_0.1@.len() == outcomes_before(infos_view(infos@), infos@.len() as int),
        r is Ok ==> spaces_valid(
            infos_view(infos@),
            pubkey_of(*funding_sk),
            funding_script@,
            fund_output_value,
            cets@,
            r->Ok_0.1@,
            infos@.len() as int,
        ),
{
    let n = infos.len();
    let ghost views = infos_view(infos@);
    let ghost pk = pubkey_of(*funding_sk);
    let mut adaptor_infos: Vec<AdaptorInfo> = Vec::new();
    let mut sigs: Vec<secp256k1_zkp::EcdsaAdaptorSignature> = Vec::new();
    let mut start: usize = 0;
    let mut i: usize = 0;
    while i < n
        invariant
            n == infos@.len(),
            views == infos_view(infos@),
            pk == pubkey_of(*funding_sk),
            forall|j: int| 0 <= j < infos@.len() ==> (#[trigger] infos_view(infos@)[j]).wf(),
            outcomes_before(views, n as int) <= cets.len(),
            forall|j: int| 0 <= j < cets@.len() ==> tx_input_count(#[trigger] cets@[j]) >= 1,
            i <= n,
            start == outcomes_before(views, i as int),
            sigs@.len() == start,
            adaptor_infos@ == expected_adaptor_infos(views).subrange(0, i as int),
            spaces_valid(views, pk, funding_script@, fund_output_value, cets@, sigs@, i as int),
        decreases n - i,
    {
        proof {
            lemma_outcomes_before_monotone(views, i as int + 1, n as int);
            assert(views[i as int] == infos@[i as int]@);
            assert(contract_points_exist(views) ==> all_points_exist(views[i as int]));
        }
        let (info, mut space_sigs) = match infos[i].get_adaptor_info(
            funding_sk,
            funding_script,
            fund_output_value,
            cets,
            start,
        ) {
            Ok(x) => x,
            Err(e) => return Err(e),
        };
        let ghost old_sigs = sigs@;
        let ghost new_sigs = space_sigs@;
        sigs.append(&mut space_sigs);
        proof {
            assert(sigs@ == old_sigs + new_sigs);
            assert forall|j: int| 0 <= j <= i implies #[trigger] space_sigs_valid(
                views[j],
                pk,
                funding_script@,
                fund_output_value,
                cets@,
                sigs@,
                outcomes_before(views, j),
            ) by {
                let st = outcomes_before(views, j);
                lemma_outcomes_before_monotone(views, 0, j);
                if j < i {
                    assert(space_sigs_valid(views[j], pk, funding_script@, fund_output_value, cets@, old_sigs, st));
                    lemma_outcomes_before_monotone(views, j + 1, i as int);
                    assert(outcomes_before(views, j + 1) == st + views[j].outcomes().len());
                    assert forall|k: int| 0 <= k < views[j].outcomes().len() implies #[trigger] outcome_sig_valid(
                        views[j],
                        pk,
                        funding_script@,
                        fund_output_value,
                        cets@,
                        sigs@,
                        st,
                        k,
                    ) by {
                        assert(outcome_sig_valid(views[j], pk, funding_script@, fund_output_value, cets@, old_sigs, st, k));
                        assert(old_sigs.len() == outcomes_before(views, i as int));
                        assert(st + k < old_sigs.len());
                        assert((old_sigs + new_sigs)[st + k] == old_sigs[st + k]);
                        assert(sigs@[st + k] == old_sigs[st + k]);
                    }
                } else {
                    assert forall|k: int| 0 <= k < views[j].outcomes().len() implies #[trigger] outcome_sig_valid(
                        views[j],
                        pk,
                        funding_script@,
                        fund_output_value,
                        cets@,
                        sigs@,
                        st,
                        k,
                    ) by {
                        assert(generated_sig_valid(views[j], pk, funding_script@, fund_output_value, cets@, new_sigs, st, k));
                        assert(sigs@[st + k] == new_sigs[k]);
                    }
                }
            }
        }
        adaptor_infos.push(info);
        start = start + infos[i].nb_outcomes();
        i = i + 1;
        assert(adaptor_infos@ =~= expected_adaptor_infos(views).subrange(0, i as int));
    }
    assert(adaptor_infos@ =~= expected_adaptor_infos(views));
    Ok((adaptor_infos, sigs))
}

/// Verifies the counter party's adaptor signatures of every outcome space, in
/// declaration order; the first one missing or invalid fails the whole set.
fn verify_all_sigs(
    infos: &Vec<ContractInfo>,
    pubkey: &secp256k1_zkp::PublicKey,
    funding_script: &Vec<u8>,
    fund_output_value: u64,
    cets: &Vec<bitcoin::Transaction>,
    sigs: &Vec<secp256k1_zkp::EcdsaAdaptorSignature>,
) -> (r: Result<(), ContractError>)
    requires
        forall|i: int| 0 <= i < infos@.len() ==> (#[trigger] infos_view(infos@)[i]).wf(),
        outcomes_before(infos_view(infos@), infos@.len() as int) <= cets@.len(),
    ensures
        r is Ok <==> spaces_valid(infos_view(infos@), *pubkey, funding_script@, fund_output_value, cets@, sigs@, infos@.len() as int),
{
    let n = infos.len();
    let mut start: usize = 0;
    let mut i: usize = 0;
    while i < n
        invariant
            n == infos@.len(),
            forall|j: int| 0 <= j < infos@.len() ==> (#[trigger] infos_view(infos@)[j]).wf(),
            outcomes_before(infos_view(infos@), n as int) <= cets.len(),
            i <= n,
            start == outcomes_before(infos_view(infos@), i as int),
            spaces_valid(infos_view(infos@), *pubkey, funding_script@, fund_output_value, cets@, sigs@, i as int),
        decreases n - i,
    {
        proof {
            lemma_outcomes_before_monotone(infos_view(infos@), i as int + 1, n as int);
            assert(infos_view(infos@)[i as int] == infos@[i as int]@);
        }
        let res = infos[i].verify_adaptor_info(pubkey, funding_script, fund_output_value, cets, sigs, start);
        match res {
            Ok(next) => {
                start = next;
            },
            Err(e) => {
                return Err(e);
            },
        }
        i = i + 1;
    }
    Ok(())
}

/// The accepted record that the accepting party builds from an offer, its own
/// parameters and funding inputs, and the transactions of the first outcome
/// space: settlement transactions of all spaces and their layout.
pub open spec fn accepted_record(
    offered: OfferedContractView,
    accept_params: dlc::PartyParams,
    funding_inputs: Seq<dlc_messages::FundingInput>,
    txs: DlcTransactions,
    accepted: AcceptedContract,
) -> bool {
    &&& accepted.offered_contract@ == offered
    &&& accepted.accept_params == accept_params
    &&& accepted.funding_inputs@ == funding_inputs
    &&& accepted.adaptor_infos@ == expected_adaptor_infos(offered.contract_info)
    &&& accepted.dlc_transactions.fund == txs.fund
    &&& accepted.dlc_transactions.refund == txs.refund
    &&& accepted.dlc_transactions.funding_script_pubkey@ == txs.funding_script_pubkey@
    &&& accepted.dlc_transactions.cets@ == all_cets(offered, accept_params, txs.cets@)
}

/// The signatures that a party produces with `sk` over the transactions of a
/// contract: its refund signature, deterministic and valid for its key, and
/// adaptor signatures of every outcome space, each valid for its key and
/// outcome.
pub open spec fn signatures_produced(
    offered: OfferedContractView,
    accept_params: dlc::PartyParams,
    txs: DlcTransactions,
    script: Seq<u8>,
    value: u64,
    sk: secp256k1_zkp::SecretKey,
    refund_signature: secp256k1_zkp::ecdsa::Signature,
    adaptor_signatures: Seq<secp256k1_zkp::EcdsaAdaptorSignature>,
) -> bool {
    &&& refund_signature == input_sig_of((txs.refund, script, value, sk))
    &&& input_sig_valid((refund_signature, txs.refund, script, value, pubkey_of(sk)))
    &&& spaces_valid(
        offered.contract_info,
        pubkey_of(sk),
        script,
        value,
        all_cets(offered, accept_params, txs.cets@),
        adaptor_signatures,
        offered.contract_info.len() as int,
    )
}

/// The settlement transactions of the later outcome spaces can be built: the
/// first space has some, or there is no later space.
pub open spec fn later_cets_buildable(offered: OfferedContractView, txs: DlcTransactions) -> bool {
    offered.contract_info.len() <= 1 || txs.cets@.len() > 0
}

/// Builds the accepting party's record: the settlement transactions of all
/// outcome spaces, the accepting party's adaptor signatures for each of them
/// (returned, not kept), and its refund signature. The funding output is
/// locked by `input_script_pubkey`, by default the funding script.
pub fn accept_contract_internal(
    offered_contract: &OfferedContract,
    accept_params: &dlc::PartyParams,
    funding_inputs: &Vec<dlc_messages::FundingInput>,
    adaptor_secret_key: &secp256k1_zkp::SecretKey,
    input_value: u64,
    input_script_pubkey: Option<&Vec<u8>>,
    dlc_transactions: &DlcTransactions,
) -> (r: Result<(AcceptedContract, Vec<secp256k1_zkp::EcdsaAdaptorSignature>), ContractError>)
    requires
        offered_contract.wf(),
        dlc_transactions.wf(),
        dlc_transactions.cets@.len() == offered_contract@.contract_info[0].outcomes().len(),
    ensures
        offered_contract@.contract_info.len() > 1 && dlc_transactions.cets@.len() == 0 ==> r is Err,
        later_cets_buildable(offered_contract@, *dlc_transactions) && contract_points_exist(
            offered_contract@.contract_info,
        ) ==> r is Ok,
        r is Ok ==> signatures_produced(
            offered_contract@,
            *accept_params,
            *dlc_transactions,
            input_script_spec(input_script_pubkey, *dlc_transactions),
            input_value,
            *adaptor_secret_key,
            r->Ok_0.0.accept_refund_signature,
            r->Ok_0.1@,
        ),
        r is Ok ==> accepted_record(offered_contract@, *accept_params, funding_inputs@, *dlc_transactions, r->Ok_0.0),
        r is Ok ==> r->Ok_0.0.adaptor_signatures is None,
        r is Ok ==> r->Ok_0.0.wf(),
        r is Ok ==> r->Ok_0.1@.len() == outcomes_before(
            offered_contract@.contract_info,
            offered_contract@.contract_info.len() as int,
        ),
{
    let script: &Vec<u8> = match input_script_pubkey {
        Some(s) => s,
        None => &dlc_transactions.funding_script_pubkey,
    };
    let cets = build_all_cets(offered_contract, accept_params, &dlc_transactions.cets)?;
    let (adaptor_infos, adaptor_sigs) = match generate_all_sigs(
        &offered_contract.contract_info,
        adaptor_secret_key,
        script,
        input_value,
        &cets,
    ) {
        Ok(x) => x,
        Err(e) => return Err(e),
    };
    let refund_signature = match sign_first_input(&dlc_transactions.refund, script, input_value, adaptor_secret_key) {
        Ok(s) => s,
        Err(e) => return Err(ContractError::DlcError(e)),
    };
    let funding_script_pubkey = dlc_transactions.funding_script_pubkey.clone();
    assert(funding_script_pubkey@ =~= dlc_transactions.funding_script_pubkey@);
    let txs = DlcTransactions {
        fund: dlc_transactions.fund.clone(),
        cets,
        refund: dlc_transactions.refund.clone(),
        funding_script_pubkey,
    };
    let inputs = funding_inputs.clone();
    assert(inputs@ =~= funding_inputs@);
    let accepted_contract = AcceptedContract {
        offered_contract: offered_contract.duplicate(),
        accept_params: accept_params.clone(),
        funding_inputs: inputs,
        adaptor_infos,
        // The accepting party sends its adaptor signatures and keeps none.
        adaptor_signatures: None,
        accept_refund_signature: refund_signature,
        dlc_transactions: txs,
    };
    Ok((accepted_contract, adaptor_sigs))
}

/// The script that locks the funding output: the one given, else the funding
/// script of the transactions.
pub open spec fn input_script_spec(input_script_pubkey: Option<&Vec<u8>>, txs: DlcTransactions) -> Seq<u8> {
    match input_script_pubkey {
        Some(s) => s@,
        None => txs.funding_script_pubkey@,
    }
}

/// The key that the counter party signs with: the one given, else the fund
/// key of its parameters.
pub open spec fn counter_key_spec(
    counter_adaptor_pk: Option<secp256k1_zkp::PublicKey>,
    params: dlc::PartyParams,
) -> secp256k1_zkp::PublicKey {
    match counter_adaptor_pk {
        Some(k) => k,
        None => fund_pubkey_of(params),
    }
}

/// The signed record that the offering party builds once the accepting
/// party's signatures verified: the accepted record, with the accepting
/// party's adaptor and refund signatures kept, and its own refund signature.
pub open spec fn offer_signed_record(
    offered: OfferedContractView,
    accept_params: dlc::PartyParams,
    funding_inputs: Seq<dlc_messages::FundingInput>,
    txs: DlcTransactions,
    refund_signature: secp256k1_zkp::ecdsa::Signature,
    cet_adaptor_signatures: Seq<secp256k1_zkp::EcdsaAdaptorSignature>,
    funding_signatures: dlc_messages::FundingSignatures,
    channel_id: Option<[u8; 32]>,
    signed: SignedContract,
) -> bool {
    &&& accepted_record(offered, accept_params, funding_inputs, txs, signed.accepted_contract)
    &&& signed.accepted_contract.adaptor_signatures matches Some(v) && v@ == cet_adaptor_signatures
    &&& signed.accepted_contract.accept_refund_signature == refund_signature
    &&& signed.adaptor_signatures is None
    &&& signed.funding_signatures == funding_signatures
    &&& signed.channel_id == channel_id
}

/// Verifies the accepting party's refund and adaptor signatures against its
/// key, then produces the offering party's adaptor signatures (returned) and
/// refund signature, and the signed record. Nothing is signed unless every
/// signature of the accepting party verified.
pub fn verify_accepted_and_sign_contract_internal(
    offered_contract: &OfferedContract,
    accept_params: &dlc::PartyParams,
    funding_inputs_info: &Vec<dlc_messages::FundingInput>,
    refund_signature: &secp256k1_zkp::ecdsa::Signature,
    cet_adaptor_signatures: &Vec<secp256k1_zkp::EcdsaAdaptorSignature>,
    input_value: u64,
    own_secret_key: &secp256k1_zkp::SecretKey,
    funding_signatures: dlc_messages::FundingSignatures,
    input_script_pubkey: Option<&Vec<u8>>,
    counter_adaptor_pk: Option<secp256k1_zkp::PublicKey>,
    dlc_transactions: &DlcTransactions,
    channel_id: Option<[u8; 32]>,
) -> (r: Result<(SignedContract, Vec<secp256k1_zkp::EcdsaAdaptorSignature>), ContractError>)
    requires
        offered_contract.wf(),
        dlc_transactions.wf(),
        dlc_transactions.cets@.len() == offered_contract@.contract_info[0].outcomes().len(),
    ensures
        !input_sig_valid(
            (
                *refund_signature,
                dlc_transactions.refund,
                input_script_spec(input_script_pubkey, *dlc_transactions),
                input_value,
                counter_key_spec(counter_adaptor_pk, *accept_params),
            ),
        ) ==> r is Err,
        !spaces_valid(
            offered_contract@.contract_info,
            counter_key_spec(counter_adaptor_pk, *accept_params),
            input_script_spec(input_script_pubkey, *dlc_transactions),
            input_value,
            all_cets(offered_contract@, *accept_params, dlc_transactions.cets@),
            cet_adaptor_signatures@,
            offered_contract@.contract_info.len() as int,
        ) ==> r is Err,
        offered_contract@.contract_info.len() > 1 && dlc_transactions.cets@.len() == 0 ==> r is Err,
        input_sig_valid(
            (
                *refund_signature,
                dlc_transactions.refund,
                input_script_spec(input_script_pubkey, *dlc_transactions),
                input_value,
                counter_key_spec(counter_adaptor_pk, *accept_params),
            ),
        ) && spaces_valid(
            offered_contract@.contract_info,
            counter_key_spec(counter_adaptor_pk, *accept_params),
            input_script_spec(input_script_pubkey, *dlc_transactions),
            input_value,
            all_cets(offered_contract@, *accept_params, dlc_transactions.cets@),
            cet_adaptor_signatures@,
            offered_contract@.contract_info.len() as int,
        ) && later_cets_buildable(offered_contract@, *dlc_transactions) && contract_points_exist(
            offered_contract@.contract_info,
        ) ==> r is Ok,
        r is Ok ==> signatures_produced(
            offered_contract@,
            *accept_params,
            *dlc_transactions,
            input_script_spec(input_script_pubkey, *dlc_transactions),
            input_value,
            *own_secret_key,
            r->Ok_0.0.offer_refund_signature,
            r->Ok_0.1@,
        ),
        r is Ok ==> offer_signed_record(
            offered_contract@,
            *accept_params,
            funding_inputs_info@,
            *dlc_transactions,
            *refund_signature,
            cet_adaptor_signatures@,
            funding_signatures,
            channel_id,
            r->Ok_0.0,
        ),
        r is Ok ==> r->Ok_0.0.accepted_contract.wf(),
        r is Ok ==> r->Ok_0.1@.len() == outcomes_before(
            offered_contract@.contract_info,
            offered_contract@.contract_info.len() as int,
        ),
{
    let script: &Vec<u8> = match input_script_pubkey {
        Some(s) => s,
        None => &dlc_transactions.funding_script_pubkey,
    };
    let counter_pk = match counter_adaptor_pk {
        Some(k) => k,
        None => party_fund_pubkey(accept_params),
    };
    match verify_first_input_sig(refund_signature, &dlc_transactions.refund, script, input_value, &counter_pk) {
        Ok(()) => {},
        Err(e) => return Err(ContractError::DlcError(e)),
    }
    let cets = build_all_cets(offered_contract, accept_params, &dlc_transactions.cets)?;
    match verify_all_sigs(&offered_contract.contract_info, &counter_pk, script, input_value, &cets, cet_adaptor_signatures) {
        Ok(()) => {},
        Err(e) => return Err(e),
    }
    let (adaptor_infos, own_signatures) = match generate_all_sigs(
        &offered_contract.contract_info,
        own_secret_key,
        script,
        input_value,
        &cets,
    ) {
        Ok(x) => x,
        Err(e) => return Err(e),
    };
    let offer_refund_signature = match sign_first_input(&dlc_transactions.refund, script, input_value, own_secret_key) {
        Ok(s) => s,
        Err(e) => return Err(ContractError::DlcError(e)),
    };
    let funding_script_pubkey = dlc_transactions.funding_script_pubkey.clone();
    assert(funding_script_pubkey@ =~= dlc_transactions.funding_script_pubkey@);
    let txs = DlcTransactions {
        fund: dlc_transactions.fund.clone(),
        cets,
        refund: dlc_transactions.refund.clone(),
        funding_script_pubkey,
    };
    let inputs = funding_inputs_info.clone();
    assert(inputs@ =~= funding_inputs_info@);
    let counter_sigs = cet_adaptor_signatures.clone();
    assert(counter_sigs@ =~= cet_adaptor_signatures@);
    let accepted_contract = AcceptedContract {
        offered_contract: offered_contract.duplicate(),
        accept_params: accept_params.clone(),
        funding_inputs: inputs,
        adaptor_infos,
        adaptor_signatures: Some(counter_sigs),
        accept_refund_signature: *refund_signature,
        dlc_transactions: txs,
    };
    let signed_contract = SignedContract {
        accepted_contract,
        adaptor_signatures: None,
        offer_refund_signature,
        funding_signatures,
        channel_id,
    };
    Ok((signed_contract, own_signatures))
}

/// The signatures of the offering party verify: its refund signature and its
/// adaptor signatures of every outcome space.
pub open spec fn offer_signatures_valid(
    accepted: AcceptedContract,
    refund_signature: secp256k1_zkp::ecdsa::Signature,
    cet_adaptor_signatures: Seq<secp256k1_zkp::EcdsaAdaptorSignature>,
    input_value: u64,
    script: Seq<u8>,
    counter_pk: secp256k1_zkp::PublicKey,
) -> bool {
    &&& input_sig_valid((refund_signature, accepted.dlc_transactions.refund, script, input_value, counter_pk))
    &&& spaces_valid(
        accepted.offered_contract@.contract_info,
        counter_pk,
        script,
        input_value,
        accepted.dlc_transactions.cets@,
        cet_adaptor_signatures,
        accepted.offered_contract@.contract_info.len() as int,
    )
}

/// Verifies the offering party's refund and adaptor signatures against its
/// key and, if they all verify, produces the accepting party's signed record
/// together with the fund transaction.
pub fn verify_signed_contract_internal(
    accepted_contract: &AcceptedContract,
    refund_signature: &secp256k1_zkp::ecdsa::Signature,
    cet_adaptor_signatures: &Vec<secp256k1_zkp::EcdsaAdaptorSignature>,
    funding_signatures: &dlc_messages::FundingSignatures,
    input_value: u64,
    input_script_pubkey: Option<&Vec<u8>>,
    counter_adaptor_pk: Option<secp256k1_zkp::PublicKey>,
    channel_id: Option<[u8; 32]>,
) -> (r: Result<(SignedContract, bitcoin::Transaction), ContractError>)
    requires
        accepted_contract.wf(),
    ensures
        r is Ok <==> offer_signatures_valid(
            *accepted_contract,
            *refund_signature,
            cet_adaptor_signatures@,
            input_value,
            input_script_spec(input_script_pubkey, accepted_contract.dlc_transactions),
            counter_key_spec(counter_adaptor_pk, accepted_contract.offered_contract.offer_params),
        ),
        r is Ok ==> same_accepted(r->Ok_0.0.accepted_contract, *accepted_contract),
        r is Ok ==> (r->Ok_0.0.adaptor_signatures matches Some(v) && v@ == cet_adaptor_signatures@),
        r is Ok ==> r->Ok_0.0.offer_refund_signature == *refund_signature,
        r is Ok ==> r->Ok_0.0.funding_signatures == *funding_signatures,
        r is Ok ==> r->Ok_0.0.channel_id == channel_id,
        r is Ok ==> r->Ok_0.1 == accepted_contract.dlc_transactions.fund,
{
    let script: &Vec<u8> = match input_script_pubkey {
        Some(s) => s,
        None => &accepted_contract.dlc_transactions.funding_script_pubkey,
    };
    let counter_pk = match counter_adaptor_pk {
        Some(k) => k,
        None => party_fund_pubkey(&accepted_contract.offered_contract.offer_params),
    };
    match verify_first_input_sig(
        refund_signature,
        &accepted_contract.dlc_transactions.refund,
        script,
        input_value,
        &counter_pk,
    ) {
        Ok(()) => {},
        Err(e) => return Err(ContractError::DlcError(e)),
    }
    verify_all_sigs(
        &accepted_contract.offered_contract.contract_info,
        &counter_pk,
        script,
        input_value,
        &accepted_contract.dlc_transactions.cets,
        cet_adaptor_signatures,
    )?;
    let counter_sigs = cet_adaptor_signatures.clone();
    assert(counter_sigs@ =~= cet_adaptor_signatures@);
    let signed_contract = SignedContract {
        accepted_contract: accepted_contract.duplicate(),
        adaptor_signatures: Some(counter_sigs),
        offer_refund_signature: *refund_signature,
        funding_signatures: funding_signatures.clone(),
        channel_id,
    };
    Ok((signed_contract, accepted_contract.dlc_transactions.fund.clone()))
}

/// The transactions of a contract as both parties build them from the offer
/// and the accepting party's parameters, or `None` where they cannot be built.
pub open spec fn transactions_for(offered: OfferedContractView, accept_params: dlc::PartyParams) -> Option<
    DlcTransactions,
> {
    built_transactions(
        (
            offered.offer_params,
            accept_params,
            offered.contract_info[0].payouts_spec(),
            offered.refund_locktime,
            offered.fee_rate_per_vb,
            offered.cet_locktime,
            offered.fund_output_serial_id,
        ),
    )
}

/// The collaterals are enough for the fund output not to be dust.
pub open spec fn collateral_above_dust(offered: OfferedContractView, accept_params: dlc::PartyParams) -> bool {
    collateral_of(offered.offer_params) + collateral_of(accept_params) >= DUST_LIMIT
}

/// The accepting party commits what the offer leaves to it: the total
/// collateral minus the offering party's collateral.
pub open spec fn accept_collateral_matches(offered: OfferedContractView, accept_params: dlc::PartyParams) -> bool {
    collateral_of(offered.offer_params) + collateral_of(accept_params) == offered.total_collateral
}

/// The transactions of an offer can be built, and with them every settlement
/// transaction and encryption point.
pub open spec fn offer_buildable(offered: OfferedContractView, accept_params: dlc::PartyParams) -> bool {
    &&& collateral_above_dust(offered, accept_params)
    &&& transactions_for(offered, accept_params) is Some
    &&& later_cets_buildable(offered, transactions_for(offered, accept_params)->0)
    &&& contract_points_exist(offered.contract_info)
}

/// Builds the transactions of a contract from the offer and the accepting
/// party's parameters, with the payouts of the first outcome space.
fn build_transactions(offered_contract: &OfferedContract, accept_params: &dlc::PartyParams) -> (r: Result<
    DlcTransactions,
    ContractError,
>)
    requires
        offered_contract.wf(),
    ensures
        !collateral_above_dust(offered_contract@, *accept_params) ==> (r is Err && r->Err_0 is InvalidParameters),
        collateral_above_dust(offered_contract@, *accept_params) ==> (r is Ok <==> transactions_for(
            offered_contract@,
            *accept_params,
        ) is Some),
        r is Ok ==> Some(r->Ok_0) == transactions_for(offered_contract@, *accept_params),
        r is Ok ==> r->Ok_0.wf(),
        r is Ok ==> r->Ok_0.cets@.len() == offered_contract@.contract_info[0].outcomes().len(),
{
    let offer_collateral = party_collateral(&offered_contract.offer_params);
    let accept_collateral = party_collateral(accept_params);
    if offer_collateral < DUST_LIMIT && accept_collateral < DUST_LIMIT - offer_collateral {
        return Err(ContractError::InvalidParameters("Collateral below the dust limit.".to_string()));
    }
    let payouts = offered_contract.contract_info[0].get_payouts();
    proof {
        assert(infos_view(offered_contract.contract_info@)[0] == offered_contract.contract_info@[0]@);
    }
    match create_dlc_transactions(
        &offered_contract.offer_params,
        accept_params,
        &payouts,
        offered_contract.refund_locktime,
        offered_contract.fee_rate_per_vb,
        offered_contract.cet_locktime,
        offered_contract.fund_output_serial_id,
    ) {
        Ok(txs) => Ok(txs),
        Err(e) => Err(ContractError::DlcError(e)),
    }
}

/// Accepts an offer: builds the transactions of the contract from both
/// parties' parameters, then the accepting party's record, adaptor signatures
/// (returned for the accept message) and refund signature. The accepting
/// party must commit the total collateral minus the offering party's.
pub fn accept_contract(
    offered_contract: &OfferedContract,
    accept_params: &dlc::PartyParams,
    funding_inputs: &Vec<dlc_messages::FundingInput>,
    adaptor_secret_key: &secp256k1_zkp::SecretKey,
) -> (r: Result<(AcceptedContract, Vec<secp256k1_zkp::EcdsaAdaptorSignature>), ContractError>)
    requires
        offered_contract.wf(),
    ensures
        !accept_collateral_matches(offered_contract@, *accept_params) ==> (r is Err && r->Err_0 is InvalidParameters),
        transactions_for(offered_contract@, *accept_params) is None ==> r is Err,
        accept_collateral_matches(offered_contract@, *accept_params) && offer_buildable(
            offered_contract@,
            *accept_params,
        ) ==> r is Ok,
        r is Ok ==> accept_collateral_matches(offered_contract@, *accept_params),
        r is Ok ==> {
            let txs = transactions_for(offered_contract@, *accept_params)->0;
            &&& accepted_record(offered_contract@, *accept_params, funding_inputs@, txs, r->Ok_0.0)
            &&& signatures_produced(
                offered_contract@,
                *accept_params,
                txs,
                txs.funding_script_pubkey@,
                txs.fund_output_value_spec(),
                *adaptor_secret_key,
                r->Ok_0.0.accept_refund_signature,
                r->Ok_0.1@,
            )
        },
        r is Ok ==> r->Ok_0.0.adaptor_signatures is None,
        r is Ok ==> r->Ok_0.0.wf(),
        r is Ok ==> r->Ok_0.1@.len() == outcomes_before(
            offered_contract@.contract_info,
            offered_contract@.contract_info.len() as int,
        ),
{
    let offer_collateral = party_collateral(&offered_contract.offer_params);
    let accept_collateral = party_collateral(accept_params);
    if offered_contract.total_collateral < offer_collateral
        || accept_collateral != offered_contract.total_collateral - offer_collateral {
        return Err(ContractError::InvalidParameters("Accept collateral does not complete the offer.".to_string()));
    }
    let dlc_transactions = build_transactions(offered_contract, accept_params)?;
    let fund_output_value = dlc_transactions.get_fund_output_value();
    accept_contract_internal(
        offered_contract,
        accept_params,
        funding_inputs,
        adaptor_secret_key,
        fund_output_value,
        None,
        &dlc_transactions,
    )
}

/// The accepting party's signatures over the given transactions verify for
/// its fund key: the refund signature, and the adaptor signatures of every
/// outcome space.
pub open spec fn accept_signatures_valid(
    offered: OfferedContractView,
    accept_params: dlc::PartyParams,
    txs: DlcTransactions,
    refund_signature: secp256k1_zkp::ecdsa::Signature,
    cet_adaptor_signatures: Seq<secp256k1_zkp::EcdsaAdaptorSignature>,
) -> bool {
    let script = txs.funding_script_pubkey@;
    let value = txs.fund_output_value_spec();
    let pk = fund_pubkey_of(accept_params);
    &&& input_sig_valid((refund_signature, txs.refund, script, value, pk))
    &&& spaces_valid(
        offered.contract_info,
        pk,
        script,
        value,
        all_cets(offered, accept_params, txs.cets@),
        cet_adaptor_signatures,
        offered.contract_info.len() as int,
    )
}

/// Verifies the accept message of the counter party against the offer: the
/// transactions are rebuilt from both parties' parameters exactly as the
/// accepting party built them, the accepting party's signatures are checked
/// against its fund key, and the offering party's signatures are produced.
pub fn verify_accepted_and_sign_contract(
    offered_contract: &OfferedContract,
    accept_params: &dlc::PartyParams,
    funding_inputs: &Vec<dlc_messages::FundingInput>,
    refund_signature: &secp256k1_zkp::ecdsa::Signature,
    cet_adaptor_signatures: &Vec<secp256k1_zkp::EcdsaAdaptorSignature>,
    own_secret_key: &secp256k1_zkp::SecretKey,
    funding_signatures: dlc_messages::FundingSignatures,
) -> (r: Result<(SignedContract, Vec<secp256k1_zkp::EcdsaAdaptorSignature>), ContractError>)
    requires
        offered_contract.wf(),
    ensures
        transactions_for(offered_contract@, *accept_params) is None ==> r is Err,
        transactions_for(offered_contract@, *accept_params) matches Some(txs) && !accept_signatures_valid(
            offered_contract@,
            *accept_params,
            txs,
            *refund_signature,
            cet_adaptor_signatures@,
        ) ==> r is Err,
        offer_buildable(offered_contract@, *accept_params) && accept_signatures_valid(
            offered_contract@,
            *accept_params,
            transactions_for(offered_contract@, *accept_params)->0,
            *refund_signature,
            cet_adaptor_signatures@,
        ) ==> r is Ok,
        r is Ok ==> {
            let txs = transactions_for(offered_contract@, *accept_params)->0;
            &&& offer_signed_record(
                offered_contract@,
                *accept_params,
                funding_inputs@,
                txs,
                *refund_signature,
                cet_adaptor_signatures@,
                funding_signatures,
                None,
                r->Ok_0.0,
            )
            &&& signatures_produced(
                offered_contract@,
                *accept_params,
                txs,
                txs.funding_script_pubkey@,
                txs.fund_output_value_spec(),
                *own_secret_key,
                r->Ok_0.0.offer_refund_signature,
                r->Ok_0.1@,
            )
        },
        r is Ok ==> r->Ok_0.0.accepted_contract.wf(),
        r is Ok ==> r->Ok_0.1@.len() == outcomes_before(
            offered_contract@.contract_info,
            offered_contract@.contract_info.len() as int,
        ),
{
    let dlc_transactions = build_transactions(offered_contract, accept_params)?;
    let fund_output_value = dlc_transactions.get_fund_output_value();
    verify_accepted_and_sign_contract_internal(
        offered_contract,
        accept_params,
        funding_inputs,
        refund_signature,
        cet_adaptor_signatures,
        fund_output_value,
        own_secret_key,
        funding_signatures,
        None,
        None,
        &dlc_transactions,
        None,
    )
}

/// Verifies the accept message of a loan against the offer. The transactions
/// spend the collateral output instead of a plain fund output, and are given;
/// they must have that output and one input per settlement and refund
/// transaction, and one settlement transaction per outcome of the first space.
pub fn verify_accepted_and_sign_loan_contract(
    offered_contract: &OfferedContract,
    accept_params: &dlc::PartyParams,
    funding_inputs: &Vec<dlc_messages::FundingInput>,
    refund_signature: &secp256k1_zkp::ecdsa::Signature,
    cet_adaptor_signatures: &Vec<secp256k1_zkp::EcdsaAdaptorSignature>,
    collateral_transactions: &DlcTransactions,
    own_secret_key: &secp256k1_zkp::SecretKey,
    funding_signatures: dlc_messages::FundingSignatures,
) -> (r: Result<(SignedContract, Vec<secp256k1_zkp::EcdsaAdaptorSignature>), ContractError>)
    requires
        offered_contract.wf(),
    ensures
        !collateral_transactions.wf() ==> (r is Err && r->Err_0 is InvalidParameters),
        collateral_transactions.cets@.len() != offered_contract@.contract_info[0].outcomes().len() ==> (r is Err
            && r->Err_0 is InvalidParameters),
        collateral_transactions.wf() && !accept_signatures_valid(
            offered_contract@,
            *accept_params,
            *collateral_transactions,
            *refund_signature,
            cet_adaptor_signatures@,
        ) ==> r is Err,
        collateral_transactions.wf() && collateral_transactions.cets@.len()
            == offered_contract@.contract_info[0].outcomes().len() && later_cets_buildable(
            offered_contract@,
            *collateral_transactions,
        ) && contract_points_exist(offered_contract@.contract_info) && accept_signatures_valid(
            offered_contract@,
            *accept_params,
            *collateral_transactions,
            *refund_signature,
            cet_adaptor_signatures@,
        ) ==> r is Ok,
        r is Ok ==> offer_signed_record(
            offered_contract@,
            *accept_params,
            funding_inputs@,
            *collateral_transactions,
            *refund_signature,
            cet_adaptor_signatures@,
            funding_signatures,
            None,
            r->Ok_0.0,
        ),
        r is Ok ==> signatures_produced(
            offered_contract@,
            *accept_params,
            *collateral_transactions,
            collateral_transactions.funding_script_pubkey@,
            collateral_transactions.fund_output_value_spec(),
            *own_secret_key,
            r->Ok_0.0.offer_refund_signature,
            r->Ok_0.1@,
        ),
        r is Ok ==> r->Ok_0.0.accepted_contract.wf(),
{
    if !collateral_transactions.is_well_formed() {
        return Err(ContractError::InvalidParameters("Malformed collateral transactions.".to_string()));
    }
    if collateral_transactions.cets.len() != offered_contract.contract_info[0].nb_outcomes() {
        return Err(ContractError::InvalidParameters("Wrong number of settlement transactions.".to_string()));
    }
    let fund_output_value = collateral_transactions.get_fund_output_value();
    verify_accepted_and_sign_contract_internal(
        offered_contract,
        accept_params,
        funding_inputs,
        refund_signature,
        cet_adaptor_signatures,
        fund_output_value,
        own_secret_key,
        funding_signatures,
        None,
        None,
        collateral_transactions,
        None,
    )
}

/// Verifies the sign message of the offering party and produces the
/// accepting party's signed record with the fund transaction.
pub fn verify_signed_contract(
    accepted_contract: &AcceptedContract,
    refund_signature: &secp256k1_zkp::ecdsa::Signature,
    cet_adaptor_signatures: &Vec<secp256k1_zkp::EcdsaAdaptorSignature>,
    funding_signatures: &dlc_messages::FundingSignatures,
) -> (r: Result<(SignedContract, bitcoin::Transaction), ContractError>)
    requires
        accepted_contract.wf(),
    ensures
        r is Ok <==> offer_signatures_valid(
            *accepted_contract,
            *refund_signature,
            cet_adaptor_signatures@,
            accepted_contract.dlc_transactions.fund_output_value_spec(),
            accepted_contract.dlc_transactions.funding_script_pubkey@,
            fund_pubkey_of(accepted_contract.offered_contract.offer_params),
        ),
        r is Ok ==> same_accepted(r->Ok_0.0.accepted_contract, *accepted_contract),
        r is Ok ==> (r->Ok_0.0.adaptor_signatures matches Some(v) && v@ == cet_adaptor_signatures@),
        r is Ok ==> r->Ok_0.0.offer_refund_signature == *refund_signature,
        r is Ok ==> r->Ok_0.0.funding_signatures == *funding_signatures,
        r is Ok ==> r->Ok_0.1 == accepted_contract.dlc_transactions.fund,
{
    let fund_output_value = accepted_contract.dlc_transactions.get_fund_output_value();
    verify_signed_contract_internal(
        accepted_contract,
        refund_signature,
        cet_adaptor_signatures,
        funding_signatures,
        fund_output_value,
        None,
        None,
        None,
    )
}

/// Builds the borrower's record of an accepted loan: the base protocol record
/// built against the collateral output, with the escrow fields.
pub fn accept_loan_contract_internal(
    offered_loan_contract: &OfferedLoanContract,
    accept_params: &dlc::PartyParams,
    funding_inputs: &Vec<dlc_messages::FundingInput>,
    adaptor_secret_key: &secp256k1_zkp::SecretKey,
    input_value: u64,
    input_script_pubkey: Option<&Vec<u8>>,
    dlc_transactions: &DlcTransactions,
    escrow_txid: bitcoin::Txid,
    borrower_hash: [u8; 32],
    signed_escrow_spend_tx: bitcoin::Transaction,
) -> (r: Result<(AcceptedLoanContract, Vec<secp256k1_zkp::EcdsaAdaptorSignature>), ContractError>)
    requires
        offered_loan_contract.offered_contract.wf(),
        dlc_transactions.wf(),
        dlc_transactions.cets@.len() == offered_loan_contract.offered_contract@.contract_info[0].outcomes().len(),
    ensures
        offered_loan_contract.offered_contract@.contract_info.len() > 1 && dlc_transactions.cets@.len() == 0
            ==> r is Err,
        later_cets_buildable(offered_loan_contract.offered_contract@, *dlc_transactions) && contract_points_exist(
            offered_loan_contract.offered_contract@.contract_info,
        ) ==> r is Ok,
        r is Ok ==> signatures_produced(
            offered_loan_contract.offered_contract@,
            *accept_params,
            *dlc_transactions,
            input_script_spec(input_script_pubkey, *dlc_transactions),
            input_value,
            *adaptor_secret_key,
            r->Ok_0.0.accept_refund_signature,
            r->Ok_0.1@,
        ),
        r is Ok ==> accepted_record(
            offered_loan_contract.offered_contract@,
            *accept_params,
            funding_inputs@,
            *dlc_transactions,
            r->Ok_0.0.base(),
        ),
        r is Ok ==> r->Ok_0.0.adaptor_signatures is None,
        r is Ok ==> r->Ok_0.0.base().wf(),
        r is Ok ==> r->Ok_0.0.offered_loan_contract.interest_rate == offered_loan_contract.interest_rate,
        r is Ok ==> r->Ok_0.0.offered_loan_contract.duration == offered_loan_contract.duration,
        r is Ok ==> r->Ok_0.0.offered_loan_contract.collateral_ratio == offered_loan_contract.collateral_ratio,
        r is Ok ==> r->Ok_0.0.offered_loan_contract.liquidation_ratio == offered_loan_contract.liquidation_ratio,
        r is Ok ==> r->Ok_0.0.offered_loan_contract.lender_hash == offered_loan_contract.lender_hash,
        r is Ok ==> r->Ok_0.0.escrow_txid == escrow_txid,
        r is Ok ==> r->Ok_0.0.borrower_hash == borrower_hash,
        r is Ok ==> r->Ok_0.0.signed_escrow_spend_tx == signed_escrow_spend_tx,
        r is Ok ==> r->Ok_0.1@.len() == outcomes_before(
            offered_loan_contract.offered_contract@.contract_info,
            offered_loan_contract.offered_contract@.contract_info.len() as int,
        ),
{
    let (accepted, adaptor_sigs) = match accept_contract_internal(
        &offered_loan_contract.offered_contract,
        accept_params,
        funding_inputs,
        adaptor_secret_key,
        input_value,
        input_script_pubkey,
        dlc_transactions,
    ) {
        Ok(x) => x,
        Err(e) => return Err(e),
    };
    let accepted_loan_contract = AcceptedLoanContract {
        offered_loan_contract: OfferedLoanContract {
            offered_contract: accepted.offered_contract,
            collateral_ratio: offered_loan_contract.collateral_ratio,
            liquidation_ratio: offered_loan_contract.liquidation_ratio,
            interest_rate: offered_loan_contract.interest_rate,
            duration: offered_loan_contract.duration,
            lender_hash: offered_loan_contract.lender_hash,
        },
        accept_params: accepted.accept_params,
        funding_inputs: accepted.funding_inputs,
        adaptor_infos: accepted.adaptor_infos,
        adaptor_signatures: accepted.adaptor_signatures,
        accept_refund_signature: accepted.accept_refund_signature,
        dlc_transactions: accepted.dlc_transactions,
        escrow_txid,
        borrower_hash,
        signed_escrow_spend_tx,
    };
    Ok((accepted_loan_contract, adaptor_sigs))
}

/// The outcomes of a payout function.
pub open spec fn descriptor_outcomes(d: ContractDescriptor) -> Seq<EnumerationPayout> {
    match d {
        ContractDescriptor::Enum(e) => e.outcome_payouts@,
    }
}

/// One list of announcements per outcome space, each with at least as many
/// announcements as the space's threshold.
pub open spec fn announcements_fit(
    infos: Seq<ContractInputInfo>,
    anns: Seq<Vec<dlc_messages::oracle_msgs::OracleAnnouncement>>,
) -> bool {
    &&& anns.len() == infos.len()
    &&& forall|i: int| 0 <= i < infos.len() ==> infos[i].oracles.threshold <= (#[trigger] anns[i])@.len()
}

/// `m` is the latest maturity among all announcements.
pub open spec fn is_latest_maturity(anns: Seq<Vec<dlc_messages::oracle_msgs::OracleAnnouncement>>, m: u32) -> bool {
    &&& forall|i: int, j: int| 0 <= i < anns.len() && 0 <= j < anns[i]@.len() ==> maturity_of(#[trigger] anns[i]@[j]) <= m
    &&& exists|i: int, j: int| 0 <= i < anns.len() && 0 <= j < anns[i]@.len() && maturity_of(#[trigger] anns[i]@[j]) == m
}

/// The refund lock time, `refund_delay` after the latest maturity, fits.
pub open spec fn refund_time_fits(anns: Seq<Vec<dlc_messages::oracle_msgs::OracleAnnouncement>>, refund_delay: u32) -> bool {
    forall|m: u32| #[trigger] is_latest_maturity(anns, m) ==> m + refund_delay <= u32::MAX
}

/// The offered record built from the terms: one outcome space per entry of
/// `infos` with its announcements, settlement at the latest maturity and
/// refund `refund_delay` later.
pub open spec fn offered_record(
    infos: Seq<ContractInputInfo>,
    offer_collateral: u64,
    accept_collateral: u64,
    fee_rate: u64,
    anns: Seq<Vec<dlc_messages::oracle_msgs::OracleAnnouncement>>,
    refund_delay: u32,
    offered: OfferedContractView,
) -> bool {
    &&& offered.contract_info.len() == infos.len()
    &&& forall|i: int|
        0 <= i < infos.len() ==> {
            &&& (#[trigger] offered.contract_info[i]).outcomes == descriptor_outcomes(infos[i].contract_descriptor)
            &&& offered.contract_info[i].oracle_announcements == anns[i]@
            &&& offered.contract_info[i].threshold == infos[i].oracles.threshold as usize
        }
    &&& offered.total_collateral == offer_collateral + accept_collateral
    &&& offered.fee_rate_per_vb == fee_rate
    &&& is_latest_maturity(anns, offered.cet_locktime)
    &&& offered.refund_locktime == offered.cet_locktime + refund_delay
    &&& offered.is_offer_party
}

/// Builds the offered record from validated terms and the oracles'
/// announcements.
fn build_offered_contract(
    infos: &Vec<ContractInputInfo>,
    offer_collateral: u64,
    accept_collateral: u64,
    fee_rate: u64,
    oracle_announcements: &Vec<Vec<dlc_messages::oracle_msgs::OracleAnnouncement>>,
    refund_delay: u32,
    counter_party: &secp256k1_zkp::PublicKey,
    offer_params: dlc::PartyParams,
    funding_inputs: Vec<dlc_messages::FundingInput>,
    id: [u8; 32],
    keys_id: [u8; 32],
    fund_output_serial_id: u64,
) -> (r: Result<OfferedContract, ContractError>)
    requires
        contract_terms_valid(infos@, fee_rate),
    ensures
        !announcements_fit(infos@, oracle_announcements@) ==> (r is Err && r->Err_0 is InvalidParameters),
        announcements_fit(infos@, oracle_announcements@) && offer_collateral + accept_collateral > u64::MAX ==> (r is Err
            && r->Err_0 is OutOfRange),
        forall|m: u32|
            announcements_fit(infos@, oracle_announcements@) && #[trigger] is_latest_maturity(oracle_announcements@, m)
                && m + refund_delay > u32::MAX ==> r is Err,
        announcements_fit(infos@, oracle_announcements@) && offer_collateral + accept_collateral <= u64::MAX
            && refund_time_fits(oracle_announcements@, refund_delay) ==> r is Ok,
        r is Ok ==> offered_record(infos@, offer_collateral, accept_collateral, fee_rate, oracle_announcements@, refund_delay, r->Ok_0@),
        r is Ok ==> r->Ok_0.wf(),
        r is Ok ==> r->Ok_0.id == id && r->Ok_0.keys_id == keys_id && r->Ok_0.counter_party == *counter_party,
        r is Ok ==> r->Ok_0.offer_params == offer_params && r->Ok_0.funding_inputs@ == funding_inputs@,
        r is Ok ==> r->Ok_0.fund_output_serial_id == fund_output_serial_id,
{
    let n = infos.len();
    if oracle_announcements.len() != n {
        return Err(ContractError::InvalidParameters("One list of announcements per contract info is needed.".to_string()));
    }
    let mut i: usize = 0;
    while i < n
        invariant
            n == infos@.len(),
            oracle_announcements@.len() == n,
            i <= n,
            forall|k: int| 0 <= k < i ==> infos@[k].oracles.threshold <= (#[trigger] oracle_announcements@[k])@.len(),
        decreases n - i,
    {
        if (infos[i].oracles.threshold as usize) > oracle_announcements[i].len() {
            return Err(ContractError::InvalidParameters("Not enough oracle announcements.".to_string()));
        }
        i = i + 1;
    }
    let total_collateral = match offer_collateral.checked_add(accept_collateral) {
        Some(t) => t,
        None => return Err(ContractError::OutOfRange),
    };
    // Latest maturity over all announcements; the first space has at least one.
    proof {
        assert(crate::contract_input::oracle_terms_valid(infos@[0].oracles.public_keys@.len(), infos@[0].oracles.threshold));
        assert(infos@[0].oracles.threshold as int > 0);
        assert(infos@[0].oracles.threshold <= oracle_announcements@[0]@.len());
    }
    let mut latest: u32 = announcement_maturity(&oracle_announcements[0][0]);
    let ghost mut wi: int = 0;
    let ghost mut wj: int = 0;
    let mut i: usize = 0;
    while i < n
        invariant
            n == oracle_announcements@.len(),
            i <= n,
            0 <= wi < n,
            0 <= wj < oracle_announcements@[wi]@.len(),
            maturity_of(oracle_announcements@[wi]@[wj]) == latest,
            forall|a: int, b: int|
                0 <= a < i && 0 <= b < oracle_announcements@[a]@.len() ==> maturity_of(
                    #[trigger] oracle_announcements@[a]@[b],
                ) <= latest,
        decreases n - i,
    {
        let anns = &oracle_announcements[i];
        let mut j: usize = 0;
        while j < anns.len()
            invariant
                n == oracle_announcements@.len(),
                i < n,
                *anns == oracle_announcements@[i as int],
                j <= anns@.len(),
                0 <= wi < n,
                0 <= wj < oracle_announcements@[wi]@.len(),
                maturity_of(oracle_announcements@[wi]@[wj]) == latest,
                forall|a: int, b: int|
                    0 <= a < i && 0 <= b < oracle_announcements@[a]@.len() ==> maturity_of(
                        #[trigger] oracle_announcements@[a]@[b],
                    ) <= latest,
                forall|b: int| 0 <= b < j ==> maturity_of(#[trigger] oracle_announcements@[i as int]@[b]) <= latest,
            decreases anns@.len() - j,
        {
            let m = announcement_maturity(&anns[j]);
            if m > latest {
                latest = m;
                proof {
                    wi = i as int;
                    wj = j as int;
                }
            }
            j = j + 1;
        }
        i = i + 1;
    }
    assert(is_latest_maturity(oracle_announcements@, latest));
    let refund_locktime = match latest.checked_add(refund_delay) {
        Some(t) => t,
        None => return Err(ContractError::OutOfRange),
    };
    let mut contract_info: Vec<ContractInfo> = Vec::new();
    let mut i: usize = 0;
    while i < n
        invariant
            n == infos@.len(),
            oracle_announcements@.len() == n,
            announcements_fit(infos@, oracle_announcements@),
            i <= n,
            contract_info@.len() == i,
            forall|k: int|
                0 <= k < i ==> {
                    &&& (#[trigger] contract_info@[k])@.outcomes == descriptor_outcomes(infos@[k].contract_descriptor)
                    &&& contract_info@[k]@.oracle_announcements == oracle_announcements@[k]@
                    &&& contract_info@[k]@.threshold == infos@[k].oracles.threshold as usize
                },
        decreases n - i,
    {
        let announcements = oracle_announcements[i].clone();
        assert(announcements@ =~= oracle_announcements@[i as int]@);
        contract_info.push(
            ContractInfo {
                contract_descriptor: infos[i].contract_descriptor.duplicate(),
                oracle_announcements: announcements,
                threshold: infos[i].oracles.threshold as usize,
            },
        );
        i = i + 1;
    }
    let offered = OfferedContract {
        id,
        is_offer_party: true,
        contract_info,
        counter_party: *counter_party,
        offer_params,
        total_collateral,
        funding_inputs,
        fund_output_serial_id,
        fee_rate_per_vb: fee_rate,
        cet_locktime: latest,
        refund_locktime,
        keys_id,
    };
    assert forall|k: int| 0 <= k < offered@.contract_info.len() implies (#[trigger] offered@.contract_info[k]).wf() by {
        assert(offered@.contract_info[k] == offered.contract_info@[k]@);
        assert(infos@[k].oracles.threshold <= oracle_announcements@[k]@.len());
    }
    Ok(offered)
}

/// Creates the offering party's record from the contract terms, once they are
/// validated, and the oracles' announcements (one list per outcome space).
/// The funding parameters and inputs, the temporary id, the key id and the
/// fund output serial id are those that the offering party drew.
pub fn offer_contract(
    contract_input: &ContractInput,
    oracle_announcements: &Vec<Vec<dlc_messages::oracle_msgs::OracleAnnouncement>>,
    refund_delay: u32,
    counter_party: &secp256k1_zkp::PublicKey,
    offer_params: dlc::PartyParams,
    funding_inputs: Vec<dlc_messages::FundingInput>,
    id: [u8; 32],
    keys_id: [u8; 32],
    fund_output_serial_id: u64,
) -> (r: Result<OfferedContract, ContractError>)
    ensures
        !contract_terms_valid(contract_input.contract_infos@, contract_input.fee_rate) ==> (r is Err
            && r->Err_0 is InvalidParameters),
        !announcements_fit(contract_input.contract_infos@, oracle_announcements@) ==> r is Err,
        collateral_of(offer_params) != contract_input.offer_collateral ==> (r is Err && r->Err_0 is InvalidParameters),
        contract_terms_valid(contract_input.contract_infos@, contract_input.fee_rate) && announcements_fit(
            contract_input.contract_infos@,
            oracle_announcements@,
        ) && collateral_of(offer_params) == contract_input.offer_collateral && contract_input.offer_collateral
            + contract_input.accept_collateral <= u64::MAX && refund_time_fits(oracle_announcements@, refund_delay)
            ==> r is Ok,
        r is Ok ==> offered_record(
            contract_input.contract_infos@,
            contract_input.offer_collateral,
            contract_input.accept_collateral,
            contract_input.fee_rate,
            oracle_announcements@,
            refund_delay,
            r->Ok_0@,
        ),
        r is Ok ==> r->Ok_0.wf(),
        r is Ok ==> r->Ok_0.id == id && r->Ok_0.keys_id == keys_id && r->Ok_0.counter_party == *counter_party,
        r is Ok ==> r->Ok_0.offer_params == offer_params && r->Ok_0.funding_inputs@ == funding_inputs@,
        r is Ok ==> r->Ok_0.fund_output_serial_id == fund_output_serial_id,
{
    match contract_input.validate() {
        Ok(()) => {},
        Err(e) => return Err(e),
    }
    if party_collateral(&offer_params) != contract_input.offer_collateral {
        return Err(ContractError::InvalidParameters("Offer collateral differs from the funding parameters.".to_string()));
    }
    build_offered_contract(
        &contract_input.contract_infos,
        contract_input.offer_collateral,
        contract_input.accept_collateral,
        contract_input.fee_rate,
        oracle_announcements,
        refund_delay,
        counter_party,
        offer_params,
        funding_inputs,
        id,
        keys_id,
        fund_output_serial_id,
    )
}

/// Creates the lender's loan offer: the loan terms are validated, the lender
/// commits to its preimage by its SHA-256 digest (of the sixteen big-endian
/// bytes), and the contract puts the borrower's collateral against none of
/// the lender's.
pub fn offer_loan_contract(
    loan_contract_input: &LoanContractInput,
    oracle_announcements: &Vec<Vec<dlc_messages::oracle_msgs::OracleAnnouncement>>,
    refund_delay: u32,
    counter_party: &secp256k1_zkp::PublicKey,
    lender_preimage: u128,
    offer_params: dlc::PartyParams,
    id: [u8; 32],
    keys_id: [u8; 32],
    fund_output_serial_id: u64,
) -> (r: Result<OfferedLoanContract, ContractError>)
    ensures
        !(loan_terms_valid(loan_contract_input.interest_rate, loan_contract_input.duration) && contract_terms_valid(
            loan_contract_input.contract_infos@,
            loan_contract_input.fee_rate,
        )) ==> (r is Err && r->Err_0 is InvalidParameters),
        !announcements_fit(loan_contract_input.contract_infos@, oracle_announcements@) ==> r is Err,
        collateral_of(offer_params) != 0 ==> (r is Err && r->Err_0 is InvalidParameters),
        loan_terms_valid(loan_contract_input.interest_rate, loan_contract_input.duration) && contract_terms_valid(
            loan_contract_input.contract_infos@,
            loan_contract_input.fee_rate,
        ) && announcements_fit(loan_contract_input.contract_infos@, oracle_announcements@) && collateral_of(
            offer_params,
        ) == 0 && refund_time_fits(oracle_announcements@, refund_delay) ==> r is Ok,
        r is Ok ==> offered_record(
            loan_contract_input.contract_infos@,
            0,
            loan_contract_input.collateral,
            loan_contract_input.fee_rate,
            oracle_announcements@,
            refund_delay,
            r->Ok_0.offered_contract@,
        ),
        r is Ok ==> r->Ok_0.offered_contract.wf(),
        r is Ok ==> r->Ok_0.lender_hash@ == sha256_of(be_bytes_u128(lender_preimage)),
        r is Ok ==> r->Ok_0.collateral_ratio == loan_contract_input.collateral_ratio
            && r->Ok_0.liquidation_ratio == loan_contract_input.liquidation_ratio
            && r->Ok_0.interest_rate == loan_contract_input.interest_rate
            && r->Ok_0.duration == loan_contract_input.duration,
        r is Ok ==> r->Ok_0.offered_contract.id == id && r->Ok_0.offered_contract.keys_id == keys_id,
        r is Ok ==> r->Ok_0.offered_contract.offer_params == offer_params
            && r->Ok_0.offered_contract.funding_inputs@.len() == 0,
{
    match loan_contract_input.validate() {
        Ok(()) => {},
        Err(e) => return Err(e),
    }
    if party_collateral(&offer_params) != 0 {
        return Err(ContractError::InvalidParameters("The lender puts up no collateral.".to_string()));
    }
    let preimage_bytes = u128_to_be_bytes(lender_preimage);
    let lender_hash = sha256(preimage_bytes.as_slice());
    let offered_contract = match build_offered_contract(
        &loan_contract_input.contract_infos,
        0,
        loan_contract_input.collateral,
        loan_contract_input.fee_rate,
        oracle_announcements,
        refund_delay,
        counter_party,
        offer_params,
        Vec::new(),
        id,
        keys_id,
        fund_output_serial_id,
    ) {
        Ok(o) => o,
        Err(e) => return Err(e),
    };
    Ok(
        OfferedLoanContract {
            offered_contract,
            collateral_ratio: loan_contract_input.collateral_ratio,
            liquidation_ratio: loan_contract_input.liquidation_ratio,
            interest_rate: loan_contract_input.interest_rate,
            duration: loan_contract_input.duration,
            lender_hash,
        },
    )
}

/// Attestation `j` is that of attesting oracle `j`: it carries index `j`, is
/// valid for that oracle's announcement, and attests one outcome with one
/// signature, the outcome of the first attestation.
pub open spec fn attestation_fits(
    info: ContractInfoView,
    atts: Seq<(usize, dlc_messages::oracle_msgs::OracleAttestation)>,
    j: int,
) -> bool {
    &&& atts[j].0 == j
    &&& attestation_valid((atts[j].1, info.oracle_announcements[j]))
    &&& attested_outcomes(atts[j].1).len() == 1
    &&& attested_signatures(atts[j].1).len() == 1
    &&& attested_outcomes(atts[j].1)[0]@ == attested_outcomes(atts[0].1)[0]@
}

/// The attestations are those of the attesting oracles of the space, one per
/// oracle and in order, all valid and all for the same outcome.
pub open spec fn attestations_match(
    info: ContractInfoView,
    atts: Seq<(usize, dlc_messages::oracle_msgs::OracleAttestation)>,
) -> bool {
    &&& atts.len() > 0
    &&& atts.len() == info.threshold
    &&& forall|j: int| 0 <= j < atts.len() ==> #[trigger] attestation_fits(info, atts, j)
}

/// The outcome that the attestations agree on.
pub open spec fn attested_outcome(atts: Seq<(usize, dlc_messages::oracle_msgs::OracleAttestation)>) -> Seq<char> {
    attested_outcomes(atts[0].1)[0]@
}

/// The signatures of the attestations, one per oracle.
pub open spec fn oracle_signatures(
    atts: Seq<(usize, dlc_messages::oracle_msgs::OracleAttestation)>,
) -> Seq<secp256k1_zkp::schnorr::Signature> {
    Seq::new(atts.len(), |j: int| attested_signatures(atts[j].1)[0])
}

/// The counter party's adaptor signatures as the local party keeps them.
pub open spec fn counter_adaptor_signatures(contract: SignedContract) -> Option<
    Vec<secp256k1_zkp::EcdsaAdaptorSignature>,
> {
    if contract.accepted_contract.offered_contract.is_offer_party {
        contract.accepted_contract.adaptor_signatures
    } else {
        contract.adaptor_signatures
    }
}

/// Position of the first outcome, at `k` or later, equal to `outcome`.
pub open spec fn outcome_position_from(outcomes: Seq<EnumerationPayout>, outcome: Seq<char>, k: int) -> Option<int>
    decreases outcomes.len() - k,
{
    if k < 0 || k >= outcomes.len() {
        None
    } else if outcomes[k].outcome@ == outcome {
        Some(k)
    } else {
        outcome_position_from(outcomes, outcome, k + 1)
    }
}

/// A found position lies within the outcomes.
pub proof fn lemma_outcome_position_in_range(outcomes: Seq<EnumerationPayout>, outcome: Seq<char>, k: int)
    ensures
        outcome_position_from(outcomes, outcome, k) matches Some(p) ==> k <= p < outcomes.len(),
    decreases outcomes.len() - k,
{
    if 0 <= k < outcomes.len() && outcomes[k].outcome@ != outcome {
        lemma_outcome_position_in_range(outcomes, outcome, k + 1);
    }
}

/// Once the secret of the first oracle signatures is missing, so is that of
/// more of them.
pub proof fn lemma_oracle_secret_stays_missing(sigs: Seq<secp256k1_zkp::schnorr::Signature>, a: int, b: int)
    requires
        1 <= a <= b,
        oracle_secret_upto(sigs, a) is None,
    ensures
        oracle_secret_upto(sigs, b) is None,
    decreases b - a,
{
    if a < b {
        lemma_oracle_secret_stays_missing(sigs, a, b - 1);
    }
}

/// The secret that oracle signatures reveal, where every s-value is a secret
/// key and no partial sum is zero.
fn oracle_secret(oracle_sigs: &Vec<Vec<secp256k1_zkp::schnorr::Signature>>) -> (r: Option<secp256k1_zkp::SecretKey>)
    requires
        oracle_sigs@.len() > 0,
        forall|m: int| 0 <= m < oracle_sigs@.len() ==> (#[trigger] oracle_sigs@[m])@.len() == 1,
    ensures
        r == oracle_secret_upto(first_sigs(oracle_sigs@), oracle_sigs@.len() as int),
{
    let n = oracle_sigs.len();
    let ghost flat = first_sigs(oracle_sigs@);
    let mut secret = match s_value_of(&oracle_sigs[0][0]) {
        Some(x) => x,
        None => {
            proof {
                lemma_oracle_secret_stays_missing(flat, 1, n as int);
            }
            return None;
        },
    };
    let mut j: usize = 1;
    while j < n
        invariant
            n == oracle_sigs@.len(),
            n > 0,
            1 <= j <= n,
            flat == first_sigs(oracle_sigs@),
            forall|m: int| 0 <= m < n ==> (#[trigger] oracle_sigs@[m])@.len() == 1,
            oracle_secret_upto(flat, j as int) == Some(secret),
        decreases n - j,
    {
        assert(flat[j as int] == oracle_sigs@[j as int]@[0]);
        let s_j = match s_value_of(&oracle_sigs[j][0]) {
            Some(x) => x,
            None => {
                proof {
                    lemma_oracle_secret_stays_missing(flat, j as int + 1, n as int);
                }
                return None;
            },
        };
        secret = match add_secrets(&secret, &s_j) {
            Some(x) => x,
            None => {
                proof {
                    lemma_oracle_secret_stays_missing(flat, j as int + 1, n as int);
                }
                return None;
            },
        };
        j = j + 1;
    }
    Some(secret)
}

/// Signs the settlement transaction of the attested outcome: the outcome's
/// position in the outcome space, offset by where `adaptor_info` places the
/// space, selects the transaction and the counter party's adaptor signature,
/// which the secret revealed by the oracle signatures decrypts. The
/// attestations must be those of the space's attesting oracles, in order.
pub fn get_signed_cet(
    contract: &SignedContract,
    contract_info: &ContractInfo,
    adaptor_info: &AdaptorInfo,
    attestations: &Vec<(usize, dlc_messages::oracle_msgs::OracleAttestation)>,
    funding_sk: &secp256k1_zkp::SecretKey,
) -> (r: Result<bitcoin::Transaction, ContractError>)
    requires
        contract.accepted_contract.dlc_transactions.wf(),
        contract_info.wf(),
    ensures
        !attestations_match(contract_info@, attestations@) ==> (r is Err && r->Err_0 is InvalidParameters),
        attestations_match(contract_info@, attestations@) && outcome_position_from(
            contract_info@.outcomes,
            attested_outcome(attestations@),
            0,
        ) is None ==> (r is Err && r->Err_0 is InvalidParameters),
        attestations_match(contract_info@, attestations@) ==> match outcome_position_from(
            contract_info@.outcomes,
            attested_outcome(attestations@),
            0,
        ) {
            Some(k) => {
                let index = adaptor_info.adaptor_index_start + k;
                let cets = contract.accepted_contract.dlc_transactions.cets@;
                let counter = counter_adaptor_signatures(*contract);
                let secret = oracle_secret_upto(oracle_signatures(attestations@), attestations@.len() as int);
                &&& (index >= cets.len() || counter is None || index >= counter->0@.len()) ==> (r is Err
                    && r->Err_0 is InvalidState)
                &&& (index < cets.len() && counter is Some && index < counter->0@.len()) ==> {
                    &&& secret is None ==> (r is Err && r->Err_0 is InvalidParameters)
                    &&& secret is Some ==> (r is Ok <==> cet_completes(
                        (counter->0@[index], oracle_signatures(attestations@)),
                    ))
                }
                &&& r is Ok ==> index < cets.len() && txid_of(r->Ok_0) == txid_of(cets[index]) && tx_outputs(
                    r->Ok_0,
                ) == tx_outputs(cets[index])
            },
            None => true,
        },
        r is Ok ==> attestations_match(contract_info@, attestations@),
        r is Ok ==> outcome_position_from(contract_info@.outcomes, attested_outcome(attestations@), 0) is Some,
{
    let accepted = &contract.accepted_contract;
    let n_att = attestations.len();
    if n_att == 0 || n_att != contract_info.threshold {
        return Err(ContractError::InvalidParameters("One attestation per attesting oracle is needed.".to_string()));
    }
    let first = attestation_outcomes(&attestations[0].1);
    if first.len() != 1 {
        assert(!attestation_fits(contract_info@, attestations@, 0));
        return Err(ContractError::InvalidParameters("Attestation without a single outcome.".to_string()));
    }
    let outcome = &first[0];
    let mut oracle_sigs: Vec<Vec<secp256k1_zkp::schnorr::Signature>> = Vec::new();
    let mut i: usize = 0;
    while i < n_att
        invariant
            contract_info.wf(),
            n_att == attestations@.len(),
            n_att == contract_info.threshold,
            n_att > 0,
            first@ == attested_outcomes(attestations@[0].1),
            first@.len() == 1,
            *outcome == first@[0],
            i <= n_att,
            oracle_sigs@.len() == i,
            forall|j: int| 0 <= j < i ==> #[trigger] attestation_fits(contract_info@, attestations@, j),
            forall|j: int| 0 <= j < i ==> (#[trigger] oracle_sigs@[j])@ == attested_signatures(attestations@[j].1),
        decreases n_att - i,
    {
        if attestations[i].0 != i {
            assert(!attestation_fits(contract_info@, attestations@, i as int));
            return Err(ContractError::InvalidParameters("Attestation out of order.".to_string()));
        }
        if !attestation_is_valid(&attestations[i].1, &contract_info.oracle_announcements[i]) {
            assert(!attestation_fits(contract_info@, attestations@, i as int));
            return Err(ContractError::InvalidParameters("Invalid attestation.".to_string()));
        }
        let outs = attestation_outcomes(&attestations[i].1);
        if outs.len() != 1 || outs[0] != *outcome {
            assert(!attestation_fits(contract_info@, attestations@, i as int));
            return Err(ContractError::InvalidParameters("Attestations do not agree on an outcome.".to_string()));
        }
        let sigs = attestation_signatures(&attestations[i].1);
        if sigs.len() != 1 {
            assert(!attestation_fits(contract_info@, attestations@, i as int));
            return Err(ContractError::InvalidParameters("Attestation without a single signature.".to_string()));
        }
        oracle_sigs.push(sigs);
        i = i + 1;
    }
    assert(attestations_match(contract_info@, attestations@));
    let n = contract_info.nb_outcomes();
    let mut k: usize = 0;
    let mut found = false;
    while k < n && !found
        invariant
            n == contract_info@.outcomes.len(),
            k <= n,
            found ==> k < n && contract_info@.outcomes[k as int].outcome@ == outcome@,
            outcome_position_from(contract_info@.outcomes, outcome@, 0) == outcome_position_from(
                contract_info@.outcomes,
                outcome@,
                k as int,
            ),
        decreases n - k, (if found { 0int } else { 1int }),
    {
        if *contract_info.outcome(k) == *outcome {
            found = true;
        } else {
            k = k + 1;
        }
    }
    if !found {
        return Err(ContractError::InvalidParameters("No outcome matches the attestations.".to_string()));
    }
    assert(outcome_position_from(contract_info@.outcomes, outcome@, 0) == Some(k as int));
    let cets = &accepted.dlc_transactions.cets;
    let start = adaptor_info.adaptor_index_start;
    if start > cets.len() || k >= cets.len() - start {
        return Err(ContractError::InvalidState("Settlement transaction out of range.".to_string()));
    }
    let index = start + k;
    let (adaptor_sigs, other_pubkey) = if accepted.offered_contract.is_offer_party {
        (&accepted.adaptor_signatures, party_fund_pubkey(&accepted.accept_params))
    } else {
        (&contract.adaptor_signatures, party_fund_pubkey(&accepted.offered_contract.offer_params))
    };
    let adaptor_sigs = match adaptor_sigs {
        Some(v) => v,
        None => return Err(ContractError::InvalidState("Counter party adaptor signatures missing.".to_string())),
    };
    if index >= adaptor_sigs.len() {
        return Err(ContractError::InvalidState("Adaptor signature out of range.".to_string()));
    }
    // The secret that the oracle signatures reveal must exist for the
    // completion to go through.
    assert forall|m: int| 0 <= m < n_att implies (#[trigger] oracle_sigs@[m])@.len() == 1 by {
        assert(attestation_fits(contract_info@, attestations@, m));
    }
    let ghost flat = first_sigs(oracle_sigs@);
    assert(flat =~= oracle_signatures(attestations@));
    if oracle_secret(&oracle_sigs).is_none() {
        return Err(ContractError::InvalidParameters("The oracle signatures reveal no secret.".to_string()));
    }
    let fund_output_value = accepted.dlc_transactions.get_fund_output_value();
    let mut cet = cets[index].clone();
    match sign_cet(
        &mut cet,
        &adaptor_sigs[index],
        &oracle_sigs,
        funding_sk,
        &other_pubkey,
        &accepted.dlc_transactions.funding_script_pubkey,
        fund_output_value,
    ) {
        Ok(()) => Ok(cet),
        Err(e) => Err(ContractError::DlcError(e)),
    }
}

/// Signs the refund transaction with the local key and the counter party's
/// refund signature, which the record keeps. No attestation is needed.
pub fn get_signed_refund(contract: &SignedContract, funding_sk: &secp256k1_zkp::SecretKey) -> (r: Result<
    bitcoin::Transaction,
    ContractError,
>)
    requires
        contract.accepted_contract.dlc_transactions.wf(),
    ensures
        r is Ok,
        r is Ok ==> txid_of(r->Ok_0) == txid_of(contract.accepted_contract.dlc_transactions.refund),
        r is Ok ==> tx_outputs(r->Ok_0) == tx_outputs(contract.accepted_contract.dlc_transactions.refund),
{
    let accepted = &contract.accepted_contract;
    let (other_fund_pubkey, other_sig) = if accepted.offered_contract.is_offer_party {
        (party_fund_pubkey(&accepted.accept_params), accepted.accept_refund_signature)
    } else {
        (party_fund_pubkey(&accepted.offered_contract.offer_params), contract.offer_refund_signature)
    };
    let fund_output_value = accepted.dlc_transactions.get_fund_output_value();
    let mut refund = accepted.dlc_transactions.refund.clone();
    match sign_multi_sig_input(
        &mut refund,
        &other_sig,
        &other_fund_pubkey,
        funding_sk,
        &accepted.dlc_transactions.funding_script_pubkey,
        fund_output_value,
    ) {
        Ok(()) => Ok(refund),
        Err(e) => Err(ContractError::DlcError(e)),
    }
}

} // verus!
