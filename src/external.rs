//! Declarations of the outside types that the library carries, and the
//! wrappers through which it calls the transaction and signature primitives.
use crate::contract::DlcTransactions;
use crate::contract_input::Payout;
use vstd::prelude::*;

verus! {

#[verifier::external_type_specification]
#[verifier::external_body]
pub struct ExXOnlyPublicKey(secp256k1_zkp::XOnlyPublicKey);

#[verifier::external_type_specification]
#[verifier::external_body]
pub struct ExPublicKey(secp256k1_zkp::PublicKey);

#[verifier::external_type_specification]
#[verifier::external_body]
pub struct ExSecretKey(secp256k1_zkp::SecretKey);

#[verifier::external_type_specification]
#[verifier::external_body]
pub struct ExSignature(secp256k1_zkp::ecdsa::Signature);

#[verifier::external_type_specification]
#[verifier::external_body]
pub struct ExSchnorrSignature(secp256k1_zkp::schnorr::Signature);

#[verifier::external_type_specification]
#[verifier::external_body]
pub struct ExAdaptorSignature(secp256k1_zkp::EcdsaAdaptorSignature);

#[verifier::external_type_specification]
#[verifier::external_body]
pub struct ExTransaction(bitcoin::Transaction);

#[verifier::external_type_specification]
#[verifier::external_body]
pub struct ExTxid(bitcoin::Txid);

#[verifier::external_type_specification]
#[verifier::external_body]
pub struct ExPartyParams(dlc::PartyParams);

pub assume_specification[ <secp256k1_zkp::ecdsa::Signature as Clone>::clone ](sig: &secp256k1_zkp::ecdsa::Signature) -> (r: secp256k1_zkp::ecdsa::Signature)
    ensures
        r == *sig,
;

pub assume_specification[ <bitcoin::Txid as Clone>::clone ](txid: &bitcoin::Txid) -> (r: bitcoin::Txid)
    ensures
        r == *txid,
;

pub assume_specification[ <secp256k1_zkp::PublicKey as Clone>::clone ](pk: &secp256k1_zkp::PublicKey) -> (r: secp256k1_zkp::PublicKey)
    ensures
        r == *pk,
;

pub assume_specification[ <secp256k1_zkp::EcdsaAdaptorSignature as Clone>::clone ](sig: &secp256k1_zkp::EcdsaAdaptorSignature) -> (r: secp256k1_zkp::EcdsaAdaptorSignature)
    ensures
        r == *sig,
;

pub assume_specification[ <secp256k1_zkp::XOnlyPublicKey as Clone>::clone ](pk: &secp256k1_zkp::XOnlyPublicKey) -> (r: secp256k1_zkp::XOnlyPublicKey)
    ensures
        r == *pk,
;

pub assume_specification[ <bitcoin::Transaction as Clone>::clone ](tx: &bitcoin::Transaction) -> (r: bitcoin::Transaction)
    ensures
        r == *tx,
;

pub assume_specification[ <dlc::PartyParams as Clone>::clone ](p: &dlc::PartyParams) -> (r: dlc::PartyParams)
    ensures
        r == *p,
;

pub assume_specification[ <dlc_messages::FundingInput as Clone>::clone ](f: &dlc_messages::FundingInput) -> (r: dlc_messages::FundingInput)
    ensures
        r == *f,
;

pub assume_specification[ <dlc_messages::oracle_msgs::OracleAnnouncement as Clone>::clone ](
    a: &dlc_messages::oracle_msgs::OracleAnnouncement,
) -> (r: dlc_messages::oracle_msgs::OracleAnnouncement)
    ensures
        r == *a,
;

pub assume_specification[ <dlc_messages::FundingSignatures as Clone>::clone ](f: &dlc_messages::FundingSignatures) -> (r: dlc_messages::FundingSignatures)
    ensures
        r == *f,
;

#[verifier::external_type_specification]
#[verifier::external_body]
pub struct ExDlcError(dlc::Error);

#[verifier::external_type_specification]
#[verifier::external_body]
pub struct ExFundingInput(dlc_messages::FundingInput);

#[verifier::external_type_specification]
#[verifier::external_body]
pub struct ExFundingSignatures(dlc_messages::FundingSignatures);

#[verifier::external_type_specification]
#[verifier::external_body]
pub struct ExOracleAnnouncement(dlc_messages::oracle_msgs::OracleAnnouncement);

#[verifier::external_type_specification]
#[verifier::external_body]
pub struct ExOracleAttestation(dlc_messages::oracle_msgs::OracleAttestation);

/// The collateral that a party commits, in satoshis.
pub uninterp spec fn collateral_of(p: dlc::PartyParams) -> u64;

/// The script that receives a party's payout.
pub uninterp spec fn payout_script_of(p: dlc::PartyParams) -> Seq<u8>;

/// The serial id that orders a party's payout output.
pub uninterp spec fn payout_serial_id_of(p: dlc::PartyParams) -> u64;

/// The public key of a party in the funding script.
pub uninterp spec fn fund_pubkey_of(p: dlc::PartyParams) -> secp256k1_zkp::PublicKey;

/// The big-endian bytes of a 128-bit value.
pub open spec fn be_bytes_u128(x: u128) -> Seq<u8> {
    Seq::new(16, |i: int| ((x as int / vstd::arithmetic::power::pow(256, (15 - i) as nat)) % 256) as u8)
}

/// The identifier of a transaction, in its internal byte order.
pub uninterp spec fn txid_of(tx: bitcoin::Transaction) -> Seq<u8>;

/// The outputs of a transaction, each as its script bytes and its value in
/// satoshis.
pub uninterp spec fn tx_outputs(tx: bitcoin::Transaction) -> Seq<(Seq<u8>, u64)>;

/// The number of inputs of a transaction.
pub uninterp spec fn tx_input_count(tx: bitcoin::Transaction) -> nat;

/// The pay-to-witness-script-hash script that locks an output to a script.
pub uninterp spec fn p2wsh_of(script: Seq<u8>) -> Seq<u8>;

/// The SHA-256 digest of a byte string.
pub uninterp spec fn sha256_of(data: Seq<u8>) -> Seq<u8>;

/// The maturity time of the event that an oracle announces.
pub uninterp spec fn maturity_of(announcement: dlc_messages::oracle_msgs::OracleAnnouncement) -> u32;

/// The signatures of an attestation.
pub uninterp spec fn attested_signatures(
    attestation: dlc_messages::oracle_msgs::OracleAttestation,
) -> Seq<secp256k1_zkp::schnorr::Signature>;

/// The outcomes that an oracle attests.
pub uninterp spec fn attested_outcomes(attestation: dlc_messages::oracle_msgs::OracleAttestation) -> Seq<String>;

/// The transactions of a contract built from both parties' parameters, or
/// `None` where they cannot be built.
pub uninterp spec fn built_transactions(
    args: (dlc::PartyParams, dlc::PartyParams, Seq<Payout>, u32, u64, u32, u64),
) -> Option<DlcTransactions>;

/// The settlement transactions of an outcome space that spend the same input
/// as a given settlement transaction.
pub uninterp spec fn built_cets(
    args: (bitcoin::Transaction, Seq<u8>, u64, Seq<u8>, u64, Seq<Payout>),
) -> Seq<bitcoin::Transaction>;

/// The point under which the adaptor signatures for an outcome are encrypted:
/// the combination of the signature points of the given oracles, each
/// signing the given digest with its announced nonce.
pub uninterp spec fn adaptor_point_of(
    args: (Seq<dlc_messages::oracle_msgs::OracleAnnouncement>, Seq<u8>),
) -> Option<secp256k1_zkp::PublicKey>;

/// The public key of a secret key.
pub uninterp spec fn pubkey_of(sk: secp256k1_zkp::SecretKey) -> secp256k1_zkp::PublicKey;

/// The (deterministic, low-R) signature of the first input of a transaction.
pub uninterp spec fn input_sig_of(
    args: (bitcoin::Transaction, Seq<u8>, u64, secp256k1_zkp::SecretKey),
) -> secp256k1_zkp::ecdsa::Signature;

/// The UTF-8 bytes of a string.
pub uninterp spec fn utf8_of(s: Seq<char>) -> Seq<u8>;

/// The s-value of a Schnorr signature read as a secret key, if it is one.
pub uninterp spec fn s_value_secret(sig: secp256k1_zkp::schnorr::Signature) -> Option<secp256k1_zkp::SecretKey>;

/// The sum of two secret keys, unless it is zero.
pub uninterp spec fn secret_sum(args: (secp256k1_zkp::SecretKey, secp256k1_zkp::SecretKey)) -> Option<
    secp256k1_zkp::SecretKey,
>;

/// Whether completing an adaptor signature with the secret of oracle
/// signatures succeeds: every signature decomposes and the decryption works.
pub uninterp spec fn cet_completes(
    args: (secp256k1_zkp::EcdsaAdaptorSignature, Seq<secp256k1_zkp::schnorr::Signature>),
) -> bool;

/// Whether an attestation is signed by the oracle of an announcement, with its
/// announced nonces, over the outcomes it states.
pub uninterp spec fn attestation_valid(
    args: (dlc_messages::oracle_msgs::OracleAttestation, dlc_messages::oracle_msgs::OracleAnnouncement),
) -> bool;

/// The secret that oracle signatures reveal: the sum of their s-values, taken
/// in order.
pub open spec fn oracle_secret_upto(sigs: Seq<secp256k1_zkp::schnorr::Signature>, n: int) -> Option<
    secp256k1_zkp::SecretKey,
>
    decreases n,
{
    if n <= 1 {
        s_value_secret(sigs[0])
    } else {
        match (oracle_secret_upto(sigs, n - 1), s_value_secret(sigs[n - 1])) {
            (Some(a), Some(b)) => secret_sum((a, b)),
            _ => None,
        }
    }
}

/// The first signature of each oracle.
pub open spec fn first_sigs(
    sigs: Seq<Vec<secp256k1_zkp::schnorr::Signature>>,
) -> Seq<secp256k1_zkp::schnorr::Signature> {
    sigs.map_values(|v: Vec<secp256k1_zkp::schnorr::Signature>| v@[0])
}

/// The smallest output value that is not dust.
pub const DUST_LIMIT: u64 = 1000;

/// Whether an adaptor signature over a settlement transaction verifies for a
/// public key, under an adaptor point.
pub uninterp spec fn adaptor_sig_valid(
    args: (
        secp256k1_zkp::EcdsaAdaptorSignature,
        bitcoin::Transaction,
        secp256k1_zkp::PublicKey,
        secp256k1_zkp::PublicKey,
        Seq<u8>,
        u64,
    ),
) -> bool;

/// Whether a signature of the first input of a transaction verifies for a
/// public key.
pub uninterp spec fn input_sig_valid(
    args: (secp256k1_zkp::ecdsa::Signature, bitcoin::Transaction, Seq<u8>, u64, secp256k1_zkp::PublicKey),
) -> bool;

/// Relies on bitcoin::Transaction::compute_txid: the identifier is a digest of
/// the transaction alone.
#[verifier::external_body]
pub(crate) fn compute_txid(tx: &bitcoin::Transaction) -> (r: [u8; 32])
    ensures
        r@ == txid_of(*tx),
{
    bitcoin::hashes::Hash::to_byte_array(tx.compute_txid())
}

/// Relies on the public `collateral` field of dlc::PartyParams.
#[verifier::external_body]
pub(crate) fn party_collateral(p: &dlc::PartyParams) -> (r: u64)
    ensures
        r == collateral_of(*p),
{
    p.collateral
}

/// Relies on the public `payout_script_pubkey` field of dlc::PartyParams, read
/// as bytes (ScriptBuf::to_bytes).
#[verifier::external_body]
pub(crate) fn party_payout_script(p: &dlc::PartyParams) -> (r: Vec<u8>)
    ensures
        r@ == payout_script_of(*p),
{
    p.payout_script_pubkey.to_bytes()
}

/// Relies on the public `payout_serial_id` field of dlc::PartyParams.
#[verifier::external_body]
pub(crate) fn party_payout_serial_id(p: &dlc::PartyParams) -> (r: u64)
    ensures
        r == payout_serial_id_of(*p),
{
    p.payout_serial_id
}

/// Relies on the public `fund_pubkey` field of dlc::PartyParams.
#[verifier::external_body]
pub(crate) fn party_fund_pubkey(p: &dlc::PartyParams) -> (r: secp256k1_zkp::PublicKey)
    ensures
        r == fund_pubkey_of(*p),
{
    p.fund_pubkey
}

/// Relies on the public `input` field of bitcoin::Transaction.
#[verifier::external_body]
pub(crate) fn transaction_input_count(tx: &bitcoin::Transaction) -> (r: usize)
    ensures
        r == tx_input_count(*tx),
{
    tx.input.len()
}

/// Relies on u128::to_be_bytes: the sixteen bytes of the value, most
/// significant first.
#[verifier::external_body]
pub(crate) fn u128_to_be_bytes(x: u128) -> (r: [u8; 16])
    ensures
        r@ == be_bytes_u128(x),
{
    x.to_be_bytes()
}

/// Relies on the public `output` field of bitcoin::Transaction, read as script
/// bytes (ScriptBuf::to_bytes) and values (Amount::to_sat).
#[verifier::external_body]
pub(crate) fn transaction_outputs(tx: &bitcoin::Transaction) -> (r: Vec<(Vec<u8>, u64)>)
    ensures
        r@.len() == tx_outputs(*tx).len(),
        forall|i: int| 0 <= i < r@.len() ==> (#[trigger] r@[i]).0@ == tx_outputs(*tx)[i].0
            && r@[i].1 == tx_outputs(*tx)[i].1,
{
    tx.output.iter().map(|o| (o.script_pubkey.to_bytes(), o.value.to_sat())).collect()
}

/// Relies on bitcoin::Script::to_p2wsh: the witness script hash output script.
#[verifier::external_body]
pub(crate) fn to_p2wsh(script: &Vec<u8>) -> (r: Vec<u8>)
    ensures
        r@ == p2wsh_of(script@),
{
    bitcoin::ScriptBuf::from_bytes(script.clone()).to_p2wsh().to_bytes()
}

/// Relies on bitcoin::hashes::sha256::Hash::hash.
#[verifier::external_body]
pub(crate) fn sha256(data: &[u8]) -> (r: [u8; 32])
    ensures
        r@ == sha256_of(data@),
{
    bitcoin::hashes::Hash::to_byte_array(
        <bitcoin::hashes::sha256::Hash as bitcoin::hashes::Hash>::hash(data),
    )
}

/// Relies on the public `event_maturity_epoch` field of an announced event.
#[verifier::external_body]
pub(crate) fn announcement_maturity(a: &dlc_messages::oracle_msgs::OracleAnnouncement) -> (r: u32)
    ensures
        r == maturity_of(*a),
{
    a.oracle_event.event_maturity_epoch
}

/// Relies on the public `outcomes` field of an attestation.
#[verifier::external_body]
pub(crate) fn attestation_outcomes(a: &dlc_messages::oracle_msgs::OracleAttestation) -> (r: Vec<String>)
    ensures
        r@ == attested_outcomes(*a),
{
    a.outcomes.clone()
}

/// Relies on the public `signatures` field of an attestation.
#[verifier::external_body]
pub(crate) fn attestation_signatures(
    a: &dlc_messages::oracle_msgs::OracleAttestation,
) -> (r: Vec<secp256k1_zkp::schnorr::Signature>)
    ensures
        r@ == attested_signatures(*a),
{
    a.signatures.clone()
}

/// Relies on dlc::create_dlc_transactions, a function of its arguments. Each
/// settlement transaction pays one entry of `payouts`, in order, and each
/// settlement transaction and the refund transaction spend one input, the
/// funding output. The fund transaction has an output paying to the witness
/// script hash of the funding script (the function itself expects to find it).
/// That output holds the total collateral plus fees and is dropped as dust
/// below 1000 satoshis, which would make the function panic.
#[verifier::external_body]
pub(crate) fn create_dlc_transactions(
    offer_params: &dlc::PartyParams,
    accept_params: &dlc::PartyParams,
    payouts: &Vec<Payout>,
    refund_lock_time: u32,
    fee_rate_per_vb: u64,
    cet_lock_time: u32,
    fund_output_serial_id: u64,
) -> (r: Result<DlcTransactions, dlc::Error>)
    requires
        collateral_of(*offer_params) + collateral_of(*accept_params) >= DUST_LIMIT,
    ensures
        r is Ok <==> built_transactions(
            (*offer_params, *accept_params, payouts@, refund_lock_time, fee_rate_per_vb, cet_lock_time, fund_output_serial_id),
        ) is Some,
        r is Ok ==> Some(r->Ok_0) == built_transactions(
            (*offer_params, *accept_params, payouts@, refund_lock_time, fee_rate_per_vb, cet_lock_time, fund_output_serial_id),
        ),
        r is Ok ==> r->Ok_0.cets@.len() == payouts@.len(),
        r is Ok ==> r->Ok_0.fund_output_index_spec() is Some,
        r is Ok ==> tx_input_count(r->Ok_0.refund) == 1,
        r is Ok ==> forall|i: int| 0 <= i < r->Ok_0.cets@.len() ==> tx_input_count(#[trigger] r->Ok_0.cets@[i]) == 1,
{
    let payouts: Vec<dlc::Payout> = payouts.iter().map(|p| dlc::Payout { offer: p.offer, accept: p.accept }).collect();
    let txs = dlc::create_dlc_transactions(
        offer_params, accept_params, &payouts, refund_lock_time, fee_rate_per_vb, 0,
        cet_lock_time, fund_output_serial_id,
    )?;
    Ok(DlcTransactions { fund: txs.fund, cets: txs.cets, refund: txs.refund, funding_script_pubkey: txs.funding_script_pubkey.to_bytes() })
}

/// Relies on dlc::create_cets, a function of its arguments: one settlement
/// transaction per payout, each spending the first input of `first_cet`.
#[verifier::external_body]
pub(crate) fn create_cets(
    first_cet: &bitcoin::Transaction,
    offer_payout_script: &Vec<u8>,
    offer_payout_serial_id: u64,
    accept_payout_script: &Vec<u8>,
    accept_payout_serial_id: u64,
    payouts: &Vec<Payout>,
) -> (r: Vec<bitcoin::Transaction>)
    requires
        tx_input_count(*first_cet) >= 1,
    ensures
        r@ == built_cets(
            (*first_cet, offer_payout_script@, offer_payout_serial_id, accept_payout_script@, accept_payout_serial_id, payouts@),
        ),
        r@.len() == payouts@.len(),
        forall|i: int| 0 <= i < r@.len() ==> tx_input_count(#[trigger] r@[i]) == 1,
{
    let payouts: Vec<dlc::Payout> = payouts.iter().map(|p| dlc::Payout { offer: p.offer, accept: p.accept }).collect();
    dlc::create_cets(
        &first_cet.input[0], bitcoin::Script::from_bytes(offer_payout_script), offer_payout_serial_id,
        bitcoin::Script::from_bytes(accept_payout_script), accept_payout_serial_id, &payouts, 0,
    )
}

/// Relies on dlc::get_adaptor_point_from_oracle_info, a function of its
/// arguments; each announcement gives the oracle key and nonces, and each
/// oracle signs the message of `digest`.
#[verifier::external_body]
pub(crate) fn outcome_adaptor_point(
    announcements: &Vec<dlc_messages::oracle_msgs::OracleAnnouncement>,
    digest: &[u8; 32],
) -> (r: Result<secp256k1_zkp::PublicKey, dlc::Error>)
    ensures
        r is Ok <==> adaptor_point_of((announcements@, digest@)) is Some,
        r is Ok ==> Some(r->Ok_0) == adaptor_point_of((announcements@, digest@)),
{
    let infos: Vec<dlc::OracleInfo> = announcements.iter()
        .map(|a| dlc::OracleInfo { public_key: a.oracle_public_key, nonces: a.oracle_event.oracle_nonces.clone() })
        .collect();
    let msg = secp256k1_zkp::Message::from_digest(*digest);
    let msgs: Vec<Vec<secp256k1_zkp::Message>> = infos.iter().map(|_| vec![msg]).collect();
    dlc::get_adaptor_point_from_oracle_info(secp256k1_zkp::SECP256K1, &infos, &msgs)
}

/// Relies on str::as_bytes: the UTF-8 bytes of the string.
#[verifier::external_body]
pub(crate) fn utf8_bytes(s: &String) -> (r: Vec<u8>)
    ensures
        r@ == utf8_of(s@),
{
    s.as_bytes().to_vec()
}

/// Relies on secp256k1_zkp::SecretKey::from_slice over bytes 32 to 64 of a
/// Schnorr signature, its s-value (dlc::secp_utils::schnorrsig_decompose).
#[verifier::external_body]
pub(crate) fn s_value_of(sig: &secp256k1_zkp::schnorr::Signature) -> (r: Option<secp256k1_zkp::SecretKey>)
    ensures
        r == s_value_secret(*sig),
{
    secp256k1_zkp::SecretKey::from_slice(&sig.as_ref()[32..64]).ok()
}

/// Relies on secp256k1_zkp::SecretKey::add_tweak.
#[verifier::external_body]
pub(crate) fn add_secrets(a: &secp256k1_zkp::SecretKey, b: &secp256k1_zkp::SecretKey) -> (r: Option<
    secp256k1_zkp::SecretKey,
>)
    ensures
        r == secret_sum((*a, *b)),
{
    a.add_tweak(&secp256k1_zkp::Scalar::from(*b)).ok()
}

/// Relies on dlc_messages::oracle_msgs::OracleAttestation::validate.
#[verifier::external_body]
pub(crate) fn attestation_is_valid(
    attestation: &dlc_messages::oracle_msgs::OracleAttestation,
    announcement: &dlc_messages::oracle_msgs::OracleAnnouncement,
) -> (r: bool)
    ensures
        r == attestation_valid((*attestation, *announcement)),
{
    attestation.validate(secp256k1_zkp::SECP256K1, announcement).is_ok()
}

/// Relies on dlc::create_cet_adaptor_sig_from_point: an adaptor signature of the
/// first input of `cet`, encrypted under `adaptor_point`, by the key of
/// `funding_sk`, which verifies for that key and point. The signature hash
/// fails only for a missing input; the encryption itself cannot fail.
#[verifier::external_body]
pub(crate) fn create_adaptor_sig(
    cet: &bitcoin::Transaction,
    adaptor_point: &secp256k1_zkp::PublicKey,
    funding_sk: &secp256k1_zkp::SecretKey,
    funding_script: &Vec<u8>,
    fund_output_value: u64,
) -> (r: Result<secp256k1_zkp::EcdsaAdaptorSignature, dlc::Error>)
    ensures
        tx_input_count(*cet) >= 1 ==> r is Ok,
        r is Ok ==> adaptor_sig_valid(
            (r->Ok_0, *cet, *adaptor_point, pubkey_of(*funding_sk), funding_script@, fund_output_value),
        ),
{
    dlc::create_cet_adaptor_sig_from_point(secp256k1_zkp::SECP256K1, cet, adaptor_point, funding_sk, bitcoin::Script::from_bytes(funding_script), fund_output_value,
    )
}

/// Relies on dlc::verify_cet_adaptor_sig_from_point, a function of its arguments.
#[verifier::external_body]
pub(crate) fn verify_adaptor_sig(
    adaptor_sig: &secp256k1_zkp::EcdsaAdaptorSignature,
    cet: &bitcoin::Transaction,
    adaptor_point: &secp256k1_zkp::PublicKey,
    pubkey: &secp256k1_zkp::PublicKey,
    funding_script: &Vec<u8>,
    fund_output_value: u64,
) -> (r: Result<(), dlc::Error>)
    ensures
        r is Ok <==> adaptor_sig_valid((*adaptor_sig, *cet, *adaptor_point, *pubkey, funding_script@, fund_output_value)),
{
    dlc::verify_cet_adaptor_sig_from_point(secp256k1_zkp::SECP256K1, adaptor_sig, cet, adaptor_point, pubkey, bitcoin::Script::from_bytes(funding_script), fund_output_value,
    )
}

/// Relies on dlc::util::get_raw_sig_for_tx_input: the deterministic signature
/// of the first input of `tx`, which verifies for the key of `sk`. The
/// signature hash fails only for a missing input.
#[verifier::external_body]
pub(crate) fn sign_first_input(
    tx: &bitcoin::Transaction,
    script: &Vec<u8>,
    value: u64,
    sk: &secp256k1_zkp::SecretKey,
) -> (r: Result<secp256k1_zkp::ecdsa::Signature, dlc::Error>)
    ensures
        tx_input_count(*tx) >= 1 ==> r is Ok,
        r is Ok ==> r->Ok_0 == input_sig_of((*tx, script@, value, *sk)),
        r is Ok ==> input_sig_valid((r->Ok_0, *tx, script@, value, pubkey_of(*sk))),
{
    dlc::util::get_raw_sig_for_tx_input(secp256k1_zkp::SECP256K1, tx, 0, bitcoin::Script::from_bytes(script), value, sk)
}

/// Relies on dlc::verify_tx_input_sig, a function of its arguments.
#[verifier::external_body]
pub(crate) fn verify_first_input_sig(
    sig: &secp256k1_zkp::ecdsa::Signature,
    tx: &bitcoin::Transaction,
    script: &Vec<u8>,
    value: u64,
    pk: &secp256k1_zkp::PublicKey,
) -> (r: Result<(), dlc::Error>)
    ensures
        r is Ok <==> input_sig_valid((*sig, *tx, script@, value, *pk)),
{
    dlc::verify_tx_input_sig(secp256k1_zkp::SECP256K1, sig, tx, 0, bitcoin::Script::from_bytes(script), value, pk)
}

/// Relies on dlc::sign_cet: decrypts the adaptor signature with the secret that
/// the oracle signatures reveal and places both signatures on the witness of
/// the first input, which must exist; it changes nothing else, and a witness
/// is no part of the transaction id. It sums the s-values of the oracle
/// signatures, unwrapping each read and each sum after the first, so all must
/// succeed; whether it then succeeds depends on its arguments alone.
#[verifier::external_body]
pub(crate) fn sign_cet(
    cet: &mut bitcoin::Transaction,
    adaptor_sig: &secp256k1_zkp::EcdsaAdaptorSignature,
    oracle_sigs: &Vec<Vec<secp256k1_zkp::schnorr::Signature>>,
    funding_sk: &secp256k1_zkp::SecretKey,
    other_pk: &secp256k1_zkp::PublicKey,
    funding_script: &Vec<u8>,
    fund_output_value: u64,
) -> (r: Result<(), dlc::Error>)
    requires
        tx_input_count(*old(cet)) >= 1,
        oracle_sigs@.len() >= 1,
        forall|i: int| 0 <= i < oracle_sigs@.len() ==> (#[trigger] oracle_sigs@[i])@.len() == 1,
        oracle_secret_upto(first_sigs(oracle_sigs@), oracle_sigs@.len() as int) is Some,
    ensures
        r is Ok <==> cet_completes((*adaptor_sig, first_sigs(oracle_sigs@))),
        tx_outputs(*final(cet)) == tx_outputs(*old(cet)),
        txid_of(*final(cet)) == txid_of(*old(cet)),
        tx_input_count(*final(cet)) == tx_input_count(*old(cet)),
{
    dlc::sign_cet(secp256k1_zkp::SECP256K1, cet, adaptor_sig, oracle_sigs, funding_sk, other_pk, bitcoin::Script::from_bytes(funding_script),
        fund_output_value,
    )
}

/// Relies on dlc::util::sign_multi_sig_input: signs the first input and places
/// both signatures on its witness; it changes nothing else, and a witness is no
/// part of the transaction id. It indexes that input, which must exist; the
/// signature hash fails only for a missing input.
#[verifier::external_body]
pub(crate) fn sign_multi_sig_input(
    tx: &mut bitcoin::Transaction,
    other_sig: &secp256k1_zkp::ecdsa::Signature,
    other_pk: &secp256k1_zkp::PublicKey,
    sk: &secp256k1_zkp::SecretKey,
    script: &Vec<u8>,
    value: u64,
) -> (r: Result<(), dlc::Error>)
    requires
        tx_input_count(*old(tx)) >= 1,
    ensures
        r is Ok,
        tx_outputs(*final(tx)) == tx_outputs(*old(tx)),
        txid_of(*final(tx)) == txid_of(*old(tx)),
        tx_input_count(*final(tx)) == tx_input_count(*old(tx)),
{
    dlc::util::sign_multi_sig_input(secp256k1_zkp::SECP256K1, tx, other_sig, other_pk, sk, bitcoin::Script::from_bytes(script), value, 0)
}

/// The largest fee rate, in satoshis per virtual byte, accepted for a contract.
pub const MAX_FEE_RATE: u64 = 6250;

/// Relies on dlc::util::validate_fee_rate: it fails exactly on rates above
/// 25 * 250 satoshis per virtual byte.
#[verifier::external_body]
pub(crate) fn validate_fee_rate(fee_rate_per_vb: u64) -> (r: Result<(), dlc::Error>)
    ensures
        r is Ok <==> fee_rate_per_vb <= MAX_FEE_RATE,
{
    dlc::util::validate_fee_rate(fee_rate_per_vb)
}

} // verus!
