//! The records that a contract goes through: offered, accepted, signed, and
//! their loan variants, with the values derived from them.
use crate::contract_input::{ContractDescriptor, EnumerationPayout, Payout};
use crate::contract_updater::{expected_adaptor_infos, outcomes_before};
use crate::error::ContractError;
use crate::external::{
    collateral_of, compute_txid, p2wsh_of, party_collateral, party_payout_script, payout_script_of,
    to_p2wsh, transaction_input_count, transaction_outputs, tx_input_count, tx_outputs, txid_of,
};
use vstd::prelude::*;
use vstd::string::StringExecFns;

verus! {

/// The unsigned transactions shared by both parties.
#[derive(Clone)]
pub struct DlcTransactions {
    /// The fund transaction locking both parties' collateral.
    pub fund: bitcoin::Transaction,
    /// The settlement transactions, one per outcome, outcome spaces concatenated
    /// in declaration order.
    pub cets: Vec<bitcoin::Transaction>,
    /// The refund transaction.
    pub refund: bitcoin::Transaction,
    /// The script that locks the fund output, as bytes.
    pub funding_script_pubkey: Vec<u8>,
}

/// Index of the first output, at `i` or later, whose script is `script`.
pub open spec fn first_output_from(outs: Seq<(Seq<u8>, u64)>, script: Seq<u8>, i: int) -> Option<int>
    decreases outs.len() - i,
{
    if i < 0 || i >= outs.len() {
        None
    } else if outs[i].0 == script {
        Some(i)
    } else {
        first_output_from(outs, script, i + 1)
    }
}

/// The value of the first output paying to `script`, or zero if none does.
pub open spec fn payout_to(outs: Seq<(Seq<u8>, u64)>, script: Seq<u8>) -> u64 {
    match first_output_from(outs, script, 0) {
        Some(k) => outs[k].1,
        None => 0,
    }
}

/// Plain outputs as script bytes and values.
pub open spec fn outputs_view(outs: Seq<(Vec<u8>, u64)>) -> Seq<(Seq<u8>, u64)> {
    outs.map_values(|o: (Vec<u8>, u64)| (o.0@, o.1))
}

/// Finds the first output paying to `script`.
pub fn find_output(outs: &Vec<(Vec<u8>, u64)>, script: &Vec<u8>) -> (r: Option<usize>)
    ensures
        match r {
            Some(k) => first_output_from(outputs_view(outs@), script@, 0) == Some(k as int),
            None => first_output_from(outputs_view(outs@), script@, 0) is None,
        },
{
    let ghost view = outputs_view(outs@);
    let mut i: usize = 0;
    while i < outs.len()
        invariant
            i <= outs@.len(),
            view == outputs_view(outs@),
            first_output_from(view, script@, 0) == first_output_from(view, script@, i as int),
        decreases outs@.len() - i,
    {
        let same = outs[i].0 == *script;
        proof {
            assert(view[i as int].0 == outs@[i as int].0@);
            if same {
                assert(outs@[i as int].0@ =~= script@);
            } else {
                assert(view[i as int].0 != script@);
            }
        }
        if same {
            return Some(i);
        }
        i = i + 1;
    }
    None
}

/// Profit or loss of a party: the value of the first output paying to its
/// payout script (zero if none does) minus its collateral, both taken in the
/// signed amount domain.
pub fn pnl_for_outputs(outs: &Vec<(Vec<u8>, u64)>, payout_script: &Vec<u8>, collateral: u64) -> (r: Result<
    i64,
    ContractError,
>)
    ensures
        r is Ok <==> payout_to(outputs_view(outs@), payout_script@) <= i64::MAX && collateral <= i64::MAX,
        r is Ok ==> r->Ok_0 == payout_to(outputs_view(outs@), payout_script@) - collateral,
        r is Err ==> r->Err_0 is OutOfRange,
{
    let found = find_output(outs, payout_script);
    proof {
        lemma_first_output_in_range(outputs_view(outs@), payout_script@, 0);
    }
    let payout: u64 = match found {
        Some(k) => outs[k].1,
        None => 0,
    };
    assert(payout == payout_to(outputs_view(outs@), payout_script@));
    if payout > i64::MAX as u64 || collateral > i64::MAX as u64 {
        return Err(ContractError::OutOfRange);
    }
    Ok(payout as i64 - collateral as i64)
}

/// Two transaction sets hold the same transactions.
pub open spec fn same_transactions(a: DlcTransactions, b: DlcTransactions) -> bool {
    &&& a.fund == b.fund
    &&& a.cets@ == b.cets@
    &&& a.refund == b.refund
    &&& a.funding_script_pubkey@ == b.funding_script_pubkey@
}

impl DlcTransactions {
    /// A copy with the same transactions.
    pub fn duplicate(&self) -> (r: DlcTransactions)
        ensures
            same_transactions(r, *self),
    {
        let cets = self.cets.clone();
        assert(cets@ =~= self.cets@);
        let funding_script_pubkey = self.funding_script_pubkey.clone();
        assert(funding_script_pubkey@ =~= self.funding_script_pubkey@);
        DlcTransactions { fund: self.fund.clone(), cets, refund: self.refund.clone(), funding_script_pubkey }
    }

    /// Checks that the fund transaction has a fund output and that the refund
    /// and settlement transactions each spend one input.
    pub fn is_well_formed(&self) -> (r: bool)
        ensures
            r == self.wf(),
    {
        let outs = transaction_outputs(&self.fund);
        let script = to_p2wsh(&self.funding_script_pubkey);
        proof {
            assert(outputs_view(outs@) =~= tx_outputs(self.fund));
        }
        if find_output(&outs, &script).is_none() {
            return false;
        }
        if transaction_input_count(&self.refund) != 1 {
            return false;
        }
        let mut i: usize = 0;
        while i < self.cets.len()
            invariant
                i <= self.cets@.len(),
                forall|j: int| 0 <= j < i ==> tx_input_count(#[trigger] self.cets@[j]) == 1,
            decreases self.cets@.len() - i,
        {
            if transaction_input_count(&self.cets[i]) != 1 {
                return false;
            }
            i = i + 1;
        }
        true
    }
    /// Index of the fund output: the first output of the fund transaction
    /// that pays to the witness script hash of the funding script.
    pub open spec fn fund_output_index_spec(&self) -> Option<int> {
        first_output_from(tx_outputs(self.fund), p2wsh_of(self.funding_script_pubkey@), 0)
    }

    /// The fund transaction has a fund output, and the refund and settlement
    /// transactions each spend one input.
    pub open spec fn wf(&self) -> bool {
        &&& self.fund_output_index_spec() is Some
        &&& tx_input_count(self.refund) == 1
        &&& forall|i: int| 0 <= i < self.cets@.len() ==> tx_input_count(#[trigger] self.cets@[i]) == 1
    }

    /// Value of the fund output.
    pub open spec fn fund_output_value_spec(&self) -> u64 {
        tx_outputs(self.fund)[self.fund_output_index_spec()->0].1
    }

    /// Index of the fund output in the fund transaction.
    pub fn get_fund_output_index(&self) -> (r: usize)
        requires
            self.wf(),
        ensures
            self.fund_output_index_spec() == Some(r as int),
    {
        let outs = transaction_outputs(&self.fund);
        let script = to_p2wsh(&self.funding_script_pubkey);
        proof {
            assert(outputs_view(outs@) =~= tx_outputs(self.fund));
        }
        match find_output(&outs, &script) {
            Some(k) => k,
            None => {
                proof {
                    assert(false);
                }
                0
            },
        }
    }

    /// Value of the fund output.
    pub fn get_fund_output_value(&self) -> (r: u64)
        requires
            self.wf(),
        ensures
            r == self.fund_output_value_spec(),
    {
        let outs = transaction_outputs(&self.fund);
        let k = self.get_fund_output_index();
        proof {
            assert(first_output_from(tx_outputs(self.fund), p2wsh_of(self.funding_script_pubkey@), 0) == Some(k as int));
            lemma_first_output_in_range(tx_outputs(self.fund), p2wsh_of(self.funding_script_pubkey@), 0);
        }
        outs[k].1
    }
}

/// A found index lies within the outputs.
pub proof fn lemma_first_output_in_range(outs: Seq<(Seq<u8>, u64)>, script: Seq<u8>, i: int)
    ensures
        first_output_from(outs, script, i) matches Some(k) ==> i <= k < outs.len() && outs[k].0 == script,
    decreases outs.len() - i,
{
    if 0 <= i < outs.len() && outs[i].0 != script {
        lemma_first_output_in_range(outs, script, i + 1);
    }
}

/// One outcome space of an offered contract: its payouts and the
/// announcements of the oracles that attest it.
#[derive(Clone)]
pub struct ContractInfo {
    /// The payout function of the outcome space.
    pub contract_descriptor: ContractDescriptor,
    /// The announcements of the oracles, the attesting ones first.
    pub oracle_announcements: Vec<dlc_messages::oracle_msgs::OracleAnnouncement>,
    /// The number of oracles whose attestations close the contract.
    pub threshold: usize,
}

/// What an outcome space holds: its outcomes with their payouts, the oracle
/// announcements and the number of attesting oracles.
pub struct ContractInfoView {
    pub outcomes: Seq<EnumerationPayout>,
    pub oracle_announcements: Seq<dlc_messages::oracle_msgs::OracleAnnouncement>,
    pub threshold: usize,
}

impl ContractInfoView {
    /// The payouts, one per outcome.
    pub open spec fn payouts_spec(&self) -> Seq<Payout> {
        self.outcomes.map_values(|e: EnumerationPayout| e.payout)
    }

    /// The outcomes with their payouts.
    pub open spec fn outcomes(&self) -> Seq<EnumerationPayout> {
        self.outcomes
    }

    /// The attesting oracles are among the announced ones.
    pub open spec fn wf(&self) -> bool {
        self.threshold <= self.oracle_announcements.len()
    }
}

impl View for ContractInfo {
    type V = ContractInfoView;

    open spec fn view(&self) -> ContractInfoView {
        ContractInfoView {
            outcomes: match self.contract_descriptor {
                ContractDescriptor::Enum(d) => d.outcome_payouts@,
            },
            oracle_announcements: self.oracle_announcements@,
            threshold: self.threshold,
        }
    }
}

/// The views of a sequence of outcome spaces.
pub open spec fn infos_view(infos: Seq<ContractInfo>) -> Seq<ContractInfoView> {
    infos.map_values(|c: ContractInfo| c@)
}

impl ContractInfo {
    /// The outcomes with their payouts, in settlement transaction order.
    pub open spec fn outcomes(&self) -> Seq<EnumerationPayout> {
        self@.outcomes
    }

    /// The payouts, one per outcome.
    pub open spec fn payouts_spec(&self) -> Seq<Payout> {
        self@.payouts_spec()
    }

    /// The attesting oracles are among the announced ones.
    pub open spec fn wf(&self) -> bool {
        self@.wf()
    }

    /// A copy equal to this one.
    pub fn duplicate(&self) -> (r: ContractInfo)
        ensures
            r@ == self@,
    {
        let oracle_announcements = self.oracle_announcements.clone();
        assert(oracle_announcements@ =~= self.oracle_announcements@);
        ContractInfo {
            contract_descriptor: self.contract_descriptor.duplicate(),
            oracle_announcements,
            threshold: self.threshold,
        }
    }

    /// The number of outcomes of this space.
    pub fn nb_outcomes(&self) -> (r: usize)
        ensures
            r == self.outcomes().len(),
    {
        match &self.contract_descriptor {
            ContractDescriptor::Enum(d) => d.outcome_payouts.len(),
        }
    }

    /// The outcome at position `k`.
    pub fn outcome(&self, k: usize) -> (r: &String)
        requires
            k < self.outcomes().len(),
        ensures
            *r == self.outcomes()[k as int].outcome,
    {
        match &self.contract_descriptor {
            ContractDescriptor::Enum(d) => &d.outcome_payouts[k].outcome,
        }
    }

    /// The payouts of this space, one per outcome, in order.
    pub fn get_payouts(&self) -> (r: Vec<Payout>)
        ensures
            r@ == self.payouts_spec(),
    {
        let n = self.nb_outcomes();
        let mut payouts: Vec<Payout> = Vec::new();
        let mut k: usize = 0;
        while k < n
            invariant
                n == self.outcomes().len(),
                k <= n,
                payouts@ == self.payouts_spec().subrange(0, k as int),
            decreases n - k,
        {
            let p = match &self.contract_descriptor {
                ContractDescriptor::Enum(d) => d.outcome_payouts[k].payout,
            };
            payouts.push(p);
            k = k + 1;
            assert(payouts@ =~= self.payouts_spec().subrange(0, k as int));
        }
        assert(payouts@ =~= self.payouts_spec());
        payouts
    }
}

/// Where the settlement transactions and adaptor signatures of one outcome
/// space sit in the flat sequence shared by all spaces: outcome `k` of the
/// space has index `adaptor_index_start + k`.
#[derive(Clone, Copy, Debug, PartialEq, Eq, Structural)]
pub struct AdaptorInfo {
    /// Index of the first outcome of the space.
    pub adaptor_index_start: usize,
    /// Number of outcomes of the space.
    pub nb_outcomes: usize,
}

/// A contract as the offering party proposes it.
#[derive(Clone)]
pub struct OfferedContract {
    /// The temporary id of the contract.
    pub id: [u8; 32],
    /// Whether the local party is the offering party.
    pub is_offer_party: bool,
    /// The outcome spaces of the contract.
    pub contract_info: Vec<ContractInfo>,
    /// The public key of the counter party's node.
    pub counter_party: secp256k1_zkp::PublicKey,
    /// The parameters of the offering party.
    pub offer_params: dlc::PartyParams,
    /// The sum of both parties' collateral, in satoshis.
    pub total_collateral: u64,
    /// The inputs with which the offering party funds the contract.
    pub funding_inputs: Vec<dlc_messages::FundingInput>,
    /// The serial id that orders the fund output.
    pub fund_output_serial_id: u64,
    /// The fee rate of the transactions, in satoshis per vbyte.
    pub fee_rate_per_vb: u64,
    /// The lock time of the settlement transactions.
    pub cet_locktime: u32,
    /// The lock time of the refund transaction.
    pub refund_locktime: u32,
    /// The key identifier from which the signing key of the contract derives.
    pub keys_id: [u8; 32],
}

/// What an offered contract holds, outcome spaces and funding inputs as
/// sequences.
pub struct OfferedContractView {
    pub id: [u8; 32],
    pub is_offer_party: bool,
    pub contract_info: Seq<ContractInfoView>,
    pub counter_party: secp256k1_zkp::PublicKey,
    pub offer_params: dlc::PartyParams,
    pub total_collateral: u64,
    pub funding_inputs: Seq<dlc_messages::FundingInput>,
    pub fund_output_serial_id: u64,
    pub fee_rate_per_vb: u64,
    pub cet_locktime: u32,
    pub refund_locktime: u32,
    pub keys_id: [u8; 32],
}

impl OfferedContractView {
    /// At least one outcome space, each well formed.
    pub open spec fn wf(&self) -> bool {
        &&& self.contract_info.len() > 0
        &&& forall|i: int| 0 <= i < self.contract_info.len() ==> (#[trigger] self.contract_info[i]).wf()
    }
}

impl View for OfferedContract {
    type V = OfferedContractView;

    open spec fn view(&self) -> OfferedContractView {
        OfferedContractView {
            id: self.id,
            is_offer_party: self.is_offer_party,
            contract_info: infos_view(self.contract_info@),
            counter_party: self.counter_party,
            offer_params: self.offer_params,
            total_collateral: self.total_collateral,
            funding_inputs: self.funding_inputs@,
            fund_output_serial_id: self.fund_output_serial_id,
            fee_rate_per_vb: self.fee_rate_per_vb,
            cet_locktime: self.cet_locktime,
            refund_locktime: self.refund_locktime,
            keys_id: self.keys_id,
        }
    }
}

impl OfferedContract {
    /// Checks that there is at least one outcome space, each well formed.
    pub fn is_well_formed(&self) -> (r: bool)
        ensures
            r == self.wf(),
    {
        if self.contract_info.len() == 0 {
            return false;
        }
        let mut i: usize = 0;
        while i < self.contract_info.len()
            invariant
                i <= self.contract_info@.len(),
                forall|j: int| 0 <= j < i ==> (#[trigger] self@.contract_info[j]).wf(),
            decreases self.contract_info@.len() - i,
        {
            assert(self@.contract_info[i as int] == self.contract_info@[i as int]@);
            if self.contract_info[i].threshold > self.contract_info[i].oracle_announcements.len() {
                return false;
            }
            i = i + 1;
        }
        true
    }

    /// A copy equal to this one.
    pub fn duplicate(&self) -> (r: OfferedContract)
        ensures
            r@ == self@,
    {
        let mut contract_info: Vec<ContractInfo> = Vec::new();
        let mut i: usize = 0;
        while i < self.contract_info.len()
            invariant
                i <= self.contract_info@.len(),
                contract_info@.len() == i,
                forall|j: int| 0 <= j < i ==> (#[trigger] contract_info@[j])@ == self.contract_info@[j]@,
            decreases self.contract_info@.len() - i,
        {
            contract_info.push(self.contract_info[i].duplicate());
            i = i + 1;
        }
        assert(infos_view(contract_info@) =~= infos_view(self.contract_info@));
        let funding_inputs = self.funding_inputs.clone();
        assert(funding_inputs@ =~= self.funding_inputs@);
        OfferedContract {
            id: self.id,
            is_offer_party: self.is_offer_party,
            contract_info,
            counter_party: self.counter_party,
            offer_params: self.offer_params.clone(),
            total_collateral: self.total_collateral,
            funding_inputs,
            fund_output_serial_id: self.fund_output_serial_id,
            fee_rate_per_vb: self.fee_rate_per_vb,
            cet_locktime: self.cet_locktime,
            refund_locktime: self.refund_locktime,
            keys_id: self.keys_id,
        }
    }

    /// At least one outcome space, each well formed.
    pub open spec fn wf(&self) -> bool {
        self@.wf()
    }
}

/// A loan offer: a contract together with the loan terms.
#[derive(Clone)]
pub struct OfferedLoanContract {
    /// The contract that secures the loan.
    pub offered_contract: OfferedContract,
    /// Collateralization ratio in percent.
    pub collateral_ratio: u64,
    /// Liquidation ratio in percent.
    pub liquidation_ratio: u64,
    /// Interest rate in percent.
    pub interest_rate: u64,
    /// Duration of the loan in seconds.
    pub duration: u64,
    /// The digest of the lender's preimage.
    pub lender_hash: [u8; 32],
}

/// A contract in the accepted state.
#[derive(Clone)]
pub struct AcceptedContract {
    /// The offered contract that was accepted.
    pub offered_contract: OfferedContract,
    /// The parameters of the accepting party.
    pub accept_params: dlc::PartyParams,
    /// The inputs with which the accepting party funds the contract.
    pub funding_inputs: Vec<dlc_messages::FundingInput>,
    /// One entry per outcome space.
    pub adaptor_infos: Vec<AdaptorInfo>,
    /// The adaptor signatures of the accepting party, kept only by the
    /// offering party.
    pub adaptor_signatures: Option<Vec<secp256k1_zkp::EcdsaAdaptorSignature>>,
    /// The accepting party's signature of the refund transaction.
    pub accept_refund_signature: secp256k1_zkp::ecdsa::Signature,
    /// The transactions of the contract.
    pub dlc_transactions: DlcTransactions,
}

/// A loan contract in the accepted state.
#[derive(Clone)]
pub struct AcceptedLoanContract {
    /// The offered loan contract that was accepted.
    pub offered_loan_contract: OfferedLoanContract,
    /// The parameters of the accepting party.
    pub accept_params: dlc::PartyParams,
    /// The inputs with which the accepting party funds the contract.
    pub funding_inputs: Vec<dlc_messages::FundingInput>,
    /// One entry per outcome space.
    pub adaptor_infos: Vec<AdaptorInfo>,
    /// The adaptor signatures of the accepting party, kept only by the
    /// offering party.
    pub adaptor_signatures: Option<Vec<secp256k1_zkp::EcdsaAdaptorSignature>>,
    /// The accepting party's signature of the refund transaction.
    pub accept_refund_signature: secp256k1_zkp::ecdsa::Signature,
    /// The transactions of the contract.
    pub dlc_transactions: DlcTransactions,
    /// The id of the escrow transaction.
    pub escrow_txid: bitcoin::Txid,
    /// The digest of the borrower's preimage.
    pub borrower_hash: [u8; 32],
    /// The signed transaction that spends the escrow output into the
    /// collateral output.
    pub signed_escrow_spend_tx: bitcoin::Transaction,
}

/// A contract in the signed state.
#[derive(Clone)]
pub struct SignedContract {
    /// The accepted contract that was signed.
    pub accepted_contract: AcceptedContract,
    /// The adaptor signatures of the offering party, kept only by the
    /// accepting party.
    pub adaptor_signatures: Option<Vec<secp256k1_zkp::EcdsaAdaptorSignature>>,
    /// The offering party's signature of the refund transaction.
    pub offer_refund_signature: secp256k1_zkp::ecdsa::Signature,
    /// The signatures of the funding inputs.
    pub funding_signatures: dlc_messages::FundingSignatures,
    /// The channel the contract belongs to, if any.
    pub channel_id: Option<[u8; 32]>,
}

/// Byte `i` of a contract id: the fund transaction id reversed, xored with the
/// temporary id, and the fund output index xored into the last two bytes.
pub open spec fn contract_id_byte(txid: Seq<u8>, index: u16, temporary_id: Seq<u8>, i: int) -> u8 {
    let b = txid[31 - i] ^ temporary_id[i];
    if i == 30 {
        b ^ ((index >> 8u16) as u8)
    } else if i == 31 {
        b ^ ((index & 0xffu16) as u8)
    } else {
        b
    }
}

/// The contract id derived from the fund transaction id, the fund output
/// index and the temporary id, as the DLC protocol defines it
/// (<https://github.com/discreetlogcontracts/dlcspecs/blob/master/Protocol.md#requirements-2>):
/// no hash is involved, so every record of the contract yields the same 32
/// bytes from the same three values.
pub open spec fn contract_id_of(txid: Seq<u8>, index: u16, temporary_id: Seq<u8>) -> Seq<u8> {
    Seq::new(32, |i: int| contract_id_byte(txid, index, temporary_id, i))
}

/// Computes a contract id.
pub fn compute_id(fund_txid: &[u8; 32], fund_output_index: u16, temporary_id: &[u8; 32]) -> (r: [u8; 32])
    ensures
        r@ == contract_id_of(fund_txid@, fund_output_index, temporary_id@),
{
    let mut res: [u8; 32] = [0u8; 32];
    let mut i: usize = 0;
    while i < 32
        invariant
            i <= 32,
            res@.len() == 32,
            forall|j: int| 0 <= j < i ==> res@[j] == contract_id_byte(fund_txid@, fund_output_index, temporary_id@, j),
        decreases 32 - i,
    {
        let b = fund_txid[31 - i] ^ temporary_id[i];
        let v: u8 = if i == 30 {
            b ^ ((fund_output_index >> 8u16) as u8)
        } else if i == 31 {
            b ^ ((fund_output_index & 0xffu16) as u8)
        } else {
            b
        };
        res[i] = v;
        i = i + 1;
    }
    assert(res@ =~= contract_id_of(fund_txid@, fund_output_index, temporary_id@));
    res
}

/// The id of a contract with the given transactions and temporary id.
pub open spec fn transactions_contract_id(txs: DlcTransactions, temporary_id: Seq<u8>) -> Seq<u8> {
    contract_id_of(txid_of(txs.fund), txs.fund_output_index_spec()->0 as u16, temporary_id)
}

/// Computes the id of a contract from its transactions.
fn contract_id_for(txs: &DlcTransactions, temporary_id: &[u8; 32]) -> (r: [u8; 32])
    requires
        txs.wf(),
    ensures
        r@ == transactions_contract_id(*txs, temporary_id@),
{
    let txid = compute_txid(&txs.fund);
    let index = txs.get_fund_output_index();
    compute_id(&txid, index as u16, temporary_id)
}

/// The hexadecimal digit of a value below sixteen.
pub open spec fn hex_char(n: u8) -> char {
    seq!['0', '1', '2', '3', '4', '5', '6', '7', '8', '9', 'a', 'b', 'c', 'd', 'e', 'f'][n as int]
}

/// Lowercase hexadecimal rendering of bytes, two digits per byte.
pub open spec fn hex_of(bytes: Seq<u8>) -> Seq<char>
    decreases bytes.len(),
{
    if bytes.len() == 0 {
        Seq::empty()
    } else {
        hex_of(bytes.drop_last()) + seq![hex_char(bytes.last() / 16), hex_char(bytes.last() % 16)]
    }
}

fn hex_digit(n: u8) -> (r: &'static str)
    requires
        n < 16,
    ensures
        r@ == seq![hex_char(n)],
{
    proof {
        reveal_strlit("0");
        reveal_strlit("1");
        reveal_strlit("2");
        reveal_strlit("3");
        reveal_strlit("4");
        reveal_strlit("5");
        reveal_strlit("6");
        reveal_strlit("7");
        reveal_strlit("8");
        reveal_strlit("9");
        reveal_strlit("a");
        reveal_strlit("b");
        reveal_strlit("c");
        reveal_strlit("d");
        reveal_strlit("e");
        reveal_strlit("f");
    }
    let r = match n {
        0 => "0",
        1 => "1",
        2 => "2",
        3 => "3",
        4 => "4",
        5 => "5",
        6 => "6",
        7 => "7",
        8 => "8",
        9 => "9",
        10 => "a",
        11 => "b",
        12 => "c",
        13 => "d",
        14 => "e",
        _ => "f",
    };
    assert(r@ =~= seq![hex_char(n)]);
    r
}

/// Renders an id as `0x` followed by its bytes in lowercase hexadecimal.
pub fn id_to_string(id: &[u8; 32]) -> (r: String)
    ensures
        r@ == seq!['0', 'x'] + hex_of(id@),
{
    proof {
        reveal_strlit("0x");
    }
    let mut s = String::from_str("0x");
    let mut i: usize = 0;
    while i < 32
        invariant
            i <= 32,
            id@.len() == 32,
            s@ == seq!['0', 'x'] + hex_of(id@.subrange(0, i as int)),
        decreases 32 - i,
    {
        let b = id[i];
        s.append(hex_digit(b / 16));
        s.append(hex_digit(b % 16));
        proof {
            let pre = id@.subrange(0, i as int + 1);
            assert(pre.drop_last() =~= id@.subrange(0, i as int));
            assert(pre.last() == b);
        }
        i = i + 1;
        assert(s@ =~= seq!['0', 'x'] + hex_of(id@.subrange(0, i as int)));
    }
    assert(id@.subrange(0, 32) =~= id@);
    s
}

/// Two accepted records hold the same values.
pub open spec fn same_accepted(a: AcceptedContract, b: AcceptedContract) -> bool {
    &&& a.offered_contract@ == b.offered_contract@
    &&& a.accept_params == b.accept_params
    &&& a.funding_inputs@ == b.funding_inputs@
    &&& a.adaptor_infos@ == b.adaptor_infos@
    &&& match (a.adaptor_signatures, b.adaptor_signatures) {
        (Some(x), Some(y)) => x@ == y@,
        (None, None) => true,
        _ => false,
    }
    &&& a.accept_refund_signature == b.accept_refund_signature
    &&& same_transactions(a.dlc_transactions, b.dlc_transactions)
}

impl AcceptedContract {
    /// Checks the well-formedness of the record.
    pub fn is_well_formed(&self) -> (r: bool)
        ensures
            r == self.wf(),
    {
        if !self.offered_contract.is_well_formed() || !self.dlc_transactions.is_well_formed() {
            return false;
        }
        let infos = &self.offered_contract.contract_info;
        let ghost views = self.offered_contract@.contract_info;
        let n = infos.len();
        if self.adaptor_infos.len() != n {
            proof {
                assert(expected_adaptor_infos(views).len() == n);
            }
            return false;
        }
        let cets_len = self.dlc_transactions.cets.len();
        let mut start: usize = 0;
        let mut i: usize = 0;
        while i < n
            invariant
                n == infos@.len(),
                self.offered_contract.wf(),
                self.dlc_transactions.wf(),
                views == self.offered_contract@.contract_info,
                views == infos_view(infos@),
                self.adaptor_infos@.len() == n,
                i <= n,
                start == outcomes_before(views, i as int),
                start <= cets_len,
                cets_len == self.dlc_transactions.cets@.len(),
                forall|j: int| 0 <= j < i ==> self.adaptor_infos@[j] == (#[trigger] expected_adaptor_infos(views)[j]),
            decreases n - i,
        {
            assert(views[i as int] == infos@[i as int]@);
            let nb = infos[i].nb_outcomes();
            let expected = AdaptorInfo { adaptor_index_start: start, nb_outcomes: nb };
            assert(expected == expected_adaptor_infos(views)[i as int]);
            if self.adaptor_infos[i] != expected {
                assert(self.adaptor_infos@[i as int] != expected_adaptor_infos(views)[i as int]);
                assert(self.adaptor_infos@ != expected_adaptor_infos(views));
                return false;
            }
            if nb > cets_len - start {
                proof {
                    assert(outcomes_before(views, i as int + 1) == start + nb);
                    crate::contract_updater::lemma_outcomes_before_monotone(views, i as int + 1, n as int);
                    assert(views.len() == n);
                    assert(outcomes_before(views, views.len() as int) > self.dlc_transactions.cets@.len());
                }
                return false;
            }
            start = start + nb;
            i = i + 1;
        }
        assert(self.adaptor_infos@ =~= expected_adaptor_infos(views));
        true
    }

    /// A copy holding the same values.
    pub fn duplicate(&self) -> (r: AcceptedContract)
        ensures
            same_accepted(r, *self),
    {
        let funding_inputs = self.funding_inputs.clone();
        assert(funding_inputs@ =~= self.funding_inputs@);
        let adaptor_infos = self.adaptor_infos.clone();
        assert(adaptor_infos@ =~= self.adaptor_infos@);
        let adaptor_signatures = match &self.adaptor_signatures {
            Some(v) => {
                let c = v.clone();
                assert(c@ =~= v@);
                Some(c)
            },
            None => None,
        };
        AcceptedContract {
            offered_contract: self.offered_contract.duplicate(),
            accept_params: self.accept_params.clone(),
            funding_inputs,
            adaptor_infos,
            adaptor_signatures,
            accept_refund_signature: self.accept_refund_signature,
            dlc_transactions: self.dlc_transactions.duplicate(),
        }
    }

    /// The outcome spaces are well formed, the adaptor infos lay them out one
    /// after the other, and the settlement transactions cover them.
    pub open spec fn wf(&self) -> bool {
        &&& self.offered_contract.wf()
        &&& self.dlc_transactions.wf()
        &&& self.adaptor_infos@ == expected_adaptor_infos(self.offered_contract@.contract_info)
        &&& outcomes_before(self.offered_contract@.contract_info, self.offered_contract@.contract_info.len() as int)
            <= self.dlc_transactions.cets@.len()
    }

    /// The parameters of the local party.
    pub open spec fn own_params(&self) -> dlc::PartyParams {
        if self.offered_contract.is_offer_party {
            self.offered_contract.offer_params
        } else {
            self.accept_params
        }
    }

    /// The id of the contract.
    pub open spec fn contract_id(&self) -> Seq<u8> {
        transactions_contract_id(self.dlc_transactions, self.offered_contract.id@)
    }

    /// Returns the contract id.
    pub fn get_contract_id(&self) -> (r: [u8; 32])
        requires
            self.dlc_transactions.wf(),
        ensures
            r@ == self.contract_id(),
    {
        contract_id_for(&self.dlc_transactions, &self.offered_contract.id)
    }

    /// Returns the contract id as `0x` followed by 64 lowercase hex digits.
    pub fn get_contract_id_string(&self) -> (r: String)
        requires
            self.dlc_transactions.wf(),
        ensures
            r@ == seq!['0', 'x'] + hex_of(self.contract_id()),
    {
        let id = self.get_contract_id();
        id_to_string(&id)
    }

    /// Profit or loss of the local party if `cet` settles the contract.
    pub fn compute_pnl(&self, cet: &bitcoin::Transaction) -> (r: Result<i64, ContractError>)
        ensures
            r is Ok <==> payout_to(tx_outputs(*cet), payout_script_of(self.own_params())) <= i64::MAX
                && collateral_of(self.own_params()) <= i64::MAX,
            r is Ok ==> r->Ok_0 == payout_to(tx_outputs(*cet), payout_script_of(self.own_params()))
                - collateral_of(self.own_params()),
            r is Err ==> r->Err_0 is OutOfRange,
    {
        let params = if self.offered_contract.is_offer_party {
            &self.offered_contract.offer_params
        } else {
            &self.accept_params
        };
        pnl_for_transaction(params, cet)
    }
}

/// Profit or loss of a party if `cet` settles the contract.
fn pnl_for_transaction(params: &dlc::PartyParams, cet: &bitcoin::Transaction) -> (r: Result<i64, ContractError>)
    ensures
        r is Ok <==> payout_to(tx_outputs(*cet), payout_script_of(*params)) <= i64::MAX
            && collateral_of(*params) <= i64::MAX,
        r is Ok ==> r->Ok_0 == payout_to(tx_outputs(*cet), payout_script_of(*params)) - collateral_of(*params),
        r is Err ==> r->Err_0 is OutOfRange,
{
    let outs = transaction_outputs(cet);
    let script = party_payout_script(params);
    let collateral = party_collateral(params);
    proof {
        assert(outputs_view(outs@) =~= tx_outputs(*cet));
    }
    pnl_for_outputs(&outs, &script, collateral)
}

impl OfferedLoanContract {
    /// A copy holding the same values.
    pub fn duplicate(&self) -> (r: OfferedLoanContract)
        ensures
            r.offered_contract@ == self.offered_contract@,
            r.collateral_ratio == self.collateral_ratio,
            r.liquidation_ratio == self.liquidation_ratio,
            r.interest_rate == self.interest_rate,
            r.duration == self.duration,
            r.lender_hash == self.lender_hash,
    {
        OfferedLoanContract {
            offered_contract: self.offered_contract.duplicate(),
            collateral_ratio: self.collateral_ratio,
            liquidation_ratio: self.liquidation_ratio,
            interest_rate: self.interest_rate,
            duration: self.duration,
            lender_hash: self.lender_hash,
        }
    }
}

impl AcceptedLoanContract {
    /// The base protocol record that this loan record holds.
    pub open spec fn base(&self) -> AcceptedContract {
        AcceptedContract {
            offered_contract: self.offered_loan_contract.offered_contract,
            accept_params: self.accept_params,
            funding_inputs: self.funding_inputs,
            adaptor_infos: self.adaptor_infos,
            adaptor_signatures: self.adaptor_signatures,
            accept_refund_signature: self.accept_refund_signature,
            dlc_transactions: self.dlc_transactions,
        }
    }

    /// The parameters of the local party.
    pub open spec fn own_params(&self) -> dlc::PartyParams {
        if self.offered_loan_contract.offered_contract.is_offer_party {
            self.offered_loan_contract.offered_contract.offer_params
        } else {
            self.accept_params
        }
    }

    /// The id of the contract.
    pub open spec fn contract_id(&self) -> Seq<u8> {
        transactions_contract_id(self.dlc_transactions, self.offered_loan_contract.offered_contract.id@)
    }

    /// Returns the contract id.
    pub fn get_contract_id(&self) -> (r: [u8; 32])
        requires
            self.dlc_transactions.wf(),
        ensures
            r@ == self.contract_id(),
    {
        contract_id_for(&self.dlc_transactions, &self.offered_loan_contract.offered_contract.id)
    }

    /// Returns the contract id as `0x` followed by 64 lowercase hex digits.
    pub fn get_contract_id_string(&self) -> (r: String)
        requires
            self.dlc_transactions.wf(),
        ensures
            r@ == seq!['0', 'x'] + hex_of(self.contract_id()),
    {
        let id = self.get_contract_id();
        id_to_string(&id)
    }

    /// Profit or loss of the local party if `cet` settles the contract.
    pub fn compute_pnl(&self, cet: &bitcoin::Transaction) -> (r: Result<i64, ContractError>)
        ensures
            r is Ok <==> payout_to(tx_outputs(*cet), payout_script_of(self.own_params())) <= i64::MAX
                && collateral_of(self.own_params()) <= i64::MAX,
            r is Ok ==> r->Ok_0 == payout_to(tx_outputs(*cet), payout_script_of(self.own_params()))
                - collateral_of(self.own_params()),
            r is Err ==> r->Err_0 is OutOfRange,
    {
        let params = if self.offered_loan_contract.offered_contract.is_offer_party {
            &self.offered_loan_contract.offered_contract.offer_params
        } else {
            &self.accept_params
        };
        pnl_for_transaction(params, cet)
    }

    /// Converts the loan record into a plain accepted contract, keeping every
    /// field of the base protocol and dropping the escrow fields.
    pub fn to_accepted_contract(self) -> (r: AcceptedContract)
        ensures
            r == self.base(),
            r.offered_contract == self.offered_loan_contract.offered_contract,
            r.accept_params == self.accept_params,
            r.funding_inputs == self.funding_inputs,
            r.adaptor_infos == self.adaptor_infos,
            r.adaptor_signatures == self.adaptor_signatures,
            r.accept_refund_signature == self.accept_refund_signature,
            r.dlc_transactions == self.dlc_transactions,
    {
        AcceptedContract {
            offered_contract: self.offered_loan_contract.offered_contract,
            accept_params: self.accept_params,
            funding_inputs: self.funding_inputs,
            adaptor_infos: self.adaptor_infos,
            adaptor_signatures: self.adaptor_signatures,
            accept_refund_signature: self.accept_refund_signature,
            dlc_transactions: self.dlc_transactions,
        }
    }
}

impl SignedContract {
    /// Returns the contract id, that of the accepted contract it wraps.
    pub fn get_contract_id(&self) -> (r: [u8; 32])
        requires
            self.accepted_contract.dlc_transactions.wf(),
        ensures
            r@ == self.accepted_contract.contract_id(),
    {
        self.accepted_contract.get_contract_id()
    }
}

} // verus!
