//! The terms of a contract as a user states them, before any negotiation.
use crate::error::ContractError;
use crate::external::{validate_fee_rate, MAX_FEE_RATE};
use vstd::prelude::*;

verus! {

/// The payouts of both parties for one outcome, in satoshis.
#[derive(Debug, Clone, Copy, PartialEq, Eq)]
pub struct Payout {
    /// Payout for the offering party.
    pub offer: u64,
    /// Payout for the accepting party.
    pub accept: u64,
}

/// The payout attached to one enumerated outcome.
#[derive(Debug, Clone)]
pub struct EnumerationPayout {
    /// The outcome as the oracle will attest it (before hashing).
    pub outcome: String,
    /// The payouts for that outcome.
    pub payout: Payout,
}

/// An outcome space made of discrete outcomes.
#[derive(Debug, Clone)]
pub struct EnumDescriptor {
    /// One entry per outcome, in the order of the settlement transactions.
    pub outcome_payouts: Vec<EnumerationPayout>,
}

/// The payout function of one outcome space.
#[derive(Debug, Clone)]
pub enum ContractDescriptor {
    /// A payout per enumerated outcome.
    Enum(EnumDescriptor),
}

/// Oracle information required for the initial creation of a contract.
#[derive(Debug, Clone)]
pub struct OracleInput {
    /// The public keys of the oracles used.
    pub public_keys: Vec<secp256k1_zkp::XOnlyPublicKey>,
    /// The id of the event on which the contract is based.
    pub event_id: String,
    /// The number of oracles that must attest for the contract to close.
    pub threshold: u16,
}

/// One outcome space of a contract with its oracles.
#[derive(Debug, Clone)]
pub struct ContractInputInfo {
    /// The contract conditions.
    pub contract_descriptor: ContractDescriptor,
    /// The oracle information.
    pub oracles: OracleInput,
}

/// Everything needed to initiate a contract.
#[derive(Debug, Clone)]
pub struct ContractInput {
    /// The collateral of the offering party, in satoshis.
    pub offer_collateral: u64,
    /// The collateral of the accepting party, in satoshis.
    pub accept_collateral: u64,
    /// The fee rate used to build the transactions, in satoshis per vbyte.
    pub fee_rate: u64,
    /// The outcome spaces that make up the contract.
    pub contract_infos: Vec<ContractInputInfo>,
}

/// The terms of a loan, on top of those of the contract that secures it.
#[derive(Debug, Clone)]
pub struct LoanContractInput {
    /// Collateralization ratio in percent.
    pub collateral_ratio: u64,
    /// Liquidation ratio in percent.
    pub liquidation_ratio: u64,
    /// Interest rate in percent.
    pub interest_rate: u64,
    /// Duration of the loan in seconds.
    pub duration: u64,
    /// The collateral of the borrower, in satoshis.
    pub collateral: u64,
    /// The fee rate used to build the transactions, in satoshis per vbyte.
    pub fee_rate: u64,
    /// The outcome spaces that make up the contract.
    pub contract_infos: Vec<ContractInputInfo>,
}

impl EnumerationPayout {
    /// A copy equal to this one.
    pub fn duplicate(&self) -> (r: EnumerationPayout)
        ensures
            r == *self,
    {
        EnumerationPayout { outcome: self.outcome.clone(), payout: self.payout }
    }
}

impl ContractDescriptor {
    /// A copy equal to this one.
    pub fn duplicate(&self) -> (r: ContractDescriptor)
        ensures
            r->Enum_0.outcome_payouts@ == self->Enum_0.outcome_payouts@,
    {
        match self {
            ContractDescriptor::Enum(d) => {
                let mut outcome_payouts: Vec<EnumerationPayout> = Vec::new();
                let mut i: usize = 0;
                while i < d.outcome_payouts.len()
                    invariant
                        i <= d.outcome_payouts@.len(),
                        outcome_payouts@ == d.outcome_payouts@.subrange(0, i as int),
                    decreases d.outcome_payouts@.len() - i,
                {
                    outcome_payouts.push(d.outcome_payouts[i].duplicate());
                    i = i + 1;
                    assert(outcome_payouts@ =~= d.outcome_payouts@.subrange(0, i as int));
                }
                assert(outcome_payouts@ =~= d.outcome_payouts@);
                ContractDescriptor::Enum(EnumDescriptor { outcome_payouts })
            },
        }
    }
}

/// Oracle terms are consistent: at least one oracle, and a threshold between
/// one and the number of oracles.
pub open spec fn oracle_terms_valid(n_keys: nat, threshold: u16) -> bool {
    n_keys > 0 && 0 < threshold && threshold <= n_keys
}

/// Every outcome space has consistent oracle terms.
pub open spec fn all_oracles_valid(infos: Seq<ContractInputInfo>) -> bool {
    forall|i: int|
        0 <= i < infos.len() ==> #[trigger] oracle_terms_valid(
            infos[i].oracles.public_keys@.len(),
            infos[i].oracles.threshold,
        )
}

/// The terms that every contract must meet: at least one outcome space, valid
/// oracle terms in each, and a fee rate within the sanity bound.
pub open spec fn contract_terms_valid(infos: Seq<ContractInputInfo>, fee_rate: u64) -> bool {
    infos.len() > 0 && all_oracles_valid(infos) && fee_rate <= MAX_FEE_RATE
}

impl OracleInput {
    /// Checks that the oracle terms are consistent.
    pub fn validate(&self) -> (r: Result<(), ContractError>)
        ensures
            r is Ok <==> oracle_terms_valid(self.public_keys@.len(), self.threshold),
            r is Err ==> r->Err_0 is InvalidParameters,
    {
        if self.public_keys.len() == 0 {
            return Err(ContractError::InvalidParameters("OracleInput must have at least one public key.".to_string()));
        }
        if self.threshold as usize > self.public_keys.len() {
            return Err(ContractError::InvalidParameters("Threshold cannot be larger than number of oracles.".to_string()));
        }
        if self.threshold == 0 {
            return Err(ContractError::InvalidParameters("Threshold cannot be zero.".to_string()));
        }
        Ok(())
    }
}

/// Checks the terms shared by plain and loan contracts.
fn validate_contract_terms(infos: &Vec<ContractInputInfo>, fee_rate: u64) -> (r: Result<(), ContractError>)
    ensures
        r is Ok <==> contract_terms_valid(infos@, fee_rate),
        r is Err ==> r->Err_0 is InvalidParameters,
{
    if infos.len() == 0 {
        return Err(ContractError::InvalidParameters("Need at least one contract info".to_string()));
    }
    let mut i: usize = 0;
    while i < infos.len()
        invariant
            i <= infos@.len(),
            forall|j: int|
                0 <= j < i ==> #[trigger] oracle_terms_valid(
                    infos@[j].oracles.public_keys@.len(),
                    infos@[j].oracles.threshold,
                ),
        decreases infos@.len() - i,
    {
        let checked = infos[i].oracles.validate();
        if checked.is_err() {
            return checked;
        }
        i = i + 1;
    }
    match validate_fee_rate(fee_rate) {
        Ok(()) => Ok(()),
        Err(_) => Err(ContractError::InvalidParameters("Fee rate too high.".to_string())),
    }
}

impl ContractInput {
    /// Validates the contract terms.
    pub fn validate(&self) -> (r: Result<(), ContractError>)
        ensures
            r is Ok <==> contract_terms_valid(self.contract_infos@, self.fee_rate),
            r is Err ==> r->Err_0 is InvalidParameters,
    {
        validate_contract_terms(&self.contract_infos, self.fee_rate)
    }
}

/// The loan terms proper: an interest rate between 1 and 100 percent and a
/// non-zero duration.
pub open spec fn loan_terms_valid(interest_rate: u64, duration: u64) -> bool {
    1 <= interest_rate <= 100 && duration > 0
}

impl LoanContractInput {
    /// Validates the loan terms, then the terms of the contract that secures it.
    pub fn validate(&self) -> (r: Result<(), ContractError>)
        ensures
            r is Ok <==> loan_terms_valid(self.interest_rate, self.duration)
                && contract_terms_valid(self.contract_infos@, self.fee_rate),
            r is Err ==> r->Err_0 is InvalidParameters,
    {
        if self.interest_rate == 0 || self.interest_rate > 100 {
            return Err(ContractError::InvalidParameters("Interest rate must be between 1 and 100.".to_string()));
        }
        if self.duration == 0 {
            return Err(ContractError::InvalidParameters("Duration must be greater than zero.".to_string()));
        }
        validate_contract_terms(&self.contract_infos, self.fee_rate)
    }
}

} // verus!
