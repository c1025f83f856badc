//! The adaptor signature engine: one adaptor signature per settlement
//! transaction of an outcome space, generated and verified over a flat
//! sequence shared by all outcome spaces.
use crate::contract::{AdaptorInfo, ContractInfo, ContractInfoView};
use crate::error::ContractError;
use crate::external::{
    adaptor_point_of, adaptor_sig_valid, create_adaptor_sig, outcome_adaptor_point, pubkey_of, sha256, sha256_of,
    tx_input_count, utf8_bytes, utf8_of, verify_adaptor_sig,
};
use vstd::prelude::*;

verus! {

/// The announcements of the oracles that attest an outcome space: the first
/// `threshold` ones.
pub open spec fn attesting_announcements(info: ContractInfoView) -> Seq<dlc_messages::oracle_msgs::OracleAnnouncement> {
    info.oracle_announcements.subrange(0, info.threshold as int)
}

/// What the oracles sign for outcome `k`: the SHA-256 digest of its UTF-8
/// bytes.
pub open spec fn outcome_digest(info: ContractInfoView, k: int) -> Seq<u8> {
    sha256_of(utf8_of(info.outcomes[k].outcome@))
}

/// The encryption point of outcome `k` of an outcome space.
pub open spec fn outcome_point(info: ContractInfoView, k: int) -> Option<secp256k1_zkp::PublicKey> {
    adaptor_point_of((attesting_announcements(info), outcome_digest(info, k)))
}

/// Every outcome of the space has an encryption point.
pub open spec fn all_points_exist(info: ContractInfoView) -> bool {
    forall|k: int| 0 <= k < info.outcomes.len() ==> (#[trigger] outcome_point(info, k)) is Some
}

/// The generated signature `sigs[k]` verifies for outcome `k`, over the
/// settlement transaction at flat index `start + k`.
pub open spec fn generated_sig_valid(
    info: ContractInfoView,
    pubkey: secp256k1_zkp::PublicKey,
    script: Seq<u8>,
    value: u64,
    cets: Seq<bitcoin::Transaction>,
    sigs: Seq<secp256k1_zkp::EcdsaAdaptorSignature>,
    start: int,
    k: int,
) -> bool {
    &&& outcome_point(info, k) is Some
    &&& adaptor_sig_valid((sigs[k], cets[start + k], outcome_point(info, k)->0, pubkey, script, value))
}

/// The adaptor signature at flat index `start + k` verifies for outcome `k`
/// of the space, over the settlement transaction at the same index.
pub open spec fn outcome_sig_valid(
    info: ContractInfoView,
    pubkey: secp256k1_zkp::PublicKey,
    script: Seq<u8>,
    value: u64,
    cets: Seq<bitcoin::Transaction>,
    sigs: Seq<secp256k1_zkp::EcdsaAdaptorSignature>,
    start: int,
    k: int,
) -> bool {
    &&& outcome_point(info, k) is Some
    &&& adaptor_sig_valid((sigs[start + k], cets[start + k], outcome_point(info, k)->0, pubkey, script, value))
}

/// Every adaptor signature of the space, starting at flat index `start`, is
/// present and verifies.
pub open spec fn space_sigs_valid(
    info: ContractInfoView,
    pubkey: secp256k1_zkp::PublicKey,
    script: Seq<u8>,
    value: u64,
    cets: Seq<bitcoin::Transaction>,
    sigs: Seq<secp256k1_zkp::EcdsaAdaptorSignature>,
    start: int,
) -> bool {
    &&& start + info.outcomes().len() <= sigs.len()
    &&& forall|k: int|
        0 <= k < info.outcomes().len() ==> #[trigger] outcome_sig_valid(info, pubkey, script, value, cets, sigs, start, k)
}

impl ContractInfo {
    /// The announcements of the attesting oracles.
    pub fn attesting_announcements(&self) -> (r: Vec<dlc_messages::oracle_msgs::OracleAnnouncement>)
        requires
            self.wf(),
        ensures
            r@ == attesting_announcements(self@),
    {
        let mut r: Vec<dlc_messages::oracle_msgs::OracleAnnouncement> = Vec::new();
        let mut i: usize = 0;
        while i < self.threshold
            invariant
                self.wf(),
                i <= self.threshold,
                r@ == self.oracle_announcements@.subrange(0, i as int),
            decreases self.threshold - i,
        {
            r.push(self.oracle_announcements[i].clone());
            i = i + 1;
            assert(r@ =~= self.oracle_announcements@.subrange(0, i as int));
        }
        r
    }

    /// The digest that the oracles sign for outcome `k`.
    pub fn outcome_digest(&self, k: usize) -> (r: [u8; 32])
        requires
            k < self.outcomes().len(),
        ensures
            r@ == outcome_digest(self@, k as int),
    {
        let bytes = utf8_bytes(self.outcome(k));
        sha256(bytes.as_slice())
    }

    /// Generates one adaptor signature per outcome of this space, over the
    /// settlement transactions at flat indices `start` onwards, and records
    /// where they sit.
    pub fn get_adaptor_info(
        &self,
        funding_sk: &secp256k1_zkp::SecretKey,
        funding_script: &Vec<u8>,
        fund_output_value: u64,
        cets: &Vec<bitcoin::Transaction>,
        start: usize,
    ) -> (r: Result<(AdaptorInfo, Vec<secp256k1_zkp::EcdsaAdaptorSignature>), ContractError>)
        requires
            self.wf(),
            start + self.outcomes().len() <= cets@.len(),
            forall|j: int| 0 <= j < cets@.len() ==> tx_input_count(#[trigger] cets@[j]) >= 1,
        ensures
            all_points_exist(self@) ==> r is Ok,
            r is Ok ==> r->Ok_0.0 == (AdaptorInfo { adaptor_index_start: start, nb_outcomes: self.outcomes().len() as usize }),
            r is Ok ==> r->Ok_0.1@.len() == self.outcomes().len(),
            r is Ok ==> forall|k: int|
                0 <= k < self.outcomes().len() ==> #[trigger] generated_sig_valid(
                    self@,
                    pubkey_of(*funding_sk),
                    funding_script@,
                    fund_output_value,
                    cets@,
                    r->Ok_0.1@,
                    start as int,
                    k,
                ),
    {
        let info = AdaptorInfo { adaptor_index_start: start, nb_outcomes: self.nb_outcomes() };
        assert(info.adaptor_index_start == start);
        match self.get_adaptor_signatures(&info, funding_sk, funding_script, fund_output_value, cets) {
            Ok(sigs) => {
                assert forall|k: int|
                    0 <= k < self.outcomes().len() implies #[trigger] generated_sig_valid(
                        self@,
                        pubkey_of(*funding_sk),
                        funding_script@,
                        fund_output_value,
                        cets@,
                        sigs@,
                        start as int,
                        k,
                    ) by {
                    assert(generated_sig_valid(
                        self@,
                        pubkey_of(*funding_sk),
                        funding_script@,
                        fund_output_value,
                        cets@,
                        sigs@,
                        info.adaptor_index_start as int,
                        k,
                    ));
                }
                assert(forall|k: int|
                    0 <= k < self.outcomes().len() ==> #[trigger] generated_sig_valid(
                        self@,
                        pubkey_of(*funding_sk),
                        funding_script@,
                        fund_output_value,
                        cets@,
                        sigs@,
                        start as int,
                        k,
                    ));
                Ok((info, sigs))
            },
            Err(e) => Err(e),
        }
    }

    /// Generates the adaptor signatures of this space at the place that
    /// `adaptor_info` records.
    pub fn get_adaptor_signatures(
        &self,
        adaptor_info: &AdaptorInfo,
        funding_sk: &secp256k1_zkp::SecretKey,
        funding_script: &Vec<u8>,
        fund_output_value: u64,
        cets: &Vec<bitcoin::Transaction>,
    ) -> (r: Result<Vec<secp256k1_zkp::EcdsaAdaptorSignature>, ContractError>)
        requires
            self.wf(),
            adaptor_info.nb_outcomes == self.outcomes().len(),
            adaptor_info.adaptor_index_start + adaptor_info.nb_outcomes <= cets@.len(),
            forall|j: int| 0 <= j < cets@.len() ==> tx_input_count(#[trigger] cets@[j]) >= 1,
        ensures
            all_points_exist(self@) ==> r is Ok,
            r is Ok ==> r->Ok_0@.len() == self.outcomes().len(),
            r is Ok ==> forall|k: int|
                0 <= k < self.outcomes().len() ==> #[trigger] generated_sig_valid(
                    self@,
                    pubkey_of(*funding_sk),
                    funding_script@,
                    fund_output_value,
                    cets@,
                    r->Ok_0@,
                    adaptor_info.adaptor_index_start as int,
                    k,
                ),
    {
        let n = self.nb_outcomes();
        let start = adaptor_info.adaptor_index_start;
        let announcements = self.attesting_announcements();
        let mut sigs: Vec<secp256k1_zkp::EcdsaAdaptorSignature> = Vec::new();
        let mut k: usize = 0;
        while k < n
            invariant
                self.wf(),
                n == self.outcomes().len(),
                start + n <= cets.len(),
                announcements@ == attesting_announcements(self@),
                forall|j: int| 0 <= j < cets@.len() ==> tx_input_count(#[trigger] cets@[j]) >= 1,
                k <= n,
                sigs@.len() == k,
                forall|j: int|
                    0 <= j < k ==> #[trigger] generated_sig_valid(
                        self@,
                        pubkey_of(*funding_sk),
                        funding_script@,
                        fund_output_value,
                        cets@,
                        sigs@,
                        start as int,
                        j,
                    ),
            decreases n - k,
        {
            let digest = self.outcome_digest(k);
            proof {
                assert(all_points_exist(self@) ==> outcome_point(self@, k as int) is Some);
            }
            let point = match outcome_adaptor_point(&announcements, &digest) {
                Ok(p) => p,
                Err(e) => return Err(ContractError::DlcError(e)),
            };
            proof {
                assert(tx_input_count(cets@[start + k]) >= 1);
            }
            let sig = match create_adaptor_sig(&cets[start + k], &point, funding_sk, funding_script, fund_output_value) {
                Ok(s) => s,
                Err(e) => return Err(ContractError::DlcError(e)),
            };
            let ghost old_sigs = sigs@;
            sigs.push(sig);
            proof {
                assert forall|j: int| 0 <= j <= k implies #[trigger] generated_sig_valid(
                    self@,
                    pubkey_of(*funding_sk),
                    funding_script@,
                    fund_output_value,
                    cets@,
                    sigs@,
                    start as int,
                    j,
                ) by {
                    if j < k {
                        assert(generated_sig_valid(self@, pubkey_of(*funding_sk), funding_script@, fund_output_value, cets@, old_sigs, start as int, j));
                        assert(sigs@[j] == old_sigs[j]);
                    }
                }
            }
            k = k + 1;
        }
        Ok(sigs)
    }

    /// Verifies the counter party's adaptor signatures of this space, which
    /// start at flat index `start`, and returns the index that follows them.
    /// Any signature that is missing or does not verify fails the whole space.
    pub fn verify_adaptor_info(
        &self,
        pubkey: &secp256k1_zkp::PublicKey,
        funding_script: &Vec<u8>,
        fund_output_value: u64,
        cets: &Vec<bitcoin::Transaction>,
        sigs: &Vec<secp256k1_zkp::EcdsaAdaptorSignature>,
        start: usize,
    ) -> (r: Result<usize, ContractError>)
        requires
            self.wf(),
            start + self.outcomes().len() <= cets@.len(),
        ensures
            r is Ok <==> space_sigs_valid(self@, *pubkey, funding_script@, fund_output_value, cets@, sigs@, start as int),
            r is Ok ==> r->Ok_0 == start + self.outcomes().len(),
    {
        let n = self.nb_outcomes();
        if sigs.len() < n || start > sigs.len() - n {
            return Err(ContractError::InvalidParameters("Missing adaptor signatures.".to_string()));
        }
        let announcements = self.attesting_announcements();
        let mut k: usize = 0;
        while k < n
            invariant
                self.wf(),
                n == self.outcomes().len(),
                announcements@ == attesting_announcements(self@),
                start + n <= cets.len(),
                start + n <= sigs.len(),
                k <= n,
                forall|j: int| 0 <= j < k ==> #[trigger] outcome_sig_valid(self@, *pubkey, funding_script@, fund_output_value, cets@, sigs@, start as int, j),
            decreases n - k,
        {
            let digest = self.outcome_digest(k);
            let point = match outcome_adaptor_point(&announcements, &digest) {
                Ok(p) => p,
                Err(e) => {
                    assert(!outcome_sig_valid(self@, *pubkey, funding_script@, fund_output_value, cets@, sigs@, start as int, k as int));
                    return Err(ContractError::DlcError(e));
                },
            };
            match verify_adaptor_sig(&sigs[start + k], &cets[start + k], &point, pubkey, funding_script, fund_output_value) {
                Ok(()) => {},
                Err(e) => {
                    assert(!outcome_sig_valid(self@, *pubkey, funding_script@, fund_output_value, cets@, sigs@, start as int, k as int));
                    return Err(ContractError::DlcError(e));
                },
            }
            assert(outcome_sig_valid(self@, *pubkey, funding_script@, fund_output_value, cets@, sigs@, start as int, k as int));
            k = k + 1;
        }
        Ok(start + n)
    }

    /// Verifies the counter party's adaptor signatures of this space and
    /// records where they sit, with the index that follows them.
    pub fn verify_and_get_adaptor_info(
        &self,
        pubkey: &secp256k1_zkp::PublicKey,
        funding_script: &Vec<u8>,
        fund_output_value: u64,
        cets: &Vec<bitcoin::Transaction>,
        sigs: &Vec<secp256k1_zkp::EcdsaAdaptorSignature>,
        start: usize,
    ) -> (r: Result<(AdaptorInfo, usize), ContractError>)
        requires
            self.wf(),
            start + self.outcomes().len() <= cets@.len(),
        ensures
            r is Ok <==> space_sigs_valid(self@, *pubkey, funding_script@, fund_output_value, cets@, sigs@, start as int),
            r is Ok ==> r->Ok_0.0 == (AdaptorInfo { adaptor_index_start: start, nb_outcomes: self.outcomes().len() as usize }),
            r is Ok ==> r->Ok_0.1 == start + self.outcomes().len(),
    {
        let next = self.verify_adaptor_info(pubkey, funding_script, fund_output_value, cets, sigs, start)?;
        Ok((AdaptorInfo { adaptor_index_start: start, nb_outcomes: self.nb_outcomes() }, next))
    }
}

} // verus!
