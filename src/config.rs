//! Burn-chain configuration: network identity, the burn quota parameters and
//! the per-chain finality and consensus-hash constants.

use vstd::prelude::*;

use crate::ids::BurnchainHeaderHash;

verus! {

/// Parameters of the per-block burn quota: it grows by `inc` and decays by the
/// factor `dec_num / dec_den`.
#[derive(Clone, Copy, Debug, PartialEq, Eq, Structural)]
pub struct BurnQuotaConfig {
    pub inc: u64,
    pub dec_num: u64,
    pub dec_den: u64,
}

/// Why a quota configuration was refused.
#[derive(Clone, Copy, Debug, PartialEq, Eq, Structural)]
pub enum QuotaConfigError {
    /// The decay denominator is zero, so the decay factor is undefined.
    ZeroDenominator,
}

impl BurnQuotaConfig {
    /// A configuration whose decay factor is defined.
    pub open spec fn wf(&self) -> bool {
        self.dec_den != 0
    }

    /// Builds a quota configuration; a zero denominator is refused.
    pub fn new(inc: u64, dec_num: u64, dec_den: u64) -> (r: Result<BurnQuotaConfig, QuotaConfigError>)
        ensures
            r is Ok <==> dec_den != 0,
            r matches Ok(c) ==> c == (BurnQuotaConfig { inc, dec_num, dec_den }),
            r matches Err(e) ==> e == QuotaConfigError::ZeroDenominator,
    {
        if dec_den == 0 {
            Err(QuotaConfigError::ZeroDenominator)
        } else {
            Ok(BurnQuotaConfig { inc, dec_num, dec_den })
        }
    }

    /// Checks a configuration that was built field by field.
    pub fn validate(&self) -> (r: Result<(), QuotaConfigError>)
        ensures
            r is Ok <==> self.wf(),
    {
        if self.dec_den == 0 {
            Err(QuotaConfigError::ZeroDenominator)
        } else {
            Ok(())
        }
    }

    /// Whether the decay factor is at most one, as a decay should be. This is
    /// not demanded at construction; consumers that rely on it check here.
    pub fn decays(&self) -> (r: bool)
        ensures
            r == (self.wf() && self.dec_num <= self.dec_den),
    {
        self.dec_den != 0 && self.dec_num <= self.dec_den
    }
}

/// How the coins of a transaction input are redeemed.
#[derive(Clone, Copy, Debug, PartialEq, Eq, Structural)]
pub enum BurnchainInputType {
    BitcoinInput,
    BitcoinSegwitP2SHInput,
}

/// Depth after which a block of a given kind of burn chain counts as final.
#[derive(Clone, Copy, Debug, PartialEq, Eq, Structural)]
pub enum StableConfirmations {
    Bitcoin,
}

impl StableConfirmations {
    /// Number of confirmations for this kind of chain.
    pub open spec fn spec_value(&self) -> u32 {
        match self {
            StableConfirmations::Bitcoin => 7,
        }
    }

    /// Number of confirmations for this kind of chain.
    pub fn value(&self) -> (r: u32)
        ensures
            r == self.spec_value(),
    {
        match self {
            StableConfirmations::Bitcoin => 7,
        }
    }
}

/// Number of blocks for which a consensus hash stays valid, per kind of chain.
#[derive(Clone, Copy, Debug, PartialEq, Eq, Structural)]
pub enum ConsensusHashLifetime {
    Bitcoin,
}

impl ConsensusHashLifetime {
    /// Lifetime in blocks for this kind of chain.
    pub open spec fn spec_value(&self) -> u32 {
        match self {
            ConsensusHashLifetime::Bitcoin => 24,
        }
    }

    /// Lifetime in blocks for this kind of chain.
    pub fn value(&self) -> (r: u32)
        ensures
            r == self.spec_value(),
    {
        match self {
            ConsensusHashLifetime::Bitcoin => 24,
        }
    }
}

/// Configuration of the burn chain being followed.
#[derive(Clone, Debug, PartialEq)]
pub struct Burnchain {
    pub peer_version: u32,
    pub network_id: u32,
    pub chain_name: String,
    pub network_name: String,
    pub working_dir: String,
    pub burn_quota: BurnQuotaConfig,
    pub consensus_hash_lifetime: u32,
    pub stable_confirmations: u32,
    pub first_block_height: u64,
    pub first_block_hash: BurnchainHeaderHash,
}

impl Burnchain {
    /// A configuration whose quota parameters are usable.
    pub open spec fn wf(&self) -> bool {
        self.burn_quota.wf()
    }

    /// Builds the configuration of one burn chain, taking its finality depth
    /// and consensus-hash lifetime from the chain kind's constants. A quota
    /// with a zero denominator is refused here, before any consensus work.
    pub fn new(
        peer_version: u32,
        network_id: u32,
        chain_name: String,
        network_name: String,
        working_dir: String,
        burn_quota: BurnQuotaConfig,
        stable: StableConfirmations,
        lifetime: ConsensusHashLifetime,
        first_block_height: u64,
        first_block_hash: BurnchainHeaderHash,
    ) -> (r: Result<Burnchain, QuotaConfigError>)
        ensures
            r is Ok <==> burn_quota.wf(),
            r matches Err(e) ==> e == QuotaConfigError::ZeroDenominator,
            r matches Ok(b) ==> {
                &&& b.wf()
                &&& b.peer_version == peer_version
                &&& b.network_id == network_id
                &&& b.chain_name@ == chain_name@
                &&& b.network_name@ == network_name@
                &&& b.working_dir@ == working_dir@
                &&& b.burn_quota == burn_quota
                &&& b.stable_confirmations == stable.spec_value()
                &&& b.consensus_hash_lifetime == lifetime.spec_value()
                &&& b.first_block_height == first_block_height
                &&& b.first_block_hash == first_block_hash
            },
    {
        match burn_quota.validate() {
            Err(e) => Err(e),
            Ok(()) => Ok(
                Burnchain {
                    peer_version,
                    network_id,
                    chain_name,
                    network_name,
                    working_dir,
                    burn_quota,
                    consensus_hash_lifetime: lifetime.value(),
                    stable_confirmations: stable.value(),
                    first_block_height,
                    first_block_hash,
                },
            ),
        }
    }

    /// Height of the stable tip when the chain tip is at `tip_height`: the tip
    /// less the confirmation depth, or zero for a chain shorter than that.
    pub fn stable_block_height(&self, tip_height: u64) -> (r: u64)
        ensures
            r == (if tip_height >= self.stable_confirmations {
                tip_height - self.stable_confirmations
            } else {
                0
            }),
    {
        tip_height.saturating_sub(self.stable_confirmations as u64)
    }
}

} // verus!
