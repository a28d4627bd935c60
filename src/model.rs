//! Transactions and blocks as observed on a burn chain, generic over the
//! address type `A` and the public-key type `K` of the chain's cryptosystem.

use vstd::prelude::*;

use crate::config::BurnchainInputType;
use crate::ids::{BurnchainHeaderHash, Txid};

verus! {

/// A public key of a burn chain's cryptosystem.
pub trait PublicKey: Clone + core::fmt::Debug {
    /// The key's serialized form.
    fn to_bytes(&self) -> Vec<u8>;

    /// Checks `sig` over `data_hash`; a failure to check is reported as text.
    fn verify(&self, data_hash: &[u8], sig: &[u8]) -> Result<bool, &'static str>;
}

/// A private key of a burn chain's cryptosystem.
pub trait PrivateKey: Clone + core::fmt::Debug {
    /// The key's serialized form.
    fn to_bytes(&self) -> Vec<u8>;

    /// Signs `data_hash`; a failure to sign is reported as text.
    fn sign(&self, data_hash: &[u8]) -> Result<Vec<u8>, &'static str>;
}

/// An address of a burn chain.
pub trait Address: Clone + core::fmt::Debug {
    /// The address's raw bytes.
    fn to_bytes(&self) -> Vec<u8>;

    /// Human-readable form.
    fn to_string(&self) -> String;

    /// Parses the human-readable form; `None` on malformed input.
    fn from_string(s: &String) -> Option<Self> where Self: Sized;

    /// The byte pattern of a provably unspendable destination.
    fn burn_bytes() -> Vec<u8>;
}

/// One output of a transaction: a destination and an amount in the chain's
/// native units (zero marks an output that moves no value).
#[derive(Clone, Debug, PartialEq)]
pub struct BurnchainTxOutput<A> {
    pub address: A,
    pub units: u64,
}

/// One input of a transaction: the keys that may sign, in script order, and
/// how many of them must.
#[derive(Clone, Debug, PartialEq, Eq)]
pub struct BurnchainTxInput<K> {
    pub keys: Vec<K>,
    pub num_required: usize,
    pub in_type: BurnchainInputType,
}

/// Why a transaction input was refused.
#[derive(Clone, Copy, Debug, PartialEq, Eq, Structural)]
pub enum TxInputError {
    /// The signature threshold is zero or exceeds the number of keys.
    BadThreshold { num_required: usize, num_keys: usize },
}

impl<K> BurnchainTxInput<K> {
    /// The threshold is at least one and at most the number of keys.
    pub open spec fn wf(&self) -> bool {
        1 <= self.num_required <= self.keys@.len()
    }

    /// Builds an input; the threshold is checked here, at construction.
    pub fn new(keys: Vec<K>, num_required: usize, in_type: BurnchainInputType) -> (r: Result<
        BurnchainTxInput<K>,
        TxInputError,
    >)
        ensures
            r is Ok <==> 1 <= num_required <= keys@.len(),
            r matches Ok(i) ==> {
                &&& i.wf()
                &&& i.keys@ == keys@
                &&& i.num_required == num_required
                &&& i.in_type == in_type
            },
            r matches Err(e) ==> e == (TxInputError::BadThreshold {
                num_required,
                num_keys: keys@.len() as usize,
            }),
    {
        if num_required == 0 || num_required > keys.len() {
            Err(TxInputError::BadThreshold { num_required, num_keys: keys.len() })
        } else {
            Ok(BurnchainTxInput { keys, num_required, in_type })
        }
    }

    /// Checks an input that was built field by field.
    pub fn validate(&self) -> (r: Result<(), TxInputError>)
        ensures
            r is Ok <==> self.wf(),
            r matches Err(e) ==> e == (TxInputError::BadThreshold {
                num_required: self.num_required,
                num_keys: self.keys@.len() as usize,
            }),
    {
        if self.num_required == 0 || self.num_required > self.keys.len() {
            Err(TxInputError::BadThreshold { num_required: self.num_required, num_keys: self.keys.len() })
        } else {
            Ok(())
        }
    }
}

/// A transaction as it stands in its block.
#[derive(Clone, Debug, PartialEq)]
pub struct BurnchainTransaction<A, K> {
    pub txid: Txid,
    pub vtxindex: u32,
    pub opcode: u8,
    pub data: Vec<u8>,
    pub inputs: Vec<BurnchainTxInput<K>>,
    pub outputs: Vec<BurnchainTxOutput<A>>,
}

/// A block of the burn chain with its transactions in block order.
#[derive(Clone, Debug, PartialEq)]
pub struct BurnchainBlock<A, K> {
    pub block_height: u64,
    pub block_hash: BurnchainHeaderHash,
    pub parent_block_hash: BurnchainHeaderHash,
    pub txs: Vec<BurnchainTransaction<A, K>>,
}

/// `child` extends `parent` directly: it names `parent`'s hash as its parent
/// and stands one block higher.
pub open spec fn extends<A, K>(parent: BurnchainBlock<A, K>, child: BurnchainBlock<A, K>) -> bool {
    &&& child.parent_block_hash@ == parent.block_hash@
    &&& parent.block_height + 1 == child.block_height
}

/// Every block of `s` after the first extends the one before it.
pub open spec fn is_linked_segment<A, K>(s: Seq<BurnchainBlock<A, K>>) -> bool {
    forall|i: int| 0 < i < s.len() ==> #[trigger] extends(s[i - 1], s[i])
}

/// Transactions stand in strictly increasing position order.
pub open spec fn in_vtxindex_order<A, K>(s: Seq<BurnchainTransaction<A, K>>) -> bool {
    forall|i: int| 0 < i < s.len() ==> #[trigger] s[i - 1].vtxindex < s[i].vtxindex
}

impl<A, K> BurnchainBlock<A, K> {
    /// Whether this block directly extends `parent`.
    pub fn extends(&self, parent: &BurnchainBlock<A, K>) -> (r: bool)
        ensures
            r == extends(*parent, *self),
    {
        self.parent_block_hash == parent.block_hash
            && parent.block_height < u64::MAX && parent.block_height + 1 == self.block_height
    }

    /// Whether the transactions stand in strictly increasing position order.
    pub fn txs_in_order(&self) -> (r: bool)
        ensures
            r == in_vtxindex_order(self.txs@),
    {
        let mut i: usize = 1;
        while i < self.txs.len()
            invariant
                1 <= i,
                forall|j: int| 0 < j < i && j < self.txs@.len() ==> #[trigger] self.txs@[j - 1].vtxindex
                    < self.txs@[j].vtxindex,
            decreases self.txs@.len() - i,
        {
            if self.txs[i - 1].vtxindex >= self.txs[i].vtxindex {
                return false;
            }
            i = i + 1;
        }
        true
    }
}

/// Whether `blocks` form one hash-linked run of consecutive heights.
pub fn check_linkage<A, K>(blocks: &[BurnchainBlock<A, K>]) -> (r: bool)
    ensures
        r == is_linked_segment(blocks@),
{
    let mut i: usize = 1;
    while i < blocks.len()
        invariant
            1 <= i,
            forall|j: int| 0 < j < i && j < blocks@.len() ==> #[trigger] extends(blocks@[j - 1], blocks@[j]),
        decreases blocks@.len() - i,
    {
        if !blocks[i].extends(&blocks[i - 1]) {
            return false;
        }
        i = i + 1;
    }
    true
}

} // verus!
