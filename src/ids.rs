//! Fixed-width identifiers: transaction ids, burn-chain block header hashes,
//! consensus hashes and the network magic bytes.

use vstd::prelude::*;

use crate::bytes::{array_from_slice, bytes_equal, bytes_to_hex, bytes_to_vec, compare_bytes, hex_of, lex_cmp};

verus! {

/// Encoded size of a `Txid`, in bytes.
pub const TXID_ENCODED_SIZE: u32 = 32;

/// Encoded size of a `BurnchainHeaderHash`, in bytes.
pub const BURNCHAIN_HEADER_HASH_ENCODED_SIZE: u32 = 32;

/// Encoded size of a `ConsensusHash`, in bytes.
pub const CONSENSUS_HASH_ENCODED_SIZE: u32 = 20;

/// Length of the network magic prefix, in bytes.
pub const MAGIC_BYTES_LENGTH: usize = 2;

/// Failure to build an identifier from raw bytes.
#[derive(Clone, Copy, Debug, PartialEq, Eq, Structural)]
pub enum IdError {
    /// The input did not have the identifier's fixed width.
    LengthMismatch { expected: usize, actual: usize },
}

/// What decoding `b` into an identifier of `width` bytes yields: the bytes
/// themselves when the width matches, a length mismatch otherwise.
pub open spec fn decoded_bytes(b: Seq<u8>, width: usize) -> Result<Seq<u8>, IdError> {
    if b.len() == width {
        Ok(b)
    } else {
        Err(IdError::LengthMismatch { expected: width, actual: b.len() as usize })
    }
}

/// A 32-byte burn-chain transaction id.
#[derive(Clone, Copy, Debug, Eq, Hash, PartialOrd, Ord)]
pub struct Txid(pub [u8; 32]);

impl PartialEq for Txid {
    fn eq(&self, other: &Txid) -> (r: bool) {
        bytes_equal(self.0.as_slice(), other.0.as_slice())
    }
}

impl vstd::std_specs::cmp::PartialEqSpecImpl for Txid {
    open spec fn obeys_eq_spec() -> bool {
        true
    }

    open spec fn eq_spec(&self, other: &Txid) -> bool {
        self@ == other@
    }
}

impl View for Txid {
    type V = Seq<u8>;

    open spec fn view(&self) -> Seq<u8> {
        self.0@
    }
}

impl Txid {
    /// Whether `r` is what decoding `b` gives.
    pub open spec fn decodes_to(b: Seq<u8>, r: Result<Txid, IdError>) -> bool {
        match r {
            Ok(t) => decoded_bytes(b, 32) == Ok::<Seq<u8>, IdError>(t@),
            Err(e) => decoded_bytes(b, 32) == Err::<Seq<u8>, IdError>(e),
        }
    }

    /// Builds a transaction id from exactly 32 bytes.
    pub fn from_bytes(b: &[u8]) -> (r: Result<Txid, IdError>)
        ensures
            Txid::decodes_to(b@, r),
            r is Ok <==> b@.len() == 32,
    {
        if b.len() != 32 {
            Err(IdError::LengthMismatch { expected: 32, actual: b.len() })
        } else {
            Ok(Txid(array_from_slice(b)))
        }
    }

    /// The 32 bytes of the id, in order.
    pub fn to_bytes(&self) -> (r: Vec<u8>)
        ensures
            r@ == self@,
    {
        bytes_to_vec(self.0.as_slice())
    }

    /// Lowercase hexadecimal text of the id.
    pub fn to_hex(&self) -> (r: String)
        ensures
            r@ == hex_of(self@),
    {
        bytes_to_hex(self.0.as_slice())
    }

    /// Byte-lexicographic comparison with `other`.
    pub fn compare(&self, other: &Txid) -> (r: core::cmp::Ordering)
        ensures
            r == lex_cmp(self@, other@),
    {
        compare_bytes(self.0.as_slice(), other.0.as_slice())
    }
}

/// Decoding the encoding of a transaction id gives back that same value.
pub proof fn lemma_txid_round_trip(x: Txid, decoded: Result<Txid, IdError>)
    requires
        Txid::decodes_to(x@, decoded),
    ensures
        decoded == Ok::<Txid, IdError>(x),
{
    if let Ok(t) = decoded {
        assert(t.0 =~= x.0);
    }
}

/// A 32-byte hash identifying a burn-chain block header.
#[derive(Clone, Copy, Debug, Eq, Hash, PartialOrd, Ord)]
pub struct BurnchainHeaderHash(pub [u8; 32]);

impl PartialEq for BurnchainHeaderHash {
    fn eq(&self, other: &BurnchainHeaderHash) -> (r: bool) {
        bytes_equal(self.0.as_slice(), other.0.as_slice())
    }
}

impl vstd::std_specs::cmp::PartialEqSpecImpl for BurnchainHeaderHash {
    open spec fn obeys_eq_spec() -> bool {
        true
    }

    open spec fn eq_spec(&self, other: &BurnchainHeaderHash) -> bool {
        self@ == other@
    }
}

impl View for BurnchainHeaderHash {
    type V = Seq<u8>;

    open spec fn view(&self) -> Seq<u8> {
        self.0@
    }
}

impl BurnchainHeaderHash {
    /// Whether `r` is what decoding `b` gives.
    pub open spec fn decodes_to(b: Seq<u8>, r: Result<BurnchainHeaderHash, IdError>) -> bool {
        match r {
            Ok(t) => decoded_bytes(b, 32) == Ok::<Seq<u8>, IdError>(t@),
            Err(e) => decoded_bytes(b, 32) == Err::<Seq<u8>, IdError>(e),
        }
    }

    /// Builds a block header hash from exactly 32 bytes.
    pub fn from_bytes(b: &[u8]) -> (r: Result<BurnchainHeaderHash, IdError>)
        ensures
            BurnchainHeaderHash::decodes_to(b@, r),
            r is Ok <==> b@.len() == 32,
    {
        if b.len() != 32 {
            Err(IdError::LengthMismatch { expected: 32, actual: b.len() })
        } else {
            Ok(BurnchainHeaderHash(array_from_slice(b)))
        }
    }

    /// The 32 bytes of the block header hash, in order.
    pub fn to_bytes(&self) -> (r: Vec<u8>)
        ensures
            r@ == self@,
    {
        bytes_to_vec(self.0.as_slice())
    }

    /// Lowercase hexadecimal text of the block header hash.
    pub fn to_hex(&self) -> (r: String)
        ensures
            r@ == hex_of(self@),
    {
        bytes_to_hex(self.0.as_slice())
    }

    /// Byte-lexicographic comparison with `other`.
    pub fn compare(&self, other: &BurnchainHeaderHash) -> (r: core::cmp::Ordering)
        ensures
            r == lex_cmp(self@, other@),
    {
        compare_bytes(self.0.as_slice(), other.0.as_slice())
    }
}

/// Decoding the encoding of a block header hash gives back that same value.
pub proof fn lemma_header_hash_round_trip(x: BurnchainHeaderHash, decoded: Result<BurnchainHeaderHash, IdError>)
    requires
        BurnchainHeaderHash::decodes_to(x@, decoded),
    ensures
        decoded == Ok::<BurnchainHeaderHash, IdError>(x),
{
    if let Ok(t) = decoded {
        assert(t.0 =~= x.0);
    }
}

/// A 20-byte hash summarizing consensus state at a burn-chain height.
#[derive(Clone, Copy, Debug, Eq, Hash, PartialOrd, Ord)]
pub struct ConsensusHash(pub [u8; 20]);

impl PartialEq for ConsensusHash {
    fn eq(&self, other: &ConsensusHash) -> (r: bool) {
        bytes_equal(self.0.as_slice(), other.0.as_slice())
    }
}

impl vstd::std_specs::cmp::PartialEqSpecImpl for ConsensusHash {
    open spec fn obeys_eq_spec() -> bool {
        true
    }

    open spec fn eq_spec(&self, other: &ConsensusHash) -> bool {
        self@ == other@
    }
}

impl View for ConsensusHash {
    type V = Seq<u8>;

    open spec fn view(&self) -> Seq<u8> {
        self.0@
    }
}

impl ConsensusHash {
    /// Whether `r` is what decoding `b` gives.
    pub open spec fn decodes_to(b: Seq<u8>, r: Result<ConsensusHash, IdError>) -> bool {
        match r {
            Ok(t) => decoded_bytes(b, 20) == Ok::<Seq<u8>, IdError>(t@),
            Err(e) => decoded_bytes(b, 20) == Err::<Seq<u8>, IdError>(e),
        }
    }

    /// Builds a consensus hash from exactly 20 bytes.
    pub fn from_bytes(b: &[u8]) -> (r: Result<ConsensusHash, IdError>)
        ensures
            ConsensusHash::decodes_to(b@, r),
            r is Ok <==> b@.len() == 20,
    {
        if b.len() != 20 {
            Err(IdError::LengthMismatch { expected: 20, actual: b.len() })
        } else {
            Ok(ConsensusHash(array_from_slice(b)))
        }
    }

    /// The 20 bytes of the consensus hash, in order.
    pub fn to_bytes(&self) -> (r: Vec<u8>)
        ensures
            r@ == self@,
    {
        bytes_to_vec(self.0.as_slice())
    }

    /// Lowercase hexadecimal text of the consensus hash.
    pub fn to_hex(&self) -> (r: String)
        ensures
            r@ == hex_of(self@),
    {
        bytes_to_hex(self.0.as_slice())
    }

    /// Byte-lexicographic comparison with `other`.
    pub fn compare(&self, other: &ConsensusHash) -> (r: core::cmp::Ordering)
        ensures
            r == lex_cmp(self@, other@),
    {
        compare_bytes(self.0.as_slice(), other.0.as_slice())
    }
}

/// Decoding the encoding of a consensus hash gives back that same value.
pub proof fn lemma_consensus_hash_round_trip(x: ConsensusHash, decoded: Result<ConsensusHash, IdError>)
    requires
        ConsensusHash::decodes_to(x@, decoded),
    ensures
        decoded == Ok::<ConsensusHash, IdError>(x),
{
    if let Ok(t) = decoded {
        assert(t.0 =~= x.0);
    }
}

/// The 2-byte network discriminator that starts every recognized payload.
#[derive(Clone, Copy, Debug, Eq, Hash, PartialOrd, Ord)]
pub struct MagicBytes(pub [u8; 2]);

impl PartialEq for MagicBytes {
    fn eq(&self, other: &MagicBytes) -> (r: bool) {
        bytes_equal(self.0.as_slice(), other.0.as_slice())
    }
}

impl vstd::std_specs::cmp::PartialEqSpecImpl for MagicBytes {
    open spec fn obeys_eq_spec() -> bool {
        true
    }

    open spec fn eq_spec(&self, other: &MagicBytes) -> bool {
        self@ == other@
    }
}

impl View for MagicBytes {
    type V = Seq<u8>;

    open spec fn view(&self) -> Seq<u8> {
        self.0@
    }
}

impl MagicBytes {
    /// Whether `r` is what decoding `b` gives.
    pub open spec fn decodes_to(b: Seq<u8>, r: Result<MagicBytes, IdError>) -> bool {
        match r {
            Ok(t) => decoded_bytes(b, 2) == Ok::<Seq<u8>, IdError>(t@),
            Err(e) => decoded_bytes(b, 2) == Err::<Seq<u8>, IdError>(e),
        }
    }

    /// Builds a magic prefix from exactly 2 bytes.
    pub fn from_bytes(b: &[u8]) -> (r: Result<MagicBytes, IdError>)
        ensures
            MagicBytes::decodes_to(b@, r),
            r is Ok <==> b@.len() == 2,
    {
        if b.len() != 2 {
            Err(IdError::LengthMismatch { expected: 2, actual: b.len() })
        } else {
            Ok(MagicBytes(array_from_slice(b)))
        }
    }

    /// The 2 bytes of the magic prefix, in order.
    pub fn to_bytes(&self) -> (r: Vec<u8>)
        ensures
            r@ == self@,
    {
        bytes_to_vec(self.0.as_slice())
    }

    /// Lowercase hexadecimal text of the magic prefix.
    pub fn to_hex(&self) -> (r: String)
        ensures
            r@ == hex_of(self@),
    {
        bytes_to_hex(self.0.as_slice())
    }

    /// Byte-lexicographic comparison with `other`.
    pub fn compare(&self, other: &MagicBytes) -> (r: core::cmp::Ordering)
        ensures
            r == lex_cmp(self@, other@),
    {
        compare_bytes(self.0.as_slice(), other.0.as_slice())
    }
}

/// Decoding the encoding of a magic prefix gives back that same value.
pub proof fn lemma_magic_bytes_round_trip(x: MagicBytes, decoded: Result<MagicBytes, IdError>)
    requires
        MagicBytes::decodes_to(x@, decoded),
    ensures
        decoded == Ok::<MagicBytes, IdError>(x),
{
    if let Ok(t) = decoded {
        assert(t.0 =~= x.0);
    }
}

impl MagicBytes {
    /// The mainnet magic prefix, ASCII "id".
    pub fn mainnet() -> (r: MagicBytes)
        ensures
            r@ == seq![0x69u8, 0x64u8],
    {
        let r = MagicBytes([0x69, 0x64]);
        assert(r@ =~= seq![0x69u8, 0x64u8]);
        r
    }

    /// Whether `payload` starts with this prefix.
    pub fn matches_payload(&self, payload: &[u8]) -> (r: bool)
        ensures
            r == (payload@.len() >= 2 && payload@.subrange(0, 2) == self@),
    {
        if payload.len() < 2 {
            return false;
        }
        let r = payload[0] == self.0[0] && payload[1] == self.0[1];
        assert(r == (payload@.subrange(0, 2) =~= self@));
        r
    }
}

/// Whether `payload` starts with the mainnet magic prefix.
pub fn has_mainnet_magic(payload: &[u8]) -> (r: bool)
    ensures
        r == (payload@.len() >= 2 && payload@[0] == 0x69 && payload@[1] == 0x64),
{
    let m = MagicBytes::mainnet();
    let r = m.matches_payload(payload);
    proof {
        if payload@.len() >= 2 {
            assert(payload@.subrange(0, 2)[0] == payload@[0]);
            assert(payload@.subrange(0, 2)[1] == payload@[1]);
            assert((payload@.subrange(0, 2) =~= m@) == (payload@[0] == 0x69 && payload@[1] == 0x64));
        }
    }
    r
}

} // verus!
