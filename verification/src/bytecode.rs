use vstd::prelude::*;
use crate::values::Hash256;
use crate::values::clone_bytes;

verus! {

/// The Keccak-256 digest of a byte sequence, as the outside hasher computes
/// it. The digest is a function of the input bytes alone.
pub uninterp spec fn keccak_of(bytes: Seq<u8>) -> Seq<u8>;

/// Relies on revm's `primitives::keccak256` (alloy-primitives): the Keccak-256
/// digest of the input bytes, 32 bytes long, a function of the input alone.
#[verifier::external_body]
fn keccak256(bytes: &[u8]) -> (r: Hash256)
    ensures
        r@ == keccak_of(bytes@),
        r@.len() == 32,
{
    Hash256::from_raw(revm::primitives::keccak256(bytes).to_vec())
}

/// The well-known sentinel hash: the digest of the empty byte sequence,
/// denoting "no code".
pub fn empty_code_hash() -> (r: Hash256)
    ensures
        r@ == keccak_of(Seq::<u8>::empty()),
        r.wf(),
{
    let empty: Vec<u8> = Vec::new();
    proof {
        assert(empty@ =~= Seq::<u8>::empty());
    }
    keccak256(empty.as_slice())
}

/// An immutable contract byte sequence together with its derived Keccak-256
/// hash.
#[derive(Debug)]
pub struct Bytecode {
    bytes: Vec<u8>,
    hash: Hash256,
}

impl View for Bytecode {
    type V = Seq<u8>;

    closed spec fn view(&self) -> Seq<u8> {
        self.bytes@
    }
}

impl Bytecode {
    /// The stored hash, as a byte sequence.
    pub closed spec fn hash_view(&self) -> Seq<u8> {
        self.hash@
    }

    /// The stored hash is the digest of the stored bytes.
    pub closed spec fn wf(&self) -> bool {
        self.hash@ == keccak_of(self.bytes@) && self.hash@.len() == 32
    }

    /// What well-formedness means: the stored hash is the digest of the
    /// stored bytes.
    pub proof fn lemma_wf_hash(&self)
        requires
            self.wf(),
        ensures
            self.hash_view() == keccak_of(self@),
            self.hash_view().len() == 32,
    {
    }

    /// Decodes raw code bytes, deriving their hash.
    pub fn new(bytes: Vec<u8>) -> (r: Bytecode)
        ensures
            r@ == bytes@,
            r.hash_view() == keccak_of(bytes@),
            r.wf(),
    {
        let hash = keccak256(bytes.as_slice());
        Bytecode { bytes, hash }
    }

    /// The empty bytecode, whose hash is the well-known empty-code sentinel.
    pub fn empty() -> (r: Bytecode)
        ensures
            r@ == Seq::<u8>::empty(),
            r.hash_view() == keccak_of(Seq::<u8>::empty()),
            r.wf(),
    {
        let bytes: Vec<u8> = Vec::new();
        proof {
            assert(bytes@ =~= Seq::<u8>::empty());
        }
        Bytecode::new(bytes)
    }

    pub fn code_hash(&self) -> (r: &Hash256)
        ensures
            r@ == self.hash_view(),
    {
        &self.hash
    }

    /// An owned copy of the stored hash.
    pub fn code_hash_copy(&self) -> (r: Hash256)
        ensures
            r@ == self.hash_view(),
            self.wf() ==> r.wf(),
    {
        self.hash.duplicate()
    }

    pub fn bytes(&self) -> (r: &Vec<u8>)
        ensures
            r@ == self@,
    {
        &self.bytes
    }

    pub fn len(&self) -> (r: usize)
        ensures
            r == self@.len(),
    {
        self.bytes.len()
    }

    /// An owned copy of this bytecode, hash included.
    pub fn duplicate(&self) -> (r: Bytecode)
        ensures
            r@ == self@,
            r.hash_view() == self.hash_view(),
            self.wf() ==> r.wf(),
    {
        Bytecode { bytes: clone_bytes(&self.bytes), hash: self.hash.duplicate() }
    }
}

} // verus!
