use vstd::prelude::*;
use crate::bytecode::Bytecode;
use crate::bytecode::empty_code_hash;
use crate::bytecode::keccak_of;
use crate::cache::CodeCache;
use crate::values::Address;
use crate::values::Hash256;
use crate::values::U256;

verus! {

/// The ways a read can fail; every failure is surfaced to the caller as a
/// typed result, never replaced by a synthetic empty record.
#[derive(Clone, Copy, PartialEq, Eq, Structural, Debug)]
pub enum ProviderError {
    /// A connection-level failure while talking to the remote node.
    TransportFailure,
    /// The bounded wait on a network round-trip elapsed.
    Timeout,
    /// The remote answer could not be decoded: a transaction count too large
    /// to fit a 64-bit nonce.
    DecodeFailure,
    /// Code was requested by a hash that is neither the empty-code sentinel
    /// nor cached; the owning account must be fetched first.
    UnsupportedLookup,
}

/// What one remote round-trip produced: the decoded payload, a transport
/// failure, or an elapsed bounded wait. The embedding runtime performs the
/// network call and reports its outcome with this type.
pub enum FetchOutcome<T> {
    Success(T),
    TransportFailed,
    TimedOut,
}

/// The plain values an account fetch carries back from the remote node.
#[derive(Debug)]
pub struct AccountData {
    pub balance: U256,
    pub transaction_count: U256,
    pub code: Vec<u8>,
}

/// One account read's result: balance, 64-bit nonce, code hash, and the
/// decoded bytecode.
#[derive(Debug)]
pub struct AccountRecord {
    pub balance: U256,
    pub nonce: u64,
    pub code_hash: Hash256,
    pub code: Option<Bytecode>,
}

/// An account fetch to be issued against the remote node: which address to
/// read, and at which block.
pub struct AccountQuery {
    pub address: Address,
    pub block_number: u64,
}

/// A storage fetch to be issued against the remote node: which slot of which
/// address to read, and at which block.
pub struct StorageQuery {
    pub address: Address,
    pub slot: U256,
    pub block_number: u64,
}

/// What a code-by-hash lookup yields from a given cache: empty bytecode for
/// the well-known empty-code hash, the cached bytes on a hit, and
/// `UnsupportedLookup` on a miss.
pub open spec fn code_lookup(cache: Map<Seq<u8>, Seq<u8>>, h: Seq<u8>) -> Result<
    Seq<u8>,
    ProviderError,
> {
    if h == keccak_of(Seq::<u8>::empty()) {
        Ok(Seq::<u8>::empty())
    } else if cache.dom().contains(h) {
        Ok(cache[h])
    } else {
        Err(ProviderError::UnsupportedLookup)
    }
}

/// The cache after an account read surfaced `code`: a hash already present is
/// never overwritten; a new hash gains its binding.
pub open spec fn cached_after_read(cache: Map<Seq<u8>, Seq<u8>>, code: Seq<u8>) -> Map<
    Seq<u8>,
    Seq<u8>,
> {
    if cache.dom().contains(keccak_of(code)) {
        cache
    } else {
        cache.insert(keccak_of(code), code)
    }
}

/// Content addressing: every key of the cache is the digest of the bytes it
/// maps to.
pub open spec fn content_addressed(cache: Map<Seq<u8>, Seq<u8>>) -> bool {
    forall|h: Seq<u8>| cache.dom().contains(h) ==> keccak_of(#[trigger] cache[h]) == h
}

/// A synchronous, read-only view over remote chain state, pinned to one block
/// for its whole lifetime, with a content-addressed bytecode cache populated
/// by account reads. The network round-trips themselves are performed by the
/// embedding runtime; their outcomes are handed in as values.
pub struct RemoteStateProvider {
    block_number: u64,
    empty_hash: Hash256,
    cache: CodeCache,
}

impl View for RemoteStateProvider {
    type V = Map<Seq<u8>, Seq<u8>>;

    /// The provider is its bytecode cache: a map from code hash to code bytes.
    closed spec fn view(&self) -> Map<Seq<u8>, Seq<u8>> {
        self.cache@
    }
}

impl RemoteStateProvider {
    /// The single block all reads of this provider are resolved against.
    pub closed spec fn block_pin(&self) -> u64 {
        self.block_number
    }

    pub closed spec fn wf(&self) -> bool {
        self.cache.wf() && self.empty_hash@ == keccak_of(Seq::<u8>::empty())
    }

    /// Pins a fresh provider to one block; the cache starts empty. Reading a
    /// different block takes a new provider.
    pub fn new(block_number: u64) -> (r: RemoteStateProvider)
        ensures
            r.wf(),
            r.block_pin() == block_number,
            r@ == Map::<Seq<u8>, Seq<u8>>::empty(),
    {
        RemoteStateProvider {
            block_number,
            empty_hash: empty_code_hash(),
            cache: CodeCache::new(),
        }
    }

    pub fn block_number(&self) -> (r: u64)
        ensures
            r == self.block_pin(),
    {
        self.block_number
    }

    /// The account fetch this provider requires: the given address, read at
    /// the block pin.
    pub fn account_query(&self, address: Address) -> (q: AccountQuery)
        ensures
            q.address@ == address@,
            q.block_number == self.block_pin(),
    {
        AccountQuery { address, block_number: self.block_number }
    }

    /// The storage fetch this provider requires: the given slot of the given
    /// address, read at the block pin.
    pub fn storage_query(&self, address: Address, slot: U256) -> (q: StorageQuery)
        ensures
            q.address@ == address@,
            q.slot == slot,
            q.block_number == self.block_pin(),
    {
        StorageQuery { address, slot, block_number: self.block_number }
    }

    /// Decodes one account fetch. On success: a populated record whose nonce
    /// is the transaction count narrowed to 64 bits (failing the read if it
    /// does not fit), whose code hash is the digest of the returned code, and
    /// whose bytecode is entered into the cache under that digest. Every
    /// failure of the round-trip is surfaced as a typed error; no synthetic
    /// empty record is ever substituted, and the cache is then untouched.
    pub fn get_account(&mut self, fetched: FetchOutcome<AccountData>) -> (r: Result<
        AccountRecord,
        ProviderError,
    >)
        requires
            old(self).wf(),
        ensures
            final(self).wf(),
            final(self).block_pin() == old(self).block_pin(),
            match fetched {
                FetchOutcome::TransportFailed => r === Err(ProviderError::TransportFailure)
                    && final(self)@ == old(self)@,
                FetchOutcome::TimedOut => r === Err(ProviderError::Timeout) && final(self)@ == old(
                    self,
                )@,
                FetchOutcome::Success(data) => {
                    if data.transaction_count.value() >= 0x1_0000_0000_0000_0000 {
                        r === Err(ProviderError::DecodeFailure) && final(self)@ == old(self)@
                    } else {
                        &&& r is Ok
                        &&& (r matches Ok(rec) ==> {
                            &&& rec.balance == data.balance
                            &&& rec.nonce == data.transaction_count.value()
                            &&& rec.code_hash@ == keccak_of(data.code@)
                            &&& rec.code_hash.wf()
                            &&& rec.code is Some
                            &&& rec.code.unwrap()@ == data.code@
                            &&& rec.code.unwrap().wf()
                        })
                        &&& final(self)@ == cached_after_read(old(self)@, data.code@)
                    }
                },
            },
    {
        match fetched {
            FetchOutcome::TransportFailed => Err(ProviderError::TransportFailure),
            FetchOutcome::TimedOut => Err(ProviderError::Timeout),
            FetchOutcome::Success(data) => {
                let AccountData { balance, transaction_count, code } = data;
                let nonce = match transaction_count.try_into_u64() {
                    Some(n) => n,
                    None => {
                        return Err(ProviderError::DecodeFailure);
                    },
                };
                let decoded = Bytecode::new(code);
                let code_hash = decoded.code_hash_copy();
                self.cache.insert(decoded.duplicate());
                Ok(AccountRecord { balance, nonce, code_hash, code: Some(decoded) })
            },
        }
    }

    /// Answers a code-by-hash request with no network round-trip at all: the
    /// empty-code sentinel short-circuits to empty bytecode, a cache hit
    /// returns a copy of the cached bytecode, and a miss fails with
    /// `UnsupportedLookup`, since the remote protocol has no fetch-by-hash
    /// call; the owning account must be fetched first.
    pub fn get_code_by_hash(&self, code_hash: &Hash256) -> (r: Result<Bytecode, ProviderError>)
        requires
            self.wf(),
        ensures
            match r {
                Ok(b) => code_lookup(self@, code_hash@) == Ok::<Seq<u8>, ProviderError>(b@)
                    && b.wf() && b.hash_view() == keccak_of(b@),
                Err(e) => code_lookup(self@, code_hash@) == Err::<Seq<u8>, ProviderError>(e),
            },
    {
        if self.empty_hash.equals(code_hash) {
            return Ok(Bytecode::empty());
        }
        match self.cache.get(code_hash) {
            Some(b) => {
                let copy = b.duplicate();
                proof {
                    copy.lemma_wf_hash();
                }
                Ok(copy)
            },
            None => Err(ProviderError::UnsupportedLookup),
        }
    }

    /// Resolves one storage fetch: the raw 256-bit word on success (zero for
    /// a slot the chain never wrote, by the remote protocol's own
    /// convention), and the round-trip's typed failure otherwise.
    pub fn get_storage_at(&self, fetched: FetchOutcome<U256>) -> (r: Result<U256, ProviderError>)
        ensures
            match fetched {
                FetchOutcome::Success(v) => r === Ok(v),
                FetchOutcome::TransportFailed => r === Err(ProviderError::TransportFailure),
                FetchOutcome::TimedOut => r === Err(ProviderError::Timeout),
            },
    {
        match fetched {
            FetchOutcome::Success(v) => Ok(v),
            FetchOutcome::TransportFailed => Err(ProviderError::TransportFailure),
            FetchOutcome::TimedOut => Err(ProviderError::Timeout),
        }
    }

    /// How many distinct code hashes the cache holds.
    pub fn code_count(&self) -> (r: usize)
        requires
            self.wf(),
        ensures
            r == self@.dom().len(),
            self@.dom().finite(),
    {
        self.cache.len()
    }

    /// The cache invariant: every cached binding is content-addressed.
    pub proof fn lemma_cache_content_addressed(&self)
        requires
            self.wf(),
        ensures
            content_addressed(self@),
    {
        self.cache.lemma_content_addressed();
    }
}

/// A successful account read primes the cache: an immediate code-by-hash
/// lookup of the record's code hash is answered from the cache with the very
/// bytecode the read returned, with no further fetch. The two stated
/// antecedents exclude only Keccak collisions, which no real input produces:
/// a non-empty code whose digest equals the empty-code sentinel, and a
/// pre-existing cache entry whose bytes differ from the new code yet share
/// its digest.
pub proof fn lemma_account_read_primes_code_lookup(cache: Map<Seq<u8>, Seq<u8>>, code: Seq<u8>)
    ensures
        ((keccak_of(code) == keccak_of(Seq::<u8>::empty()) ==> code == Seq::<u8>::empty()) && (
        cache.dom().contains(keccak_of(code)) ==> cache[keccak_of(code)] == code)) ==> code_lookup(
            cached_after_read(cache, code),
            keccak_of(code),
        ) == Ok::<Seq<u8>, ProviderError>(code),
{
}

/// Concurrent account reads of one address race harmlessly: caching the same
/// bytecode a second time leaves the cache exactly as the first caching left
/// it, so the cache ends with a single entry for that code hash.
pub proof fn lemma_repeated_caching_idempotent(cache: Map<Seq<u8>, Seq<u8>>, code: Seq<u8>)
    ensures
        cached_after_read(cached_after_read(cache, code), code) == cached_after_read(cache, code),
{
}

} // verus!
