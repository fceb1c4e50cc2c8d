use remote_state::bytecode::{empty_code_hash, Bytecode};
use remote_state::provider::{
    AccountData, FetchOutcome, ProviderError, RemoteStateProvider,
};
use remote_state::values::{Address, Hash256, U256};

const EMPTY_CODE_HASH_BYTES: [u8; 32] = [
    0xc5, 0xd2, 0x46, 0x01, 0x86, 0xf7, 0x23, 0x3c, 0x92, 0x7e, 0x7d, 0xb2, 0xdc, 0xc7, 0x03,
    0xc0, 0xe5, 0x00, 0xb6, 0x53, 0xca, 0x82, 0x27, 0x3b, 0x7b, 0xfa, 0xd8, 0x04, 0x5d, 0x85,
    0xa4, 0x70,
];

fn account_success(balance: U256, transaction_count: U256, code: Vec<u8>) -> FetchOutcome<AccountData> {
    FetchOutcome::Success(AccountData { balance, transaction_count, code })
}

#[test]
fn empty_code_hash_is_the_well_known_sentinel() {
    let h = empty_code_hash();
    assert_eq!(h.as_bytes().as_slice(), &EMPTY_CODE_HASH_BYTES[..]);
    assert_eq!(
        h.as_bytes().as_slice(),
        revm::primitives::KECCAK_EMPTY.as_slice()
    );
}

#[test]
fn bytecode_hash_matches_the_reference_digest() {
    let code = vec![0x60u8, 0x00u8];
    let bc = Bytecode::new(code.clone());
    let expected = revm::primitives::keccak256(&code);
    assert_eq!(bc.code_hash().as_bytes().as_slice(), expected.as_slice());
    assert_eq!(bc.code_hash().as_bytes().len(), 32);
    // the digest is not the input handed back unchanged
    assert_ne!(bc.code_hash().as_bytes().as_slice(), code.as_slice());
}

#[test]
fn code_by_empty_hash_returns_empty_bytecode_without_any_fetch() {
    // the provider holds no client at all; nothing here performs a round-trip
    let provider = RemoteStateProvider::new(0);
    let r = provider.get_code_by_hash(&empty_code_hash());
    let bc = r.expect("the empty-code sentinel must short-circuit");
    assert_eq!(bc.len(), 0);
    assert!(bc.bytes().is_empty());
    assert_eq!(provider.code_count(), 0);
}

#[test]
fn account_read_then_code_by_hash_hits_the_cache() {
    let mut provider = RemoteStateProvider::new(5);
    let code = vec![0x60u8, 0x01u8, 0x60u8, 0x02u8];
    let r = provider
        .get_account(account_success(U256::from_u64(1), U256::from_u64(0), code.clone()))
        .expect("fetch succeeded");
    let cached = provider
        .get_code_by_hash(&r.code_hash)
        .expect("the record's code hash must now be cached");
    assert_eq!(cached.bytes().as_slice(), code.as_slice());
    assert_eq!(provider.code_count(), 1);
}

#[test]
fn code_by_unknown_hash_fails_with_unsupported_lookup() {
    let provider = RemoteStateProvider::new(0);
    let h = Hash256::from_bytes(vec![0x11u8; 32]).unwrap();
    let r = provider.get_code_by_hash(&h);
    assert_eq!(r.unwrap_err(), ProviderError::UnsupportedLookup);
}

#[test]
fn code_by_uncached_digest_fails_even_after_other_reads() {
    let mut provider = RemoteStateProvider::new(0);
    provider
        .get_account(account_success(U256::zero(), U256::zero(), vec![0x01]))
        .expect("fetch succeeded");
    let other = Bytecode::new(vec![0x02]);
    let r = provider.get_code_by_hash(other.code_hash());
    assert_eq!(r.unwrap_err(), ProviderError::UnsupportedLookup);
}

#[test]
fn unwritten_storage_slot_reads_as_zero() {
    // the remote protocol reports an unset slot as zero; the provider hands
    // that value through unchanged
    let provider = RemoteStateProvider::new(0);
    let r = provider.get_storage_at(FetchOutcome::Success(U256::zero()));
    assert_eq!(r.unwrap(), U256::zero());
}

#[test]
fn storage_value_passes_through_unchanged() {
    let provider = RemoteStateProvider::new(0);
    let v = U256::from_limbs(7, 8, 9, 10);
    let r = provider.get_storage_at(FetchOutcome::Success(v));
    assert_eq!(r.unwrap(), v);
}

#[test]
fn repeated_account_reads_leave_one_cache_entry() {
    let mut provider = RemoteStateProvider::new(0);
    let code = vec![0xfeu8, 0xedu8];
    for _ in 0..3 {
        provider
            .get_account(account_success(U256::from_u64(9), U256::from_u64(2), code.clone()))
            .expect("fetch succeeded");
    }
    assert_eq!(provider.code_count(), 1);
}

#[test]
fn distinct_codes_cache_separately() {
    let mut provider = RemoteStateProvider::new(0);
    provider
        .get_account(account_success(U256::zero(), U256::zero(), vec![0x01]))
        .expect("fetch succeeded");
    provider
        .get_account(account_success(U256::zero(), U256::zero(), vec![0x02]))
        .expect("fetch succeeded");
    provider
        .get_account(account_success(U256::zero(), U256::zero(), vec![0x01]))
        .expect("fetch succeeded");
    assert_eq!(provider.code_count(), 2);
}

#[test]
fn timed_out_reads_fail_with_timeout() {
    let mut provider = RemoteStateProvider::new(0);
    let r = provider.get_account(FetchOutcome::TimedOut);
    assert_eq!(r.unwrap_err(), ProviderError::Timeout);
    let s = provider.get_storage_at(FetchOutcome::TimedOut);
    assert_eq!(s.unwrap_err(), ProviderError::Timeout);
    assert_eq!(provider.code_count(), 0);
}

#[test]
fn transport_failures_are_surfaced_not_swallowed() {
    let mut provider = RemoteStateProvider::new(0);
    let r = provider.get_account(FetchOutcome::TransportFailed);
    assert_eq!(r.unwrap_err(), ProviderError::TransportFailure);
    let s = provider.get_storage_at(FetchOutcome::TransportFailed);
    assert_eq!(s.unwrap_err(), ProviderError::TransportFailure);
    assert_eq!(provider.code_count(), 0);
}

#[test]
fn oversized_transaction_count_fails_to_decode() {
    let mut provider = RemoteStateProvider::new(0);
    let too_big = U256::from_limbs(0, 1, 0, 0);
    let r = provider.get_account(account_success(U256::zero(), too_big, vec![0x01]));
    assert_eq!(r.unwrap_err(), ProviderError::DecodeFailure);
    // a failed decode caches nothing
    assert_eq!(provider.code_count(), 0);
}

#[test]
fn largest_fitting_transaction_count_decodes() {
    let mut provider = RemoteStateProvider::new(0);
    let r = provider
        .get_account(account_success(U256::zero(), U256::from_u64(u64::MAX), vec![]))
        .expect("fetch succeeded");
    assert_eq!(r.nonce, u64::MAX);
}

#[test]
fn account_scenario_populates_record_and_cache() {
    let mut provider = RemoteStateProvider::new(0);
    let code = vec![0x60u8, 0x00u8];
    let r = provider
        .get_account(account_success(U256::from_u64(100), U256::from_u64(3), code.clone()))
        .expect("fetch succeeded");
    assert_eq!(r.balance, U256::from_u64(100));
    assert_eq!(r.nonce, 3);
    let expected_hash = revm::primitives::keccak256(&code);
    assert_eq!(r.code_hash.as_bytes().as_slice(), expected_hash.as_slice());
    let record_code = r.code.expect("the record carries the decoded code");
    assert_eq!(record_code.bytes().as_slice(), code.as_slice());
    let cached = provider
        .get_code_by_hash(&r.code_hash)
        .expect("the scenario's digest is cached");
    assert_eq!(cached.bytes().as_slice(), code.as_slice());
}

#[test]
fn queries_carry_the_block_pin() {
    let provider = RemoteStateProvider::new(123);
    assert_eq!(provider.block_number(), 123);
    let address = Address::from_bytes(vec![0xabu8; 20]).unwrap();
    let q = provider.account_query(address);
    assert_eq!(q.block_number, 123);
    assert_eq!(q.address.as_bytes().as_slice(), &[0xabu8; 20][..]);
    let address = Address::from_bytes(vec![0xcdu8; 20]).unwrap();
    let s = provider.storage_query(address, U256::from_u64(4));
    assert_eq!(s.block_number, 123);
    assert_eq!(s.slot, U256::from_u64(4));
}

#[test]
fn address_and_hash_lengths_are_checked() {
    assert!(Address::from_bytes(vec![0u8; 20]).is_some());
    assert!(Address::from_bytes(vec![0u8; 19]).is_none());
    assert!(Address::from_bytes(vec![0u8; 21]).is_none());
    assert!(Hash256::from_bytes(vec![0u8; 32]).is_some());
    assert!(Hash256::from_bytes(vec![0u8; 31]).is_none());
    assert!(Hash256::from_bytes(vec![0u8; 33]).is_none());
}

#[test]
fn hash_equality_is_byte_for_byte() {
    let a = Hash256::from_bytes(vec![0x01u8; 32]).unwrap();
    let b = Hash256::from_bytes(vec![0x01u8; 32]).unwrap();
    let mut raw = vec![0x01u8; 32];
    raw[31] = 0x02;
    let c = Hash256::from_bytes(raw).unwrap();
    assert!(a.equals(&b));
    assert!(!a.equals(&c));
}

#[test]
fn u256_narrowing_fails_exactly_when_it_does_not_fit() {
    assert_eq!(U256::from_u64(17).try_into_u64(), Some(17));
    assert_eq!(U256::from_u64(u64::MAX).try_into_u64(), Some(u64::MAX));
    assert_eq!(U256::from_limbs(0, 1, 0, 0).try_into_u64(), None);
    assert_eq!(U256::from_limbs(5, 0, 3, 0).try_into_u64(), None);
    assert_eq!(U256::from_limbs(5, 0, 0, 9).try_into_u64(), None);
}
