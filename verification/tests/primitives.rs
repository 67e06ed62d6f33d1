use tetcore::kernel::{Address, Hash32};
use tetcore::primitives::account::{AccountData, AccountId};
use tetcore::primitives::api::{ApiRegistry, ApiRoute, PromptCommitment, ShardStorageEntry, ShardStorageLedger};
use tetcore::primitives::arithmetic::{FixedU128, Gas, PerU16, Perbill, Ratio, SafeAdd, SafeDiv, SafeMul, SafeSub};
use tetcore::primitives::block::{BlockBuilder, BlockBuilderError, BlockBuildingStrategy, TimedBlockStrategy};
use tetcore::primitives::consensus::{ConsensusRound, Prevote, Validator, ValidatorRanking};
use tetcore::primitives::contracts::ContractStorage;
use tetcore::primitives::economics::{TokenSupply, Vault};
use tetcore::primitives::inference::RevenueSplit;
use tetcore::primitives::inference_protocol::RevenueDistribution;
use tetcore::primitives::runtime::Transaction;
use tetcore::primitives::storage::Storage;
use tetcore::primitives::system::{SystemError, SystemErrorKind, SystemVersion};
use tetcore::primitives::validator_discovery::{ValidatorInfo, ValidatorRegistry};

fn addr(i: u8) -> Address {
    let mut b = [0u8; 32];
    b[31] = i;
    Address(b)
}

#[test]
fn hash_hex_round_trip() {
    let h = Hash32([0xabu8; 32]);
    let text = h.to_hex();
    assert_eq!(text.len(), 64);
    assert!(text.starts_with("abab"));
    assert_eq!(Hash32::from_hex(&text).unwrap().0, h.0);
    assert_eq!(Hash32::from_hex("abcd").err(), Some("Invalid hash length".to_string()));
    assert!(Hash32::from_hex("zz").is_err());
    let mut bytes = [0u8; 32];
    bytes[0] = 1;
    assert_eq!(Hash32(bytes).reverse().0[31], 1);
}

#[test]
fn account_id_and_data() {
    let id = AccountId::from_bytes([7u8; 32]);
    assert_eq!(AccountId::from_hex(&id.to_hex()).unwrap(), id);
    assert_eq!(id.into_hash().0, [7u8; 32]);
    let mut a = AccountData::new(100);
    assert!(!a.sub_balance(101));
    assert!(a.sub_balance(40));
    assert_eq!(a.balance, 60);
    a.add_balance(u128::MAX);
    assert_eq!(a.balance, u128::MAX);
    a.inc_nonce();
    assert_eq!(a.nonce, 1);
}

#[test]
fn fixed_point_arithmetic() {
    let a = FixedU128::from_parts(3, 500_000_000_000_000_000);
    assert_eq!(a.integer_part(), 3);
    assert_eq!(a.fractional_part(), 500_000_000_000_000_000);
    let b = FixedU128::from_parts(2, 0);
    assert_eq!(a.mul(b).integer_part(), 7);
    assert_eq!(a.div(b).unwrap().as_u128(), 1_750_000_000_000_000_000);
    assert!(a.div(FixedU128::new(0)).is_none());
    assert_eq!(a.checked_add(b).unwrap().checked_sub(b).unwrap(), a);
    assert!(b.checked_sub(a).is_none());
    assert_eq!(FixedU128::from_basis_points(250).to_basis_points(), 250);
    assert_eq!(FixedU128::ratio(1, 4).unwrap().as_u128(), 250_000_000_000_000_000);
    assert_eq!(FixedU128::percentage(50).as_u128(), 500_000_000_000_000_000);
}

#[test]
fn safe_integer_operations() {
    assert_eq!(SafeAdd::checked_add(250u8, 5u8), Some(255));
    assert_eq!(SafeAdd::checked_add(250u8, 6u8), None);
    assert_eq!(SafeAdd::saturating_add(250u8, 6u8), 255);
    assert_eq!(SafeAdd::checked_add_signed(10u8, -3), Some(7));
    assert_eq!(SafeAdd::checked_add_signed(10u8, -11), None);
    assert_eq!(SafeAdd::checked_add_signed(10u64, 300), Some(310));
    assert_eq!(SafeSub::saturating_sub(3u32, 5u32), 0);
    assert_eq!(SafeMul::saturating_mul(1u128 << 100, 1u128 << 100), u128::MAX);
    assert_eq!(SafeDiv::checked_div(7u16, 0u16), None);
    assert_eq!(SafeDiv::saturating_div(7u16, 2u16), 3);
}

#[test]
fn fractions_and_gas() {
    assert_eq!(Perbill::from_parts(2_000_000_000).as_u32(), 1_000_000_000);
    assert_eq!(Perbill::from_percent(50).multiply(1000), 500);
    assert_eq!(Perbill::from_rational(1, 3).unwrap().as_u32(), 333_333_333);
    assert!(Perbill::from_rational(1, 0).is_none());
    assert_eq!(Perbill::from_rational(0, 0).unwrap().as_u32(), 0);
    assert_eq!(Perbill::from_parts(1).multiply_ceil(1000), 1);
    assert_eq!(PerU16::from_percent(100).as_u16(), 65535);
    assert_eq!(PerU16::from_parts(65535).multiply(10), 10);
    let r = Ratio::new(3, 4).unwrap();
    assert_eq!(r.multiply(100), 75);
    assert_eq!(r.multiply_ceil(1), 1);
    assert_eq!(r.inverse().unwrap().inverse().unwrap(), r);
    assert!(Ratio::new(1, 0).is_none());
    assert_eq!(Gas::new(u64::MAX).checked_add(Gas::new(1)), None);
    assert_eq!(Gas::new(5).saturating_sub(Gas::new(9)).as_u64(), 0);
    assert_eq!(Gas::new(3).saturating_mul(4).as_u64(), 12);
}

#[test]
fn system_version_and_errors() {
    let v = SystemVersion::new(2, 7, 9);
    assert_eq!((v.major(), v.minor(), v.patch()), (2, 7, 9));
    assert_eq!(SystemError::new(SystemErrorKind::Jailed).code(), 121);
    assert_eq!(SystemError::new(SystemErrorKind::DivisionByZero).with_message("x").message, "x");
}

#[test]
fn supply_and_vault_shares() {
    assert!(TokenSupply::new().verify_invariant());
    let mut v = Vault::new(Hash32([1u8; 32]), addr(1));
    assert_eq!(v.stake(100), 100);
    assert_eq!(v.stake(50), 50);
    assert_eq!(v.share_value(150), 150);
    assert_eq!(v.unstake(30), 30);
    assert_eq!(v.unstake(0), 0);
}

#[test]
fn revenue_distribution_primitives() {
    let split = RevenueSplit::default_model();
    let d = RevenueDistribution::distribute(10000, &split);
    assert_eq!(d.operator_amount, 7000);
    assert_eq!(d.total(), 10000);
    assert!(RevenueSplit::new(1, 1, 1, 1, 1).is_err());
}

#[test]
fn prompt_commitment_opens() {
    let c = PromptCommitment::new(b"hello", vec![9, 9]);
    assert!(c.verify(b"hello"));
    assert!(!c.verify(b"hellp"));
}

#[test]
fn shard_ledger_and_routes() {
    let mut entry = ShardStorageEntry::new(Hash32([1u8; 32]), 1, 0);
    entry.register_node(addr(1), 50);
    entry.register_node(addr(1), 60);
    assert_eq!(entry.storage_nodes.len(), 1);
    assert_eq!(entry.deregister_node(&addr(1)), Some(50));
    assert_eq!(entry.deregister_node(&addr(1)), None);
    let mut ledger = ShardStorageLedger::new();
    ledger.add_entry(ShardStorageEntry::new(Hash32([1u8; 32]), 1, 0));
    ledger.add_entry(ShardStorageEntry::new(Hash32([1u8; 32]), 1, 0));
    assert_eq!(ledger.entries.len(), 1);
    assert!(ledger.get_entry(Hash32([1u8; 32]), 1, 0).is_some());
    let mut reg = ApiRegistry::new();
    reg.register_route(ApiRoute::new("/a".to_string(), "m".to_string(), "f".to_string()));
    reg.register_route(ApiRoute::new("/a".to_string(), "n".to_string(), "g".to_string()));
    assert_eq!(reg.routes.len(), 1);
    assert!(reg.get_route("/a").is_some());
    assert!(reg.get_route("/b").is_none());
}

#[test]
fn contract_storage_root_ignores_insertion_order() {
    let mut a = ContractStorage::new(Hash32([1u8; 32]));
    a.set(b"k2".to_vec(), b"v2".to_vec());
    a.set(b"k1".to_vec(), b"v1".to_vec());
    let mut b = ContractStorage::new(Hash32([1u8; 32]));
    b.set(b"k1".to_vec(), b"v1".to_vec());
    b.set(b"k2".to_vec(), b"v2".to_vec());
    assert_eq!(a.root().0, b.root().0);
    assert_eq!(a.get(b"k1"), Some(b"v1".to_vec()));
    a.remove(b"k1");
    assert_eq!(a.get(b"k1"), None);
    assert_ne!(a.root().0, b.root().0);
}

#[test]
fn trie_storage_root_ignores_insertion_order() {
    let mut a = Storage::new();
    a.set(b"x".to_vec(), b"1".to_vec());
    a.set(b"y".to_vec(), b"2".to_vec());
    let mut b = Storage::new();
    b.set(b"y".to_vec(), b"2".to_vec());
    b.set(b"x".to_vec(), b"1".to_vec());
    assert_eq!(a.root().0, b.root().0);
    assert_eq!(a.get(b"y"), Some(b"2".to_vec()));
}

#[test]
fn ranking_orders_by_stake_stably() {
    let mut jailed = Validator::new(addr(9), 10_000);
    jailed.jailed = true;
    let vs = vec![Validator::new(addr(1), 100), Validator::new(addr(2), 300), jailed, Validator::new(addr(3), 100)];
    let ranked = ValidatorRanking::rank(&vs);
    assert_eq!(ranked.len(), 3);
    assert_eq!(ranked[0].account_id, addr(2));
    assert_eq!(ranked[1].account_id, addr(1));
    assert_eq!(ranked[2].account_id, addr(3));
    assert_eq!(ranked[2].rank, 3);
}

#[test]
fn registry_sorts_by_stake() {
    let mut reg = ValidatorRegistry::new();
    reg.register(ValidatorInfo::new(addr(1), 5));
    reg.register(ValidatorInfo::new(addr(2), 50));
    reg.register(ValidatorInfo::new(addr(1), 500));
    assert_eq!(reg.entries.len(), 2);
    reg.sort_by_stake();
    assert_eq!(reg.entries[0].account_id, addr(2));
    assert!(reg.deregister(&addr(1)).is_some());
    assert!(reg.get(&addr(1)).is_none());
}

#[test]
fn prevote_counting() {
    let mut round = ConsensusRound::new(1, 0, addr(1));
    round.add_prevote(Prevote::new(1, 0, Some(Hash32([1u8; 32])), addr(1)));
    round.add_prevote(Prevote::new(1, 0, Some(Hash32([1u8; 32])), addr(1)));
    round.add_prevote(Prevote::new(1, 0, None, addr(2)));
    assert_eq!(round.prevote_count(&Hash32([1u8; 32])), 1);
}

#[test]
fn block_builder_limits() {
    let tx = Transaction::new(addr(1));
    let b = BlockBuilder::new(Hash32::empty(), 1).push_transaction(tx.clone()).unwrap();
    assert_eq!(b.transaction_count(), 1);
    let mut big = Transaction::new(addr(2));
    big.gas_limit = 60_000_000;
    let err = b.push_transaction(big).err();
    assert_eq!(err, Some(BlockBuilderError::GasExceeded));
    let strategy = TimedBlockStrategy { target_interval_ms: 100, last_block_timestamp: 50 };
    assert!(!strategy.should_build_block(100, 0));
    assert!(strategy.should_build_block(150, 0));
}

#[test]
fn operators_saturate_and_scale() {
    let a = FixedU128::from_parts(2, 0);
    let b = FixedU128::from_parts(3, 0);
    assert_eq!((a + b).integer_part(), 5);
    assert_eq!((a - b).as_u128(), 0);
    assert_eq!((a * b).integer_part(), 6);
    assert_eq!((b / a).unwrap().fractional_part(), 500_000_000_000_000_000);
    assert!((a / FixedU128::new(0)).is_none());
    assert_eq!(Perbill::from_percent(25) * 400u128, 100);
    assert_eq!(PerU16::from_parts(65535) * 7u128, 7);
    assert_eq!((Gas::new(u64::MAX) + Gas::new(1)).as_u64(), u64::MAX);
    assert_eq!((Gas::new(2) - Gas::new(3)).as_u64(), 0);
    assert_eq!((Gas::new(2) * 5).as_u64(), 10);
}

#[test]
fn hash_from_byte_slices() {
    let long: Vec<u8> = (0u8..40).collect();
    let h = Hash32::try_from(long.as_slice()).unwrap();
    assert_eq!(h.0[31], 31);
    assert_eq!(Hash32::try_from(vec![1u8; 31]).err(), Some("Slice too short"));
    assert!(Hash32::try_from(vec![1u8; 32]).is_ok());
}
