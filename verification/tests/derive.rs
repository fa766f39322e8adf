use fp_consensus::{Hashes as ConsensusHashes, PostLog, PreLog, FRONTIER_ENGINE_ID};
use mapping_sync::consensus::{FindLogError, Hashes};
use mapping_sync::genesis::{
    genesis_shape, sync_genesis_block, EmbeddedBlock, EmbeddedHeader, GenesisBlock, GenesisShape,
    LegacyBlock,
};
use mapping_sync::header::{fetch_header, Header};
use mapping_sync::mapping::{commit_log, sync_block, IndexEntry, MappingCommitment};
use mapping_sync::primitives::{Address, Failed, Hash256, SyncError, Uint256};
use parity_scale_codec::Encode;
use sp_runtime::generic::{Digest, DigestItem};

fn hash(byte: u8) -> Hash256 {
    Hash256 { bytes: [byte; 32] }
}

fn unhex(text: &str) -> Vec<u8> {
    (0..text.len() / 2).map(|i| u8::from_str_radix(&text[2 * i..2 * i + 2], 16).unwrap()).collect()
}

fn hash_of(text: &str) -> Hash256 {
    let mut bytes = [0u8; 32];
    bytes.copy_from_slice(&unhex(text));
    Hash256 { bytes }
}

fn claim(block: u8, transactions: &[u8]) -> DigestItem<sp_core::H256> {
    let log = PostLog::Hashes(ConsensusHashes {
        block_hash: sp_core::H256::repeat_byte(block),
        transaction_hashes: transactions.iter().map(|t| sp_core::H256::repeat_byte(*t)).collect(),
    });
    DigestItem::Consensus(FRONTIER_ENGINE_ID, log.encode())
}

fn header(own: u8, parent: u8, number: u64, logs: Vec<DigestItem<sp_core::H256>>) -> Header {
    Header { hash: hash(own), parent_hash: hash(parent), number, digest: Digest { logs } }
}

fn mainnet_genesis() -> EmbeddedHeader {
    EmbeddedHeader {
        parent_hash: hash(0),
        ommers_hash: hash_of("1dcc4de8dec75d7aab85b567b6ccd41ad312451b948a7413f0a142fd40d49347"),
        beneficiary: Address { bytes: [0; 20] },
        state_root: hash_of("d7f8974fb5ac78d9ac099b9ad5018bedc2ce0a72dad1827a1709da30580f0544"),
        transactions_root: hash_of(
            "56e81f171bcc55a6ff8345e692c0f86e5b48e01b996cadc001622fb5e363b421",
        ),
        receipts_root: hash_of("56e81f171bcc55a6ff8345e692c0f86e5b48e01b996cadc001622fb5e363b421"),
        logs_bloom: [0; 256],
        difficulty: Uint256 { limbs: [0x4_0000_0000, 0, 0, 0] },
        number: Uint256 { limbs: [0, 0, 0, 0] },
        gas_limit: Uint256 { limbs: [5000, 0, 0, 0] },
        gas_used: Uint256 { limbs: [0, 0, 0, 0] },
        timestamp: 0,
        extra_data: unhex("11bbe8db4e347b4e8c937c1c8370e4b5ed33adb3db69cbdb7a38e1e50b1b82fa"),
        mix_hash: hash(0),
        nonce: [0, 0, 0, 0, 0, 0, 0, 0x42],
    }
}

fn outside_header(h: &EmbeddedHeader) -> ethereum::Header {
    ethereum::Header {
        parent_hash: sp_core::H256(h.parent_hash.bytes),
        ommers_hash: sp_core::H256(h.ommers_hash.bytes),
        beneficiary: sp_core::H160(h.beneficiary.bytes),
        state_root: sp_core::H256(h.state_root.bytes),
        transactions_root: sp_core::H256(h.transactions_root.bytes),
        receipts_root: sp_core::H256(h.receipts_root.bytes),
        logs_bloom: h.logs_bloom.into(),
        difficulty: sp_core::U256(h.difficulty.limbs),
        number: sp_core::U256(h.number.limbs),
        gas_limit: sp_core::U256(h.gas_limit.limbs),
        gas_used: sp_core::U256(h.gas_used.limbs),
        timestamp: h.timestamp,
        extra_data: h.extra_data.clone(),
        mix_hash: sp_core::H256(h.mix_hash.bytes),
        nonce: h.nonce.into(),
    }
}

#[test]
fn sync_block_commits_the_single_claim() {
    let h = header(7, 6, 3, vec![claim(0xaa, &[1, 2])]);
    assert_eq!(
        sync_block(&h),
        Ok(IndexEntry::Committed(MappingCommitment {
            block_hash: hash(7),
            ethereum_block_hash: hash(0xaa),
            ethereum_transaction_hashes: vec![hash(1), hash(2)],
        }))
    );
}

#[test]
fn sync_block_keeps_the_order_of_the_transactions() {
    let h = header(7, 6, 3, vec![claim(0xaa, &[9, 3, 5])]);
    match sync_block(&h) {
        Ok(IndexEntry::Committed(c)) => {
            assert_eq!(c.ethereum_transaction_hashes, vec![hash(9), hash(3), hash(5)])
        }
        other => panic!("{:?}", other),
    }
}

#[test]
fn sync_block_marks_a_header_without_claim() {
    let h = header(7, 6, 3, vec![DigestItem::Other(vec![1, 2, 3])]);
    assert_eq!(sync_block(&h), Ok(IndexEntry::NoBlock(hash(7))));
    let empty = header(8, 7, 4, vec![]);
    assert_eq!(sync_block(&empty), Ok(IndexEntry::NoBlock(hash(8))));
}

#[test]
fn sync_block_ignores_the_logs_of_other_engines() {
    let log = PostLog::Hashes(ConsensusHashes {
        block_hash: sp_core::H256::repeat_byte(0xcc),
        transaction_hashes: Vec::new(),
    });
    let foreign = DigestItem::Consensus(*b"aura", log.encode());
    let seal = DigestItem::Seal(FRONTIER_ENGINE_ID, log.encode());
    let h = header(7, 6, 3, vec![foreign, seal, claim(0xaa, &[])]);
    assert_eq!(
        sync_block(&h),
        Ok(IndexEntry::Committed(MappingCommitment {
            block_hash: hash(7),
            ethereum_block_hash: hash(0xaa),
            ethereum_transaction_hashes: Vec::new(),
        }))
    );
}

#[test]
fn sync_block_rejects_two_claims() {
    let h = header(7, 6, 3, vec![claim(0xaa, &[]), claim(0xbb, &[])]);
    assert_eq!(sync_block(&h), Err(SyncError::AmbiguousLog));
}

#[test]
fn sync_block_hashes_a_whole_block_in_the_log() {
    let genesis = outside_header(&mainnet_genesis());
    let block = ethereum::Block { header: genesis, transactions: Vec::new(), ommers: Vec::new() };
    let pre = DigestItem::PreRuntime(FRONTIER_ENGINE_ID, PreLog::Block(block).encode());
    let h = header(7, 6, 3, vec![pre]);
    assert_eq!(
        sync_block(&h),
        Ok(IndexEntry::Committed(MappingCommitment {
            block_hash: hash(7),
            ethereum_block_hash: hash_of(
                "d4e56740f876aef8c010b86a40d5f56745a118d0906a34e69aec8c0db1cb8fa3"
            ),
            ethereum_transaction_hashes: Vec::new(),
        }))
    );
}

#[test]
fn commit_log_maps_each_outcome_of_the_search() {
    let found = Hashes { block_hash: hash(4), transaction_hashes: vec![hash(5)] };
    assert_eq!(
        commit_log(hash(1), Ok(found)),
        Ok(IndexEntry::Committed(MappingCommitment {
            block_hash: hash(1),
            ethereum_block_hash: hash(4),
            ethereum_transaction_hashes: vec![hash(5)],
        }))
    );
    assert_eq!(commit_log(hash(1), Err(FindLogError::NotFound)), Ok(IndexEntry::NoBlock(hash(1))));
    assert_eq!(commit_log(hash(1), Err(FindLogError::MultipleLogs)), Err(SyncError::AmbiguousLog));
}

#[test]
fn index_entry_names_its_host_block() {
    assert_eq!(IndexEntry::NoBlock(hash(3)).block_hash(), hash(3));
    let c = MappingCommitment {
        block_hash: hash(1),
        ethereum_block_hash: hash(4),
        ethereum_transaction_hashes: vec![hash(5)],
    };
    let entry = IndexEntry::Committed(c);
    assert_eq!(entry.block_hash(), hash(1));
    assert_eq!(entry.duplicate(), entry);
}

#[test]
fn fetch_header_keeps_a_header_at_or_above_the_floor() {
    let at = fetch_header(Ok(Some(header(7, 6, 5, vec![]))), 5);
    assert_eq!(at, Ok(Some(header(7, 6, 5, vec![]))));
    let above = fetch_header(Ok(Some(header(7, 6, 6, vec![]))), 5);
    assert_eq!(above, Ok(Some(header(7, 6, 6, vec![]))));
}

#[test]
fn fetch_header_drops_a_header_below_the_floor() {
    assert_eq!(fetch_header(Ok(Some(header(7, 6, 4, vec![]))), 5), Ok(None));
}

#[test]
fn fetch_header_fails_without_a_header() {
    assert_eq!(fetch_header(Ok(None), 0), Err(SyncError::HeaderUnresolvable));
    assert_eq!(fetch_header(Err(Failed), 0), Err(SyncError::HeaderUnresolvable));
}

#[test]
fn header_duplicate_is_equal() {
    let h = header(7, 6, 4, vec![claim(1, &[2])]);
    assert_eq!(h.duplicate(), h);
}

#[test]
fn genesis_shape_follows_the_version() {
    assert_eq!(genesis_shape(0), GenesisShape::Legacy);
    assert_eq!(genesis_shape(1), GenesisShape::Legacy);
    assert_eq!(genesis_shape(2), GenesisShape::Current);
    assert_eq!(genesis_shape(u32::MAX), GenesisShape::Current);
}

#[test]
fn genesis_without_block_is_marked() {
    assert_eq!(sync_genesis_block(hash(1), None), IndexEntry::NoBlock(hash(1)));
}

#[test]
fn genesis_with_block_is_committed_without_transactions() {
    let expected = IndexEntry::Committed(MappingCommitment {
        block_hash: hash(1),
        ethereum_block_hash: hash_of(
            "d4e56740f876aef8c010b86a40d5f56745a118d0906a34e69aec8c0db1cb8fa3",
        ),
        ethereum_transaction_hashes: Vec::new(),
    });
    let current = GenesisBlock::CurrentGenesis(EmbeddedBlock { header: mainnet_genesis() });
    assert_eq!(sync_genesis_block(hash(1), Some(current)), expected);
    let legacy = GenesisBlock::LegacyGenesis(LegacyBlock { header: mainnet_genesis() });
    assert_eq!(sync_genesis_block(hash(1), Some(legacy)), expected);
}

#[test]
fn genesis_hash_is_that_of_the_outside_header() {
    let mut h = mainnet_genesis();
    h.timestamp = 1_600_000_000;
    h.number = Uint256 { limbs: [7, 0, 0, 1] };
    h.extra_data = vec![1, 2, 3];
    h.beneficiary = Address { bytes: [9; 20] };
    let expected = Hash256 { bytes: outside_header(&h).hash().0 };
    let block = GenesisBlock::CurrentGenesis(EmbeddedBlock { header: h });
    match sync_genesis_block(hash(2), Some(block)) {
        IndexEntry::Committed(c) => {
            assert_eq!(c.block_hash, hash(2));
            assert_eq!(c.ethereum_block_hash, expected);
            assert_eq!(c.ethereum_transaction_hashes, Vec::<Hash256>::new());
        }
        other => panic!("{:?}", other),
    }
}

#[test]
fn genesis_block_shapes_are_brought_into_one() {
    let legacy = GenesisBlock::LegacyGenesis(LegacyBlock { header: mainnet_genesis() });
    assert_eq!(legacy.canonical(), EmbeddedBlock { header: mainnet_genesis() });
    let block = EmbeddedBlock { header: mainnet_genesis() };
    assert_eq!(
        block.in_shape(GenesisShape::Legacy),
        GenesisBlock::LegacyGenesis(LegacyBlock { header: mainnet_genesis() })
    );
    assert_eq!(
        block.in_shape(GenesisShape::Current),
        GenesisBlock::CurrentGenesis(EmbeddedBlock { header: mainnet_genesis() })
    );
}

#[test]
fn hashes_compare_by_their_bytes() {
    let mut other = hash(3);
    assert!(hash(3).same(&other));
    other.bytes[31] = 4;
    assert!(!hash(3).same(&other));
    let a = Address { bytes: [1; 20] };
    let mut b = a;
    assert!(a.same(&b));
    b.bytes[0] = 2;
    assert!(!a.same(&b));
}

#[test]
fn errors_describe_themselves() {
    assert_eq!(SyncError::AmbiguousLog.message(), "Multiple logs found");
    assert_eq!(SyncError::HeaderUnresolvable.message(), "Header not found");
    assert_eq!(SyncError::StoreWriteFailed.message(), "Store write failed");
    assert_eq!(SyncError::StoreReadFailed.message(), "Store read failed");
    assert_eq!(SyncError::CapabilityProbeFailed.message(), "Runtime query failed");
}
