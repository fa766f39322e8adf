use fp_consensus::{Hashes as ConsensusHashes, PostLog, FRONTIER_ENGINE_ID};
use mapping_sync::backend::{sync_blocks, sync_one_block, MemoryBackend};
use mapping_sync::engine::{Engine, Reply, Request};
use mapping_sync::genesis::{EmbeddedBlock, EmbeddedHeader, GenesisBlock, GenesisShape};
use mapping_sync::header::Header;
use mapping_sync::mapping::{IndexEntry, MappingCommitment};
use mapping_sync::primitives::{Address, Failed, Hash256, SyncError, SyncStrategy, Uint256};
use parity_scale_codec::Encode;
use sp_runtime::generic::{Digest, DigestItem};

fn hash(byte: u8) -> Hash256 {
    Hash256 { bytes: [byte; 32] }
}

fn claim(block: u8, transactions: &[u8]) -> DigestItem<sp_core::H256> {
    let log = PostLog::Hashes(ConsensusHashes {
        block_hash: sp_core::H256::repeat_byte(block),
        transaction_hashes: transactions.iter().map(|t| sp_core::H256::repeat_byte(*t)).collect(),
    });
    DigestItem::Consensus(FRONTIER_ENGINE_ID, log.encode())
}

fn header(own: u8, parent: u8, number: u64, logs: Vec<DigestItem<sp_core::H256>>) -> Header {
    Header { hash: hash(own), parent_hash: hash(parent), number, digest: Digest { logs } }
}

/// A header that claims the embedded block `own + 0x80`.
fn plain(own: u8, parent: u8, number: u64) -> Header {
    header(own, parent, number, vec![claim(own + 0x80, &[])])
}

fn committed(own: u8) -> IndexEntry {
    IndexEntry::Committed(MappingCommitment {
        block_hash: hash(own),
        ethereum_block_hash: hash(own + 0x80),
        ethereum_transaction_hashes: Vec::new(),
    })
}

fn backend(headers: Vec<Header>, leaves: Vec<Hash256>) -> MemoryBackend {
    MemoryBackend {
        headers,
        leaves,
        best_number: 0,
        capability: Ok(None),
        genesis: Ok(None),
        index: Vec::new(),
        tips: Vec::new(),
    }
}

fn embedded(timestamp: u64) -> EmbeddedBlock {
    EmbeddedBlock {
        header: EmbeddedHeader {
            parent_hash: hash(0),
            ommers_hash: hash(1),
            beneficiary: Address { bytes: [0; 20] },
            state_root: hash(2),
            transactions_root: hash(3),
            receipts_root: hash(4),
            logs_bloom: [0; 256],
            difficulty: Uint256 { limbs: [0, 0, 0, 0] },
            number: Uint256 { limbs: [0, 0, 0, 0] },
            gas_limit: Uint256 { limbs: [75_000_000, 0, 0, 0] },
            gas_used: Uint256 { limbs: [0, 0, 0, 0] },
            timestamp,
            extra_data: Vec::new(),
            mix_hash: hash(0),
            nonce: [0; 8],
        },
    }
}

/// Height 0 is the block 1; above it the chain runs 2, 3, 4, 5, and a fork
/// 13, 14 branches off at 3.
fn forked() -> MemoryBackend {
    backend(
        vec![
            header(1, 0, 0, vec![]),
            plain(2, 1, 1),
            plain(3, 2, 2),
            plain(4, 3, 3),
            plain(5, 4, 4),
            plain(13, 3, 3),
            plain(14, 13, 4),
        ],
        vec![hash(5), hash(14)],
    )
}

fn indexed(b: &MemoryBackend) -> Vec<Hash256> {
    b.index.iter().map(|e| e.block_hash()).collect()
}

fn count(b: &MemoryBackend, own: u8) -> usize {
    b.index.iter().filter(|e| e.block_hash() == hash(own)).count()
}

#[test]
fn nothing_to_do_without_frontier_and_leaves() {
    let mut b = backend(vec![plain(2, 1, 1)], vec![]);
    assert_eq!(sync_one_block(&mut b, 0, SyncStrategy::Standalone), Ok(false));
    assert_eq!(b, backend(vec![plain(2, 1, 1)], vec![]));
}

#[test]
fn a_limit_of_zero_takes_no_step() {
    let mut b = forked();
    assert_eq!(sync_blocks(&mut b, 0, 0, SyncStrategy::Standalone), Ok(false));
    assert_eq!(b, forked());
}

#[test]
fn the_first_step_seeds_the_frontier_from_the_leaves() {
    let mut b = forked();
    assert_eq!(sync_one_block(&mut b, 0, SyncStrategy::Standalone), Ok(true));
    assert_eq!(b.index, vec![committed(14)]);
    assert_eq!(b.tips, vec![hash(5), hash(13)]);
}

#[test]
fn the_tip_pushed_last_is_served_first() {
    let mut b = forked();
    assert_eq!(sync_blocks(&mut b, 3, 0, SyncStrategy::Standalone), Ok(true));
    assert_eq!(indexed(&b), vec![hash(14), hash(13), hash(3)]);
    assert_eq!(b.tips, vec![hash(5), hash(2)]);
}

#[test]
fn a_batch_takes_all_its_steps() {
    let mut b = backend(vec![plain(2, 1, 1), plain(3, 2, 2), plain(4, 3, 3)], vec![hash(4)]);
    assert_eq!(sync_blocks(&mut b, 3, 1, SyncStrategy::Standalone), Ok(true));
    assert_eq!(b.index, vec![committed(4), committed(3), committed(2)]);
    assert_eq!(b.tips, vec![hash(1)]);
}

#[test]
fn a_batch_reports_progress_of_any_step() {
    let mut b = backend(vec![header(1, 0, 0, vec![])], vec![hash(1)]);
    assert_eq!(sync_blocks(&mut b, 4, 0, SyncStrategy::Standalone), Ok(true));
    assert_eq!(b.index, vec![IndexEntry::NoBlock(hash(1))]);
    assert_eq!(sync_blocks(&mut b, 4, 0, SyncStrategy::Standalone), Ok(false));
}

#[test]
fn an_indexed_tip_is_dropped() {
    let mut b = backend(vec![plain(2, 1, 1), plain(3, 2, 2)], vec![hash(3)]);
    b.index = vec![committed(3)];
    b.tips = vec![hash(2), hash(3)];
    assert_eq!(sync_one_block(&mut b, 0, SyncStrategy::Standalone), Ok(true));
    assert_eq!(b.index, vec![committed(3), committed(2)]);
    assert_eq!(b.tips, vec![hash(1)]);
}

#[test]
fn a_frontier_of_indexed_tips_is_emptied() {
    let mut b = backend(vec![plain(2, 1, 1), plain(3, 2, 2)], vec![]);
    b.index = vec![committed(3), committed(2)];
    b.tips = vec![hash(2), hash(3)];
    assert_eq!(sync_one_block(&mut b, 0, SyncStrategy::Standalone), Ok(false));
    assert_eq!(b.tips, Vec::<Hash256>::new());
    assert_eq!(b.index, vec![committed(3), committed(2)]);
}

#[test]
fn a_tip_below_the_floor_is_dropped() {
    let mut b = backend(vec![plain(2, 1, 1), plain(3, 2, 2), plain(4, 3, 3)], vec![hash(4)]);
    assert_eq!(sync_blocks(&mut b, 5, 3, SyncStrategy::Standalone), Ok(true));
    assert_eq!(b.index, vec![committed(4)]);
    assert_eq!(b.tips, Vec::<Hash256>::new());
    assert_eq!(sync_blocks(&mut b, 5, 3, SyncStrategy::Standalone), Ok(false));
    assert_eq!(b.index, vec![committed(4)]);
}

#[test]
fn a_header_at_the_floor_is_indexed() {
    let mut b = backend(vec![plain(3, 2, 2)], vec![hash(3)]);
    assert_eq!(sync_one_block(&mut b, 2, SyncStrategy::Standalone), Ok(true));
    assert_eq!(b.index, vec![committed(3)]);
}

#[test]
fn a_missing_header_fails_the_step_and_leaves_the_stores() {
    let mut b = backend(vec![plain(3, 2, 2)], vec![hash(3)]);
    b.tips = vec![hash(3), hash(9)];
    assert_eq!(
        sync_one_block(&mut b, 0, SyncStrategy::Standalone),
        Err(SyncError::HeaderUnresolvable)
    );
    assert_eq!(b.tips, vec![hash(3), hash(9)]);
    assert_eq!(b.index, Vec::<IndexEntry>::new());
}

#[test]
fn a_failure_ends_the_batch_and_keeps_what_was_done() {
    let mut b = backend(vec![plain(3, 2, 2), plain(4, 3, 3)], vec![hash(4)]);
    assert_eq!(
        sync_blocks(&mut b, 5, 0, SyncStrategy::Standalone),
        Err(SyncError::HeaderUnresolvable)
    );
    assert_eq!(b.index, vec![committed(4), committed(3)]);
    assert_eq!(b.tips, vec![hash(2)]);
}

#[test]
fn bounded_runs_end_where_one_long_run_ends() {
    let mut bounded = forked();
    let mut idle = 0;
    let mut calls = 0;
    while idle < 2 {
        match sync_blocks(&mut bounded, 2, 0, SyncStrategy::Standalone) {
            Ok(true) => idle = 0,
            Ok(false) => idle += 1,
            Err(e) => panic!("{:?}", e),
        }
        calls += 1;
        assert!(calls < 50);
    }
    let mut long = forked();
    assert_eq!(sync_blocks(&mut long, 1000, 0, SyncStrategy::Standalone), Ok(true));
    assert_eq!(bounded.index, long.index);
    assert_eq!(bounded, long);
    assert_eq!(long.index.len(), 7);
}

#[test]
fn a_run_taken_up_again_ends_where_an_unbroken_run_ends() {
    for k in 0..10usize {
        let mut broken = forked();
        let first = sync_blocks(&mut broken, k, 0, SyncStrategy::Standalone);
        let mut resumed = broken.duplicate();
        assert_eq!(resumed, broken);
        let second = sync_blocks(&mut resumed, 12 - k, 0, SyncStrategy::Standalone);
        let mut whole = forked();
        let all = sync_blocks(&mut whole, 12, 0, SyncStrategy::Standalone);
        assert_eq!(resumed, whole);
        assert_eq!(all, Ok(first.unwrap() || second.unwrap()));
    }
}

#[test]
fn a_run_comes_to_rest_within_two_steps_for_each_header() {
    let mut b = forked();
    let bound = 2 * b.headers.len() + 2;
    assert_eq!(sync_blocks(&mut b, bound, 0, SyncStrategy::Standalone), Ok(true));
    let rested = b.index.clone();
    assert_eq!(sync_one_block(&mut b, 0, SyncStrategy::Standalone), Ok(false));
    assert_eq!(b.index, rested);
    assert_eq!(b.tips, Vec::<Hash256>::new());
    assert_eq!(sync_blocks(&mut b, 9, 0, SyncStrategy::Standalone), Ok(false));
    assert_eq!(b.index, rested);
}

#[test]
fn forks_are_indexed_once_each_down_to_what_is_indexed() {
    let mut b = forked();
    b.index = vec![committed(3)];
    let mut steps = 0;
    while sync_one_block(&mut b, 0, SyncStrategy::Standalone) == Ok(true) {
        steps += 1;
    }
    assert_eq!(steps, 4);
    assert_eq!(indexed(&b), vec![hash(3), hash(14), hash(13), hash(5), hash(4)]);
    for own in [4, 5, 13, 14] {
        assert_eq!(count(&b, own), 1);
    }
    assert_eq!(count(&b, 3), 1);
    assert_eq!(count(&b, 2), 0);
    assert_eq!(b.tips, Vec::<Hash256>::new());
}

#[test]
fn a_shared_stretch_is_indexed_once() {
    let mut b = forked();
    assert_eq!(sync_blocks(&mut b, 20, 0, SyncStrategy::Standalone), Ok(true));
    assert_eq!(
        indexed(&b),
        vec![hash(14), hash(13), hash(3), hash(2), hash(1), hash(5), hash(4)]
    );
    assert_eq!(sync_blocks(&mut b, 20, 0, SyncStrategy::Standalone), Ok(false));
    assert_eq!(b.index.len(), 7);
}

#[test]
fn two_claims_fail_the_run_and_leave_the_stores() {
    let mut b = backend(
        vec![plain(2, 1, 1), header(3, 2, 2, vec![claim(0x83, &[]), claim(0x84, &[])])],
        vec![hash(3)],
    );
    b.tips = vec![hash(3)];
    assert_eq!(sync_blocks(&mut b, 3, 0, SyncStrategy::Standalone), Err(SyncError::AmbiguousLog));
    assert_eq!(b.tips, vec![hash(3)]);
    assert_eq!(b.index, Vec::<IndexEntry>::new());
    assert!(!b.is_indexed(&hash(3)));
}

#[test]
fn genesis_without_embedded_block_is_marked() {
    let mut b = backend(vec![header(1, 0, 0, vec![claim(0x99, &[])])], vec![hash(1)]);
    b.capability = Ok(Some(2));
    b.genesis = Ok(None);
    assert_eq!(sync_one_block(&mut b, 0, SyncStrategy::Standalone), Ok(true));
    assert_eq!(b.index, vec![IndexEntry::NoBlock(hash(1))]);
    assert_eq!(b.tips, Vec::<Hash256>::new());
}

#[test]
fn genesis_without_capability_is_marked() {
    let mut b = backend(vec![header(1, 0, 0, vec![])], vec![hash(1)]);
    b.capability = Ok(None);
    b.genesis = Ok(Some(embedded(5)));
    assert_eq!(sync_one_block(&mut b, 0, SyncStrategy::Standalone), Ok(true));
    assert_eq!(b.index, vec![IndexEntry::NoBlock(hash(1))]);
}

#[test]
fn genesis_with_embedded_block_is_committed_without_transactions() {
    for version in [1u32, 2, 3] {
        let mut b = backend(vec![header(1, 0, 0, vec![claim(0x99, &[7])])], vec![hash(1)]);
        b.capability = Ok(Some(version));
        b.genesis = Ok(Some(embedded(5)));
        b.tips = vec![hash(8), hash(1)];
        b.index = vec![committed(8)];
        assert_eq!(sync_one_block(&mut b, 0, SyncStrategy::RelayDependent), Ok(true));
        assert_eq!(b.index.len(), 2);
        match &b.index[1] {
            IndexEntry::Committed(c) => {
                assert_eq!(c.block_hash, hash(1));
                assert_eq!(c.ethereum_transaction_hashes, Vec::<Hash256>::new());
                assert_ne!(c.ethereum_block_hash, hash(0x99));
            }
            other => panic!("{:?}", other),
        }
        assert_eq!(b.tips, vec![hash(8)]);
    }
}

#[test]
fn a_failed_probe_fails_the_step() {
    let mut b = backend(vec![header(1, 0, 0, vec![])], vec![hash(1)]);
    b.capability = Err(Failed);
    assert_eq!(
        sync_one_block(&mut b, 0, SyncStrategy::Standalone),
        Err(SyncError::CapabilityProbeFailed)
    );
    assert_eq!(b.index, Vec::<IndexEntry>::new());
    b.capability = Ok(Some(2));
    b.genesis = Err(Failed);
    assert_eq!(
        sync_one_block(&mut b, 0, SyncStrategy::Standalone),
        Err(SyncError::CapabilityProbeFailed)
    );
    assert_eq!(b.index, Vec::<IndexEntry>::new());
}

#[test]
fn a_header_above_the_best_block_waits_on_a_parachain() {
    let mut b = backend(vec![plain(7, 6, 101)], vec![hash(7)]);
    b.best_number = 100;
    b.tips = vec![hash(7)];
    assert_eq!(sync_one_block(&mut b, 0, SyncStrategy::RelayDependent), Ok(false));
    assert_eq!(b.tips, vec![hash(7)]);
    assert_eq!(b.index, Vec::<IndexEntry>::new());
    assert_eq!(sync_blocks(&mut b, 5, 0, SyncStrategy::RelayDependent), Ok(false));
    assert_eq!(b.tips, vec![hash(7)]);
    assert_eq!(sync_one_block(&mut b, 0, SyncStrategy::Standalone), Ok(true));
    assert_eq!(b.index, vec![committed(7)]);
    assert_eq!(b.tips, vec![hash(6)]);
}

#[test]
fn a_header_at_the_best_block_is_indexed_on_a_parachain() {
    let mut b = backend(vec![plain(7, 6, 100)], vec![hash(7)]);
    b.best_number = 100;
    assert_eq!(sync_one_block(&mut b, 0, SyncStrategy::RelayDependent), Ok(true));
    assert_eq!(b.index, vec![committed(7)]);
    assert_eq!(b.tips, vec![hash(6)]);
}

#[test]
fn the_backend_answers_as_it_stands() {
    let mut b = forked();
    b.index = vec![committed(3)];
    assert!(b.is_indexed(&hash(3)));
    assert!(!b.is_indexed(&hash(4)));
    assert_eq!(b.header(&hash(13)), Some(plain(13, 3, 3)));
    assert_eq!(b.header(&hash(99)), None);
    assert_eq!(b.genesis_answer(GenesisShape::Current), Ok(None));
    b.genesis = Ok(Some(embedded(1)));
    assert_eq!(
        b.genesis_answer(GenesisShape::Current),
        Ok(Some(GenesisBlock::CurrentGenesis(embedded(1))))
    );
    assert_eq!(b.serve(Request::ReadLeaves), Some(Reply::Leaves(Ok(vec![hash(5), hash(14)]))));
    assert_eq!(b.serve(Request::Done(Ok(true))), None);
    assert_eq!(b.serve(Request::WriteFrontier(vec![hash(2)])), Some(Reply::FrontierWritten(Ok(()))));
    assert_eq!(b.tips, vec![hash(2)]);
    assert_eq!(b.drive(Engine::new(1, 0, SyncStrategy::Standalone)), Ok(true));
    assert_eq!(b.index, vec![committed(3), committed(2)]);
}
