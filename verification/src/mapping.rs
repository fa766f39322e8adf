use crate::consensus::{find_log, found_view, single_log, FindLogError, Hashes, HashesView};
use crate::header::{Header, HeaderView};
use crate::primitives::{copy_of, Hash256, SyncError};
use vstd::prelude::*;

verus! {

/// The mapping of one host block to the embedded block and transactions
/// that it contains.
#[derive(Clone, Debug, PartialEq, Eq)]
pub struct MappingCommitment {
    /// The hash of the host block.
    pub block_hash: Hash256,
    /// The hash of the embedded block.
    pub ethereum_block_hash: Hash256,
    /// The hashes of the embedded block's transactions, in its order.
    pub ethereum_transaction_hashes: Vec<Hash256>,
}

pub ghost struct MappingCommitmentView {
    pub block_hash: Hash256,
    pub ethereum_block_hash: Hash256,
    pub ethereum_transaction_hashes: Seq<Hash256>,
}

impl View for MappingCommitment {
    type V = MappingCommitmentView;

    open spec fn view(&self) -> MappingCommitmentView {
        MappingCommitmentView {
            block_hash: self.block_hash,
            ethereum_block_hash: self.ethereum_block_hash,
            ethereum_transaction_hashes: self.ethereum_transaction_hashes@,
        }
    }
}

/// What the index holds for one host block.
#[derive(Clone, Debug, PartialEq, Eq)]
pub enum IndexEntry {
    /// The host block contains an embedded block.
    Committed(MappingCommitment),
    /// The host block with this hash contains no embedded block.
    NoBlock(Hash256),
}

pub ghost enum IndexEntryView {
    Committed(MappingCommitmentView),
    NoBlock(Hash256),
}

impl View for IndexEntry {
    type V = IndexEntryView;

    open spec fn view(&self) -> IndexEntryView {
        match *self {
            IndexEntry::Committed(commitment) => IndexEntryView::Committed(commitment@),
            IndexEntry::NoBlock(block_hash) => IndexEntryView::NoBlock(block_hash),
        }
    }
}

impl IndexEntryView {
    /// The host block that the entry is about.
    pub open spec fn block_hash(self) -> Hash256 {
        match self {
            IndexEntryView::Committed(commitment) => commitment.block_hash,
            IndexEntryView::NoBlock(block_hash) => block_hash,
        }
    }
}

impl IndexEntry {
    /// The host block that the entry is about.
    pub fn block_hash(&self) -> (r: Hash256)
        ensures
            r == self@.block_hash(),
    {
        match self {
            IndexEntry::Committed(commitment) => commitment.block_hash,
            IndexEntry::NoBlock(block_hash) => *block_hash,
        }
    }

    /// A copy of the entry.
    pub fn duplicate(&self) -> (r: IndexEntry)
        ensures
            r@ == self@,
    {
        match self {
            IndexEntry::Committed(commitment) => IndexEntry::Committed(
                MappingCommitment {
                    block_hash: commitment.block_hash,
                    ethereum_block_hash: commitment.ethereum_block_hash,
                    ethereum_transaction_hashes: copy_of(
                        &commitment.ethereum_transaction_hashes,
                    ),
                },
            ),
            IndexEntry::NoBlock(block_hash) => IndexEntry::NoBlock(*block_hash),
        }
    }
}

/// The view of an entry, or of the failure in its place.
pub open spec fn entry_view(entry: Result<IndexEntry, SyncError>) -> Result<
    IndexEntryView,
    SyncError,
> {
    match entry {
        Ok(e) => Ok(e@),
        Err(e) => Err(e),
    }
}

/// The entry that the search for a claim in the digest of the host block
/// `block_hash` leads to: the commitment to the single claim, the marker
/// where there is none, and a failure where there are several.
pub open spec fn log_entry(block_hash: Hash256, found: Result<HashesView, FindLogError>) -> Result<
    IndexEntryView,
    SyncError,
> {
    match found {
        Ok(claim) => Ok(
            IndexEntryView::Committed(
                MappingCommitmentView {
                    block_hash,
                    ethereum_block_hash: claim.block_hash,
                    ethereum_transaction_hashes: claim.transaction_hashes,
                },
            ),
        ),
        Err(FindLogError::NotFound) => Ok(IndexEntryView::NoBlock(block_hash)),
        Err(FindLogError::MultipleLogs) => Err(SyncError::AmbiguousLog),
    }
}

/// The entry that a header above the genesis leads to.
pub open spec fn block_entry(header: HeaderView) -> Result<IndexEntryView, SyncError> {
    log_entry(header.hash, single_log(header.logs))
}

/// Turns what the search for a claim in a host block's digest returned into
/// the entry to write for that block.
pub fn commit_log(block_hash: Hash256, found: Result<Hashes, FindLogError>) -> (r: Result<
    IndexEntry,
    SyncError,
>)
    ensures
        entry_view(r) == log_entry(block_hash, found_view(found)),
{
    match found {
        Ok(post_hashes) => Ok(
            IndexEntry::Committed(
                MappingCommitment {
                    block_hash,
                    ethereum_block_hash: post_hashes.block_hash,
                    ethereum_transaction_hashes: post_hashes.transaction_hashes,
                },
            ),
        ),
        Err(FindLogError::NotFound) => Ok(IndexEntry::NoBlock(block_hash)),
        Err(FindLogError::MultipleLogs) => Err(SyncError::AmbiguousLog),
    }
}

/// Derives the index entry of a host header above the genesis from the
/// claims in its digest. The caller writes the entry to the index store.
pub fn sync_block(header: &Header) -> (r: Result<IndexEntry, SyncError>)
    ensures
        entry_view(r) == block_entry(header@),
{
    commit_log(header.hash, find_log(&header.digest))
}

} // verus!
