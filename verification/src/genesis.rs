use crate::mapping::{IndexEntry, IndexEntryView, MappingCommitment, MappingCommitmentView};
use crate::primitives::{copy_of, Address, Hash256, Uint256};
use sp_core::U256;
use vstd::prelude::*;

verus! {

/// The header of a block of the embedded chain.
#[derive(Clone, Debug, PartialEq, Eq)]
pub struct EmbeddedHeader {
    pub parent_hash: Hash256,
    pub ommers_hash: Hash256,
    pub beneficiary: Address,
    pub state_root: Hash256,
    pub transactions_root: Hash256,
    pub receipts_root: Hash256,
    pub logs_bloom: [u8; 256],
    pub difficulty: Uint256,
    pub number: Uint256,
    pub gas_limit: Uint256,
    pub gas_used: Uint256,
    pub timestamp: u64,
    pub extra_data: Vec<u8>,
    pub mix_hash: Hash256,
    pub nonce: [u8; 8],
}

pub ghost struct EmbeddedHeaderView {
    pub parent_hash: Hash256,
    pub ommers_hash: Hash256,
    pub beneficiary: Address,
    pub state_root: Hash256,
    pub transactions_root: Hash256,
    pub receipts_root: Hash256,
    pub logs_bloom: [u8; 256],
    pub difficulty: Uint256,
    pub number: Uint256,
    pub gas_limit: Uint256,
    pub gas_used: Uint256,
    pub timestamp: u64,
    pub extra_data: Seq<u8>,
    pub mix_hash: Hash256,
    pub nonce: [u8; 8],
}

impl View for EmbeddedHeader {
    type V = EmbeddedHeaderView;

    open spec fn view(&self) -> EmbeddedHeaderView {
        EmbeddedHeaderView {
            parent_hash: self.parent_hash,
            ommers_hash: self.ommers_hash,
            beneficiary: self.beneficiary,
            state_root: self.state_root,
            transactions_root: self.transactions_root,
            receipts_root: self.receipts_root,
            logs_bloom: self.logs_bloom,
            difficulty: self.difficulty,
            number: self.number,
            gas_limit: self.gas_limit,
            gas_used: self.gas_used,
            timestamp: self.timestamp,
            extra_data: self.extra_data@,
            mix_hash: self.mix_hash,
            nonce: self.nonce,
        }
    }
}

impl EmbeddedHeader {
    /// A copy of the header.
    pub fn duplicate(&self) -> (r: EmbeddedHeader)
        ensures
            r@ == self@,
    {
        EmbeddedHeader {
            parent_hash: self.parent_hash,
            ommers_hash: self.ommers_hash,
            beneficiary: self.beneficiary,
            state_root: self.state_root,
            transactions_root: self.transactions_root,
            receipts_root: self.receipts_root,
            logs_bloom: self.logs_bloom,
            difficulty: self.difficulty,
            number: self.number,
            gas_limit: self.gas_limit,
            gas_used: self.gas_used,
            timestamp: self.timestamp,
            extra_data: copy_of(&self.extra_data),
            mix_hash: self.mix_hash,
            nonce: self.nonce,
        }
    }
}

/// The hash of a header of the embedded chain: the Keccak-256 digest of the
/// header's RLP encoding.
pub uninterp spec fn ethereum_header_hash(header: EmbeddedHeaderView) -> Hash256;

/// Calls `ethereum::Header::hash` on the header with these fields. The
/// contract names the result after the fields.
#[verifier::external_body]
pub(crate) fn header_hash(h: &EmbeddedHeader) -> (r: Hash256)
    ensures
        r == ethereum_header_hash(h@),
{
    let header = ethereum::Header {
        parent_hash: h.parent_hash.bytes.into(), ommers_hash: h.ommers_hash.bytes.into(),
        beneficiary: h.beneficiary.bytes.into(), state_root: h.state_root.bytes.into(),
        transactions_root: h.transactions_root.bytes.into(),
        receipts_root: h.receipts_root.bytes.into(), logs_bloom: h.logs_bloom.into(),
        difficulty: U256(h.difficulty.limbs), number: U256(h.number.limbs),
        gas_limit: U256(h.gas_limit.limbs), gas_used: U256(h.gas_used.limbs),
        timestamp: h.timestamp, extra_data: h.extra_data.clone(),
        mix_hash: h.mix_hash.bytes.into(), nonce: h.nonce.into(),
    };
    Hash256 { bytes: header.hash().0 }
}

/// A block of the embedded chain, as far as the index needs it.
#[derive(Clone, Debug, PartialEq, Eq)]
pub struct EmbeddedBlock {
    pub header: EmbeddedHeader,
}

/// A block of the embedded chain in the shape that runtimes before the
/// second version of the query surface hand out.
#[derive(Clone, Debug, PartialEq, Eq)]
pub struct LegacyBlock {
    pub header: EmbeddedHeader,
}

pub ghost struct BlockView {
    pub header: EmbeddedHeaderView,
}

impl View for EmbeddedBlock {
    type V = BlockView;

    open spec fn view(&self) -> BlockView {
        BlockView { header: self.header@ }
    }
}

impl View for LegacyBlock {
    type V = BlockView;

    open spec fn view(&self) -> BlockView {
        BlockView { header: self.header@ }
    }
}

/// The two shapes in which a runtime answers the query for its genesis
/// block.
#[derive(Clone, Copy, Debug, PartialEq, Eq, Structural)]
pub enum GenesisShape {
    /// The shape of the first version of the query surface.
    Legacy,
    /// The shape of every later version.
    Current,
}

/// The shape that a runtime which reports `version` answers in.
pub open spec fn shape_of(version: u32) -> GenesisShape {
    if version > 1 {
        GenesisShape::Current
    } else {
        GenesisShape::Legacy
    }
}

/// Selects the shape to ask a runtime for, by the version it reports.
pub fn genesis_shape(version: u32) -> (r: GenesisShape)
    ensures
        r == shape_of(version),
{
    if version > 1 {
        GenesisShape::Current
    } else {
        GenesisShape::Legacy
    }
}

/// The genesis block of the embedded chain, in the shape in which the
/// runtime handed it out.
#[derive(Clone, Debug, PartialEq, Eq)]
pub enum GenesisBlock {
    LegacyGenesis(LegacyBlock),
    CurrentGenesis(EmbeddedBlock),
}

pub ghost enum GenesisBlockView {
    LegacyGenesis(BlockView),
    CurrentGenesis(BlockView),
}

impl View for GenesisBlock {
    type V = GenesisBlockView;

    open spec fn view(&self) -> GenesisBlockView {
        match *self {
            GenesisBlock::LegacyGenesis(block) => GenesisBlockView::LegacyGenesis(block@),
            GenesisBlock::CurrentGenesis(block) => GenesisBlockView::CurrentGenesis(block@),
        }
    }
}

impl GenesisBlockView {
    /// The block, whatever shape it came in.
    pub open spec fn canonical(self) -> BlockView {
        match self {
            GenesisBlockView::LegacyGenesis(block) => block,
            GenesisBlockView::CurrentGenesis(block) => block,
        }
    }
}

impl GenesisBlock {
    /// Brings either shape into the one that the engine works on.
    pub fn canonical(self) -> (r: EmbeddedBlock)
        ensures
            r@ == self@.canonical(),
    {
        match self {
            GenesisBlock::LegacyGenesis(legacy_block) => EmbeddedBlock {
                header: legacy_block.header,
            },
            GenesisBlock::CurrentGenesis(block) => block,
        }
    }
}

/// Puts a block into the shape `shape`.
pub open spec fn shaped(block: BlockView, shape: GenesisShape) -> GenesisBlockView {
    match shape {
        GenesisShape::Legacy => GenesisBlockView::LegacyGenesis(block),
        GenesisShape::Current => GenesisBlockView::CurrentGenesis(block),
    }
}

impl EmbeddedBlock {
    /// A copy of the block in the shape `shape`.
    pub fn in_shape(&self, shape: GenesisShape) -> (r: GenesisBlock)
        ensures
            r@ == shaped(self@, shape),
    {
        match shape {
            GenesisShape::Legacy => GenesisBlock::LegacyGenesis(
                LegacyBlock { header: self.header.duplicate() },
            ),
            GenesisShape::Current => GenesisBlock::CurrentGenesis(
                EmbeddedBlock { header: self.header.duplicate() },
            ),
        }
    }
}

/// The view of a genesis block that may be absent.
pub open spec fn genesis_view(genesis: Option<GenesisBlock>) -> Option<GenesisBlockView> {
    match genesis {
        Some(block) => Some(block@),
        None => None,
    }
}

/// The entry of a host header at height zero, given the hash of the genesis
/// block of the embedded chain, if the runtime exposes one: the commitment
/// to that block, with no transactions, or else the marker.
pub open spec fn genesis_commitment(block_hash: Hash256, embedded: Option<Hash256>)
    -> IndexEntryView {
    match embedded {
        Some(ethereum_block_hash) => IndexEntryView::Committed(
            MappingCommitmentView {
                block_hash,
                ethereum_block_hash,
                ethereum_transaction_hashes: Seq::empty(),
            },
        ),
        None => IndexEntryView::NoBlock(block_hash),
    }
}

/// The hash of the genesis block that the runtime has handed out, if it has
/// handed out one.
pub open spec fn genesis_hash(genesis: Option<GenesisBlockView>) -> Option<Hash256> {
    match genesis {
        Some(block) => Some(ethereum_header_hash(block.canonical().header)),
        None => None,
    }
}

/// The entry of the host header `block_hash` at height zero: the commitment
/// to the genesis block of the embedded chain, with no transactions, where
/// the runtime exposes one, and the marker where it does not.
pub open spec fn genesis_entry(block_hash: Hash256, genesis: Option<GenesisBlockView>)
    -> IndexEntryView {
    genesis_commitment(block_hash, genesis_hash(genesis))
}

/// Makes the entry of the host header `block_hash` at height zero from the
/// hash of the embedded chain's genesis block, if there is one.
pub fn commit_genesis(block_hash: Hash256, embedded: Option<Hash256>) -> (r: IndexEntry)
    ensures
        r@ == genesis_commitment(block_hash, embedded),
{
    match embedded {
        Some(ethereum_block_hash) => IndexEntry::Committed(
            MappingCommitment {
                block_hash,
                ethereum_block_hash,
                ethereum_transaction_hashes: Vec::new(),
            },
        ),
        None => IndexEntry::NoBlock(block_hash),
    }
}

/// Derives the index entry of the host header `block_hash` at height zero
/// from the genesis block that the runtime exposes as of that header, if
/// any. The caller writes the entry to the index store.
pub fn sync_genesis_block(block_hash: Hash256, genesis: Option<GenesisBlock>) -> (r: IndexEntry)
    ensures
        r@ == genesis_entry(block_hash, genesis_view(genesis)),
{
    match genesis {
        Some(shaped) => {
            let block = shaped.canonical();
            commit_genesis(block_hash, Some(header_hash(&block.header)))
        },
        None => commit_genesis(block_hash, None),
    }
}

} // verus!
