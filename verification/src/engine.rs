use crate::genesis::{
    genesis_entry, genesis_shape, genesis_view, shape_of, sync_genesis_block, GenesisBlock,
    GenesisBlockView, GenesisShape,
};
use crate::header::{fetch_header, fetch_header_spec, lookup_view, Header, HeaderView};
use crate::mapping::{block_entry, sync_block, IndexEntry, IndexEntryView};
use crate::primitives::{copy_of, Failed, Hash256, SyncError, SyncStrategy};
use vstd::prelude::*;

verus! {

/// What the engine asks of the one who drives it.
#[derive(Debug, PartialEq, Eq)]
pub enum Request {
    /// Read the frontier from the progress store.
    ReadFrontier,
    /// Read the leaves of the host chain.
    ReadLeaves,
    /// Ask the index store whether it holds an entry for this host block.
    IsIndexed(Hash256),
    /// Ask the host backend for the header with this hash.
    ReadHeader(Hash256),
    /// Ask the host backend for the height of its best block.
    BestNumber,
    /// Ask the runtime, as of this host block, which version of the query
    /// surface it speaks.
    CapabilityVersion(Hash256),
    /// Ask the runtime, as of this host block, for the genesis block of the
    /// embedded chain, in this shape.
    GenesisBlock(Hash256, GenesisShape),
    /// Write this entry to the index store.
    WriteIndex(IndexEntry),
    /// Write this frontier to the progress store.
    WriteFrontier(Vec<Hash256>),
    /// Nothing more: the run has ended with this result.
    Done(Result<bool, SyncError>),
}

pub ghost enum RequestView {
    ReadFrontier,
    ReadLeaves,
    IsIndexed(Hash256),
    ReadHeader(Hash256),
    BestNumber,
    CapabilityVersion(Hash256),
    GenesisBlock(Hash256, GenesisShape),
    WriteIndex(IndexEntryView),
    WriteFrontier(Seq<Hash256>),
    Done(Result<bool, SyncError>),
}

impl View for Request {
    type V = RequestView;

    open spec fn view(&self) -> RequestView {
        match *self {
            Request::ReadFrontier => RequestView::ReadFrontier,
            Request::ReadLeaves => RequestView::ReadLeaves,
            Request::IsIndexed(hash) => RequestView::IsIndexed(hash),
            Request::ReadHeader(hash) => RequestView::ReadHeader(hash),
            Request::BestNumber => RequestView::BestNumber,
            Request::CapabilityVersion(hash) => RequestView::CapabilityVersion(hash),
            Request::GenesisBlock(hash, shape) => RequestView::GenesisBlock(hash, shape),
            Request::WriteIndex(entry) => RequestView::WriteIndex(entry@),
            Request::WriteFrontier(tips) => RequestView::WriteFrontier(tips@),
            Request::Done(outcome) => RequestView::Done(outcome),
        }
    }
}

/// What the driver hands back, one kind for each kind of request.
#[derive(Debug, PartialEq, Eq)]
pub enum Reply {
    Frontier(Result<Vec<Hash256>, Failed>),
    Leaves(Result<Vec<Hash256>, Failed>),
    Indexed(bool),
    Header(Result<Option<Header>, Failed>),
    BestNumber(u64),
    Capability(Result<Option<u32>, Failed>),
    Genesis(Result<Option<GenesisBlock>, Failed>),
    IndexWritten(Result<(), Failed>),
    FrontierWritten(Result<(), Failed>),
}

pub ghost enum ReplyView {
    Frontier(Result<Seq<Hash256>, Failed>),
    Leaves(Result<Seq<Hash256>, Failed>),
    Indexed(bool),
    Header(Result<Option<HeaderView>, Failed>),
    BestNumber(u64),
    Capability(Result<Option<u32>, Failed>),
    Genesis(Result<Option<GenesisBlockView>, Failed>),
    IndexWritten(Result<(), Failed>),
    FrontierWritten(Result<(), Failed>),
}

/// The view of a list of hashes, or of the failure in its place.
pub open spec fn hashes_view(hashes: Result<Vec<Hash256>, Failed>) -> Result<
    Seq<Hash256>,
    Failed,
> {
    match hashes {
        Ok(list) => Ok(list@),
        Err(e) => Err(e),
    }
}

/// The view of what the runtime answered when asked for its genesis block.
pub open spec fn answer_view(answer: Result<Option<GenesisBlock>, Failed>) -> Result<
    Option<GenesisBlockView>,
    Failed,
> {
    match answer {
        Ok(genesis) => Ok(genesis_view(genesis)),
        Err(e) => Err(e),
    }
}

impl View for Reply {
    type V = ReplyView;

    open spec fn view(&self) -> ReplyView {
        match *self {
            Reply::Frontier(tips) => ReplyView::Frontier(hashes_view(tips)),
            Reply::Leaves(leaves) => ReplyView::Leaves(hashes_view(leaves)),
            Reply::Indexed(indexed) => ReplyView::Indexed(indexed),
            Reply::Header(lookup) => ReplyView::Header(lookup_view(lookup)),
            Reply::BestNumber(best) => ReplyView::BestNumber(best),
            Reply::Capability(version) => ReplyView::Capability(version),
            Reply::Genesis(answer) => ReplyView::Genesis(answer_view(answer)),
            Reply::IndexWritten(written) => ReplyView::IndexWritten(written),
            Reply::FrontierWritten(written) => ReplyView::FrontierWritten(written),
        }
    }
}

/// Where the engine stands within a step: which answer it waits for, and
/// what it has to remember until the answer comes.
#[derive(Debug, PartialEq, Eq)]
pub enum Phase {
    /// Waits for the frontier.
    Frontier,
    /// The frontier was empty; waits for the leaves.
    Leaves,
    /// Has popped this tip; waits to hear whether it is indexed.
    Tip(Hash256),
    /// This tip is not indexed; waits for its header.
    Lookup(Hash256),
    /// Operates on this header; waits for the height of the best block.
    Best(Header),
    /// Operates on the header with this hash, at height zero; waits for the
    /// runtime's version.
    Capability(Hash256),
    /// Waits for the genesis block, as of the header with this hash.
    Genesis(Hash256, GenesisShape),
    /// Waits for this entry to be written. The hash, if any, is the parent
    /// that joins the frontier once the entry is written.
    Index(IndexEntry, Option<Hash256>),
    /// Waits for the frontier to be written. The flag says whether the step
    /// has written an entry.
    Persist(bool),
    /// The run has ended with this result.
    Done(Result<bool, SyncError>),
}

pub ghost enum PhaseView {
    Frontier,
    Leaves,
    Tip(Hash256),
    Lookup(Hash256),
    Best(HeaderView),
    Capability(Hash256),
    Genesis(Hash256, GenesisShape),
    Index(IndexEntryView, Option<Hash256>),
    Persist(bool),
    Done(Result<bool, SyncError>),
}

impl View for Phase {
    type V = PhaseView;

    open spec fn view(&self) -> PhaseView {
        match *self {
            Phase::Frontier => PhaseView::Frontier,
            Phase::Leaves => PhaseView::Leaves,
            Phase::Tip(tip) => PhaseView::Tip(tip),
            Phase::Lookup(tip) => PhaseView::Lookup(tip),
            Phase::Best(header) => PhaseView::Best(header@),
            Phase::Capability(hash) => PhaseView::Capability(hash),
            Phase::Genesis(hash, shape) => PhaseView::Genesis(hash, shape),
            Phase::Index(entry, parent) => PhaseView::Index(entry@, parent),
            Phase::Persist(progress) => PhaseView::Persist(progress),
            Phase::Done(outcome) => PhaseView::Done(outcome),
        }
    }
}

/// The synchronization engine: a run of up to a given number of steps, each
/// of which indexes at most one host block. The engine performs no reads or
/// writes itself. It says what it needs next (`request`), and goes on once
/// it is handed the answer (`resume`).
#[derive(Debug, PartialEq, Eq)]
pub struct Engine {
    /// The floor: headers below this height are out of scope.
    pub sync_from: u64,
    pub strategy: SyncStrategy,
    /// How many steps are left to take after the current one.
    pub remaining: usize,
    /// Whether a step of this run has written an entry so far.
    pub synced_any: bool,
    /// The tips that the current step has not popped yet; popped from the
    /// end.
    pub tips: Vec<Hash256>,
    pub phase: Phase,
}

pub ghost struct EngineView {
    pub sync_from: u64,
    pub strategy: SyncStrategy,
    pub remaining: usize,
    pub synced_any: bool,
    pub tips: Seq<Hash256>,
    pub phase: PhaseView,
}

impl View for Engine {
    type V = EngineView;

    open spec fn view(&self) -> EngineView {
        EngineView {
            sync_from: self.sync_from,
            strategy: self.strategy,
            remaining: self.remaining,
            synced_any: self.synced_any,
            tips: self.tips@,
            phase: self.phase@,
        }
    }
}

/// The engine at the start of a run of at most `limit` steps.
pub open spec fn start(limit: usize, sync_from: u64, strategy: SyncStrategy) -> EngineView {
    EngineView {
        sync_from,
        strategy,
        remaining: limit,
        synced_any: false,
        tips: Seq::empty(),
        phase: PhaseView::Frontier,
    }.begin_step()
}

impl EngineView {
    /// What the engine asks for in its present phase.
    pub open spec fn request(self) -> RequestView {
        match self.phase {
            PhaseView::Frontier => RequestView::ReadFrontier,
            PhaseView::Leaves => RequestView::ReadLeaves,
            PhaseView::Tip(tip) => RequestView::IsIndexed(tip),
            PhaseView::Lookup(tip) => RequestView::ReadHeader(tip),
            PhaseView::Best(_) => RequestView::BestNumber,
            PhaseView::Capability(hash) => RequestView::CapabilityVersion(hash),
            PhaseView::Genesis(hash, shape) => RequestView::GenesisBlock(hash, shape),
            PhaseView::Index(entry, _) => RequestView::WriteIndex(entry),
            PhaseView::Persist(_) => RequestView::WriteFrontier(self.tips),
            PhaseView::Done(outcome) => RequestView::Done(outcome),
        }
    }

    /// Whether `reply` is of the kind that answers the present request.
    pub open spec fn accepts(self, reply: ReplyView) -> bool {
        match self.phase {
            PhaseView::Frontier => reply is Frontier,
            PhaseView::Leaves => reply is Leaves,
            PhaseView::Tip(_) => reply is Indexed,
            PhaseView::Lookup(_) => reply is Header,
            PhaseView::Best(_) => reply is BestNumber,
            PhaseView::Capability(_) => reply is Capability,
            PhaseView::Genesis(_, _) => reply is Genesis,
            PhaseView::Index(_, _) => reply is IndexWritten,
            PhaseView::Persist(_) => reply is FrontierWritten,
            PhaseView::Done(_) => false,
        }
    }

    /// Starts the next step, or ends the run when no step is left.
    pub open spec fn begin_step(self) -> EngineView {
        if self.remaining == 0 {
            EngineView { tips: Seq::empty(), phase: PhaseView::Done(Ok(self.synced_any)), ..self }
        } else {
            EngineView {
                remaining: (self.remaining - 1) as usize,
                tips: Seq::empty(),
                phase: PhaseView::Frontier,
                ..self
            }
        }
    }

    /// Ends the current step with `outcome`: a failure ends the run, and
    /// anything else leads to the next step.
    pub open spec fn end_step(self, outcome: Result<bool, SyncError>) -> EngineView {
        match outcome {
            Ok(progress) => EngineView {
                synced_any: self.synced_any || progress,
                ..self
            }.begin_step(),
            Err(e) => EngineView { tips: Seq::empty(), phase: PhaseView::Done(Err(e)), ..self },
        }
    }

    /// Pops the next tip to classify. With none left, the step has found
    /// nothing to operate on, and the empty frontier is persisted.
    pub open spec fn next_tip(self) -> EngineView {
        if self.tips.len() == 0 {
            EngineView { phase: PhaseView::Persist(false), ..self }
        } else {
            EngineView {
                tips: self.tips.drop_last(),
                phase: PhaseView::Tip(self.tips.last()),
                ..self
            }
        }
    }

    /// Derives the entry of a header above the genesis and asks for it to
    /// be written.
    pub open spec fn derive(self, header: HeaderView) -> EngineView {
        match block_entry(header) {
            Ok(entry) => EngineView {
                phase: PhaseView::Index(entry, Some(header.parent_hash)),
                ..self
            },
            Err(e) => self.end_step(Err(e)),
        }
    }

    /// Takes up the header that the step operates on.
    pub open spec fn operate(self, header: HeaderView) -> EngineView {
        if header.number == 0 {
            EngineView { phase: PhaseView::Capability(header.hash), ..self }
        } else if self.strategy == SyncStrategy::RelayDependent {
            EngineView { phase: PhaseView::Best(header), ..self }
        } else {
            self.derive(header)
        }
    }

    /// The engine after it has been handed the frontier.
    pub open spec fn on_frontier(self, frontier: Result<Seq<Hash256>, Failed>) -> EngineView {
        match frontier {
            Ok(tips) => if tips.len() == 0 {
                EngineView { phase: PhaseView::Leaves, ..self }
            } else {
                EngineView { tips, ..self }.next_tip()
            },
            Err(_) => self.end_step(Err(SyncError::StoreReadFailed)),
        }
    }

    /// The engine after it has been handed the leaves.
    pub open spec fn on_leaves(self, leaves: Result<Seq<Hash256>, Failed>) -> EngineView {
        match leaves {
            Ok(tips) => if tips.len() == 0 {
                self.end_step(Ok(false))
            } else {
                EngineView { tips, ..self }.next_tip()
            },
            Err(_) => self.end_step(Err(SyncError::StoreReadFailed)),
        }
    }

    /// The engine after it has heard whether the tip `tip` is indexed.
    pub open spec fn on_indexed(self, tip: Hash256, indexed: bool) -> EngineView {
        if indexed {
            self.next_tip()
        } else {
            EngineView { phase: PhaseView::Lookup(tip), ..self }
        }
    }

    /// The engine after the lookup of a tip's header.
    pub open spec fn on_header(self, lookup: Result<Option<HeaderView>, Failed>) -> EngineView {
        match fetch_header_spec(lookup, self.sync_from) {
            Ok(Some(header)) => self.operate(header),
            Ok(None) => self.next_tip(),
            Err(e) => self.end_step(Err(e)),
        }
    }

    /// The engine after it has heard the height of the best block, while it
    /// operates on `header`.
    pub open spec fn on_best(self, header: HeaderView, best: u64) -> EngineView {
        if header.number > best {
            self.end_step(Ok(false))
        } else {
            self.derive(header)
        }
    }

    /// The engine after the runtime has reported its version, as of the
    /// header `hash` at height zero.
    pub open spec fn on_capability(self, hash: Hash256, version: Result<Option<u32>, Failed>)
        -> EngineView {
        match version {
            Ok(Some(version)) => EngineView {
                phase: PhaseView::Genesis(hash, shape_of(version)),
                ..self
            },
            Ok(None) => EngineView {
                phase: PhaseView::Index(genesis_entry(hash, None), None),
                ..self
            },
            Err(_) => self.end_step(Err(SyncError::CapabilityProbeFailed)),
        }
    }

    /// The engine after the runtime has answered the query for its genesis
    /// block, as of the header `hash` at height zero.
    pub open spec fn on_genesis(
        self,
        hash: Hash256,
        answer: Result<Option<GenesisBlockView>, Failed>,
    ) -> EngineView {
        match answer {
            Ok(genesis) => EngineView {
                phase: PhaseView::Index(genesis_entry(hash, genesis), None),
                ..self
            },
            Err(_) => self.end_step(Err(SyncError::CapabilityProbeFailed)),
        }
    }

    /// The engine after the write of an entry. Once the entry is written,
    /// the parent of its header, if it has one to go on with, joins the
    /// frontier, and the frontier is persisted.
    pub open spec fn on_index_written(self, parent: Option<Hash256>, written: Result<(), Failed>)
        -> EngineView {
        match written {
            Ok(_) => EngineView {
                tips: match parent {
                    Some(hash) => self.tips.push(hash),
                    None => self.tips,
                },
                phase: PhaseView::Persist(true),
                ..self
            },
            Err(_) => self.end_step(Err(SyncError::StoreWriteFailed)),
        }
    }

    /// The engine after the write of the frontier, which ends the step.
    pub open spec fn on_frontier_written(self, progress: bool, written: Result<(), Failed>)
        -> EngineView {
        match written {
            Ok(_) => self.end_step(Ok(progress)),
            Err(_) => self.end_step(Err(SyncError::StoreWriteFailed)),
        }
    }

    /// The engine after the answer `reply` to its present request. A reply
    /// of another kind than the request asks for leaves it as it is.
    pub open spec fn resume(self, reply: ReplyView) -> EngineView {
        match (self.phase, reply) {
            (PhaseView::Frontier, ReplyView::Frontier(frontier)) => self.on_frontier(frontier),
            (PhaseView::Leaves, ReplyView::Leaves(leaves)) => self.on_leaves(leaves),
            (PhaseView::Tip(tip), ReplyView::Indexed(indexed)) => self.on_indexed(tip, indexed),
            (PhaseView::Lookup(_), ReplyView::Header(lookup)) => self.on_header(lookup),
            (PhaseView::Best(header), ReplyView::BestNumber(best)) => self.on_best(header, best),
            (PhaseView::Capability(hash), ReplyView::Capability(version)) => self.on_capability(
                hash,
                version,
            ),
            (PhaseView::Genesis(hash, _), ReplyView::Genesis(answer)) => self.on_genesis(
                hash,
                answer,
            ),
            (PhaseView::Index(_, parent), ReplyView::IndexWritten(written)) => self.on_index_written(
                parent,
                written,
            ),
            (PhaseView::Persist(progress), ReplyView::FrontierWritten(written)) =>
                self.on_frontier_written(progress, written),
            _ => self,
        }
    }
}

impl Engine {
    /// An engine for a run of at most `limit` steps, with the floor
    /// `sync_from`.
    pub fn new(limit: usize, sync_from: u64, strategy: SyncStrategy) -> (r: Engine)
        ensures
            r@ == start(limit, sync_from, strategy),
    {
        Engine {
            sync_from,
            strategy,
            remaining: limit,
            synced_any: false,
            tips: Vec::new(),
            phase: Phase::Frontier,
        }.begin_step()
    }

    /// What the engine needs next. `Request::Done` carries the result of the
    /// run.
    pub fn request(&self) -> (r: Request)
        ensures
            r@ == self@.request(),
    {
        match &self.phase {
            Phase::Frontier => Request::ReadFrontier,
            Phase::Leaves => Request::ReadLeaves,
            Phase::Tip(tip) => Request::IsIndexed(*tip),
            Phase::Lookup(tip) => Request::ReadHeader(*tip),
            Phase::Best(_) => Request::BestNumber,
            Phase::Capability(hash) => Request::CapabilityVersion(*hash),
            Phase::Genesis(hash, shape) => Request::GenesisBlock(*hash, *shape),
            Phase::Index(entry, _) => Request::WriteIndex(entry.duplicate()),
            Phase::Persist(_) => Request::WriteFrontier(copy_of(&self.tips)),
            Phase::Done(outcome) => Request::Done(*outcome),
        }
    }

    /// Whether `reply` is of the kind that answers the present request.
    pub fn accepts(&self, reply: &Reply) -> (r: bool)
        ensures
            r == self@.accepts(reply@),
    {
        match (&self.phase, reply) {
            (Phase::Frontier, Reply::Frontier(_)) => true,
            (Phase::Leaves, Reply::Leaves(_)) => true,
            (Phase::Tip(_), Reply::Indexed(_)) => true,
            (Phase::Lookup(_), Reply::Header(_)) => true,
            (Phase::Best(_), Reply::BestNumber(_)) => true,
            (Phase::Capability(_), Reply::Capability(_)) => true,
            (Phase::Genesis(_, _), Reply::Genesis(_)) => true,
            (Phase::Index(_, _), Reply::IndexWritten(_)) => true,
            (Phase::Persist(_), Reply::FrontierWritten(_)) => true,
            _ => false,
        }
    }

    fn begin_step(self) -> (r: Engine)
        ensures
            r@ == self@.begin_step(),
    {
        if self.remaining == 0 {
            Engine {
                sync_from: self.sync_from,
                strategy: self.strategy,
                remaining: self.remaining,
                synced_any: self.synced_any,
                tips: Vec::new(),
                phase: Phase::Done(Ok(self.synced_any)),
            }
        } else {
            Engine {
                sync_from: self.sync_from,
                strategy: self.strategy,
                remaining: self.remaining - 1,
                synced_any: self.synced_any,
                tips: Vec::new(),
                phase: Phase::Frontier,
            }
        }
    }

    fn end_step(self, outcome: Result<bool, SyncError>) -> (r: Engine)
        ensures
            r@ == self@.end_step(outcome),
    {
        match outcome {
            Ok(progress) => Engine {
                sync_from: self.sync_from,
                strategy: self.strategy,
                remaining: self.remaining,
                synced_any: self.synced_any || progress,
                tips: self.tips,
                phase: self.phase,
            }.begin_step(),
            Err(e) => Engine {
                sync_from: self.sync_from,
                strategy: self.strategy,
                remaining: self.remaining,
                synced_any: self.synced_any,
                tips: Vec::new(),
                phase: Phase::Done(Err(e)),
            },
        }
    }

    fn enter(self, phase: Phase) -> (r: Engine)
        ensures
            r@ == (EngineView { phase: phase@, ..self@ }),
    {
        Engine {
            sync_from: self.sync_from,
            strategy: self.strategy,
            remaining: self.remaining,
            synced_any: self.synced_any,
            tips: self.tips,
            phase,
        }
    }

    fn next_tip(self) -> (r: Engine)
        ensures
            r@ == self@.next_tip(),
    {
        let mut tips = self.tips;
        let popped = tips.pop();
        let phase = match popped {
            Some(checking_tip) => Phase::Tip(checking_tip),
            None => Phase::Persist(false),
        };
        Engine {
            sync_from: self.sync_from,
            strategy: self.strategy,
            remaining: self.remaining,
            synced_any: self.synced_any,
            tips,
            phase,
        }
    }

    fn derive(self, header: Header) -> (r: Engine)
        ensures
            r@ == self@.derive(header@),
    {
        match sync_block(&header) {
            Ok(entry) => self.enter(Phase::Index(entry, Some(header.parent_hash))),
            Err(e) => self.end_step(Err(e)),
        }
    }

    fn operate(self, header: Header) -> (r: Engine)
        ensures
            r@ == self@.operate(header@),
    {
        if header.number == 0 {
            let hash = header.hash;
            self.enter(Phase::Capability(hash))
        } else if matches!(self.strategy, SyncStrategy::RelayDependent) {
            self.enter(Phase::Best(header))
        } else {
            self.derive(header)
        }
    }

    fn with_tips(self, tips: Vec<Hash256>) -> (r: Engine)
        ensures
            r@ == (EngineView { tips: tips@, ..self@ }),
    {
        Engine {
            sync_from: self.sync_from,
            strategy: self.strategy,
            remaining: self.remaining,
            synced_any: self.synced_any,
            tips,
            phase: self.phase,
        }
    }

    fn on_frontier(self, frontier: Result<Vec<Hash256>, Failed>) -> (r: Engine)
        ensures
            r@ == self@.on_frontier(hashes_view(frontier)),
    {
        match frontier {
            Ok(current_syncing_tips) => {
                if current_syncing_tips.len() == 0 {
                    self.enter(Phase::Leaves)
                } else {
                    self.with_tips(current_syncing_tips).next_tip()
                }
            },
            Err(_) => self.end_step(Err(SyncError::StoreReadFailed)),
        }
    }

    fn on_leaves(self, leaves: Result<Vec<Hash256>, Failed>) -> (r: Engine)
        ensures
            r@ == self@.on_leaves(hashes_view(leaves)),
    {
        match leaves {
            Ok(leaves) => {
                if leaves.len() == 0 {
                    self.end_step(Ok(false))
                } else {
                    self.with_tips(leaves).next_tip()
                }
            },
            Err(_) => self.end_step(Err(SyncError::StoreReadFailed)),
        }
    }

    fn on_indexed(self, checking_tip: Hash256, indexed: bool) -> (r: Engine)
        ensures
            r@ == self@.on_indexed(checking_tip, indexed),
    {
        if indexed {
            self.next_tip()
        } else {
            self.enter(Phase::Lookup(checking_tip))
        }
    }

    fn on_header(self, lookup: Result<Option<Header>, Failed>) -> (r: Engine)
        ensures
            r@ == self@.on_header(lookup_view(lookup)),
    {
        match fetch_header(lookup, self.sync_from) {
            Ok(Some(operating_header)) => self.operate(operating_header),
            Ok(None) => self.next_tip(),
            Err(e) => self.end_step(Err(e)),
        }
    }

    fn on_best(self, operating_header: Header, best: u64) -> (r: Engine)
        ensures
            r@ == self@.on_best(operating_header@, best),
    {
        if operating_header.number > best {
            self.end_step(Ok(false))
        } else {
            self.derive(operating_header)
        }
    }

    fn on_capability(self, hash: Hash256, version: Result<Option<u32>, Failed>) -> (r: Engine)
        ensures
            r@ == self@.on_capability(hash, version),
    {
        match version {
            Ok(Some(api_version)) => self.enter(Phase::Genesis(hash, genesis_shape(api_version))),
            Ok(None) => self.enter(Phase::Index(sync_genesis_block(hash, None), None)),
            Err(_) => self.end_step(Err(SyncError::CapabilityProbeFailed)),
        }
    }

    fn on_genesis(self, hash: Hash256, answer: Result<Option<GenesisBlock>, Failed>) -> (r: Engine)
        ensures
            r@ == self@.on_genesis(hash, answer_view(answer)),
    {
        match answer {
            Ok(genesis) => self.enter(Phase::Index(sync_genesis_block(hash, genesis), None)),
            Err(_) => self.end_step(Err(SyncError::CapabilityProbeFailed)),
        }
    }

    fn on_index_written(self, parent: Option<Hash256>, written: Result<(), Failed>) -> (r: Engine)
        ensures
            r@ == self@.on_index_written(parent, written),
    {
        match written {
            Ok(_) => {
                let mut current_syncing_tips = self.tips;
                if let Some(parent_hash) = parent {
                    current_syncing_tips.push(parent_hash);
                }
                Engine {
                    sync_from: self.sync_from,
                    strategy: self.strategy,
                    remaining: self.remaining,
                    synced_any: self.synced_any,
                    tips: current_syncing_tips,
                    phase: Phase::Persist(true),
                }
            },
            Err(_) => self.end_step(Err(SyncError::StoreWriteFailed)),
        }
    }

    fn on_frontier_written(self, progress: bool, written: Result<(), Failed>) -> (r: Engine)
        ensures
            r@ == self@.on_frontier_written(progress, written),
    {
        match written {
            Ok(_) => self.end_step(Ok(progress)),
            Err(_) => self.end_step(Err(SyncError::StoreWriteFailed)),
        }
    }

    /// Takes the answer to the present request and moves on to the next. A
    /// reply of another kind than the request asks for is ignored.
    pub fn resume(self, reply: Reply) -> (r: Engine)
        ensures
            r@ == self@.resume(reply@),
    {
        if !self.accepts(&reply) {
            return self;
        }
        // Each arm sets the next phase, so that the old one can be taken apart.
        let Engine { sync_from, strategy, remaining, synced_any, tips, phase } = self;
        let rest = Engine { sync_from, strategy, remaining, synced_any, tips, phase: Phase::Frontier };
        match (phase, reply) {
            (Phase::Frontier, Reply::Frontier(frontier)) => rest.on_frontier(frontier),
            (Phase::Leaves, Reply::Leaves(leaves)) => rest.on_leaves(leaves),
            (Phase::Tip(checking_tip), Reply::Indexed(indexed)) => rest.on_indexed(
                checking_tip,
                indexed,
            ),
            (Phase::Lookup(_), Reply::Header(lookup)) => rest.on_header(lookup),
            (Phase::Best(operating_header), Reply::BestNumber(best)) => rest.on_best(
                operating_header,
                best,
            ),
            (Phase::Capability(hash), Reply::Capability(version)) => rest.on_capability(
                hash,
                version,
            ),
            (Phase::Genesis(hash, _), Reply::Genesis(answer)) => rest.on_genesis(hash, answer),
            (Phase::Index(_, parent), Reply::IndexWritten(written)) => rest.on_index_written(
                parent,
                written,
            ),
            (Phase::Persist(progress), Reply::FrontierWritten(written)) => rest.on_frontier_written(
                progress,
                written,
            ),
            _ => rest,
        }
    }
}

} // verus!
