use crate::engine::{Engine, Reply, ReplyView, Request};
use crate::genesis::{EmbeddedBlock, GenesisBlock, GenesisShape};
use crate::header::Header;
use crate::mapping::IndexEntry;
use crate::model::{find_header, Outcome, World};
use crate::primitives::{copy_of, Failed, Hash256, SyncError, SyncStrategy};
use crate::laws::lemma_run_of_one;
use crate::refinement::{budget, finish, lemma_exchange};
use vstd::prelude::*;

verus! {

/// The engine's collaborators, held in memory: a host chain, a runtime, an
/// index store and a progress store. It answers every request of the engine
/// and never fails a read of the frontier or the leaves, nor a write.
#[derive(Debug, PartialEq, Eq)]
pub struct MemoryBackend {
    /// The headers of the host chain. Of two with one hash, the first is
    /// the one that a lookup finds.
    pub headers: Vec<Header>,
    /// The leaves of the host chain.
    pub leaves: Vec<Hash256>,
    /// The height of the host chain's best block.
    pub best_number: u64,
    /// What the runtime answers when asked for its version.
    pub capability: Result<Option<u32>, Failed>,
    /// What the runtime answers when asked for its genesis block.
    pub genesis: Result<Option<EmbeddedBlock>, Failed>,
    /// The index store: every entry written, the oldest first.
    pub index: Vec<IndexEntry>,
    /// The progress store: the frontier.
    pub tips: Vec<Hash256>,
}

impl View for MemoryBackend {
    type V = World;

    open spec fn view(&self) -> World {
        World {
            headers: self.headers@.map_values(|header: Header| header@),
            leaves: self.leaves@,
            best_number: self.best_number,
            capability: self.capability,
            genesis: match self.genesis {
                Ok(Some(block)) => Ok(Some(block@)),
                Ok(None) => Ok(None),
                Err(e) => Err(e),
            },
            index: self.index@.map_values(|entry: IndexEntry| entry@),
            tips: self.tips@,
        }
    }
}

/// The view of an answer that may be absent.
pub open spec fn reply_view(reply: Option<Reply>) -> Option<ReplyView> {
    match reply {
        Some(answer) => Some(answer@),
        None => None,
    }
}

impl MemoryBackend {
    /// A copy of the collaborators as they stand.
    pub fn duplicate(&self) -> (r: MemoryBackend)
        ensures
            r@ == self@,
    {
        let mut headers: Vec<Header> = Vec::new();
        let mut i: usize = 0;
        while i < self.headers.len()
            invariant
                i <= self.headers.len(),
                headers@.map_values(|header: Header| header@) == self@.headers.take(i as int),
            decreases self.headers.len() - i,
        {
            headers.push(self.headers[i].duplicate());
            assert(self@.headers.take(i + 1) == self@.headers.take(i as int).push(
                self@.headers[i as int],
            ));
            i += 1;
        }
        assert(self@.headers.take(self.headers.len() as int) == self@.headers);
        let mut index: Vec<IndexEntry> = Vec::new();
        let mut j: usize = 0;
        while j < self.index.len()
            invariant
                j <= self.index.len(),
                index@.map_values(|entry: IndexEntry| entry@) == self@.index.take(j as int),
            decreases self.index.len() - j,
        {
            index.push(self.index[j].duplicate());
            assert(self@.index.take(j + 1) == self@.index.take(j as int).push(
                self@.index[j as int],
            ));
            j += 1;
        }
        assert(self@.index.take(self.index.len() as int) == self@.index);
        let genesis = match &self.genesis {
            Ok(Some(block)) => Ok(Some(EmbeddedBlock { header: block.header.duplicate() })),
            Ok(None) => Ok(None),
            Err(e) => Err(*e),
        };
        MemoryBackend {
            headers,
            leaves: copy_of(&self.leaves),
            best_number: self.best_number,
            capability: self.capability,
            genesis,
            index,
            tips: copy_of(&self.tips),
        }
    }

    /// Whether the index holds an entry for the host block `hash`.
    pub fn is_indexed(&self, hash: &Hash256) -> (r: bool)
        ensures
            r == self@.is_indexed(*hash),
    {
        let mut i: usize = 0;
        while i < self.index.len()
            invariant
                i <= self.index.len(),
                forall|j: int| 0 <= j < i ==> (#[trigger] self@.index[j]).block_hash() != *hash,
            decreases self.index.len() - i,
        {
            assert(self@.index[i as int] == self.index[i as int]@);
            if self.index[i].block_hash().same(hash) {
                return true;
            }
            i += 1;
        }
        false
    }

    /// The header that the host chain resolves `hash` to.
    pub fn header(&self, hash: &Hash256) -> (r: Option<Header>)
        ensures
            match r {
                Some(header) => self@.header(*hash) == Some(header@),
                None => self@.header(*hash).is_none(),
            },
    {
        let mut i: usize = 0;
        assert(self@.headers.skip(0) == self@.headers);
        while i < self.headers.len()
            invariant
                i <= self.headers.len(),
                self@.header(*hash) == find_header(self@.headers.skip(i as int), *hash),
            decreases self.headers.len() - i,
        {
            assert(self@.headers.skip(i as int).drop_first() == self@.headers.skip(i + 1));
            if self.headers[i].hash.same(hash) {
                return Some(self.headers[i].duplicate());
            }
            i += 1;
        }
        None
    }

    /// What the runtime answers when asked for its genesis block in the
    /// shape `shape`.
    pub fn genesis_answer(&self, shape: GenesisShape) -> (r: Result<Option<GenesisBlock>, Failed>)
        ensures
            crate::engine::answer_view(r) == self@.genesis_answer(shape),
    {
        match &self.genesis {
            Ok(Some(block)) => Ok(Some(block.in_shape(shape))),
            Ok(None) => Ok(None),
            Err(e) => Err(*e),
        }
    }

    /// Answers a request of the engine, and does what it asks for. Where
    /// the engine asks for nothing more, there is no answer.
    pub fn serve(&mut self, request: Request) -> (reply: Option<Reply>)
        ensures
            final(self)@ == old(self)@.serve(request@).world,
            reply_view(reply) == old(self)@.serve(request@).reply,
    {
        match request {
            Request::ReadFrontier => Some(Reply::Frontier(Ok(copy_of(&self.tips)))),
            Request::ReadLeaves => Some(Reply::Leaves(Ok(copy_of(&self.leaves)))),
            Request::IsIndexed(hash) => Some(Reply::Indexed(self.is_indexed(&hash))),
            Request::ReadHeader(hash) => Some(Reply::Header(Ok(self.header(&hash)))),
            Request::BestNumber => Some(Reply::BestNumber(self.best_number)),
            Request::CapabilityVersion(_) => Some(Reply::Capability(self.capability)),
            Request::GenesisBlock(_, shape) => Some(Reply::Genesis(self.genesis_answer(shape))),
            Request::WriteIndex(entry) => {
                self.index.push(entry);
                assert(self@.index == old(self)@.index.push(entry@));
                Some(Reply::IndexWritten(Ok(())))
            },
            Request::WriteFrontier(current_syncing_tips) => {
                self.tips = current_syncing_tips;
                Some(Reply::FrontierWritten(Ok(())))
            },
            Request::Done(_) => None,
        }
    }

    /// Runs the engine to its end, answering each of its requests.
    pub fn drive(&mut self, engine: Engine) -> (r: Result<bool, SyncError>)
        ensures
            (Outcome { world: final(self)@, result: r }) == finish(old(self)@, engine@),
    {
        let mut running = engine;
        loop
            invariant
                finish(self@, running@) == finish(old(self)@, engine@),
            decreases running@.remaining, budget(self@, running@),
        {
            let request = running.request();
            if let Request::Done(outcome) = request {
                return outcome;
            }
            proof {
                lemma_exchange(self@, running@);
            }
            match self.serve(request) {
                Some(reply) => {
                    running = running.resume(reply);
                },
                None => {},
            }
        }
    }
}

/// Takes one step of the engine on the collaborators in `backend`: indexes
/// at most one host block, and says whether it did.
pub fn sync_one_block(backend: &mut MemoryBackend, sync_from: u64, strategy: SyncStrategy) -> (r:
    Result<bool, SyncError>)
    ensures
        (Outcome { world: final(backend)@, result: r }) == old(backend)@.step(sync_from, strategy),
{
    let engine = Engine::new(1, sync_from, strategy);
    proof {
        lemma_run_of_one(backend@, sync_from, strategy);
    }
    backend.drive(engine)
}

/// Takes `limit` steps of the engine on the collaborators in `backend`, or
/// fewer where a step fails, and says whether any of them has indexed a
/// host block.
pub fn sync_blocks(
    backend: &mut MemoryBackend,
    limit: usize,
    sync_from: u64,
    strategy: SyncStrategy,
) -> (r: Result<bool, SyncError>)
    ensures
        (Outcome { world: final(backend)@, result: r }) == old(backend)@.run(
            limit as nat,
            sync_from,
            strategy,
        ),
{
    let engine = Engine::new(limit, sync_from, strategy);
    backend.drive(engine)
}

} // verus!
