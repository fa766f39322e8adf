use crate::engine::{ReplyView, RequestView};
use crate::genesis::{
    genesis_entry, shape_of, shaped, BlockView, GenesisBlockView, GenesisShape,
};
use crate::header::{fetch_header_spec, HeaderView};
use crate::mapping::{block_entry, IndexEntryView};
use crate::primitives::{Failed, Hash256, SyncError, SyncStrategy};
use vstd::prelude::*;

verus! {

/// Everything that the engine reads and writes, at one moment: the host
/// chain, the runtime, the index store and the progress store.
pub ghost struct World {
    /// The headers that the host backend can resolve.
    pub headers: Seq<HeaderView>,
    /// The leaves of the host chain.
    pub leaves: Seq<Hash256>,
    /// The height of the host chain's best block.
    pub best_number: u64,
    /// What the runtime answers when asked for its version.
    pub capability: Result<Option<u32>, Failed>,
    /// What the runtime answers when asked for its genesis block.
    pub genesis: Result<Option<BlockView>, Failed>,
    /// The index store: every entry written, the oldest first.
    pub index: Seq<IndexEntryView>,
    /// The progress store: the frontier.
    pub tips: Seq<Hash256>,
}

/// A world together with what a step or a run returned in it.
pub ghost struct Outcome {
    pub world: World,
    pub result: Result<bool, SyncError>,
}

/// What a walk down the frontier came to: the tips it has left untouched,
/// and the header to operate on, if it found one.
pub ghost struct Scan {
    pub rest: Seq<Hash256>,
    pub found: Result<Option<HeaderView>, SyncError>,
}

/// A world together with the answer it gave. There is no answer where
/// nothing was asked.
pub ghost struct Served {
    pub world: World,
    pub reply: Option<ReplyView>,
}

/// The first of `headers` that has the hash `hash`.
pub open spec fn find_header(headers: Seq<HeaderView>, hash: Hash256) -> Option<HeaderView>
    decreases headers.len(),
{
    if headers.len() == 0 {
        None
    } else if headers[0].hash == hash {
        Some(headers[0])
    } else {
        find_header(headers.drop_first(), hash)
    }
}

/// The result of a run whose earlier steps have made progress or not
/// (`any`) and whose later steps came to `later`.
pub open spec fn merge(any: bool, later: Outcome) -> Outcome {
    Outcome {
        world: later.world,
        result: match later.result {
            Ok(progress) => Ok(any || progress),
            Err(e) => Err(e),
        },
    }
}

impl World {
    /// Whether the index holds an entry for the host block `hash`.
    pub open spec fn is_indexed(self, hash: Hash256) -> bool {
        exists|i: int| 0 <= i < self.index.len() && #[trigger] self.index[i].block_hash() == hash
    }

    /// The header that the host backend resolves `hash` to.
    pub open spec fn header(self, hash: Hash256) -> Option<HeaderView> {
        find_header(self.headers, hash)
    }

    /// What the runtime answers when asked for its genesis block in the
    /// shape `shape`.
    pub open spec fn genesis_answer(self, shape: GenesisShape) -> Result<
        Option<GenesisBlockView>,
        Failed,
    > {
        match self.genesis {
            Ok(Some(block)) => Ok(Some(shaped(block, shape))),
            Ok(None) => Ok(None),
            Err(e) => Err(e),
        }
    }

    /// The world's answer to a request, and the world after it.
    pub open spec fn serve(self, request: RequestView) -> Served {
        match request {
            RequestView::ReadFrontier => Served {
                world: self,
                reply: Some(ReplyView::Frontier(Ok(self.tips))),
            },
            RequestView::ReadLeaves => Served {
                world: self,
                reply: Some(ReplyView::Leaves(Ok(self.leaves))),
            },
            RequestView::IsIndexed(hash) => Served {
                world: self,
                reply: Some(ReplyView::Indexed(self.is_indexed(hash))),
            },
            RequestView::ReadHeader(hash) => Served {
                world: self,
                reply: Some(ReplyView::Header(Ok(self.header(hash)))),
            },
            RequestView::BestNumber => Served {
                world: self,
                reply: Some(ReplyView::BestNumber(self.best_number)),
            },
            RequestView::CapabilityVersion(_) => Served {
                world: self,
                reply: Some(ReplyView::Capability(self.capability)),
            },
            RequestView::GenesisBlock(_, shape) => Served {
                world: self,
                reply: Some(ReplyView::Genesis(self.genesis_answer(shape))),
            },
            RequestView::WriteIndex(entry) => Served {
                world: World { index: self.index.push(entry), ..self },
                reply: Some(ReplyView::IndexWritten(Ok(()))),
            },
            RequestView::WriteFrontier(tips) => Served {
                world: World { tips, ..self },
                reply: Some(ReplyView::FrontierWritten(Ok(()))),
            },
            RequestView::Done(_) => Served { world: self, reply: None },
        }
    }

    /// Walks down `tips` from the end. A tip that is indexed, or whose
    /// header stands below the floor, is dropped. The walk stops at the
    /// first tip that is neither, with its header, or with a failure where
    /// the host backend has none.
    pub open spec fn scan(self, tips: Seq<Hash256>, sync_from: u64) -> Scan
        decreases tips.len(), 0nat,
    {
        if tips.len() == 0 {
            Scan { rest: tips, found: Ok(None) }
        } else if self.is_indexed(tips.last()) {
            self.scan(tips.drop_last(), sync_from)
        } else {
            self.lookup(tips.drop_last(), tips.last(), sync_from)
        }
    }

    /// The walk from a tip `tip` that is not indexed, with `rest` below it.
    pub open spec fn lookup(self, rest: Seq<Hash256>, tip: Hash256, sync_from: u64) -> Scan
        decreases rest.len(), 1nat,
    {
        match fetch_header_spec(Ok(self.header(tip)), sync_from) {
            Ok(None) => self.scan(rest, sync_from),
            found => Scan { rest, found },
        }
    }

    /// The world after `entry` has joined the index and `tips` has become
    /// the frontier.
    pub open spec fn write(self, entry: IndexEntryView, tips: Seq<Hash256>) -> World {
        World { index: self.index.push(entry), tips, ..self }
    }

    /// The entry of the header `hash` at height zero.
    pub open spec fn genesis_write(self, hash: Hash256) -> Result<IndexEntryView, SyncError> {
        match self.capability {
            Ok(Some(version)) => self.genesis_fetch(hash, shape_of(version)),
            Ok(None) => Ok(genesis_entry(hash, None)),
            Err(_) => Err(SyncError::CapabilityProbeFailed),
        }
    }

    /// The entry of the header `hash` at height zero, once the runtime's
    /// shape is known.
    pub open spec fn genesis_fetch(self, hash: Hash256, shape: GenesisShape) -> Result<
        IndexEntryView,
        SyncError,
    > {
        match self.genesis_answer(shape) {
            Ok(genesis) => Ok(genesis_entry(hash, genesis)),
            Err(_) => Err(SyncError::CapabilityProbeFailed),
        }
    }

    /// Writes the entry that was derived for a header, if one was, with
    /// `tips` as the new frontier.
    pub open spec fn commit(self, entry: Result<IndexEntryView, SyncError>, tips: Seq<Hash256>)
        -> Outcome {
        match entry {
            Ok(e) => Outcome { world: self.write(e, tips), result: Ok(true) },
            Err(e) => Outcome { world: self, result: Err(e) },
        }
    }

    /// The step from a header above the genesis that may be indexed now.
    pub open spec fn index_block(self, rest: Seq<Hash256>, header: HeaderView) -> Outcome {
        self.commit(block_entry(header), rest.push(header.parent_hash))
    }

    /// The step from a header above the genesis, on a chain that a relay
    /// chain secures: a header above the best block is left alone.
    pub open spec fn gate(self, rest: Seq<Hash256>, header: HeaderView) -> Outcome {
        if header.number > self.best_number {
            Outcome { world: self, result: Ok(false) }
        } else {
            self.index_block(rest, header)
        }
    }

    /// The step from the header it operates on, with `rest` the tips that
    /// the walk has left.
    pub open spec fn operate(self, rest: Seq<Hash256>, header: HeaderView, strategy: SyncStrategy)
        -> Outcome {
        if header.number == 0 {
            self.commit(self.genesis_write(header.hash), rest)
        } else if strategy == SyncStrategy::RelayDependent {
            self.gate(rest, header)
        } else {
            self.index_block(rest, header)
        }
    }

    /// The step from the end of the walk.
    pub open spec fn conclude(self, scanned: Scan, strategy: SyncStrategy) -> Outcome {
        match scanned.found {
            Ok(Some(header)) => self.operate(scanned.rest, header, strategy),
            Ok(None) => Outcome { world: World { tips: scanned.rest, ..self }, result: Ok(false) },
            Err(e) => Outcome { world: self, result: Err(e) },
        }
    }

    /// The tips that a step walks down: the frontier, or the leaves of the
    /// host chain where the frontier is empty.
    pub open spec fn start_tips(self) -> Seq<Hash256> {
        if self.tips.len() == 0 {
            self.leaves
        } else {
            self.tips
        }
    }

    /// The walk that a step takes.
    pub open spec fn walk(self, sync_from: u64) -> Scan {
        self.scan(self.start_tips(), sync_from)
    }

    /// The step from the leaves, taken when the frontier is empty.
    pub open spec fn seed(self, sync_from: u64, strategy: SyncStrategy) -> Outcome {
        if self.leaves.len() == 0 {
            Outcome { world: self, result: Ok(false) }
        } else {
            self.conclude(self.scan(self.leaves, sync_from), strategy)
        }
    }

    /// One step of the engine: the world after it, and whether it has
    /// written an entry.
    pub open spec fn step(self, sync_from: u64, strategy: SyncStrategy) -> Outcome {
        if self.tips.len() == 0 {
            self.seed(sync_from, strategy)
        } else {
            self.conclude(self.scan(self.tips, sync_from), strategy)
        }
    }

    /// Whether the world stands still: a step changes nothing and reports
    /// no progress.
    pub open spec fn still(self, sync_from: u64, strategy: SyncStrategy) -> bool {
        self.step(sync_from, strategy) == (Outcome { world: self, result: Ok(false) })
    }

    /// A run of `limit` steps: it stops at the first step that fails, and
    /// otherwise says whether any step has written an entry.
    pub open spec fn run(self, limit: nat, sync_from: u64, strategy: SyncStrategy) -> Outcome
        decreases limit,
    {
        if limit == 0 {
            Outcome { world: self, result: Ok(false) }
        } else {
            let first = self.step(sync_from, strategy);
            match first.result {
                Ok(progress) => merge(
                    progress,
                    first.world.run((limit - 1) as nat, sync_from, strategy),
                ),
                Err(_) => first,
            }
        }
    }
}

} // verus!
