use crate::header::HeaderView;
use crate::mapping::IndexEntryView;
use crate::model::{find_header, World};
use crate::primitives::{Hash256, SyncError, SyncStrategy};
use vstd::prelude::*;

verus! {

impl World {
    /// Whether a walk stops at `tip`: its header is resolvable and stands
    /// at or above the floor, and it is not indexed.
    pub open spec fn open(self, tip: Hash256, sync_from: u64) -> bool {
        match self.header(tip) {
            Some(header) => !self.is_indexed(tip) && header.number >= sync_from,
            None => false,
        }
    }

    /// Whether `hash` lies on the open stretch of the chain below `tip`: at
    /// most `depth` parent links lead from `tip` down to `hash`, and every
    /// header on the way, both ends included, is open. The stretch ends at
    /// height zero.
    pub open spec fn on_path(self, tip: Hash256, hash: Hash256, sync_from: u64, depth: nat) -> bool
        decreases depth,
    {
        &&& self.open(tip, sync_from)
        &&& tip == hash || (depth > 0 && self.header(tip)->Some_0.number > 0 && self.on_path(
            self.header(tip)->Some_0.parent_hash,
            hash,
            sync_from,
            (depth - 1) as nat,
        ))
    }

    /// Whether the engine has yet to index `hash`: it lies on the open
    /// stretch below one of the tips that the next step walks down.
    pub open spec fn awaits(self, hash: Hash256, sync_from: u64) -> bool {
        exists|i: int, depth: nat|
            0 <= i < self.start_tips().len() && #[trigger] self.on_path(
                self.start_tips()[i],
                hash,
                sync_from,
                depth,
            )
    }

    /// Whether `hash` is indexed or will be.
    pub open spec fn covers(self, hash: Hash256, sync_from: u64) -> bool {
        self.is_indexed(hash) || self.awaits(hash, sync_from)
    }

    /// Whether the engine has come to rest: the walk of the next step finds
    /// no header to operate on.
    pub open spec fn idle(self, sync_from: u64) -> bool {
        self.walk(sync_from).found == Ok::<Option<HeaderView>, SyncError>(None)
    }

    /// Whether no host block has two entries in the index.
    pub open spec fn indexed_once(self) -> bool {
        forall|i: int, j: int|
            0 <= i < j < self.index.len() ==> (#[trigger] self.index[i]).block_hash() != (
            #[trigger] self.index[j]).block_hash()
    }
}

/// A lookup finds a header under its own hash.
pub proof fn lemma_header_hash(headers: Seq<HeaderView>, hash: Hash256)
    ensures
        find_header(headers, hash) is Some ==> find_header(headers, hash)->Some_0.hash == hash,
    decreases headers.len(),
{
    if headers.len() > 0 && headers[0].hash != hash {
        lemma_header_hash(headers.drop_first(), hash);
    }
}

/// What a walk leaves behind. The tips that it has not touched are the
/// first of those it was given. Where it stops at a header, that header
/// belongs to the next tip, which is open. Every tip above that is closed,
/// and so is every tip where the walk finds nothing.
pub proof fn lemma_walk_shape(world: World, tips: Seq<Hash256>, sync_from: u64)
    ensures
        ({
            let walk = world.scan(tips, sync_from);
            let kept = walk.rest.len() as int;
            &&& kept <= tips.len()
            &&& walk.rest == tips.take(kept)
            &&& walk.found is Err ==> kept < tips.len()
            &&& walk.found == Ok::<Option<HeaderView>, SyncError>(None) ==> kept == 0
            &&& walk.found matches Ok(Some(header)) ==> {
                &&& kept < tips.len()
                &&& tips[kept] == header.hash
                &&& world.header(header.hash) == Some(header)
                &&& world.open(header.hash, sync_from)
            }
            &&& forall|i: int|
                (if walk.found == Ok::<Option<HeaderView>, SyncError>(None) {
                    kept
                } else {
                    kept + 1
                }) <= i < tips.len() ==> !world.open(#[trigger] tips[i], sync_from)
        }),
    decreases tips.len(),
{
    let walk = world.scan(tips, sync_from);
    if tips.len() > 0 {
        let rest = tips.drop_last();
        let tip = tips.last();
        lemma_walk_shape(world, rest, sync_from);
        lemma_header_hash(world.headers, tip);
        if !world.is_indexed(tip) {
            assert(walk == world.lookup(rest, tip, sync_from));
        }
        let kept = walk.rest.len() as int;
        let closed = if walk.found == Ok::<Option<HeaderView>, SyncError>(None) {
            kept
        } else {
            kept + 1
        };
        assert forall|i: int| closed <= i < tips.len() implies !world.open(
            #[trigger] tips[i],
            sync_from,
        ) by {
            if i < rest.len() {
                assert(tips[i] == rest[i]);
            }
        }
    }
}

/// Writing an entry indexes the host block that the entry is about, and no
/// other.
pub proof fn lemma_write_indexes(
    world: World,
    entry: IndexEntryView,
    tips: Seq<Hash256>,
    hash: Hash256,
)
    ensures
        world.write(entry, tips).is_indexed(hash) <==> world.is_indexed(hash) || hash
            == entry.block_hash(),
{
    let after = world.write(entry, tips);
    if world.is_indexed(hash) {
        let i = choose|i: int|
            0 <= i < world.index.len() && #[trigger] world.index[i].block_hash() == hash;
        assert(after.index[i].block_hash() == hash);
    }
    if hash == entry.block_hash() {
        assert(after.index[world.index.len() as int].block_hash() == hash);
    }
}

/// When an entry is written, an open stretch either stays open or runs
/// through the header that the entry is for.
pub proof fn lemma_path_transfer(
    world: World,
    entry: IndexEntryView,
    tips: Seq<Hash256>,
    tip: Hash256,
    hash: Hash256,
    sync_from: u64,
    depth: nat,
) -> (through: nat)
    requires
        world.on_path(tip, hash, sync_from, depth),
    ensures
        through <= depth,
        world.write(entry, tips).on_path(tip, hash, sync_from, depth) || world.on_path(
            entry.block_hash(),
            hash,
            sync_from,
            through,
        ),
    decreases depth,
{
    let after = world.write(entry, tips);
    lemma_write_indexes(world, entry, tips, tip);
    if tip == entry.block_hash() {
        depth
    } else if tip == hash {
        0
    } else {
        let parent = world.header(tip)->Some_0.parent_hash;
        let through = lemma_path_transfer(
            world,
            entry,
            tips,
            parent,
            hash,
            sync_from,
            (depth - 1) as nat,
        );
        through
    }
}

/// When an entry is written for a header, what lay on the open stretch
/// below that header lies on the open stretch below its parent.
pub proof fn lemma_path_resumes(
    world: World,
    entry: IndexEntryView,
    tips: Seq<Hash256>,
    hash: Hash256,
    sync_from: u64,
    depth: nat,
) -> (below: nat)
    requires
        world.on_path(entry.block_hash(), hash, sync_from, depth),
        hash != entry.block_hash(),
    ensures
        world.write(entry, tips).on_path(
            world.header(entry.block_hash())->Some_0.parent_hash,
            hash,
            sync_from,
            below,
        ),
    decreases depth,
{
    let after = world.write(entry, tips);
    let parent = world.header(entry.block_hash())->Some_0.parent_hash;
    let through = lemma_path_transfer(
        world,
        entry,
        tips,
        parent,
        hash,
        sync_from,
        (depth - 1) as nat,
    );
    if after.on_path(parent, hash, sync_from, (depth - 1) as nat) {
        (depth - 1) as nat
    } else {
        lemma_path_resumes(world, entry, tips, hash, sync_from, through)
    }
}

/// A step that writes an entry writes it for the header that its walk has
/// stopped at, which was open, and appends it to the index. Any other step
/// leaves the index as it was. No step touches the host chain or the
/// runtime.
pub proof fn lemma_step_writes(world: World, sync_from: u64, strategy: SyncStrategy)
    ensures
        ({
            let after = world.step(sync_from, strategy);
            &&& after.world.headers == world.headers
            &&& after.world.leaves == world.leaves
            &&& after.world.best_number == world.best_number
            &&& after.world.capability == world.capability
            &&& after.world.genesis == world.genesis
            &&& after.result == Ok::<bool, SyncError>(true) ==> {
                &&& world.walk(sync_from).found matches Ok(Some(header))
                &&& after.world.index.len() == world.index.len() + 1
                &&& after.world.index.drop_last() == world.index
                &&& after.world.index.last().block_hash() == header.hash
                &&& !world.is_indexed(header.hash)
            }
            &&& after.result != Ok::<bool, SyncError>(true) ==> after.world.index == world.index
        }),
{
    lemma_walk_shape(world, world.start_tips(), sync_from);
}

/// A step keeps what it finds covered: a host block that is indexed stays
/// indexed, and one that the engine has yet to index is indexed by the step
/// or is still to be indexed after it.
pub proof fn lemma_step_keeps_covered(
    world: World,
    hash: Hash256,
    sync_from: u64,
    strategy: SyncStrategy,
)
    requires
        world.covers(hash, sync_from),
        world.step(sync_from, strategy).result is Ok,
    ensures
        world.step(sync_from, strategy).world.covers(hash, sync_from),
{
    let after = world.step(sync_from, strategy).world;
    let tips = world.start_tips();
    let walk = world.walk(sync_from);
    lemma_step_writes(world, sync_from, strategy);
    lemma_walk_shape(world, tips, sync_from);
    // A step without progress leaves the index alone, and the frontier too
    // unless every tip of it is closed.
    if world.step(sync_from, strategy).result == Ok::<bool, SyncError>(true) {
        let header = walk.found->Ok_0->Some_0;
        let kept = walk.rest.len() as int;
        let entry = after.index.last();
        assert(after == world.write(entry, after.tips));
        lemma_write_indexes(world, entry, after.tips, hash);
        if !world.is_indexed(hash) && hash != header.hash {
            // The tip that `hash` lies below is one that the walk has kept,
            // or the one it has stopped at.
            let (i, depth) = choose|i: int, depth: nat|
                0 <= i < tips.len() && #[trigger] world.on_path(tips[i], hash, sync_from, depth);
            let through = lemma_path_transfer(
                world,
                entry,
                after.tips,
                tips[i],
                hash,
                sync_from,
                depth,
            );
            if after.on_path(tips[i], hash, sync_from, depth) {
                lemma_write_indexes(world, entry, after.tips, tips[i]);
                assert(after.tips[i] == tips[i]);
                assert(after.start_tips() == after.tips);
            } else {
                // The stretch runs through the header that is now indexed,
                // and goes on below its parent, which has joined the frontier.
                let below = lemma_path_resumes(world, entry, after.tips, hash, sync_from, through);
                assert(after.on_path(after.start_tips()[kept], hash, sync_from, below));
            }
        }
    }
}

/// A run that does not fail keeps what it finds covered.
pub proof fn lemma_run_keeps_covered(
    world: World,
    limit: nat,
    hash: Hash256,
    sync_from: u64,
    strategy: SyncStrategy,
)
    requires
        world.covers(hash, sync_from),
        world.run(limit, sync_from, strategy).result is Ok,
    ensures
        world.run(limit, sync_from, strategy).world.covers(hash, sync_from),
    decreases limit,
{
    if limit > 0 {
        lemma_step_keeps_covered(world, hash, sync_from, strategy);
        lemma_run_keeps_covered(
            world.step(sync_from, strategy).world,
            (limit - 1) as nat,
            hash,
            sync_from,
            strategy,
        );
    }
}

/// A run only appends to the index, and never a second entry for a host
/// block that has one.
pub proof fn lemma_run_indexes_once(
    world: World,
    limit: nat,
    sync_from: u64,
    strategy: SyncStrategy,
)
    requires
        world.indexed_once(),
    ensures
        ({
            let after = world.run(limit, sync_from, strategy).world;
            &&& after.indexed_once()
            &&& world.index.len() <= after.index.len()
            &&& after.index.take(world.index.len() as int) == world.index
        }),
    decreases limit,
{
    if limit > 0 {
        let one = world.step(sync_from, strategy);
        lemma_step_writes(world, sync_from, strategy);
        // The step has appended at most one entry, for a block without one.
        assert(one.world.index.take(world.index.len() as int) == world.index);
        assert(one.world.indexed_once());
        if one.result is Ok {
            lemma_run_indexes_once(one.world, (limit - 1) as nat, sync_from, strategy);
        }
    }
}

/// Forks are indexed independently, and each block once. Take a host block
/// that the engine has yet to index: one that lies on the open stretch
/// below a tip of the frontier, or below a leaf where the frontier is
/// empty. Once a run without failure has brought the engine to rest, the
/// block is indexed. The run has only appended to the index, so that what
/// was indexed before is not indexed again, and no host block has two
/// entries.
pub proof fn lemma_forks_are_indexed(
    world: World,
    limit: nat,
    hash: Hash256,
    sync_from: u64,
    strategy: SyncStrategy,
)
    requires
        world.indexed_once(),
        world.covers(hash, sync_from),
        world.run(limit, sync_from, strategy).result is Ok,
        world.run(limit, sync_from, strategy).world.idle(sync_from),
    ensures
        ({
            let after = world.run(limit, sync_from, strategy).world;
            &&& after.is_indexed(hash)
            &&& after.indexed_once()
            &&& after.index.take(world.index.len() as int) == world.index
        }),
{
    let after = world.run(limit, sync_from, strategy).world;
    lemma_run_keeps_covered(world, limit, hash, sync_from, strategy);
    lemma_run_indexes_once(world, limit, sync_from, strategy);
    // At rest every tip is closed, so that no block lies below one.
    lemma_walk_shape(after, after.start_tips(), sync_from);
}

/// On a chain that stands alone, a step without progress finds the engine
/// at rest.
pub proof fn lemma_standalone_rest(world: World, sync_from: u64)
    requires
        world.step(sync_from, SyncStrategy::Standalone).result == Ok::<bool, SyncError>(false),
    ensures
        world.idle(sync_from),
{
}

} // verus!
