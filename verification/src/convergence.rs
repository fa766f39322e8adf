use crate::coverage::{lemma_step_writes, lemma_walk_shape, lemma_write_indexes};
use crate::header::HeaderView;
use crate::laws::{lemma_run_of_one, lemma_run_resumes, lemma_two_idle_steps};
use crate::mapping::IndexEntryView;
use crate::model::{find_header, World};
use crate::primitives::{Hash256, SyncError, SyncStrategy};
use vstd::prelude::*;

verus! {

impl World {
    /// How many of `headers` are not indexed.
    pub open spec fn unindexed(self, headers: Seq<HeaderView>) -> nat
        decreases headers.len(),
    {
        if headers.len() == 0 {
            0
        } else {
            self.unindexed(headers.drop_last()) + if self.is_indexed(headers.last().hash) {
                0nat
            } else {
                1nat
            }
        }
    }
}

/// No more headers are unindexed than there are headers.
pub proof fn lemma_unindexed_bound(world: World, headers: Seq<HeaderView>)
    ensures
        world.unindexed(headers) <= headers.len(),
    decreases headers.len(),
{
    if headers.len() > 0 {
        lemma_unindexed_bound(world, headers.drop_last());
    }
}

/// A header that a lookup finds is one of the headers.
pub proof fn lemma_header_found(headers: Seq<HeaderView>, hash: Hash256) -> (at: int)
    requires
        find_header(headers, hash) is Some,
    ensures
        0 <= at < headers.len(),
        headers[at].hash == hash,
    decreases headers.len(),
{
    if headers[0].hash == hash {
        0
    } else {
        let below = lemma_header_found(headers.drop_first(), hash);
        below + 1
    }
}

/// Writing an entry leaves no more headers unindexed than before, and
/// fewer where it is the first entry for one of them.
pub proof fn lemma_write_counts(
    world: World,
    entry: IndexEntryView,
    tips: Seq<Hash256>,
    headers: Seq<HeaderView>,
)
    ensures
        world.write(entry, tips).unindexed(headers) <= world.unindexed(headers),
        !world.is_indexed(entry.block_hash()) && (exists|at: int|
            0 <= at < headers.len() && #[trigger] headers[at].hash == entry.block_hash())
            ==> world.write(entry, tips).unindexed(headers) < world.unindexed(headers),
    decreases headers.len(),
{
    if headers.len() > 0 {
        let after = world.write(entry, tips);
        let last = headers.last().hash;
        lemma_write_counts(world, entry, tips, headers.drop_last());
        lemma_write_indexes(world, entry, tips, last);
        if !world.is_indexed(entry.block_hash()) && (exists|at: int|
            0 <= at < headers.len() && #[trigger] headers[at].hash == entry.block_hash()) {
            let at = choose|at: int|
                0 <= at < headers.len() && #[trigger] headers[at].hash == entry.block_hash();
            if at < headers.len() - 1 {
                assert(headers.drop_last()[at].hash == entry.block_hash());
            }
        }
    }
}

/// Worlds with one index leave the same headers unindexed.
pub proof fn lemma_same_index_counts(world: World, other: World, headers: Seq<HeaderView>)
    requires
        world.index == other.index,
    ensures
        world.unindexed(headers) == other.unindexed(headers),
    decreases headers.len(),
{
    if headers.len() > 0 {
        lemma_same_index_counts(world, other, headers.drop_last());
    }
}

/// A step with progress leaves fewer headers unindexed.
pub proof fn lemma_progress_counts(world: World, sync_from: u64, strategy: SyncStrategy)
    requires
        world.step(sync_from, strategy).result == Ok::<bool, SyncError>(true),
    ensures
        world.step(sync_from, strategy).world.unindexed(world.headers) < world.unindexed(
            world.headers,
        ),
        world.step(sync_from, strategy).world.headers == world.headers,
{
    let after = world.step(sync_from, strategy).world;
    lemma_step_writes(world, sync_from, strategy);
    lemma_walk_shape(world, world.start_tips(), sync_from);
    let header = world.walk(sync_from).found->Ok_0->Some_0;
    let entry = after.index.last();
    assert(after == world.write(entry, after.tips));
    let at = lemma_header_found(world.headers, header.hash);
    lemma_write_counts(world, entry, after.tips, world.headers);
}

/// Every run comes to rest. Within two steps for each header, and two more,
/// a run either fails or reaches a world that stands still, which no
/// further step changes.
pub proof fn lemma_run_comes_to_rest(world: World, sync_from: u64, strategy: SyncStrategy) -> (steps:
    nat)
    ensures
        steps <= 2 * world.unindexed(world.headers) + 2,
        steps <= 2 * world.headers.len() + 2,
        world.run(steps, sync_from, strategy).result is Err || world.run(
            steps,
            sync_from,
            strategy,
        ).world.still(sync_from, strategy),
    decreases world.unindexed(world.headers),
{
    lemma_unindexed_bound(world, world.headers);
    let one = world.step(sync_from, strategy);
    lemma_run_of_one(world, sync_from, strategy);
    if one.result is Err {
        1
    } else if one.result == Ok::<bool, SyncError>(true) {
        lemma_progress_counts(world, sync_from, strategy);
        let later = lemma_run_comes_to_rest(one.world, sync_from, strategy);
        lemma_run_resumes(world, 1, later, sync_from, strategy);
        later + 1
    } else if one.world == world {
        0
    } else {
        let two = one.world.step(sync_from, strategy);
        lemma_step_writes(world, sync_from, strategy);
        assert(one.world.unindexed(world.headers) == world.unindexed(world.headers)) by {
            lemma_same_index_counts(world, one.world, world.headers);
        }
        lemma_run_of_one(one.world, sync_from, strategy);
        lemma_run_resumes(world, 1, 1, sync_from, strategy);
        if two.result is Err {
            2
        } else if two.result == Ok::<bool, SyncError>(true) {
            lemma_progress_counts(one.world, sync_from, strategy);
            let later = lemma_run_comes_to_rest(two.world, sync_from, strategy);
            lemma_run_resumes(one.world, 1, later, sync_from, strategy);
            lemma_run_resumes(world, 1, 1 + later, sync_from, strategy);
            later + 2
        } else {
            lemma_two_idle_steps(world, sync_from, strategy);
            1
        }
    }
}

} // verus!
