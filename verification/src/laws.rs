use crate::coverage::lemma_walk_shape;
use crate::genesis::ethereum_header_hash;
use crate::header::HeaderView;
use crate::mapping::{block_entry, IndexEntryView, MappingCommitmentView};
use crate::model::{merge, Outcome, World};
use crate::primitives::{SyncError, SyncStrategy};
use vstd::prelude::*;

verus! {

/// A step walks down the frontier, or the leaves where the frontier is
/// empty, and goes on from what the walk finds. With nothing to walk down
/// it changes nothing and reports no progress.
pub proof fn lemma_step_walks(world: World, sync_from: u64, strategy: SyncStrategy)
    ensures
        world.step(sync_from, strategy) == if world.start_tips().len() == 0 {
            Outcome { world, result: Ok(false) }
        } else {
            world.conclude(world.walk(sync_from), strategy)
        },
{
}

/// A step that fails is abandoned: it leaves every store as it was.
pub proof fn lemma_failed_step_is_abandoned(world: World, sync_from: u64, strategy: SyncStrategy)
    requires
        world.step(sync_from, strategy).result is Err,
    ensures
        world.step(sync_from, strategy).world == world,
{
}

/// A run of one step is that step.
pub proof fn lemma_run_of_one(world: World, sync_from: u64, strategy: SyncStrategy)
    ensures
        world.run(1, sync_from, strategy) == world.step(sync_from, strategy),
{
    let one = world.step(sync_from, strategy);
    assert(one.world.run(0, sync_from, strategy) == (Outcome {
        world: one.world,
        result: Ok(false),
    }));
}

/// A run may be stopped and taken up again: `first` steps that do not fail,
/// followed by `second` steps from the world that they left, come to what
/// `first + second` steps in a row come to.
pub proof fn lemma_run_resumes(
    world: World,
    first: nat,
    second: nat,
    sync_from: u64,
    strategy: SyncStrategy,
)
    requires
        world.run(first, sync_from, strategy).result is Ok,
    ensures
        world.run(first + second, sync_from, strategy) == merge(
            world.run(first, sync_from, strategy).result->Ok_0,
            world.run(first, sync_from, strategy).world.run(second, sync_from, strategy),
        ),
    decreases first,
{
    if first > 0 {
        let one = world.step(sync_from, strategy);
        lemma_run_resumes(one.world, (first - 1) as nat, second, sync_from, strategy);
    }
}

/// A run that fails stops there: more steps come to the same.
pub proof fn lemma_failed_run_stops(
    world: World,
    first: nat,
    second: nat,
    sync_from: u64,
    strategy: SyncStrategy,
)
    requires
        world.run(first, sync_from, strategy).result is Err,
    ensures
        world.run(first + second, sync_from, strategy) == world.run(first, sync_from, strategy),
    decreases first,
{
    if first > 0 {
        let one = world.step(sync_from, strategy);
        if one.result is Ok {
            lemma_failed_run_stops(one.world, (first - 1) as nat, second, sync_from, strategy);
        }
    }
}

/// A run without progress has no step with progress: when it is cut in two,
/// neither part makes progress.
pub proof fn lemma_idle_run_splits(
    world: World,
    first: nat,
    second: nat,
    sync_from: u64,
    strategy: SyncStrategy,
)
    requires
        world.run(first + second, sync_from, strategy).result == Ok::<bool, SyncError>(false),
    ensures
        world.run(first, sync_from, strategy).result == Ok::<bool, SyncError>(false),
        world.run(first, sync_from, strategy).world.run(second, sync_from, strategy)
            == world.run(first + second, sync_from, strategy),
{
    let head = world.run(first, sync_from, strategy);
    if head.result is Err {
        lemma_failed_run_stops(world, first, second, sync_from, strategy);
    } else {
        lemma_run_resumes(world, first, second, sync_from, strategy);
    }
}

/// After two steps in a row without progress the world stands still: the
/// second step has changed nothing.
pub proof fn lemma_two_idle_steps(world: World, sync_from: u64, strategy: SyncStrategy)
    requires
        world.step(sync_from, strategy).result == Ok::<bool, SyncError>(false),
        world.step(sync_from, strategy).world.step(sync_from, strategy).result == Ok::<
            bool,
            SyncError,
        >(false),
    ensures
        world.step(sync_from, strategy).world.step(sync_from, strategy) == world.step(
            sync_from,
            strategy,
        ),
{
    let one = world.step(sync_from, strategy);
    let two = one.world.step(sync_from, strategy);
    lemma_walk_shape(world, world.start_tips(), sync_from);
    lemma_walk_shape(one.world, one.world.start_tips(), sync_from);
    assert(two.world.tips =~= one.world.tips);
}

/// A world that stands still stays as it is, however many steps are
/// taken.
pub proof fn lemma_still_world_stays(
    world: World,
    limit: nat,
    sync_from: u64,
    strategy: SyncStrategy,
)
    requires
        world.still(sync_from, strategy),
    ensures
        world.run(limit, sync_from, strategy) == (Outcome { world, result: Ok(false) }),
    decreases limit,
{
    if limit > 0 {
        lemma_still_world_stays(world, (limit - 1) as nat, sync_from, strategy);
    }
}

/// Running in bounded batches until two batches in a row report no progress
/// leaves the stores as one long run does. `before` steps have been taken
/// without failure, in whatever batches; then two batches of `limit` steps
/// each report no progress. A single run of `total` steps from the start,
/// with `total` at least the number of steps taken so far, ends in the same
/// world, and without failure.
pub proof fn lemma_bounded_runs_converge(
    world: World,
    before: nat,
    limit: nat,
    total: nat,
    sync_from: u64,
    strategy: SyncStrategy,
)
    requires
        limit >= 1,
        total >= before + 2 * limit,
        world.run(before, sync_from, strategy).result is Ok,
        world.run(before, sync_from, strategy).world.run(limit, sync_from, strategy).result
            == Ok::<bool, SyncError>(false),
        world.run(before, sync_from, strategy).world.run(limit, sync_from, strategy).world.run(
            limit,
            sync_from,
            strategy,
        ).result == Ok::<bool, SyncError>(false),
    ensures
        world.run(total, sync_from, strategy).world == world.run(
            before,
            sync_from,
            strategy,
        ).world.run(limit, sync_from, strategy).world.run(limit, sync_from, strategy).world,
        world.run(total, sync_from, strategy).result == world.run(
            before,
            sync_from,
            strategy,
        ).result,
{
    let resumed = world.run(before, sync_from, strategy).world;
    let once = resumed.run(limit, sync_from, strategy);
    // The last step of the first idle batch and the first step of the second.
    let early = (limit - 1) as nat;
    lemma_idle_run_splits(resumed, early, 1, sync_from, strategy);
    let held = resumed.run(early, sync_from, strategy).world;
    lemma_run_of_one(held, sync_from, strategy);
    lemma_idle_run_splits(once.world, 1, early, sync_from, strategy);
    lemma_run_of_one(once.world, sync_from, strategy);
    lemma_two_idle_steps(held, sync_from, strategy);
    // The world after the first idle batch stands still.
    assert(once.world.still(sync_from, strategy));
    lemma_still_world_stays(once.world, limit, sync_from, strategy);
    // One long run: the steps taken before, the first idle batch, the rest.
    let rest = (total - before - limit) as nat;
    lemma_still_world_stays(once.world, rest, sync_from, strategy);
    lemma_run_resumes(resumed, limit, rest, sync_from, strategy);
    lemma_run_resumes(world, before, limit + rest, sync_from, strategy);
}

/// A header whose digest carries more than one claim is fatal to the step
/// that operates on it: the step fails, and leaves the index and the
/// frontier as they were.
pub proof fn lemma_ambiguous_log_is_fatal(
    world: World,
    header: HeaderView,
    sync_from: u64,
    strategy: SyncStrategy,
)
    requires
        world.start_tips().len() > 0,
        world.walk(sync_from).found == Ok::<Option<HeaderView>, SyncError>(Some(header)),
        header.number > 0,
        header.logs.len() >= 2,
        strategy == SyncStrategy::RelayDependent ==> header.number <= world.best_number,
    ensures
        world.step(sync_from, strategy) == (Outcome {
            world,
            result: Err(SyncError::AmbiguousLog),
        }),
        forall|limit: nat|
            limit >= 1 ==> #[trigger] world.run(limit, sync_from, strategy) == (Outcome {
                world,
                result: Err(SyncError::AmbiguousLog),
            }),
{
}

/// At a header of height zero, a runtime that exposes no genesis block, or
/// does not speak of one at all, leads to the marker, and one that exposes
/// a genesis block leads to a commitment to it without transactions.
pub proof fn lemma_genesis_entry(
    world: World,
    header: HeaderView,
    sync_from: u64,
    strategy: SyncStrategy,
)
    requires
        world.start_tips().len() > 0,
        world.walk(sync_from).found == Ok::<Option<HeaderView>, SyncError>(Some(header)),
        header.number == 0,
        world.capability is Ok,
        world.capability->Ok_0 is Some ==> world.genesis is Ok,
    ensures
        world.step(sync_from, strategy).result == Ok::<bool, SyncError>(true),
        world.step(sync_from, strategy).world.tips == world.walk(sync_from).rest,
        world.step(sync_from, strategy).world.index == world.index.push(
            if world.capability->Ok_0 is Some && world.genesis->Ok_0 is Some {
                IndexEntryView::Committed(
                    MappingCommitmentView {
                        block_hash: header.hash,
                        ethereum_block_hash: ethereum_header_hash(
                            world.genesis->Ok_0->Some_0.header,
                        ),
                        ethereum_transaction_hashes: Seq::empty(),
                    },
                )
            } else {
                IndexEntryView::NoBlock(header.hash)
            },
        ),
{
}

/// On a chain that a relay chain secures, a header above the best block is
/// left alone: the step reports no progress and changes nothing. On a chain
/// that stands alone the same header is indexed: where its digest carries
/// at most one claim the step writes its entry, moves the frontier on to
/// its parent, and reports progress.
pub proof fn lemma_relay_gate(world: World, header: HeaderView, sync_from: u64)
    requires
        world.start_tips().len() > 0,
        world.walk(sync_from).found == Ok::<Option<HeaderView>, SyncError>(Some(header)),
        header.number > world.best_number,
    ensures
        world.step(sync_from, SyncStrategy::RelayDependent) == (Outcome {
            world,
            result: Ok(false),
        }),
        world.step(sync_from, SyncStrategy::Standalone) == world.index_block(
            world.walk(sync_from).rest,
            header,
        ),
        header.logs.len() <= 1 ==> {
            let alone = world.step(sync_from, SyncStrategy::Standalone);
            &&& alone.result == Ok::<bool, SyncError>(true)
            &&& alone.world.index == world.index.push(block_entry(header)->Ok_0)
            &&& alone.world.tips == world.walk(sync_from).rest.push(header.parent_hash)
        },
{
}

} // verus!
