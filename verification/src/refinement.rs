use crate::engine::{EngineView, PhaseView};
use crate::model::{merge, Outcome, World};
use vstd::prelude::*;

verus! {

/// What a run comes to once its current step has come to `step`: a failed
/// step ends the run, and after any other the steps that the engine has
/// left are taken.
pub open spec fn then(engine: EngineView, step: Outcome) -> Outcome {
    match step.result {
        Ok(progress) => merge(
            engine.synced_any || progress,
            step.world.run(engine.remaining as nat, engine.sync_from, engine.strategy),
        ),
        Err(_) => step,
    }
}

/// What the step that the engine is in comes to, when every request from
/// here on is answered by the world as it then is.
pub open spec fn pending_step(world: World, engine: EngineView) -> Outcome {
    match engine.phase {
        PhaseView::Frontier => world.step(engine.sync_from, engine.strategy),
        PhaseView::Leaves => world.seed(engine.sync_from, engine.strategy),
        PhaseView::Tip(tip) => world.conclude(
            world.scan(engine.tips.push(tip), engine.sync_from),
            engine.strategy,
        ),
        PhaseView::Lookup(tip) => world.conclude(
            world.lookup(engine.tips, tip, engine.sync_from),
            engine.strategy,
        ),
        PhaseView::Best(header) => world.gate(engine.tips, header),
        PhaseView::Capability(hash) => world.commit(world.genesis_write(hash), engine.tips),
        PhaseView::Genesis(hash, shape) => world.commit(
            world.genesis_fetch(hash, shape),
            engine.tips,
        ),
        PhaseView::Index(entry, parent) => Outcome {
            world: world.write(
                entry,
                match parent {
                    Some(hash) => engine.tips.push(hash),
                    None => engine.tips,
                },
            ),
            result: Ok(true),
        },
        PhaseView::Persist(progress) => Outcome {
            world: World { tips: engine.tips, ..world },
            result: Ok(progress),
        },
        PhaseView::Done(outcome) => Outcome { world, result: outcome },
    }
}

/// What the run that the engine is in comes to, when every request from
/// here on is answered by the world as it then is.
pub open spec fn finish(world: World, engine: EngineView) -> Outcome {
    match engine.phase {
        PhaseView::Done(outcome) => Outcome { world, result: outcome },
        _ => then(engine, pending_step(world, engine)),
    }
}

/// A bound on the number of answers that the engine still needs in the step
/// that it is in.
pub open spec fn budget(world: World, engine: EngineView) -> nat {
    match engine.phase {
        PhaseView::Frontier => 2 * (world.tips.len() + world.leaves.len()) + 8,
        PhaseView::Leaves => 2 * world.leaves.len() + 7,
        PhaseView::Tip(_) => 2 * engine.tips.len() + 6,
        PhaseView::Lookup(_) => 2 * engine.tips.len() + 5,
        PhaseView::Best(_) => 4,
        PhaseView::Capability(_) => 4,
        PhaseView::Genesis(_, _) => 3,
        PhaseView::Index(_, _) => 2,
        PhaseView::Persist(_) => 1,
        PhaseView::Done(_) => 0,
    }
}

/// Whether one exchange between the engine and the world changes nothing
/// of what the run comes to, and brings the run closer to its end.
pub open spec fn exchange_holds(world: World, engine: EngineView) -> bool {
    let served = world.serve(engine.request());
    let next = engine.resume(served.reply->Some_0);
    &&& served.reply is Some
    &&& engine.accepts(served.reply->Some_0)
    &&& finish(served.world, next) == finish(world, engine)
    &&& next.remaining < engine.remaining || (next.remaining == engine.remaining && budget(
        served.world,
        next,
    ) < budget(world, engine))
}

proof fn lemma_exchange_frontier(world: World, engine: EngineView)
    requires
        engine.phase is Frontier,
    ensures
        exchange_holds(world, engine),
{
    if world.tips.len() > 0 {
        assert(world.tips.drop_last().push(world.tips.last()) == world.tips);
    }
}

proof fn lemma_exchange_leaves(world: World, engine: EngineView)
    requires
        engine.phase is Leaves,
    ensures
        exchange_holds(world, engine),
{
    if world.leaves.len() > 0 {
        assert(world.leaves.drop_last().push(world.leaves.last()) == world.leaves);
    }
}

proof fn lemma_exchange_tip(world: World, engine: EngineView)
    requires
        engine.phase is Tip,
    ensures
        exchange_holds(world, engine),
{
    let tip = engine.phase->Tip_0;
    assert(engine.tips.push(tip).drop_last() == engine.tips);
    if engine.tips.len() > 0 {
        assert(engine.tips.drop_last().push(engine.tips.last()) == engine.tips);
    }
}

proof fn lemma_exchange_lookup(world: World, engine: EngineView)
    requires
        engine.phase is Lookup,
    ensures
        exchange_holds(world, engine),
{
    if engine.tips.len() > 0 {
        assert(engine.tips.drop_last().push(engine.tips.last()) == engine.tips);
    }
}

proof fn lemma_exchange_best(world: World, engine: EngineView)
    requires
        engine.phase is Best,
    ensures
        exchange_holds(world, engine),
{
}

proof fn lemma_exchange_genesis(world: World, engine: EngineView)
    requires
        engine.phase is Capability || engine.phase is Genesis,
    ensures
        exchange_holds(world, engine),
{
}

proof fn lemma_exchange_write(world: World, engine: EngineView)
    requires
        engine.phase is Index || engine.phase is Persist,
    ensures
        exchange_holds(world, engine),
{
}

/// One exchange between the engine and the world changes nothing of what
/// the run comes to, and brings the run closer to its end.
pub proof fn lemma_exchange(world: World, engine: EngineView)
    requires
        !(engine.phase is Done),
    ensures
        exchange_holds(world, engine),
{
    match engine.phase {
        PhaseView::Frontier => lemma_exchange_frontier(world, engine),
        PhaseView::Leaves => lemma_exchange_leaves(world, engine),
        PhaseView::Tip(_) => lemma_exchange_tip(world, engine),
        PhaseView::Lookup(_) => lemma_exchange_lookup(world, engine),
        PhaseView::Best(_) => lemma_exchange_best(world, engine),
        PhaseView::Capability(_) => lemma_exchange_genesis(world, engine),
        PhaseView::Genesis(_, _) => lemma_exchange_genesis(world, engine),
        PhaseView::Index(_, _) => lemma_exchange_write(world, engine),
        PhaseView::Persist(_) => lemma_exchange_write(world, engine),
        PhaseView::Done(_) => {},
    }
}

} // verus!
