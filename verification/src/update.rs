//! One update cycle as a state machine: which stage runs, and what each
//! completion lets happen next.

use vstd::prelude::*;

verus! {

/// Where a cycle stands.
#[derive(Clone, Copy, Debug, PartialEq, Eq, Structural)]
pub enum Stage {
    /// Nothing has run yet.
    Idle,
    /// The cleaner runs, alone.
    Cleaning,
    /// Inserter, collector and traverser run; the traverser still walks.
    Traversing,
    /// The discovery queue is closed; the collector drains it.
    Collecting,
    /// The insertion queue is closed; the inserter drains it and flushes.
    Inserting,
    /// The cycle ran through.
    Finished,
    /// The cleaner failed: the cycle ended before anything was inserted.
    Failed,
}

/// What the caller reports back.
#[derive(Clone, Copy, Debug, PartialEq, Eq, Structural)]
pub enum Event {
    Begin,
    CleanerDone { ok: bool },
    TraverserJoined { ok: bool },
    CollectorJoined { ok: bool },
    InserterJoined { ok: bool },
}

/// What the caller does next.
#[derive(Clone, Copy, Debug, PartialEq, Eq, Structural)]
pub enum Action {
    /// Run the cleaner to completion.
    RunCleaner,
    /// Start the inserter, then the collector, then the traverser.
    StartPipeline,
    /// Close the discovery queue and wait for the collector.
    CloseDiscoveryQueue,
    /// Close the insertion queue and wait for the inserter.
    CloseInsertionQueue,
    /// Report the elapsed time: the cycle is over.
    ReportElapsed,
    /// Return the cleaner's error: the cycle is over.
    Abort,
    /// The event does not belong to this stage: do nothing.
    Ignore,
}

/// One transition of a cycle.
#[derive(Clone, Copy, Debug, PartialEq, Eq, Structural)]
pub struct Step {
    pub stage: Stage,
    pub action: Action,
    /// A stage's worker ended abnormally: log it. The cycle goes on.
    pub log_error: bool,
}

/// The transition table of a cycle.
pub open spec fn step(stage: Stage, event: Event) -> Step {
    match (stage, event) {
        (Stage::Idle, Event::Begin) => Step {
            stage: Stage::Cleaning,
            action: Action::RunCleaner,
            log_error: false,
        },
        (Stage::Cleaning, Event::CleanerDone { ok }) => if ok {
            Step { stage: Stage::Traversing, action: Action::StartPipeline, log_error: false }
        } else {
            Step { stage: Stage::Failed, action: Action::Abort, log_error: false }
        },
        (Stage::Traversing, Event::TraverserJoined { ok }) => Step {
            stage: Stage::Collecting,
            action: Action::CloseDiscoveryQueue,
            log_error: !ok,
        },
        (Stage::Collecting, Event::CollectorJoined { ok }) => Step {
            stage: Stage::Inserting,
            action: Action::CloseInsertionQueue,
            log_error: !ok,
        },
        (Stage::Inserting, Event::InserterJoined { ok }) => Step {
            stage: Stage::Finished,
            action: Action::ReportElapsed,
            log_error: !ok,
        },
        _ => Step { stage, action: Action::Ignore, log_error: false },
    }
}

/// The stage that a cycle has reached after a run of events.
pub open spec fn stage_after(events: Seq<Event>) -> Stage
    decreases events.len(),
{
    if events.len() == 0 {
        Stage::Idle
    } else {
        step(stage_after(events.drop_last()), events.last()).stage
    }
}

/// Whether records may reach storage in this stage.
pub open spec fn inserts(stage: Stage) -> bool {
    stage == Stage::Traversing || stage == Stage::Collecting || stage == Stage::Inserting
}

/// The pipeline is started by one transition only: the cleaner's success.
pub proof fn lemma_pipeline_starts_after_clean(stage: Stage, event: Event)
    ensures
        step(stage, event).action == Action::StartPipeline <==> stage == Stage::Cleaning && event
            == (Event::CleanerDone { ok: true }),
        inserts(step(stage, event).stage) && !inserts(stage) ==> stage == Stage::Cleaning,
        stage == Stage::Cleaning ==> !inserts(stage),
{
}

/// Cleaning fully precedes inserting: whatever events arrive and in whatever
/// order, a cycle that inserts has seen its cleaner succeed before, and the
/// cleaner never runs again afterwards.
pub proof fn lemma_clean_precedes_insert(events: Seq<Event>)
    ensures
        inserts(stage_after(events)) || stage_after(events) == Stage::Finished ==> exists|i: int|
            0 <= i < events.len() && stage_after(#[trigger] events.take(i)) == Stage::Cleaning
                && events[i] == (Event::CleanerDone { ok: true }),
    decreases events.len(),
{
    if events.len() > 0 {
        let earlier = events.drop_last();
        let before = stage_after(earlier);
        if inserts(stage_after(events)) || stage_after(events) == Stage::Finished {
            if before == Stage::Cleaning {
                assert(events.take(events.len() - 1) =~= earlier);
            } else {
                lemma_clean_precedes_insert(earlier);
                let i = choose|i: int|
                    0 <= i < earlier.len() && stage_after(#[trigger] earlier.take(i))
                        == Stage::Cleaning && earlier[i] == (Event::CleanerDone { ok: true });
                assert(events.take(i) =~= earlier.take(i));
            }
        }
    }
}

/// A cycle that is driven in order runs each stage once and ends.
pub proof fn lemma_cycle_in_order(traverser: bool, collector: bool, inserter: bool)
    ensures
        stage_after(
            seq![
                Event::Begin,
                Event::CleanerDone { ok: true },
                Event::TraverserJoined { ok: traverser },
                Event::CollectorJoined { ok: collector },
                Event::InserterJoined { ok: inserter },
            ],
        ) == Stage::Finished,
{
    let events = seq![
        Event::Begin,
        Event::CleanerDone { ok: true },
        Event::TraverserJoined { ok: traverser },
        Event::CollectorJoined { ok: collector },
        Event::InserterJoined { ok: inserter },
    ];
    assert(events.take(4) =~= events.drop_last());
    assert(events.take(3) =~= events.take(4).drop_last());
    assert(events.take(2) =~= events.take(3).drop_last());
    assert(events.take(1) =~= events.take(2).drop_last());
    assert(events.take(0) =~= events.take(1).drop_last());
    assert(stage_after(events.take(0)) == Stage::Idle);
    assert(stage_after(events.take(1)) == Stage::Cleaning);
    assert(stage_after(events.take(2)) == Stage::Traversing);
    assert(stage_after(events.take(3)) == Stage::Collecting);
    assert(stage_after(events.take(4)) == Stage::Inserting);
}

impl crate::index::Index {
    /// Advances a cycle by one event: the next stage, and what to do now.
    pub fn update(&self, stage: Stage, event: Event) -> (next: Step)
        ensures
            next == step(stage, event),
    {
        match (stage, event) {
            (Stage::Idle, Event::Begin) => Step {
                stage: Stage::Cleaning,
                action: Action::RunCleaner,
                log_error: false,
            },
            (Stage::Cleaning, Event::CleanerDone { ok: true }) => Step {
                stage: Stage::Traversing,
                action: Action::StartPipeline,
                log_error: false,
            },
            (Stage::Cleaning, Event::CleanerDone { ok: false }) => Step {
                stage: Stage::Failed,
                action: Action::Abort,
                log_error: false,
            },
            (Stage::Traversing, Event::TraverserJoined { ok }) => Step {
                stage: Stage::Collecting,
                action: Action::CloseDiscoveryQueue,
                log_error: !ok,
            },
            (Stage::Collecting, Event::CollectorJoined { ok }) => Step {
                stage: Stage::Inserting,
                action: Action::CloseInsertionQueue,
                log_error: !ok,
            },
            (Stage::Inserting, Event::InserterJoined { ok }) => Step {
                stage: Stage::Finished,
                action: Action::ReportElapsed,
                log_error: !ok,
            },
            _ => Step { stage, action: Action::Ignore, log_error: false },
        }
    }
}

} // verus!
