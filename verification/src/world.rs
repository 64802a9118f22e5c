//! What the protocol achieves, against a model of what it acts on.
//!
//! The model is a store with transactions and a filesystem without: opening
//! a transaction saves the rows, a rollback brings the saved rows back, a
//! statement that fails changes no row, and a change to the filesystem that
//! fails changes no file. Of such a world it is proved here that an
//! operation takes effect as a whole or leaves the store as it was.

use vstd::prelude::*;

use crate::database::StatementView;
use crate::error::VaultError;
use crate::vault::{
    after, due, fresh, lemma_on_course, ActionView, Event, FileStepView, Phase, TransactionView,
};

verus! {

/// The store and the filesystem. The rows of the store are of any kind `S`.
pub struct World<S> {
    /// The rows of the store.
    pub store: S,
    /// The rows as they were when the transaction was opened.
    pub saved: S,
    /// The files, by their paths.
    pub disk: Map<Seq<char>, Seq<u8>>,
    /// The number of changes made to the filesystem.
    pub touched: nat,
}

/// The world after an action was performed and an event came of it. What a
/// statement does to the rows when it is executed is given by `effect`.
pub open spec fn perform<S>(
    world: World<S>,
    effect: spec_fn(S, StatementView) -> S,
    action: ActionView,
    event: Event,
) -> World<S> {
    match action {
        ActionView::Begin => if event == Event::Done {
            World { saved: world.store, ..world }
        } else {
            world
        },
        ActionView::Execute(statement) => if event is Changed {
            World { store: effect(world.store, statement), ..world }
        } else {
            world
        },
        ActionView::RemoveFile(path) => if event == Event::Done || event == Event::Missing {
            World { disk: world.disk.remove(path), touched: world.touched + 1, ..world }
        } else {
            world
        },
        ActionView::WriteFile(path, content) => if event == Event::Done {
            World { disk: world.disk.insert(path, content), touched: world.touched + 1, ..world }
        } else {
            world
        },
        ActionView::Rollback => if event == Event::Done {
            World { store: world.saved, ..world }
        } else {
            world
        },
        ActionView::Commit => world,
        ActionView::Finish(_) => world,
    }
}

/// The world after a run of events, each the outcome of the action that was
/// due when it came.
pub open spec fn world_after<S>(
    t: TransactionView,
    world: World<S>,
    effect: spec_fn(S, StatementView) -> S,
    events: Seq<Event>,
) -> World<S>
    decreases events.len(),
{
    if events.len() == 0 {
        world
    } else {
        perform(
            world_after(t, world, effect, events.drop_last()),
            effect,
            due(after(t, events.drop_last())),
            events.last(),
        )
    }
}

/// The rows after the first `n` changes to the store.
pub open spec fn stored<S>(
    t: TransactionView,
    rows: S,
    effect: spec_fn(S, StatementView) -> S,
    n: int,
) -> S
    decreases n,
{
    if n <= 0 {
        rows
    } else {
        effect(stored(t, rows, effect, n - 1), t.store[n - 1].statement)
    }
}

/// The files after the first `n` changes to the filesystem.
pub open spec fn filed(t: TransactionView, disk: Map<Seq<char>, Seq<u8>>, n: int) -> Map<
    Seq<char>,
    Seq<u8>,
>
    decreases n,
{
    if n <= 0 {
        disk
    } else {
        match t.files[n - 1] {
            FileStepView::Remove(path) => filed(t, disk, n - 1).remove(path),
            FileStepView::Write(path, content) => filed(t, disk, n - 1).insert(path, content),
        }
    }
}

/// What holds of the world after any run of events, by the phase that the
/// transaction is in.
pub open spec fn in_step<S>(
    t: TransactionView,
    world: World<S>,
    effect: spec_fn(S, StatementView) -> S,
    events: Seq<Event>,
) -> bool {
    let now = world_after(t, world, effect, events);
    let made = now.touched - world.touched;
    &&& 0 <= made <= t.files.len()
    &&& now.disk == filed(t, world.disk, made)
    &&& match after(t, events).phase {
        Phase::Beginning => now == world,
        Phase::Store(i) => now.saved == world.store && made == 0 && now.store == stored(
            t,
            world.store,
            effect,
            i as int,
        ),
        Phase::Files(j) => now.saved == world.store && made == j && now.store == stored(
            t,
            world.store,
            effect,
            t.store.len() as int,
        ),
        Phase::Committing => made == t.files.len() && now.store == stored(
            t,
            world.store,
            effect,
            t.store.len() as int,
        ),
        Phase::RollingBack(err) => now.saved == world.store && (err == VaultError::NotFound || err
            == VaultError::ConstraintViolation ==> made == 0),
        Phase::Succeeded => made == t.files.len() && now.store == stored(
            t,
            world.store,
            effect,
            t.store.len() as int,
        ),
        Phase::Failed(err) => {
            &&& err != VaultError::TransactionFailure ==> now.store == world.store
            &&& err == VaultError::NotFound || err == VaultError::ConstraintViolation ==> made
                == 0
        },
    }
}

/// Every run of events keeps the world in step with the transaction.
pub proof fn lemma_in_step<S>(
    t: TransactionView,
    world: World<S>,
    effect: spec_fn(S, StatementView) -> S,
    events: Seq<Event>,
)
    requires
        fresh(t),
    ensures
        in_step(t, world, effect, events),
    decreases events.len(),
{
    if events.len() > 0 {
        let earlier = events.drop_last();
        lemma_in_step(t, world, effect, earlier);
        lemma_on_course(t, earlier);
        lemma_on_course(t, events);
        let before = after(t, earlier);
        let was = world_after(t, world, effect, earlier);
        let now = world_after(t, world, effect, events);
        assert(now == perform(was, effect, due(before), events.last()));
        assert(before.store == t.store && before.files == t.files);
    }
}

/// An operation that succeeds has taken effect as a whole: every change to
/// the store was made, in order, and every change to the filesystem.
pub proof fn lemma_success_is_whole<S>(
    t: TransactionView,
    world: World<S>,
    effect: spec_fn(S, StatementView) -> S,
    events: Seq<Event>,
)
    requires
        fresh(t),
        after(t, events).phase is Succeeded,
    ensures
        world_after(t, world, effect, events).store == stored(
            t,
            world.store,
            effect,
            t.store.len() as int,
        ),
        world_after(t, world, effect, events).disk == filed(t, world.disk, t.files.len() as int),
{
    lemma_in_step(t, world, effect, events);
}

/// An operation that fails leaves the store as it was before, unless the
/// rollback or the commit itself failed. Where it fails because no row
/// matched or a constraint forbade a row, the filesystem is as it was
/// before too; in any case only changes of the operation were made to it,
/// the first of them.
pub proof fn lemma_failure_changes_nothing<S>(
    t: TransactionView,
    world: World<S>,
    effect: spec_fn(S, StatementView) -> S,
    events: Seq<Event>,
)
    requires
        fresh(t),
        after(t, events).phase is Failed,
        after(t, events).phase != Phase::Failed(VaultError::TransactionFailure),
    ensures
        world_after(t, world, effect, events).store == world.store,
        after(t, events).phase == Phase::Failed(VaultError::NotFound) || after(t, events).phase
            == Phase::Failed(VaultError::ConstraintViolation) ==> world_after(
            t,
            world,
            effect,
            events,
        ).disk == world.disk,
        exists|made: int|
            0 <= made <= t.files.len() && world_after(t, world, effect, events).disk == #[trigger] filed(
                t,
                world.disk,
                made,
            ),
{
    lemma_in_step(t, world, effect, events);
    let now = world_after(t, world, effect, events);
    let made = now.touched - world.touched;
    assert(now.disk == filed(t, world.disk, made));
}

} // verus!
