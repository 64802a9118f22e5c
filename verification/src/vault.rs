//! The vault's operations, and the protocol that keeps the store and the
//! filesystem in step.
//!
//! The store has transactions, the filesystem has none. An operation that
//! changes both therefore changes the store first, inside a transaction,
//! which can be undone; then the filesystem, which cannot; and commits only
//! when both have succeeded. A failure on the way rolls the store back.
//!
//! The protocol is a state machine. It names the action that is due, the
//! caller performs it and reports what came of it, and the machine moves on.
//! It guards against the failure of an action, not against a crash between
//! the last change to the filesystem and the commit.

use vstd::prelude::*;

use crate::account::{registers, unlock_spec, Account, UnlockedAccount};
use crate::codec::encoded_text;
use crate::credential::{credential_of, fits, nonces_of, Credential, Secrets};
use crate::database::{
    bound_key, delete_entry, entity_row, entity_table, failure_error, insert_entry, row_account,
    select_all, select_entry, select_owned, texts, Entity, EntityView, Failure, Fetched,
    KeyPart, Statement, StatementView, Table,
};
use crate::encrypted::{opened, sealed, Aes256Key, Encrypted, PLAINTEXT_MAX};
use crate::error::VaultError;
use crate::file_data::FileData;

verus! {

/// A change to the store, inside the transaction.
#[derive(Debug, Clone, PartialEq, Eq)]
pub struct Mutation {
    /// The statement to execute.
    pub statement: Statement,
    /// Whether a statement that changes no row has failed, with `NotFound`.
    pub must_change: bool,
}

/// What a change to the store holds.
pub struct MutationView {
    /// The statement to execute.
    pub statement: StatementView,
    /// Whether a statement that changes no row has failed.
    pub must_change: bool,
}

impl View for Mutation {
    type V = MutationView;

    open spec fn view(&self) -> MutationView {
        MutationView { statement: self.statement@, must_change: self.must_change }
    }
}

/// A change to the filesystem.
#[derive(Debug, Clone, PartialEq, Eq)]
pub enum FileStep {
    /// Remove the file at a path. A file that is not there counts as removed.
    Remove(String),
    /// Create the file at a path, with the given content.
    Write(String, Vec<u8>),
}

/// What a change to the filesystem holds.
pub enum FileStepView {
    /// Remove the file at a path.
    Remove(Seq<char>),
    /// Create the file at a path, with the given content.
    Write(Seq<char>, Seq<u8>),
}

impl View for FileStep {
    type V = FileStepView;

    open spec fn view(&self) -> FileStepView {
        match self {
            FileStep::Remove(path) => FileStepView::Remove(path@),
            FileStep::Write(path, content) => FileStepView::Write(path@, content@),
        }
    }
}

/// The changes of a list of changes to the store.
pub open spec fn mutations(list: Seq<Mutation>) -> Seq<MutationView> {
    Seq::new(list.len(), |i: int| list[i]@)
}

/// The changes of a list of changes to the filesystem.
pub open spec fn file_steps(list: Seq<FileStep>) -> Seq<FileStepView> {
    Seq::new(list.len(), |i: int| list[i]@)
}

/// What the caller is to do next.
#[derive(Debug, Clone, Copy, PartialEq, Eq)]
pub enum Action<'a> {
    /// Open a transaction on the store.
    Begin,
    /// Execute a statement inside the transaction.
    Execute(&'a Statement),
    /// Remove the file at a path.
    RemoveFile(&'a str),
    /// Create the file at a path, with the given content.
    WriteFile(&'a str, &'a [u8]),
    /// Roll the transaction back.
    Rollback,
    /// Commit the transaction.
    Commit,
    /// Nothing more: the operation has ended, with this result.
    Finish(Result<(), VaultError>),
}

/// What an action holds.
pub enum ActionView {
    /// Open a transaction on the store.
    Begin,
    /// Execute a statement inside the transaction.
    Execute(StatementView),
    /// Remove the file at a path.
    RemoveFile(Seq<char>),
    /// Create the file at a path, with the given content.
    WriteFile(Seq<char>, Seq<u8>),
    /// Roll the transaction back.
    Rollback,
    /// Commit the transaction.
    Commit,
    /// Nothing more: the operation has ended, with this result.
    Finish(Result<(), VaultError>),
}

impl<'a> View for Action<'a> {
    type V = ActionView;

    open spec fn view(&self) -> ActionView {
        match self {
            Action::Begin => ActionView::Begin,
            Action::Execute(statement) => ActionView::Execute(statement@),
            Action::RemoveFile(path) => ActionView::RemoveFile(path@),
            Action::WriteFile(path, content) => ActionView::WriteFile(path@, content@),
            Action::Rollback => ActionView::Rollback,
            Action::Commit => ActionView::Commit,
            Action::Finish(result) => ActionView::Finish(*result),
        }
    }
}

/// What came of the action that was due.
#[derive(Clone, Copy, Debug, PartialEq, Eq, Structural)]
pub enum Event {
    /// It was done: the transaction was opened, committed or rolled back,
    /// or the file was removed or written.
    Done,
    /// The statement was executed, and changed this many rows.
    Changed(usize),
    /// The file to remove was not there.
    Missing,
    /// It failed.
    Failed(Failure),
}

/// Where a transaction stands: which action is due, or how it ended.
#[derive(Clone, Copy, Debug, PartialEq, Eq, Structural)]
pub enum Phase {
    /// The transaction is to be opened.
    Beginning,
    /// The change to the store of this index is due.
    Store(usize),
    /// The change to the filesystem of this index is due.
    Files(usize),
    /// All changes are made; the commit is due.
    Committing,
    /// A change failed with this error; the rollback is due.
    RollingBack(VaultError),
    /// The transaction was committed: the operation succeeded.
    Succeeded,
    /// The operation failed with this error. The store is as it was before,
    /// unless the error is `TransactionFailure`.
    Failed(VaultError),
}

/// What a transaction holds.
pub struct TransactionView {
    /// The changes to the store, in their order.
    pub store: Seq<MutationView>,
    /// The changes to the filesystem, in their order.
    pub files: Seq<FileStepView>,
    /// Where the transaction stands.
    pub phase: Phase,
}

/// Whether the phase of a transaction points at one of its changes.
pub open spec fn well_formed(t: TransactionView) -> bool {
    &&& t.store.len() <= usize::MAX
    &&& t.files.len() <= usize::MAX
    &&& match t.phase {
        Phase::Store(i) => i < t.store.len(),
        Phase::Files(j) => j < t.files.len(),
        _ => true,
    }
}

/// The phase in which the changes to the filesystem from index `j` on are
/// made: the next of them, or the commit where none is left.
pub open spec fn files_from(t: TransactionView, j: int) -> Phase {
    if 0 <= j < t.files.len() && j <= usize::MAX {
        Phase::Files(j as usize)
    } else {
        Phase::Committing
    }
}

/// The phase in which the changes to the store from index `i` on are made:
/// the next of them, or the changes to the filesystem where none is left.
pub open spec fn store_from(t: TransactionView, i: int) -> Phase {
    if 0 <= i < t.store.len() && i <= usize::MAX {
        Phase::Store(i as usize)
    } else {
        files_from(t, 0)
    }
}

/// Whether an event tells that the change to the store of index `i` was
/// made: the statement ran, and changed a row where it had to.
pub open spec fn store_succeeded(t: TransactionView, i: int, event: Event) -> bool {
    event matches Event::Changed(rows) && !(t.store[i].must_change && rows == 0)
}

/// Whether an event tells that the change to the filesystem of index `j`
/// was made. A file to remove that was not there counts as removed.
pub open spec fn file_succeeded(t: TransactionView, j: int, event: Event) -> bool {
    event == Event::Done || (event == Event::Missing && t.files[j] is Remove)
}

/// The error with which a change to the store has failed.
pub open spec fn store_error(event: Event) -> VaultError {
    match event {
        Event::Changed(_) => VaultError::NotFound,
        Event::Failed(failure) => failure_error(failure),
        _ => VaultError::IOFailure,
    }
}

/// The phase that follows on an event.
pub open spec fn transition(t: TransactionView, event: Event) -> Phase {
    match t.phase {
        Phase::Beginning => if event == Event::Done {
            store_from(t, 0)
        } else {
            Phase::Failed(VaultError::TransactionFailure)
        },
        Phase::Store(i) => if store_succeeded(t, i as int, event) {
            store_from(t, i + 1)
        } else {
            Phase::RollingBack(store_error(event))
        },
        Phase::Files(j) => if file_succeeded(t, j as int, event) {
            files_from(t, j + 1)
        } else {
            Phase::RollingBack(VaultError::IOFailure)
        },
        Phase::Committing => if event == Event::Done {
            Phase::Succeeded
        } else {
            Phase::Failed(VaultError::TransactionFailure)
        },
        Phase::RollingBack(err) => if event == Event::Done {
            Phase::Failed(err)
        } else {
            Phase::Failed(VaultError::TransactionFailure)
        },
        Phase::Succeeded => Phase::Succeeded,
        Phase::Failed(err) => Phase::Failed(err),
    }
}

/// The action that is due in a phase.
pub open spec fn due(t: TransactionView) -> ActionView {
    match t.phase {
        Phase::Beginning => ActionView::Begin,
        Phase::Store(i) => ActionView::Execute(t.store[i as int].statement),
        Phase::Files(j) => match t.files[j as int] {
            FileStepView::Remove(path) => ActionView::RemoveFile(path),
            FileStepView::Write(path, content) => ActionView::WriteFile(path, content),
        },
        Phase::Committing => ActionView::Commit,
        Phase::RollingBack(_) => ActionView::Rollback,
        Phase::Succeeded => ActionView::Finish(Ok(())),
        Phase::Failed(err) => ActionView::Finish(Err(err)),
    }
}

/// An operation on the store and the filesystem that is carried out as one.
///
/// A transaction is driven by one caller, on one connection to the store:
/// it moves on through `&mut self`, and nothing in it is shared.
#[derive(Debug)]
pub struct Transaction {
    store: Vec<Mutation>,
    files: Vec<FileStep>,
    phase: Phase,
}

impl View for Transaction {
    type V = TransactionView;

    closed spec fn view(&self) -> TransactionView {
        TransactionView {
            store: mutations(self.store@),
            files: file_steps(self.files@),
            phase: self.phase,
        }
    }
}

impl Transaction {
    #[verifier::type_invariant]
    spec fn in_range(self) -> bool {
        match self.phase {
            Phase::Store(i) => i < self.store@.len(),
            Phase::Files(j) => j < self.files@.len(),
            _ => true,
        }
    }

    /// A transaction of the given changes, about to begin.
    pub fn new(store: Vec<Mutation>, files: Vec<FileStep>) -> (transaction: Transaction)
        ensures
            transaction@ == (TransactionView {
                store: mutations(store@),
                files: file_steps(files@),
                phase: Phase::Beginning,
            }),
    {
        Transaction { store, files, phase: Phase::Beginning }
    }

    /// Where the transaction stands.
    pub fn phase(&self) -> (phase: Phase)
        ensures
            phase == self@.phase,
            well_formed(self@),
    {
        proof {
            use_type_invariant(self);
        }
        assert(self.store@.len() <= usize::MAX && self.files@.len() <= usize::MAX) by {
            assert(self.store.len() <= usize::MAX && self.files.len() <= usize::MAX);
        }
        self.phase
    }

    /// The result of the operation, once it has ended.
    pub fn result(&self) -> (result: Option<Result<(), VaultError>>)
        ensures
            result == match self@.phase {
                Phase::Succeeded => Some(Ok::<(), VaultError>(())),
                Phase::Failed(err) => Some(Err::<(), VaultError>(err)),
                _ => None::<Result<(), VaultError>>,
            },
    {
        match self.phase {
            Phase::Succeeded => Some(Ok(())),
            Phase::Failed(err) => Some(Err(err)),
            _ => None,
        }
    }

    /// The action that is due.
    pub fn pending(&self) -> (action: Action<'_>)
        ensures
            action@ == due(self@),
    {
        proof {
            use_type_invariant(self);
        }
        match self.phase {
            Phase::Beginning => Action::Begin,
            Phase::Store(i) => Action::Execute(&self.store[i].statement),
            Phase::Files(j) => match &self.files[j] {
                FileStep::Remove(path) => Action::RemoveFile(path.as_str()),
                FileStep::Write(path, content) => Action::WriteFile(
                    path.as_str(),
                    content.as_slice(),
                ),
            },
            Phase::Committing => Action::Commit,
            Phase::RollingBack(_) => Action::Rollback,
            Phase::Succeeded => Action::Finish(Ok(())),
            Phase::Failed(err) => Action::Finish(Err(err)),
        }
    }

    /// Takes note of what came of the action that was due, and moves on to
    /// the next.
    pub fn step(&mut self, event: Event)
        ensures
            final(self)@ == (TransactionView {
                phase: transition(old(self)@, event),
                ..old(self)@
            }),
    {
        proof {
            use_type_invariant(&*self);
        }
        assert(self.store@.len() <= usize::MAX && self.files@.len() <= usize::MAX) by {
            assert(self.store.len() <= usize::MAX && self.files.len() <= usize::MAX);
        }
        let next: Phase = match self.phase {
            Phase::Beginning => match event {
                Event::Done => self.store_phase(0),
                _ => Phase::Failed(VaultError::TransactionFailure),
            },
            Phase::Store(i) => match event {
                Event::Changed(rows) => if self.store[i].must_change && rows == 0 {
                    Phase::RollingBack(VaultError::NotFound)
                } else {
                    self.store_phase(i + 1)
                },
                Event::Failed(failure) => Phase::RollingBack(failure.error()),
                _ => Phase::RollingBack(VaultError::IOFailure),
            },
            Phase::Files(j) => match event {
                Event::Done => self.files_phase(j + 1),
                Event::Missing => match &self.files[j] {
                    FileStep::Remove(_) => self.files_phase(j + 1),
                    FileStep::Write(_, _) => Phase::RollingBack(VaultError::IOFailure),
                },
                _ => Phase::RollingBack(VaultError::IOFailure),
            },
            Phase::Committing => match event {
                Event::Done => Phase::Succeeded,
                _ => Phase::Failed(VaultError::TransactionFailure),
            },
            Phase::RollingBack(err) => match event {
                Event::Done => Phase::Failed(err),
                _ => Phase::Failed(VaultError::TransactionFailure),
            },
            Phase::Succeeded => Phase::Succeeded,
            Phase::Failed(err) => Phase::Failed(err),
        };
        self.phase = next;
    }

    /// The phase in which the changes to the store from index `i` on are
    /// made.
    fn store_phase(&self, i: usize) -> (phase: Phase)
        ensures
            phase == store_from(self@, i as int),
            match phase {
                Phase::Store(k) => k < self.store@.len(),
                Phase::Files(k) => k < self.files@.len(),
                _ => true,
            },
    {
        if i < self.store.len() {
            Phase::Store(i)
        } else {
            self.files_phase(0)
        }
    }

    /// The phase in which the changes to the filesystem from index `j` on
    /// are made.
    fn files_phase(&self, j: usize) -> (phase: Phase)
        ensures
            phase == files_from(self@, j as int),
            match phase {
                Phase::Store(k) => k < self.store@.len(),
                Phase::Files(k) => k < self.files@.len(),
                _ => true,
            },
    {
        if j < self.files.len() {
            Phase::Files(j)
        } else {
            Phase::Committing
        }
    }
}

/// A transaction as it is after a run of events.
pub open spec fn after(t: TransactionView, events: Seq<Event>) -> TransactionView
    decreases events.len(),
{
    if events.len() == 0 {
        t
    } else {
        let before = after(t, events.drop_last());
        TransactionView { phase: transition(before, events.last()), ..before }
    }
}

/// Whether a run of events tells that the transaction was opened and the
/// first `n` changes to the store were made.
pub open spec fn store_done(t: TransactionView, events: Seq<Event>, n: int) -> bool {
    &&& events.len() >= 1 + n
    &&& events[0] == Event::Done
    &&& forall|k: int| 1 <= k < 1 + n ==> store_succeeded(t, k - 1, #[trigger] events[k])
}

/// Whether a run of events tells that all changes to the store and the
/// first `n` changes to the filesystem were made.
pub open spec fn files_done(t: TransactionView, events: Seq<Event>, n: int) -> bool {
    &&& store_done(t, events, t.store.len() as int)
    &&& events.len() >= 1 + t.store.len() + n
    &&& forall|k: int|
        1 + t.store.len() <= k < 1 + t.store.len() + n ==> file_succeeded(
            t,
            k - 1 - t.store.len(),
            #[trigger] events[k],
        )
}

/// A transaction that is about to begin.
pub open spec fn fresh(t: TransactionView) -> bool {
    well_formed(t) && t.phase == Phase::Beginning
}

/// What holds of a transaction after any run of events: each phase tells
/// how far the run has come.
pub open spec fn on_course(t: TransactionView, events: Seq<Event>) -> bool {
    let now = after(t, events);
    &&& now.store == t.store
    &&& now.files == t.files
    &&& match now.phase {
        Phase::Beginning => events.len() == 0,
        Phase::Store(i) => i < t.store.len() && events.len() == 1 + i && store_done(
            t,
            events,
            i as int,
        ),
        Phase::Files(j) => j < t.files.len() && events.len() == 1 + t.store.len() + j
            && files_done(t, events, j as int),
        Phase::Committing => events.len() == 1 + t.store.len() + t.files.len() && files_done(
            t,
            events,
            t.files.len() as int,
        ),
        Phase::RollingBack(err) => 2 <= events.len() <= 1 + t.store.len() + t.files.len() && err
            != VaultError::TransactionFailure,
        Phase::Succeeded => events.len() >= 2 + t.store.len() + t.files.len() && files_done(
            t,
            events,
            t.files.len() as int,
        ) && events[1 + t.store.len() as int + t.files.len() as int] == Event::Done,
        Phase::Failed(_) => 1 <= events.len(),
    }
}

/// Every run of events keeps a transaction on course.
pub proof fn lemma_on_course(t: TransactionView, events: Seq<Event>)
    requires
        fresh(t),
    ensures
        on_course(t, events),
        well_formed(after(t, events)),
        events.len() >= 2 + t.store.len() + t.files.len() ==> after(t, events).phase is Succeeded
            || after(t, events).phase is Failed,
    decreases events.len(),
{
    if events.len() > 0 {
        let earlier = events.drop_last();
        let event = events.last();
        lemma_on_course(t, earlier);
        let before = after(t, earlier);
        let now = after(t, events);
        assert(forall|k: int| 0 <= k < earlier.len() ==> earlier[k] == events[k]);
        match before.phase {
            Phase::Beginning => {},
            Phase::Store(i) => {
                if store_succeeded(before, i as int, event) {
                    assert(store_done(t, events, i + 1)) by {
                        assert forall|k: int| 1 <= k < 2 + i implies store_succeeded(
                            t,
                            k - 1,
                            #[trigger] events[k],
                        ) by {
                            if k < 1 + i {
                                assert(events[k] == earlier[k]);
                            }
                        }
                    }
                }
            },
            Phase::Files(j) => {
                if file_succeeded(before, j as int, event) {
                    assert(files_done(t, events, j + 1)) by {
                        assert forall|k: int|
                            1 + t.store.len() <= k < 2 + t.store.len() + j implies file_succeeded(
                            t,
                            k - 1 - t.store.len(),
                            #[trigger] events[k],
                        ) by {
                            if k < 1 + t.store.len() + j {
                                assert(events[k] == earlier[k]);
                            }
                        }
                    }
                }
            },
            Phase::Committing => {},
            Phase::RollingBack(_) => {},
            Phase::Succeeded => {},
            Phase::Failed(_) => {},
        }
    }
}

/// The filesystem is touched only after the store has been changed: at
/// whatever point of whatever run a change to the filesystem is due, the
/// transaction was opened and every change to the store was made. So where
/// a change to the store fails, the filesystem is never touched.
pub proof fn lemma_filesystem_waits_for_store(t: TransactionView, events: Seq<Event>, k: int)
    requires
        fresh(t),
        0 <= k <= events.len(),
        after(t, events.take(k)).phase is Files,
    ensures
        store_done(t, events, t.store.len() as int),
{
    lemma_on_course(t, events.take(k));
    assert(forall|i: int| 0 <= i < k ==> events.take(k)[i] == events[i]);
}

/// The transaction is committed only after all is done: where the commit is
/// due, or the operation has succeeded, the transaction was opened and every
/// change to the store and to the filesystem was made.
pub proof fn lemma_commit_waits_for_all(t: TransactionView, events: Seq<Event>, k: int)
    requires
        fresh(t),
        0 <= k <= events.len(),
        after(t, events.take(k)).phase is Committing || after(t, events.take(k)).phase
            is Succeeded,
    ensures
        files_done(t, events, t.files.len() as int),
{
    lemma_on_course(t, events.take(k));
    assert(forall|i: int| 0 <= i < k ==> events.take(k)[i] == events[i]);
}

/// A change that fails is followed by the rollback and by nothing else, and
/// the rollback by the end of the operation, with the error of the change.
/// A rollback or a commit that fails ends it with `TransactionFailure`.
pub proof fn lemma_failure_rolls_back(t: TransactionView, event: Event, outcome: Event)
    requires
        well_formed(t),
    ensures
        t.phase matches Phase::Store(i) && !store_succeeded(t, i as int, event) ==> transition(
            t,
            event,
        ) == Phase::RollingBack(store_error(event)),
        t.phase matches Phase::Files(j) && !file_succeeded(t, j as int, event) ==> transition(
            t,
            event,
        ) == Phase::RollingBack(VaultError::IOFailure),
        t.phase matches Phase::RollingBack(err) ==> due(t) == ActionView::Rollback && transition(
            t,
            outcome,
        ) == Phase::Failed(
            if outcome == Event::Done {
                err
            } else {
                VaultError::TransactionFailure
            },
        ),
        t.phase is Committing && outcome != Event::Done ==> transition(t, outcome)
            == Phase::Failed(VaultError::TransactionFailure),
{
}

/// An insert that the store rejects leaves nothing behind: where the store
/// reports that a constraint forbids the row, because its owner is missing
/// or its key is taken, the rollback is due next, no file is written, and
/// the operation ends with `ConstraintViolation`.
pub proof fn lemma_rejected_insert(entity: EntityView, files: Seq<FileStepView>)
    requires
        files.len() <= usize::MAX,
    ensures
        ({
            let t = insertion(entity, files);
            let rejected = after(t, seq![Event::Done, Event::Failed(Failure::Constraint)]);
            let ended = after(
                t,
                seq![Event::Done, Event::Failed(Failure::Constraint), Event::Done],
            );
            &&& due(t) == ActionView::Begin
            &&& due(after(t, seq![Event::Done])) == ActionView::Execute(t.store[0].statement)
            &&& due(rejected) == ActionView::Rollback
            &&& due(ended) == ActionView::Finish(Err(VaultError::ConstraintViolation))
        }),
{
    let t = insertion(entity, files);
    let e1 = seq![Event::Done];
    let e2 = seq![Event::Done, Event::Failed(Failure::Constraint)];
    let e3 = seq![Event::Done, Event::Failed(Failure::Constraint), Event::Done];
    assert(e1.drop_last() =~= Seq::<Event>::empty());
    assert(e2.drop_last() =~= e1);
    assert(e3.drop_last() =~= e2);
    assert(after(t, Seq::<Event>::empty()) == t);
    assert(after(t, e1).phase == Phase::Store(0));
    assert(after(t, e2).phase == Phase::RollingBack(VaultError::ConstraintViolation));
    assert(after(t, e3).phase == Phase::Failed(VaultError::ConstraintViolation));
}

/// Every operation ends: after the opening, one event for each change, and
/// one more, no action is due but the last.
pub proof fn lemma_ends(t: TransactionView, events: Seq<Event>)
    requires
        fresh(t),
        events.len() >= 2 + t.store.len() + t.files.len(),
    ensures
        due(after(t, events)) is Finish,
{
    lemma_on_course(t, events);
}

/// An operation succeeds on one kind of run only: the transaction was
/// opened, every change was made, and the commit was done.
pub proof fn lemma_success_is_complete(t: TransactionView, events: Seq<Event>)
    requires
        fresh(t),
        after(t, events).phase is Succeeded,
    ensures
        events.len() >= 2 + t.store.len() + t.files.len(),
        files_done(t, events, t.files.len() as int),
        events[1 + t.store.len() as int + t.files.len() as int] == Event::Done,
{
    lemma_on_course(t, events);
}

/// The transaction that inserts a record and makes the given changes to
/// the filesystem.
pub open spec fn insertion(entity: EntityView, files: Seq<FileStepView>) -> TransactionView {
    TransactionView {
        store: seq![
            MutationView {
                statement: StatementView {
                    sql: Table::insert_sql(entity_table(entity))@,
                    params: entity_row(entity),
                },
                must_change: false,
            },
        ],
        files,
        phase: Phase::Beginning,
    }
}

/// The transaction that deletes the row of a key, which has to be there,
/// and makes the given changes to the filesystem.
pub open spec fn deletion(table: Table, key: Seq<Seq<char>>, files: Seq<FileStepView>) -> TransactionView {
    TransactionView {
        store: seq![
            MutationView {
                statement: StatementView { sql: Table::delete_sql(table)@, params: key },
                must_change: true,
            },
        ],
        files,
        phase: Phase::Beginning,
    }
}

/// Inserts a record and changes the filesystem, as one operation: the
/// filesystem is changed only when the store has taken the record, and the
/// record stays only when the filesystem was changed.
pub fn transaction_insert(entity: &Entity, files: Vec<FileStep>) -> (transaction: Transaction)
    ensures
        transaction@ == insertion(entity@, file_steps(files@)),
{
    let mut store: Vec<Mutation> = Vec::new();
    store.push(Mutation { statement: insert_entry(entity), must_change: false });
    assert(mutations(store@) =~= insertion(entity@, file_steps(files@)).store);
    Transaction::new(store, files)
}

/// Deletes the row of a key and changes the filesystem, as one operation:
/// the filesystem is changed only when the row was deleted, and the row
/// stays deleted only when the filesystem was changed. Fails with
/// `NotFound`, and changes nothing, where no row has the key.
pub fn transaction_delete(table: Table, key: &Vec<KeyPart>, files: Vec<FileStep>) -> (transaction:
    Transaction)
    ensures
        transaction@ == deletion(table, bound_key(key@), file_steps(files@)),
{
    let mut store: Vec<Mutation> = Vec::new();
    store.push(Mutation { statement: delete_entry(table, key), must_change: true });
    assert(mutations(store@) =~= deletion(table, bound_key(key@), file_steps(files@)).store);
    Transaction::new(store, files)
}

/// The paths of the records of files, each to be removed.
pub open spec fn removals(files: Seq<FileData>) -> Seq<FileStepView> {
    Seq::new(files.len(), |i: int| FileStepView::Remove(files[i]@.path))
}

/// What loading and unlocking an account gives, by what the store answered
/// to the select of the account.
pub open spec fn unlocked(fetched: Fetched, password: Seq<char>) -> Result<
    (Seq<char>, Seq<u8>),
    VaultError,
> {
    match fetched {
        Fetched::Row(row) => match row_account(texts(row@)) {
            Some(account) => match unlock_spec(account, password) {
                Ok(key) => Ok((account.username, key)),
                Err(err) => Err(err),
            },
            None => Err(VaultError::CorruptRow),
        },
        Fetched::NoRows => Err(VaultError::NotFound),
        Fetched::Failed(failure) => Err(failure_error(failure)),
    }
}

/// The vault: the operations on accounts, credentials and files, over a
/// store and a directory of encrypted files.
#[derive(Debug, Clone, PartialEq, Eq)]
pub struct Vault {
    data_dir: String,
}

impl View for Vault {
    type V = Seq<char>;

    closed spec fn view(&self) -> Seq<char> {
        self.data_dir@
    }
}

impl Vault {
    /// A vault whose encrypted files are in the given directory.
    pub fn connect(data_dir: &str) -> (vault: Vault)
        ensures
            vault@ == data_dir@,
    {
        Vault { data_dir: data_dir.to_owned() }
    }

    /// The directory of the encrypted files.
    pub fn data_dir(&self) -> (data_dir: &str)
        ensures
            data_dir@ == self@,
    {
        self.data_dir.as_str()
    }

    /// The path of a file of the given name in the directory of the vault.
    pub fn file_path(&self, filename: &str) -> (path: String)
        ensures
            path@ == self@ + seq!['/'] + filename@,
    {
        let mut path: String = self.data_dir.clone();
        proof {
            reveal_strlit("/");
        }
        path.append("/");
        path.append(filename);
        assert("/"@ =~= seq!['/']);
        path
    }

    /// Registers an account and gives the transaction that stores it. The
    /// store rejects the account with `ConstraintViolation` where the name
    /// is taken.
    pub fn create_account(username: &str, password: &str) -> (created: Result<
        (Account, Transaction),
        VaultError,
    >)
        ensures
            match created {
                Ok((account, transaction)) => (exists|key: Seq<u8>|
                    registers(account@, username@, password@, key)) && transaction@ == insertion(
                    EntityView::Account(account@),
                    Seq::empty(),
                ),
                Err(err) => err == VaultError::IOFailure,
            },
    {
        match Account::new(username, password) {
            Ok(account) => {
                let entity: Entity = Entity::Account(account);
                let transaction: Transaction = transaction_insert(&entity, Vec::new());
                assert(file_steps(Seq::<FileStep>::empty()) =~= Seq::<FileStepView>::empty());
                match entity {
                    Entity::Account(account) => Ok((account, transaction)),
                    _ => Err(VaultError::IOFailure),
                }
            },
            Err(err) => Err(err),
        }
    }

    /// The statement that selects the account of a name.
    pub fn load_account(username: &str) -> (statement: Statement)
        ensures
            statement@ == (StatementView {
                sql: Table::select_sql(Table::Accounts)@,
                params: seq![username@],
            }),
    {
        let mut key: Vec<KeyPart> = Vec::new();
        key.push(KeyPart::Text(username.to_owned()));
        assert(bound_key(key@) =~= seq![username@]);
        select_entry(Table::Accounts, &key)
    }

    /// Unlocks the account that the store gave for `load_account`.
    ///
    /// Where the store gave none the result is `NotFound`; where the row
    /// holds no account, `CorruptRow`; where the password is rejected,
    /// `AuthFailure`; where the data key cannot be had, `DecryptionFailure`.
    pub fn load_unlocked_account(fetched: &Fetched, password: &str) -> (session: Result<
        UnlockedAccount,
        VaultError,
    >)
        ensures
            match session {
                Ok(s) => unlocked(*fetched, password@) == Ok::<(Seq<char>, Seq<u8>), VaultError>(
                    (s@.username, s@.key),
                ),
                Err(err) => unlocked(*fetched, password@) == Err::<
                    (Seq<char>, Seq<u8>),
                    VaultError,
                >(err),
            },
    {
        match fetched {
            Fetched::Row(row) => match Account::try_from_database(row) {
                Ok(account) => account.unlock(password),
                Err(err) => Err(err),
            },
            Fetched::NoRows => Err(VaultError::NotFound),
            Fetched::Failed(failure) => Err(failure.error()),
        }
    }

    /// The statement that selects all records of a kind.
    pub fn load_all_of_kind(table: Table) -> (statement: Statement)
        ensures
            statement@ == (StatementView {
                sql: Table::select_all_sql(table)@,
                params: Seq::<Seq<char>>::empty(),
            }),
    {
        select_all(table)
    }

    /// The statement that selects the credentials of an account.
    pub fn load_account_credentials(username: &str) -> (statement: Statement)
        ensures
            statement@ == (StatementView {
                sql: Table::select_owned_sql(Table::Credentials)@,
                params: seq![username@],
            }),
    {
        select_owned(Table::Credentials, username)
    }

    /// The statement that selects the records of the files of an account.
    pub fn load_account_files(username: &str) -> (statement: Statement)
        ensures
            statement@ == (StatementView {
                sql: Table::select_owned_sql(Table::FilesData)@,
                params: seq![username@],
            }),
    {
        select_owned(Table::FilesData, username)
    }

    /// A credential of an account, every field encrypted under the data key
    /// of its session. Fails with `PlaintextTooLong` where a field is too
    /// long for one envelope, and else with `IOFailure` where the random
    /// source fails.
    pub fn encrypt_credential(
        session: &UnlockedAccount,
        name: &str,
        username: &str,
        password: &str,
        notes: &str,
    ) -> (credential: Result<Credential, VaultError>)
        ensures
            match credential {
                Ok(c) => fits(Secrets { name: name@, username: username@, password: password@, notes: notes@ })
                    && c@ == credential_of(
                    session@.username,
                    session@.key,
                    Secrets { name: name@, username: username@, password: password@, notes: notes@ },
                    nonces_of(c@),
                ),
                Err(err) => if fits(
                    Secrets { name: name@, username: username@, password: password@, notes: notes@ },
                ) {
                    err == VaultError::IOFailure
                } else {
                    err == VaultError::PlaintextTooLong
                },
            },
    {
        Credential::try_new(session.username(), session.key(), name, username, password, notes)
    }

    /// The transaction that stores a credential. The store rejects it with
    /// `ConstraintViolation` where its owner is no account, or where the
    /// owner has a credential of that name.
    pub fn insert_credential(credential: Credential) -> (transaction: Transaction)
        ensures
            transaction@ == insertion(EntityView::Credential(credential@), Seq::empty()),
    {
        let entity: Entity = Entity::Credential(credential);
        assert(file_steps(Seq::<FileStep>::empty()) =~= Seq::<FileStepView>::empty());
        transaction_insert(&entity, Vec::new())
    }

    /// The transaction that deletes the credential of an owner and an
    /// encrypted name. Fails with `NotFound` where there is none.
    pub fn delete_credential(owner_username: &str, encrypted_name: &Encrypted) -> (transaction:
        Transaction)
        ensures
            transaction@ == deletion(
                Table::Credentials,
                seq![owner_username@, encoded_text(encrypted_name@.cipherbytes)],
                Seq::empty(),
            ),
    {
        let mut key: Vec<KeyPart> = Vec::new();
        key.push(KeyPart::Text(owner_username.to_owned()));
        key.push(KeyPart::Bytes(vstd::slice::slice_to_vec(encrypted_name.cipherbytes())));
        assert(bound_key(key@) =~= seq![
            owner_username@,
            encoded_text(encrypted_name@.cipherbytes),
        ]);
        assert(file_steps(Seq::<FileStep>::empty()) =~= Seq::<FileStepView>::empty());
        transaction_delete(Table::Credentials, &key, Vec::new())
    }

    /// Encrypts the content of a file of an account under its data key, with
    /// a fresh random nonce. Gives the record of the file and the bytes to
    /// write at its path.
    pub fn encrypt_file(
        session: &UnlockedAccount,
        path: &str,
        filename: &str,
        contents: &[u8],
    ) -> (encrypted: Result<(FileData, Vec<u8>), VaultError>)
        ensures
            match encrypted {
                Ok((file_data, bytes)) => {
                    &&& contents@.len() <= PLAINTEXT_MAX
                    &&& file_data@.path == path@
                    &&& file_data@.filename == filename@
                    &&& file_data@.owner_username == session@.username
                    &&& sealed(contents@, session@.key, file_data@.contents_nonce).cipherbytes
                        == bytes@
                },
                Err(err) => if contents@.len() > PLAINTEXT_MAX {
                    err == VaultError::PlaintextTooLong
                } else {
                    err == VaultError::IOFailure
                },
            },
    {
        match Encrypted::try_encrypt_with_key(contents, session.key()) {
            Ok(envelope) => {
                let file_data: FileData = FileData::new(
                    path.to_owned(),
                    filename.to_owned(),
                    session.username().to_owned(),
                    envelope.nonce(),
                );
                Ok((file_data, vstd::slice::slice_to_vec(envelope.cipherbytes())))
            },
            Err(err) => Err(err),
        }
    }

    /// Decrypts the content of a file of an account: the bytes found at its
    /// path, under the data key and the nonce of its record. Bytes that
    /// `encrypt_file` gave for the record decrypt to the content they were
    /// made from.
    pub fn decrypt_file(session: &UnlockedAccount, file_data: &FileData, bytes: Vec<u8>) -> (contents:
        Result<Vec<u8>, VaultError>)
        ensures
            match contents {
                Ok(plain) => opened(
                    crate::encrypted::EncryptedView {
                        cipherbytes: bytes@,
                        nonce: file_data@.contents_nonce,
                    },
                    session@.key,
                ) == Some(plain@),
                Err(err) => err == VaultError::DecryptionFailure && opened(
                    crate::encrypted::EncryptedView {
                        cipherbytes: bytes@,
                        nonce: file_data@.contents_nonce,
                    },
                    session@.key,
                ) is None,
            },
            forall|plain: Seq<u8>|
                #![trigger sealed(plain, session@.key, file_data@.contents_nonce)]
                plain.len() <= PLAINTEXT_MAX && bytes@ == sealed(
                    plain,
                    session@.key,
                    file_data@.contents_nonce,
                ).cipherbytes ==> contents is Ok && contents->Ok_0@ == plain,
    {
        let envelope: Encrypted = Encrypted::from_fields(bytes, file_data.contents_nonce());
        let key: Aes256Key = session.key();
        let contents: Result<Vec<u8>, VaultError> = envelope.decrypt_bytes(&key);
        proof {
            assert forall|plain: Seq<u8>|
                #![trigger sealed(plain, session@.key, file_data@.contents_nonce)]
                plain.len() <= PLAINTEXT_MAX && bytes@ == sealed(
                    plain,
                    session@.key,
                    file_data@.contents_nonce,
                ).cipherbytes implies contents is Ok && contents->Ok_0@ == plain by {
                assert(envelope@ == sealed(plain, key@, envelope@.nonce));
            }
        }
        contents
    }

    /// The transaction that stores the record of a file and writes its
    /// encrypted content at its path. The store rejects the record with
    /// `ConstraintViolation` where its owner is no account or its path is
    /// taken, and then no file is written.
    pub fn insert_file(file_data: FileData, bytes: Vec<u8>) -> (transaction: Transaction)
        ensures
            transaction@ == insertion(
                EntityView::FileData(file_data@),
                seq![FileStepView::Write(file_data@.path, bytes@)],
            ),
    {
        let mut files: Vec<FileStep> = Vec::new();
        files.push(FileStep::Write(file_data.path().to_owned(), bytes));
        assert(file_steps(files@) =~= seq![FileStepView::Write(file_data@.path, bytes@)]);
        let entity: Entity = Entity::FileData(file_data);
        transaction_insert(&entity, files)
    }

    /// The transaction that deletes the record of the file at a path and
    /// removes the file. Fails with `NotFound` where there is no record,
    /// and then the file is not touched.
    pub fn delete_file(path: &str) -> (transaction: Transaction)
        ensures
            transaction@ == deletion(
                Table::FilesData,
                seq![path@],
                seq![FileStepView::Remove(path@)],
            ),
    {
        let mut key: Vec<KeyPart> = Vec::new();
        key.push(KeyPart::Text(path.to_owned()));
        assert(bound_key(key@) =~= seq![path@]);
        let mut files: Vec<FileStep> = Vec::new();
        files.push(FileStep::Remove(path.to_owned()));
        assert(file_steps(files@) =~= seq![FileStepView::Remove(path@)]);
        transaction_delete(Table::FilesData, &key, files)
    }

    /// The transaction that deletes an account with all that it owns: its
    /// row, with which the store deletes its credentials and the records of
    /// its files, and then the files given, which are those that
    /// `load_account_files` found. Fails with `NotFound` where there is no
    /// such account, and then no file is touched.
    pub fn delete_account(username: &str, files: &Vec<FileData>) -> (transaction: Transaction)
        ensures
            transaction@ == deletion(Table::Accounts, seq![username@], removals(files@)),
    {
        let mut key: Vec<KeyPart> = Vec::new();
        key.push(KeyPart::Text(username.to_owned()));
        assert(bound_key(key@) =~= seq![username@]);
        let mut steps: Vec<FileStep> = Vec::new();
        let mut i: usize = 0;
        while i < files.len()
            invariant
                i <= files@.len(),
                steps@.len() == i,
                forall|j: int| 0 <= j < i ==> steps@[j]@ == FileStepView::Remove(files@[j]@.path),
            decreases files@.len() - i,
        {
            steps.push(FileStep::Remove(files[i].path().to_owned()));
            i += 1;
        }
        assert(file_steps(steps@) =~= removals(files@));
        transaction_delete(Table::Accounts, &key, steps)
    }
}

} // verus!
