use vstd::prelude::*;
use crate::action::{Action, ActionView, Event, EventView};
use crate::error::{Error, StorageError};

verus! {

/// Where a deletion stands.
#[derive(Debug, Clone, Copy, PartialEq, Eq, Structural)]
pub enum DeletePhase {
    Start,
    Beginning,
    DeletingRow,
    DeletingBlob,
    Committing,
    /// The transaction is being dropped; the deletion then fails with this error.
    Abandoning(Error),
    /// The deletion is over: `None` for success, else the error.
    Finished(Option<Error>),
}

/// Removes a record and its blob, authorized by the record's secret: the
/// record is deleted in a transaction, then the blob, and only then is the
/// transaction committed. Where the blob cannot be deleted the record stays.
pub struct DeleteCoordinator {
    phase: DeletePhase,
    secret: String,
}

pub struct DeleteView {
    pub phase: DeletePhase,
    pub secret: Seq<char>,
}

impl View for DeleteCoordinator {
    type V = DeleteView;

    closed spec fn view(&self) -> DeleteView {
        DeleteView { phase: self.phase, secret: self.secret@ }
    }
}

/// The deletion that has not started yet.
pub open spec fn delete_start(secret: Seq<char>) -> DeleteView {
    DeleteView { phase: DeletePhase::Start, secret }
}

/// The next state of a deletion and the action it asks for, given what came
/// of the last action.
pub open spec fn delete_next(d: DeleteView, e: EventView) -> (DeleteView, ActionView) {
    match d.phase {
        DeletePhase::Start => (DeleteView { phase: DeletePhase::Beginning, ..d }, ActionView::Begin),
        DeletePhase::Beginning => match e {
            EventView::Ack => (
                DeleteView { phase: DeletePhase::DeletingRow, ..d },
                ActionView::DeleteBySecret(d.secret),
            ),
            _ => (
                DeleteView { phase: DeletePhase::Finished(Some(Error::DatabaseError)), ..d },
                ActionView::Done,
            ),
        },
        DeletePhase::DeletingRow => match e {
            EventView::Row(r) => (
                DeleteView { phase: DeletePhase::DeletingBlob, ..d },
                ActionView::DeleteBlob(r.storage_id),
            ),
            EventView::NoRow => (
                DeleteView { phase: DeletePhase::Abandoning(Error::FileNotFoundError), ..d },
                ActionView::Abandon,
            ),
            _ => (
                DeleteView { phase: DeletePhase::Abandoning(Error::DatabaseError), ..d },
                ActionView::Abandon,
            ),
        },
        DeletePhase::DeletingBlob => match e {
            EventView::Ack => (DeleteView { phase: DeletePhase::Committing, ..d }, ActionView::Commit),
            EventView::StoreFailure(se) => (
                DeleteView { phase: DeletePhase::Abandoning(Error::InternalStorageError(se)), ..d },
                ActionView::Abandon,
            ),
            _ => (
                DeleteView {
                    phase: DeletePhase::Abandoning(
                        Error::InternalStorageError(StorageError::BackendUnavailable),
                    ),
                    ..d
                },
                ActionView::Abandon,
            ),
        },
        DeletePhase::Committing => match e {
            EventView::Ack => (DeleteView { phase: DeletePhase::Finished(None), ..d }, ActionView::Done),
            _ => (
                DeleteView { phase: DeletePhase::Finished(Some(Error::DatabaseError)), ..d },
                ActionView::Done,
            ),
        },
        DeletePhase::Abandoning(err) => (
            DeleteView { phase: DeletePhase::Finished(Some(err)), ..d },
            ActionView::Done,
        ),
        DeletePhase::Finished(_) => (d, ActionView::Done),
    }
}

impl DeleteCoordinator {
    /// A deletion of the record that `secret` unlocks.
    pub fn new(secret: String) -> (r: DeleteCoordinator)
        ensures
            r@ == delete_start(secret@),
    {
        DeleteCoordinator { phase: DeletePhase::Start, secret }
    }

    pub fn phase(&self) -> (r: DeletePhase)
        ensures
            r == self@.phase,
    {
        self.phase
    }

    /// Takes what came of the last action (the first call's event is not
    /// read) and returns the next action.
    pub fn step(&mut self, event: Event) -> (a: Action)
        ensures
            (final(self)@, a@) == delete_next(old(self)@, event@),
    {
        match self.phase {
            DeletePhase::Start => {
                self.phase = DeletePhase::Beginning;
                Action::Begin
            },
            DeletePhase::Beginning => match event {
                Event::Ack => {
                    self.phase = DeletePhase::DeletingRow;
                    Action::DeleteBySecret(self.secret.clone())
                },
                _ => {
                    self.phase = DeletePhase::Finished(Some(Error::DatabaseError));
                    Action::Done
                },
            },
            DeletePhase::DeletingRow => match event {
                Event::Row(r) => {
                    self.phase = DeletePhase::DeletingBlob;
                    Action::DeleteBlob(r.storage_id)
                },
                Event::NoRow => {
                    self.phase = DeletePhase::Abandoning(Error::FileNotFoundError);
                    Action::Abandon
                },
                _ => {
                    self.phase = DeletePhase::Abandoning(Error::DatabaseError);
                    Action::Abandon
                },
            },
            DeletePhase::DeletingBlob => match event {
                Event::Ack => {
                    self.phase = DeletePhase::Committing;
                    Action::Commit
                },
                Event::StoreFailure(se) => {
                    self.phase = DeletePhase::Abandoning(Error::InternalStorageError(se));
                    Action::Abandon
                },
                _ => {
                    self.phase = DeletePhase::Abandoning(
                        Error::InternalStorageError(StorageError::BackendUnavailable),
                    );
                    Action::Abandon
                },
            },
            DeletePhase::Committing => match event {
                Event::Ack => {
                    self.phase = DeletePhase::Finished(None);
                    Action::Done
                },
                _ => {
                    self.phase = DeletePhase::Finished(Some(Error::DatabaseError));
                    Action::Done
                },
            },
            DeletePhase::Abandoning(err) => {
                self.phase = DeletePhase::Finished(Some(err));
                Action::Done
            },
            DeletePhase::Finished(_) => Action::Done,
        }
    }

    /// Once the deletion is over: success, or the error.
    pub fn outcome(&self) -> (r: Option<Result<(), Error>>)
        ensures
            match self@.phase {
                DeletePhase::Finished(None) => r == Some(Ok::<(), Error>(())),
                DeletePhase::Finished(Some(e)) => r == Some(Err::<(), Error>(e)),
                _ => r is None,
            },
    {
        match self.phase {
            DeletePhase::Finished(None) => Some(Ok(())),
            DeletePhase::Finished(Some(e)) => Some(Err(e)),
            _ => None,
        }
    }
}

} // verus!
