use vstd::prelude::*;
use crate::action::{Action, ActionView, Event, EventView};
use crate::error::{Error, StorageError};

verus! {

/// Where a retrieval stands.
#[derive(Debug, Clone, Copy, PartialEq, Eq, Structural)]
pub enum RetrievePhase {
    Start,
    Finding,
    Loading,
    /// The retrieval is over: `None` for success, else the error.
    Finished(Option<Error>),
}

/// Reads a blob by its public id: the record is looked up, then its blob is
/// loaded. A record whose blob is missing is reported as an orphan, apart
/// from an ordinary miss.
pub struct RetrievalCoordinator {
    phase: RetrievePhase,
    id: String,
    data: Vec<u8>,
    content_type: String,
}

pub struct RetrieveView {
    pub phase: RetrievePhase,
    pub id: Seq<char>,
    pub data: Seq<u8>,
    pub content_type: Seq<char>,
}

impl View for RetrievalCoordinator {
    type V = RetrieveView;

    closed spec fn view(&self) -> RetrieveView {
        RetrieveView {
            phase: self.phase,
            id: self.id@,
            data: self.data@,
            content_type: self.content_type@,
        }
    }
}

/// The retrieval that has not started yet.
pub open spec fn retrieve_start(id: Seq<char>) -> RetrieveView {
    RetrieveView { phase: RetrievePhase::Start, id, data: Seq::empty(), content_type: Seq::empty() }
}

/// The error for a failed load of a blob whose record exists.
pub open spec fn load_error(se: StorageError) -> Error {
    match se {
        StorageError::NotFound => Error::OrphanedRecordError,
        _ => Error::InternalStorageError(se),
    }
}

/// The next state of a retrieval and the action it asks for, given what came
/// of the last action.
pub open spec fn retrieve_next(r: RetrieveView, e: EventView) -> (RetrieveView, ActionView) {
    match r.phase {
        RetrievePhase::Start => (
            RetrieveView { phase: RetrievePhase::Finding, ..r },
            ActionView::FindById(r.id),
        ),
        RetrievePhase::Finding => match e {
            EventView::Row(rec) => (
                RetrieveView { phase: RetrievePhase::Loading, ..r },
                ActionView::LoadBlob(rec.storage_id),
            ),
            EventView::NoRow => (
                RetrieveView { phase: RetrievePhase::Finished(Some(Error::FileNotFoundError)), ..r },
                ActionView::Done,
            ),
            _ => (
                RetrieveView { phase: RetrievePhase::Finished(Some(Error::DatabaseError)), ..r },
                ActionView::Done,
            ),
        },
        RetrievePhase::Loading => match e {
            EventView::Blob(b, ct) => (
                RetrieveView { phase: RetrievePhase::Finished(None), data: b, content_type: ct, ..r },
                ActionView::Done,
            ),
            EventView::StoreFailure(se) => (
                RetrieveView { phase: RetrievePhase::Finished(Some(load_error(se))), ..r },
                ActionView::Done,
            ),
            _ => (
                RetrieveView {
                    phase: RetrievePhase::Finished(
                        Some(Error::InternalStorageError(StorageError::BackendUnavailable)),
                    ),
                    ..r
                },
                ActionView::Done,
            ),
        },
        RetrievePhase::Finished(_) => (r, ActionView::Done),
    }
}

impl RetrievalCoordinator {
    /// A retrieval of the blob published under `id`.
    pub fn new(id: String) -> (r: RetrievalCoordinator)
        ensures
            r@ == retrieve_start(id@),
    {
        RetrievalCoordinator {
            phase: RetrievePhase::Start,
            id,
            data: Vec::new(),
            content_type: String::new(),
        }
    }

    pub fn phase(&self) -> (r: RetrievePhase)
        ensures
            r == self@.phase,
    {
        self.phase
    }

    /// Takes what came of the last action (the first call's event is not
    /// read) and returns the next action.
    pub fn step(&mut self, event: Event) -> (a: Action)
        ensures
            (final(self)@, a@) == retrieve_next(old(self)@, event@),
    {
        match self.phase {
            RetrievePhase::Start => {
                self.phase = RetrievePhase::Finding;
                Action::FindById(self.id.clone())
            },
            RetrievePhase::Finding => match event {
                Event::Row(rec) => {
                    self.phase = RetrievePhase::Loading;
                    Action::LoadBlob(rec.storage_id)
                },
                Event::NoRow => {
                    self.phase = RetrievePhase::Finished(Some(Error::FileNotFoundError));
                    Action::Done
                },
                _ => {
                    self.phase = RetrievePhase::Finished(Some(Error::DatabaseError));
                    Action::Done
                },
            },
            RetrievePhase::Loading => match event {
                Event::Blob(b, ct) => {
                    self.phase = RetrievePhase::Finished(None);
                    self.data = b;
                    self.content_type = ct;
                    Action::Done
                },
                Event::StoreFailure(se) => {
                    let err = match se {
                        StorageError::NotFound => Error::OrphanedRecordError,
                        _ => Error::InternalStorageError(se),
                    };
                    self.phase = RetrievePhase::Finished(Some(err));
                    Action::Done
                },
                _ => {
                    self.phase = RetrievePhase::Finished(
                        Some(Error::InternalStorageError(StorageError::BackendUnavailable)),
                    );
                    Action::Done
                },
            },
            RetrievePhase::Finished(_) => Action::Done,
        }
    }

    /// Once the retrieval is over, hands out the payload and its content
    /// type, or the error; `None` before that.
    pub fn into_outcome(self) -> (r: Option<Result<(Vec<u8>, String), Error>>)
        ensures
            match self@.phase {
                RetrievePhase::Finished(None) => r is Some && r->0 is Ok && r->0->Ok_0.0@
                    == self@.data && r->0->Ok_0.1@ == self@.content_type,
                RetrievePhase::Finished(Some(e)) => r == Some(
                    Err::<(Vec<u8>, String), Error>(e),
                ),
                _ => r is None,
            },
    {
        match self.phase {
            RetrievePhase::Finished(None) => Some(Ok((self.data, self.content_type))),
            RetrievePhase::Finished(Some(e)) => Some(Err(e)),
            _ => None,
        }
    }
}

} // verus!
