use vstd::prelude::*;
use crate::entity::{EntityView, FileEntity};
use crate::error::StorageError;

verus! {

/// What a coordinator asks its surroundings to do next.
#[derive(Debug)]
pub enum Action {
    /// Begin a metadata transaction.
    Begin,
    /// Insert the record inside the open transaction.
    Insert(FileEntity),
    /// Look up the record with this public id.
    FindById(String),
    /// Delete the record with this secret and return it, atomically.
    DeleteBySecret(String),
    /// Store a payload with its content type under a storage id.
    SaveBlob { storage_id: String, content_type: String, payload: Vec<u8> },
    /// Load the blob stored under a storage id.
    LoadBlob(String),
    /// Delete the blob stored under a storage id.
    DeleteBlob(String),
    /// Commit the open transaction.
    Commit,
    /// Drop the open transaction without committing it.
    Abandon,
    /// Nothing is left to do; the outcome is ready.
    Done,
}

/// What came of the last action.
#[derive(Debug)]
pub enum Event {
    /// The action succeeded and returned nothing.
    Ack,
    /// The metadata store failed.
    DbFailure,
    /// The blob store failed.
    StoreFailure(StorageError),
    /// The metadata store returned this record.
    Row(FileEntity),
    /// The metadata store found no matching record.
    NoRow,
    /// The blob store returned this payload and content type.
    Blob(Vec<u8>, String),
}

pub enum ActionView {
    Begin,
    Insert(EntityView),
    FindById(Seq<char>),
    DeleteBySecret(Seq<char>),
    SaveBlob(Seq<char>, Seq<char>, Seq<u8>),
    LoadBlob(Seq<char>),
    DeleteBlob(Seq<char>),
    Commit,
    Abandon,
    Done,
}

pub enum EventView {
    Ack,
    DbFailure,
    StoreFailure(StorageError),
    Row(EntityView),
    NoRow,
    Blob(Seq<u8>, Seq<char>),
}

impl View for Action {
    type V = ActionView;

    open spec fn view(&self) -> ActionView {
        match self {
            Action::Begin => ActionView::Begin,
            Action::Insert(r) => ActionView::Insert(r@),
            Action::FindById(id) => ActionView::FindById(id@),
            Action::DeleteBySecret(s) => ActionView::DeleteBySecret(s@),
            Action::SaveBlob { storage_id, content_type, payload } => ActionView::SaveBlob(
                storage_id@,
                content_type@,
                payload@,
            ),
            Action::LoadBlob(s) => ActionView::LoadBlob(s@),
            Action::DeleteBlob(s) => ActionView::DeleteBlob(s@),
            Action::Commit => ActionView::Commit,
            Action::Abandon => ActionView::Abandon,
            Action::Done => ActionView::Done,
        }
    }
}

impl View for Event {
    type V = EventView;

    open spec fn view(&self) -> EventView {
        match self {
            Event::Ack => EventView::Ack,
            Event::DbFailure => EventView::DbFailure,
            Event::StoreFailure(e) => EventView::StoreFailure(*e),
            Event::Row(r) => EventView::Row(r@),
            Event::NoRow => EventView::NoRow,
            Event::Blob(b, ct) => EventView::Blob(b@, ct@),
        }
    }
}

} // verus!
