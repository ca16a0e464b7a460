use vstd::prelude::*;
use crate::action::{Action, ActionView, Event, EventView};
use crate::entity::{EntityView, FileEntity};
use crate::config::{authorized, AuthToken, GlobalConfig};
use crate::error::{Error, StorageError};
use crate::ids::{alphanumeric_text, generate_file_id, generate_token, hex_text, TOKEN_LEN};

verus! {

/// Where an upload stands.
#[derive(Debug, Clone, Copy, PartialEq, Eq, Structural)]
pub enum UploadPhase {
    Start,
    Beginning,
    Inserting,
    Saving,
    Committing,
    /// The transaction is being dropped; the upload then fails with this error.
    Abandoning(Error),
    /// The upload is over: `None` for success, else the error.
    Finished(Option<Error>),
}

/// Creates a metadata record and its blob together: the record is inserted
/// in a transaction, the blob is saved, and only then is the transaction
/// committed. A failure before the commit leaves no record behind.
pub struct UploadCoordinator {
    phase: UploadPhase,
    record: FileEntity,
    content_type: String,
    payload: Vec<u8>,
}

pub struct UploadView {
    pub phase: UploadPhase,
    pub record: EntityView,
    pub content_type: Seq<char>,
    pub payload: Seq<u8>,
}

impl View for UploadCoordinator {
    type V = UploadView;

    closed spec fn view(&self) -> UploadView {
        UploadView {
            phase: self.phase,
            record: self.record@,
            content_type: self.content_type@,
            payload: self.payload@,
        }
    }
}

/// The upload that has not started yet.
pub open spec fn upload_start(record: EntityView, content_type: Seq<char>, payload: Seq<u8>) -> UploadView {
    UploadView { phase: UploadPhase::Start, record, content_type, payload }
}

/// The next state of an upload and the action it asks for, given what came
/// of the last action.
pub open spec fn upload_next(u: UploadView, e: EventView) -> (UploadView, ActionView) {
    match u.phase {
        UploadPhase::Start => (UploadView { phase: UploadPhase::Beginning, ..u }, ActionView::Begin),
        UploadPhase::Beginning => match e {
            EventView::Ack => (
                UploadView { phase: UploadPhase::Inserting, ..u },
                ActionView::Insert(u.record),
            ),
            _ => (
                UploadView { phase: UploadPhase::Finished(Some(Error::DatabaseError)), ..u },
                ActionView::Done,
            ),
        },
        UploadPhase::Inserting => match e {
            EventView::Ack => (
                UploadView { phase: UploadPhase::Saving, payload: Seq::empty(), ..u },
                ActionView::SaveBlob(u.record.storage_id, u.content_type, u.payload),
            ),
            _ => (
                UploadView { phase: UploadPhase::Abandoning(Error::DatabaseError), ..u },
                ActionView::Abandon,
            ),
        },
        UploadPhase::Saving => match e {
            EventView::Ack => (UploadView { phase: UploadPhase::Committing, ..u }, ActionView::Commit),
            EventView::StoreFailure(se) => (
                UploadView { phase: UploadPhase::Abandoning(Error::InternalStorageError(se)), ..u },
                ActionView::Abandon,
            ),
            _ => (
                UploadView {
                    phase: UploadPhase::Abandoning(
                        Error::InternalStorageError(StorageError::BackendUnavailable),
                    ),
                    ..u
                },
                ActionView::Abandon,
            ),
        },
        UploadPhase::Committing => match e {
            EventView::Ack => (UploadView { phase: UploadPhase::Finished(None), ..u }, ActionView::Done),
            _ => (
                UploadView { phase: UploadPhase::Finished(Some(Error::DatabaseError)), ..u },
                ActionView::Done,
            ),
        },
        UploadPhase::Abandoning(err) => (
            UploadView { phase: UploadPhase::Finished(Some(err)), ..u },
            ActionView::Done,
        ),
        UploadPhase::Finished(_) => (u, ActionView::Done),
    }
}

impl UploadCoordinator {
    /// An upload of `payload` under fresh identifiers, recorded as made at
    /// `uploaded_at`; the record's size is the payload's length.
    pub fn new(
        id: String,
        storage_id: String,
        secret: String,
        uploaded_at: i64,
        content_type: String,
        payload: Vec<u8>,
    ) -> (r: UploadCoordinator)
        requires
            payload@.len() <= i64::MAX,
        ensures
            r@ == upload_start(
                EntityView {
                    id: id@,
                    storage_id: storage_id@,
                    secret: secret@,
                    uploaded_at: uploaded_at as int,
                    size: payload@.len() as int,
                },
                content_type@,
                payload@,
            ),
    {
        let size: i64 = payload.len() as i64;
        UploadCoordinator {
            phase: UploadPhase::Start,
            record: FileEntity { id, storage_id, secret, uploaded_at, size },
            content_type,
            payload,
        }
    }

    pub fn phase(&self) -> (r: UploadPhase)
        ensures
            r == self@.phase,
    {
        self.phase
    }

    /// Takes what came of the last action (the first call's event is not
    /// read) and returns the next action.
    pub fn step(&mut self, event: Event) -> (a: Action)
        ensures
            (final(self)@, a@) == upload_next(old(self)@, event@),
    {
        match self.phase {
            UploadPhase::Start => {
                self.phase = UploadPhase::Beginning;
                Action::Begin
            },
            UploadPhase::Beginning => match event {
                Event::Ack => {
                    self.phase = UploadPhase::Inserting;
                    Action::Insert(self.record.duplicate())
                },
                _ => {
                    self.phase = UploadPhase::Finished(Some(Error::DatabaseError));
                    Action::Done
                },
            },
            UploadPhase::Inserting => match event {
                Event::Ack => {
                    self.phase = UploadPhase::Saving;
                    let mut payload: Vec<u8> = Vec::new();
                    core::mem::swap(&mut payload, &mut self.payload);
                    Action::SaveBlob {
                        storage_id: self.record.storage_id.clone(),
                        content_type: self.content_type.clone(),
                        payload,
                    }
                },
                _ => {
                    self.phase = UploadPhase::Abandoning(Error::DatabaseError);
                    Action::Abandon
                },
            },
            UploadPhase::Saving => match event {
                Event::Ack => {
                    self.phase = UploadPhase::Committing;
                    Action::Commit
                },
                Event::StoreFailure(se) => {
                    self.phase = UploadPhase::Abandoning(Error::InternalStorageError(se));
                    Action::Abandon
                },
                _ => {
                    self.phase = UploadPhase::Abandoning(
                        Error::InternalStorageError(StorageError::BackendUnavailable),
                    );
                    Action::Abandon
                },
            },
            UploadPhase::Committing => match event {
                Event::Ack => {
                    self.phase = UploadPhase::Finished(None);
                    Action::Done
                },
                _ => {
                    self.phase = UploadPhase::Finished(Some(Error::DatabaseError));
                    Action::Done
                },
            },
            UploadPhase::Abandoning(err) => {
                self.phase = UploadPhase::Finished(Some(err));
                Action::Done
            },
            UploadPhase::Finished(_) => Action::Done,
        }
    }

    /// Once the upload is over: the public id and the secret, or the error.
    pub fn outcome(&self) -> (r: Option<Result<(String, String), Error>>)
        ensures
            match self@.phase {
                UploadPhase::Finished(None) => r is Some && r->0 is Ok && r->0->Ok_0.0@
                    == self@.record.id && r->0->Ok_0.1@ == self@.record.secret,
                UploadPhase::Finished(Some(e)) => r == Some(Err::<(String, String), Error>(e)),
                _ => r is None,
            },
    {
        match self.phase {
            UploadPhase::Finished(None) => Some(Ok((self.record.id.clone(), self.record.secret.clone()))),
            UploadPhase::Finished(Some(e)) => Some(Err(e)),
            _ => None,
        }
    }
}

/// The configured upload key, as text.
pub open spec fn auth_key_of(config: &GlobalConfig) -> Option<Seq<char>> {
    match config.auth_key {
        Some(k) => Some(k@),
        None => None,
    }
}

/// The largest payload whose length a record can hold.
pub const MAX_PAYLOAD_LEN: u64 = 9223372036854775807;

/// Sets up an upload: refuses a token that does not match the configured
/// key (`Unauthorized`) and a payload whose length a record cannot hold
/// (`FileTooLargeError`); otherwise draws a public id of the configured
/// length and two tokens for the storage id and the secret.
pub fn prepare_upload(
    config: &GlobalConfig,
    token: &AuthToken,
    uploaded_at: i64,
    content_type: String,
    payload: Vec<u8>,
) -> (r: Result<UploadCoordinator, Error>)
    ensures
        !authorized(auth_key_of(config), token.0@) ==> r == Err::<UploadCoordinator, Error>(
            Error::Unauthorized,
        ),
        authorized(auth_key_of(config), token.0@) && payload@.len() > MAX_PAYLOAD_LEN ==> r == Err::<
            UploadCoordinator,
            Error,
        >(Error::FileTooLargeError),
        authorized(auth_key_of(config), token.0@) && payload@.len() <= MAX_PAYLOAD_LEN ==> r is Ok,
        r is Ok ==> ({
            let u = r->Ok_0@;
            &&& u.phase == UploadPhase::Start
            &&& u.record.id.len() == config.file_id_length
            &&& alphanumeric_text(u.record.id)
            &&& u.record.storage_id.len() == TOKEN_LEN
            &&& hex_text(u.record.storage_id)
            &&& u.record.secret.len() == TOKEN_LEN
            &&& hex_text(u.record.secret)
            &&& u.record.uploaded_at == uploaded_at
            &&& u.record.size == payload@.len()
            &&& u.content_type == content_type@
            &&& u.payload == payload@
        }),
{
    config.check_auth(token)?;
    if payload.len() as u64 > MAX_PAYLOAD_LEN {
        return Err(Error::FileTooLargeError);
    }
    let id = generate_file_id(config.file_id_length);
    let storage_id = generate_token();
    let secret = generate_token();
    Ok(UploadCoordinator::new(id, storage_id, secret, uploaded_at, content_type, payload))
}

} // verus!
