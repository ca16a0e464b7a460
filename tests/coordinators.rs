use std::collections::HashMap;

use uploader::action::{Action, Event};
use uploader::config::{AuthToken, GlobalConfig};
use uploader::delete::DeleteCoordinator;
use uploader::drive::{decode_drive_record, encode_drive_record};
use uploader::entity::FileEntity;
use uploader::error::{Error, StorageError};
use uploader::retrieve::RetrievalCoordinator;
use uploader::upload::{prepare_upload, UploadCoordinator};

/// An in-memory metadata store with one transaction at a time, and a blob
/// store that keeps each blob as a drive record.
#[derive(Default)]
struct FakeWorld {
    records: HashMap<String, FileEntity>,
    pending: Option<HashMap<String, FileEntity>>,
    blobs: HashMap<String, Vec<u8>>,
    fail_save: bool,
    fail_delete_blob: bool,
    blob_deletions: usize,
}

fn copy(r: &FileEntity) -> FileEntity {
    r.duplicate()
}

impl FakeWorld {
    fn working(&mut self) -> &mut HashMap<String, FileEntity> {
        match self.pending.as_mut() {
            Some(m) => m,
            None => &mut self.records,
        }
    }

    fn perform(&mut self, action: Action) -> Option<Event> {
        Some(match action {
            Action::Begin => {
                self.pending = Some(self.records.iter().map(|(k, v)| (k.clone(), copy(v))).collect());
                Event::Ack
            }
            Action::Insert(r) => {
                let m = self.working();
                let clash = m.contains_key(&r.id)
                    || m.values().any(|o| o.secret == r.secret || o.storage_id == r.storage_id);
                if clash {
                    Event::DbFailure
                } else {
                    m.insert(r.id.clone(), r);
                    Event::Ack
                }
            }
            Action::FindById(id) => match self.working().get(&id) {
                Some(r) => Event::Row(copy(r)),
                None => Event::NoRow,
            },
            Action::DeleteBySecret(secret) => {
                let m = self.working();
                let key = m.iter().find(|(_, v)| v.secret == secret).map(|(k, _)| k.clone());
                match key {
                    Some(k) => Event::Row(m.remove(&k).unwrap()),
                    None => Event::NoRow,
                }
            }
            Action::SaveBlob { storage_id, content_type, payload } => {
                if self.fail_save {
                    Event::StoreFailure(StorageError::BackendUnavailable)
                } else {
                    match encode_drive_record(&content_type, &payload) {
                        Ok(file) => {
                            self.blobs.insert(storage_id, file);
                            Event::Ack
                        }
                        Err(e) => Event::StoreFailure(e),
                    }
                }
            }
            Action::LoadBlob(s) => match self.blobs.get(&s) {
                Some(file) => match decode_drive_record(file) {
                    Ok((b, ct)) => Event::Blob(b, ct),
                    Err(e) => Event::StoreFailure(e),
                },
                None => Event::StoreFailure(StorageError::NotFound),
            },
            Action::DeleteBlob(s) => {
                if self.fail_delete_blob {
                    Event::StoreFailure(StorageError::BackendUnavailable)
                } else if self.blobs.remove(&s).is_some() {
                    self.blob_deletions += 1;
                    Event::Ack
                } else {
                    Event::StoreFailure(StorageError::NotFound)
                }
            }
            Action::Commit => {
                if let Some(m) = self.pending.take() {
                    self.records = m;
                }
                Event::Ack
            }
            Action::Abandon => {
                self.pending = None;
                Event::Ack
            }
            Action::Done => return None,
        })
    }

    fn upload(&mut self, mut u: UploadCoordinator) -> Result<(String, String), Error> {
        let mut event = Event::Ack;
        loop {
            let action = u.step(event);
            match self.perform(action) {
                Some(e) => event = e,
                None => return u.outcome().unwrap(),
            }
        }
    }

    fn retrieve(&mut self, id: &str) -> Result<(Vec<u8>, String), Error> {
        let mut r = RetrievalCoordinator::new(id.to_string());
        let mut event = Event::Ack;
        loop {
            let action = r.step(event);
            match self.perform(action) {
                Some(e) => event = e,
                None => return r.into_outcome().unwrap(),
            }
        }
    }

    fn delete(&mut self, secret: &str) -> Result<(), Error> {
        let mut d = DeleteCoordinator::new(secret.to_string());
        let mut event = Event::Ack;
        loop {
            let action = d.step(event);
            match self.perform(action) {
                Some(e) => event = e,
                None => return d.outcome().unwrap(),
            }
        }
    }
}

fn coordinator(id: &str, storage_id: &str, secret: &str, ct: &str, payload: Vec<u8>) -> UploadCoordinator {
    UploadCoordinator::new(
        id.to_string(),
        storage_id.to_string(),
        secret.to_string(),
        1_700_000_000_000,
        ct.to_string(),
        payload,
    )
}

#[test]
fn upload_retrieve_delete_scenario() {
    let mut w = FakeWorld::default();
    let payload = vec![7u8; 1024];
    let up = w.upload(coordinator("abc123", "0f0f", "s3cr3t", "image/png", payload.clone()));
    assert_eq!(up, Ok(("abc123".to_string(), "s3cr3t".to_string())));
    assert_eq!(w.records["abc123"].size, 1024);
    let (bytes, ct) = w.retrieve("abc123").unwrap();
    assert_eq!(bytes.len(), 1024);
    assert_eq!(bytes, payload);
    assert_eq!(ct, "image/png");
    assert_eq!(w.delete("s3cr3t"), Ok(()));
    assert_eq!(w.retrieve("abc123"), Err(Error::FileNotFoundError));
    assert_eq!(w.delete("s3cr3t"), Err(Error::FileNotFoundError));
    assert_eq!(w.blob_deletions, 1);
}

#[test]
fn round_trip_of_empty_payload() {
    let mut w = FakeWorld::default();
    let up = w.upload(coordinator("e", "s", "k", "", vec![]));
    assert!(up.is_ok());
    assert_eq!(w.retrieve("e"), Ok((vec![], String::new())));
}

#[test]
fn failed_save_leaves_no_record() {
    let mut w = FakeWorld { fail_save: true, ..FakeWorld::default() };
    let up = w.upload(coordinator("abc123", "0f0f", "s3cr3t", "image/png", vec![1, 2, 3]));
    assert_eq!(up, Err(Error::InternalStorageError(StorageError::BackendUnavailable)));
    assert!(w.records.is_empty());
    assert!(w.pending.is_none());
    assert_eq!(w.retrieve("abc123"), Err(Error::FileNotFoundError));
}

#[test]
fn colliding_ids_fail_the_insert() {
    let mut w = FakeWorld::default();
    assert!(w.upload(coordinator("a", "s1", "k1", "t", vec![1])).is_ok());
    assert_eq!(w.upload(coordinator("b", "s2", "k1", "t", vec![2])), Err(Error::DatabaseError));
    assert_eq!(w.records.len(), 1);
    assert!(!w.blobs.contains_key("s2"));
}

#[test]
fn failed_blob_delete_keeps_the_record() {
    let mut w = FakeWorld::default();
    assert!(w.upload(coordinator("a", "s1", "k1", "t", vec![1])).is_ok());
    w.fail_delete_blob = true;
    assert_eq!(w.delete("k1"), Err(Error::InternalStorageError(StorageError::BackendUnavailable)));
    assert!(w.records.contains_key("a"));
    w.fail_delete_blob = false;
    assert_eq!(w.delete("k1"), Ok(()));
    assert!(w.records.is_empty());
}

#[test]
fn racing_deletes_succeed_once() {
    let mut w = FakeWorld::default();
    assert!(w.upload(coordinator("a", "s1", "k1", "t", vec![1])).is_ok());
    let outcomes: Vec<Result<(), Error>> = (0..5).map(|_| w.delete("k1")).collect();
    assert_eq!(outcomes.iter().filter(|o| o.is_ok()).count(), 1);
    assert_eq!(outcomes.iter().filter(|o| **o == Err(Error::FileNotFoundError)).count(), 4);
    assert_eq!(w.blob_deletions, 1);
}

#[test]
fn record_without_blob_is_an_orphan() {
    let mut w = FakeWorld::default();
    assert!(w.upload(coordinator("a", "s1", "k1", "t", vec![1])).is_ok());
    w.blobs.clear();
    assert_eq!(w.retrieve("a"), Err(Error::OrphanedRecordError));
}

#[test]
fn unknown_id_is_not_found() {
    let mut w = FakeWorld::default();
    assert_eq!(w.retrieve("missing"), Err(Error::FileNotFoundError));
}

fn global(auth_key: Option<&str>) -> GlobalConfig {
    GlobalConfig {
        public_url: "https://up.example".to_string(),
        file_id_length: 8,
        cache_length: None,
        auth_key: auth_key.map(|k| k.to_string()),
    }
}

#[test]
fn prepared_upload_draws_identifiers() {
    let mut w = FakeWorld::default();
    let u = prepare_upload(&global(None), &AuthToken(String::new()), 5, "text/plain".to_string(), b"hi".to_vec()).unwrap();
    let (id, secret) = w.upload(u).unwrap();
    assert_eq!(id.len(), 8);
    assert_eq!(secret.len(), 32);
    let rec = &w.records[&id];
    assert_eq!(rec.size, 2);
    assert_eq!(rec.uploaded_at, 5);
    assert_eq!(rec.storage_id.len(), 32);
    assert_ne!(rec.storage_id, secret);
    assert_eq!(w.retrieve(&id), Ok((b"hi".to_vec(), "text/plain".to_string())));
}

#[test]
fn prepared_upload_checks_the_key() {
    let r = prepare_upload(&global(Some("k")), &AuthToken("x".to_string()), 0, "t".to_string(), vec![]);
    assert_eq!(r.err(), Some(Error::Unauthorized));
    let ok = prepare_upload(&global(Some("k")), &AuthToken("k".to_string()), 0, "t".to_string(), vec![]);
    assert!(ok.is_ok());
}

#[test]
fn overlong_content_type_fails_the_upload() {
    let mut w = FakeWorld::default();
    let ct = "x".repeat(256);
    let up = w.upload(coordinator("a", "s1", "k1", &ct, vec![1]));
    assert_eq!(up, Err(Error::InternalStorageError(StorageError::ContentTypeTooLong)));
    assert!(w.records.is_empty());
    assert!(w.blobs.is_empty());
    assert_eq!(w.retrieve("a"), Err(Error::FileNotFoundError));
}

#[test]
fn corrupt_blob_is_reported() {
    let mut w = FakeWorld::default();
    assert!(w.upload(coordinator("a", "s1", "k1", "t", vec![1])).is_ok());
    w.blobs.insert("s1".to_string(), vec![200, 1]);
    assert_eq!(w.retrieve("a"), Err(Error::InternalStorageError(StorageError::CorruptRecord)));
}

#[test]
fn failed_commit_orphans_the_blob() {
    let mut w = FakeWorld::default();
    let mut u = coordinator("a", "s1", "k1", "t", vec![1]);
    let mut event = Event::Ack;
    loop {
        let action = u.step(event);
        event = match action {
            Action::Commit => {
                w.pending = None;
                Event::DbFailure
            }
            other => match w.perform(other) {
                Some(e) => e,
                None => break,
            },
        };
    }
    assert_eq!(u.outcome(), Some(Err(Error::DatabaseError)));
    assert!(w.records.is_empty());
    assert!(w.blobs.contains_key("s1"));
}
