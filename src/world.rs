use vstd::prelude::*;
use crate::action::{ActionView, EventView};
use crate::delete::{delete_next, delete_start, DeletePhase, DeleteView};
use crate::entity::EntityView;
use crate::error::{Error, StorageError};
use crate::retrieve::{retrieve_next, retrieve_start, RetrievePhase, RetrieveView};
use crate::upload::{upload_next, upload_start, UploadPhase, UploadView};

verus! {

/// The metadata store and the blob store as the coordinators see them.
pub struct World {
    /// The committed records, by public id.
    pub records: Map<Seq<char>, EntityView>,
    /// The records as the open transaction sees them, if one is open.
    pub pending: Option<Map<Seq<char>, EntityView>>,
    /// The stored blobs, payload and content type, by storage id.
    pub blobs: Map<Seq<char>, (Seq<u8>, Seq<char>)>,
}

/// Which kinds of action the backends fail.
pub struct Faults {
    pub begin: bool,
    pub insert: bool,
    pub find: bool,
    pub delete_row: bool,
    pub save: bool,
    pub load: bool,
    pub delete_blob: bool,
    pub commit: bool,
}

pub open spec fn no_faults() -> Faults {
    Faults {
        begin: false,
        insert: false,
        find: false,
        delete_row: false,
        save: false,
        load: false,
        delete_blob: false,
        commit: false,
    }
}

/// Each record sits under its own public id, its storage id and secret are
/// its own, its blob is stored, and its size is the stored payload's length.
pub open spec fn world_wf(w: World) -> bool {
    &&& forall|k: Seq<char>| #[trigger] w.records.contains_key(k) ==> w.records[k].id == k
    &&& forall|k: Seq<char>, j: Seq<char>|
        #![trigger w.records[k], w.records[j]]
        w.records.contains_key(k) && w.records.contains_key(j) && k != j ==> w.records[k].secret
            != w.records[j].secret && w.records[k].storage_id != w.records[j].storage_id
    &&& forall|k: Seq<char>| #[trigger]
        w.records.contains_key(k) ==> w.blobs.contains_key(w.records[k].storage_id)
            && w.records[k].size == w.blobs[w.records[k].storage_id].0.len()
}

/// The records that the next metadata operation sees.
pub open spec fn working(w: World) -> Map<Seq<char>, EntityView> {
    match w.pending {
        Some(m) => m,
        None => w.records,
    }
}

pub open spec fn set_working(w: World, m: Map<Seq<char>, EntityView>) -> World {
    match w.pending {
        Some(_) => World { pending: Some(m), ..w },
        None => World { records: m, ..w },
    }
}

/// A record that the store's uniqueness constraints refuse next to `m`.
pub open spec fn conflicts(m: Map<Seq<char>, EntityView>, r: EntityView) -> bool {
    m.contains_key(r.id) || exists|k: Seq<char>|
        #[trigger] m.contains_key(k) && (m[k].storage_id == r.storage_id || m[k].secret == r.secret)
}

pub open spec fn has_secret(m: Map<Seq<char>, EntityView>, secret: Seq<char>) -> bool {
    exists|k: Seq<char>| #[trigger] m.contains_key(k) && m[k].secret == secret
}

/// What the backends do with an action, and what comes of it.
pub open spec fn perform(w: World, a: ActionView, f: Faults) -> (World, EventView) {
    match a {
        ActionView::Begin => if f.begin {
            (w, EventView::DbFailure)
        } else {
            (World { pending: Some(w.records), ..w }, EventView::Ack)
        },
        ActionView::Insert(r) => if f.insert || conflicts(working(w), r) {
            (w, EventView::DbFailure)
        } else {
            (set_working(w, working(w).insert(r.id, r)), EventView::Ack)
        },
        ActionView::FindById(id) => if f.find {
            (w, EventView::DbFailure)
        } else if working(w).contains_key(id) {
            (w, EventView::Row(working(w)[id]))
        } else {
            (w, EventView::NoRow)
        },
        ActionView::DeleteBySecret(secret) => if f.delete_row {
            (w, EventView::DbFailure)
        } else if has_secret(working(w), secret) {
            let k = choose|k: Seq<char>| #[trigger]
                working(w).contains_key(k) && working(w)[k].secret == secret;
            (set_working(w, working(w).remove(k)), EventView::Row(working(w)[k]))
        } else {
            (w, EventView::NoRow)
        },
        ActionView::SaveBlob(s, ct, payload) => if f.save {
            (w, EventView::StoreFailure(StorageError::BackendUnavailable))
        } else {
            (World { blobs: w.blobs.insert(s, (payload, ct)), ..w }, EventView::Ack)
        },
        ActionView::LoadBlob(s) => if f.load {
            (w, EventView::StoreFailure(StorageError::BackendUnavailable))
        } else if w.blobs.contains_key(s) {
            (w, EventView::Blob(w.blobs[s].0, w.blobs[s].1))
        } else {
            (w, EventView::StoreFailure(StorageError::NotFound))
        },
        ActionView::DeleteBlob(s) => if f.delete_blob {
            (w, EventView::StoreFailure(StorageError::BackendUnavailable))
        } else if w.blobs.contains_key(s) {
            (World { blobs: w.blobs.remove(s), ..w }, EventView::Ack)
        } else {
            (w, EventView::StoreFailure(StorageError::NotFound))
        },
        ActionView::Commit => if f.commit {
            (World { pending: None, ..w }, EventView::DbFailure)
        } else {
            (World { records: working(w), pending: None, ..w }, EventView::Ack)
        },
        ActionView::Abandon => (World { pending: None, ..w }, EventView::Ack),
        ActionView::Done => (w, EventView::Ack),
    }
}

pub open spec fn upload_rank(p: UploadPhase) -> nat {
    match p {
        UploadPhase::Start => 6,
        UploadPhase::Beginning => 5,
        UploadPhase::Inserting => 4,
        UploadPhase::Saving => 3,
        UploadPhase::Committing => 2,
        UploadPhase::Abandoning(_) => 1,
        UploadPhase::Finished(_) => 0,
    }
}

/// Runs an upload against the backends until it is over.
pub open spec fn run_upload(w: World, u: UploadView, e: EventView, f: Faults) -> (World, UploadView)
    decreases upload_rank(u.phase),
{
    if u.phase is Finished {
        (w, u)
    } else {
        let (u2, a) = upload_next(u, e);
        let (w2, e2) = perform(w, a, f);
        run_upload(w2, u2, e2, f)
    }
}

pub open spec fn delete_rank(p: DeletePhase) -> nat {
    match p {
        DeletePhase::Start => 6,
        DeletePhase::Beginning => 5,
        DeletePhase::DeletingRow => 4,
        DeletePhase::DeletingBlob => 3,
        DeletePhase::Committing => 2,
        DeletePhase::Abandoning(_) => 1,
        DeletePhase::Finished(_) => 0,
    }
}

/// Runs a deletion against the backends until it is over.
pub open spec fn run_delete(w: World, d: DeleteView, e: EventView, f: Faults) -> (World, DeleteView)
    decreases delete_rank(d.phase),
{
    if d.phase is Finished {
        (w, d)
    } else {
        let (d2, a) = delete_next(d, e);
        let (w2, e2) = perform(w, a, f);
        run_delete(w2, d2, e2, f)
    }
}

pub open spec fn retrieve_rank(p: RetrievePhase) -> nat {
    match p {
        RetrievePhase::Start => 3,
        RetrievePhase::Finding => 2,
        RetrievePhase::Loading => 1,
        RetrievePhase::Finished(_) => 0,
    }
}

/// Runs a retrieval against the backends until it is over.
pub open spec fn run_retrieve(w: World, r: RetrieveView, e: EventView, f: Faults) -> (World, RetrieveView)
    decreases retrieve_rank(r.phase),
{
    if r.phase is Finished {
        (w, r)
    } else {
        let (r2, a) = retrieve_next(r, e);
        let (w2, e2) = perform(w, a, f);
        run_retrieve(w2, r2, e2, f)
    }
}

} // verus!
