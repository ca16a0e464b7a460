use vstd::prelude::*;
use crate::action::EventView;
use crate::delete::{delete_start, DeletePhase};
use crate::entity::EntityView;
use crate::error::Error;
use crate::retrieve::{retrieve_start, RetrievePhase};
use crate::upload::{upload_start, UploadPhase};
use crate::world::{
    has_secret, no_faults, run_delete, run_retrieve, run_upload, world_wf, Faults, World,
};

verus! {

/// An upload that succeeds can be read back: retrieving its public id gives
/// the payload and the content type that were uploaded.
pub proof fn lemma_upload_round_trip(
    w: World,
    record: EntityView,
    content_type: Seq<char>,
    payload: Seq<u8>,
    f: Faults,
)
    requires
        w.pending is None,
        run_upload(w, upload_start(record, content_type, payload), EventView::Ack, f).1.phase
            == UploadPhase::Finished(None),
    ensures
        ({
            let w1 = run_upload(w, upload_start(record, content_type, payload), EventView::Ack, f).0;
            let r = run_retrieve(w1, retrieve_start(record.id), EventView::Ack, no_faults()).1;
            &&& r.phase == RetrievePhase::Finished(None)
            &&& r.data == payload
            &&& r.content_type == content_type
        }),
{
    reveal_with_fuel(run_upload, 7);
    reveal_with_fuel(run_retrieve, 4);
}

/// An upload whose blob cannot be saved fails and leaves the committed
/// records as they were: its public id is not found afterwards unless it
/// was there before.
pub proof fn lemma_failed_save_leaves_no_record(
    w: World,
    record: EntityView,
    content_type: Seq<char>,
    payload: Seq<u8>,
    f: Faults,
)
    requires
        w.pending is None,
        f.save,
    ensures
        ({
            let (w1, u1) = run_upload(w, upload_start(record, content_type, payload), EventView::Ack, f);
            &&& u1.phase is Finished
            &&& u1.phase != UploadPhase::Finished(None)
            &&& w1.records == w.records
            &&& w1.pending is None
            &&& !w.records.contains_key(record.id) ==> run_retrieve(
                w1,
                retrieve_start(record.id),
                EventView::Ack,
                no_faults(),
            ).1.phase == RetrievePhase::Finished(Some(Error::FileNotFoundError))
        }),
{
    reveal_with_fuel(run_upload, 7);
    reveal_with_fuel(run_retrieve, 4);
}

/// The record that holds a given secret.
pub open spec fn record_with_secret(w: World, secret: Seq<char>) -> Seq<char> {
    choose|k: Seq<char>| #[trigger] w.records.contains_key(k) && w.records[k].secret == secret
}

/// A deletion with a secret that no record holds fails with
/// `FileNotFoundError` and changes nothing.
pub proof fn lemma_delete_unknown_secret(w: World, secret: Seq<char>)
    requires
        w.pending is None,
        !has_secret(w.records, secret),
    ensures
        run_delete(w, delete_start(secret), EventView::Ack, no_faults()) == (
            w,
            crate::delete::DeleteView {
                phase: DeletePhase::Finished(Some(Error::FileNotFoundError)),
                secret,
            },
        ),
{
    reveal_with_fuel(run_delete, 7);
}

/// A deletion succeeds once: it removes the record and its blob, and a
/// second deletion with the same secret fails with `FileNotFoundError` and
/// removes nothing more.
pub proof fn lemma_delete_single_use(w: World, secret: Seq<char>)
    requires
        world_wf(w),
        w.pending is None,
        has_secret(w.records, secret),
    ensures
        ({
            let k = record_with_secret(w, secret);
            let (w1, d1) = run_delete(w, delete_start(secret), EventView::Ack, no_faults());
            let (w2, d2) = run_delete(w1, delete_start(secret), EventView::Ack, no_faults());
            &&& d1.phase == DeletePhase::Finished(None)
            &&& w1.records == w.records.remove(k)
            &&& w1.blobs == w.blobs.remove(w.records[k].storage_id)
            &&& d2.phase == DeletePhase::Finished(Some(Error::FileNotFoundError))
            &&& w2 == w1
        }),
{
    reveal_with_fuel(run_delete, 7);
    let k = record_with_secret(w, secret);
    let w1 = run_delete(w, delete_start(secret), EventView::Ack, no_faults()).0;
    assert(w1.records == w.records.remove(k));
    assert(w1.pending is None);
    if has_secret(w1.records, secret) {
        let j = choose|j: Seq<char>|
            #[trigger] w1.records.contains_key(j) && w1.records[j].secret == secret;
        assert(w.records.contains_key(j) && j != k);
    }
    lemma_delete_unknown_secret(w1, secret);
}

/// The outcomes of `n` deletions with one secret, in the order in which the
/// metadata store's atomic delete serializes them.
pub open spec fn run_deletes(w: World, secret: Seq<char>, n: nat) -> (World, Seq<DeletePhase>)
    decreases n,
{
    if n == 0 {
        (w, Seq::empty())
    } else {
        let (w1, d) = run_delete(w, delete_start(secret), EventView::Ack, no_faults());
        let (w2, rest) = run_deletes(w1, secret, (n - 1) as nat);
        (w2, seq![d.phase] + rest)
    }
}

proof fn lemma_deletes_unknown_secret(w: World, secret: Seq<char>, n: nat)
    requires
        w.pending is None,
        !has_secret(w.records, secret),
    ensures
        run_deletes(w, secret, n).0 == w,
        run_deletes(w, secret, n).1.len() == n,
        forall|i: int|
            0 <= i < n ==> #[trigger] run_deletes(w, secret, n).1[i] == DeletePhase::Finished(
                Some(Error::FileNotFoundError),
            ),
    decreases n,
{
    if n > 0 {
        lemma_delete_unknown_secret(w, secret);
        lemma_deletes_unknown_secret(w, secret, (n - 1) as nat);
        let rest = run_deletes(w, secret, (n - 1) as nat).1;
        assert forall|i: int| 0 <= i < n implies #[trigger] run_deletes(w, secret, n).1[i]
            == DeletePhase::Finished(Some(Error::FileNotFoundError)) by {
            if i > 0 {
                assert(run_deletes(w, secret, n).1[i] == rest[i - 1]);
            }
        }
    }
}

/// Of `n` deletions racing on one record, exactly one succeeds and the
/// others fail with `FileNotFoundError`; the blob is removed once.
pub proof fn lemma_delete_race(w: World, secret: Seq<char>, n: nat)
    requires
        world_wf(w),
        w.pending is None,
        has_secret(w.records, secret),
        n >= 1,
    ensures
        ({
            let k = record_with_secret(w, secret);
            let (wn, outcomes) = run_deletes(w, secret, n);
            &&& outcomes.len() == n
            &&& outcomes[0] == DeletePhase::Finished(None)
            &&& forall|i: int|
                0 < i < n ==> #[trigger] outcomes[i] == DeletePhase::Finished(
                    Some(Error::FileNotFoundError),
                )
            &&& wn.records == w.records.remove(k)
            &&& wn.blobs == w.blobs.remove(w.records[k].storage_id)
        }),
{
    lemma_delete_single_use(w, secret);
    reveal_with_fuel(run_delete, 7);
    let w1 = run_delete(w, delete_start(secret), EventView::Ack, no_faults()).0;
    let k = record_with_secret(w, secret);
    if has_secret(w1.records, secret) {
        let j = choose|j: Seq<char>|
            #[trigger] w1.records.contains_key(j) && w1.records[j].secret == secret;
        assert(w.records.contains_key(j) && j != k);
    }
    lemma_deletes_unknown_secret(w1, secret, (n - 1) as nat);
    let outcomes = run_deletes(w, secret, n).1;
    let rest = run_deletes(w1, secret, (n - 1) as nat).1;
    assert forall|i: int| 0 < i < n implies #[trigger] outcomes[i] == DeletePhase::Finished(
        Some(Error::FileNotFoundError),
    ) by {
        assert(outcomes[i] == rest[i - 1]);
    }
}

/// An upload, whatever fails along the way, keeps every record under its
/// own ids with its blob stored; a successful one records the uploaded
/// payload's length beside the stored payload.
pub proof fn lemma_upload_keeps_records_consistent(
    w: World,
    record: EntityView,
    content_type: Seq<char>,
    payload: Seq<u8>,
    f: Faults,
)
    requires
        world_wf(w),
        w.pending is None,
        record.size == payload.len(),
    ensures
        ({
            let (w1, u1) = run_upload(w, upload_start(record, content_type, payload), EventView::Ack, f);
            &&& world_wf(w1)
            &&& w1.pending is None
            &&& u1.phase == UploadPhase::Finished(None) ==> {
                &&& w1.records.contains_key(record.id)
                &&& w1.records[record.id] == record
                &&& w1.blobs[record.storage_id] == (payload, content_type)
                &&& w1.records[record.id].size == w1.blobs[record.storage_id].0.len()
            }
        }),
{
    reveal_with_fuel(run_upload, 7);
}

/// A deletion whose commit does not fail keeps every record under its own
/// ids with its blob stored. (Where the commit fails after the blob was
/// deleted, the record outlives its blob.)
pub proof fn lemma_delete_keeps_records_consistent(w: World, secret: Seq<char>, f: Faults)
    requires
        world_wf(w),
        w.pending is None,
        !f.commit,
    ensures
        ({
            let (w1, d1) = run_delete(w, delete_start(secret), EventView::Ack, f);
            world_wf(w1) && w1.pending is None
        }),
{
    reveal_with_fuel(run_delete, 7);
}

} // verus!
