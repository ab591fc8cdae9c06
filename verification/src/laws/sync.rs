//! What holds of uploads and downloads: a record that is submitted again is
//! stored once, a download holds exactly what the watermark calls for, and
//! no user reaches the rows of another.

use vstd::prelude::*;
use crate::db::store::StoreView;
use crate::db::table::{
    admits, keys_unique, lemma_filter_agrees, lemma_position, lemma_selected, lemma_upsert_all_frame,
    lemma_upsert_all_keeps_unique, lemma_upsert_one_frame, lemma_upsert_one_keeps_unique, position,
    reaches, selected, upsert_all, upsert_one, wanted, Record,
};
use crate::db::tags::Tag;
use crate::db::tasks::Task;
use crate::endpoints::sync::{
    sync_begin, tag_out, tag_row, tag_rows, tags_out, task_out, task_row, task_rows, tasks_out,
    SyncEndpointBodyView, SyncEndpointTag, SyncEndpointTask, SyncResponseView, SyncState,
};
use crate::error::ApiErrorView;
use crate::exchange::{lemma_settle_keeps_wf, settle};
use crate::time::{cutoff_of, Timestamp};

verus! {

/// The store after a sync request of `user_id` that arrived at `now`: the
/// submitted tags and tasks are upserted, the other tables are as before.
pub open spec fn synced_store(db: StoreView, user_id: String, body: SyncEndpointBodyView, now: Timestamp) -> StoreView {
    StoreView {
        tags: upsert_all(db.tags, tag_rows(body.tags, user_id, now)),
        tasks: upsert_all(db.tasks, task_rows(body.tasks, user_id, now)),
        ..db
    }
}

/// What a device with the watermark `last_synced_at` downloads from `db`.
pub open spec fn download(db: StoreView, user_id: Seq<char>, last_synced_at: Option<Timestamp>) -> SyncResponseView {
    SyncResponseView {
        tags: tags_out(selected(db.tags, user_id, cutoff_of(last_synced_at))),
        tasks: tasks_out(selected(db.tasks, user_id, cutoff_of(last_synced_at))),
    }
}

/// A sync request against the store always succeeds. It upserts every
/// submitted tag, then every submitted task, and answers with the rows of the
/// user that the resulting tables hold past the watermark's bound.
pub proof fn lemma_sync_settles(db: StoreView, user_id: String, body: SyncEndpointBodyView, now: Timestamp)
    ensures
        settle::<SyncState>(db, sync_begin(user_id, body, now)) == (
            synced_store(db, user_id, body, now),
            Ok::<SyncResponseView, ApiErrorView>(
                download(synced_store(db, user_id, body, now), user_id@, body.last_synced_at),
            ),
        ),
{
    reveal_with_fuel(settle, 6);
    let tasks = task_rows(body.tasks, user_id, now);
    let tags = tag_rows(body.tags, user_id, now);
    assert(tags.len() == body.tags.len());
    assert(tasks.len() == body.tasks.len());
    if tags.len() == 0 {
        assert(upsert_all(db.tags, tags) == db.tags);
    }
    if tasks.len() == 0 {
        assert(upsert_all(db.tasks, tasks) == db.tasks);
    }
    let after = synced_store(db, user_id, body, now);
    assert(after.reminders == db.reminders && after.subs == db.subs && after.pushed == db.pushed);
}

/// A batch of one record is one upsert.
pub proof fn lemma_upsert_all_one<R: Record>(rows: Seq<R>, record: R)
    ensures
        upsert_all(rows, seq![record]) == upsert_one(rows, record),
{
    reveal_with_fuel(upsert_all, 2);
    assert(seq![record].drop_last().len() == 0);
    assert(seq![record].last() == record);
}

/// Submitting a record and then another with the same id, by the same owner,
/// leaves one row with that id, provided that the id was free or that
/// owner's. The second submission adds no row; the row has the columns of
/// the second record, under the id and the owner it had after the first;
/// every other row is as the first submission left it.
pub proof fn lemma_upsert_twice<R: Record>(rows: Seq<R>, first: R, second: R)
    requires
        keys_unique(rows),
        first.key() == second.key(),
        first.owner() == second.owner(),
        admits(rows, first),
    ensures
        ({
            let once = upsert_one(rows, first);
            let twice = upsert_one(once, second);
            &&& twice.len() == once.len()
            &&& keys_unique(twice)
            &&& position(once, first.key()) is Some
            &&& position(twice, first.key()) == position(once, first.key())
            &&& forall|i: int|
                0 <= i < twice.len() ==> #[trigger] twice[i] == if position(once, first.key()) == Some(i) {
                    once[i].overwritten_by(&second)
                } else {
                    once[i]
                }
            &&& forall|i: int|
                0 <= i < twice.len() ==> ((#[trigger] twice[i]).key() == first.key() <==> position(
                    twice,
                    first.key(),
                ) == Some(i))
        }),
{
    let key = first.key();
    let once = upsert_one(rows, first);
    lemma_position(rows, key);
    lemma_upsert_one_keeps_unique(rows, first);
    let at: int = match position(rows, key) {
        Some(k) => {
            rows[k].lemma_overwritten_by(&first);
            k
        },
        None => rows.len() as int,
    };
    assert(0 <= at < once.len() && once[at].key() == key && once[at].owner() == first.owner());
    lemma_position(once, key);
    assert(position(once, key) == Some(at));
    let twice = upsert_one(once, second);
    once[at].lemma_overwritten_by(&second);
    assert(twice == once.update(at, once[at].overwritten_by(&second)));
    lemma_upsert_one_keeps_unique(once, second);
    assert(twice[at].key() == key);
    lemma_position(twice, key);
    assert(position(twice, key) == Some(at));
    assert forall|i: int| 0 <= i < twice.len() implies ((#[trigger] twice[i]).key() == key <==> position(
        twice,
        key,
    ) == Some(i)) by {
        if i != at && twice[i].key() == key {
            assert(twice[at].key() == key);
            if i < at {
                assert(twice[i].key() != twice[at].key());
            } else {
                assert(twice[at].key() != twice[i].key());
            }
        }
    }
}

/// After a batch of one owner was upserted, the last record that the batch
/// holds for an id is the one that is stored, provided that the id was free
/// or that owner's: a single row has the id, and it is either that record as
/// it came or an earlier row written over with it.
pub proof fn lemma_upsert_all_last_wins<R: Record>(rows: Seq<R>, batch: Seq<R>, b: int)
    requires
        keys_unique(rows),
        0 <= b < batch.len(),
        forall|c: int| 0 <= c < batch.len() ==> (#[trigger] batch[c]).owner() == batch[b].owner(),
        forall|c: int| b < c < batch.len() ==> (#[trigger] batch[c]).key() != batch[b].key(),
        admits(rows, batch[b]),
    ensures
        keys_unique(upsert_all(rows, batch)),
        position(upsert_all(rows, batch), batch[b].key()) matches Some(i) && upsert_all(rows, batch)[i].owner()
            == batch[b].owner() && (upsert_all(rows, batch)[i] == batch[b] || exists|before: R|
            before.key() == batch[b].key() && upsert_all(rows, batch)[i] == #[trigger] before.overwritten_by(
                &batch[b],
            )),
    decreases batch.len(),
{
    let front = batch.drop_last();
    let mid = upsert_all(rows, front);
    let after = upsert_all(rows, batch);
    let key = batch[b].key();
    lemma_upsert_all_keeps_unique(rows, front);
    lemma_upsert_all_keeps_unique(rows, batch);
    lemma_position(mid, batch.last().key());
    lemma_upsert_one_frame(mid, batch.last());
    lemma_upsert_all_frame(rows, front);
    assert(forall|c: int| 0 <= c < front.len() ==> front[c] == batch[c]);
    if b == batch.len() - 1 {
        match position(mid, key) {
            Some(k) => {
                assert(mid[k].owner() == batch[b].owner()) by {
                    if k < rows.len() {
                        lemma_position(rows, key);
                        assert(rows[k].key() == key);
                        let found = position(rows, key).unwrap();
                        if found < k {
                            assert(rows[found].key() != rows[k].key());
                        }
                    } else {
                        let c = choose|c: int|
                            0 <= c < front.len() && (#[trigger] front[c]).key() == mid[k].key()
                                && front[c].owner() == mid[k].owner();
                        assert(front[c] == batch[c]);
                    }
                }
                mid[k].lemma_overwritten_by(&batch[b]);
                assert(after[k].key() == key);
                lemma_position(after, key);
                assert(position(after, key) == Some(k)) by {
                    let found = position(after, key).unwrap();
                    if found < k {
                        assert(after[found].key() != after[k].key());
                    }
                }
                assert(after[k] == mid[k].overwritten_by(&batch[b]));
            },
            None => {
                let k = mid.len() as int;
                assert(after[k] == batch[b]);
                lemma_position(after, key);
                assert(position(after, key) == Some(k)) by {
                    let found = position(after, key).unwrap();
                    if found < k {
                        assert(after[found].key() != after[k].key());
                    }
                }
            },
        }
    } else {
        assert(front[b] == batch[b]);
        assert forall|c: int| b < c < front.len() implies (#[trigger] front[c]).key() != front[b].key() by {
            assert(front[c] == batch[c]);
        }
        assert forall|c: int| 0 <= c < front.len() implies (#[trigger] front[c]).owner()
            == front[b].owner() by {
            assert(front[c] == batch[c]);
        }
        lemma_upsert_all_last_wins(rows, front, b);
        let i = position(mid, key).unwrap();
        lemma_position(mid, key);
        assert(batch[batch.len() - 1].key() != key);
        assert(after[i] == mid[i]);
        lemma_position(after, key);
        assert(position(after, key) == Some(i)) by {
            let found = position(after, key).unwrap();
            if found < i {
                assert(after[found].key() != after[i].key());
            } else if found > i {
                assert(after[i].key() != after[found].key());
            }
        }
    }
}

/// A tag that a user submits at `earlier` and again, with other columns, at
/// `later` is stored once, provided that its id is not the id of a tag of
/// another user: a single row has the id, with the columns of the second
/// submission and a synced-at that is no earlier than the first.
pub proof fn lemma_tag_submitted_twice(
    tags: Seq<Tag>,
    user_id: String,
    first: SyncEndpointTag,
    second: SyncEndpointTag,
    earlier: Timestamp,
    later: Timestamp,
)
    requires
        keys_unique(tags),
        first.id@ == second.id@,
        earlier.at() <= later.at(),
        admits(tags, tag_row(first, user_id, earlier)),
    ensures
        ({
            let once = upsert_all(tags, seq![tag_row(first, user_id, earlier)]);
            let twice = upsert_all(once, seq![tag_row(second, user_id, later)]);
            &&& twice.len() == once.len()
            &&& position(twice, first.id@) matches Some(i) && {
                &&& forall|j: int| 0 <= j < twice.len() && twice[j].id@ == first.id@ ==> j == i
                &&& twice[i].label == second.label
                &&& twice[i].color == second.color
                &&& twice[i].deleted_at == second.deleted_at
                &&& twice[i].created_at == second.created_at
                &&& twice[i].updated_at == second.updated_at
                &&& twice[i].synced_at == later
                &&& twice[i].synced_at.at() >= once[i].synced_at.at()
                &&& twice[i].user_id == once[i].user_id
            }
        }),
{
    let a = tag_row(first, user_id, earlier);
    let b = tag_row(second, user_id, later);
    lemma_upsert_all_one(tags, a);
    lemma_upsert_all_one(upsert_one(tags, a), b);
    lemma_upsert_twice(tags, a, b);
    lemma_position(tags, a.id@);
    let once = upsert_one(tags, a);
    lemma_position(once, a.id@);
}

/// A task that a user submits at `earlier` and again, with other columns, at
/// `later` is stored once, provided that its id is not the id of a task of
/// another user: a single row has the id, with the columns of the second
/// submission and a synced-at that is no earlier than the first.
pub proof fn lemma_task_submitted_twice(
    tasks: Seq<Task>,
    user_id: String,
    first: SyncEndpointTask,
    second: SyncEndpointTask,
    earlier: Timestamp,
    later: Timestamp,
)
    requires
        keys_unique(tasks),
        first.id@ == second.id@,
        earlier.at() <= later.at(),
        admits(tasks, task_row(first, user_id, earlier)),
    ensures
        ({
            let once = upsert_all(tasks, seq![task_row(first, user_id, earlier)]);
            let twice = upsert_all(once, seq![task_row(second, user_id, later)]);
            &&& twice.len() == once.len()
            &&& position(twice, first.id@) matches Some(i) && {
                &&& forall|j: int| 0 <= j < twice.len() && twice[j].id@ == first.id@ ==> j == i
                &&& twice[i].tag_id == second.tag_id
                &&& twice[i].is_manual == second.is_manual
                &&& twice[i].started_at == second.started_at
                &&& twice[i].stopped_at == second.stopped_at
                &&& twice[i].expires_at == second.expires_at
                &&& twice[i].deleted_at == second.deleted_at
                &&& twice[i].created_at == second.created_at
                &&& twice[i].updated_at == second.updated_at
                &&& twice[i].synced_at == later
                &&& twice[i].synced_at.at() >= once[i].synced_at.at()
                &&& twice[i].user_id == once[i].user_id
            }
        }),
{
    let a = task_row(first, user_id, earlier);
    let b = task_row(second, user_id, later);
    lemma_upsert_all_one(tasks, a);
    lemma_upsert_all_one(upsert_one(tasks, a), b);
    lemma_upsert_twice(tasks, a, b);
    lemma_position(tasks, a.id@);
    let once = upsert_one(tasks, a);
    lemma_position(once, a.id@);
}

/// After a sync request, every submitted tag whose id is not the id of a
/// tag of another user is stored in a single row with the columns of its
/// last submission in the request, stamped as synced at the time of the
/// request.
pub proof fn lemma_sync_stores_tag(db: StoreView, user_id: String, body: SyncEndpointBodyView, now: Timestamp, b: int)
    requires
        db.wf(),
        0 <= b < body.tags.len(),
        forall|c: int| b < c < body.tags.len() ==> (#[trigger] body.tags[c]).id@ != body.tags[b].id@,
        admits(db.tags, tag_row(body.tags[b], user_id, now)),
    ensures
        ({
            let after = settle::<SyncState>(db, sync_begin(user_id, body, now)).0;
            &&& after.wf()
            &&& position(after.tags, body.tags[b].id@) matches Some(i) && {
                &&& forall|j: int| 0 <= j < after.tags.len() && after.tags[j].id@ == body.tags[b].id@ ==> j == i
                &&& tag_out(after.tags[i]).label == body.tags[b].label
                &&& tag_out(after.tags[i]).color == body.tags[b].color
                &&& tag_out(after.tags[i]).deleted_at == body.tags[b].deleted_at
                &&& tag_out(after.tags[i]).created_at == body.tags[b].created_at
                &&& tag_out(after.tags[i]).updated_at == body.tags[b].updated_at
                &&& after.tags[i].synced_at == now
                &&& after.tags[i].user_id@ == user_id@
            }
        }),
{
    lemma_sync_settles(db, user_id, body, now);
    lemma_settle_keeps_wf::<SyncState>(db, sync_begin(user_id, body, now));
    let rows = tag_rows(body.tags, user_id, now);
    assert forall|c: int| b < c < rows.len() implies (#[trigger] rows[c]).key() != rows[b].key() by {
        assert(body.tags[c].id@ != body.tags[b].id@);
    }
    assert(rows[b] == tag_row(body.tags[b], user_id, now));
    lemma_upsert_all_last_wins(db.tags, rows, b);
    let after = upsert_all(db.tags, rows);
    lemma_position(after, rows[b].key());
}

/// After a sync request, every submitted task whose id is not the id of a
/// task of another user is stored in a single row with the columns of its
/// last submission in the request, stamped as synced at the time of the
/// request.
pub proof fn lemma_sync_stores_task(db: StoreView, user_id: String, body: SyncEndpointBodyView, now: Timestamp, b: int)
    requires
        db.wf(),
        0 <= b < body.tasks.len(),
        forall|c: int| b < c < body.tasks.len() ==> (#[trigger] body.tasks[c]).id@ != body.tasks[b].id@,
        admits(db.tasks, task_row(body.tasks[b], user_id, now)),
    ensures
        ({
            let after = settle::<SyncState>(db, sync_begin(user_id, body, now)).0;
            &&& after.wf()
            &&& position(after.tasks, body.tasks[b].id@) matches Some(i) && {
                &&& forall|j: int| 0 <= j < after.tasks.len() && after.tasks[j].id@ == body.tasks[b].id@ ==> j == i
                &&& task_out(after.tasks[i]).tag_id == body.tasks[b].tag_id
                &&& task_out(after.tasks[i]).is_manual == body.tasks[b].is_manual
                &&& task_out(after.tasks[i]).started_at == body.tasks[b].started_at
                &&& task_out(after.tasks[i]).stopped_at == body.tasks[b].stopped_at
                &&& task_out(after.tasks[i]).expires_at == body.tasks[b].expires_at
                &&& task_out(after.tasks[i]).deleted_at == body.tasks[b].deleted_at
                &&& task_out(after.tasks[i]).created_at == body.tasks[b].created_at
                &&& task_out(after.tasks[i]).updated_at == body.tasks[b].updated_at
                &&& after.tasks[i].synced_at == now
                &&& after.tasks[i].user_id@ == user_id@
            }
        }),
{
    lemma_sync_settles(db, user_id, body, now);
    lemma_settle_keeps_wf::<SyncState>(db, sync_begin(user_id, body, now));
    let rows = task_rows(body.tasks, user_id, now);
    assert forall|c: int| b < c < rows.len() implies (#[trigger] rows[c]).key() != rows[b].key() by {
        assert(body.tasks[c].id@ != body.tasks[b].id@);
    }
    assert(rows[b] == task_row(body.tasks[b], user_id, now));
    lemma_upsert_all_last_wins(db.tasks, rows, b);
    let after = upsert_all(db.tasks, rows);
    lemma_position(after, rows[b].key());
}

/// With the watermark `watermark`, the download holds exactly the rows of the
/// user that were synced later than two minutes before the watermark, in table
/// order.
pub proof fn lemma_download_by_watermark<R: Record>(rows: Seq<R>, user_id: Seq<char>, watermark: Timestamp)
    ensures
        selected(rows, user_id, cutoff_of(Some(watermark))) == rows.filter(
            |row: R| row.owner() == user_id && row.synced().at() > watermark.at() - 120_000_000,
        ),
{
    lemma_filter_agrees(
        rows,
        wanted(user_id, cutoff_of(Some(watermark))),
        |row: R| row.owner() == user_id && row.synced().at() > watermark.at() - 120_000_000,
    );
}

/// Without a watermark the download holds every row of the user.
pub proof fn lemma_download_without_watermark<R: Record>(rows: Seq<R>, user_id: Seq<char>)
    ensures
        selected(rows, user_id, cutoff_of(None)) == rows.filter(|row: R| row.owner() == user_id),
{
    lemma_filter_agrees(rows, wanted(user_id, cutoff_of(None)), |row: R| row.owner() == user_id);
}

/// A download for a user holds rows of that user only.
pub proof fn lemma_download_is_own<R: Record>(rows: Seq<R>, user_id: Seq<char>, cutoff: Option<Timestamp>)
    ensures
        forall|i: int|
            0 <= i < selected(rows, user_id, cutoff).len() ==> (#[trigger] selected(
                rows,
                user_id,
                cutoff,
            )[i]).owner() == user_id,
{
    lemma_selected(rows, user_id, cutoff);
}

/// The answer to a sync request of a user holds rows of that user only: each
/// tag and each task in it is a row that the user owns in the store.
pub proof fn lemma_sync_answers_own_rows(db: StoreView, user_id: String, body: SyncEndpointBodyView, now: Timestamp)
    ensures
        ({
            let (after, answer) = settle::<SyncState>(db, sync_begin(user_id, body, now));
            &&& answer is Ok
            &&& forall|k: int|
                0 <= k < answer->Ok_0.tags.len() ==> exists|i: int|
                    0 <= i < after.tags.len() && (#[trigger] after.tags[i]).user_id@ == user_id@ && tag_out(
                        after.tags[i],
                    ) == #[trigger] answer->Ok_0.tags[k]
            &&& forall|k: int|
                0 <= k < answer->Ok_0.tasks.len() ==> exists|i: int|
                    0 <= i < after.tasks.len() && (#[trigger] after.tasks[i]).user_id@ == user_id@ && task_out(
                        after.tasks[i],
                    ) == #[trigger] answer->Ok_0.tasks[k]
        }),
{
    lemma_sync_settles(db, user_id, body, now);
    let (after, answer) = settle::<SyncState>(db, sync_begin(user_id, body, now));
    let cutoff = cutoff_of(body.last_synced_at);
    lemma_selected(after.tags, user_id@, cutoff);
    lemma_selected(after.tasks, user_id@, cutoff);
    let tags = selected(after.tags, user_id@, cutoff);
    let tasks = selected(after.tasks, user_id@, cutoff);
    assert forall|k: int| 0 <= k < answer->Ok_0.tags.len() implies exists|i: int|
        0 <= i < after.tags.len() && (#[trigger] after.tags[i]).user_id@ == user_id@ && tag_out(after.tags[i])
            == #[trigger] answer->Ok_0.tags[k] by {
        assert(after.tags.contains(tags[k]));
        let i = choose|i: int| 0 <= i < after.tags.len() && after.tags[i] == tags[k];
        assert(after.tags[i].user_id@ == user_id@ && tag_out(after.tags[i]) == answer->Ok_0.tags[k]);
    }
    assert forall|k: int| 0 <= k < answer->Ok_0.tasks.len() implies exists|i: int|
        0 <= i < after.tasks.len() && (#[trigger] after.tasks[i]).user_id@ == user_id@ && task_out(
            after.tasks[i],
        ) == #[trigger] answer->Ok_0.tasks[k] by {
        assert(after.tasks.contains(tasks[k]));
        let i = choose|i: int| 0 <= i < after.tasks.len() && after.tasks[i] == tasks[k];
        assert(after.tasks[i].user_id@ == user_id@ && task_out(after.tasks[i]) == answer->Ok_0.tasks[k]);
    }
}

/// An upload never moves a row to another owner: every row that was there
/// keeps its id and its owner, and every row that is added belongs to the
/// user who uploads.
pub proof fn lemma_upload_keeps_owners<R: Record>(rows: Seq<R>, user_id: Seq<char>, batch: Seq<R>)
    requires
        forall|b: int| 0 <= b < batch.len() ==> (#[trigger] batch[b]).owner() == user_id,
    ensures
        rows.len() <= upsert_all(rows, batch).len(),
        forall|i: int|
            0 <= i < rows.len() ==> (#[trigger] upsert_all(rows, batch)[i]).key() == rows[i].key()
                && upsert_all(rows, batch)[i].owner() == rows[i].owner(),
        forall|i: int|
            rows.len() <= i < upsert_all(rows, batch).len() ==> (#[trigger] upsert_all(rows, batch)[i]).owner()
                == user_id,
{
    let after = upsert_all(rows, batch);
    lemma_upsert_all_frame(rows, batch);
    assert forall|i: int| rows.len() <= i < after.len() implies (#[trigger] after[i]).owner() == user_id by {
        let b = choose|b: int|
            0 <= b < batch.len() && (#[trigger] batch[b]).key() == after[i].key() && batch[b].owner()
                == after[i].owner();
    }
}

/// An upload leaves the rows of other users exactly as they are, whatever
/// ids it submits: a record under the id of a row of another user changes
/// nothing.
pub proof fn lemma_upload_spares_others<R: Record>(rows: Seq<R>, user_id: Seq<char>, batch: Seq<R>)
    requires
        forall|b: int| 0 <= b < batch.len() ==> (#[trigger] batch[b]).owner() == user_id,
    ensures
        forall|i: int|
            0 <= i < rows.len() && (#[trigger] rows[i]).owner() != user_id ==> upsert_all(rows, batch)[i]
                == rows[i],
        forall|i: int|
            0 <= i < upsert_all(rows, batch).len() && (#[trigger] upsert_all(rows, batch)[i]).owner()
                != user_id ==> i < rows.len() && upsert_all(rows, batch)[i] == rows[i],
{
    lemma_upsert_all_frame(rows, batch);
    let after = upsert_all(rows, batch);
    assert forall|i: int| 0 <= i < rows.len() && (#[trigger] rows[i]).owner() != user_id implies after[i]
        == rows[i] by {
        assert(forall|b: int| 0 <= b < batch.len() ==> !reaches(#[trigger] batch[b], rows[i]));
    }
    assert forall|i: int| 0 <= i < after.len() && (#[trigger] after[i]).owner() != user_id implies i
        < rows.len() && after[i] == rows[i] by {
        if i >= rows.len() {
            let b = choose|b: int|
                0 <= b < batch.len() && (#[trigger] batch[b]).key() == after[i].key() && batch[b].owner()
                    == after[i].owner();
        } else {
            assert(after[i].owner() == rows[i].owner());
        }
    }
}

/// A sync request of a user leaves every tag and every task of another user
/// exactly as it was, whatever ids the request submits. It never changes who
/// owns a row, and it adds rows of its user only.
pub proof fn lemma_sync_keeps_to_its_user(db: StoreView, user_id: String, body: SyncEndpointBodyView, now: Timestamp)
    ensures
        ({
            let after = settle::<SyncState>(db, sync_begin(user_id, body, now)).0;
            &&& db.tags.len() <= after.tags.len()
            &&& db.tasks.len() <= after.tasks.len()
            &&& forall|i: int|
                0 <= i < db.tags.len() && (#[trigger] db.tags[i]).user_id@ != user_id@ ==> after.tags[i]
                    == db.tags[i]
            &&& forall|i: int|
                0 <= i < db.tasks.len() && (#[trigger] db.tasks[i]).user_id@ != user_id@ ==> after.tasks[i]
                    == db.tasks[i]
            &&& forall|i: int|
                0 <= i < db.tags.len() ==> (#[trigger] after.tags[i]).id@ == db.tags[i].id@ && after.tags[i].user_id@
                    == db.tags[i].user_id@
            &&& forall|i: int|
                0 <= i < db.tasks.len() ==> (#[trigger] after.tasks[i]).id@ == db.tasks[i].id@
                    && after.tasks[i].user_id@ == db.tasks[i].user_id@
            &&& forall|i: int| db.tags.len() <= i < after.tags.len() ==> (#[trigger] after.tags[i]).user_id@ == user_id@
            &&& forall|i: int|
                db.tasks.len() <= i < after.tasks.len() ==> (#[trigger] after.tasks[i]).user_id@ == user_id@
        }),
{
    lemma_sync_settles(db, user_id, body, now);
    let tags = tag_rows(body.tags, user_id, now);
    let tasks = task_rows(body.tasks, user_id, now);
    lemma_upload_keeps_owners(db.tags, user_id@, tags);
    lemma_upload_keeps_owners(db.tasks, user_id@, tasks);
    lemma_upload_spares_others(db.tags, user_id@, tags);
    lemma_upload_spares_others(db.tasks, user_id@, tasks);
}

} // verus!
