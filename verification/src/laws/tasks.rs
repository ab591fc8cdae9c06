//! What holds of the task lifecycle: one running task per user at a start,
//! and one reminder per started task until the task is stopped.

use vstd::prelude::*;
use crate::db::notifications::{for_task, lemma_without_task_has_none, reminds, without_task};
use crate::db::scan::{lemma_first_index_is, lemma_first_index_none};
use crate::db::store::StoreView;
use crate::db::table::{keys_unique, lemma_position, owned_row, position, updated, Record};
use crate::db::tags::Tag;
use crate::db::tasks::{
    lemma_ongoing_index, ongoing_index, ongoing_task, running, runs_for, with_tag, Task, TaskWithTag,
};
use crate::endpoints::tasks::{
    manual_begin, new_task, reminder_for, start_begin, stop_begin, stopped_task, AddManualTaskRequestBody,
    NewTaskState, StartTaskRequestBody, StopState, MAX_TASK_SECONDS,
};
use crate::error::ApiErrorView;
use crate::exchange::settle;
use crate::time::{lemma_clock_reading_plus_seconds, Timestamp};

verus! {

/// The task that a start request of `user_id` makes at `now` for the tag `tag`.
pub open spec fn started_task(user_id: String, seconds: int, task_id: String, tag: Tag, now: Timestamp) -> Task {
    new_task(task_id, user_id, tag.id, false, now, now.later_by(seconds), now)
}

/// A start request succeeds where the duration is at most two hours, the
/// user has no running task and owns the tag, and the new id is free. It
/// stores the task, schedules one reminder that is due at the task's end, and
/// answers with the task and its tag.
pub proof fn lemma_start_settles(db: StoreView, user_id: String, body: StartTaskRequestBody, task_id: String, now: Timestamp)
    requires
        0 <= body.seconds <= MAX_TASK_SECONDS,
        ongoing_task(db.tasks, db.tags, user_id@, now) is None,
        owned_row(db.tags, user_id@, body.tag_id@) is Some,
        position(db.tasks, task_id@) is None,
    ensures
        ({
            let tag = owned_row(db.tags, user_id@, body.tag_id@).unwrap();
            let task = started_task(user_id, body.seconds as int, task_id, tag, now);
            settle::<NewTaskState>(db, start_begin(user_id, body, task_id, now)) == (
                StoreView {
                    tasks: db.tasks.push(task),
                    reminders: db.reminders.push(reminder_for(task, tag.label@)),
                    ..db
                },
                Ok::<TaskWithTag, ApiErrorView>(with_tag(task, tag.color, tag.label)),
            )
        }),
{
    reveal_with_fuel(settle, 6);
}

/// While the user has a running task, a start request is refused as a bad
/// request and changes nothing.
pub proof fn lemma_start_refused_while_ongoing(db: StoreView, user_id: String, body: StartTaskRequestBody, task_id: String, now: Timestamp)
    requires
        ongoing_task(db.tasks, db.tags, user_id@, now) is Some,
    ensures
        settle::<NewTaskState>(db, start_begin(user_id, body, task_id, now)).0 == db,
        settle::<NewTaskState>(db, start_begin(user_id, body, task_id, now)).1 matches Err(
            ApiErrorView::BadRequest(_),
        ),
        body.seconds <= MAX_TASK_SECONDS ==> settle::<NewTaskState>(
            db,
            start_begin(user_id, body, task_id, now),
        ).1 == Err::<TaskWithTag, ApiErrorView>(
            ApiErrorView::BadRequest("you already have an ongoing task"@),
        ),
{
    reveal_with_fuel(settle, 6);
}

/// Right after a start, the started task is the one running task of its
/// user: it runs, and no other task of the user does.
pub proof fn lemma_start_leaves_one_running(
    db: StoreView,
    user_id: String,
    body: StartTaskRequestBody,
    task_id: String,
    now: Timestamp,
)
    requires
        0 < body.seconds <= MAX_TASK_SECONDS,
        now.at() < i64::MAX,
        ongoing_task(db.tasks, db.tags, user_id@, now) is None,
        owned_row(db.tags, user_id@, body.tag_id@) is Some,
        position(db.tasks, task_id@) is None,
    ensures
        ({
            let after = settle::<NewTaskState>(db, start_begin(user_id, body, task_id, now)).0;
            &&& after.tasks.len() == db.tasks.len() + 1
            &&& ongoing_index(after.tasks, after.tags, user_id@, now) == Some(db.tasks.len() as int)
            &&& after.tasks[db.tasks.len() as int].id == task_id
            &&& forall|k: int|
                0 <= k < db.tasks.len() ==> !runs_for(#[trigger] after.tasks[k], after.tags, user_id@, now)
        }),
{
    lemma_start_settles(db, user_id, body, task_id, now);
    lemma_ongoing_index(db.tasks, db.tags, user_id@, now);
    lemma_position(db.tags, body.tag_id@);
    let tag = owned_row(db.tags, user_id@, body.tag_id@).unwrap();
    let task = started_task(user_id, body.seconds as int, task_id, tag, now);
    let tasks = db.tasks.push(task);
    lemma_position(db.tags, tag.id@);
    assert(task.ongoing(now));
    assert(runs_for(task, db.tags, user_id@, now));
    assert forall|k: int| 0 <= k < db.tasks.len() implies !running(db.tags, user_id@, now)(tasks[k]) by {
        assert(tasks[k] == db.tasks[k]);
    }
    lemma_first_index_is(tasks, running(db.tags, user_id@, now), db.tasks.len() as int);
}

/// A stop request of a user with a running task closes that task at `now`
/// and removes its reminders.
pub proof fn lemma_stop_settles(db: StoreView, user_id: String, now: Timestamp)
    requires
        ongoing_task(db.tasks, db.tags, user_id@, now) is Some,
    ensures
        ({
            let ongoing = ongoing_task(db.tasks, db.tags, user_id@, now).unwrap();
            settle::<StopState>(db, stop_begin(user_id, now)) == (
                StoreView {
                    tasks: updated(db.tasks, stopped_task(ongoing, user_id, now)),
                    reminders: without_task(db.reminders, user_id@, ongoing.id@),
                    ..db
                },
                Ok::<(), ApiErrorView>(()),
            )
        }),
{
    reveal_with_fuel(settle, 6);
}

/// A stop request of a user without a running task is refused and changes
/// nothing: a task that ran past its expiry keeps its reminder.
pub proof fn lemma_stop_refused_without_ongoing(db: StoreView, user_id: String, now: Timestamp)
    requires
        ongoing_task(db.tasks, db.tags, user_id@, now) is None,
    ensures
        settle::<StopState>(db, stop_begin(user_id, now)) == (
            db,
            Err::<(), ApiErrorView>(ApiErrorView::BadRequest("you don't have an ongoing task"@)),
        ),
{
    reveal_with_fuel(settle, 6);
}

/// A task is over from its expiry on, whatever else holds of it.
pub proof fn lemma_expired_is_not_ongoing(task: Task, now: Timestamp)
    requires
        task.expires_at.at() <= now.at(),
    ensures
        !task.ongoing(now),
{
}

/// Once the running task of a user is stopped, the user can start another:
/// where no other task of the user runs at the later time, the tag is the
/// user's and the new id is free, the start request succeeds.
pub proof fn lemma_start_after_stop(
    db: StoreView,
    user_id: String,
    stopped_at: Timestamp,
    body: StartTaskRequestBody,
    task_id: String,
    now: Timestamp,
)
    requires
        keys_unique(db.tasks),
        ongoing_index(db.tasks, db.tags, user_id@, stopped_at) is Some,
        forall|k: int|
            0 <= k < db.tasks.len() && Some(k) != ongoing_index(db.tasks, db.tags, user_id@, stopped_at)
                ==> !runs_for(#[trigger] db.tasks[k], db.tags, user_id@, now),
        0 <= body.seconds <= MAX_TASK_SECONDS,
        owned_row(db.tags, user_id@, body.tag_id@) is Some,
        position(db.tasks, task_id@) is None,
    ensures
        ({
            let after_stop = settle::<StopState>(db, stop_begin(user_id, stopped_at));
            let after_start = settle::<NewTaskState>(after_stop.0, start_begin(user_id, body, task_id, now));
            &&& after_stop.1 is Ok
            &&& ongoing_task(after_stop.0.tasks, after_stop.0.tags, user_id@, now) is None
            &&& after_start.1 is Ok
        }),
{
    lemma_ongoing_index(db.tasks, db.tags, user_id@, stopped_at);
    let i = ongoing_index(db.tasks, db.tags, user_id@, stopped_at).unwrap();
    let ongoing = ongoing_task(db.tasks, db.tags, user_id@, stopped_at).unwrap();
    let closed = stopped_task(ongoing, user_id, stopped_at);
    lemma_stop_settles(db, user_id, stopped_at);
    let tasks = updated(db.tasks, closed);
    lemma_position(db.tasks, closed.id@);
    assert(db.tasks[i].id@ == closed.id@);
    assert(position(db.tasks, closed.id@) == Some(i)) by {
        let found = position(db.tasks, closed.id@).unwrap();
        if found < i {
            assert(db.tasks[found].id@ != db.tasks[i].id@);
        }
    }
    db.tasks[i].lemma_overwritten_by(&closed);
    assert(tasks == db.tasks.update(i, db.tasks[i].overwritten_by(&closed)));
    assert forall|k: int| 0 <= k < tasks.len() implies !running(db.tags, user_id@, now)(
        #[trigger] tasks[k],
    ) by {
        if k != i {
            assert(tasks[k] == db.tasks[k]);
            assert(!runs_for(db.tasks[k], db.tags, user_id@, now));
        }
    }
    lemma_first_index_none(tasks, running(db.tags, user_id@, now));
    let then = StoreView {
        tasks,
        reminders: without_task(db.reminders, user_id@, ongoing.id@),
        ..db
    };
    lemma_position(tasks, task_id@);
    lemma_position(db.tasks, task_id@);
    assert(position(tasks, task_id@) is None) by {
        if position(tasks, task_id@) is Some {
            let k = position(tasks, task_id@).unwrap();
            assert(tasks[k].id@ == db.tasks[k].id@);
        }
    }
    lemma_start_settles(then, user_id, body, task_id, now);
}

/// A task that is started with a free id has exactly one reminder afterwards,
/// provided that none was there for that id, and the reminder is due
/// `seconds` after the start.
pub proof fn lemma_start_schedules_one_reminder(
    db: StoreView,
    user_id: String,
    body: StartTaskRequestBody,
    task_id: String,
    now: Timestamp,
)
    requires
        0 <= body.seconds <= MAX_TASK_SECONDS,
        ongoing_task(db.tasks, db.tags, user_id@, now) is None,
        owned_row(db.tags, user_id@, body.tag_id@) is Some,
        position(db.tasks, task_id@) is None,
        for_task(db.reminders, user_id@, task_id@).len() == 0,
    ensures
        ({
            let after = settle::<NewTaskState>(db, start_begin(user_id, body, task_id, now)).0;
            let due = for_task(after.reminders, user_id@, task_id@);
            &&& due.len() == 1
            &&& due[0].fire_at == now.later_by(body.seconds as int)
            &&& i64::MIN <= now.at() + body.seconds * 1_000_000 <= i64::MAX ==> due[0].fire_at.at() == now.at()
                + body.seconds * 1_000_000
        }),
{
    lemma_start_settles(db, user_id, body, task_id, now);
    let tag = owned_row(db.tags, user_id@, body.tag_id@).unwrap();
    let task = started_task(user_id, body.seconds as int, task_id, tag, now);
    db.reminders.lemma_filter_push(reminder_for(task, tag.label@), reminds(user_id@, task_id@));
}

/// A task that is started at a reading of the clock has its one reminder due
/// exactly `seconds` after the start.
pub proof fn lemma_start_on_clock_is_due_exactly(
    db: StoreView,
    user_id: String,
    body: StartTaskRequestBody,
    task_id: String,
    now: Timestamp,
)
    requires
        now.on_clock(),
        0 <= body.seconds <= MAX_TASK_SECONDS,
        ongoing_task(db.tasks, db.tags, user_id@, now) is None,
        owned_row(db.tags, user_id@, body.tag_id@) is Some,
        position(db.tasks, task_id@) is None,
        for_task(db.reminders, user_id@, task_id@).len() == 0,
    ensures
        ({
            let after = settle::<NewTaskState>(db, start_begin(user_id, body, task_id, now)).0;
            let due = for_task(after.reminders, user_id@, task_id@);
            &&& due.len() == 1
            &&& due[0].fire_at.at() == now.at() + body.seconds * 1_000_000
        }),
{
    lemma_start_schedules_one_reminder(db, user_id, body, task_id, now);
    lemma_clock_reading_plus_seconds(now, body.seconds);
}

/// After the running task was stopped, it has no reminder.
pub proof fn lemma_stop_removes_reminder(db: StoreView, user_id: String, now: Timestamp)
    requires
        ongoing_task(db.tasks, db.tags, user_id@, now) is Some,
    ensures
        ({
            let ongoing = ongoing_task(db.tasks, db.tags, user_id@, now).unwrap();
            let after = settle::<StopState>(db, stop_begin(user_id, now)).0;
            for_task(after.reminders, user_id@, ongoing.id@).len() == 0
        }),
{
    lemma_stop_settles(db, user_id, now);
    let ongoing = ongoing_task(db.tasks, db.tags, user_id@, now).unwrap();
    lemma_without_task_has_none(db.reminders, user_id@, ongoing.id@);
}

/// A start or a manual add that succeeds makes a task whose interval does
/// not end before it starts. A request that would make another is refused
/// once its tag is found (and, for a start, no task runs), and changes
/// nothing.
pub proof fn lemma_new_task_has_an_interval(
    db: StoreView,
    user_id: String,
    start: StartTaskRequestBody,
    manual: AddManualTaskRequestBody,
    task_id: String,
    now: Timestamp,
)
    ensures
        settle::<NewTaskState>(db, start_begin(user_id, start, task_id, now)).1 matches Ok(made)
            ==> made.started_at.at() <= made.expires_at.at(),
        settle::<NewTaskState>(db, manual_begin(user_id, manual, task_id, now)).1 matches Ok(made)
            ==> made.started_at.at() <= made.expires_at.at(),
        start.seconds < 0 && ongoing_task(db.tasks, db.tags, user_id@, now) is None && owned_row(
            db.tags,
            user_id@,
            start.tag_id@,
        ) is Some ==> settle::<NewTaskState>(db, start_begin(user_id, start, task_id, now)) == (
            db,
            Err::<TaskWithTag, ApiErrorView>(ApiErrorView::BadRequest("seconds must not be negative"@)),
        ),
        manual.expires_at.at() < manual.started_at.at() && owned_row(db.tags, user_id@, manual.tag_id@)
            is Some ==> settle::<NewTaskState>(db, manual_begin(user_id, manual, task_id, now)) == (
            db,
            Err::<TaskWithTag, ApiErrorView>(
                ApiErrorView::BadRequest("expires_at must not be before started_at"@),
            ),
        ),
{
    reveal_with_fuel(settle, 6);
}

/// A request to make a task under a tag that the user does not own is
/// answered "tag not found", whatever duration or interval it asks for, and
/// changes nothing. For a start this holds where the duration is not over
/// two hours and no task of the user runs.
pub proof fn lemma_new_task_needs_its_tag(
    db: StoreView,
    user_id: String,
    start: StartTaskRequestBody,
    manual: AddManualTaskRequestBody,
    task_id: String,
    now: Timestamp,
)
    ensures
        start.seconds <= MAX_TASK_SECONDS && ongoing_task(db.tasks, db.tags, user_id@, now) is None
            && owned_row(db.tags, user_id@, start.tag_id@) is None ==> settle::<NewTaskState>(
            db,
            start_begin(user_id, start, task_id, now),
        ) == (db, Err::<TaskWithTag, ApiErrorView>(ApiErrorView::BadRequest("tag not found"@))),
        owned_row(db.tags, user_id@, manual.tag_id@) is None ==> settle::<NewTaskState>(
            db,
            manual_begin(user_id, manual, task_id, now),
        ) == (db, Err::<TaskWithTag, ApiErrorView>(ApiErrorView::BadRequest("tag not found"@))),
{
    reveal_with_fuel(settle, 6);
}

/// Every task that the lifecycle endpoints store has an interval that does
/// not end before it starts: the task that a start or a manual add stores,
/// and the running task as a stop closes it.
pub proof fn lemma_lifecycle_stores_intervals(
    db: StoreView,
    user_id: String,
    start: StartTaskRequestBody,
    manual: AddManualTaskRequestBody,
    task_id: String,
    now: Timestamp,
)
    ensures
        forall|i: int|
            db.tasks.len() <= i < settle::<NewTaskState>(db, start_begin(user_id, start, task_id, now)).0.tasks.len()
                ==> (#[trigger] settle::<NewTaskState>(
                db,
                start_begin(user_id, start, task_id, now),
            ).0.tasks[i]).started_at.at() <= settle::<NewTaskState>(
                db,
                start_begin(user_id, start, task_id, now),
            ).0.tasks[i].expires_at.at(),
        forall|i: int|
            db.tasks.len() <= i < settle::<NewTaskState>(db, manual_begin(user_id, manual, task_id, now)).0.tasks.len()
                ==> (#[trigger] settle::<NewTaskState>(
                db,
                manual_begin(user_id, manual, task_id, now),
            ).0.tasks[i]).started_at.at() <= settle::<NewTaskState>(
                db,
                manual_begin(user_id, manual, task_id, now),
            ).0.tasks[i].expires_at.at(),
        ongoing_task(db.tasks, db.tags, user_id@, now) matches Some(ongoing) ==> stopped_task(
            ongoing,
            user_id,
            now,
        ).started_at.at() <= stopped_task(ongoing, user_id, now).expires_at.at(),
{
    reveal_with_fuel(settle, 6);
    lemma_ongoing_index(db.tasks, db.tags, user_id@, now);
}

} // verus!
