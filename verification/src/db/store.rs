//! The statements that the endpoints send to their collaborators, what each
//! does, and an in-memory store that carries them out.

use vstd::prelude::*;
use crate::db::notification_subs::{
    lemma_registered_with_keeps_unique, lemma_unregistered_keeps_unique, registered_with, registration,
    sub_position, subs_unique, unregistered, NotifSub,
};
use crate::db::notifications::{without_task, Reminder, ReminderView};
use crate::db::table::{
    inserted, keys_unique, lemma_inserted_keeps_unique, lemma_updated_keeps_unique,
    lemma_upsert_all_keeps_unique, owned_row, position, selected, updated, upsert_all,
};
use crate::db::tags::{all_tags, Tag};
use crate::db::tasks::{
    lemma_marked_deleted_keeps_unique, marked_deleted, ongoing_task, task_page, Task, TaskWithTag,
};
use crate::time::Timestamp;

verus! {

/// A notification handed to the push transport for one subscription.
#[derive(Debug, PartialEq, Eq)]
pub struct PushMessage {
    pub sub: NotifSub,
    pub title: String,
    pub body: String,
}

/// A push message as plain values.
pub ghost struct PushMessageView {
    pub sub: NotifSub,
    pub title: Seq<char>,
    pub body: Seq<char>,
}

impl View for PushMessage {
    type V = PushMessageView;

    open spec fn view(&self) -> PushMessageView {
        PushMessageView { sub: self.sub, title: self.title@, body: self.body@ }
    }
}

impl DeepView for PushMessage {
    type V = PushMessageView;

    open spec fn deep_view(&self) -> PushMessageView {
        self@
    }
}

/// One statement for the record store or the push transport.
#[derive(Debug, PartialEq, Eq)]
pub enum Query {
    /// Upsert the tags, in order.
    UpsertTags { tags: Vec<Tag> },
    /// Upsert the tasks, in order.
    UpsertTasks { tasks: Vec<Task> },
    /// The tags of a user that were synced after `cutoff`; all of them without one.
    SelectTags { user_id: String, cutoff: Option<Timestamp> },
    /// The tasks of a user that were synced after `cutoff`; all of them without one.
    SelectTasks { user_id: String, cutoff: Option<Timestamp> },
    /// All tags of a user, newest first.
    ListTags { user_id: String },
    /// A page of the tasks of a user, latest start first, after `last_id`.
    ListTasks { user_id: String, last_id: Option<String> },
    /// The task of a user that runs at `now`.
    GetOngoing { user_id: String, now: Timestamp },
    /// The tag with the given id, if the user owns it.
    GetTag { user_id: String, tag_id: String },
    /// Store a new task.
    InsertTask { task: Task },
    /// Write the task over the stored one, if its user owns that.
    UpdateTask { task: Task },
    /// Mark a task of the user as deleted at `now`.
    DeleteTask { user_id: String, task_id: String, now: Timestamp },
    /// Schedule a reminder.
    InsertReminder { reminder: Reminder },
    /// Remove the reminders of a user for a task.
    DeleteReminders { user_id: String, task_id: String },
    /// Register a push subscription, unless the user has its endpoint already.
    UpsertSub { sub: NotifSub },
    /// Remove the subscription of a user for an endpoint.
    DeleteSub { user_id: String, endpoint: String },
    /// Deliver a notification to a subscription.
    SendPush { message: PushMessage },
}

/// A statement as plain values.
pub ghost enum QueryView {
    UpsertTags { tags: Seq<Tag> },
    UpsertTasks { tasks: Seq<Task> },
    SelectTags { user_id: Seq<char>, cutoff: Option<Timestamp> },
    SelectTasks { user_id: Seq<char>, cutoff: Option<Timestamp> },
    ListTags { user_id: Seq<char> },
    ListTasks { user_id: Seq<char>, last_id: Option<Seq<char>> },
    GetOngoing { user_id: Seq<char>, now: Timestamp },
    GetTag { user_id: Seq<char>, tag_id: Seq<char> },
    InsertTask { task: Task },
    UpdateTask { task: Task },
    DeleteTask { user_id: Seq<char>, task_id: Seq<char>, now: Timestamp },
    InsertReminder { reminder: ReminderView },
    DeleteReminders { user_id: Seq<char>, task_id: Seq<char> },
    UpsertSub { sub: NotifSub },
    DeleteSub { user_id: Seq<char>, endpoint: Seq<char> },
    SendPush { message: PushMessageView },
}

impl View for Query {
    type V = QueryView;

    open spec fn view(&self) -> QueryView {
        match self {
            Query::UpsertTags { tags } => QueryView::UpsertTags { tags: tags@ },
            Query::UpsertTasks { tasks } => QueryView::UpsertTasks { tasks: tasks@ },
            Query::SelectTags { user_id, cutoff } => QueryView::SelectTags {
                user_id: user_id@,
                cutoff: *cutoff,
            },
            Query::SelectTasks { user_id, cutoff } => QueryView::SelectTasks {
                user_id: user_id@,
                cutoff: *cutoff,
            },
            Query::ListTags { user_id } => QueryView::ListTags { user_id: user_id@ },
            Query::ListTasks { user_id, last_id } => QueryView::ListTasks {
                user_id: user_id@,
                last_id: match last_id {
                    Some(id) => Some(id@),
                    None => None,
                },
            },
            Query::GetOngoing { user_id, now } => QueryView::GetOngoing { user_id: user_id@, now: *now },
            Query::GetTag { user_id, tag_id } => QueryView::GetTag { user_id: user_id@, tag_id: tag_id@ },
            Query::InsertTask { task } => QueryView::InsertTask { task: *task },
            Query::UpdateTask { task } => QueryView::UpdateTask { task: *task },
            Query::DeleteTask { user_id, task_id, now } => QueryView::DeleteTask {
                user_id: user_id@,
                task_id: task_id@,
                now: *now,
            },
            Query::InsertReminder { reminder } => QueryView::InsertReminder { reminder: reminder@ },
            Query::DeleteReminders { user_id, task_id } => QueryView::DeleteReminders {
                user_id: user_id@,
                task_id: task_id@,
            },
            Query::UpsertSub { sub } => QueryView::UpsertSub { sub: *sub },
            Query::DeleteSub { user_id, endpoint } => QueryView::DeleteSub {
                user_id: user_id@,
                endpoint: endpoint@,
            },
            Query::SendPush { message } => QueryView::SendPush { message: message@ },
        }
    }
}

/// What comes back for a statement.
#[derive(Debug, PartialEq, Eq)]
pub enum Reply {
    /// The statement could not be carried out.
    Failed,
    /// The statement was carried out and has nothing to report.
    Done,
    Tags(Vec<Tag>),
    Tasks(Vec<Task>),
    Page(Vec<TaskWithTag>),
    Ongoing(Option<TaskWithTag>),
    Tag(Option<Tag>),
    /// Whether a row was there to delete.
    Removed(bool),
    /// The subscription as it is stored.
    Sub(NotifSub),
}

/// A reply as plain values.
pub ghost enum ReplyView {
    Failed,
    Done,
    Tags(Seq<Tag>),
    Tasks(Seq<Task>),
    Page(Seq<TaskWithTag>),
    Ongoing(Option<TaskWithTag>),
    Tag(Option<Tag>),
    Removed(bool),
    Sub(NotifSub),
}

impl View for Reply {
    type V = ReplyView;

    open spec fn view(&self) -> ReplyView {
        match self {
            Reply::Failed => ReplyView::Failed,
            Reply::Done => ReplyView::Done,
            Reply::Tags(rows) => ReplyView::Tags(rows@),
            Reply::Tasks(rows) => ReplyView::Tasks(rows@),
            Reply::Page(rows) => ReplyView::Page(rows@),
            Reply::Ongoing(task) => ReplyView::Ongoing(*task),
            Reply::Tag(tag) => ReplyView::Tag(*tag),
            Reply::Removed(removed) => ReplyView::Removed(*removed),
            Reply::Sub(sub) => ReplyView::Sub(*sub),
        }
    }
}

/// The four tables, and the notifications that were handed to the push
/// transport, oldest first.
#[derive(Debug, PartialEq, Eq)]
pub struct Store {
    pub tags: Vec<Tag>,
    pub tasks: Vec<Task>,
    pub reminders: Vec<Reminder>,
    pub subs: Vec<NotifSub>,
    pub pushed: Vec<PushMessage>,
}

/// The store's contents as sequences.
pub ghost struct StoreView {
    pub tags: Seq<Tag>,
    pub tasks: Seq<Task>,
    pub reminders: Seq<ReminderView>,
    pub subs: Seq<NotifSub>,
    pub pushed: Seq<PushMessageView>,
}

impl View for Store {
    type V = StoreView;

    open spec fn view(&self) -> StoreView {
        StoreView {
            tags: self.tags@,
            tasks: self.tasks@,
            reminders: self.reminders.deep_view(),
            subs: self.subs@,
            pushed: self.pushed.deep_view(),
        }
    }
}

impl StoreView {
    /// Ids are unique in the tag table and in the task table, and no user is
    /// registered twice for one push endpoint.
    pub open spec fn wf(self) -> bool {
        keys_unique(self.tags) && keys_unique(self.tasks) && subs_unique(self.subs)
    }
}

/// What a statement does to the store, and what it reports. Only the insert
/// of a task under an id that is taken fails.
pub open spec fn run(db: StoreView, query: QueryView) -> (StoreView, ReplyView) {
    match query {
        QueryView::UpsertTags { tags } => (
            StoreView { tags: upsert_all(db.tags, tags), ..db },
            ReplyView::Done,
        ),
        QueryView::UpsertTasks { tasks } => (
            StoreView { tasks: upsert_all(db.tasks, tasks), ..db },
            ReplyView::Done,
        ),
        QueryView::SelectTags { user_id, cutoff } => (
            db,
            ReplyView::Tags(selected(db.tags, user_id, cutoff)),
        ),
        QueryView::SelectTasks { user_id, cutoff } => (
            db,
            ReplyView::Tasks(selected(db.tasks, user_id, cutoff)),
        ),
        QueryView::ListTags { user_id } => (db, ReplyView::Tags(all_tags(db.tags, user_id))),
        QueryView::ListTasks { user_id, last_id } => (
            db,
            ReplyView::Page(task_page(db.tasks, db.tags, user_id, last_id)),
        ),
        QueryView::GetOngoing { user_id, now } => (
            db,
            ReplyView::Ongoing(ongoing_task(db.tasks, db.tags, user_id, now)),
        ),
        QueryView::GetTag { user_id, tag_id } => (db, ReplyView::Tag(owned_row(db.tags, user_id, tag_id))),
        QueryView::InsertTask { task } => (
            StoreView { tasks: inserted(db.tasks, task), ..db },
            if position(db.tasks, task.id@) is None {
                ReplyView::Done
            } else {
                ReplyView::Failed
            },
        ),
        QueryView::UpdateTask { task } => (StoreView { tasks: updated(db.tasks, task), ..db }, ReplyView::Done),
        QueryView::DeleteTask { user_id, task_id, now } => (
            StoreView { tasks: marked_deleted(db.tasks, user_id, task_id, now), ..db },
            ReplyView::Removed(owned_row(db.tasks, user_id, task_id) is Some),
        ),
        QueryView::InsertReminder { reminder } => (
            StoreView { reminders: db.reminders.push(reminder), ..db },
            ReplyView::Done,
        ),
        QueryView::DeleteReminders { user_id, task_id } => (
            StoreView { reminders: without_task(db.reminders, user_id, task_id), ..db },
            ReplyView::Done,
        ),
        QueryView::UpsertSub { sub } => (
            StoreView { subs: registered_with(db.subs, sub), ..db },
            ReplyView::Sub(registration(db.subs, sub)),
        ),
        QueryView::DeleteSub { user_id, endpoint } => (
            StoreView { subs: unregistered(db.subs, user_id, endpoint), ..db },
            ReplyView::Removed(sub_position(db.subs, user_id, endpoint) is Some),
        ),
        QueryView::SendPush { message } => (StoreView { pushed: db.pushed.push(message), ..db }, ReplyView::Done),
    }
}

/// No statement breaks the store's invariant.
pub proof fn lemma_run_keeps_wf(db: StoreView, query: QueryView)
    requires
        db.wf(),
    ensures
        run(db, query).0.wf(),
{
    match query {
        QueryView::UpsertTags { tags } => {
            lemma_upsert_all_keeps_unique(db.tags, tags);
        },
        QueryView::UpsertTasks { tasks } => {
            lemma_upsert_all_keeps_unique(db.tasks, tasks);
        },
        QueryView::InsertTask { task } => {
            lemma_inserted_keeps_unique(db.tasks, task);
        },
        QueryView::UpdateTask { task } => {
            lemma_updated_keeps_unique(db.tasks, task);
        },
        QueryView::DeleteTask { user_id, task_id, now } => {
            lemma_marked_deleted_keeps_unique(db.tasks, user_id, task_id, now);
        },
        QueryView::UpsertSub { sub } => {
            lemma_registered_with_keeps_unique(db.subs, sub);
        },
        QueryView::DeleteSub { user_id, endpoint } => {
            lemma_unregistered_keeps_unique(db.subs, user_id, endpoint);
        },
        _ => {},
    }
}

impl Store {
    /// A store with empty tables.
    pub fn new() -> (store: Store)
        ensures
            store@.tags.len() == 0,
            store@.tasks.len() == 0,
            store@.reminders.len() == 0,
            store@.subs.len() == 0,
            store@.pushed.len() == 0,
            store@.wf(),
    {
        Store { tags: Vec::new(), tasks: Vec::new(), reminders: Vec::new(), subs: Vec::new(), pushed: Vec::new() }
    }

    /// Carries out one statement.
    pub fn execute(&mut self, query: Query) -> (reply: Reply)
        ensures
            (final(self)@, reply@) == run(old(self)@, query@),
            old(self)@.wf() ==> final(self)@.wf(),
    {
        proof {
            if self@.wf() {
                lemma_run_keeps_wf(self@, query@);
            }
        }
        match query {
            Query::UpsertTags { tags } => {
                crate::db::table::upsert_many(&mut self.tags, &tags);
                Reply::Done
            },
            Query::UpsertTasks { tasks } => {
                crate::db::table::upsert_many(&mut self.tasks, &tasks);
                Reply::Done
            },
            Query::SelectTags { user_id, cutoff } => Reply::Tags(
                crate::db::table::select_since(&self.tags, user_id.as_str(), cutoff),
            ),
            Query::SelectTasks { user_id, cutoff } => Reply::Tasks(
                crate::db::table::select_since(&self.tasks, user_id.as_str(), cutoff),
            ),
            Query::ListTags { user_id } => Reply::Tags(crate::db::tags::get_all(&self.tags, user_id.as_str())),
            Query::ListTasks { user_id, last_id } => {
                let cursor = match &last_id {
                    Some(id) => Some(id.as_str()),
                    None => None,
                };
                Reply::Page(crate::db::tasks::get_many(&self.tasks, &self.tags, user_id.as_str(), cursor))
            },
            Query::GetOngoing { user_id, now } => Reply::Ongoing(
                crate::db::tasks::get_ongoing(&self.tasks, &self.tags, user_id.as_str(), now),
            ),
            Query::GetTag { user_id, tag_id } => Reply::Tag(
                crate::db::tags::get_one(&self.tags, user_id.as_str(), tag_id.as_str()),
            ),
            Query::InsertTask { task } => {
                if crate::db::tasks::insert(&mut self.tasks, &task) {
                    Reply::Done
                } else {
                    Reply::Failed
                }
            },
            Query::UpdateTask { task } => {
                let _ = crate::db::tasks::update(&mut self.tasks, &task);
                Reply::Done
            },
            Query::DeleteTask { user_id, task_id, now } => Reply::Removed(
                crate::db::tasks::delete(&mut self.tasks, user_id.as_str(), task_id.as_str(), now),
            ),
            Query::InsertReminder { reminder } => {
                crate::db::notifications::insert(&mut self.reminders, reminder);
                Reply::Done
            },
            Query::DeleteReminders { user_id, task_id } => {
                crate::db::notifications::delete_by_task_id(
                    &mut self.reminders,
                    user_id.as_str(),
                    task_id.as_str(),
                );
                Reply::Done
            },
            Query::UpsertSub { sub } => Reply::Sub(crate::db::notification_subs::upsert(&mut self.subs, sub)),
            Query::DeleteSub { user_id, endpoint } => Reply::Removed(
                crate::db::notification_subs::delete(&mut self.subs, user_id.as_str(), endpoint.as_str()),
            ),
            Query::SendPush { message } => {
                let ghost before = self.pushed.deep_view();
                self.pushed.push(message);
                assert(self.pushed.deep_view() =~= before.push(message@));
                Reply::Done
            },
        }
    }
}

} // verus!
