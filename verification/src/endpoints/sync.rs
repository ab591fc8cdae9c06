//! The sync endpoint: a device uploads its changed tags and tasks and gets
//! back what changed on the server since it last synced.

use vstd::prelude::*;
use crate::db::store::{Query, QueryView, Reply, ReplyView};
use crate::db::tags::Tag;
use crate::db::tasks::Task;
use crate::error::{ApiError, ApiErrorView};
use crate::exchange::{Exchange, Step, StepView};
use crate::time::{cutoff_of, download_cutoff, Timestamp};

verus! {

/// A task as devices send and receive it.
#[derive(Debug, PartialEq, Eq)]
pub struct SyncEndpointTask {
    pub id: String,
    pub tag_id: String,
    pub is_manual: bool,
    pub started_at: Timestamp,
    pub stopped_at: Option<Timestamp>,
    pub expires_at: Timestamp,
    pub deleted_at: Option<Timestamp>,
    pub created_at: Timestamp,
    pub updated_at: Timestamp,
}

/// A tag as devices send and receive it.
#[derive(Debug, PartialEq, Eq)]
pub struct SyncEndpointTag {
    pub id: String,
    pub label: String,
    pub color: String,
    pub deleted_at: Option<Timestamp>,
    pub created_at: Timestamp,
    pub updated_at: Timestamp,
}

/// One sync request: the device's changes, and the time it last synced.
#[derive(Debug, PartialEq, Eq)]
pub struct SyncEndpointBody {
    pub last_synced_at: Option<Timestamp>,
    pub tasks: Vec<SyncEndpointTask>,
    pub tags: Vec<SyncEndpointTag>,
}

/// A sync request as plain values.
pub ghost struct SyncEndpointBodyView {
    pub last_synced_at: Option<Timestamp>,
    pub tasks: Seq<SyncEndpointTask>,
    pub tags: Seq<SyncEndpointTag>,
}

impl View for SyncEndpointBody {
    type V = SyncEndpointBodyView;

    open spec fn view(&self) -> SyncEndpointBodyView {
        SyncEndpointBodyView { last_synced_at: self.last_synced_at, tasks: self.tasks@, tags: self.tags@ }
    }
}

/// The answer to a sync request: the rows on which the device is behind.
#[derive(Debug, PartialEq, Eq)]
pub struct SyncResponse {
    pub tags: Vec<SyncEndpointTag>,
    pub tasks: Vec<SyncEndpointTask>,
}

/// A sync answer as plain values.
pub ghost struct SyncResponseView {
    pub tags: Seq<SyncEndpointTag>,
    pub tasks: Seq<SyncEndpointTask>,
}

impl View for SyncResponse {
    type V = SyncResponseView;

    open spec fn view(&self) -> SyncResponseView {
        SyncResponseView { tags: self.tags@, tasks: self.tasks@ }
    }
}

/// The row that is upserted for a submitted tag: the tag's payload, owned by
/// the submitting user and stamped as synced at the server's time.
pub open spec fn tag_row(tag: SyncEndpointTag, user_id: String, now: Timestamp) -> Tag {
    Tag {
        id: tag.id,
        user_id,
        label: tag.label,
        color: tag.color,
        deleted_at: tag.deleted_at,
        created_at: tag.created_at,
        updated_at: tag.updated_at,
        synced_at: now,
    }
}

/// The row that is upserted for a submitted task.
pub open spec fn task_row(task: SyncEndpointTask, user_id: String, now: Timestamp) -> Task {
    Task {
        id: task.id,
        user_id,
        tag_id: task.tag_id,
        is_manual: task.is_manual,
        started_at: task.started_at,
        stopped_at: task.stopped_at,
        expires_at: task.expires_at,
        deleted_at: task.deleted_at,
        created_at: task.created_at,
        updated_at: task.updated_at,
        synced_at: now,
    }
}

/// A stored tag as it is sent to a device.
pub open spec fn tag_out(row: Tag) -> SyncEndpointTag {
    SyncEndpointTag {
        id: row.id,
        label: row.label,
        color: row.color,
        deleted_at: row.deleted_at,
        created_at: row.created_at,
        updated_at: row.updated_at,
    }
}

/// A stored task as it is sent to a device.
pub open spec fn task_out(row: Task) -> SyncEndpointTask {
    SyncEndpointTask {
        id: row.id,
        tag_id: row.tag_id,
        is_manual: row.is_manual,
        started_at: row.started_at,
        stopped_at: row.stopped_at,
        expires_at: row.expires_at,
        deleted_at: row.deleted_at,
        created_at: row.created_at,
        updated_at: row.updated_at,
    }
}

pub open spec fn tag_rows(tags: Seq<SyncEndpointTag>, user_id: String, now: Timestamp) -> Seq<Tag> {
    tags.map_values(|tag: SyncEndpointTag| tag_row(tag, user_id, now))
}

pub open spec fn task_rows(tasks: Seq<SyncEndpointTask>, user_id: String, now: Timestamp) -> Seq<Task> {
    tasks.map_values(|task: SyncEndpointTask| task_row(task, user_id, now))
}

pub open spec fn tags_out(rows: Seq<Tag>) -> Seq<SyncEndpointTag> {
    rows.map_values(|row: Tag| tag_out(row))
}

pub open spec fn tasks_out(rows: Seq<Task>) -> Seq<SyncEndpointTask> {
    rows.map_values(|row: Task| task_out(row))
}

/// Where a sync request waits.
#[derive(Debug, PartialEq, Eq)]
pub enum SyncState {
    /// The tags are being upserted; the task rows wait their turn.
    UpsertingTags { user_id: String, tasks: Vec<Task>, cutoff: Option<Timestamp> },
    /// The tasks are being upserted.
    UpsertingTasks { user_id: String, cutoff: Option<Timestamp> },
    /// The tags to download are being selected.
    SelectingTags { user_id: String, cutoff: Option<Timestamp> },
    /// The tasks to download are being selected; the tags are at hand.
    SelectingTasks { tags: Vec<Tag> },
}

/// A sync state as plain values.
pub ghost enum SyncStateView {
    UpsertingTags { user_id: String, tasks: Seq<Task>, cutoff: Option<Timestamp> },
    UpsertingTasks { user_id: String, cutoff: Option<Timestamp> },
    SelectingTags { user_id: String, cutoff: Option<Timestamp> },
    SelectingTasks { tags: Seq<Tag> },
}

impl View for SyncState {
    type V = SyncStateView;

    open spec fn view(&self) -> SyncStateView {
        match self {
            SyncState::UpsertingTags { user_id, tasks, cutoff } => SyncStateView::UpsertingTags {
                user_id: *user_id,
                tasks: tasks@,
                cutoff: *cutoff,
            },
            SyncState::UpsertingTasks { user_id, cutoff } => SyncStateView::UpsertingTasks {
                user_id: *user_id,
                cutoff: *cutoff,
            },
            SyncState::SelectingTags { user_id, cutoff } => SyncStateView::SelectingTags {
                user_id: *user_id,
                cutoff: *cutoff,
            },
            SyncState::SelectingTasks { tags } => SyncStateView::SelectingTasks { tags: tags@ },
        }
    }
}

/// A store failure with the given description.
pub open spec fn failed(context: Seq<char>) -> StepView<SyncStateView, SyncResponseView> {
    StepView::Finish(Err(ApiErrorView::Internal(context)))
}

/// The step after the tasks are in: select the tags to download.
pub open spec fn after_tasks(user_id: String, cutoff: Option<Timestamp>) -> StepView<SyncStateView, SyncResponseView> {
    StepView::Ask(
        SyncStateView::SelectingTags { user_id, cutoff },
        QueryView::SelectTags { user_id: user_id@, cutoff },
    )
}

/// The step after the tags are in: upsert the tasks, if there are any.
pub open spec fn after_tags(user_id: String, tasks: Seq<Task>, cutoff: Option<Timestamp>) -> StepView<
    SyncStateView,
    SyncResponseView,
> {
    if tasks.len() > 0 {
        StepView::Ask(SyncStateView::UpsertingTasks { user_id, cutoff }, QueryView::UpsertTasks { tasks })
    } else {
        after_tasks(user_id, cutoff)
    }
}

/// The first step of a sync request that arrives at `now`: upsert the tags,
/// if there are any.
pub open spec fn sync_begin(user_id: String, body: SyncEndpointBodyView, now: Timestamp) -> StepView<
    SyncStateView,
    SyncResponseView,
> {
    let tasks = task_rows(body.tasks, user_id, now);
    let cutoff = cutoff_of(body.last_synced_at);
    if body.tags.len() > 0 {
        StepView::Ask(
            SyncStateView::UpsertingTags { user_id, tasks, cutoff },
            QueryView::UpsertTags { tags: tag_rows(body.tags, user_id, now) },
        )
    } else {
        after_tags(user_id, tasks, cutoff)
    }
}

/// The step of a sync request on a reply. A reply of another kind than the
/// statement calls for counts as a failure of the store.
pub open spec fn sync_next(state: SyncStateView, reply: ReplyView) -> StepView<SyncStateView, SyncResponseView> {
    match state {
        SyncStateView::UpsertingTags { user_id, tasks, cutoff } => match reply {
            ReplyView::Done => after_tags(user_id, tasks, cutoff),
            _ => failed("Failed to upsert tags"@),
        },
        SyncStateView::UpsertingTasks { user_id, cutoff } => match reply {
            ReplyView::Done => after_tasks(user_id, cutoff),
            _ => failed("Failed to upsert tasks"@),
        },
        SyncStateView::SelectingTags { user_id, cutoff } => match reply {
            ReplyView::Tags(tags) => StepView::Ask(
                SyncStateView::SelectingTasks { tags },
                QueryView::SelectTasks { user_id: user_id@, cutoff },
            ),
            _ => failed("Failed to find tags out of date on client"@),
        },
        SyncStateView::SelectingTasks { tags } => match reply {
            ReplyView::Tasks(tasks) => StepView::Finish(
                Ok(SyncResponseView { tags: tags_out(tags), tasks: tasks_out(tasks) }),
            ),
            _ => failed("Failed to find tasks out of date on client"@),
        },
    }
}

fn tag_into_row(tag: &SyncEndpointTag, user_id: &String, now: Timestamp) -> (row: Tag)
    ensures
        row == tag_row(*tag, *user_id, now),
{
    Tag {
        id: tag.id.clone(),
        user_id: user_id.clone(),
        label: tag.label.clone(),
        color: tag.color.clone(),
        deleted_at: tag.deleted_at,
        created_at: tag.created_at,
        updated_at: tag.updated_at,
        synced_at: now,
    }
}

fn task_into_row(task: &SyncEndpointTask, user_id: &String, now: Timestamp) -> (row: Task)
    ensures
        row == task_row(*task, *user_id, now),
{
    Task {
        id: task.id.clone(),
        user_id: user_id.clone(),
        tag_id: task.tag_id.clone(),
        is_manual: task.is_manual,
        started_at: task.started_at,
        stopped_at: task.stopped_at,
        expires_at: task.expires_at,
        deleted_at: task.deleted_at,
        created_at: task.created_at,
        updated_at: task.updated_at,
        synced_at: now,
    }
}

impl SyncEndpointTag {
    /// The stored tag as it is sent to a device.
    pub fn from_row(row: &Tag) -> (tag: SyncEndpointTag)
        ensures
            tag == tag_out(*row),
    {
        SyncEndpointTag {
            id: row.id.clone(),
            label: row.label.clone(),
            color: row.color.clone(),
            deleted_at: row.deleted_at,
            created_at: row.created_at,
            updated_at: row.updated_at,
        }
    }
}

impl SyncEndpointTask {
    /// The stored task as it is sent to a device.
    pub fn from_row(row: &Task) -> (task: SyncEndpointTask)
        ensures
            task == task_out(*row),
    {
        SyncEndpointTask {
            id: row.id.clone(),
            tag_id: row.tag_id.clone(),
            is_manual: row.is_manual,
            started_at: row.started_at,
            stopped_at: row.stopped_at,
            expires_at: row.expires_at,
            deleted_at: row.deleted_at,
            created_at: row.created_at,
            updated_at: row.updated_at,
        }
    }
}

pub(crate) fn tags_into_rows(tags: &Vec<SyncEndpointTag>, user_id: &String, now: Timestamp) -> (rows: Vec<Tag>)
    ensures
        rows@ == tag_rows(tags@, *user_id, now),
{
    let mut rows: Vec<Tag> = Vec::new();
    let mut i: usize = 0;
    while i < tags.len()
        invariant
            i <= tags.len(),
            rows@ == tag_rows(tags@.take(i as int), *user_id, now),
        decreases tags.len() - i,
    {
        rows.push(tag_into_row(&tags[i], user_id, now));
        assert(rows@ =~= tag_rows(tags@.take(i as int + 1), *user_id, now));
        i += 1;
    }
    assert(tags@.take(tags.len() as int) =~= tags@);
    rows
}

fn tasks_into_rows(tasks: &Vec<SyncEndpointTask>, user_id: &String, now: Timestamp) -> (rows: Vec<Task>)
    ensures
        rows@ == task_rows(tasks@, *user_id, now),
{
    let mut rows: Vec<Task> = Vec::new();
    let mut i: usize = 0;
    while i < tasks.len()
        invariant
            i <= tasks.len(),
            rows@ == task_rows(tasks@.take(i as int), *user_id, now),
        decreases tasks.len() - i,
    {
        rows.push(task_into_row(&tasks[i], user_id, now));
        assert(rows@ =~= task_rows(tasks@.take(i as int + 1), *user_id, now));
        i += 1;
    }
    assert(tasks@.take(tasks.len() as int) =~= tasks@);
    rows
}

fn tags_from_rows(rows: &Vec<Tag>) -> (tags: Vec<SyncEndpointTag>)
    ensures
        tags@ == tags_out(rows@),
{
    let mut tags: Vec<SyncEndpointTag> = Vec::new();
    let mut i: usize = 0;
    while i < rows.len()
        invariant
            i <= rows.len(),
            tags@ == tags_out(rows@.take(i as int)),
        decreases rows.len() - i,
    {
        tags.push(SyncEndpointTag::from_row(&rows[i]));
        assert(tags@ =~= tags_out(rows@.take(i as int + 1)));
        i += 1;
    }
    assert(rows@.take(rows.len() as int) =~= rows@);
    tags
}

fn tasks_from_rows(rows: &Vec<Task>) -> (tasks: Vec<SyncEndpointTask>)
    ensures
        tasks@ == tasks_out(rows@),
{
    let mut tasks: Vec<SyncEndpointTask> = Vec::new();
    let mut i: usize = 0;
    while i < rows.len()
        invariant
            i <= rows.len(),
            tasks@ == tasks_out(rows@.take(i as int)),
        decreases rows.len() - i,
    {
        tasks.push(SyncEndpointTask::from_row(&rows[i]));
        assert(tasks@ =~= tasks_out(rows@.take(i as int + 1)));
        i += 1;
    }
    assert(rows@.take(rows.len() as int) =~= rows@);
    tasks
}

fn select_tags(user_id: String, cutoff: Option<Timestamp>) -> (step: Step<SyncState, SyncResponse>)
    ensures
        step@ == after_tasks(user_id, cutoff),
{
    let query = Query::SelectTags { user_id: user_id.clone(), cutoff };
    Step::Ask(SyncState::SelectingTags { user_id, cutoff }, query)
}

fn upsert_tasks(user_id: String, tasks: Vec<Task>, cutoff: Option<Timestamp>) -> (step: Step<SyncState, SyncResponse>)
    ensures
        step@ == after_tags(user_id, tasks@, cutoff),
{
    if tasks.len() > 0 {
        Step::Ask(SyncState::UpsertingTasks { user_id, cutoff }, Query::UpsertTasks { tasks })
    } else {
        select_tags(user_id, cutoff)
    }
}

fn store_failed(context: &str) -> (step: Step<SyncState, SyncResponse>)
    ensures
        step@ == failed(context@),
{
    Step::Finish(Err(ApiError::internal(context)))
}

/// Begins a sync request of `user_id` that arrives at `now`. The submitted
/// records are upserted, tags first, then tasks, each stamped as synced at
/// `now`; a record under the id of a row of another user is passed over. Then
/// the rows on which the device is behind are selected.
pub fn sync_endpoint_at(user_id: String, body: SyncEndpointBody, now: Timestamp) -> (step: Step<
    SyncState,
    SyncResponse,
>)
    ensures
        step@ == sync_begin(user_id, body@, now),
{
    let tasks = tasks_into_rows(&body.tasks, &user_id, now);
    let cutoff = download_cutoff(body.last_synced_at);
    if body.tags.len() > 0 {
        let rows = tags_into_rows(&body.tags, &user_id, now);
        Step::Ask(SyncState::UpsertingTags { user_id, tasks, cutoff }, Query::UpsertTags { tags: rows })
    } else {
        upsert_tasks(user_id, tasks, cutoff)
    }
}

/// Begins a sync request of `user_id` at the server's current time.
pub fn sync_endpoint(user_id: String, body: SyncEndpointBody) -> (step: Step<SyncState, SyncResponse>)
    ensures
        exists|now: Timestamp| now.on_clock() && step@ == sync_begin(user_id, body@, now),
{
    let now = Timestamp::now();
    sync_endpoint_at(user_id, body, now)
}

impl Exchange for SyncState {
    type Done = SyncResponse;

    open spec fn success_code() -> int {
        200
    }

    fn success_status() -> (code: u16) {
        200
    }

    open spec fn pending(state: SyncStateView) -> nat {
        match state {
            SyncStateView::UpsertingTags { .. } => 3,
            SyncStateView::UpsertingTasks { .. } => 2,
            SyncStateView::SelectingTags { .. } => 1,
            SyncStateView::SelectingTasks { .. } => 0,
        }
    }

    open spec fn next(state: SyncStateView, reply: ReplyView) -> StepView<SyncStateView, SyncResponseView> {
        sync_next(state, reply)
    }

    proof fn lemma_next_is_nearer(state: SyncStateView, reply: ReplyView) {
    }

    fn resume(self, reply: Reply) -> (step: Step<SyncState, SyncResponse>) {
        match self {
            SyncState::UpsertingTags { user_id, tasks, cutoff } => match reply {
                Reply::Done => upsert_tasks(user_id, tasks, cutoff),
                _ => store_failed("Failed to upsert tags"),
            },
            SyncState::UpsertingTasks { user_id, cutoff } => match reply {
                Reply::Done => select_tags(user_id, cutoff),
                _ => store_failed("Failed to upsert tasks"),
            },
            SyncState::SelectingTags { user_id, cutoff } => match reply {
                Reply::Tags(tags) => Step::Ask(
                    SyncState::SelectingTasks { tags },
                    Query::SelectTasks { user_id, cutoff },
                ),
                _ => store_failed("Failed to find tags out of date on client"),
            },
            SyncState::SelectingTasks { tags } => match reply {
                Reply::Tasks(tasks) => Step::Finish(
                    Ok(SyncResponse { tags: tags_from_rows(&tags), tasks: tasks_from_rows(&tasks) }),
                ),
                _ => store_failed("Failed to find tasks out of date on client"),
            },
        }
    }
}

} // verus!
