//! The task lifecycle endpoints: start a task, stop the running one, add a
//! task after the fact, delete one, and look up the running one.

use vstd::prelude::*;
use vstd::string::StringExecFns;
use crate::db::notifications::{Reminder, ReminderView};
use crate::db::store::{Query, QueryView, Reply, ReplyView};
use crate::db::tags::Tag;
use crate::db::tasks::{with_tag, TagColor, TagLabel, Task, TaskWithTag};
use crate::error::{ApiError, ApiErrorView};
use crate::exchange::{Exchange, Step, StepView};
use crate::time::Timestamp;

verus! {

/// The longest that a started task may run: two hours.
pub const MAX_TASK_SECONDS: i32 = 7200;

/// The request to start a task: the tag to track, and for how long.
#[derive(Debug, PartialEq, Eq)]
pub struct StartTaskRequestBody {
    pub tag_id: String,
    pub seconds: i32,
}

/// The request to add a task after the fact.
#[derive(Debug, PartialEq, Eq)]
pub struct AddManualTaskRequestBody {
    pub tag_id: String,
    pub started_at: Timestamp,
    pub expires_at: Timestamp,
}

/// A task as the server makes it at `now`: neither stopped nor deleted, with
/// all three stamps `now`.
pub open spec fn new_task(
    id: String,
    user_id: String,
    tag_id: String,
    is_manual: bool,
    started_at: Timestamp,
    expires_at: Timestamp,
    now: Timestamp,
) -> Task {
    Task {
        id,
        user_id,
        tag_id,
        is_manual,
        started_at,
        stopped_at: None,
        expires_at,
        deleted_at: None,
        created_at: now,
        updated_at: now,
        synced_at: now,
    }
}

/// The running task `ongoing` of `user_id` as stopped at `now`: its interval
/// ends then, and it carries the early-stop stamp.
pub open spec fn stopped_task(ongoing: TaskWithTag, user_id: String, now: Timestamp) -> Task {
    Task {
        id: ongoing.id,
        user_id,
        tag_id: ongoing.tag_id,
        is_manual: ongoing.is_manual,
        started_at: ongoing.started_at,
        stopped_at: Some(now),
        expires_at: now,
        deleted_at: ongoing.deleted_at,
        created_at: ongoing.created_at,
        updated_at: now,
        synced_at: now,
    }
}

/// The reminder for a task: due at the task's end, and naming its tag.
pub open spec fn reminder_for(task: Task, tag_label: Seq<char>) -> ReminderView {
    ReminderView {
        user_id: task.user_id@,
        task_id: task.id@,
        title: "Task finished"@,
        body: "Your task '"@ + tag_label + "' has finished"@,
        fire_at: task.expires_at,
    }
}

/// What the request says of the interval of the task to be made.
#[derive(Debug, Clone, Copy, PartialEq, Eq, Structural)]
pub enum IntervalCheck {
    /// The interval does not end before it starts.
    Sound,
    /// A start was asked for with a negative duration.
    NegativeSeconds,
    /// A manual task was given an end before its start.
    Reversed,
}

/// Where a request that makes a task waits.
#[derive(Debug, PartialEq, Eq)]
pub enum NewTaskState {
    /// Asked whether the user has a running task.
    CheckingOngoing { task: Task, interval: IntervalCheck },
    /// Asked for the task's tag.
    FetchingTag { task: Task, interval: IntervalCheck },
    /// The task is being stored.
    InsertingTask { task: Task, tag_label: String, tag_color: String },
    /// The reminder is being scheduled.
    InsertingReminder { made: TaskWithTag },
}

impl View for NewTaskState {
    type V = NewTaskState;

    open spec fn view(&self) -> NewTaskState {
        *self
    }
}

/// A failure with the given description.
pub open spec fn new_task_failed(context: Seq<char>) -> StepView<NewTaskState, TaskWithTag> {
    StepView::Finish(Err(ApiErrorView::Internal(context)))
}

/// A refusal with the given message.
pub open spec fn new_task_refused(message: Seq<char>) -> StepView<NewTaskState, TaskWithTag> {
    StepView::Finish(Err(ApiErrorView::BadRequest(message)))
}

/// The step that asks for the tag of the task to be made.
pub open spec fn fetch_tag(task: Task, interval: IntervalCheck) -> StepView<NewTaskState, TaskWithTag> {
    StepView::Ask(
        NewTaskState::FetchingTag { task, interval },
        QueryView::GetTag { user_id: task.user_id@, tag_id: task.tag_id@ },
    )
}

/// What a start request says of the interval: a negative duration is at fault.
pub open spec fn start_interval(seconds: int) -> IntervalCheck {
    if seconds < 0 {
        IntervalCheck::NegativeSeconds
    } else {
        IntervalCheck::Sound
    }
}

/// What a manual add says of the interval: an end before the start is at fault.
pub open spec fn manual_interval(started_at: Timestamp, expires_at: Timestamp) -> IntervalCheck {
    if expires_at.at() < started_at.at() {
        IntervalCheck::Reversed
    } else {
        IntervalCheck::Sound
    }
}

/// The first step of starting a task at `now` under the new id `task_id`: a
/// duration of more than two hours is refused; otherwise the endpoint asks
/// whether the user has a running task.
pub open spec fn start_begin(user_id: String, body: StartTaskRequestBody, task_id: String, now: Timestamp) -> StepView<
    NewTaskState,
    TaskWithTag,
> {
    if body.seconds > MAX_TASK_SECONDS {
        new_task_refused("seconds must be less than 2 hours"@)
    } else {
        StepView::Ask(
            NewTaskState::CheckingOngoing {
                task: new_task(
                    task_id,
                    user_id,
                    body.tag_id,
                    false,
                    now,
                    now.later_by(body.seconds as int),
                    now,
                ),
                interval: start_interval(body.seconds as int),
            },
            QueryView::GetOngoing { user_id: user_id@, now },
        )
    }
}

/// The first step of adding a task after the fact, at `now` and under the
/// new id `task_id`: the endpoint asks for the tag.
pub open spec fn manual_begin(user_id: String, body: AddManualTaskRequestBody, task_id: String, now: Timestamp) -> StepView<
    NewTaskState,
    TaskWithTag,
> {
    fetch_tag(
        new_task(task_id, user_id, body.tag_id, true, body.started_at, body.expires_at, now),
        manual_interval(body.started_at, body.expires_at),
    )
}

/// The step of a request that makes a task, on a reply. A running task
/// refuses a start, and a tag that the user does not own refuses the
/// request. Once the tag is found, a negative duration and an interval that
/// ends before it starts are refused. Otherwise the task is stored with the
/// id of the tag that was found, then its reminder is scheduled, and the
/// answer is the task with its tag.
pub open spec fn new_task_next(state: NewTaskState, reply: ReplyView) -> StepView<NewTaskState, TaskWithTag> {
    match state {
        NewTaskState::CheckingOngoing { task, interval } => match reply {
            ReplyView::Ongoing(None) => fetch_tag(task, interval),
            ReplyView::Ongoing(Some(_)) => new_task_refused("you already have an ongoing task"@),
            _ => new_task_failed("error getting ongoing task"@),
        },
        NewTaskState::FetchingTag { task, interval } => match reply {
            ReplyView::Tag(Some(tag)) => match interval {
                IntervalCheck::Sound => StepView::Ask(
                    NewTaskState::InsertingTask {
                        task: Task { tag_id: tag.id, ..task },
                        tag_label: tag.label,
                        tag_color: tag.color,
                    },
                    QueryView::InsertTask { task: Task { tag_id: tag.id, ..task } },
                ),
                IntervalCheck::NegativeSeconds => new_task_refused("seconds must not be negative"@),
                IntervalCheck::Reversed => new_task_refused("expires_at must not be before started_at"@),
            },
            ReplyView::Tag(None) => new_task_refused("tag not found"@),
            _ => new_task_failed("error fetching tag"@),
        },
        NewTaskState::InsertingTask { task, tag_label, tag_color } => match reply {
            ReplyView::Done => StepView::Ask(
                NewTaskState::InsertingReminder { made: with_tag(task, tag_color, tag_label) },
                QueryView::InsertReminder { reminder: reminder_for(task, tag_label@) },
            ),
            _ => new_task_failed("error inserting task"@),
        },
        NewTaskState::InsertingReminder { made } => match reply {
            ReplyView::Done => StepView::Finish(Ok(made)),
            _ => new_task_failed("error inserting notification"@),
        },
    }
}

fn failed_new_task(context: &str) -> (step: Step<NewTaskState, TaskWithTag>)
    ensures
        step@ == new_task_failed(context@),
{
    Step::Finish(Err(ApiError::internal(context)))
}

fn refused_new_task(message: &str) -> (step: Step<NewTaskState, TaskWithTag>)
    ensures
        step@ == new_task_refused(message@),
{
    Step::Finish(Err(ApiError::bad_request(message)))
}

fn ask_for_tag(task: Task, interval: IntervalCheck) -> (step: Step<NewTaskState, TaskWithTag>)
    ensures
        step@ == fetch_tag(task, interval),
{
    let query = Query::GetTag { user_id: task.user_id.clone(), tag_id: task.tag_id.clone() };
    Step::Ask(NewTaskState::FetchingTag { task, interval }, query)
}

/// Builds the reminder for a task.
fn make_reminder(task: &Task, tag_label: &String) -> (reminder: Reminder)
    ensures
        reminder@ == reminder_for(*task, tag_label@),
{
    let mut body = String::from_str("Your task '");
    body.append(tag_label.as_str());
    body.append("' has finished");
    Reminder {
        user_id: task.user_id.clone(),
        task_id: task.id.clone(),
        title: String::from_str("Task finished"),
        body,
        fire_at: task.expires_at,
    }
}

/// Begins starting a task for `user_id` at `now`, under the new id `task_id`.
pub fn start_task_at(user_id: String, body: StartTaskRequestBody, task_id: String, now: Timestamp) -> (step: Step<
    NewTaskState,
    TaskWithTag,
>)
    ensures
        step@ == start_begin(user_id, body, task_id, now),
{
    if body.seconds > MAX_TASK_SECONDS {
        refused_new_task("seconds must be less than 2 hours")
    } else {
        let query = Query::GetOngoing { user_id: user_id.clone(), now };
        let task = Task {
            id: task_id,
            user_id,
            tag_id: body.tag_id,
            is_manual: false,
            started_at: now,
            stopped_at: None,
            expires_at: now.plus_seconds(body.seconds),
            deleted_at: None,
            created_at: now,
            updated_at: now,
            synced_at: now,
        };
        let interval = if body.seconds < 0 {
            IntervalCheck::NegativeSeconds
        } else {
            IntervalCheck::Sound
        };
        Step::Ask(NewTaskState::CheckingOngoing { task, interval }, query)
    }
}

/// Begins starting a task for `user_id` at the server's current time, under
/// the new id `task_id`.
pub fn start_task(user_id: String, body: StartTaskRequestBody, task_id: String) -> (step: Step<
    NewTaskState,
    TaskWithTag,
>)
    ensures
        exists|now: Timestamp| now.on_clock() && step@ == start_begin(user_id, body, task_id, now),
{
    let now = Timestamp::now();
    start_task_at(user_id, body, task_id, now)
}

/// Begins adding a task after the fact for `user_id` at `now`, under the new
/// id `task_id`.
pub fn add_manual_task_at(user_id: String, body: AddManualTaskRequestBody, task_id: String, now: Timestamp) -> (step: Step<
    NewTaskState,
    TaskWithTag,
>)
    ensures
        step@ == manual_begin(user_id, body, task_id, now),
{
    let interval = if body.expires_at.micros < body.started_at.micros {
        IntervalCheck::Reversed
    } else {
        IntervalCheck::Sound
    };
    ask_for_tag(
        Task {
            id: task_id,
            user_id,
            tag_id: body.tag_id,
            is_manual: true,
            started_at: body.started_at,
            stopped_at: None,
            expires_at: body.expires_at,
            deleted_at: None,
            created_at: now,
            updated_at: now,
            synced_at: now,
        },
        interval,
    )
}

/// Begins adding a task after the fact for `user_id` at the server's current
/// time, under the new id `task_id`.
pub fn add_manual_task(user_id: String, body: AddManualTaskRequestBody, task_id: String) -> (step: Step<
    NewTaskState,
    TaskWithTag,
>)
    ensures
        exists|now: Timestamp| now.on_clock() && step@ == manual_begin(user_id, body, task_id, now),
{
    let now = Timestamp::now();
    add_manual_task_at(user_id, body, task_id, now)
}

impl Exchange for NewTaskState {
    type Done = TaskWithTag;

    open spec fn success_code() -> int {
        201
    }

    fn success_status() -> (code: u16) {
        201
    }

    open spec fn pending(state: NewTaskState) -> nat {
        match state {
            NewTaskState::CheckingOngoing { .. } => 3,
            NewTaskState::FetchingTag { .. } => 2,
            NewTaskState::InsertingTask { .. } => 1,
            NewTaskState::InsertingReminder { .. } => 0,
        }
    }

    open spec fn next(state: NewTaskState, reply: ReplyView) -> StepView<NewTaskState, TaskWithTag> {
        new_task_next(state, reply)
    }

    proof fn lemma_next_is_nearer(state: NewTaskState, reply: ReplyView) {
    }

    fn resume(self, reply: Reply) -> (step: Step<NewTaskState, TaskWithTag>) {
        match self {
            NewTaskState::CheckingOngoing { task, interval } => match reply {
                Reply::Ongoing(None) => ask_for_tag(task, interval),
                Reply::Ongoing(Some(_)) => refused_new_task("you already have an ongoing task"),
                _ => failed_new_task("error getting ongoing task"),
            },
            NewTaskState::FetchingTag { task, interval } => match reply {
                Reply::Tag(Some(tag)) => match interval {
                    IntervalCheck::Sound => {
                        let mut task = task;
                        task.tag_id = tag.id;
                        let query = Query::InsertTask { task: task.clone() };
                        Step::Ask(
                            NewTaskState::InsertingTask { task, tag_label: tag.label, tag_color: tag.color },
                            query,
                        )
                    },
                    IntervalCheck::NegativeSeconds => refused_new_task("seconds must not be negative"),
                    IntervalCheck::Reversed => refused_new_task("expires_at must not be before started_at"),
                },
                Reply::Tag(None) => refused_new_task("tag not found"),
                _ => failed_new_task("error fetching tag"),
            },
            NewTaskState::InsertingTask { task, tag_label, tag_color } => match reply {
                Reply::Done => {
                    let reminder = make_reminder(&task, &tag_label);
                    let made = TaskWithTag::from_task(&task, &TagColor(tag_color), &TagLabel(tag_label));
                    Step::Ask(NewTaskState::InsertingReminder { made }, Query::InsertReminder { reminder })
                },
                _ => failed_new_task("error inserting task"),
            },
            NewTaskState::InsertingReminder { made } => match reply {
                Reply::Done => Step::Finish(Ok(made)),
                _ => failed_new_task("error inserting notification"),
            },
        }
    }
}

/// Where a request to stop the running task waits.
#[derive(Debug, PartialEq, Eq)]
pub enum StopState {
    /// Asked for the running task.
    FindingOngoing { user_id: String, now: Timestamp },
    /// The task is being closed.
    UpdatingTask { user_id: String, task_id: String },
    /// The task's reminder is being removed.
    DeletingReminder,
}

impl View for StopState {
    type V = StopState;

    open spec fn view(&self) -> StopState {
        *self
    }
}

/// The first step of stopping the running task of `user_id` at `now`.
pub open spec fn stop_begin(user_id: String, now: Timestamp) -> StepView<StopState, ()> {
    StepView::Ask(StopState::FindingOngoing { user_id, now }, QueryView::GetOngoing { user_id: user_id@, now })
}

/// The step of a stop request on a reply: without a running task the request
/// is refused; otherwise the task is closed at `now` and its reminder removed.
pub open spec fn stop_next(state: StopState, reply: ReplyView) -> StepView<StopState, ()> {
    match state {
        StopState::FindingOngoing { user_id, now } => match reply {
            ReplyView::Ongoing(Some(ongoing)) => StepView::Ask(
                StopState::UpdatingTask { user_id, task_id: ongoing.id },
                QueryView::UpdateTask { task: stopped_task(ongoing, user_id, now) },
            ),
            ReplyView::Ongoing(None) => StepView::Finish(
                Err(ApiErrorView::BadRequest("you don't have an ongoing task"@)),
            ),
            _ => StepView::Finish(Err(ApiErrorView::Internal("error getting ongoing task"@))),
        },
        StopState::UpdatingTask { user_id, task_id } => match reply {
            ReplyView::Done => StepView::Ask(
                StopState::DeletingReminder,
                QueryView::DeleteReminders { user_id: user_id@, task_id: task_id@ },
            ),
            _ => StepView::Finish(Err(ApiErrorView::Internal("error updating task"@))),
        },
        StopState::DeletingReminder => match reply {
            ReplyView::Done => StepView::Finish(Ok(())),
            _ => StepView::Finish(Err(ApiErrorView::Internal("error deleting notification"@))),
        },
    }
}

/// Begins stopping the running task of `user_id` at `now`.
pub fn stop_ongoing_task_at(user_id: String, now: Timestamp) -> (step: Step<StopState, ()>)
    ensures
        step@ == stop_begin(user_id, now),
{
    let query = Query::GetOngoing { user_id: user_id.clone(), now };
    Step::Ask(StopState::FindingOngoing { user_id, now }, query)
}

/// Begins stopping the running task of `user_id` at the server's current time.
pub fn stop_ongoing_task(user_id: String) -> (step: Step<StopState, ()>)
    ensures
        exists|now: Timestamp| now.on_clock() && step@ == stop_begin(user_id, now),
{
    let now = Timestamp::now();
    stop_ongoing_task_at(user_id, now)
}

impl Exchange for StopState {
    type Done = ();

    open spec fn success_code() -> int {
        200
    }

    fn success_status() -> (code: u16) {
        200
    }

    open spec fn pending(state: StopState) -> nat {
        match state {
            StopState::FindingOngoing { .. } => 2,
            StopState::UpdatingTask { .. } => 1,
            StopState::DeletingReminder => 0,
        }
    }

    open spec fn next(state: StopState, reply: ReplyView) -> StepView<StopState, ()> {
        stop_next(state, reply)
    }

    proof fn lemma_next_is_nearer(state: StopState, reply: ReplyView) {
    }

    fn resume(self, reply: Reply) -> (step: Step<StopState, ()>) {
        match self {
            StopState::FindingOngoing { user_id, now } => match reply {
                Reply::Ongoing(Some(ongoing)) => {
                    let task = Task {
                        id: ongoing.id.clone(),
                        user_id: user_id.clone(),
                        tag_id: ongoing.tag_id,
                        is_manual: ongoing.is_manual,
                        started_at: ongoing.started_at,
                        stopped_at: Some(now),
                        expires_at: now,
                        deleted_at: ongoing.deleted_at,
                        created_at: ongoing.created_at,
                        updated_at: now,
                        synced_at: now,
                    };
                    Step::Ask(
                        StopState::UpdatingTask { user_id, task_id: ongoing.id },
                        Query::UpdateTask { task },
                    )
                },
                Reply::Ongoing(None) => Step::Finish(
                    Err(ApiError::bad_request("you don't have an ongoing task")),
                ),
                _ => Step::Finish(Err(ApiError::internal("error getting ongoing task"))),
            },
            StopState::UpdatingTask { user_id, task_id } => match reply {
                Reply::Done => Step::Ask(
                    StopState::DeletingReminder,
                    Query::DeleteReminders { user_id, task_id },
                ),
                _ => Step::Finish(Err(ApiError::internal("error updating task"))),
            },
            StopState::DeletingReminder => match reply {
                Reply::Done => Step::Finish(Ok(())),
                _ => Step::Finish(Err(ApiError::internal("error deleting notification"))),
            },
        }
    }
}

/// Where a request to delete a task waits: the task is being marked.
#[derive(Debug, PartialEq, Eq)]
pub struct DeleteState {}

impl View for DeleteState {
    type V = DeleteState;

    open spec fn view(&self) -> DeleteState {
        *self
    }
}

/// The only step of deleting the task `task_id` of `user_id` at `now`.
pub open spec fn delete_begin(user_id: String, task_id: String, now: Timestamp) -> StepView<DeleteState, ()> {
    StepView::Ask(DeleteState {  }, QueryView::DeleteTask { user_id: user_id@, task_id: task_id@, now })
}

/// The answer to a delete request: a task that the user does not own, or
/// that is not there, is reported as not found.
pub open spec fn delete_next(state: DeleteState, reply: ReplyView) -> StepView<DeleteState, ()> {
    match reply {
        ReplyView::Removed(true) => StepView::Finish(Ok(())),
        ReplyView::Removed(false) => StepView::Finish(Err(ApiErrorView::NotFound("task not found"@))),
        _ => StepView::Finish(Err(ApiErrorView::Internal("error deleting task"@))),
    }
}

/// Begins deleting the task `task_id` of `user_id` at `now`.
pub fn delete_task_at(user_id: String, task_id: String, now: Timestamp) -> (step: Step<DeleteState, ()>)
    ensures
        step@ == delete_begin(user_id, task_id, now),
{
    Step::Ask(DeleteState {  }, Query::DeleteTask { user_id, task_id, now })
}

/// Begins deleting the task `task_id` of `user_id` at the server's current time.
pub fn delete_task(user_id: String, task_id: String) -> (step: Step<DeleteState, ()>)
    ensures
        exists|now: Timestamp| now.on_clock() && step@ == delete_begin(user_id, task_id, now),
{
    let now = Timestamp::now();
    delete_task_at(user_id, task_id, now)
}

impl Exchange for DeleteState {
    type Done = ();

    open spec fn success_code() -> int {
        204
    }

    fn success_status() -> (code: u16) {
        204
    }

    open spec fn pending(state: DeleteState) -> nat {
        0
    }

    open spec fn next(state: DeleteState, reply: ReplyView) -> StepView<DeleteState, ()> {
        delete_next(state, reply)
    }

    proof fn lemma_next_is_nearer(state: DeleteState, reply: ReplyView) {
    }

    fn resume(self, reply: Reply) -> (step: Step<DeleteState, ()>) {
        match reply {
            Reply::Removed(true) => Step::Finish(Ok(())),
            Reply::Removed(false) => Step::Finish(Err(ApiError::not_found("task not found"))),
            _ => Step::Finish(Err(ApiError::internal("error deleting task"))),
        }
    }
}

/// Where a request for the running task waits: the task is being looked up.
#[derive(Debug, PartialEq, Eq)]
pub struct OngoingState {}

impl View for OngoingState {
    type V = OngoingState;

    open spec fn view(&self) -> OngoingState {
        *self
    }
}

/// The only step of looking up the running task of `user_id` at `now`.
pub open spec fn ongoing_begin(user_id: String, now: Timestamp) -> StepView<OngoingState, Option<TaskWithTag>> {
    StepView::Ask(OngoingState {  }, QueryView::GetOngoing { user_id: user_id@, now })
}

/// The answer to a request for the running task: the task, or none.
pub open spec fn ongoing_next(state: OngoingState, reply: ReplyView) -> StepView<OngoingState, Option<TaskWithTag>> {
    match reply {
        ReplyView::Ongoing(found) => StepView::Finish(Ok(found)),
        _ => StepView::Finish(Err(ApiErrorView::Internal("error fetching ongoing task"@))),
    }
}

/// Begins looking up the running task of `user_id` at `now`.
pub fn get_ongoing_task_at(user_id: String, now: Timestamp) -> (step: Step<OngoingState, Option<TaskWithTag>>)
    ensures
        step@ == ongoing_begin(user_id, now),
{
    Step::Ask(OngoingState {  }, Query::GetOngoing { user_id, now })
}

/// Begins looking up the running task of `user_id` at the server's current time.
pub fn get_ongoing_task(user_id: String) -> (step: Step<OngoingState, Option<TaskWithTag>>)
    ensures
        exists|now: Timestamp| now.on_clock() && step@ == ongoing_begin(user_id, now),
{
    let now = Timestamp::now();
    get_ongoing_task_at(user_id, now)
}

impl Exchange for OngoingState {
    type Done = Option<TaskWithTag>;

    open spec fn success_code() -> int {
        200
    }

    fn success_status() -> (code: u16) {
        200
    }

    open spec fn pending(state: OngoingState) -> nat {
        0
    }

    open spec fn next(state: OngoingState, reply: ReplyView) -> StepView<OngoingState, Option<TaskWithTag>> {
        ongoing_next(state, reply)
    }

    proof fn lemma_next_is_nearer(state: OngoingState, reply: ReplyView) {
    }

    fn resume(self, reply: Reply) -> (step: Step<OngoingState, Option<TaskWithTag>>) {
        match reply {
            Reply::Ongoing(found) => Step::Finish(Ok(found)),
            _ => Step::Finish(Err(ApiError::internal("error fetching ongoing task"))),
        }
    }
}

/// Where a request for a page of the task list waits: the page is being
/// listed.
#[derive(Debug, PartialEq, Eq)]
pub struct ListTasksState {}

impl View for ListTasksState {
    type V = ListTasksState;

    open spec fn view(&self) -> ListTasksState {
        *self
    }
}

/// The id after which a page starts: the `last_id` of the request, unless it
/// is missing or empty.
pub open spec fn page_cursor(last_id: Option<String>) -> Option<Seq<char>> {
    match last_id {
        Some(id) if id@.len() > 0 => Some(id@),
        _ => None,
    }
}

/// The only step of listing a page of the tasks of `user_id`.
pub open spec fn tasks_begin(user_id: String, last_id: Option<String>) -> StepView<ListTasksState, Seq<TaskWithTag>> {
    StepView::Ask(
        ListTasksState {  },
        QueryView::ListTasks { user_id: user_id@, last_id: page_cursor(last_id) },
    )
}

/// The answer to a request for a page of the task list: the page.
pub open spec fn tasks_next(state: ListTasksState, reply: ReplyView) -> StepView<ListTasksState, Seq<TaskWithTag>> {
    match reply {
        ReplyView::Page(page) => StepView::Finish(Ok(page)),
        _ => StepView::Finish(Err(ApiErrorView::Internal("error fetching tasks"@))),
    }
}

/// Begins listing a page of the tasks of `user_id`, starting after `last_id`.
pub fn get_tasks(user_id: String, last_id: Option<String>) -> (step: Step<ListTasksState, Vec<TaskWithTag>>)
    ensures
        step@ == tasks_begin(user_id, last_id),
{
    let last_id = match last_id {
        Some(id) => if id.as_str().is_empty() {
            None
        } else {
            Some(id)
        },
        None => None,
    };
    Step::Ask(ListTasksState {  }, Query::ListTasks { user_id, last_id })
}

impl Exchange for ListTasksState {
    type Done = Vec<TaskWithTag>;

    open spec fn success_code() -> int {
        200
    }

    fn success_status() -> (code: u16) {
        200
    }

    open spec fn pending(state: ListTasksState) -> nat {
        0
    }

    open spec fn next(state: ListTasksState, reply: ReplyView) -> StepView<ListTasksState, Seq<TaskWithTag>> {
        tasks_next(state, reply)
    }

    proof fn lemma_next_is_nearer(state: ListTasksState, reply: ReplyView) {
    }

    fn resume(self, reply: Reply) -> (step: Step<ListTasksState, Vec<TaskWithTag>>) {
        match reply {
            Reply::Page(page) => Step::Finish(Ok(page)),
            _ => Step::Finish(Err(ApiError::internal("error fetching tasks"))),
        }
    }
}

} // verus!
