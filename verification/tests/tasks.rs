use sync_core::db::notifications::Reminder;
use sync_core::db::store::{Query, Reply, Store};
use sync_core::db::tags::{get_all, insert as insert_tag, owns_tag};
use sync_core::endpoints::tags::get_tags;
use sync_core::text::comes_before;
use sync_core::db::tasks::{
    get_many, get_ongoing, insert as insert_task, owns_task, update as update_task, InvalidTimeframe,
    StatsTimeframe, TagColor, TagLabel, Task, TaskWithTag,
};
use sync_core::endpoints::tasks::{
    add_manual_task_at, delete_task_at, get_ongoing_task_at, get_tasks, start_task, start_task_at,
    stop_ongoing_task_at, AddManualTaskRequestBody, IntervalCheck, NewTaskState, StartTaskRequestBody,
};
use sync_core::error::ApiError;
use sync_core::exchange::{drive, Exchange, Step};
use sync_core::time::Timestamp;

const SECOND: i64 = 1_000_000;

fn at(micros: i64) -> Timestamp {
    Timestamp::from_micros(micros)
}

fn store_with_tag(user: &str, tag_id: &str, label: &str) -> Store {
    let mut store = Store::new();
    let made = insert_tag(
        &mut store.tags,
        tag_id.to_string(),
        user.to_string(),
        label.to_string(),
        "#00ff00".to_string(),
        at(1),
    );
    assert!(made.is_some());
    store
}

fn start(store: &mut Store, user: &str, tag_id: &str, seconds: i32, task_id: &str, now: Timestamp) -> Result<TaskWithTag, ApiError> {
    let body = StartTaskRequestBody { tag_id: tag_id.to_string(), seconds };
    drive(store, start_task_at(user.to_string(), body, task_id.to_string(), now))
}

fn stop(store: &mut Store, user: &str, now: Timestamp) -> Result<(), ApiError> {
    drive(store, stop_ongoing_task_at(user.to_string(), now))
}

#[test]
fn starting_a_task_stores_it_and_schedules_one_reminder_at_its_end() {
    let mut store = store_with_tag("u1", "tag1", "Reading");
    let now = at(1_000 * SECOND);
    let started = start(&mut store, "u1", "tag1", 60, "task1", now).expect("the start succeeds");
    assert_eq!(started.id, "task1");
    assert_eq!(started.user_id, "u1");
    assert_eq!(started.tag_id, "tag1");
    assert!(!started.is_manual);
    assert_eq!(started.started_at, now);
    assert_eq!(started.expires_at, at(1_060 * SECOND));
    assert_eq!(started.stopped_at, None);
    assert_eq!(started.tag_label, "Reading");
    assert_eq!(started.tag_color, "#00ff00");
    assert_eq!(store.tasks.len(), 1);
    assert_eq!(store.tasks[0].synced_at, now);
    assert_eq!(
        store.reminders,
        vec![Reminder {
            user_id: "u1".to_string(),
            task_id: "task1".to_string(),
            title: "Task finished".to_string(),
            body: "Your task 'Reading' has finished".to_string(),
            fire_at: at(1_060 * SECOND),
        }]
    );
}

#[test]
fn a_duration_of_more_than_two_hours_is_refused() {
    let mut store = store_with_tag("u1", "tag1", "Reading");
    let refused = start(&mut store, "u1", "tag1", 7201, "task1", at(0));
    assert_eq!(refused, Err(ApiError::BadRequest("seconds must be less than 2 hours".to_string())));
    assert!(store.tasks.is_empty());
    assert!(store.reminders.is_empty());
    assert!(start(&mut store, "u1", "tag1", 7200, "task1", at(0)).is_ok());
}

#[test]
fn a_second_start_is_refused_while_a_task_runs() {
    let mut store = store_with_tag("u1", "tag1", "Reading");
    start(&mut store, "u1", "tag1", 600, "task1", at(0)).expect("the first start succeeds");
    let refused = start(&mut store, "u1", "tag1", 600, "task2", at(10 * SECOND));
    assert_eq!(refused, Err(ApiError::BadRequest("you already have an ongoing task".to_string())));
    assert_eq!(refused.unwrap_err().status_code(), 400);
    assert_eq!(store.tasks.len(), 1);
    assert_eq!(store.reminders.len(), 1);
}

#[test]
fn after_the_running_task_is_stopped_a_new_one_can_start() {
    let mut store = store_with_tag("u1", "tag1", "Reading");
    start(&mut store, "u1", "tag1", 600, "task1", at(0)).expect("the first start succeeds");
    stop(&mut store, "u1", at(10 * SECOND)).expect("the stop succeeds");
    let again = start(&mut store, "u1", "tag1", 600, "task2", at(10 * SECOND));
    assert!(again.is_ok());
    assert_eq!(store.tasks.len(), 2);
}

#[test]
fn another_users_running_task_does_not_block_a_start() {
    let mut store = store_with_tag("u1", "tag1", "Reading");
    insert_tag(&mut store.tags, "tag2".to_string(), "u2".to_string(), "Chess".to_string(), "#000".to_string(), at(1));
    start(&mut store, "u1", "tag1", 600, "task1", at(0)).expect("the first start succeeds");
    assert!(start(&mut store, "u2", "tag2", 600, "task2", at(5)).is_ok());
}

#[test]
fn a_tag_of_another_user_is_not_found() {
    let mut store = store_with_tag("u1", "tag1", "Reading");
    let refused = start(&mut store, "u2", "tag1", 60, "task1", at(0));
    assert_eq!(refused, Err(ApiError::BadRequest("tag not found".to_string())));
    let refused = start(&mut store, "u1", "nothing", 60, "task1", at(0));
    assert_eq!(refused, Err(ApiError::BadRequest("tag not found".to_string())));
    assert!(store.tasks.is_empty());
}

#[test]
fn a_task_id_that_is_taken_fails_the_insert() {
    let mut store = store_with_tag("u1", "tag1", "Reading");
    start(&mut store, "u1", "tag1", 60, "task1", at(0)).expect("the first start succeeds");
    let failed = start(&mut store, "u1", "tag1", 60, "task1", at(100 * SECOND));
    assert_eq!(failed, Err(ApiError::Internal("error inserting task".to_string())));
    assert_eq!(failed.unwrap_err().status_code(), 500);
    assert_eq!(store.tasks.len(), 1);
    assert_eq!(store.reminders.len(), 1);
}

#[test]
fn stopping_before_the_expiry_closes_the_task_and_deletes_its_reminder() {
    let mut store = store_with_tag("u1", "tag1", "Reading");
    start(&mut store, "u1", "tag1", 60, "task1", at(0)).expect("the start succeeds");
    assert_eq!(store.reminders.len(), 1);
    stop(&mut store, "u1", at(30 * SECOND)).expect("the stop succeeds");
    assert!(store.reminders.is_empty());
    assert_eq!(store.tasks.len(), 1);
    assert_eq!(store.tasks[0].expires_at, at(30 * SECOND));
    assert_eq!(store.tasks[0].stopped_at, Some(at(30 * SECOND)));
    assert_eq!(store.tasks[0].started_at, at(0));
    assert_eq!(store.tasks[0].updated_at, at(30 * SECOND));
    assert_eq!(store.tasks[0].synced_at, at(30 * SECOND));
    assert_eq!(store.tasks[0].created_at, at(0));
}

#[test]
fn stopping_removes_only_the_reminder_of_the_stopped_task() {
    let mut store = store_with_tag("u1", "tag1", "Reading");
    start(&mut store, "u1", "tag1", 10, "task1", at(0)).expect("the start succeeds");
    start(&mut store, "u1", "tag1", 60, "task2", at(20 * SECOND)).expect("the start succeeds");
    assert_eq!(store.reminders.len(), 2);
    stop(&mut store, "u1", at(30 * SECOND)).expect("the stop succeeds");
    assert_eq!(store.reminders.len(), 1);
    assert_eq!(store.reminders[0].task_id, "task1");
}

#[test]
fn a_task_that_ran_past_its_expiry_keeps_its_reminder() {
    let mut store = store_with_tag("u1", "tag1", "Reading");
    start(&mut store, "u1", "tag1", 60, "task1", at(0)).expect("the start succeeds");
    let refused = stop(&mut store, "u1", at(60 * SECOND));
    assert_eq!(refused, Err(ApiError::BadRequest("you don't have an ongoing task".to_string())));
    assert_eq!(store.reminders.len(), 1);
    assert_eq!(store.reminders[0].fire_at, at(60 * SECOND));
    assert_eq!(store.tasks[0].stopped_at, None);
}

#[test]
fn stopping_without_a_running_task_is_refused() {
    let mut store = Store::new();
    assert_eq!(
        stop(&mut store, "u1", at(0)),
        Err(ApiError::BadRequest("you don't have an ongoing task".to_string()))
    );
}

#[test]
fn a_task_runs_from_its_start_until_just_before_its_end() {
    let mut store = store_with_tag("u1", "tag1", "Reading");
    start(&mut store, "u1", "tag1", 60, "task1", at(100)).expect("the start succeeds");
    assert!(get_ongoing(&store.tasks, &store.tags, "u1", at(99)).is_none());
    assert!(get_ongoing(&store.tasks, &store.tags, "u1", at(100)).is_some());
    assert!(get_ongoing(&store.tasks, &store.tags, "u1", at(100 + 60 * SECOND - 1)).is_some());
    assert!(get_ongoing(&store.tasks, &store.tags, "u1", at(100 + 60 * SECOND)).is_none());
    assert!(get_ongoing(&store.tasks, &store.tags, "u2", at(100)).is_none());
    assert!(store.tasks[0].is_ongoing(at(100)));
}

#[test]
fn a_deleted_or_stopped_task_does_not_run() {
    let mut store = store_with_tag("u1", "tag1", "Reading");
    start(&mut store, "u1", "tag1", 60, "task1", at(0)).expect("the start succeeds");
    drive(&mut store, delete_task_at("u1".to_string(), "task1".to_string(), at(5))).expect("the task is there");
    assert!(get_ongoing(&store.tasks, &store.tags, "u1", at(10)).is_none());
    let mut stopped = store.tasks[0].clone();
    stopped.deleted_at = None;
    stopped.stopped_at = Some(at(6));
    assert!(!stopped.is_ongoing(at(10)));
    stopped.stopped_at = None;
    assert!(stopped.is_ongoing(at(10)));
}

#[test]
fn deleting_a_task_marks_it_and_keeps_the_row() {
    let mut store = store_with_tag("u1", "tag1", "Reading");
    start(&mut store, "u1", "tag1", 60, "task1", at(0)).expect("the start succeeds");
    let done = drive(&mut store, delete_task_at("u1".to_string(), "task1".to_string(), at(7)));
    assert_eq!(done, Ok(()));
    assert_eq!(store.tasks.len(), 1);
    assert_eq!(store.tasks[0].deleted_at, Some(at(7)));
    assert_eq!(store.tasks[0].updated_at, at(7));
    assert_eq!(store.tasks[0].synced_at, at(7));
    assert_eq!(store.reminders.len(), 1);
}

#[test]
fn deleting_a_task_of_another_user_or_none_is_not_found() {
    let mut store = store_with_tag("u1", "tag1", "Reading");
    start(&mut store, "u1", "tag1", 60, "task1", at(0)).expect("the start succeeds");
    let missing = drive(&mut store, delete_task_at("u2".to_string(), "task1".to_string(), at(7)));
    assert_eq!(missing, Err(ApiError::NotFound("task not found".to_string())));
    assert_eq!(missing.unwrap_err().status_code(), 404);
    assert_eq!(store.tasks[0].deleted_at, None);
    let missing = drive(&mut store, delete_task_at("u1".to_string(), "nothing".to_string(), at(7)));
    assert_eq!(missing, Err(ApiError::NotFound("task not found".to_string())));
}

#[test]
fn a_manual_task_is_stored_with_its_interval_and_a_reminder_at_its_end() {
    let mut store = store_with_tag("u1", "tag1", "Reading");
    let body = AddManualTaskRequestBody { tag_id: "tag1".to_string(), started_at: at(100), expires_at: at(900) };
    let made = drive(&mut store, add_manual_task_at("u1".to_string(), body, "m1".to_string(), at(5_000)))
        .expect("the task is made");
    assert!(made.is_manual);
    assert_eq!(made.started_at, at(100));
    assert_eq!(made.expires_at, at(900));
    assert_eq!(made.tag_label, "Reading");
    assert_eq!(store.tasks.len(), 1);
    assert_eq!(store.tasks[0].created_at, at(5_000));
    assert_eq!(store.reminders.len(), 1);
    assert_eq!(store.reminders[0].fire_at, at(900));
    assert_eq!(store.reminders[0].task_id, "m1");
}

#[test]
fn a_manual_task_needs_a_tag_of_the_user() {
    let mut store = store_with_tag("u1", "tag1", "Reading");
    let body = AddManualTaskRequestBody { tag_id: "tag1".to_string(), started_at: at(100), expires_at: at(900) };
    let refused = drive(&mut store, add_manual_task_at("u2".to_string(), body, "m1".to_string(), at(5_000)));
    assert_eq!(refused, Err(ApiError::BadRequest("tag not found".to_string())));
}

#[test]
fn the_running_task_is_reported_or_none() {
    let mut store = store_with_tag("u1", "tag1", "Reading");
    let none = drive(&mut store, get_ongoing_task_at("u1".to_string(), at(0)));
    assert_eq!(none, Ok(None));
    start(&mut store, "u1", "tag1", 60, "task1", at(0)).expect("the start succeeds");
    let some = drive(&mut store, get_ongoing_task_at("u1".to_string(), at(1))).expect("the store does not fail");
    assert_eq!(some.expect("a task runs").id, "task1");
}

fn state_of(step: Step<NewTaskState, TaskWithTag>) -> NewTaskState {
    match step {
        Step::Ask(state, _) => state,
        Step::Finish(_) => panic!("the request is not answered yet"),
    }
}

#[test]
fn each_store_failure_of_a_start_has_its_own_message() {
    let body = || StartTaskRequestBody { tag_id: "tag1".to_string(), seconds: 60 };
    let begin = || state_of(start_task_at("u1".to_string(), body(), "task1".to_string(), at(0)));
    assert_eq!(
        begin().resume(Reply::Failed),
        Step::Finish(Err(ApiError::Internal("error getting ongoing task".to_string())))
    );
    let fetching = state_of(begin().resume(Reply::Ongoing(None)));
    assert_eq!(fetching.resume(Reply::Failed), Step::Finish(Err(ApiError::Internal("error fetching tag".to_string()))));
    let tag = store_with_tag("u1", "tag1", "Reading").tags[0].clone();
    let inserting = state_of(state_of(begin().resume(Reply::Ongoing(None))).resume(Reply::Tag(Some(tag.clone()))));
    assert_eq!(
        inserting.resume(Reply::Failed),
        Step::Finish(Err(ApiError::Internal("error inserting task".to_string())))
    );
    let inserting = state_of(state_of(begin().resume(Reply::Ongoing(None))).resume(Reply::Tag(Some(tag))));
    let reminding = state_of(inserting.resume(Reply::Done));
    assert_eq!(
        reminding.resume(Reply::Failed),
        Step::Finish(Err(ApiError::Internal("error inserting notification".to_string())))
    );
}

#[test]
fn each_store_failure_of_a_stop_has_its_own_message() {
    let begin = || match stop_ongoing_task_at("u1".to_string(), at(50)) {
        Step::Ask(state, query) => {
            assert_eq!(query, Query::GetOngoing { user_id: "u1".to_string(), now: at(50) });
            state
        },
        Step::Finish(_) => panic!("the request is not answered yet"),
    };
    assert_eq!(
        begin().resume(Reply::Failed),
        Step::Finish(Err(ApiError::Internal("error getting ongoing task".to_string())))
    );
    let mut store = store_with_tag("u1", "tag1", "Reading");
    start(&mut store, "u1", "tag1", 60, "task1", at(0)).expect("the start succeeds");
    let ongoing = get_ongoing(&store.tasks, &store.tags, "u1", at(50));
    let updating = match begin().resume(Reply::Ongoing(ongoing)) {
        Step::Ask(state, Query::UpdateTask { task }) => {
            assert_eq!(task.expires_at, at(50));
            state
        },
        other => panic!("expected the update, got {:?}", other),
    };
    assert_eq!(updating.resume(Reply::Failed), Step::Finish(Err(ApiError::Internal("error updating task".to_string()))));
}

#[test]
fn a_start_at_the_current_time_ends_the_given_seconds_later() {
    let body = StartTaskRequestBody { tag_id: "tag1".to_string(), seconds: 90 };
    match start_task("u1".to_string(), body, "task1".to_string()) {
        Step::Ask(NewTaskState::CheckingOngoing { task, interval }, Query::GetOngoing { user_id, now }) => {
            assert_eq!(interval, IntervalCheck::Sound);
            assert_eq!(user_id, "u1");
            assert_eq!(task.started_at, now);
            assert_eq!(task.expires_at.micros - task.started_at.micros, 90 * SECOND);
        },
        other => panic!("expected the lookup of the running task, got {:?}", other),
    }
}

#[test]
fn from_task_joins_a_task_with_its_tag() {
    let task = Task {
        id: "k".to_string(),
        user_id: "u".to_string(),
        tag_id: "t".to_string(),
        is_manual: true,
        started_at: at(1),
        stopped_at: Some(at(2)),
        expires_at: at(3),
        deleted_at: None,
        created_at: at(4),
        updated_at: at(5),
        synced_at: at(6),
    };
    let joined = TaskWithTag::from_task(&task, &TagColor("#abc".to_string()), &TagLabel("Label".to_string()));
    assert_eq!(joined.id, "k");
    assert_eq!(joined.user_id, "u");
    assert_eq!(joined.tag_id, "t");
    assert!(joined.is_manual);
    assert_eq!(joined.started_at, at(1));
    assert_eq!(joined.stopped_at, Some(at(2)));
    assert_eq!(joined.expires_at, at(3));
    assert_eq!(joined.synced_at, at(6));
    assert_eq!(joined.tag_label, "Label");
    assert_eq!(joined.tag_color, "#abc");
}

#[test]
fn owners_are_told_apart() {
    let mut store = store_with_tag("u1", "tag1", "Reading");
    start(&mut store, "u1", "tag1", 60, "task1", at(0)).expect("the start succeeds");
    assert!(owns_tag(&store.tags, "u1", "tag1"));
    assert!(!owns_tag(&store.tags, "u2", "tag1"));
    assert!(!owns_tag(&store.tags, "u1", "tag2"));
    assert!(owns_task(&store.tasks, "u1", "task1"));
    assert!(!owns_task(&store.tasks, "u2", "task1"));
    assert!(!owns_task(&store.tasks, "u1", "task2"));
}

#[test]
fn a_plain_insert_refuses_an_id_that_is_taken() {
    let mut store = store_with_tag("u1", "tag1", "Reading");
    let again = insert_tag(&mut store.tags, "tag1".to_string(), "u2".to_string(), "x".to_string(), "y".to_string(), at(9));
    assert_eq!(again, None);
    assert_eq!(store.tags.len(), 1);
    assert_eq!(store.tags[0].user_id, "u1");
    start(&mut store, "u1", "tag1", 60, "task1", at(0)).expect("the start succeeds");
    let copy = store.tasks[0].clone();
    assert!(!insert_task(&mut store.tasks, &copy));
    assert_eq!(store.tasks.len(), 1);
}

#[test]
fn an_update_needs_the_owner() {
    let mut store = store_with_tag("u1", "tag1", "Reading");
    start(&mut store, "u1", "tag1", 60, "task1", at(0)).expect("the start succeeds");
    let mut theirs = store.tasks[0].clone();
    theirs.user_id = "u2".to_string();
    theirs.is_manual = true;
    assert!(!update_task(&mut store.tasks, &theirs));
    assert!(!store.tasks[0].is_manual);
    let mut mine = store.tasks[0].clone();
    mine.is_manual = true;
    assert!(update_task(&mut store.tasks, &mine));
    assert!(store.tasks[0].is_manual);
}

fn cursor_of(last_id: Option<&str>) -> Option<String> {
    match get_tasks("u1".to_string(), last_id.map(str::to_string)) {
        Step::Ask(_, Query::ListTasks { user_id, last_id }) => {
            assert_eq!(user_id, "u1");
            last_id
        },
        other => panic!("expected the listing, got {:?}", other),
    }
}

#[test]
fn a_page_starts_after_the_last_id_unless_it_is_empty() {
    assert_eq!(cursor_of(Some("abc")), Some("abc".to_string()));
    assert_eq!(cursor_of(Some("")), None);
    assert_eq!(cursor_of(None), None);
}

#[test]
fn a_failed_listing_fails_the_request() {
    match get_tasks("u1".to_string(), None) {
        Step::Ask(state, _) => assert_eq!(
            state.resume(Reply::Failed),
            Step::Finish(Err(ApiError::Internal("error fetching tasks".to_string())))
        ),
        Step::Finish(_) => panic!("the request is not answered yet"),
    }
}

fn manual(store: &mut Store, id: &str, started: i64) {
    let body = AddManualTaskRequestBody { tag_id: "tag1".to_string(), started_at: at(started), expires_at: at(started + 1) };
    drive(store, add_manual_task_at("u1".to_string(), body, id.to_string(), at(0))).expect("the task is made");
}

fn ids(page: &[TaskWithTag]) -> Vec<&str> {
    page.iter().map(|task| task.id.as_str()).collect()
}

#[test]
fn the_task_list_runs_from_the_latest_start_to_the_earliest() {
    let mut store = store_with_tag("u1", "tag1", "Reading");
    manual(&mut store, "b", 20);
    manual(&mut store, "a", 30);
    manual(&mut store, "d", 10);
    manual(&mut store, "c", 30);
    let page = drive(&mut store, get_tasks("u1".to_string(), None)).expect("the store does not fail");
    assert_eq!(ids(&page), vec!["a", "c", "b", "d"]);
    assert_eq!(page[0].tag_label, "Reading");
    let page = drive(&mut store, get_tasks("u1".to_string(), Some("c".to_string()))).expect("the store does not fail");
    assert_eq!(ids(&page), vec!["a", "b"]);
    let page = drive(&mut store, get_tasks("u2".to_string(), None)).expect("the store does not fail");
    assert!(page.is_empty());
}

#[test]
fn a_page_of_the_task_list_holds_thirty_tasks_at_most() {
    let mut store = store_with_tag("u1", "tag1", "Reading");
    for n in 0..31 {
        manual(&mut store, &format!("task{:02}", n), n);
    }
    let page = get_many(&store.tasks, &store.tags, "u1", None);
    assert_eq!(page.len(), 30);
    assert_eq!(page[0].id, "task30");
    assert_eq!(page[29].id, "task01");
    let page = get_many(&store.tasks, &store.tags, "u1", Some("task05"));
    assert_eq!(ids(&page), vec!["task04", "task03", "task02", "task01", "task00"]);
}

#[test]
fn a_task_without_its_tag_is_not_listed() {
    let mut store = store_with_tag("u1", "tag1", "Reading");
    manual(&mut store, "a", 1);
    store.tasks[0].tag_id = "gone".to_string();
    assert!(get_many(&store.tasks, &store.tags, "u1", None).is_empty());
}

#[test]
fn texts_are_ordered_by_their_bytes() {
    assert!(comes_before("a", "b"));
    assert!(comes_before("a", "ab"));
    assert!(comes_before("", "a"));
    assert!(comes_before("Z", "a"));
    assert!(comes_before("z", "é"));
    assert!(!comes_before("a", "a"));
    assert!(!comes_before("b", "a"));
    assert!(!comes_before("ab", "a"));
    assert!(!comes_before("", ""));
    for (a, b) in [("abc", "abd"), ("x", "x"), ("é", "z"), ("10", "9")] {
        assert_eq!(comes_before(a, b), a < b);
    }
}

#[test]
fn the_tag_list_runs_from_the_newest_to_the_oldest() {
    let mut store = Store::new();
    for (id, created) in [("a", 5), ("b", 9), ("c", 5), ("d", 1)] {
        insert_tag(&mut store.tags, id.to_string(), "u1".to_string(), id.to_string(), "#fff".to_string(), at(created));
    }
    insert_tag(&mut store.tags, "x".to_string(), "u2".to_string(), "x".to_string(), "#fff".to_string(), at(7));
    let all = get_all(&store.tags, "u1");
    let listed: Vec<&str> = all.iter().map(|tag| tag.id.as_str()).collect();
    assert_eq!(listed, vec!["b", "a", "c", "d"]);
    let all = drive(&mut store, get_tags("u2".to_string())).expect("the store does not fail");
    assert_eq!(all.len(), 1);
    assert_eq!(all[0].id, "x");
}

#[test]
fn timeframes_are_read_from_their_names() {
    assert_eq!(StatsTimeframe::from_str("day"), Ok(StatsTimeframe::Day));
    assert_eq!(StatsTimeframe::from_str("week"), Ok(StatsTimeframe::Week));
    assert_eq!(StatsTimeframe::from_str("month"), Ok(StatsTimeframe::Month));
    assert_eq!(StatsTimeframe::from_str("year"), Ok(StatsTimeframe::Year));
    assert_eq!(StatsTimeframe::from_str("Day"), Err(InvalidTimeframe {}));
    assert_eq!(StatsTimeframe::from_str(""), Err(InvalidTimeframe {}));
    assert_eq!(InvalidTimeframe {}.message(), "invalid timeframe");
}

#[test]
fn timeframes_are_written_as_their_names() {
    assert_eq!(StatsTimeframe::Day.as_ref(), "day");
    assert_eq!(StatsTimeframe::Week.as_ref(), "week");
    assert_eq!(StatsTimeframe::Month.as_ref(), "month");
    assert_eq!(StatsTimeframe::Year.as_ref(), "year");
    assert_eq!(StatsTimeframe::Month.to_string(), "month");
    for timeframe in [StatsTimeframe::Day, StatsTimeframe::Week, StatsTimeframe::Month, StatsTimeframe::Year] {
        assert_eq!(StatsTimeframe::from_str(timeframe.as_ref()), Ok(timeframe));
    }
}

#[test]
fn a_negative_duration_is_refused() {
    let mut store = store_with_tag("u1", "tag1", "Reading");
    let refused = start(&mut store, "u1", "tag1", -60, "task1", at(1_000 * SECOND));
    assert_eq!(refused, Err(ApiError::BadRequest("seconds must not be negative".to_string())));
    assert_eq!(refused.unwrap_err().status_code(), 400);
    assert!(store.tasks.is_empty());
    assert!(store.reminders.is_empty());
    let refused = start(&mut store, "u1", "tag1", i32::MIN, "task1", at(0));
    assert_eq!(refused, Err(ApiError::BadRequest("seconds must not be negative".to_string())));
    let refused = start(&mut store, "u1", "tag1", -1, "task1", at(i64::MIN));
    assert_eq!(refused, Err(ApiError::BadRequest("seconds must not be negative".to_string())));
    let empty = start(&mut store, "u1", "tag1", 0, "task1", at(5)).expect("no seconds are no fewer than none");
    assert_eq!(empty.started_at, at(5));
    assert_eq!(empty.expires_at, at(5));
}

#[test]
fn the_checks_of_a_start_come_in_their_order() {
    let mut store = store_with_tag("u1", "tag1", "Reading");
    let refused = start(&mut store, "u1", "nothing", -60, "task1", at(0));
    assert_eq!(refused, Err(ApiError::BadRequest("tag not found".to_string())));
    let refused = start(&mut store, "u2", "tag1", -60, "task1", at(0));
    assert_eq!(refused, Err(ApiError::BadRequest("tag not found".to_string())));
    let refused = start(&mut store, "u1", "nothing", 7201, "task1", at(0));
    assert_eq!(refused, Err(ApiError::BadRequest("seconds must be less than 2 hours".to_string())));
    start(&mut store, "u1", "tag1", 600, "task1", at(0)).expect("the start succeeds");
    let refused = start(&mut store, "u1", "nothing", -60, "task2", at(10));
    assert_eq!(refused, Err(ApiError::BadRequest("you already have an ongoing task".to_string())));
    let refused = start(&mut store, "u1", "tag1", -60, "task2", at(10));
    assert_eq!(refused, Err(ApiError::BadRequest("you already have an ongoing task".to_string())));
    let refused = start(&mut store, "u1", "tag1", 7201, "task2", at(10));
    assert_eq!(refused, Err(ApiError::BadRequest("seconds must be less than 2 hours".to_string())));
    assert_eq!(store.tasks.len(), 1);
    assert_eq!(store.reminders.len(), 1);
}

#[test]
fn a_manual_task_that_ends_before_it_starts_is_refused() {
    let mut store = store_with_tag("u1", "tag1", "Reading");
    let body = AddManualTaskRequestBody { tag_id: "tag1".to_string(), started_at: at(900), expires_at: at(899) };
    let refused = drive(&mut store, add_manual_task_at("u1".to_string(), body, "m1".to_string(), at(5_000)));
    assert_eq!(refused, Err(ApiError::BadRequest("expires_at must not be before started_at".to_string())));
    assert!(store.tasks.is_empty());
    assert!(store.reminders.is_empty());
    let body = AddManualTaskRequestBody { tag_id: "nothing".to_string(), started_at: at(900), expires_at: at(899) };
    let refused = drive(&mut store, add_manual_task_at("u1".to_string(), body, "m1".to_string(), at(5_000)));
    assert_eq!(refused, Err(ApiError::BadRequest("tag not found".to_string())));
    let body = AddManualTaskRequestBody { tag_id: "tag1".to_string(), started_at: at(900), expires_at: at(899) };
    let refused = drive(&mut store, add_manual_task_at("u2".to_string(), body, "m1".to_string(), at(5_000)));
    assert_eq!(refused, Err(ApiError::BadRequest("tag not found".to_string())));
    assert!(store.tasks.is_empty());
    let body = AddManualTaskRequestBody { tag_id: "tag1".to_string(), started_at: at(900), expires_at: at(900) };
    let made = drive(&mut store, add_manual_task_at("u1".to_string(), body, "m1".to_string(), at(5_000)));
    assert!(made.is_ok());
}

#[test]
fn every_task_that_the_lifecycle_stores_ends_no_earlier_than_it_starts() {
    let mut store = store_with_tag("u1", "tag1", "Reading");
    start(&mut store, "u1", "tag1", 60, "task1", at(0)).expect("the start succeeds");
    stop(&mut store, "u1", at(0)).expect("the stop succeeds");
    start(&mut store, "u1", "tag1", 7200, "task2", at(i64::MAX - 5)).expect("the start succeeds");
    for task in &store.tasks {
        assert!(task.started_at.micros <= task.expires_at.micros);
    }
}
