//! The task table, and the tasks as the lifecycle endpoints hand them out.

use vstd::prelude::*;
use crate::db::table::{
    find, get_owned, insert_new, inserted, keys_unique, lemma_newest_first, lemma_position, newest_first, owned_row,
    position, sort_newest_first, update_owned, updated, Record,
};
use crate::text::{comes_before, text_before};
use crate::db::scan::{first_index, lemma_first_index, lemma_first_index_is, lemma_first_index_none};
use crate::db::tags::Tag;
use crate::time::Timestamp;

verus! {

/// One tracked interval, as stored. `expires_at` is the interval's end: the
/// expiry of a running task, the stop time of a finished one. `stopped_at` is
/// set when a task was stopped before its expiry, `deleted_at` when it was
/// deleted.
#[derive(Debug, PartialEq, Eq)]
pub struct Task {
    pub id: String,
    pub user_id: String,
    pub tag_id: String,
    pub is_manual: bool,
    pub started_at: Timestamp,
    pub stopped_at: Option<Timestamp>,
    pub expires_at: Timestamp,
    pub deleted_at: Option<Timestamp>,
    pub created_at: Timestamp,
    pub updated_at: Timestamp,
    pub synced_at: Timestamp,
}

/// A task together with the label and colour of its tag.
#[derive(Debug, PartialEq, Eq)]
pub struct TaskWithTag {
    pub id: String,
    pub user_id: String,
    pub tag_id: String,
    pub is_manual: bool,
    pub started_at: Timestamp,
    pub stopped_at: Option<Timestamp>,
    pub expires_at: Timestamp,
    pub deleted_at: Option<Timestamp>,
    pub created_at: Timestamp,
    pub updated_at: Timestamp,
    pub synced_at: Timestamp,
    pub tag_label: String,
    pub tag_color: String,
}

/// The colour of a tag.
pub struct TagColor(pub String);

/// The label of a tag.
pub struct TagLabel(pub String);

impl Clone for Task {
    fn clone(&self) -> (task: Self)
        ensures
            task == *self,
    {
        Task {
            id: self.id.clone(),
            user_id: self.user_id.clone(),
            tag_id: self.tag_id.clone(),
            is_manual: self.is_manual,
            started_at: self.started_at,
            stopped_at: self.stopped_at,
            expires_at: self.expires_at,
            deleted_at: self.deleted_at,
            created_at: self.created_at,
            updated_at: self.updated_at,
            synced_at: self.synced_at,
        }
    }
}

impl Clone for TaskWithTag {
    fn clone(&self) -> (task: Self)
        ensures
            task == *self,
    {
        TaskWithTag {
            id: self.id.clone(),
            user_id: self.user_id.clone(),
            tag_id: self.tag_id.clone(),
            is_manual: self.is_manual,
            started_at: self.started_at,
            stopped_at: self.stopped_at,
            expires_at: self.expires_at,
            deleted_at: self.deleted_at,
            created_at: self.created_at,
            updated_at: self.updated_at,
            synced_at: self.synced_at,
            tag_label: self.tag_label.clone(),
            tag_color: self.tag_color.clone(),
        }
    }
}

impl Record for Task {
    open spec fn key(&self) -> Seq<char> {
        self.id@
    }

    open spec fn owner(&self) -> Seq<char> {
        self.user_id@
    }

    open spec fn synced(&self) -> Timestamp {
        self.synced_at
    }

    open spec fn listed(&self) -> Timestamp {
        self.started_at
    }

    open spec fn overwritten_by(&self, incoming: &Self) -> Self {
        Task {
            id: self.id,
            user_id: self.user_id,
            tag_id: incoming.tag_id,
            is_manual: incoming.is_manual,
            started_at: incoming.started_at,
            stopped_at: incoming.stopped_at,
            expires_at: incoming.expires_at,
            deleted_at: incoming.deleted_at,
            created_at: incoming.created_at,
            updated_at: incoming.updated_at,
            synced_at: incoming.synced_at,
        }
    }

    proof fn lemma_overwritten_by(&self, incoming: &Self) {
    }

    fn has_key(&self, id: &str) -> (r: bool) {
        *self.id.as_str() == *id
    }

    fn has_owner(&self, user_id: &str) -> (r: bool) {
        *self.user_id.as_str() == *user_id
    }

    fn owner_id(&self) -> (user_id: &str) {
        self.user_id.as_str()
    }

    fn synced_at(&self) -> (t: Timestamp) {
        self.synced_at
    }

    fn listed_at(&self) -> (t: Timestamp) {
        self.started_at
    }

    fn id(&self) -> (id: &str) {
        self.id.as_str()
    }

    fn overwrite(&self, incoming: &Self) -> (row: Self) {
        Task {
            id: self.id.clone(),
            user_id: self.user_id.clone(),
            tag_id: incoming.tag_id.clone(),
            is_manual: incoming.is_manual,
            started_at: incoming.started_at,
            stopped_at: incoming.stopped_at,
            expires_at: incoming.expires_at,
            deleted_at: incoming.deleted_at,
            created_at: incoming.created_at,
            updated_at: incoming.updated_at,
            synced_at: incoming.synced_at,
        }
    }

    fn duplicate(&self) -> (row: Self) {
        self.clone()
    }
}

/// `task` with the label and colour of its tag beside it.
pub open spec fn with_tag(task: Task, tag_color: String, tag_label: String) -> TaskWithTag {
    TaskWithTag {
        id: task.id,
        user_id: task.user_id,
        tag_id: task.tag_id,
        is_manual: task.is_manual,
        started_at: task.started_at,
        stopped_at: task.stopped_at,
        expires_at: task.expires_at,
        deleted_at: task.deleted_at,
        created_at: task.created_at,
        updated_at: task.updated_at,
        synced_at: task.synced_at,
        tag_label,
        tag_color,
    }
}

impl View for TaskWithTag {
    type V = TaskWithTag;

    open spec fn view(&self) -> TaskWithTag {
        *self
    }
}

impl TaskWithTag {
    pub fn from_task(task: &Task, tag_color: &TagColor, tag_label: &TagLabel) -> (joined: Self)
        ensures
            joined == with_tag(*task, tag_color.0, tag_label.0),
    {
        TaskWithTag {
            id: task.id.clone(),
            user_id: task.user_id.clone(),
            tag_id: task.tag_id.clone(),
            is_manual: task.is_manual,
            started_at: task.started_at,
            stopped_at: task.stopped_at,
            expires_at: task.expires_at,
            deleted_at: task.deleted_at,
            created_at: task.created_at,
            updated_at: task.updated_at,
            synced_at: task.synced_at,
            tag_label: tag_label.0.clone(),
            tag_color: tag_color.0.clone(),
        }
    }
}

impl Task {
    /// Whether the task is running at `now`: `now` lies in its interval, and
    /// it was neither stopped early nor deleted.
    pub open spec fn ongoing(self, now: Timestamp) -> bool {
        &&& self.started_at.at() <= now.at() < self.expires_at.at()
        &&& self.stopped_at is None
        &&& self.deleted_at is None
    }

    pub fn is_ongoing(&self, now: Timestamp) -> (r: bool)
        ensures
            r == self.ongoing(now),
    {
        self.started_at.micros <= now.micros && now.micros < self.expires_at.micros
            && self.stopped_at.is_none() && self.deleted_at.is_none()
    }

    /// The task as deleted at `now`: marked, and stamped as changed and
    /// synced then.
    pub open spec fn deleted(self, now: Timestamp) -> Task {
        Task { deleted_at: Some(now), updated_at: now, synced_at: now, ..self }
    }
}

/// Whether `task` is a running task of `user_id` whose tag is in the tag table.
pub open spec fn runs_for(task: Task, tags: Seq<Tag>, user_id: Seq<char>, now: Timestamp) -> bool {
    task.user_id@ == user_id && task.ongoing(now) && position(tags, task.tag_id@) is Some
}

/// The condition of running for `user_id` at `now`.
pub open spec fn running(tags: Seq<Tag>, user_id: Seq<char>, now: Timestamp) -> spec_fn(Task) -> bool {
    |task: Task| runs_for(task, tags, user_id, now)
}

/// The index of the first task that runs for `user_id` at `now`.
pub open spec fn ongoing_index(tasks: Seq<Task>, tags: Seq<Tag>, user_id: Seq<char>, now: Timestamp) -> Option<int> {
    first_index(tasks, running(tags, user_id, now))
}

/// The running task of `user_id` at `now`, joined with its tag.
pub open spec fn ongoing_task(tasks: Seq<Task>, tags: Seq<Tag>, user_id: Seq<char>, now: Timestamp) -> Option<TaskWithTag> {
    match ongoing_index(tasks, tags, user_id, now) {
        Some(i) => {
            let tag = tags[position(tags, tasks[i].tag_id@).unwrap()];
            Some(with_tag(tasks[i], tag.color, tag.label))
        },
        None => None,
    }
}

/// `ongoing_index` finds the first task that runs for the user, and finds
/// none only where none runs.
pub proof fn lemma_ongoing_index(tasks: Seq<Task>, tags: Seq<Tag>, user_id: Seq<char>, now: Timestamp)
    ensures
        match ongoing_index(tasks, tags, user_id, now) {
            Some(i) => 0 <= i < tasks.len() && runs_for(tasks[i], tags, user_id, now) && forall|k: int|
                0 <= k < i ==> !runs_for(tasks[k], tags, user_id, now),
            None => forall|k: int| 0 <= k < tasks.len() ==> !runs_for(tasks[k], tags, user_id, now),
        },
{
    lemma_first_index(tasks, running(tags, user_id, now));
}

/// Whether `user_id` owns a task with the given id.
pub fn owns_task(tasks: &Vec<Task>, user_id: &str, task_id: &str) -> (owns: bool)
    ensures
        owns == (owned_row(tasks@, user_id@, task_id@) is Some),
{
    get_owned(tasks, user_id, task_id).is_some()
}

/// The task that runs for `user_id` at `now`, if one does.
pub fn get_ongoing(tasks: &Vec<Task>, tags: &Vec<Tag>, user_id: &str, now: Timestamp) -> (found: Option<TaskWithTag>)
    ensures
        found == ongoing_task(tasks@, tags@, user_id@, now),
{
    let mut i: usize = 0;
    while i < tasks.len()
        invariant
            i <= tasks.len(),
            forall|k: int| 0 <= k < i ==> !runs_for(tasks@[k], tags@, user_id@, now),
        decreases tasks.len() - i,
    {
        let task = &tasks[i];
        if task.has_owner(user_id) && task.is_ongoing(now) {
            match find(tags, task.tag_id.as_str()) {
                Some(j) => {
                    proof {
                        lemma_position(tags@, task.tag_id@);
                        lemma_first_index_is(tasks@, running(tags@, user_id@, now), i as int);
                    }
                    let tag = &tags[j];
                    return Some(
                        TaskWithTag::from_task(
                            task,
                            &TagColor(tag.color.clone()),
                            &TagLabel(tag.label.clone()),
                        ),
                    );
                },
                None => {},
            }
        }
        i += 1;
    }
    proof {
        lemma_first_index_none(tasks@, running(tags@, user_id@, now));
    }
    None
}

/// How many tasks a page of the task list holds at most.
pub const TASKS_PER_PAGE: usize = 30;

/// The condition of belonging on a page of `user_id` that starts after
/// `last_id`: the task is the user's, its tag is in the tag table, and its id
/// comes before `last_id`, where there is one.
pub open spec fn listable(tags: Seq<Tag>, user_id: Seq<char>, last_id: Option<Seq<char>>) -> spec_fn(Task) -> bool {
    |task: Task|
        {
            &&& task.user_id@ == user_id
            &&& position(tags, task.tag_id@) is Some
            &&& match last_id {
                Some(id) => text_before(task.id@, id),
                None => true,
            }
        }
}

/// `task` with the label and colour of its tag in `tags`.
pub open spec fn joined(tags: Seq<Tag>) -> spec_fn(Task) -> TaskWithTag {
    |task: Task|
        {
            let tag = tags[position(tags, task.tag_id@).unwrap()];
            with_tag(task, tag.color, tag.label)
        }
}

/// The first rows of a listing, at most `limit` of them.
pub open spec fn first_rows<T>(rows: Seq<T>, limit: int) -> Seq<T> {
    if rows.len() <= limit {
        rows
    } else {
        rows.take(limit)
    }
}

/// A page of the task list of `user_id`: the tasks that belong on it, from
/// the latest start to the earliest, cut after `TASKS_PER_PAGE` of them, each
/// with its tag.
pub open spec fn task_page(tasks: Seq<Task>, tags: Seq<Tag>, user_id: Seq<char>, last_id: Option<Seq<char>>) -> Seq<TaskWithTag> {
    first_rows(newest_first(tasks.filter(listable(tags, user_id, last_id))), TASKS_PER_PAGE as int).map_values(
        joined(tags),
    )
}

/// The view of an optional cursor.
pub open spec fn cursor_view(last_id: Option<&str>) -> Option<Seq<char>> {
    match last_id {
        Some(id) => Some(id@),
        None => None,
    }
}

/// Lists a page of the tasks of `user_id`, starting after `last_id`.
pub fn get_many(tasks: &Vec<Task>, tags: &Vec<Tag>, user_id: &str, last_id: Option<&str>) -> (page: Vec<TaskWithTag>)
    ensures
        page@ == task_page(tasks@, tags@, user_id@, cursor_view(last_id)),
{
    let ghost fits = listable(tags@, user_id@, cursor_view(last_id));
    let mut own: Vec<Task> = Vec::new();
    let mut i: usize = 0;
    while i < tasks.len()
        invariant
            i <= tasks.len(),
            fits == listable(tags@, user_id@, cursor_view(last_id)),
            own@ == tasks@.take(i as int).filter(fits),
        decreases tasks.len() - i,
    {
        proof {
            assert(tasks@.take(i as int + 1) =~= tasks@.take(i as int).push(tasks@[i as int]));
            tasks@.take(i as int).lemma_filter_push(tasks@[i as int], fits);
        }
        let task = &tasks[i];
        let early = match last_id {
            Some(id) => comes_before(task.id.as_str(), id),
            None => true,
        };
        if task.has_owner(user_id) && early && find(tags, task.tag_id.as_str()).is_some() {
            own.push(task.clone());
        }
        i += 1;
    }
    proof {
        assert(tasks@.take(tasks.len() as int) =~= tasks@);
        lemma_newest_first(own@);
    }
    let sorted = sort_newest_first(&own);
    let count = if sorted.len() <= TASKS_PER_PAGE {
        sorted.len()
    } else {
        TASKS_PER_PAGE
    };
    let ghost listing = first_rows(sorted@, TASKS_PER_PAGE as int);
    assert(listing =~= sorted@.take(count as int));
    assert forall|k: int| 0 <= k < count implies fits(#[trigger] sorted@[k]) by {
        assert(sorted@.to_multiset().count(sorted@[k]) > 0) by {
            vstd::seq_lib::to_multiset_contains(sorted@, sorted@[k]);
            assert(sorted@.contains(sorted@[k]));
        }
        vstd::seq_lib::to_multiset_contains(own@, sorted@[k]);
        assert(own@.contains(sorted@[k]));
        let at = choose|at: int| 0 <= at < own@.len() && own@[at] == sorted@[k];
        tasks@.lemma_filter_pred(fits, at);
    }
    let mut page: Vec<TaskWithTag> = Vec::new();
    let mut k: usize = 0;
    while k < count
        invariant
            k <= count,
            count <= sorted.len(),
            fits == listable(tags@, user_id@, cursor_view(last_id)),
            forall|j: int| 0 <= j < count ==> fits(#[trigger] sorted@[j]),
            page@ == sorted@.take(k as int).map_values(joined(tags@)),
        decreases count - k,
    {
        let task = &sorted[k];
        proof {
            assert(fits(sorted@[k as int]));
            lemma_position(tags@, task.tag_id@);
        }
        match find(tags, task.tag_id.as_str()) {
            Some(j) => {
                let tag = &tags[j];
                page.push(
                    TaskWithTag::from_task(task, &TagColor(tag.color.clone()), &TagLabel(tag.label.clone())),
                );
            },
            None => {},
        }
        assert(page@ =~= sorted@.take(k as int + 1).map_values(joined(tags@)));
        k += 1;
    }
    page
}

/// Stores a new task; says whether it did. A task whose id a row already has
/// is refused.
pub fn insert(tasks: &mut Vec<Task>, task: &Task) -> (done: bool)
    ensures
        final(tasks)@ == inserted(old(tasks)@, *task),
        done == (position(old(tasks)@, task.id@) is None),
{
    insert_new(tasks, task.clone())
}

/// Writes `task` over the stored task with its id, where the task's user
/// owns that row; says whether it did.
pub fn update(tasks: &mut Vec<Task>, task: &Task) -> (done: bool)
    ensures
        final(tasks)@ == updated(old(tasks)@, *task),
        done == (owned_row(old(tasks)@, task.user_id@, task.id@) is Some),
{
    update_owned(tasks, task)
}

/// The table after `user_id` deleted the task with id `task_id` at `now`: the
/// row stays and carries the marker.
pub open spec fn marked_deleted(tasks: Seq<Task>, user_id: Seq<char>, task_id: Seq<char>, now: Timestamp) -> Seq<Task> {
    match position(tasks, task_id) {
        Some(i) if tasks[i].user_id@ == user_id => tasks.update(i, tasks[i].deleted(now)),
        _ => tasks,
    }
}

/// Deleting a task leaves the ids unique.
pub proof fn lemma_marked_deleted_keeps_unique(tasks: Seq<Task>, user_id: Seq<char>, task_id: Seq<char>, now: Timestamp)
    requires
        keys_unique(tasks),
    ensures
        keys_unique(marked_deleted(tasks, user_id, task_id, now)),
{
    lemma_position(tasks, task_id);
}

/// Marks the task with the given id as deleted at `now`, where `user_id` owns
/// it; says whether it did.
pub fn delete(tasks: &mut Vec<Task>, user_id: &str, task_id: &str, now: Timestamp) -> (done: bool)
    ensures
        final(tasks)@ == marked_deleted(old(tasks)@, user_id@, task_id@, now),
        done == (owned_row(old(tasks)@, user_id@, task_id@) is Some),
{
    proof {
        lemma_position(tasks@, task_id@);
    }
    match find(tasks, task_id) {
        Some(i) => if tasks[i].has_owner(user_id) {
            let mut row = tasks[i].clone();
            row.deleted_at = Some(now);
            row.updated_at = now;
            row.synced_at = now;
            tasks.set(i, row);
            true
        } else {
            false
        },
        None => false,
    }
}

/// The span that a statistic is grouped by.
#[derive(Debug, Clone, Copy, PartialEq, Eq, Structural)]
pub enum StatsTimeframe {
    Day,
    Week,
    Month,
    Year,
}

/// The error of reading a timeframe from a text that names none.
#[derive(Debug, Clone, Copy, PartialEq, Eq, Structural)]
pub struct InvalidTimeframe {}

impl InvalidTimeframe {
    pub fn message(&self) -> (text: &'static str)
        ensures
            text@ == "invalid timeframe"@,
    {
        "invalid timeframe"
    }
}

/// The timeframe that a text names, if it names one.
pub open spec fn read_timeframe(text: Seq<char>) -> Option<StatsTimeframe> {
    if text == "day"@ {
        Some(StatsTimeframe::Day)
    } else if text == "week"@ {
        Some(StatsTimeframe::Week)
    } else if text == "month"@ {
        Some(StatsTimeframe::Month)
    } else if text == "year"@ {
        Some(StatsTimeframe::Year)
    } else {
        None
    }
}

impl StatsTimeframe {
    /// The text that names the timeframe.
    pub open spec fn name(self) -> Seq<char> {
        match self {
            StatsTimeframe::Day => "day"@,
            StatsTimeframe::Week => "week"@,
            StatsTimeframe::Month => "month"@,
            StatsTimeframe::Year => "year"@,
        }
    }

    /// Reads a timeframe from its name; any other text is an error.
    pub fn from_str(s: &str) -> (timeframe: Result<StatsTimeframe, InvalidTimeframe>)
        ensures
            timeframe == match read_timeframe(s@) {
                Some(read) => Ok::<StatsTimeframe, InvalidTimeframe>(read),
                None => Err(InvalidTimeframe {  }),
            },
    {
        if *s == *"day" {
            Ok(StatsTimeframe::Day)
        } else if *s == *"week" {
            Ok(StatsTimeframe::Week)
        } else if *s == *"month" {
            Ok(StatsTimeframe::Month)
        } else if *s == *"year" {
            Ok(StatsTimeframe::Year)
        } else {
            Err(InvalidTimeframe {  })
        }
    }

    pub fn as_ref(&self) -> (name: &'static str)
        ensures
            name@ == self.name(),
    {
        match self {
            StatsTimeframe::Day => "day",
            StatsTimeframe::Week => "week",
            StatsTimeframe::Month => "month",
            StatsTimeframe::Year => "year",
        }
    }

    pub fn to_string(&self) -> (name: String)
        ensures
            name@ == self.name(),
    {
        self.as_ref().to_owned()
    }
}

/// Each timeframe is read back from its own name.
pub proof fn lemma_timeframe_read_back(timeframe: StatsTimeframe)
    ensures
        read_timeframe(timeframe.name()) == Some(timeframe),
{
    reveal_strlit("day");
    reveal_strlit("week");
    reveal_strlit("month");
    reveal_strlit("year");
    assert("month"@.len() == 5);
    assert("week"@[0] == 'w');
    assert("year"@[0] == 'y');
    assert("day"@[0] == 'd');
}

} // verus!
