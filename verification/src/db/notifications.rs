//! The table of scheduled reminders: one push notification per task, due at
//! the task's end.

use vstd::prelude::*;
use crate::db::scan::lemma_none_wanted;
use crate::time::Timestamp;

verus! {

/// A push notification that is due at `fire_at`.
#[derive(Debug, PartialEq, Eq)]
pub struct Reminder {
    pub user_id: String,
    pub task_id: String,
    pub title: String,
    pub body: String,
    pub fire_at: Timestamp,
}

/// A reminder as plain values.
pub ghost struct ReminderView {
    pub user_id: Seq<char>,
    pub task_id: Seq<char>,
    pub title: Seq<char>,
    pub body: Seq<char>,
    pub fire_at: Timestamp,
}

impl View for Reminder {
    type V = ReminderView;

    open spec fn view(&self) -> ReminderView {
        ReminderView {
            user_id: self.user_id@,
            task_id: self.task_id@,
            title: self.title@,
            body: self.body@,
            fire_at: self.fire_at,
        }
    }
}

impl DeepView for Reminder {
    type V = ReminderView;

    open spec fn deep_view(&self) -> ReminderView {
        self@
    }
}

impl Clone for Reminder {
    fn clone(&self) -> (reminder: Self)
        ensures
            reminder == *self,
    {
        Reminder {
            user_id: self.user_id.clone(),
            task_id: self.task_id.clone(),
            title: self.title.clone(),
            body: self.body.clone(),
            fire_at: self.fire_at,
        }
    }
}

/// The condition of not being a reminder of `user_id` for the task `task_id`.
pub open spec fn kept(user_id: Seq<char>, task_id: Seq<char>) -> spec_fn(ReminderView) -> bool {
    |reminder: ReminderView| !(reminder.user_id == user_id && reminder.task_id == task_id)
}

/// The reminders that are left when those of `user_id` for the task
/// `task_id` are removed.
pub open spec fn without_task(reminders: Seq<ReminderView>, user_id: Seq<char>, task_id: Seq<char>) -> Seq<ReminderView> {
    reminders.filter(kept(user_id, task_id))
}

/// The condition of being a reminder of `user_id` for the task `task_id`.
pub open spec fn reminds(user_id: Seq<char>, task_id: Seq<char>) -> spec_fn(ReminderView) -> bool {
    |reminder: ReminderView| reminder.user_id == user_id && reminder.task_id == task_id
}

/// The reminders that `user_id` has for the task `task_id`.
pub open spec fn for_task(reminders: Seq<ReminderView>, user_id: Seq<char>, task_id: Seq<char>) -> Seq<ReminderView> {
    reminders.filter(reminds(user_id, task_id))
}

/// After the reminders of a user for a task were removed, the user has none
/// for that task.
pub proof fn lemma_without_task_has_none(reminders: Seq<ReminderView>, user_id: Seq<char>, task_id: Seq<char>)
    ensures
        for_task(without_task(reminders, user_id, task_id), user_id, task_id).len() == 0,
{
    let rest = without_task(reminders, user_id, task_id);
    assert forall|i: int| 0 <= i < rest.len() implies !reminds(user_id, task_id)(#[trigger] rest[i]) by {
        reminders.lemma_filter_pred(kept(user_id, task_id), i);
    }
    lemma_none_wanted(rest, reminds(user_id, task_id));
}

/// Schedules `reminder`.
pub fn insert(reminders: &mut Vec<Reminder>, reminder: Reminder)
    ensures
        final(reminders).deep_view() == old(reminders).deep_view().push(reminder@),
{
    reminders.push(reminder);
    assert(reminders.deep_view() =~= old(reminders).deep_view().push(reminder@));
}

/// Removes the reminders of `user_id` for the task `task_id`.
pub fn delete_by_task_id(reminders: &mut Vec<Reminder>, user_id: &str, task_id: &str)
    ensures
        final(reminders).deep_view() == without_task(old(reminders).deep_view(), user_id@, task_id@),
{
    let ghost all = reminders.deep_view();
    let mut rest: Vec<Reminder> = Vec::new();
    let mut i: usize = 0;
    while i < reminders.len()
        invariant
            i <= reminders.len(),
            reminders.deep_view() == all,
            rest.deep_view() == all.take(i as int).filter(kept(user_id@, task_id@)),
        decreases reminders.len() - i,
    {
        proof {
            assert(all.take(i as int + 1) =~= all.take(i as int).push(all[i as int]));
            all.take(i as int).lemma_filter_push(all[i as int], kept(user_id@, task_id@));
        }
        let reminder = &reminders[i];
        if !(*reminder.user_id.as_str() == *user_id && *reminder.task_id.as_str() == *task_id) {
            let ghost before = rest.deep_view();
            rest.push(reminder.clone());
            assert(rest.deep_view() =~= before.push(all[i as int]));
        }
        i += 1;
    }
    proof {
        assert(all.take(reminders.len() as int) =~= all);
    }
    *reminders = rest;
}

} // verus!
