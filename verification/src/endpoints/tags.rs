//! The endpoint that writes tags directly and tells the user's other devices.

use vstd::prelude::*;
use crate::db::store::{Query, QueryView, Reply, ReplyView};
use crate::db::table::copy_rows;
use crate::db::tags::Tag;
use crate::endpoints::sync::{tag_rows, SyncEndpointTag};
use crate::endpoints::ws::{tags_changed, LiveEvent, LiveEventView};
use crate::error::{ApiError, ApiErrorView};
use crate::exchange::{Exchange, Step, StepView};
use crate::time::Timestamp;

verus! {

/// Where a request to write tags waits: the tags are being upserted.
#[derive(Debug, PartialEq, Eq)]
pub struct PutTagsState {
    pub user_id: String,
    pub tags: Vec<Tag>,
}

/// The state of a request to write tags, as plain values.
pub ghost struct PutTagsStateView {
    pub user_id: String,
    pub tags: Seq<Tag>,
}

impl View for PutTagsState {
    type V = PutTagsStateView;

    open spec fn view(&self) -> PutTagsStateView {
        PutTagsStateView { user_id: self.user_id, tags: self.tags@ }
    }
}

/// The only statement of writing tags for `user_id` at `now`: upsert them,
/// stamped as synced at `now`.
pub open spec fn put_tags_begin(user_id: String, tags: Seq<SyncEndpointTag>, now: Timestamp) -> StepView<
    PutTagsStateView,
    LiveEventView,
> {
    StepView::Ask(
        PutTagsStateView { user_id, tags: tag_rows(tags, user_id, now) },
        QueryView::UpsertTags { tags: tag_rows(tags, user_id, now) },
    )
}

/// The answer of writing tags: the event to publish, which carries the tags
/// as they were submitted and stamped.
pub open spec fn put_tags_next(state: PutTagsStateView, reply: ReplyView) -> StepView<PutTagsStateView, LiveEventView> {
    match reply {
        ReplyView::Done => StepView::Finish(Ok(tags_changed(state.user_id, state.tags))),
        _ => StepView::Finish(Err(ApiErrorView::Internal("Failed to insert tags"@))),
    }
}

/// Begins writing the tags of `user_id` at `now`.
pub fn put_tags_at(user_id: String, tags: Vec<SyncEndpointTag>, now: Timestamp) -> (step: Step<PutTagsState, LiveEvent>)
    ensures
        step@ == put_tags_begin(user_id, tags@, now),
{
    let rows = crate::endpoints::sync::tags_into_rows(&tags, &user_id, now);
    let query = Query::UpsertTags { tags: copy_rows(&rows) };
    Step::Ask(PutTagsState { user_id, tags: rows }, query)
}

/// Begins writing the tags of `user_id` at the server's current time.
pub fn put_tags(user_id: String, tags: Vec<SyncEndpointTag>) -> (step: Step<PutTagsState, LiveEvent>)
    ensures
        exists|now: Timestamp| now.on_clock() && step@ == put_tags_begin(user_id, tags@, now),
{
    let now = Timestamp::now();
    put_tags_at(user_id, tags, now)
}

impl Exchange for PutTagsState {
    type Done = LiveEvent;

    open spec fn success_code() -> int {
        201
    }

    fn success_status() -> (code: u16) {
        201
    }

    open spec fn pending(state: PutTagsStateView) -> nat {
        0
    }

    open spec fn next(state: PutTagsStateView, reply: ReplyView) -> StepView<PutTagsStateView, LiveEventView> {
        put_tags_next(state, reply)
    }

    proof fn lemma_next_is_nearer(state: PutTagsStateView, reply: ReplyView) {
    }

    fn resume(self, reply: Reply) -> (step: Step<PutTagsState, LiveEvent>) {
        match reply {
            Reply::Done => Step::Finish(Ok(LiveEvent::sync_tags(self.user_id, self.tags))),
            _ => Step::Finish(Err(ApiError::internal("Failed to insert tags"))),
        }
    }
}

/// Where a request for the tag list waits: the tags are being listed.
#[derive(Debug, PartialEq, Eq)]
pub struct ListTagsState {}

impl View for ListTagsState {
    type V = ListTagsState;

    open spec fn view(&self) -> ListTagsState {
        *self
    }
}

/// The only step of listing the tags of `user_id`.
pub open spec fn tags_begin(user_id: String) -> StepView<ListTagsState, Seq<Tag>> {
    StepView::Ask(ListTagsState {  }, QueryView::ListTags { user_id: user_id@ })
}

/// The answer to a request for the tag list: the tags.
pub open spec fn tags_next(state: ListTagsState, reply: ReplyView) -> StepView<ListTagsState, Seq<Tag>> {
    match reply {
        ReplyView::Tags(tags) => StepView::Finish(Ok(tags)),
        _ => StepView::Finish(Err(ApiErrorView::Internal("error fetching tags"@))),
    }
}

/// Begins listing the tags of `user_id`.
pub fn get_tags(user_id: String) -> (step: Step<ListTagsState, Vec<Tag>>)
    ensures
        step@ == tags_begin(user_id),
{
    Step::Ask(ListTagsState {  }, Query::ListTags { user_id })
}

impl Exchange for ListTagsState {
    type Done = Vec<Tag>;

    open spec fn success_code() -> int {
        200
    }

    fn success_status() -> (code: u16) {
        200
    }

    open spec fn pending(state: ListTagsState) -> nat {
        0
    }

    open spec fn next(state: ListTagsState, reply: ReplyView) -> StepView<ListTagsState, Seq<Tag>> {
        tags_next(state, reply)
    }

    proof fn lemma_next_is_nearer(state: ListTagsState, reply: ReplyView) {
    }

    fn resume(self, reply: Reply) -> (step: Step<ListTagsState, Vec<Tag>>) {
        match reply {
            Reply::Tags(tags) => Step::Finish(Ok(tags)),
            _ => Step::Finish(Err(ApiError::internal("error fetching tags"))),
        }
    }
}

} // verus!
