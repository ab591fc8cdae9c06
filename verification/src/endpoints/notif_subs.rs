//! The push subscription endpoints: register a device's push endpoint, and
//! remove it.

use vstd::prelude::*;
use vstd::string::StringExecFns;
use crate::db::notification_subs::NotifSub;
use crate::db::store::{PushMessage, PushMessageView, Query, QueryView, Reply, ReplyView};
use crate::error::{ApiError, ApiErrorView};
use crate::exchange::{Exchange, Step, StepView};
use crate::time::Timestamp;

verus! {

/// The longest delivery endpoint that is accepted, in characters.
pub const MAX_ENDPOINT_CHARS: usize = 2000;

/// The request to register a push endpoint.
#[derive(Debug, PartialEq, Eq)]
pub struct AddNotifSubEndpointBody {
    pub endpoint: String,
    pub p256dh: String,
    pub auth: String,
}

/// The request to remove a push endpoint.
#[derive(Debug, PartialEq, Eq)]
pub struct DeleteNotifSubBody {
    pub endpoint: String,
}

/// Where a request to register a push endpoint waits.
#[derive(Debug, PartialEq, Eq)]
pub enum AddSubState {
    /// The subscription is being registered.
    Registering { send_test: bool },
    /// The test notification is being delivered.
    SendingTest,
}

impl View for AddSubState {
    type V = AddSubState;

    open spec fn view(&self) -> AddSubState {
        *self
    }
}

/// The subscription that a request registers at `now` under the new id `sub_id`.
pub open spec fn new_sub(user_id: String, body: AddNotifSubEndpointBody, sub_id: String, now: Timestamp) -> NotifSub {
    NotifSub {
        id: sub_id,
        user_id,
        endpoint: body.endpoint,
        p256dh: body.p256dh,
        auth: body.auth,
        created_at: now,
    }
}

/// The notification that tests a subscription.
pub open spec fn test_push(sub: NotifSub) -> PushMessageView {
    PushMessageView {
        sub,
        title: "Test notification"@,
        body: "If you see this, notifications are working! 🥳"@,
    }
}

/// The first step of registering a push endpoint: an endpoint of more than
/// 2000 characters is refused; otherwise the subscription is registered.
pub open spec fn add_sub_begin(
    user_id: String,
    body: AddNotifSubEndpointBody,
    sub_id: String,
    send_test: bool,
    now: Timestamp,
) -> StepView<AddSubState, ()> {
    if body.endpoint@.len() > MAX_ENDPOINT_CHARS {
        StepView::Finish(Err(ApiErrorView::BadRequest("endpoint url must be shorter than 2000 characters"@)))
    } else {
        StepView::Ask(
            AddSubState::Registering { send_test },
            QueryView::UpsertSub { sub: new_sub(user_id, body, sub_id, now) },
        )
    }
}

/// The step of a registration on a reply: where a test was asked for, the
/// stored subscription is sent a test notification, and a failed delivery
/// fails the request.
pub open spec fn add_sub_next(state: AddSubState, reply: ReplyView) -> StepView<AddSubState, ()> {
    match state {
        AddSubState::Registering { send_test } => match reply {
            ReplyView::Sub(stored) => if send_test {
                StepView::Ask(AddSubState::SendingTest, QueryView::SendPush { message: test_push(stored) })
            } else {
                StepView::Finish(Ok(()))
            },
            _ => StepView::Finish(Err(ApiErrorView::Internal("error inserting notification sub"@))),
        },
        AddSubState::SendingTest => match reply {
            ReplyView::Done => StepView::Finish(Ok(())),
            _ => StepView::Finish(Err(ApiErrorView::Internal("error sending notification"@))),
        },
    }
}

/// Begins registering a push endpoint for `user_id` at `now`, under the new
/// id `sub_id`; `send_test` asks for a test notification.
pub fn add_notif_sub_endpoint_at(
    user_id: String,
    body: AddNotifSubEndpointBody,
    sub_id: String,
    send_test: bool,
    now: Timestamp,
) -> (step: Step<AddSubState, ()>)
    ensures
        step@ == add_sub_begin(user_id, body, sub_id, send_test, now),
{
    if body.endpoint.as_str().unicode_len() > MAX_ENDPOINT_CHARS {
        Step::Finish(Err(ApiError::bad_request("endpoint url must be shorter than 2000 characters")))
    } else {
        let sub = NotifSub {
            id: sub_id,
            user_id,
            endpoint: body.endpoint,
            p256dh: body.p256dh,
            auth: body.auth,
            created_at: now,
        };
        Step::Ask(AddSubState::Registering { send_test }, Query::UpsertSub { sub })
    }
}

/// Begins registering a push endpoint for `user_id` at the server's current
/// time, under the new id `sub_id`.
pub fn add_notif_sub_endpoint(user_id: String, body: AddNotifSubEndpointBody, sub_id: String, send_test: bool) -> (step: Step<
    AddSubState,
    (),
>)
    ensures
        exists|now: Timestamp| now.on_clock() && step@ == add_sub_begin(user_id, body, sub_id, send_test, now),
{
    let now = Timestamp::now();
    add_notif_sub_endpoint_at(user_id, body, sub_id, send_test, now)
}

impl Exchange for AddSubState {
    type Done = ();

    open spec fn success_code() -> int {
        201
    }

    fn success_status() -> (code: u16) {
        201
    }

    open spec fn pending(state: AddSubState) -> nat {
        match state {
            AddSubState::Registering { .. } => 1,
            AddSubState::SendingTest => 0,
        }
    }

    open spec fn next(state: AddSubState, reply: ReplyView) -> StepView<AddSubState, ()> {
        add_sub_next(state, reply)
    }

    proof fn lemma_next_is_nearer(state: AddSubState, reply: ReplyView) {
    }

    fn resume(self, reply: Reply) -> (step: Step<AddSubState, ()>) {
        match self {
            AddSubState::Registering { send_test } => match reply {
                Reply::Sub(stored) => if send_test {
                    let message = PushMessage {
                        sub: stored,
                        title: String::from_str("Test notification"),
                        body: String::from_str("If you see this, notifications are working! 🥳"),
                    };
                    Step::Ask(AddSubState::SendingTest, Query::SendPush { message })
                } else {
                    Step::Finish(Ok(()))
                },
                _ => Step::Finish(Err(ApiError::internal("error inserting notification sub"))),
            },
            AddSubState::SendingTest => match reply {
                Reply::Done => Step::Finish(Ok(())),
                _ => Step::Finish(Err(ApiError::internal("error sending notification"))),
            },
        }
    }
}

/// Where a request to remove a push endpoint waits: the row is being removed.
#[derive(Debug, PartialEq, Eq)]
pub struct DeleteSubState {}

impl View for DeleteSubState {
    type V = DeleteSubState;

    open spec fn view(&self) -> DeleteSubState {
        *self
    }
}

/// The only step of removing the subscription of `user_id` for an endpoint.
pub open spec fn delete_sub_begin(user_id: String, body: DeleteNotifSubBody) -> StepView<DeleteSubState, ()> {
    StepView::Ask(DeleteSubState {  }, QueryView::DeleteSub { user_id: user_id@, endpoint: body.endpoint@ })
}

/// The answer to a removal: an endpoint that the user had not registered is
/// reported as not found.
pub open spec fn delete_sub_next(state: DeleteSubState, reply: ReplyView) -> StepView<DeleteSubState, ()> {
    match reply {
        ReplyView::Removed(true) => StepView::Finish(Ok(())),
        ReplyView::Removed(false) => StepView::Finish(Err(ApiErrorView::NotFound("notification sub not found"@))),
        _ => StepView::Finish(Err(ApiErrorView::Internal("error deleting notification sub"@))),
    }
}

/// Begins removing the subscription of `user_id` for an endpoint.
pub fn delete_notif_sub_endpoint(user_id: String, body: DeleteNotifSubBody) -> (step: Step<DeleteSubState, ()>)
    ensures
        step@ == delete_sub_begin(user_id, body),
{
    Step::Ask(DeleteSubState {  }, Query::DeleteSub { user_id, endpoint: body.endpoint })
}

impl Exchange for DeleteSubState {
    type Done = ();

    open spec fn success_code() -> int {
        204
    }

    fn success_status() -> (code: u16) {
        204
    }

    open spec fn pending(state: DeleteSubState) -> nat {
        0
    }

    open spec fn next(state: DeleteSubState, reply: ReplyView) -> StepView<DeleteSubState, ()> {
        delete_sub_next(state, reply)
    }

    proof fn lemma_next_is_nearer(state: DeleteSubState, reply: ReplyView) {
    }

    fn resume(self, reply: Reply) -> (step: Step<DeleteSubState, ()>) {
        match reply {
            Reply::Removed(true) => Step::Finish(Ok(())),
            Reply::Removed(false) => Step::Finish(Err(ApiError::not_found("notification sub not found"))),
            _ => Step::Finish(Err(ApiError::internal("error deleting notification sub"))),
        }
    }
}

} // verus!
