use sync_core::db::notification_subs::{delete as delete_sub, upsert as upsert_sub, NotifSub};
use sync_core::db::store::{PushMessage, Query, Reply, Store};
use sync_core::endpoints::notif_subs::{
    add_notif_sub_endpoint, add_notif_sub_endpoint_at, delete_notif_sub_endpoint, AddNotifSubEndpointBody,
    AddSubState, DeleteNotifSubBody, DeleteSubState,
};
use sync_core::endpoints::sync::{SyncEndpointTag, SyncState};
use sync_core::endpoints::tags::{put_tags, put_tags_at, ListTagsState, PutTagsState};
use sync_core::endpoints::tasks::{DeleteState, ListTasksState, NewTaskState, OngoingState, StopState};
use sync_core::endpoints::ws::{
    handle_socket, Broadcast, Connection, Frame, Heard, HubEvent, LiveEvent, Outbound, WsData,
};
use sync_core::error::ApiError;
use sync_core::exchange::{drive, Exchange, Step};
use sync_core::time::Timestamp;

fn at(micros: i64) -> Timestamp {
    Timestamp::from_micros(micros)
}

fn sub_body(endpoint: &str) -> AddNotifSubEndpointBody {
    AddNotifSubEndpointBody { endpoint: endpoint.to_string(), p256dh: "key".to_string(), auth: "secret".to_string() }
}

fn add(store: &mut Store, user: &str, endpoint: &str, id: &str, test: bool, now: Timestamp) -> Result<(), ApiError> {
    drive(store, add_notif_sub_endpoint_at(user.to_string(), sub_body(endpoint), id.to_string(), test, now))
}

#[test]
fn a_subscription_is_registered_once_per_user_and_endpoint() {
    let mut store = Store::new();
    assert_eq!(add(&mut store, "u1", "https://push/1", "s1", false, at(1)), Ok(()));
    assert_eq!(add(&mut store, "u1", "https://push/1", "s2", false, at(2)), Ok(()));
    assert_eq!(store.subs.len(), 1);
    assert_eq!(store.subs[0].id, "s1");
    assert_eq!(store.subs[0].created_at, at(1));
    assert_eq!(store.subs[0].p256dh, "key");
    assert_eq!(store.subs[0].auth, "secret");
    assert_eq!(add(&mut store, "u2", "https://push/1", "s3", false, at(3)), Ok(()));
    assert_eq!(add(&mut store, "u1", "https://push/2", "s4", false, at(4)), Ok(()));
    assert_eq!(store.subs.len(), 3);
    assert!(store.pushed.is_empty());
}

#[test]
fn registering_again_hands_back_the_row_that_was_there() {
    let mut subs: Vec<NotifSub> = Vec::new();
    let first = NotifSub {
        id: "s1".to_string(),
        user_id: "u1".to_string(),
        endpoint: "e".to_string(),
        p256dh: "a".to_string(),
        auth: "b".to_string(),
        created_at: at(1),
    };
    let mut second = first.clone();
    second.id = "s2".to_string();
    second.p256dh = "other".to_string();
    assert_eq!(upsert_sub(&mut subs, first.clone()), first);
    assert_eq!(upsert_sub(&mut subs, second), first);
    assert_eq!(subs, vec![first]);
}

#[test]
fn an_endpoint_of_more_than_2000_characters_is_refused() {
    let mut store = Store::new();
    let long = "x".repeat(2001);
    let refused = add(&mut store, "u1", &long, "s1", false, at(1));
    assert_eq!(
        refused,
        Err(ApiError::BadRequest("endpoint url must be shorter than 2000 characters".to_string()))
    );
    assert_eq!(refused.unwrap_err().status_code(), 400);
    assert!(store.subs.is_empty());
    let longest = "x".repeat(2000);
    assert_eq!(add(&mut store, "u1", &longest, "s1", false, at(1)), Ok(()));
    assert_eq!(store.subs.len(), 1);
}

#[test]
fn the_length_of_an_endpoint_is_counted_in_characters() {
    let mut store = Store::new();
    let wide = "é".repeat(2000);
    assert!(wide.len() > 2000);
    assert_eq!(add(&mut store, "u1", &wide, "s1", false, at(1)), Ok(()));
}

#[test]
fn a_test_notification_goes_to_the_stored_subscription() {
    let mut store = Store::new();
    assert_eq!(add(&mut store, "u1", "https://push/1", "s1", true, at(1)), Ok(()));
    assert_eq!(store.pushed.len(), 1);
    assert_eq!(store.pushed[0].sub, store.subs[0]);
    assert_eq!(store.pushed[0].title, "Test notification");
    assert_eq!(store.pushed[0].body, "If you see this, notifications are working! 🥳");
    assert_eq!(add(&mut store, "u1", "https://push/1", "s2", true, at(2)), Ok(()));
    assert_eq!(store.pushed.len(), 2);
    assert_eq!(store.pushed[1].sub.id, "s1");
}

#[test]
fn a_failed_test_notification_fails_the_request() {
    let step = add_notif_sub_endpoint_at("u1".to_string(), sub_body("e"), "s1".to_string(), true, at(1));
    let (state, sub) = match step {
        Step::Ask(state, Query::UpsertSub { sub }) => (state, sub),
        other => panic!("expected the registration, got {:?}", other),
    };
    let sending = match state.resume(Reply::Sub(sub.clone())) {
        Step::Ask(state, Query::SendPush { message }) => {
            assert_eq!(
                message,
                PushMessage {
                    sub,
                    title: "Test notification".to_string(),
                    body: "If you see this, notifications are working! 🥳".to_string(),
                }
            );
            state
        },
        other => panic!("expected the test notification, got {:?}", other),
    };
    assert_eq!(sending, AddSubState::SendingTest);
    assert_eq!(
        sending.resume(Reply::Failed),
        Step::Finish(Err(ApiError::Internal("error sending notification".to_string())))
    );
}

#[test]
fn a_failed_registration_fails_the_request() {
    let step = add_notif_sub_endpoint("u1".to_string(), sub_body("e"), "s1".to_string(), false);
    match step {
        Step::Ask(state, Query::UpsertSub { sub }) => {
            assert!(sub.created_at.micros > 1_600_000_000_000_000);
            assert_eq!(
                state.resume(Reply::Failed),
                Step::Finish(Err(ApiError::Internal("error inserting notification sub".to_string())))
            );
        },
        other => panic!("expected the registration, got {:?}", other),
    }
}

#[test]
fn removing_a_subscription_reports_whether_it_was_there() {
    let mut store = Store::new();
    add(&mut store, "u1", "https://push/1", "s1", false, at(1)).expect("the endpoint is short");
    add(&mut store, "u2", "https://push/1", "s2", false, at(1)).expect("the endpoint is short");
    let body = || DeleteNotifSubBody { endpoint: "https://push/1".to_string() };
    assert_eq!(drive(&mut store, delete_notif_sub_endpoint("u1".to_string(), body())), Ok(()));
    assert_eq!(store.subs.len(), 1);
    assert_eq!(store.subs[0].user_id, "u2");
    let missing = drive(&mut store, delete_notif_sub_endpoint("u1".to_string(), body()));
    assert_eq!(missing, Err(ApiError::NotFound("notification sub not found".to_string())));
    assert_eq!(missing.unwrap_err().status_code(), 404);
    assert_eq!(store.subs.len(), 1);
    assert!(!delete_sub(&mut store.subs, "u3", "https://push/1"));
    assert!(delete_sub(&mut store.subs, "u2", "https://push/1"));
    assert!(store.subs.is_empty());
}

#[test]
fn a_failed_removal_fails_the_request() {
    let body = DeleteNotifSubBody { endpoint: "e".to_string() };
    match delete_notif_sub_endpoint("u1".to_string(), body) {
        Step::Ask(state, query) => {
            assert_eq!(query, Query::DeleteSub { user_id: "u1".to_string(), endpoint: "e".to_string() });
            assert_eq!(
                state.resume(Reply::Failed),
                Step::Finish(Err(ApiError::Internal("error deleting notification sub".to_string())))
            );
        },
        other => panic!("expected the removal, got {:?}", other),
    }
}

fn client_tag(id: &str, label: &str) -> SyncEndpointTag {
    SyncEndpointTag {
        id: id.to_string(),
        label: label.to_string(),
        color: "#123456".to_string(),
        deleted_at: None,
        created_at: at(1),
        updated_at: at(2),
    }
}

fn published(store: &mut Store, user: &str, tags: Vec<SyncEndpointTag>, now: Timestamp) -> LiveEvent {
    drive(store, put_tags_at(user.to_string(), tags, now)).expect("the store does not fail")
}

#[test]
fn writing_tags_upserts_them_and_yields_a_sync_event() {
    let mut store = Store::new();
    let event = published(&mut store, "u1", vec![client_tag("a", "one"), client_tag("b", "two")], at(50));
    assert_eq!(store.tags.len(), 2);
    assert_eq!(store.tags[1].label, "two");
    assert_eq!(store.tags[1].synced_at, at(50));
    assert_eq!(event.owner, "u1");
    assert_eq!(event.message.t, "sync");
    match event.message.d {
        WsData::Tags(message) => assert_eq!(message.d, store.tags),
        WsData::Tasks(_) => panic!("expected tags"),
    }
}

#[test]
fn a_failed_tag_write_publishes_nothing() {
    match put_tags("u1".to_string(), vec![client_tag("a", "one")]) {
        Step::Ask(state, Query::UpsertTags { tags }) => {
            assert_eq!(tags, state.tags);
            assert_eq!(
                state.resume(Reply::Failed),
                Step::Finish(Err(ApiError::Internal("Failed to insert tags".to_string())))
            );
        },
        other => panic!("expected the upsert, got {:?}", other),
    }
}

fn text_of(event: &LiveEvent) -> String {
    let ids: Vec<String> = match &event.message.d {
        WsData::Tags(message) => message.d.iter().map(|tag| format!("\"{}\"", tag.id)).collect(),
        WsData::Tasks(message) => message.d.iter().map(|task| format!("\"{}\"", task.id)).collect(),
    };
    format!("{{\"t\":\"{}\",\"d\":{{\"tags\":[{}]}}}}", event.message.t, ids.join(","))
}

#[test]
fn a_tag_write_on_one_device_reaches_the_users_other_device() {
    let mut store = Store::new();
    let (mut device_a, _) = handle_socket("u1".to_string());
    let (mut device_b, _) = handle_socket("u1".to_string());
    let event = published(&mut store, "u1", vec![client_tag("a", "one")], at(50));
    let broadcast = Broadcast { owner: event.owner.clone(), text: text_of(&event) };
    let seen_by_b = device_b.on_broadcast(HubEvent::Message(broadcast.clone()));
    assert_eq!(seen_by_b, Outbound::Forward("{\"t\":\"sync\",\"d\":{\"tags\":[\"a\"]}}".to_string()));
    let seen_by_a = device_a.on_broadcast(HubEvent::Message(broadcast));
    assert_eq!(seen_by_a, Outbound::Forward("{\"t\":\"sync\",\"d\":{\"tags\":[\"a\"]}}".to_string()));
    assert!(!device_a.is_closed());
    assert!(!device_b.is_closed());
}

#[test]
fn an_event_of_another_user_is_passed_over() {
    let (mut device, _) = handle_socket("u2".to_string());
    let broadcast = Broadcast { owner: "u1".to_string(), text: "{}".to_string() };
    assert_eq!(device.on_broadcast(HubEvent::Message(broadcast)), Outbound::Skip);
    assert!(!device.is_closed());
}

#[test]
fn a_connection_opens_with_a_liveness_probe() {
    let (connection, frame) = handle_socket("u1".to_string());
    assert_eq!(frame, Frame::Ping(vec![1]));
    assert_eq!(connection, Connection { owner: "u1".to_string(), outbound_running: true, inbound_running: true });
    assert!(!connection.is_closed());
}

#[test]
fn the_outbound_loop_ends_when_the_hub_or_the_peer_is_gone() {
    let (mut orphan, _) = handle_socket("u1".to_string());
    assert_eq!(orphan.on_broadcast(HubEvent::Closed), Outbound::Stop);
    assert!(orphan.is_closed());
    let (mut sending, _) = handle_socket("u1".to_string());
    sending.on_forwarded(true);
    assert!(!sending.is_closed());
    sending.on_forwarded(false);
    assert!(sending.is_closed());
    assert!(!sending.outbound_running);
    assert!(sending.inbound_running);
}

#[test]
fn the_inbound_loop_notes_frames_and_ends_with_the_connection() {
    let (mut connection, _) = handle_socket("u1".to_string());
    assert_eq!(connection.on_frame(Some(Frame::Ping(vec![9]))), Heard::Ping);
    assert_eq!(connection.on_frame(Some(Frame::Pong(vec![1]))), Heard::Pong);
    assert_eq!(connection.on_frame(Some(Frame::Text("hello".to_string()))), Heard::Unknown);
    assert_eq!(connection.on_frame(Some(Frame::Binary(vec![0]))), Heard::Unknown);
    assert_eq!(connection.on_frame(Some(Frame::Close)), Heard::Unknown);
    assert!(!connection.is_closed());
    assert_eq!(connection.on_frame(None), Heard::Gone);
    assert!(connection.is_closed());
    assert!(connection.outbound_running);
    assert!(!connection.inbound_running);
}

#[test]
fn errors_carry_their_status_and_message() {
    let bad = ApiError::bad_request("no");
    assert_eq!(bad, ApiError::BadRequest("no".to_string()));
    assert_eq!(bad.status_code(), 400);
    assert_eq!(bad.message(), "no");
    let missing = ApiError::not_found("gone");
    assert_eq!(missing.status_code(), 404);
    assert_eq!(missing.message(), "gone");
    let broken = ApiError::internal("down");
    assert_eq!(broken.status_code(), 500);
    assert_eq!(broken.message(), "down");
}

#[test]
fn each_endpoint_answers_with_its_status() {
    assert_eq!(SyncState::success_status(), 200);
    assert_eq!(PutTagsState::success_status(), 201);
    assert_eq!(ListTagsState::success_status(), 200);
    assert_eq!(NewTaskState::success_status(), 201);
    assert_eq!(StopState::success_status(), 200);
    assert_eq!(DeleteState::success_status(), 204);
    assert_eq!(OngoingState::success_status(), 200);
    assert_eq!(ListTasksState::success_status(), 200);
    assert_eq!(AddSubState::success_status(), 201);
    assert_eq!(DeleteSubState::success_status(), 204);
}

#[test]
fn a_slow_connection_loses_events_and_goes_on() {
    let (mut lagging, _) = handle_socket("u1".to_string());
    assert_eq!(lagging.on_broadcast(HubEvent::Lagged(3)), Outbound::Skip);
    assert!(!lagging.is_closed());
    assert!(lagging.outbound_running);
    let broadcast = Broadcast { owner: "u1".to_string(), text: "next".to_string() };
    assert_eq!(lagging.on_broadcast(HubEvent::Message(broadcast)), Outbound::Forward("next".to_string()));
}

#[test]
fn nothing_is_forwarded_once_the_outbound_loop_is_over() {
    let (mut connection, _) = handle_socket("u1".to_string());
    connection.on_forwarded(false);
    let broadcast = Broadcast { owner: "u1".to_string(), text: "late".to_string() };
    assert_eq!(connection.on_broadcast(HubEvent::Message(broadcast)), Outbound::Stop);
    assert_eq!(connection.on_broadcast(HubEvent::Lagged(1)), Outbound::Stop);
    assert!(!connection.outbound_running);
    let (mut orphan, _) = handle_socket("u1".to_string());
    assert_eq!(orphan.on_broadcast(HubEvent::Closed), Outbound::Stop);
    let broadcast = Broadcast { owner: "u1".to_string(), text: "late".to_string() };
    assert_eq!(orphan.on_broadcast(HubEvent::Message(broadcast)), Outbound::Stop);
}
