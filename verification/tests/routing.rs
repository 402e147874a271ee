use autoendpoint::error::{ApiError, ApiErrorKind, DbError};
use autoendpoint::metrics::Metric;
use autoendpoint::notification::{Notification, Subscription, User};
use autoendpoint::notification_headers::NotificationHeaders;
use autoendpoint::routers::RouterError;
use autoendpoint::webpush::{
    build_response, Destination, RouteAction, RouteEvent, RouteState, WebPushRouter,
};
use url::Url;

const UAID: u128 = 0xa1a2a3a4_b1b2_c1c2_d1d2_d3d4d5d6d7d8;
const UAID_TEXT: &str = "a1a2a3a4-b1b2-c1c2-d1d2-d3d4d5d6d7d8";

fn router() -> WebPushRouter {
    WebPushRouter {
        current_message_month: "message_2020_06".to_string(),
        endpoint_url: Url::parse("https://push.example.com:8000/wpush/").unwrap(),
    }
}

fn user(node_id: Option<&str>) -> User {
    User {
        uaid: UAID,
        node_id: node_id.map(str::to_string),
        current_month: None,
        connected_at: 1_591_000_000_000,
    }
}

fn notification(node_id: Option<&str>) -> Notification {
    Notification {
        message_id: "gAAAAABe-message-id_01".to_string(),
        subscription: Subscription {
            user: user(node_id),
            channel_id: 0xdeadbeef,
        },
        headers: NotificationHeaders {
            ttl: Some(60),
            topic: None,
            content_encoding: None,
            encryption: None,
            encryption_key: None,
            crypto_key: None,
        },
        data: Some("payload".to_string()),
    }
}

/// Feeds the events to the router and returns every action it asked for,
/// the first one included, and the state it ended in.
fn route(
    router: &WebPushRouter,
    notification: &Notification,
    events: Vec<RouteEvent>,
) -> (Vec<RouteAction>, RouteState) {
    let (mut state, action) = router.start(notification);
    let mut actions = vec![action];
    for event in events {
        assert!(state.expects(&event), "{:?} does not await {:?}", state, event);
        let (next, action) = router.step(notification, state, event).unwrap();
        state = next;
        actions.push(action);
    }
    (actions, state)
}

fn stores(actions: &[RouteAction]) -> usize {
    actions
        .iter()
        .filter(|action| matches!(action, RouteAction::StoreNotification { .. }))
        .count()
}

fn store_action() -> RouteAction {
    RouteAction::StoreNotification {
        uaid: UAID,
        message_month: "message_2020_06".to_string(),
    }
}

fn remove_action(node_id: &str, connected_at: u64) -> RouteAction {
    RouteAction::RemoveNodeId {
        metric: Metric {
            name: "updates.client.host_gone".to_string(),
            count: 1,
            tags: vec![],
        },
        uaid: UAID,
        node_id: node_id.to_string(),
        connected_at,
    }
}

fn db_error() -> DbError {
    DbError::Backend("provisioned throughput exceeded".to_string())
}

/// The node takes the notification: the answer is direct, and storage was
/// asked nothing
#[test]
fn node_accepts_notification() {
    let n = notification(Some("http://node-1:8082"));
    let (actions, state) = route(&router(), &n, vec![RouteEvent::NodeReplied { status: 200 }]);
    assert_eq!(
        actions,
        vec![
            RouteAction::SendNotification {
                url: format!("http://node-1:8082/push/{}", UAID_TEXT)
            },
            RouteAction::Respond(Destination::Direct),
        ]
    );
    assert_eq!(state, RouteState::Done);
    let routed = router().respond(&n, Destination::Direct).unwrap();
    assert_eq!(routed.response.status, 200);
}

/// The node is busy: the notification is stored, and the user, fetched
/// again, has no node
#[test]
fn busy_node_then_stored() {
    let n = notification(Some("http://node-1:8082"));
    let (actions, state) = route(
        &router(),
        &n,
        vec![
            RouteEvent::NodeReplied { status: 503 },
            RouteEvent::NotificationStored(Ok(())),
            RouteEvent::UserFetched(Ok(user(None))),
        ],
    );
    assert_eq!(
        actions,
        vec![
            RouteAction::SendNotification {
                url: format!("http://node-1:8082/push/{}", UAID_TEXT)
            },
            store_action(),
            RouteAction::FetchUser { uaid: UAID },
            RouteAction::Respond(Destination::Stored),
        ]
    );
    assert_eq!(state, RouteState::Done);
    let routed = router().respond(&n, Destination::Stored).unwrap();
    assert_eq!(routed.response.status, 202);
}

/// The node cannot be reached: it is cleared from the user's record once,
/// before the notification is stored
#[test]
fn unreachable_node_is_cleared() {
    let n = notification(Some("http://node-1:8082"));
    let (actions, _) = route(
        &router(),
        &n,
        vec![
            RouteEvent::NodeUnreachable,
            RouteEvent::NodeIdRemoved(Ok(())),
            RouteEvent::NotificationStored(Ok(())),
            RouteEvent::UserFetched(Ok(user(None))),
        ],
    );
    assert_eq!(
        actions,
        vec![
            RouteAction::SendNotification {
                url: format!("http://node-1:8082/push/{}", UAID_TEXT)
            },
            remove_action("http://node-1:8082", 1_591_000_000_000),
            store_action(),
            RouteAction::FetchUser { uaid: UAID },
            RouteAction::Respond(Destination::Stored),
        ]
    );
    let removes = actions
        .iter()
        .filter(|action| matches!(action, RouteAction::RemoveNodeId { .. }))
        .count();
    assert_eq!(removes, 1);
}

/// The user is gone when fetched again
#[test]
fn user_was_deleted() {
    let n = notification(None);
    let (actions, state) = route(
        &router(),
        &n,
        vec![
            RouteEvent::NotificationStored(Ok(())),
            RouteEvent::UserFetched(Err(DbError::Msg("No user record found".to_string()))),
        ],
    );
    assert_eq!(actions[0], store_action());
    assert_eq!(
        actions[2],
        RouteAction::Fail(ApiError {
            kind: ApiErrorKind::Router(RouterError::UserWasDeleted)
        })
    );
    assert_eq!(state, RouteState::Done);
    assert_eq!(RouterError::UserWasDeleted.status(), 410);
    assert_eq!(RouterError::UserWasDeleted.errno(), 105);
    assert_eq!(
        RouterError::UserWasDeleted.message(),
        "User was deleted during routing"
    );
}

/// Any other failure to fetch the user leaves the answer at stored
#[test]
fn refetch_failure_is_swallowed() {
    let n = notification(None);
    for error in [
        db_error(),
        DbError::Msg("no user record found".to_string()),
        DbError::Msg(String::new()),
        DbError::Backend("No user record found".to_string()),
    ] {
        let (actions, _) = route(
            &router(),
            &n,
            vec![
                RouteEvent::NotificationStored(Ok(())),
                RouteEvent::UserFetched(Err(error)),
            ],
        );
        assert_eq!(actions[2], RouteAction::Respond(Destination::Stored));
    }
}

/// The user has moved to another node, which is told to look for messages
#[test]
fn other_node_is_notified() {
    let n = notification(Some("http://node-1:8082"));
    let mut moved = user(Some("http://node-2:8082"));
    moved.connected_at = 1_591_000_000_999;
    let events = |status| {
        vec![
            RouteEvent::NodeReplied { status: 503 },
            RouteEvent::NotificationStored(Ok(())),
            RouteEvent::UserFetched(Ok(moved.clone())),
            RouteEvent::NodeReplied { status },
        ]
    };
    let (actions, _) = route(&router(), &n, events(200));
    assert_eq!(
        actions[3],
        RouteAction::CheckNotifications {
            url: format!("http://node-2:8082/notif/{}", UAID_TEXT)
        }
    );
    assert_eq!(actions[4], RouteAction::Respond(Destination::Direct));
    let (actions, _) = route(&router(), &n, events(404));
    assert_eq!(actions[4], RouteAction::Respond(Destination::Stored));
    let (actions, _) = route(&router(), &n, events(201));
    assert_eq!(actions[4], RouteAction::Respond(Destination::Stored));
}

/// The other node cannot be reached either: it is cleared, under the guard
/// of the record that was fetched, and the answer is stored
#[test]
fn other_node_is_cleared() {
    let n = notification(Some("http://node-1:8082"));
    let mut moved = user(Some("http://node-2:8082"));
    moved.connected_at = 1_591_000_000_999;
    let (actions, state) = route(
        &router(),
        &n,
        vec![
            RouteEvent::NodeUnreachable,
            RouteEvent::NodeIdRemoved(Ok(())),
            RouteEvent::NotificationStored(Ok(())),
            RouteEvent::UserFetched(Ok(moved)),
            RouteEvent::NodeUnreachable,
            RouteEvent::NodeIdRemoved(Ok(())),
        ],
    );
    assert_eq!(actions.len(), 7);
    assert_eq!(actions[1], remove_action("http://node-1:8082", 1_591_000_000_000));
    assert_eq!(actions[5], remove_action("http://node-2:8082", 1_591_000_000_999));
    assert_eq!(actions[6], RouteAction::Respond(Destination::Stored));
    assert_eq!(stores(&actions), 1);
    assert_eq!(state, RouteState::Done);
}

/// However the routing goes, the notification is stored once at most
#[test]
fn stored_at_most_once() {
    let with_node = notification(Some("http://node-1:8082"));
    let without = notification(None);
    let moved = user(Some("http://node-2:8082"));
    let runs: Vec<(&Notification, Vec<RouteEvent>)> = vec![
        (&with_node, vec![RouteEvent::NodeReplied { status: 200 }]),
        (
            &with_node,
            vec![
                RouteEvent::NodeUnreachable,
                RouteEvent::NodeIdRemoved(Ok(())),
                RouteEvent::NotificationStored(Ok(())),
                RouteEvent::UserFetched(Ok(moved.clone())),
                RouteEvent::NodeUnreachable,
                RouteEvent::NodeIdRemoved(Err(db_error())),
            ],
        ),
        (
            &with_node,
            vec![
                RouteEvent::NodeReplied { status: 500 },
                RouteEvent::NotificationStored(Ok(())),
                RouteEvent::UserFetched(Ok(moved.clone())),
                RouteEvent::NodeReplied { status: 500 },
            ],
        ),
        (
            &without,
            vec![
                RouteEvent::NotificationStored(Ok(())),
                RouteEvent::UserFetched(Ok(moved)),
                RouteEvent::NodeReplied { status: 200 },
            ],
        ),
        (&without, vec![RouteEvent::NotificationStored(Err(db_error()))]),
    ];
    for (n, events) in runs {
        let (actions, state) = route(&router(), n, events);
        assert!(stores(&actions) <= 1);
        assert!(actions.len() <= 7);
        assert_eq!(state, RouteState::Done);
    }
}

/// A user without a node gets the notification stored at once
#[test]
fn no_node_stores_first() {
    let mut n = notification(None);
    n.subscription.user.current_month = Some("message_2020_05".to_string());
    let (state, action) = router().start(&n);
    assert_eq!(state, RouteState::Storing);
    assert_eq!(
        action,
        RouteAction::StoreNotification {
            uaid: UAID,
            message_month: "message_2020_05".to_string()
        }
    );
}

/// Storage fails to keep the notification
#[test]
fn save_db_error() {
    let n = notification(None);
    let (actions, state) = route(
        &router(),
        &n,
        vec![RouteEvent::NotificationStored(Err(db_error()))],
    );
    assert_eq!(
        actions[1],
        RouteAction::Fail(ApiError {
            kind: ApiErrorKind::Router(RouterError::SaveDb(db_error()))
        })
    );
    assert_eq!(state, RouteState::Done);
    assert_eq!(RouterError::SaveDb(db_error()).status(), 503);
    assert_eq!(RouterError::SaveDb(db_error()).errno(), 201);
    assert_eq!(
        RouterError::SaveDb(db_error()).message(),
        "Database error while saving notification"
    );
}

/// A failure to clear a node ends the routing with a database error, at
/// either place
#[test]
fn clear_failure_is_a_database_error() {
    let n = notification(Some("http://node-1:8082"));
    let failed = RouteAction::Fail(ApiError {
        kind: ApiErrorKind::Database(db_error()),
    });
    let (actions, state) = route(
        &router(),
        &n,
        vec![
            RouteEvent::NodeUnreachable,
            RouteEvent::NodeIdRemoved(Err(db_error())),
        ],
    );
    assert_eq!(actions[2], failed);
    assert_eq!(stores(&actions), 0);
    assert_eq!(state, RouteState::Done);
    let (actions, state) = route(
        &router(),
        &n,
        vec![
            RouteEvent::NodeReplied { status: 503 },
            RouteEvent::NotificationStored(Ok(())),
            RouteEvent::UserFetched(Ok(user(Some("http://node-2:8082")))),
            RouteEvent::NodeUnreachable,
            RouteEvent::NodeIdRemoved(Err(db_error())),
        ],
    );
    assert_eq!(actions[5], failed);
    assert_eq!(state, RouteState::Done);
}

/// A state awaits the outcomes of its own request only
#[test]
fn states_await_their_outcomes() {
    let events = || {
        vec![
            RouteEvent::NodeReplied { status: 200 },
            RouteEvent::NodeUnreachable,
            RouteEvent::NodeIdRemoved(Ok(())),
            RouteEvent::NotificationStored(Ok(())),
            RouteEvent::UserFetched(Ok(user(None))),
        ]
    };
    let expected = [
        (
            RouteState::Delivering {
                node_id: "n".to_string(),
            },
            [true, true, false, false, false],
        ),
        (RouteState::ClearingBeforeStore, [false, false, true, false, false]),
        (RouteState::Storing, [false, false, false, true, false]),
        (RouteState::Refetching, [false, false, false, false, true]),
        (
            RouteState::Checking {
                user: user(Some("n")),
                node_id: "n".to_string(),
            },
            [true, true, false, false, false],
        ),
        (RouteState::ClearingAfterCheck, [false, false, true, false, false]),
        (RouteState::Done, [false, false, false, false, false]),
    ];
    let n = notification(Some("n"));
    for (state, awaited) in expected {
        for (event, yes) in events().into_iter().zip(awaited) {
            assert_eq!(state.expects(&event), yes, "{:?} {:?}", state, event);
            assert_eq!(router().step(&n, state.clone(), event).is_some(), yes);
        }
    }
}

/// The answers carry the location of the message, the TTL and no body
#[test]
fn responses() {
    let n = notification(None);
    let delivered = router().make_delivered_response(&n);
    assert_eq!(delivered.response.status, 200);
    assert_eq!(
        delivered.response.headers,
        vec![
            (
                "Location".to_string(),
                "https://push.example.com:8000/m/gAAAAABe-message-id_01".to_string()
            ),
            ("TTL".to_string(), "60".to_string()),
        ]
    );
    assert_eq!(delivered.response.body, None);
    assert_eq!(
        delivered.response.header("Location"),
        Some("https://push.example.com:8000/m/gAAAAABe-message-id_01")
    );
    assert_eq!(delivered.response.header("TTL"), Some("60"));
    assert_eq!(delivered.response.header("ttl"), None);
    assert_eq!(
        delivered.metric,
        Metric {
            name: "notification.message_data".to_string(),
            count: 7,
            tags: vec![("destination".to_string(), "Direct".to_string())],
        }
    );
    let stored = router().make_stored_response(&n);
    assert_eq!(stored.response.status, 202);
    assert_eq!(stored.response.headers, delivered.response.headers);
    assert_eq!(
        stored.metric.tags,
        vec![("destination".to_string(), "Stored".to_string())]
    );
    assert_eq!(router().respond(&n, Destination::Direct), Some(delivered));
    assert_eq!(router().respond(&n, Destination::Stored), Some(stored));
    let other = router().make_response(&n, "Elsewhere", 299);
    assert_eq!(other.response.status, 299);
    assert_eq!(
        other.metric.tags,
        vec![("destination".to_string(), "Elsewhere".to_string())]
    );
}

/// Without a TTL the answer reports 0, and without a payload the count is 0
#[test]
fn response_without_ttl_and_payload() {
    let mut n = notification(None);
    n.headers.ttl = None;
    n.data = None;
    let routed = build_response("https://here/m/1".to_string(), &n, "Stored", 202);
    assert_eq!(
        routed.response.headers,
        vec![
            ("Location".to_string(), "https://here/m/1".to_string()),
            ("TTL".to_string(), "0".to_string()),
        ]
    );
    assert_eq!(routed.metric.count, 0);
    n.data = Some("häß€".to_string());
    assert_eq!(build_response(String::new(), &n, "Stored", 202).metric.count, 8);
}

/// A base URL that cannot be a base gives no location
#[test]
fn unresolvable_location() {
    let router = WebPushRouter {
        current_message_month: String::new(),
        endpoint_url: Url::parse("mailto:push@example.com").unwrap(),
    };
    assert_eq!(router.respond(&notification(None), Destination::Stored), None);
}

/// The requests name what the caller has to do
#[test]
fn requests() {
    let n = notification(None);
    assert_eq!(
        router().send_notification(&n, "https://node"),
        RouteAction::SendNotification {
            url: format!("https://node/push/{}", UAID_TEXT)
        }
    );
    assert_eq!(
        router().trigger_notification_check(0, "https://node"),
        RouteAction::CheckNotifications {
            url: "https://node/notif/00000000-0000-0000-0000-000000000000".to_string()
        }
    );
    assert_eq!(
        router().trigger_notification_check(u128::MAX, ""),
        RouteAction::CheckNotifications {
            url: "/notif/ffffffff-ffff-ffff-ffff-ffffffffffff".to_string()
        }
    );
    assert_eq!(router().store_notification(&n), store_action());
    assert_eq!(
        router().remove_node_id(&user(None), "x".to_string()),
        remove_action("x", 1_591_000_000_000)
    );
    assert_eq!(
        Metric::host_gone(),
        Metric {
            name: "updates.client.host_gone".to_string(),
            count: 1,
            tags: vec![]
        }
    );
}
