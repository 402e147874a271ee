//! The router for user agents that are reached through a connection node.
//!
//! The node that holds a user's connection is found in the user's record. A
//! notification goes to that node; where the node is busy or cannot be
//! reached, the notification is stored, and the node that the user is then
//! connected to is told to look for it.
//!
//! The router decides and the caller acts: [`WebPushRouter::start`] names the
//! first request to make, and [`WebPushRouter::step`] takes the outcome of a
//! request and names the next one, until the action is
//! [`RouteAction::Respond`] or [`RouteAction::Fail`]. The answer to the
//! sender is then made by [`WebPushRouter::respond`].

use crate::decimal::{decimal_text, i64_to_string};
use crate::error::{result_view, ApiError, ApiErrorKind, ApiErrorView, DbError, DbErrorView};
use crate::links::{
    join_url, make_message_path, make_notif_url, make_push_url, message_path, notif_url, push_url,
    url_join,
};
use crate::metrics::{host_gone, message_data, payload_size, Metric, MetricView};
use crate::notification::{Notification, NotificationView, User, UserView};
use crate::routers::{RouterError, RouterErrorView, RouterResponse, RouterResponseView};
use vstd::prelude::*;

verus! {

/// What the router knows of its surroundings.
pub struct WebPushRouter {
    /// The partition in which storage keeps the messages of a user whose
    /// record names none.
    pub current_message_month: String,
    /// The base URL of this endpoint.
    pub endpoint_url: url::Url,
}

/// A [`WebPushRouter`] as plain values.
pub struct WebPushRouterView {
    pub current_message_month: Seq<char>,
    pub endpoint_url: url::Url,
}

impl View for WebPushRouter {
    type V = WebPushRouterView;

    open spec fn view(&self) -> WebPushRouterView {
        WebPushRouterView {
            current_message_month: self.current_message_month@,
            endpoint_url: self.endpoint_url,
        }
    }
}

/// Where a routed notification went.
#[derive(Debug, Clone, Copy, PartialEq, Eq)]
pub enum Destination {
    /// A connection node took it.
    Direct,
    /// It is kept in storage.
    Stored,
}

/// The tag under which a destination is counted.
pub open spec fn tag_of(destination: Destination) -> Seq<char> {
    match destination {
        Destination::Direct => "Direct"@,
        Destination::Stored => "Stored"@,
    }
}

/// The HTTP status that tells the sender of a destination.
pub open spec fn status_of(destination: Destination) -> u16 {
    match destination {
        Destination::Direct => 200,
        Destination::Stored => 202,
    }
}

/// How far the routing of a notification has come: the request whose outcome
/// is awaited.
#[derive(Debug, Clone, PartialEq, Eq)]
pub enum RouteState {
    /// The notification was sent to the node of the addressed user.
    Delivering { node_id: String },
    /// Storage was asked to forget that node, which could not be reached.
    ClearingBeforeStore,
    /// Storage was asked to keep the notification.
    Storing,
    /// Storage was asked for the user's record again.
    Refetching,
    /// The node named in the record `user` was told to look for messages.
    Checking { user: User, node_id: String },
    /// Storage was asked to forget the node of the record that was fetched.
    ClearingAfterCheck,
    /// The routing has ended.
    Done,
}

/// A [`RouteState`] as plain values.
pub enum RouteStateView {
    Delivering { node_id: Seq<char> },
    ClearingBeforeStore,
    Storing,
    Refetching,
    Checking { user: UserView, node_id: Seq<char> },
    ClearingAfterCheck,
    Done,
}

impl View for RouteState {
    type V = RouteStateView;

    open spec fn view(&self) -> RouteStateView {
        match *self {
            RouteState::Delivering { node_id } => RouteStateView::Delivering { node_id: node_id@ },
            RouteState::ClearingBeforeStore => RouteStateView::ClearingBeforeStore,
            RouteState::Storing => RouteStateView::Storing,
            RouteState::Refetching => RouteStateView::Refetching,
            RouteState::Checking { user, node_id } => RouteStateView::Checking {
                user: user@,
                node_id: node_id@,
            },
            RouteState::ClearingAfterCheck => RouteStateView::ClearingAfterCheck,
            RouteState::Done => RouteStateView::Done,
        }
    }
}

/// The outcome of a request that the router asked for.
#[derive(Debug, PartialEq, Eq)]
pub enum RouteEvent {
    /// The node answered, with this HTTP status.
    NodeReplied { status: u16 },
    /// The call to the node failed outright.
    NodeUnreachable,
    /// Storage has cleared the node of a user, or failed to.
    NodeIdRemoved(Result<(), DbError>),
    /// Storage has kept the notification, or failed to.
    NotificationStored(Result<(), DbError>),
    /// Storage has returned the user's record, or failed to.
    UserFetched(Result<User, DbError>),
}

/// A [`RouteEvent`] as plain values.
pub enum RouteEventView {
    NodeReplied { status: u16 },
    NodeUnreachable,
    NodeIdRemoved(Result<(), DbErrorView>),
    NotificationStored(Result<(), DbErrorView>),
    UserFetched(Result<UserView, DbErrorView>),
}

impl View for RouteEvent {
    type V = RouteEventView;

    open spec fn view(&self) -> RouteEventView {
        match *self {
            RouteEvent::NodeReplied { status } => RouteEventView::NodeReplied { status },
            RouteEvent::NodeUnreachable => RouteEventView::NodeUnreachable,
            RouteEvent::NodeIdRemoved(r) => RouteEventView::NodeIdRemoved(result_view(r)),
            RouteEvent::NotificationStored(r) => RouteEventView::NotificationStored(
                result_view(r),
            ),
            RouteEvent::UserFetched(r) => RouteEventView::UserFetched(result_view(r)),
        }
    }
}

/// What the caller is to do next.
#[derive(Debug, Clone, PartialEq, Eq)]
pub enum RouteAction {
    /// `PUT` the notification to `url`, the delivery endpoint of a node.
    SendNotification { url: String },
    /// `PUT` nothing to `url`, which makes a node look for stored messages.
    CheckNotifications { url: String },
    /// Report `metric`, then have storage clear `node_id` from the record of
    /// `uaid`, unless the user has connected anew since `connected_at`.
    RemoveNodeId { metric: Metric, uaid: u128, node_id: String, connected_at: u64 },
    /// Have storage keep the notification for `uaid` in the partition
    /// `message_month`.
    StoreNotification { uaid: u128, message_month: String },
    /// Have storage return the record of `uaid`.
    FetchUser { uaid: u128 },
    /// Answer that the notification went to the destination.
    Respond(Destination),
    /// Answer with the error.
    Fail(ApiError),
}

/// A [`RouteAction`] as plain values.
pub enum RouteActionView {
    SendNotification { url: Seq<char> },
    CheckNotifications { url: Seq<char> },
    RemoveNodeId { metric: MetricView, uaid: u128, node_id: Seq<char>, connected_at: u64 },
    StoreNotification { uaid: u128, message_month: Seq<char> },
    FetchUser { uaid: u128 },
    Respond(Destination),
    Fail(ApiErrorView),
}

impl View for RouteAction {
    type V = RouteActionView;

    open spec fn view(&self) -> RouteActionView {
        match *self {
            RouteAction::SendNotification { url } => RouteActionView::SendNotification { url: url@ },
            RouteAction::CheckNotifications { url } => RouteActionView::CheckNotifications {
                url: url@,
            },
            RouteAction::RemoveNodeId {
                metric,
                uaid,
                node_id,
                connected_at,
            } => RouteActionView::RemoveNodeId {
                metric: metric@,
                uaid,
                node_id: node_id@,
                connected_at,
            },
            RouteAction::StoreNotification {
                uaid,
                message_month,
            } => RouteActionView::StoreNotification { uaid, message_month: message_month@ },
            RouteAction::FetchUser { uaid } => RouteActionView::FetchUser { uaid },
            RouteAction::Respond(destination) => RouteActionView::Respond(destination),
            RouteAction::Fail(e) => RouteActionView::Fail(e@),
        }
    }
}

/// The request that sends the notification to the node at `node_id`.
pub open spec fn send_request(n: NotificationView, node_id: Seq<char>) -> RouteActionView {
    RouteActionView::SendNotification { url: push_url(node_id, n.user.uaid) }
}

/// The request that makes the node at `node_id` look for the messages of
/// `uaid`.
pub open spec fn check_request(uaid: u128, node_id: Seq<char>) -> RouteActionView {
    RouteActionView::CheckNotifications { url: notif_url(node_id, uaid) }
}

/// The request that stores the notification: in the partition that the
/// user's record names, and in the store's current one where it names none.
pub open spec fn store_request(router: WebPushRouterView, n: NotificationView) -> RouteActionView {
    RouteActionView::StoreNotification {
        uaid: n.user.uaid,
        message_month: match n.user.current_month {
            Some(month) => month,
            None => router.current_message_month,
        },
    }
}

/// The request that clears `node_id` from the record `user`, guarded by the
/// time at which that record says the user connected.
pub open spec fn remove_request(user: UserView, node_id: Seq<char>) -> RouteActionView {
    RouteActionView::RemoveNodeId {
        metric: host_gone(),
        uaid: user.uaid,
        node_id,
        connected_at: user.connected_at,
    }
}

/// How routing begins: with a delivery to the user's node where the record
/// names one, and with storing otherwise.
pub open spec fn first_step(router: WebPushRouterView, n: NotificationView) -> (
    RouteStateView,
    RouteActionView,
) {
    match n.user.node_id {
        Some(node_id) => (RouteStateView::Delivering { node_id }, send_request(n, node_id)),
        None => (RouteStateView::Storing, store_request(router, n)),
    }
}

/// Whether `event` is an outcome of the request that `state` awaits.
pub open spec fn expects(state: RouteStateView, event: RouteEventView) -> bool {
    match state {
        RouteStateView::Delivering { .. } | RouteStateView::Checking { .. } => event is NodeReplied
            || event is NodeUnreachable,
        RouteStateView::ClearingBeforeStore | RouteStateView::ClearingAfterCheck => event is NodeIdRemoved,
        RouteStateView::Storing => event is NotificationStored,
        RouteStateView::Refetching => event is UserFetched,
        RouteStateView::Done => false,
    }
}

/// How routing goes on: the state and the action that follow `event` in
/// `state`, and `None` where the state does not await such an event.
///
/// A failure to clear a node is answered as a database error, before the
/// notification is stored and after the check alike.
pub open spec fn next_step(
    router: WebPushRouterView,
    n: NotificationView,
    state: RouteStateView,
    event: RouteEventView,
) -> Option<(RouteStateView, RouteActionView)> {
    match (state, event) {
        (RouteStateView::Delivering { .. }, RouteEventView::NodeReplied { status }) => Some(
            if status == 200 {
                (RouteStateView::Done, RouteActionView::Respond(Destination::Direct))
            } else {
                (RouteStateView::Storing, store_request(router, n))
            },
        ),
        (RouteStateView::Delivering { node_id }, RouteEventView::NodeUnreachable) => Some(
            (RouteStateView::ClearingBeforeStore, remove_request(n.user, node_id)),
        ),
        (RouteStateView::ClearingBeforeStore, RouteEventView::NodeIdRemoved(Ok(_))) => Some(
            (RouteStateView::Storing, store_request(router, n)),
        ),
        (RouteStateView::ClearingBeforeStore, RouteEventView::NodeIdRemoved(Err(e))) => Some(
            (RouteStateView::Done, RouteActionView::Fail(ApiErrorView::Database(e))),
        ),
        (RouteStateView::Storing, RouteEventView::NotificationStored(Ok(_))) => Some(
            (RouteStateView::Refetching, RouteActionView::FetchUser { uaid: n.user.uaid }),
        ),
        (RouteStateView::Storing, RouteEventView::NotificationStored(Err(e))) => Some(
            (
                RouteStateView::Done,
                RouteActionView::Fail(ApiErrorView::Router(RouterErrorView::SaveDb(e))),
            ),
        ),
        (RouteStateView::Refetching, RouteEventView::UserFetched(Ok(user))) => Some(
            match user.node_id {
                Some(node_id) => (
                    RouteStateView::Checking { user, node_id },
                    check_request(user.uaid, node_id),
                ),
                None => (RouteStateView::Done, RouteActionView::Respond(Destination::Stored)),
            },
        ),
        (RouteStateView::Refetching, RouteEventView::UserFetched(Err(e))) => Some(
            if e.is_user_not_found() {
                (
                    RouteStateView::Done,
                    RouteActionView::Fail(ApiErrorView::Router(RouterErrorView::UserWasDeleted)),
                )
            } else {
                (RouteStateView::Done, RouteActionView::Respond(Destination::Stored))
            },
        ),
        (RouteStateView::Checking { .. }, RouteEventView::NodeReplied { status }) => Some(
            (
                RouteStateView::Done,
                RouteActionView::Respond(
                    if status == 200 {
                        Destination::Direct
                    } else {
                        Destination::Stored
                    },
                ),
            ),
        ),
        (RouteStateView::Checking { user, node_id }, RouteEventView::NodeUnreachable) => Some(
            (RouteStateView::ClearingAfterCheck, remove_request(user, node_id)),
        ),
        (RouteStateView::ClearingAfterCheck, RouteEventView::NodeIdRemoved(Ok(_))) => Some(
            (RouteStateView::Done, RouteActionView::Respond(Destination::Stored)),
        ),
        (RouteStateView::ClearingAfterCheck, RouteEventView::NodeIdRemoved(Err(e))) => Some(
            (RouteStateView::Done, RouteActionView::Fail(ApiErrorView::Database(e))),
        ),
        _ => None,
    }
}

/// A response together with the count that is reported with it.
#[derive(Debug, Clone, PartialEq, Eq)]
pub struct Routed {
    pub metric: Metric,
    pub response: RouterResponse,
}

/// A [`Routed`] as plain values.
pub struct RoutedView {
    pub metric: MetricView,
    pub response: RouterResponseView,
}

impl View for Routed {
    type V = RoutedView;

    open spec fn view(&self) -> RoutedView {
        RoutedView { metric: self.metric@, response: self.response@ }
    }
}

/// The time to live that a response reports: that of the notification, and
/// 0 where it has none.
pub open spec fn ttl_or_zero(ttl: Option<i64>) -> int {
    match ttl {
        Some(t) => t as int,
        None => 0,
    }
}

/// The URL under which the message of `n` can be looked up: `/m/` and the
/// message's identifier, resolved against the endpoint's base URL. `None`
/// where the URL library cannot resolve it.
pub open spec fn location(router: WebPushRouterView, n: NotificationView) -> Option<Seq<char>> {
    url_join(router.endpoint_url, message_path(n.message_id))
}

/// The answer for a routed notification: the status, the headers `Location`
/// and `TTL` in this order, no body; and with it the count of the payload's
/// size under the destination's tag.
pub open spec fn routed(
    location: Seq<char>,
    n: NotificationView,
    destination_tag: Seq<char>,
    status: u16,
) -> RoutedView {
    RoutedView {
        metric: message_data(payload_size(n.data), destination_tag),
        response: RouterResponseView {
            status,
            headers: seq![
                ("Location"@, location),
                ("TTL"@, decimal_text(ttl_or_zero(n.headers.ttl))),
            ],
            body: None,
        },
    }
}

/// The answer for a routed notification names each of its headers once.
pub proof fn routed_is_well_formed(
    location: Seq<char>,
    n: NotificationView,
    destination_tag: Seq<char>,
    status: u16,
)
    ensures
        routed(location, n, destination_tag, status).response.well_formed(),
{
    reveal_strlit("Location");
    reveal_strlit("TTL");
    assert("Location"@.len() != "TTL"@.len());
}

/// Builds the answer for a routed notification whose location is known.
pub fn build_response(
    location: String,
    notification: &Notification,
    destination_tag: &str,
    status: u16,
) -> (r: Routed)
    ensures
        r@ == routed(location@, notification@, destination_tag@, status),
        r@.response.well_formed(),
{
    proof {
        routed_is_well_formed(location@, notification@, destination_tag@, status);
    }
    let metric = Metric::message_data(&notification.data, destination_tag);
    let ttl: i64 = match notification.headers.ttl {
        Some(t) => t,
        None => 0,
    };
    let mut headers: Vec<(String, String)> = Vec::new();
    headers.push((String::from_str("Location"), location));
    headers.push((String::from_str("TTL"), i64_to_string(ttl)));
    let response = RouterResponse { status, headers, body: None };
    assert(response.headers.deep_view() =~= seq![
        ("Location"@, location@),
        ("TTL"@, decimal_text(ttl_or_zero(notification@.headers.ttl))),
    ]);
    Routed { metric, response }
}

/// A step as plain values.
pub open spec fn step_view(step: Option<(RouteState, RouteAction)>) -> Option<
    (RouteStateView, RouteActionView),
> {
    match step {
        Some((state, action)) => Some((state@, action@)),
        None => None,
    }
}

/// A state awaits an outcome exactly where the routing can go on with it.
pub proof fn awaited_outcomes_lead_on(
    router: WebPushRouterView,
    n: NotificationView,
    state: RouteStateView,
    event: RouteEventView,
)
    ensures
        expects(state, event) <==> next_step(router, n, state, event) is Some,
{
}

impl RouteState {
    /// Whether `event` is an outcome of the request that this state awaits.
    pub fn expects(&self, event: &RouteEvent) -> (r: bool)
        ensures
            r == expects(self@, event@),
    {
        match self {
            RouteState::Delivering { .. } | RouteState::Checking { .. } => match event {
                RouteEvent::NodeReplied { .. } | RouteEvent::NodeUnreachable => true,
                _ => false,
            },
            RouteState::ClearingBeforeStore | RouteState::ClearingAfterCheck => match event {
                RouteEvent::NodeIdRemoved(_) => true,
                _ => false,
            },
            RouteState::Storing => match event {
                RouteEvent::NotificationStored(_) => true,
                _ => false,
            },
            RouteState::Refetching => match event {
                RouteEvent::UserFetched(_) => true,
                _ => false,
            },
            RouteState::Done => false,
        }
    }
}

impl WebPushRouter {
    /// The request that sends the notification to the node at `node_id`.
    pub fn send_notification(&self, notification: &Notification, node_id: &str) -> (action:
        RouteAction)
        ensures
            action@ == send_request(notification@, node_id@),
    {
        RouteAction::SendNotification {
            url: make_push_url(node_id, notification.subscription.user.uaid),
        }
    }

    /// The request that makes the node at `node_id` look for the messages of
    /// the user `uaid`.
    pub fn trigger_notification_check(&self, uaid: u128, node_id: &str) -> (action: RouteAction)
        ensures
            action@ == check_request(uaid, node_id@),
    {
        RouteAction::CheckNotifications { url: make_notif_url(node_id, uaid) }
    }

    /// The request that stores the notification.
    pub fn store_notification(&self, notification: &Notification) -> (action: RouteAction)
        ensures
            action@ == store_request(self@, notification@),
    {
        let user = &notification.subscription.user;
        let message_month = match &user.current_month {
            Some(month) => month.clone(),
            None => self.current_message_month.clone(),
        };
        RouteAction::StoreNotification { uaid: user.uaid, message_month }
    }

    /// The request that removes the node from a user's record. This is asked
    /// for when the user is no longer connected to the node.
    pub fn remove_node_id(&self, user: &User, node_id: String) -> (action: RouteAction)
        ensures
            action@ == remove_request(user@, node_id@),
    {
        RouteAction::RemoveNodeId {
            metric: Metric::host_gone(),
            uaid: user.uaid,
            node_id,
            connected_at: user.connected_at,
        }
    }

    /// Begins to route `notification`.
    pub fn start(&self, notification: &Notification) -> (r: (RouteState, RouteAction))
        ensures
            (r.0@, r.1@) == first_step(self@, notification@),
    {
        match &notification.subscription.user.node_id {
            Some(node_id) => {
                let action = self.send_notification(notification, node_id.as_str());
                (RouteState::Delivering { node_id: node_id.clone() }, action)
            },
            None => (RouteState::Storing, self.store_notification(notification)),
        }
    }

    /// Goes on routing `notification` with the outcome of the request that
    /// `state` awaits. `None` where the state awaits no such outcome.
    pub fn step(&self, notification: &Notification, state: RouteState, event: RouteEvent) -> (r:
        Option<(RouteState, RouteAction)>)
        ensures
            step_view(r) == next_step(self@, notification@, state@, event@),
    {
        match state {
            RouteState::Delivering { node_id } => match event {
                RouteEvent::NodeReplied { status } => {
                    if status == 200 {
                        Some((RouteState::Done, RouteAction::Respond(Destination::Direct)))
                    } else {
                        Some((RouteState::Storing, self.store_notification(notification)))
                    }
                },
                RouteEvent::NodeUnreachable => Some(
                    (
                        RouteState::ClearingBeforeStore,
                        self.remove_node_id(&notification.subscription.user, node_id),
                    ),
                ),
                _ => None,
            },
            RouteState::ClearingBeforeStore => match event {
                RouteEvent::NodeIdRemoved(Ok(_)) => Some(
                    (RouteState::Storing, self.store_notification(notification)),
                ),
                RouteEvent::NodeIdRemoved(Err(e)) => Some(
                    (
                        RouteState::Done,
                        RouteAction::Fail(ApiError { kind: ApiErrorKind::Database(e) }),
                    ),
                ),
                _ => None,
            },
            RouteState::Storing => match event {
                RouteEvent::NotificationStored(Ok(_)) => Some(
                    (
                        RouteState::Refetching,
                        RouteAction::FetchUser { uaid: notification.subscription.user.uaid },
                    ),
                ),
                RouteEvent::NotificationStored(Err(e)) => Some(
                    (
                        RouteState::Done,
                        RouteAction::Fail(
                            ApiError { kind: ApiErrorKind::Router(RouterError::SaveDb(e)) },
                        ),
                    ),
                ),
                _ => None,
            },
            RouteState::Refetching => match event {
                RouteEvent::UserFetched(Ok(user)) => {
                    let node = match &user.node_id {
                        Some(node_id) => Some(node_id.clone()),
                        None => None,
                    };
                    match node {
                        Some(node_id) => {
                            let action = self.trigger_notification_check(
                                user.uaid,
                                node_id.as_str(),
                            );
                            Some((RouteState::Checking { user, node_id }, action))
                        },
                        None => Some(
                            (RouteState::Done, RouteAction::Respond(Destination::Stored)),
                        ),
                    }
                },
                RouteEvent::UserFetched(Err(e)) => {
                    if e.is_user_not_found() {
                        Some(
                            (
                                RouteState::Done,
                                RouteAction::Fail(
                                    ApiError {
                                        kind: ApiErrorKind::Router(RouterError::UserWasDeleted),
                                    },
                                ),
                            ),
                        )
                    } else {
                        // The notification is stored already, so this is no failure
                        Some((RouteState::Done, RouteAction::Respond(Destination::Stored)))
                    }
                },
                _ => None,
            },
            RouteState::Checking { user, node_id } => match event {
                RouteEvent::NodeReplied { status } => {
                    if status == 200 {
                        Some((RouteState::Done, RouteAction::Respond(Destination::Direct)))
                    } else {
                        Some((RouteState::Done, RouteAction::Respond(Destination::Stored)))
                    }
                },
                RouteEvent::NodeUnreachable => Some(
                    (RouteState::ClearingAfterCheck, self.remove_node_id(&user, node_id)),
                ),
                _ => None,
            },
            RouteState::ClearingAfterCheck => match event {
                RouteEvent::NodeIdRemoved(Ok(_)) => Some(
                    (RouteState::Done, RouteAction::Respond(Destination::Stored)),
                ),
                RouteEvent::NodeIdRemoved(Err(e)) => Some(
                    (
                        RouteState::Done,
                        RouteAction::Fail(ApiError { kind: ApiErrorKind::Database(e) }),
                    ),
                ),
                _ => None,
            },
            RouteState::Done => None,
        }
    }

    /// The answer after routing `notification`, with the count that goes
    /// with it. The location of the message must be resolvable.
    pub fn make_response(
        &self,
        notification: &Notification,
        destination_tag: &str,
        status: u16,
    ) -> (r: Routed)
        requires
            location(self@, notification@) is Some,
        ensures
            r@ == routed(
                location(self@, notification@)->0,
                notification@,
                destination_tag@,
                status,
            ),
    {
        let path = make_message_path(notification.message_id.as_str());
        let joined = join_url(&self.endpoint_url, path.as_str());
        build_response(joined.unwrap(), notification, destination_tag, status)
    }

    /// The answer for a notification that a connection node has taken.
    pub fn make_delivered_response(&self, notification: &Notification) -> (r: Routed)
        requires
            location(self@, notification@) is Some,
        ensures
            r@ == routed(
                location(self@, notification@)->0,
                notification@,
                tag_of(Destination::Direct),
                status_of(Destination::Direct),
            ),
    {
        self.make_response(notification, "Direct", 200)
    }

    /// The answer for a notification that was stored for later delivery.
    pub fn make_stored_response(&self, notification: &Notification) -> (r: Routed)
        requires
            location(self@, notification@) is Some,
        ensures
            r@ == routed(
                location(self@, notification@)->0,
                notification@,
                tag_of(Destination::Stored),
                status_of(Destination::Stored),
            ),
    {
        self.make_response(notification, "Stored", 202)
    }

    /// The answer for a notification that went to `destination`, and `None`
    /// where the location of the message cannot be resolved.
    pub fn respond(&self, notification: &Notification, destination: Destination) -> (r: Option<
        Routed,
    >)
        ensures
            match location(self@, notification@) {
                Some(l) => r is Some && r->0@ == routed(
                    l,
                    notification@,
                    tag_of(destination),
                    status_of(destination),
                ),
                None => r is None,
            },
    {
        let path = make_message_path(notification.message_id.as_str());
        if join_url(&self.endpoint_url, path.as_str()).is_none() {
            return None;
        }
        Some(
            match destination {
                Destination::Direct => self.make_delivered_response(notification),
                Destination::Stored => self.make_stored_response(notification),
            },
        )
    }
}

} // verus!
