//! What holds of every routing, whatever the nodes and storage answer.

use crate::error::ApiErrorView;
use crate::notification::NotificationView;
use crate::routers::RouterErrorView;
use crate::webpush::{
    first_step, next_step, remove_request, send_request, store_request, Destination,
    RouteActionView, RouteEventView, RouteStateView, WebPushRouterView,
};
use vstd::prelude::*;

verus! {

/// The state and the pending action once the outcomes `events` have been
/// taken in, in order, and `None` where one of them was not awaited.
pub open spec fn run(router: WebPushRouterView, n: NotificationView, events: Seq<RouteEventView>)
    -> Option<(RouteStateView, RouteActionView)>
    decreases events.len(),
{
    if events.len() == 0 {
        Some(first_step(router, n))
    } else {
        match run(router, n, events.drop_last()) {
            Some((state, _)) => next_step(router, n, state, events.last()),
            None => None,
        }
    }
}

/// How far a state is along the way: every step leads to a higher rank.
pub open spec fn rank(state: RouteStateView) -> nat {
    match state {
        RouteStateView::Delivering { .. } => 0,
        RouteStateView::ClearingBeforeStore => 1,
        RouteStateView::Storing => 2,
        RouteStateView::Refetching => 3,
        RouteStateView::Checking { .. } => 4,
        RouteStateView::ClearingAfterCheck => 5,
        RouteStateView::Done => 6,
    }
}

/// Whether storage has confirmed that it keeps the notification.
pub open spec fn stored(events: Seq<RouteEventView>) -> bool {
    exists|i: int| 0 <= i < events.len() && #[trigger] events[i] == RouteEventView::NotificationStored(Ok(()))
}

/// The action fits the state: the request that the state awaits, and an
/// answer exactly when the routing is done.
pub open spec fn action_fits(state: RouteStateView, action: RouteActionView) -> bool {
    match state {
        RouteStateView::Delivering { .. } => action is SendNotification,
        RouteStateView::ClearingBeforeStore | RouteStateView::ClearingAfterCheck => action is RemoveNodeId,
        RouteStateView::Storing => action is StoreNotification,
        RouteStateView::Refetching => action is FetchUser,
        RouteStateView::Checking { .. } => action is CheckNotifications,
        RouteStateView::Done => action is Respond || action is Fail,
    }
}

proof fn lemma_step(
    router: WebPushRouterView,
    n: NotificationView,
    state: RouteStateView,
    event: RouteEventView,
)
    requires
        next_step(router, n, state, event) is Some,
    ensures
        rank(next_step(router, n, state, event).unwrap().0) > rank(state),
        action_fits(
            next_step(router, n, state, event).unwrap().0,
            next_step(router, n, state, event).unwrap().1,
        ),
{
}

proof fn lemma_prefix(
    router: WebPushRouterView,
    n: NotificationView,
    events: Seq<RouteEventView>,
    k: int,
)
    requires
        run(router, n, events) is Some,
        0 <= k <= events.len(),
    ensures
        run(router, n, events.take(k)) is Some,
        rank(run(router, n, events.take(k)).unwrap().0) + (events.len() - k) <= rank(
            run(router, n, events).unwrap().0,
        ),
        action_fits(run(router, n, events).unwrap().0, run(router, n, events).unwrap().1),
    decreases events.len(),
{
    if events.len() == 0 {
        assert(events.take(k) =~= events);
    } else {
        let shorter = events.drop_last();
        let state = run(router, n, shorter).unwrap().0;
        lemma_step(router, n, state, events.last());
        if k == events.len() {
            assert(events.take(k) =~= events);
        } else {
            lemma_prefix(router, n, shorter, k);
            assert(shorter.take(k) =~= events.take(k));
        }
    }
}

/// The action that is pending once the first `k` of the outcomes `events`
/// have been taken in.
pub open spec fn action_at(
    router: WebPushRouterView,
    n: NotificationView,
    events: Seq<RouteEventView>,
    k: int,
) -> RouteActionView {
    run(router, n, events.take(k)).unwrap().1
}

/// The state in which the first `k` of the outcomes `events` leave the
/// routing.
pub open spec fn state_at(
    router: WebPushRouterView,
    n: NotificationView,
    events: Seq<RouteEventView>,
    k: int,
) -> RouteStateView {
    run(router, n, events.take(k)).unwrap().0
}

/// A routing never comes back to where it was: every outcome leads to a
/// state of higher rank, and the pending request is the one of the state.
/// So the node of the addressed user is asked before anything is stored,
/// a node is cleared before the notification is stored or after the check
/// only, and each request is made once at most.
pub proof fn requests_follow_in_order(
    router: WebPushRouterView,
    n: NotificationView,
    events: Seq<RouteEventView>,
    i: int,
    j: int,
)
    requires
        run(router, n, events) is Some,
        0 <= i < j <= events.len(),
    ensures
        rank(state_at(router, n, events, i)) < rank(state_at(router, n, events, j)),
        action_fits(state_at(router, n, events, i), action_at(router, n, events, i)),
        action_fits(state_at(router, n, events, j), action_at(router, n, events, j)),
{
    let upto_j = events.take(j);
    lemma_prefix(router, n, events, j);
    lemma_prefix(router, n, upto_j, i);
    assert(upto_j.take(i) =~= events.take(i));
    lemma_prefix(router, n, events.take(i), i);
    assert(events.take(i).take(i) =~= events.take(i));
    lemma_prefix(router, n, upto_j, j);
    assert(upto_j.take(j) =~= upto_j);
}

/// A routing asks storage to keep the notification at most once, whichever
/// way it takes: of the requests made at two different points, not both
/// are requests to store.
pub proof fn store_is_asked_at_most_once(
    router: WebPushRouterView,
    n: NotificationView,
    events: Seq<RouteEventView>,
    i: int,
    j: int,
)
    requires
        run(router, n, events) is Some,
        0 <= i < j <= events.len(),
    ensures
        !(action_at(router, n, events, i) is StoreNotification && action_at(router, n, events, j)
            is StoreNotification),
{
    requests_follow_in_order(router, n, events, i, j);
}

/// A routing takes in six outcomes at most, and makes that many requests
/// before it answers.
pub proof fn routing_ends(router: WebPushRouterView, n: NotificationView, events: Seq<RouteEventView>)
    requires
        run(router, n, events) is Some,
    ensures
        events.len() <= 6,
        action_fits(run(router, n, events).unwrap().0, run(router, n, events).unwrap().1),
{
    lemma_prefix(router, n, events, 0);
}

/// Once the routing is done nothing more is awaited.
pub proof fn done_is_final(
    router: WebPushRouterView,
    n: NotificationView,
    event: RouteEventView,
)
    ensures
        next_step(router, n, RouteStateView::Done, event) is None,
{
}

/// No message is lost: where a routing answers with a destination, either
/// the user's node took the notification at once, which is answered as
/// `Direct`, or storage has confirmed that it keeps the notification.
pub proof fn answered_means_delivered_or_stored(
    router: WebPushRouterView,
    n: NotificationView,
    events: Seq<RouteEventView>,
)
    requires
        run(router, n, events) is Some,
        run(router, n, events).unwrap().1 is Respond,
    ensures
        stored(events) || (events =~= seq![RouteEventView::NodeReplied { status: 200 }] && run(
            router,
            n,
            events,
        ).unwrap().1 == RouteActionView::Respond(Destination::Direct)),
{
    lemma_kept_once_stored(router, n, events);
}

proof fn lemma_kept_once_stored(
    router: WebPushRouterView,
    n: NotificationView,
    events: Seq<RouteEventView>,
)
    requires
        run(router, n, events) is Some,
    ensures
        ({
            let state = run(router, n, events).unwrap().0;
            let action = run(router, n, events).unwrap().1;
            &&& state is Delivering ==> events.len() == 0
            &&& (state is Refetching || state is Checking || state is ClearingAfterCheck)
                ==> stored(events)
            &&& action is Respond ==> stored(events) || (events =~= seq![
                RouteEventView::NodeReplied { status: 200 },
            ] && action == RouteActionView::Respond(Destination::Direct))
        }),
    decreases events.len(),
{
    if events.len() > 0 {
        let shorter = events.drop_last();
        lemma_kept_once_stored(router, n, shorter);
        let last = events.len() - 1;
        assert(events[last] == events.last());
        if stored(shorter) {
            let i = choose|i: int| 0 <= i < shorter.len() && #[trigger] shorter[i]
                == RouteEventView::NotificationStored(Ok(()));
            assert(events[i] == shorter[i]);
        }
        let state = run(router, n, shorter).unwrap().0;
        if state is Storing {
            match events.last() {
                RouteEventView::NotificationStored(Ok(unit)) => {
                    assert(unit == ());
                    assert(events[last] == RouteEventView::NotificationStored(Ok(())));
                },
                _ => {},
            }
        }
    }
}

/// Where the user's record names a node and that node takes the
/// notification, the routing answers `Direct` and has asked nothing of
/// storage: its one request went to the node.
pub proof fn delivered_at_once(
    router: WebPushRouterView,
    n: NotificationView,
    node_id: Seq<char>,
)
    requires
        n.user.node_id == Some(node_id),
    ensures
        first_step(router, n).1 == send_request(n, node_id),
        run(router, n, seq![RouteEventView::NodeReplied { status: 200 }]) == Some(
            (RouteStateView::Done, RouteActionView::Respond(Destination::Direct)),
        ),
{
    let events = seq![RouteEventView::NodeReplied { status: 200 }];
    assert(events.drop_last() =~= Seq::empty());
    assert(run(router, n, events.drop_last()) == Some(first_step(router, n)));
}

/// Where the user's node cannot be reached, the node is cleared from the
/// user's record, under the guard of the record's connection time, and the
/// notification is stored only after that has succeeded.
pub proof fn unreachable_node_is_cleared_before_storing(
    router: WebPushRouterView,
    n: NotificationView,
    node_id: Seq<char>,
)
    requires
        n.user.node_id == Some(node_id),
    ensures
        run(router, n, seq![RouteEventView::NodeUnreachable]) == Some(
            (RouteStateView::ClearingBeforeStore, remove_request(n.user, node_id)),
        ),
        run(
            router,
            n,
            seq![RouteEventView::NodeUnreachable, RouteEventView::NodeIdRemoved(Ok(()))],
        ) == Some((RouteStateView::Storing, store_request(router, n))),
{
    let one = seq![RouteEventView::NodeUnreachable];
    let two = seq![RouteEventView::NodeUnreachable, RouteEventView::NodeIdRemoved(Ok(()))];
    assert(one.drop_last() =~= Seq::empty());
    assert(run(router, n, one.drop_last()) == Some(first_step(router, n)));
    assert(two.drop_last() =~= one);
}

/// Where the user's record is gone when it is fetched again, the routing
/// fails because the user was deleted; any other failure to fetch it leaves
/// the answer at `Stored`.
pub proof fn refetch_failure(
    router: WebPushRouterView,
    n: NotificationView,
    error: crate::error::DbErrorView,
)
    ensures
        next_step(router, n, RouteStateView::Refetching, RouteEventView::UserFetched(Err(error)))
            == Some(
            (
                RouteStateView::Done,
                if error.is_user_not_found() {
                    RouteActionView::Fail(ApiErrorView::Router(RouterErrorView::UserWasDeleted))
                } else {
                    RouteActionView::Respond(Destination::Stored)
                },
            ),
        ),
{
}

} // verus!
