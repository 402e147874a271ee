//! A notification and the subscriber it is addressed to.

use crate::notification_headers::{NotificationHeaders, NotificationHeadersView};
use vstd::prelude::*;

verus! {

/// The record that storage keeps of a subscriber.
#[derive(Debug, Clone, PartialEq, Eq)]
pub struct User {
    /// The identifier of the subscriber.
    pub uaid: u128,
    /// The address of the connection node that is believed to hold the
    /// subscriber's connection, if any.
    pub node_id: Option<String>,
    /// The partition of storage that holds the subscriber's pending
    /// messages, where it is not the store's current one.
    pub current_month: Option<String>,
    /// When the subscriber last connected.
    pub connected_at: u64,
}

/// A [`User`] as plain values.
pub struct UserView {
    pub uaid: u128,
    pub node_id: Option<Seq<char>>,
    pub current_month: Option<Seq<char>>,
    pub connected_at: u64,
}

impl View for User {
    type V = UserView;

    open spec fn view(&self) -> UserView {
        UserView {
            uaid: self.uaid,
            node_id: self.node_id.deep_view(),
            current_month: self.current_month.deep_view(),
            connected_at: self.connected_at,
        }
    }
}

/// A registered endpoint of a subscriber.
#[derive(Debug, Clone, PartialEq, Eq)]
pub struct Subscription {
    pub user: User,
    /// The channel that the endpoint stands for.
    pub channel_id: u128,
}

/// A message to deliver to a subscriber.
#[derive(Debug, Clone, PartialEq, Eq)]
pub struct Notification {
    pub message_id: String,
    pub subscription: Subscription,
    pub headers: NotificationHeaders,
    /// The payload, which is not looked into.
    pub data: Option<String>,
}

/// A [`Notification`] as plain values.
pub struct NotificationView {
    pub message_id: Seq<char>,
    pub user: UserView,
    pub channel_id: u128,
    pub headers: NotificationHeadersView,
    pub data: Option<Seq<char>>,
}

impl View for Notification {
    type V = NotificationView;

    open spec fn view(&self) -> NotificationView {
        NotificationView {
            message_id: self.message_id@,
            user: self.subscription.user@,
            channel_id: self.subscription.channel_id,
            headers: self.headers@,
            data: self.data.deep_view(),
        }
    }
}

} // verus!
