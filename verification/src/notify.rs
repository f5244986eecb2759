//! The notification relay of a node: it holds no state and hands each
//! request on to the notification service as it came.

use vstd::prelude::*;

verus! {

/// The application name under which notifications are sent.
pub const APP_NAME: &'static str = "moxapi";

/// The icon that notifications are sent with: none.
pub const APP_ICON: &'static str = "";

/// A notification as the notification service takes it. It has no actions
/// and no hints.
#[derive(Clone, Copy, Debug, PartialEq, Eq)]
pub struct Notification<'a> {
    pub app_name: &'static str,
    /// The notification that this one replaces; 0 for a new one.
    pub replaces_id: u32,
    pub app_icon: &'static str,
    pub summary: &'a str,
    pub body: &'a str,
    /// In the service's unit; 0 for the service's default.
    pub expire_timeout: i32,
}

/// What a [`Notification`] holds, as plain values.
pub struct NotificationView {
    pub app_name: Seq<char>,
    pub replaces_id: u32,
    pub app_icon: Seq<char>,
    pub summary: Seq<char>,
    pub body: Seq<char>,
    pub expire_timeout: i32,
}

impl<'a> View for Notification<'a> {
    type V = NotificationView;

    open spec fn view(&self) -> NotificationView {
        NotificationView {
            app_name: self.app_name@,
            replaces_id: self.replaces_id,
            app_icon: self.app_icon@,
            summary: self.summary@,
            body: self.body@,
            expire_timeout: self.expire_timeout,
        }
    }
}

/// A notification in the making.
#[derive(Clone, Copy, Debug, PartialEq, Eq)]
pub struct NotificationBuilder<'a> {
    summary: &'a str,
    body: &'a str,
    timeout: i32,
    id: u32,
}

/// What a [`NotificationBuilder`] has been given so far.
pub struct NotificationBuilderView {
    pub summary: Seq<char>,
    pub body: Seq<char>,
    pub timeout: i32,
    pub id: u32,
}

impl<'a> View for NotificationBuilder<'a> {
    type V = NotificationBuilderView;

    closed spec fn view(&self) -> NotificationBuilderView {
        NotificationBuilderView {
            summary: self.summary@,
            body: self.body@,
            timeout: self.timeout,
            id: self.id,
        }
    }
}

impl NotificationBuilderView {
    /// The notification that is sent for what the builder was given: the
    /// texts, the timeout and the id as they came.
    pub open spec fn sent(self) -> NotificationView {
        NotificationView {
            app_name: APP_NAME@,
            replaces_id: self.id,
            app_icon: APP_ICON@,
            summary: self.summary,
            body: self.body,
            expire_timeout: self.timeout,
        }
    }
}

impl<'a> NotificationBuilder<'a> {
    /// A builder that was given nothing yet: empty texts, the service's
    /// default timeout, and the id of a new notification.
    pub fn new() -> (builder: NotificationBuilder<'a>)
        ensures
            builder@ == (NotificationBuilderView {
                summary: Seq::empty(),
                body: Seq::empty(),
                timeout: 0,
                id: 0,
            }),
    {
        let builder = NotificationBuilder { summary: "", body: "", timeout: 0, id: 0 };
        proof {
            reveal_strlit("");
            assert(builder.summary@ =~= Seq::<char>::empty());
        }
        builder
    }

    /// The builder with `summary` as its summary.
    pub fn with_summary(self, summary: &'a str) -> (builder: Self)
        ensures
            builder@ == (NotificationBuilderView { summary: summary@, ..self@ }),
    {
        NotificationBuilder { summary, ..self }
    }

    /// The builder with `body` as its body.
    pub fn with_body(self, body: &'a str) -> (builder: Self)
        ensures
            builder@ == (NotificationBuilderView { body: body@, ..self@ }),
    {
        NotificationBuilder { body, ..self }
    }

    /// The builder with `timeout` as its timeout.
    pub fn with_timeout(self, timeout: i32) -> (builder: Self)
        ensures
            builder@ == (NotificationBuilderView { timeout, ..self@ }),
    {
        NotificationBuilder { timeout, ..self }
    }

    /// The builder with `id` as the id of the notification to replace.
    pub fn with_id(self, id: u32) -> (builder: Self)
        ensures
            builder@ == (NotificationBuilderView { id, ..self@ }),
    {
        NotificationBuilder { id, ..self }
    }

    /// The notification to hand to the notification service.
    pub fn send(self) -> (notification: Notification<'a>)
        ensures
            notification@ == self@.sent(),
    {
        Notification {
            app_name: APP_NAME,
            replaces_id: self.id,
            app_icon: APP_ICON,
            summary: self.summary,
            body: self.body,
            expire_timeout: self.timeout,
        }
    }
}

} // verus!
