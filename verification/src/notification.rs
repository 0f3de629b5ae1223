//! The record of one desktop notification as it travels between nodes.

use vstd::prelude::*;

verus! {

/// A point in time, counted from the start of 1970 (UTC).
#[derive(Clone, Copy, Debug, PartialEq, Eq, Structural, Hash)]
pub struct Timestamp {
    pub secs: u64,
    pub nanos: u32,
}

/// One notification captured on a desktop.
#[derive(Clone, Debug, PartialEq, Eq)]
pub struct Notification {
    pub app_name: String,
    pub app_icon: Option<Vec<u8>>,
    pub title: String,
    pub message: String,
    pub timestamp: Timestamp,
}

/// What a [`Notification`] holds, as mathematical values.
pub struct NotificationView {
    pub app_name: Seq<char>,
    pub app_icon: Option<Seq<u8>>,
    pub title: Seq<char>,
    pub message: Seq<char>,
    pub timestamp: Timestamp,
}

impl View for Notification {
    type V = NotificationView;

    open spec fn view(&self) -> NotificationView {
        NotificationView {
            app_name: self.app_name@,
            app_icon: match self.app_icon {
                Some(icon) => Some(icon@),
                None => None,
            },
            title: self.title@,
            message: self.message@,
            timestamp: self.timestamp,
        }
    }
}

/// One argument of a call on the message bus of the desktop: a string, or a
/// value of another kind.
#[derive(Clone, Debug, PartialEq, Eq)]
pub enum Field {
    Str(String),
    Other,
}

/// What a [`Field`] holds, as a mathematical value.
pub enum FieldView {
    Str(Seq<char>),
    Other,
}

impl View for Field {
    type V = FieldView;

    open spec fn view(&self) -> FieldView {
        match self {
            Field::Str(s) => FieldView::Str(s@),
            Field::Other => FieldView::Other,
        }
    }
}

impl DeepView for Field {
    type V = FieldView;

    open spec fn deep_view(&self) -> FieldView {
        self@
    }
}

/// A call by which an application asks the desktop to show a notification,
/// as far as it is forwarded: who calls, the name of its icon, and the two
/// texts.
#[derive(Clone, Debug, PartialEq, Eq)]
pub struct NotifyCall {
    pub app_name: String,
    pub icon: String,
    pub title: String,
    pub message: String,
}

/// What a [`NotifyCall`] holds, as mathematical values.
pub struct NotifyCallView {
    pub app_name: Seq<char>,
    pub icon: Seq<char>,
    pub title: Seq<char>,
    pub message: Seq<char>,
}

impl View for NotifyCall {
    type V = NotifyCallView;

    open spec fn view(&self) -> NotifyCallView {
        NotifyCallView {
            app_name: self.app_name@,
            icon: self.icon@,
            title: self.title@,
            message: self.message@,
        }
    }
}

/// Why a call on the bus was not taken for a notification.
#[derive(Clone, Copy, Debug, PartialEq, Eq, Structural)]
pub enum CaptureError {
    /// The call does not have the arguments of a notification.
    NotNotification,
}

/// The notification in the arguments of a call: the first, third, fourth
/// and fifth argument, where all four are strings; they are the name of the
/// application, the name of its icon, the title and the text. The second
/// argument and those after the fifth do not matter.
pub open spec fn notify_call_of(fields: Seq<FieldView>) -> Option<NotifyCallView> {
    if fields.len() >= 5 {
        match (fields[0], fields[2], fields[3], fields[4]) {
            (
                FieldView::Str(app_name),
                FieldView::Str(icon),
                FieldView::Str(title),
                FieldView::Str(message),
            ) => Some(NotifyCallView { app_name, icon, title, message }),
            _ => None,
        }
    } else {
        None
    }
}

/// Reads the arguments of a call on the bus as a notification.
pub fn parse_notification(fields: &Vec<Field>) -> (r: Result<NotifyCall, CaptureError>)
    ensures
        match r {
            Ok(call) => notify_call_of(fields.deep_view()) == Some(call@),
            Err(e) => notify_call_of(fields.deep_view()) is None && e
                == CaptureError::NotNotification,
        },
{
    if fields.len() < 5 {
        return Err(CaptureError::NotNotification);
    }
    match (&fields[0], &fields[2], &fields[3], &fields[4]) {
        (Field::Str(app_name), Field::Str(icon), Field::Str(title), Field::Str(message)) => Ok(
            NotifyCall {
                app_name: app_name.clone(),
                icon: icon.clone(),
                title: title.clone(),
                message: message.clone(),
            },
        ),
        _ => Err(CaptureError::NotNotification),
    }
}

impl NotifyCall {
    /// The notification that the call asks for, with the picture of its
    /// icon, if one was found, and the time at which it was seen.
    pub fn into_notification(self, app_icon: Option<Vec<u8>>, timestamp: Timestamp) -> (n:
        Notification)
        ensures
            n@ == (NotificationView {
                app_name: self@.app_name,
                app_icon: match app_icon {
                    Some(icon) => Some(icon@),
                    None => None,
                },
                title: self@.title,
                message: self@.message,
                timestamp,
            }),
    {
        Notification {
            app_name: self.app_name,
            app_icon,
            title: self.title,
            message: self.message,
            timestamp,
        }
    }
}

} // verus!
