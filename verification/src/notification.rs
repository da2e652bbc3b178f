//! The notification record and its display line.

use vstd::prelude::*;
use vstd::string::*;

verus! {

/// A pending notification, as the daemon reports it.
#[derive(Debug, PartialEq, Eq)]
pub struct Notification {
    /// Identifier assigned by the daemon; all that is needed to dismiss it.
    pub id: u32,
    /// Display name of the application that raised the notification.
    pub app_name: String,
    /// Short headline.
    pub summary: String,
    /// Longer detail; may be empty.
    pub body: String,
    /// Sort key: a higher value is listed earlier.
    pub urgency: u32,
}

/// The mathematical value of a [`Notification`].
pub ghost struct NotificationView {
    pub id: u32,
    pub app_name: Seq<char>,
    pub summary: Seq<char>,
    pub body: Seq<char>,
    pub urgency: u32,
}

impl View for Notification {
    type V = NotificationView;

    open spec fn view(&self) -> NotificationView {
        NotificationView {
            id: self.id,
            app_name: self.app_name@,
            summary: self.summary@,
            body: self.body@,
            urgency: self.urgency,
        }
    }
}

/// What stands between the application name and the summary.
pub open spec fn name_separator() -> Seq<char> {
    seq![':', ' ']
}

/// What stands between the summary and the body.
pub open spec fn body_separator() -> Seq<char> {
    seq![' ', '-', ' ']
}

/// The display line of a notification: `<app_name>: <summary> - <body>`.
pub open spec fn render_spec(n: NotificationView) -> Seq<char> {
    n.app_name + name_separator() + n.summary + body_separator() + n.body
}

/// The views of a sequence of notifications, element by element.
pub open spec fn views(s: Seq<Notification>) -> Seq<NotificationView> {
    s.map_values(|n: Notification| n@)
}

impl Clone for Notification {
    fn clone(&self) -> (copy: Self)
        ensures
            copy == *self,
    {
        Notification {
            id: self.id,
            app_name: self.app_name.clone(),
            summary: self.summary.clone(),
            body: self.body.clone(),
            urgency: self.urgency,
        }
    }
}

impl Notification {
    /// The line under which the notification is listed in the menu.
    pub fn render(&self) -> (line: String)
        ensures
            line@ == render_spec(self@),
    {
        let mut line = self.app_name.clone();
        line.append(": ");
        line.append(self.summary.as_str());
        line.append(" - ");
        line.append(self.body.as_str());
        proof {
            reveal_strlit(": ");
            reveal_strlit(" - ");
            assert(": "@ =~= name_separator());
            assert(" - "@ =~= body_separator());
        }
        line
    }
}

/// The display line depends on the identifier and the three texts alone:
/// two notifications that agree on them are shown alike, whatever their
/// urgencies.
pub proof fn lemma_render_ignores_urgency(a: NotificationView, b: NotificationView)
    requires
        a.id == b.id,
        a.app_name == b.app_name,
        a.summary == b.summary,
        a.body == b.body,
    ensures
        render_spec(a) == render_spec(b),
{
}

} // verus!
