//! Notifications as the platform reports them, and as callers receive them.

use vstd::prelude::*;

verus! {

broadcast use vstd::string::group_string_axioms;

/// A delivered or scheduled notification.
///
/// Returned by [`pending_notifications`] and [`delivered_notifications`].
#[derive(Debug, Clone)]
pub struct NotificationRequest {
    /// A developer-defined unique identifier for the notification.
    pub identifier: String,
    /// The main title of the notification.
    pub title: String,
    /// An optional subtitle for the notification.
    pub subtitle: String,
    /// The body text shown in the notification.
    pub body: String,
}

/// One notification in the platform's answer to a query: the four texts,
/// still in the platform's keeping.
#[derive(Debug, Clone, Copy)]
pub struct PlatformRecord<'a> {
    /// The identifier under which the notification was scheduled.
    pub identifier: &'a str,
    /// The title of the notification.
    pub title: &'a str,
    /// The subtitle of the notification.
    pub subtitle: &'a str,
    /// The body text of the notification.
    pub body: &'a str,
}

/// The four texts of a notification, each as its sequence of characters.
pub struct NotificationView {
    pub identifier: Seq<char>,
    pub title: Seq<char>,
    pub subtitle: Seq<char>,
    pub body: Seq<char>,
}

impl View for NotificationRequest {
    type V = NotificationView;

    open spec fn view(&self) -> NotificationView {
        NotificationView {
            identifier: self.identifier@,
            title: self.title@,
            subtitle: self.subtitle@,
            body: self.body@,
        }
    }
}

impl<'a> View for PlatformRecord<'a> {
    type V = NotificationView;

    open spec fn view(&self) -> NotificationView {
        NotificationView {
            identifier: self.identifier@,
            title: self.title@,
            subtitle: self.subtitle@,
            body: self.body@,
        }
    }
}

impl<'a, 'b> From<&'a PlatformRecord<'b>> for NotificationRequest {
    /// Copies the four texts of a record out of the platform's keeping.
    fn from(raw: &'a PlatformRecord<'b>) -> (request: Self)
        ensures
            request@ == raw@,
    {
        Self {
            identifier: raw.identifier.to_string(),
            title: raw.title.to_string(),
            subtitle: raw.subtitle.to_string(),
            body: raw.body.to_string(),
        }
    }
}

/// A request is made of fresh strings, which only their text pins down. So
/// `from` states its result by the view, and promises no particular value
/// of `from_spec`.
impl<'a, 'b> vstd::std_specs::convert::FromSpecImpl<&'a PlatformRecord<'b>> for NotificationRequest {
    open spec fn obeys_from_spec() -> bool {
        false
    }

    open spec fn from_spec(raw: &'a PlatformRecord<'b>) -> Self {
        choose|request: NotificationRequest| request@ == raw@
    }
}

/// The requests that a list of platform records stands for: one for each
/// record, in the same order, with the same four texts.
pub open spec fn requests_match(
    requests: Seq<NotificationRequest>,
    records: Seq<PlatformRecord>,
) -> bool {
    &&& requests.len() == records.len()
    &&& forall|i: int| 0 <= i < records.len() ==> (#[trigger] requests[i])@ == records[i]@
}

fn collect(records: &[PlatformRecord<'_>]) -> (requests: Vec<NotificationRequest>)
    ensures
        requests_match(requests@, records@),
{
    let mut requests: Vec<NotificationRequest> = Vec::with_capacity(records.len());
    let mut next: usize = 0;
    while next < records.len()
        invariant
            next <= records.len(),
            requests_match(requests@, records@.take(next as int)),
        decreases records.len() - next,
    {
        requests.push(NotificationRequest::from(&records[next]));
        next += 1;
    }
    requests
}

/// The list of all pending notifications, from the records with which the
/// platform answered the query for them.
pub fn pending_notifications(records: &[PlatformRecord<'_>]) -> (requests: Vec<NotificationRequest>)
    ensures
        requests_match(requests@, records@),
{
    collect(records)
}

/// The list of all delivered notifications, from the records with which the
/// platform answered the query for them.
pub fn delivered_notifications(records: &[PlatformRecord<'_>]) -> (requests: Vec<NotificationRequest>)
    ensures
        requests_match(requests@, records@),
{
    collect(records)
}

} // verus!
