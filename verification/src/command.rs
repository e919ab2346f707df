//! The operations of the binding that return nothing, as values.
//!
//! Each function here builds the [`Command`] for one operation. Nothing is
//! validated and nothing is changed on the way: the platform alone decides
//! what an identifier, a delay or a set of options is worth.

use vstd::prelude::*;

verus! {

/// One call into the platform's notification framework.
///
/// A command borrows its text from the caller; whoever performs it hands
/// the text to the platform before the borrow ends.
#[derive(Debug, Clone, Copy, PartialEq, Eq)]
pub enum Command<'a> {
    /// Ask for the platform's default set of permissions.
    RequestPermissionDefault,
    /// Ask for the permissions whose flags are set in `options`.
    RequestPermission { options: i32 },
    /// Show a notification once, `seconds` from now.
    Schedule { id: &'a str, title: &'a str, body: &'a str, seconds: isize },
    /// Show a notification every `seconds`.
    ScheduleRepeat { id: &'a str, title: &'a str, body: &'a str, seconds: isize },
    /// Show a notification with the image at `image` attached, `seconds` from now.
    ScheduleImage { id: &'a str, title: &'a str, body: &'a str, image: &'a str, seconds: isize },
    /// Drop every notification that is scheduled and not yet delivered.
    ClearAllPending,
    /// Drop every notification that was delivered.
    ClearAllDelivered,
    /// Drop the notification with this identifier.
    RemoveById { id: &'a str },
}

/// What a [`Command`] says, with each text as its sequence of characters.
pub enum CommandView {
    RequestPermissionDefault,
    RequestPermission { options: i32 },
    Schedule { id: Seq<char>, title: Seq<char>, body: Seq<char>, seconds: isize },
    ScheduleRepeat { id: Seq<char>, title: Seq<char>, body: Seq<char>, seconds: isize },
    ScheduleImage {
        id: Seq<char>,
        title: Seq<char>,
        body: Seq<char>,
        image: Seq<char>,
        seconds: isize,
    },
    ClearAllPending,
    ClearAllDelivered,
    RemoveById { id: Seq<char> },
}

impl<'a> View for Command<'a> {
    type V = CommandView;

    open spec fn view(&self) -> CommandView {
        match *self {
            Command::RequestPermissionDefault => CommandView::RequestPermissionDefault,
            Command::RequestPermission { options } => CommandView::RequestPermission { options },
            Command::Schedule { id, title, body, seconds } => CommandView::Schedule {
                id: id@,
                title: title@,
                body: body@,
                seconds,
            },
            Command::ScheduleRepeat { id, title, body, seconds } => CommandView::ScheduleRepeat {
                id: id@,
                title: title@,
                body: body@,
                seconds,
            },
            Command::ScheduleImage { id, title, body, image, seconds } => CommandView::ScheduleImage {
                id: id@,
                title: title@,
                body: body@,
                image: image@,
                seconds,
            },
            Command::ClearAllPending => CommandView::ClearAllPending,
            Command::ClearAllDelivered => CommandView::ClearAllDelivered,
            Command::RemoveById { id } => CommandView::RemoveById { id: id@ },
        }
    }
}

/// Request the default notification permissions.
pub fn request_permission_default() -> (command: Command<'static>)
    ensures
        command@ == CommandView::RequestPermissionDefault,
{
    Command::RequestPermissionDefault
}

/// Request notification permissions with custom options: any combination of
/// the flags in [`permission`](crate::permission). The options are passed on
/// as they are.
pub fn request_permission(options: i32) -> (command: Command<'static>)
    ensures
        command@ == (CommandView::RequestPermission { options }),
{
    Command::RequestPermission { options }
}

/// Schedule a one-time notification.
///
/// - `id`: unique identifier for the notification.
/// - `title`: notification title.
/// - `body`: notification body text.
/// - `seconds`: delay before the notification is shown.
pub fn schedule<'a>(
    id: &'a str,
    title: &'a str,
    body: &'a str,
    seconds: isize,
) -> (command: Command<'a>)
    ensures
        command@ == (CommandView::Schedule { id: id@, title: title@, body: body@, seconds }),
{
    Command::Schedule { id, title, body, seconds }
}

/// Schedule a notification that repeats every `seconds`.
pub fn schedule_repeat<'a>(
    id: &'a str,
    title: &'a str,
    body: &'a str,
    seconds: isize,
) -> (command: Command<'a>)
    ensures
        command@ == (CommandView::ScheduleRepeat { id: id@, title: title@, body: body@, seconds }),
{
    Command::ScheduleRepeat { id, title, body, seconds }
}

/// Schedule a one-time notification that shows the image at `image`.
pub fn schedule_image<'a>(
    id: &'a str,
    title: &'a str,
    body: &'a str,
    image: &'a str,
    seconds: isize,
) -> (command: Command<'a>)
    ensures
        command@ == (CommandView::ScheduleImage {
            id: id@,
            title: title@,
            body: body@,
            image: image@,
            seconds,
        }),
{
    Command::ScheduleImage { id, title, body, image, seconds }
}

/// Clear all pending notifications: those scheduled but not yet delivered.
pub fn clear_all_pending() -> (command: Command<'static>)
    ensures
        command@ == CommandView::ClearAllPending,
{
    Command::ClearAllPending
}

/// Clear all delivered notifications: those already shown.
pub fn clear_all_delivered() -> (command: Command<'static>)
    ensures
        command@ == CommandView::ClearAllDelivered,
{
    Command::ClearAllDelivered
}

/// Remove a notification by its identifier.
pub fn remove_by_id<'a>(id: &'a str) -> (command: Command<'a>)
    ensures
        command@ == (CommandView::RemoveById { id: id@ }),
{
    Command::RemoveById { id }
}

} // verus!
