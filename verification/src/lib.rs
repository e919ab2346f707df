//! Core of a local-notification binding for iOS.
//!
//! The notification framework of the operating system does all real work:
//! it asks the user for permission, keeps the schedule and delivers. This
//! crate is the part of a binding that needs no platform to run:
//!
//! - [`permission`] names the permission flags;
//! - each operation that returns nothing builds a [`Command`], a plain value
//!   that says which platform entry point is to be called and with which
//!   arguments;
//! - each query turns the platform's answer, a list of [`PlatformRecord`]s,
//!   into the [`NotificationRequest`]s that the caller receives.
//!
//! Performing a command and fetching an answer are left to the code that
//! links against the platform.
//!
//! ```ignore
//! use ios_local_notification::{permission, request_permission, schedule};
//!
//! // Ask for alerts and sounds, then show a notification after 5 seconds.
//! let ask = request_permission(permission::ALERT | permission::SOUND);
//! let show = schedule("id1", "Hello", "World", 5);
//! ```

pub mod command;
pub mod notification;
pub mod permission;

pub use command::{
    clear_all_delivered, clear_all_pending, remove_by_id, request_permission,
    request_permission_default, schedule, schedule_image, schedule_repeat, Command, CommandView,
};
pub use notification::{
    delivered_notifications, pending_notifications, requests_match, NotificationRequest,
    NotificationView, PlatformRecord,
};
