//! Permission flags for [`request_permission`](crate::request_permission).
//!
//! Each flag is one bit; combine flags with bitwise OR (`|`).

use vstd::prelude::*;

verus! {

/// Display alert banners and popups.
pub const ALERT: i32 = 0b000001;

/// Play sounds for notifications.
pub const SOUND: i32 = 0b000010;

/// Show a badge on the app icon.
pub const BADGE: i32 = 0b000100;

/// Display notifications while connected to CarPlay.
pub const CARPLAY: i32 = 0b001000;

/// Allow critical alerts, which bypass Do Not Disturb.
pub const CRITICAL_ALERT: i32 = 0b010000;

/// Grant provisional authorization: notifications are delivered quietly.
pub const PROVISIONAL: i32 = 0b100000;

} // verus!
