//! A codec between typed notifications and a flat wire record made of a kind,
//! an optional actor id and a JSON object holding the remaining fields.

pub mod json;
pub mod notification;

pub use json::JsonObject;
pub use notification::{Notification, WireNotification};
