//! Selection and ordering rules for a menu that lists the pending desktop
//! notifications and dismisses the one the user picks.
//!
//! The crate holds the decisions only: how a notification is shown, in what
//! order the queue is listed, which notification a picked line stands for,
//! and what a run does next after each outcome of its outside collaborators.
//! Talking to the notification daemon and to the menu is left to the caller.

pub mod notification;
pub mod ordering;
pub mod presenter;
pub mod session;

pub use notification::Notification;
pub use ordering::order;
pub use presenter::{display_lines, menu_style, resolve, MenuStyle};
pub use session::{step, Action, Event, State, EXIT_FAILURE, EXIT_SUCCESS};
