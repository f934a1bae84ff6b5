//! Notification wording and delivery decisions for the OverLearn desktop shell.

pub mod commands;
pub mod notifications;
pub mod text;
pub mod tray;
