//! The command handlers and the window menu of a small desktop shell for
//! looking at e-mail.
//!
//! Everything here is plain data in and plain data out, so that the windowing
//! host only has to forward strings and turn the menu description into its
//! own widgets.
pub mod commands;
pub mod menu;
