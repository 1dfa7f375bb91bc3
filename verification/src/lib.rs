//! SigVim: the verified core of a vim-first Signal/Telegram desktop client.
//!
//! Everything here is toolkit-free and I/O-free: the modal key engine,
//! keymaps, command parsing, messenger identifiers, notification policy,
//! unread badges, input validation and the small decision tables that the
//! GTK shell consults.
pub mod text;
pub mod assoc;
pub mod cache;
pub mod error;
pub mod vim;
pub mod config;
pub mod messenger;
pub mod dbus;
pub mod notifications;
pub mod theme;
pub mod ui;
