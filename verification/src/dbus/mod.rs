//! Input checks and payload shapes for the signal-cli D-Bus API.
//!
//! signal-cli exposes its API on the user session bus under the
//! well-known name `org.asamk.Signal`; per-account objects live at
//! `/org/asamk/Signal/_<digits>`. Everything the bus must never see
//! malformed (phone numbers, verification codes, device names) is
//! checked here first.
pub mod client;
pub mod stream;
