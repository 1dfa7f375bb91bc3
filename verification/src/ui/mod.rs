//! Decisions behind the GTK shell: command parsing, key translation, the
//! composer's modal editing rules, sidebar navigation and the onboarding
//! flow's pure steps.
pub mod commands;
pub mod input;
pub mod new_chat;
pub mod onboarding;
pub mod events;
pub mod composer;
pub mod dispatcher;
pub mod window;
pub mod laws;
pub mod history;
pub mod statusline;
