//! Modal key engine: keys, key sequences, actions, keymaps and the
//! per-mode dispatch state machine.
pub mod action;
pub mod engine;
pub mod key;
pub mod keymap;
pub mod keyseq;
pub mod laws;
pub mod mode;

pub use action::Action;
pub use engine::{Engine, KeymapSet, Outcome};
pub use key::{Key, KeySym, Modifiers};
pub use keymap::{Keymap, Lookup};
pub use keyseq::KeySeq;
pub use mode::Mode;
