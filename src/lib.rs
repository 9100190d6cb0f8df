//! Keyboard-input translation for an X11 terminal front-end.
//!
//! A key press, the terminal's mode flags, the shortcut table and the result
//! of the platform's composition lookup go in; what comes out is either
//! nothing (the keyboard is locked), the index of the shortcut to run, or the
//! exact bytes to send to the terminal.

pub mod compose;
pub mod error;
pub mod keys;
pub mod meta;
pub mod modes;
pub mod selection;
pub mod shortcut;
pub mod translate;

pub use error::XError;
pub use modes::{TermWindow, TerminalModeFlags, WindowMode};
pub use keys::{KeyEvent, KeySym};
pub use shortcut::{find_shortcut, Shortcut};
pub use compose::{composed_bytes, InputMethodEditor, LookupReport, LookupStrategy, XPoint};
pub use meta::meta_encode;
pub use translate::{key_press, KeyOutcome};
pub use selection::{Timespec, XSelection};
