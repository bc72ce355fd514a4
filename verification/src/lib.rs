//! The verified core of a minimal plain-text editor: the file-name and window-title
//! rules, the document state machine behind New / Open / Save / Save As, the menu and
//! delegate tables, and the few values the Cocoa front end hands across.
pub mod path;
pub mod editor;
pub mod menu;
pub mod runtime;
pub mod window;
