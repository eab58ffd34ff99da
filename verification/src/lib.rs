//! QuickPeek: the decision logic of a space-to-preview image viewer.
//!
//! The library holds the rules of the program: how command lines, window
//! titles, accessibility replies and the persisted selection are read, and
//! which step comes next while the selected file of a Dolphin window is
//! looked up over the accessibility bus. The program around it performs the
//! D-Bus calls and draws the window.

pub mod text;
pub mod dbus;
pub mod state;
pub mod probe;
pub mod window;
pub mod atspi;
pub mod resolver;
