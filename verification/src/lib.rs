//! Core of a line-oriented terminal text editor: a text buffer with
//! cursor-relative editing operations, a viewport that tracks the cursor,
//! a session state machine that dispatches input events, and the launch menu.
//!
//! All terminal and file I/O lives outside this crate; the library works on
//! plain values (lines as vectors of characters) and is verified.

pub mod buffer;
pub mod codec;
pub mod menu;
pub mod session;
pub mod viewport;

pub use buffer::CursorPosition;
pub use buffer::Editor;
pub use menu::Menu;
pub use session::EditSession;
pub use session::InputEvent;
pub use session::SessionAction;
pub use session::SessionState;
