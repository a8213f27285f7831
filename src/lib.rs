//! A headless modal text-editing engine: buffers of lines, a cursor, and the
//! Normal / Insert / Visual / operator-pending state machine that interprets
//! typed input, with verified contracts. Reading and writing files is left to
//! the host, which the engine asks for through `Effect` values and feeds back
//! through `FileRead` values.
pub mod buffer;
pub mod command;
pub mod editing;
pub mod editor;
pub mod keys;
pub mod laws;
pub mod mode;
pub mod text;

pub use buffer::{Buffer, FileRead, IndexError, LoadError, SaveError};
pub use command::{parse_command, CommandError, ExCommand};
pub use editing::{apply_key, EditContext, Pending, VisualKind};
pub use editor::{CursorPosition, Editor, Effect};
pub use keys::key_code;
pub use mode::{checked_mode, mode_code, mode_from_code, ModeError, VimMode};
pub use text::{join_lines, split_lines};
