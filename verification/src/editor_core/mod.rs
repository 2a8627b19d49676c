pub mod command;
pub mod session;

pub use command::EditorCommand;
pub use session::{EditorEntry, EditorSession, SessionView};
