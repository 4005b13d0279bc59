//! The core of a desktop shell that installs, starts, updates and removes a
//! background agent and its local GUI on macOS, on Linux and on Windows with
//! WSL 2: the rules by which the state of the agent is detected and by which
//! the actions on it proceed, stated and proved apart from the processes,
//! requests and dialogs that feed them.

pub mod decode;
pub mod dispatch;
pub mod error;
pub mod feedback;
pub mod lifecycle;
pub mod probe;
pub mod release;
pub mod runner;
pub mod text;
pub mod version;
