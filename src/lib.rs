//! A text editor's core: the editor state and its transitions on what the dialogs and the
//! file system report, and the text of the system readouts.

pub mod decimal;
pub mod metrics;
pub mod state;
