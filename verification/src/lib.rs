//! Atlas: a desktop shell whose persistent UI state and settings-dialog
//! state machine are specified and verified.
//!
//! The library holds the data model (theme, panel flags, connection
//! settings), the edit/commit/cancel discipline of the settings dialog,
//! the per-frame update step, and the snapshot lifecycle with its
//! merge-with-defaults rule. The rendering toolkit around it only reports
//! events into `frame::FrameInput` and reads the resulting state back.

pub mod settings;
pub mod shell;
pub mod snapshot;
pub mod frame;
