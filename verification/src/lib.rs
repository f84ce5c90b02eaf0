//! Locates the runnable binary target of a project tree and prepares the
//! launch of a hardware emulator against its compiled artifact.
//!
//! The core of the library is binary-target resolution: reading the candidate
//! binary names out of a project manifest (expanding workspace members where
//! present) and selecting exactly one of them, with precise disambiguation
//! rules when several candidates exist. Around it stand the path computations
//! of the launcher: where the firmware image, the compiled artifact and the
//! staged boot directory live, and which arguments the emulator is given.

pub mod error;
pub mod launch;
pub mod manifest;
pub mod resolve;
pub mod select;
